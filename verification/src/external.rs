//! The client layer: the one upstream request that each operation needs, and
//! the search of the listing that stands in for a lookup by identifier.

use crate::body::RequestBody;
use crate::data::{
    ActivitiesResponse, ActivityRequest, ActivityRequestView, ActivityResponse, ActivityView,
    EditActivityRequest, EditActivityRequestView,
};
use crate::handlers::AnalyzerError;
use vstd::prelude::*;

verus! {

/// Where the upstream service lives.
pub const BASE_URL: &'static str = "https://testing.timeular.com/api/v2";

/// That an upstream call came to nothing: no response, a status that
/// reports an error, or a body that is not of the expected shape.
#[derive(Debug, Clone, Copy, PartialEq, Eq, Structural)]
pub struct UpstreamFailure;

/// What came of sending a request upstream, as the transport saw it.
#[derive(Debug)]
pub enum Exchange<T> {
    /// No response came: the request could not be sent, or the connection
    /// broke.
    NoResponse,
    /// A response came. `body` is what its body was read as, and `None`
    /// where it could not be read as the shape expected.
    Response { status: u16, body: Option<T> },
}

/// What an exchange brought: the body of a response whose status is in the
/// range of success and whose body could be read; else a failure.
pub open spec fn outcome_of<T>(exchange: Exchange<T>) -> Result<T, UpstreamFailure> {
    match exchange {
        Exchange::Response { status, body: Some(body) } => if 200 <= status < 300 {
            Ok(body)
        } else {
            Err(UpstreamFailure)
        },
        _ => Err(UpstreamFailure),
    }
}

/// An exchange brings a body exactly when a response came, its status is
/// one of success (200 to 299), and its body could be read; the body it
/// brings is that one.
pub proof fn law_exchange<T>(exchange: Exchange<T>)
    ensures
        outcome_of(exchange) is Ok <==> (exchange matches Exchange::Response { status, body }
            && 200 <= status <= 299 && body is Some),
        outcome_of(exchange) matches Ok(brought) ==> exchange matches Exchange::Response {
            body: Some(read),
            ..
        } && brought == read,
{
}

/// Tells what an exchange brought.
pub fn received<T>(exchange: Exchange<T>) -> (outcome: Result<T, UpstreamFailure>)
    ensures
        outcome == outcome_of(exchange),
{
    match exchange {
        Exchange::Response { status, body: Some(body) } => {
            if 200 <= status && status < 300 {
                Ok(body)
            } else {
                Err(UpstreamFailure)
            }
        },
        _ => Err(UpstreamFailure),
    }
}

/// The method of an upstream request.
#[derive(Debug, Clone, Copy, PartialEq, Eq, Structural)]
pub enum Method {
    Get,
    Post,
    Patch,
    Delete,
}

/// An upstream request, ready to be sent.
#[derive(Debug)]
pub struct OutboundRequest {
    pub method: Method,
    pub url: String,
    /// The headers, each with its name and its value.
    pub headers: Vec<(String, String)>,
    /// The fields of the JSON object sent as the body, if there is a body.
    pub body: Option<RequestBody>,
}

/// What an upstream request is.
pub ghost struct OutboundRequestView {
    pub method: Method,
    pub url: Seq<char>,
    pub headers: Seq<(Seq<char>, Seq<char>)>,
    pub body: Option<Map<Seq<char>, Seq<char>>>,
}

impl View for OutboundRequest {
    type V = OutboundRequestView;

    open spec fn view(&self) -> OutboundRequestView {
        OutboundRequestView {
            method: self.method,
            url: self.url@,
            headers: self.headers.deep_view(),
            body: match self.body {
                Some(body) => Some(body@),
                None => None,
            },
        }
    }
}

/// The headers of a request that presents `jwt`: the one header
/// `Authorization`, with `jwt` as a bearer token.
pub open spec fn bearer(jwt: Seq<char>) -> Seq<(Seq<char>, Seq<char>)> {
    seq![("Authorization"@, "Bearer "@ + jwt)]
}

/// Where the activities are listed and created.
pub open spec fn activities_url() -> Seq<char> {
    BASE_URL@ + "/activities"@
}

/// Where the activity `id` is edited and deleted.
pub open spec fn activity_url(id: Seq<char>) -> Seq<char> {
    BASE_URL@ + "/activities/"@ + id
}

/// Where credentials are exchanged for a session token.
pub open spec fn sign_in_url() -> Seq<char> {
    BASE_URL@ + "/developer/sign-in"@
}

/// The body that creates an activity: its three fields, nothing else.
pub open spec fn create_body(activity: ActivityRequestView) -> Map<Seq<char>, Seq<char>> {
    Map::<Seq<char>, Seq<char>>::empty().insert("name"@, activity.name).insert(
        "color"@,
        activity.color,
    ).insert("integration"@, activity.integration)
}

/// The body that edits an activity: the fields that are present, nothing
/// else.
pub open spec fn edit_body(activity: EditActivityRequestView) -> Map<Seq<char>, Seq<char>> {
    let nothing = Map::<Seq<char>, Seq<char>>::empty();
    let named = match activity.name {
        Some(name) => nothing.insert("name"@, name),
        None => nothing,
    };
    match activity.color {
        Some(color) => named.insert("color"@, color),
        None => named,
    }
}

/// The body that signs in: key and secret.
pub open spec fn sign_in_body(api_key: Seq<char>, api_secret: Seq<char>) -> Map<
    Seq<char>,
    Seq<char>,
> {
    Map::<Seq<char>, Seq<char>>::empty().insert("apiKey"@, api_key).insert("apiSecret"@, api_secret)
}

/// Some activity of the listing has the identifier `id`.
pub open spec fn has_activity(activities: Seq<ActivityView>, id: Seq<char>) -> bool {
    exists|i: int| 0 <= i < activities.len() && (#[trigger] activities[i]).id == id
}

/// The activity at `i` has the identifier `id`, and none before it has.
pub open spec fn is_first_with_id(activities: Seq<ActivityView>, id: Seq<char>, i: int) -> bool {
    &&& 0 <= i < activities.len()
    &&& activities[i].id == id
    &&& forall|j: int| 0 <= j < i ==> (#[trigger] activities[j]).id != id
}

/// The activity that a lookup of `id` in the listing yields: the first one
/// whose identifier is exactly `id`, or the finding that there is none.
pub open spec fn lookup(activities: Seq<ActivityView>, id: Seq<char>) -> Result<
    ActivityView,
    AnalyzerError,
> {
    if has_activity(activities, id) {
        Ok(activities[choose|i: int| is_first_with_id(activities, id, i)])
    } else {
        Err(AnalyzerError::ActivityNotFoundError)
    }
}

/// What a lookup of `id` yields, given how the listing call went: a failed
/// call is a failure of the external service.
pub open spec fn lookup_in(
    listed: Result<Seq<ActivityView>, UpstreamFailure>,
    id: Seq<char>,
) -> Result<ActivityView, AnalyzerError> {
    match listed {
        Ok(activities) => lookup(activities, id),
        Err(_) => Err(AnalyzerError::ExternalServiceError),
    }
}

/// A listing that has an activity with a given identifier has a first one.
pub proof fn lemma_first_with_id(activities: Seq<ActivityView>, id: Seq<char>) -> (i: int)
    requires
        has_activity(activities, id),
    ensures
        is_first_with_id(activities, id, i),
    decreases activities.len(),
{
    let k = choose|k: int| 0 <= k < activities.len() && (#[trigger] activities[k]).id == id;
    if activities[0].id == id {
        0
    } else {
        let rest = activities.subrange(1, activities.len() as int);
        assert(rest[k - 1] == activities[k]);
        let r = lemma_first_with_id(rest, id);
        assert(rest[r] == activities[r + 1]);
        assert forall|j: int| 0 <= j < r + 1 implies (#[trigger] activities[j]).id != id by {
            if j > 0 {
                assert(rest[j - 1] == activities[j]);
            }
        }
        r + 1
    }
}

/// The first activity with a given identifier is the one that a lookup
/// yields.
pub proof fn lemma_lookup_first(activities: Seq<ActivityView>, id: Seq<char>, i: int)
    requires
        is_first_with_id(activities, id, i),
    ensures
        lookup(activities, id) == Ok::<ActivityView, AnalyzerError>(activities[i]),
{
    let k = choose|k: int| is_first_with_id(activities, id, k);
    assert(is_first_with_id(activities, id, k));
    assert(k == i) by {
        if k < i {
            assert(activities[k].id != id);
        }
        if i < k {
            assert(activities[i].id != id);
        }
    }
}

/// The request with the given method that presents `jwt` at `path`.
fn request(method: Method, path: &str, body: Option<RequestBody>, jwt: &str) -> (request:
    OutboundRequest)
    ensures
        request@ == (OutboundRequestView {
            method,
            url: path@,
            headers: bearer(jwt@),
            body: match body {
                Some(body) => Some(body@),
                None => None,
            },
        }),
{
    let mut headers: Vec<(String, String)> = Vec::new();
    headers.push(("Authorization".to_owned(), "Bearer ".to_owned().concat(jwt)));
    assert(headers.deep_view() =~= bearer(jwt@));
    OutboundRequest { method, url: path.to_owned(), headers, body }
}

/// The request that reads `path`.
pub fn get(path: &str, jwt: &str) -> (request: OutboundRequest)
    ensures
        request@ == (OutboundRequestView {
            method: Method::Get,
            url: path@,
            headers: bearer(jwt@),
            body: None,
        }),
{
    request(Method::Get, path, None, jwt)
}

/// The request that sends `body` to `path` to create something.
pub fn post(path: &str, body: RequestBody, jwt: &str) -> (request: OutboundRequest)
    ensures
        request@ == (OutboundRequestView {
            method: Method::Post,
            url: path@,
            headers: bearer(jwt@),
            body: Some(body@),
        }),
{
    request(Method::Post, path, Some(body), jwt)
}

/// The request that sends `body` to `path` to change something.
pub fn patch(path: &str, body: RequestBody, jwt: &str) -> (request: OutboundRequest)
    ensures
        request@ == (OutboundRequestView {
            method: Method::Patch,
            url: path@,
            headers: bearer(jwt@),
            body: Some(body@),
        }),
{
    request(Method::Patch, path, Some(body), jwt)
}

/// The request that deletes what is at `path`.
pub fn delete(path: &str, jwt: &str) -> (request: OutboundRequest)
    ensures
        request@ == (OutboundRequestView {
            method: Method::Delete,
            url: path@,
            headers: bearer(jwt@),
            body: None,
        }),
{
    request(Method::Delete, path, None, jwt)
}

/// The request that lists all activities.
pub fn get_activities(jwt: &str) -> (request: OutboundRequest)
    ensures
        request@ == (OutboundRequestView {
            method: Method::Get,
            url: activities_url(),
            headers: bearer(jwt@),
            body: None,
        }),
{
    let path = BASE_URL.to_owned().concat("/activities");
    get(path.as_str(), jwt)
}

/// Picks the activity `id` out of the listing.
///
/// The upstream service has no lookup by identifier, so the listing that
/// [`get_activities`] asks for is searched: the first activity whose
/// identifier is exactly `id` is the answer. A listing without one is
/// [`AnalyzerError::ActivityNotFoundError`]; a listing that could not be had
/// is [`AnalyzerError::ExternalServiceError`].
pub fn get_activity(id: &str, exchange: Exchange<ActivitiesResponse>) -> (found: Result<
    ActivityResponse,
    AnalyzerError,
>)
    ensures
        found_view(found) == lookup_in(listed_view(outcome_of(exchange)), id@),
        outcome_of(exchange) is Err ==> found matches Err(AnalyzerError::ExternalServiceError),
        outcome_of(exchange) matches Ok(listing) ==> match found {
            Ok(activity) => exists|i: int|
                is_first_with_id(listing@, id@, i) && activity@ == #[trigger] listing@[i],
            Err(error) => error == AnalyzerError::ActivityNotFoundError && !has_activity(
                listing@,
                id@,
            ),
        },
{
    let listed = received(exchange);
    let listing = match listed {
        Ok(listing) => listing,
        Err(_) => {
            return Err(AnalyzerError::ExternalServiceError);
        },
    };
    let cid = id.to_owned();
    let mut i: usize = 0;
    while i < listing.activities.len()
        invariant
            i <= listing.activities.len(),
            cid@ == id@,
            outcome_of(exchange) == Ok::<ActivitiesResponse, UpstreamFailure>(listing),
            forall|j: int| 0 <= j < i ==> (#[trigger] listing@[j]).id != id@,
        decreases listing.activities.len() - i,
    {
        if listing.activities[i].id == cid {
            proof {
                assert(listing@[i as int] == listing.activities[i as int]@);
                lemma_lookup_first(listing@, id@, i as int);
            }
            return Ok(listing.activities[i].clone());
        }
        assert(listing@[i as int] == listing.activities[i as int]@);
        i += 1;
    }
    assert(!has_activity(listing@, id@));
    Err(AnalyzerError::ActivityNotFoundError)
}

/// What a lookup found, as mathematics sees it.
pub open spec fn found_view(found: Result<ActivityResponse, AnalyzerError>) -> Result<
    ActivityView,
    AnalyzerError,
> {
    match found {
        Ok(activity) => Ok(activity@),
        Err(error) => Err(error),
    }
}

/// How a listing call went, as mathematics sees it.
pub open spec fn listed_view(listed: Result<ActivitiesResponse, UpstreamFailure>) -> Result<
    Seq<ActivityView>,
    UpstreamFailure,
> {
    match listed {
        Ok(listing) => Ok(listing@),
        Err(failure) => Err(failure),
    }
}

/// The request that creates `activity`.
pub fn create_activity(activity: &ActivityRequest, jwt: &str) -> (request: OutboundRequest)
    ensures
        request@ == (OutboundRequestView {
            method: Method::Post,
            url: activities_url(),
            headers: bearer(jwt@),
            body: Some(create_body(activity@)),
        }),
        request@.body matches Some(fields) && fields.dom() == set![
            "name"@,
            "color"@,
            "integration"@,
        ] && fields["name"@] == activity.name@ && fields["color"@] == activity.color@
            && fields["integration"@] == activity.integration@,
{
    proof {
        law_create_body(activity@);
    }
    let mut body = RequestBody::new();
    body.insert("name", activity.name.as_str());
    body.insert("color", activity.color.as_str());
    body.insert("integration", activity.integration.as_str());
    let path = BASE_URL.to_owned().concat("/activities");
    post(path.as_str(), body, jwt)
}

/// The request that changes the activity `id` as `activity` says.
pub fn edit_activity(id: &str, activity: &EditActivityRequest, jwt: &str) -> (request:
    OutboundRequest)
    ensures
        request@ == (OutboundRequestView {
            method: Method::Patch,
            url: activity_url(id@),
            headers: bearer(jwt@),
            body: Some(edit_body(activity@)),
        }),
        request@.body matches Some(fields) && (fields.contains_key("name"@)
            <==> activity.name is Some) && (fields.contains_key("color"@)
            <==> activity.color is Some) && (forall|field: Seq<char>| #[trigger]
            fields.contains_key(field) ==> field == "name"@ || field == "color"@),
        activity.name matches Some(name) ==> request@.body->0["name"@] == name@,
        activity.color matches Some(color) ==> request@.body->0["color"@] == color@,
{
    proof {
        law_edit_body(activity@);
    }
    let mut body = RequestBody::new();
    match &activity.name {
        Some(name) => body.insert("name", name.as_str()),
        None => None,
    };
    match &activity.color {
        Some(color) => body.insert("color", color.as_str()),
        None => None,
    };
    let path = BASE_URL.to_owned().concat("/activities/").concat(id);
    patch(path.as_str(), body, jwt)
}

/// The request that deletes the activity `id`.
pub fn delete_activity(id: &str, jwt: &str) -> (request: OutboundRequest)
    ensures
        request@ == (OutboundRequestView {
            method: Method::Delete,
            url: activity_url(id@),
            headers: bearer(jwt@),
            body: None,
        }),
{
    let path = BASE_URL.to_owned().concat("/activities/").concat(id);
    delete(path.as_str(), jwt)
}

/// The request that exchanges key and secret for a session token. It
/// presents no token of its own.
pub fn get_jwt(api_key: &str, api_secret: &str) -> (request: OutboundRequest)
    ensures
        request@ == (OutboundRequestView {
            method: Method::Post,
            url: sign_in_url(),
            headers: bearer(Seq::<char>::empty()),
            body: Some(sign_in_body(api_key@, api_secret@)),
        }),
        request@.body matches Some(fields) && fields.dom() == set!["apiKey"@, "apiSecret"@]
            && fields["apiKey"@] == api_key@ && fields["apiSecret"@] == api_secret@,
{
    proof {
        law_sign_in_body(api_key@, api_secret@);
    }
    let mut body = RequestBody::new();
    body.insert("apiKey", api_key);
    body.insert("apiSecret", api_secret);
    let jwt_path = BASE_URL.to_owned().concat("/developer/sign-in");
    let request = post(jwt_path.as_str(), body, "");
    proof {
        reveal_strlit("");
        assert(""@ =~= Seq::<char>::empty());
    }
    request
}

/// The body that creates an activity holds exactly the three fields
/// `name`, `color` and `integration`, each with the text it was given.
pub proof fn law_create_body(activity: ActivityRequestView)
    ensures
        create_body(activity).dom() == set!["name"@, "color"@, "integration"@],
        create_body(activity)["name"@] == activity.name,
        create_body(activity)["color"@] == activity.color,
        create_body(activity)["integration"@] == activity.integration,
{
    lemma_field_names_differ();
    assert(create_body(activity).dom() =~= set!["name"@, "color"@, "integration"@]);
}

/// The body that edits an activity holds a field exactly when the edit
/// gives it: `name` and `color`, each only if present, and nothing else.
pub proof fn law_edit_body(activity: EditActivityRequestView)
    ensures
        edit_body(activity).contains_key("name"@) <==> activity.name is Some,
        edit_body(activity).contains_key("color"@) <==> activity.color is Some,
        forall|field: Seq<char>| #[trigger]
            edit_body(activity).contains_key(field) ==> field == "name"@ || field == "color"@,
        activity.name is Some ==> edit_body(activity)["name"@] == activity.name->0,
        activity.color is Some ==> edit_body(activity)["color"@] == activity.color->0,
{
    lemma_field_names_differ();
}

/// The body that signs in holds exactly key and secret.
pub proof fn law_sign_in_body(api_key: Seq<char>, api_secret: Seq<char>)
    ensures
        sign_in_body(api_key, api_secret).dom() == set!["apiKey"@, "apiSecret"@],
        sign_in_body(api_key, api_secret)["apiKey"@] == api_key,
        sign_in_body(api_key, api_secret)["apiSecret"@] == api_secret,
{
    lemma_field_names_differ();
    assert(sign_in_body(api_key, api_secret).dom() =~= set!["apiKey"@, "apiSecret"@]);
}

/// The field names that share a body are different words.
proof fn lemma_field_names_differ()
    ensures
        "name"@ != "color"@,
        "name"@ != "integration"@,
        "color"@ != "integration"@,
        "apiKey"@ != "apiSecret"@,
{
    reveal_strlit("name");
    reveal_strlit("color");
    reveal_strlit("integration");
    reveal_strlit("apiKey");
    reveal_strlit("apiSecret");
    assert("name"@.len() == 4);
    assert("color"@.len() == 5);
    assert("integration"@.len() == 11);
    assert("apiKey"@.len() == 6);
    assert("apiSecret"@.len() == 9);
}

} // verus!
