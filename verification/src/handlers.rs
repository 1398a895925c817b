//! The boundary layer: what the gateway answers, given what came back from
//! upstream.

use crate::data::{ActivitiesResponse, ActivityResponse, ActivityView, ErrorListResponse};
use crate::external;
use crate::external::{
    has_activity, is_first_with_id, lemma_first_with_id, lemma_lookup_first, listed_view,
    lookup_in, outcome_of, received, Exchange, UpstreamFailure,
};
use vstd::prelude::*;

verus! {

/// Status of a reply that carries what was asked for.
pub const STATUS_OK: u16 = 200;

/// Status of a reply to a request for an activity that is not there.
pub const STATUS_NOT_FOUND: u16 = 404;

/// Status of a reply to a request that failed upstream.
pub const STATUS_INTERNAL_SERVER_ERROR: u16 = 500;

/// Content type of the fixed error bodies.
pub const TEXT_PLAIN: &'static str = "text/plain";

/// Content type of the health reply.
pub const TEXT_PLAIN_UTF8: &'static str = "text/plain; charset=utf-8";

/// Content type of every reply that carries upstream data.
pub const APPLICATION_JSON: &'static str = "application/json";

/// The two ways in which a request can fail.
#[derive(Debug, Clone, Copy, PartialEq, Eq, Structural)]
pub enum AnalyzerError {
    /// The upstream call failed: no connection, an error status, or a body
    /// that could not be read.
    ExternalServiceError,
    /// The upstream listing holds no activity with the identifier asked for.
    ActivityNotFoundError,
}

/// The data that a successful reply carries.
#[derive(Debug)]
pub enum Payload {
    Activities(ActivitiesResponse),
    Activity(ActivityResponse),
    Deleted(ErrorListResponse),
}

/// What a payload is.
pub ghost enum PayloadView {
    Activities(Seq<ActivityView>),
    Activity(ActivityView),
    Deleted(Seq<Seq<char>>),
}

impl View for Payload {
    type V = PayloadView;

    open spec fn view(&self) -> PayloadView {
        match self {
            Payload::Activities(listing) => PayloadView::Activities(listing@),
            Payload::Activity(activity) => PayloadView::Activity(activity@),
            Payload::Deleted(outcome) => PayloadView::Deleted(outcome@),
        }
    }
}

/// The body of a reply: fixed text, or data to be written out as JSON.
#[derive(Debug)]
pub enum ReplyBody {
    Text(String),
    Json(Payload),
}

/// What the body of a reply is.
pub ghost enum ReplyBodyView {
    Text(Seq<char>),
    Json(PayloadView),
}

impl View for ReplyBody {
    type V = ReplyBodyView;

    open spec fn view(&self) -> ReplyBodyView {
        match self {
            ReplyBody::Text(text) => ReplyBodyView::Text(text@),
            ReplyBody::Json(payload) => ReplyBodyView::Json(payload@),
        }
    }
}

/// A reply to an inbound request.
#[derive(Debug)]
pub struct HttpReply {
    pub status: u16,
    pub content_type: String,
    pub body: ReplyBody,
}

/// What a reply is.
pub ghost struct HttpReplyView {
    pub status: int,
    pub content_type: Seq<char>,
    pub body: ReplyBodyView,
}

impl View for HttpReply {
    type V = HttpReplyView;

    open spec fn view(&self) -> HttpReplyView {
        HttpReplyView {
            status: self.status as int,
            content_type: self.content_type@,
            body: self.body@,
        }
    }
}

/// The reply that carries `payload`: status 200, JSON.
pub open spec fn json_reply(payload: PayloadView) -> HttpReplyView {
    HttpReplyView {
        status: 200,
        content_type: APPLICATION_JSON@,
        body: ReplyBodyView::Json(payload),
    }
}

/// The reply that reports `error`: 500 for a failure upstream, 404 for an
/// activity that is not there, each with its fixed plain-text body.
pub open spec fn error_reply(error: AnalyzerError) -> HttpReplyView {
    match error {
        AnalyzerError::ExternalServiceError => HttpReplyView {
            status: 500,
            content_type: TEXT_PLAIN@,
            body: ReplyBodyView::Text("external service error"@),
        },
        AnalyzerError::ActivityNotFoundError => HttpReplyView {
            status: 404,
            content_type: TEXT_PLAIN@,
            body: ReplyBodyView::Text("activity not found"@),
        },
    }
}

/// The reply to a health probe: status 200 and the text "OK".
pub open spec fn health_reply() -> HttpReplyView {
    HttpReplyView {
        status: 200,
        content_type: TEXT_PLAIN_UTF8@,
        body: ReplyBodyView::Text("OK"@),
    }
}

/// The result of a handler, as mathematics sees it.
pub open spec fn outcome_view(result: Result<HttpReply, AnalyzerError>) -> Result<
    HttpReplyView,
    AnalyzerError,
> {
    match result {
        Ok(reply) => Ok(reply@),
        Err(error) => Err(error),
    }
}

/// What a handler that passes upstream data on makes of an upstream call:
/// the data as JSON, or a failure of the external service.
pub open spec fn upstream_outcome(upstream: Result<PayloadView, UpstreamFailure>) -> Result<
    HttpReplyView,
    AnalyzerError,
> {
    match upstream {
        Ok(payload) => Ok(json_reply(payload)),
        Err(_) => Err(AnalyzerError::ExternalServiceError),
    }
}

/// What the handler for a single activity makes of the listing call: the
/// activity that the lookup yields as JSON, or the error of the lookup.
pub open spec fn activity_outcome(
    listed: Result<Seq<ActivityView>, UpstreamFailure>,
    id: Seq<char>,
) -> Result<HttpReplyView, AnalyzerError> {
    match lookup_in(listed, id) {
        Ok(activity) => Ok(json_reply(PayloadView::Activity(activity))),
        Err(error) => Err(error),
    }
}

/// The reply that goes out for the result of a handler.
pub open spec fn rendered(result: Result<HttpReplyView, AnalyzerError>) -> HttpReplyView {
    match result {
        Ok(reply) => reply,
        Err(error) => error_reply(error),
    }
}

/// How the call for an activity went, as mathematics sees it.
pub open spec fn activity_view(upstream: Result<ActivityResponse, UpstreamFailure>) -> Result<
    PayloadView,
    UpstreamFailure,
> {
    match upstream {
        Ok(activity) => Ok(PayloadView::Activity(activity@)),
        Err(failure) => Err(failure),
    }
}

/// How the call for the listing went, as mathematics sees it.
pub open spec fn activities_view(upstream: Result<ActivitiesResponse, UpstreamFailure>) -> Result<
    PayloadView,
    UpstreamFailure,
> {
    match upstream {
        Ok(listing) => Ok(PayloadView::Activities(listing@)),
        Err(failure) => Err(failure),
    }
}

/// How the call for a deletion went, as mathematics sees it.
pub open spec fn deleted_view(upstream: Result<ErrorListResponse, UpstreamFailure>) -> Result<
    PayloadView,
    UpstreamFailure,
> {
    match upstream {
        Ok(outcome) => Ok(PayloadView::Deleted(outcome@)),
        Err(failure) => Err(failure),
    }
}

impl AnalyzerError {
    /// The reply in which this error reaches the caller.
    pub fn error_response(&self) -> (reply: HttpReply)
        ensures
            reply@ == error_reply(*self),
    {
        match *self {
            AnalyzerError::ExternalServiceError => HttpReply {
                status: STATUS_INTERNAL_SERVER_ERROR,
                content_type: TEXT_PLAIN.to_owned(),
                body: ReplyBody::Text("external service error".to_owned()),
            },
            AnalyzerError::ActivityNotFoundError => HttpReply {
                status: STATUS_NOT_FOUND,
                content_type: TEXT_PLAIN.to_owned(),
                body: ReplyBody::Text("activity not found".to_owned()),
            },
        }
    }

    /// The reply that is rendered for this error: the same as
    /// [`AnalyzerError::error_response`].
    pub fn render_response(&self) -> (reply: HttpReply)
        ensures
            reply@ == error_reply(*self),
    {
        self.error_response()
    }

    /// The name of the error, as it is written into logs.
    pub fn to_string(&self) -> (name: String)
        ensures
            name@ == match *self {
                AnalyzerError::ExternalServiceError => "External Service Error"@,
                AnalyzerError::ActivityNotFoundError => "Activity Not Found Error"@,
            },
    {
        match *self {
            AnalyzerError::ExternalServiceError => "External Service Error".to_owned(),
            AnalyzerError::ActivityNotFoundError => "Activity Not Found Error".to_owned(),
        }
    }
}

/// The reply to a health probe. It depends on nothing: not on the
/// session, not on the state of the upstream service.
pub fn health() -> (reply: HttpReply)
    ensures
        reply@ == health_reply(),
{
    HttpReply {
        status: STATUS_OK,
        content_type: TEXT_PLAIN_UTF8.to_owned(),
        body: ReplyBody::Text("OK".to_owned()),
    }
}

/// The reply that carries `data`: status 200, content type JSON.
pub fn json_ok(data: Payload) -> (reply: Result<HttpReply, AnalyzerError>)
    ensures
        reply is Ok,
        reply->Ok_0@ == json_reply(data@),
{
    Ok(HttpReply {
        status: STATUS_OK,
        content_type: APPLICATION_JSON.to_owned(),
        body: ReplyBody::Json(data),
    })
}

/// The reply to a request for all activities: the upstream listing as it
/// came, or a failure of the external service if it did not come.
pub fn get_activities(exchange: Exchange<ActivitiesResponse>) -> (reply: Result<
    HttpReply,
    AnalyzerError,
>)
    ensures
        outcome_view(reply) == upstream_outcome(activities_view(outcome_of(exchange))),
{
    match received(exchange) {
        Ok(listing) => json_ok(Payload::Activities(listing)),
        Err(_) => Err(AnalyzerError::ExternalServiceError),
    }
}

/// The reply to a request for the activity `activity_id`: the first
/// activity of the upstream listing with exactly that identifier, the
/// finding that there is none, or a failure of the external service if the
/// listing did not come.
pub fn get_activity(activity_id: &str, exchange: Exchange<ActivitiesResponse>) -> (reply: Result<
    HttpReply,
    AnalyzerError,
>)
    ensures
        outcome_view(reply) == activity_outcome(
            listed_view(outcome_of(exchange)),
            activity_id@,
        ),
        outcome_of(exchange) is Err ==> reply matches Err(AnalyzerError::ExternalServiceError),
        outcome_of(exchange) matches Ok(listing) ==> match reply {
            Ok(made) => exists|i: int|
                is_first_with_id(listing@, activity_id@, i) && made@ == json_reply(
                    PayloadView::Activity(#[trigger] listing@[i]),
                ),
            Err(error) => error == AnalyzerError::ActivityNotFoundError && !has_activity(
                listing@,
                activity_id@,
            ),
        },
{
    match external::get_activity(activity_id, exchange) {
        Ok(activity) => json_ok(Payload::Activity(activity)),
        Err(error) => Err(error),
    }
}

/// The reply to a request to create an activity: the activity as upstream
/// reports it, or a failure of the external service.
pub fn create_activity(exchange: Exchange<ActivityResponse>) -> (reply: Result<
    HttpReply,
    AnalyzerError,
>)
    ensures
        outcome_view(reply) == upstream_outcome(activity_view(outcome_of(exchange))),
{
    match received(exchange) {
        Ok(activity) => json_ok(Payload::Activity(activity)),
        Err(_) => Err(AnalyzerError::ExternalServiceError),
    }
}

/// The reply to a request to edit an activity: the activity as upstream
/// reports it after the change, or a failure of the external service.
pub fn edit_activity(exchange: Exchange<ActivityResponse>) -> (reply: Result<
    HttpReply,
    AnalyzerError,
>)
    ensures
        outcome_view(reply) == upstream_outcome(activity_view(outcome_of(exchange))),
{
    match received(exchange) {
        Ok(activity) => json_ok(Payload::Activity(activity)),
        Err(_) => Err(AnalyzerError::ExternalServiceError),
    }
}

/// The reply to a request to delete an activity: what upstream answered,
/// or a failure of the external service.
pub fn delete_activity(exchange: Exchange<ErrorListResponse>) -> (reply: Result<
    HttpReply,
    AnalyzerError,
>)
    ensures
        outcome_view(reply) == upstream_outcome(deleted_view(outcome_of(exchange))),
{
    match received(exchange) {
        Ok(outcome) => json_ok(Payload::Deleted(outcome)),
        Err(_) => Err(AnalyzerError::ExternalServiceError),
    }
}

/// The reply that goes out for the result of a handler: the reply itself,
/// or the one rendered for the error.
pub fn respond(result: Result<HttpReply, AnalyzerError>) -> (reply: HttpReply)
    ensures
        reply@ == rendered(outcome_view(result)),
{
    match result {
        Ok(made) => made,
        Err(error) => error.render_response(),
    }
}

/// A request for a single activity is answered with status 200 and the
/// first activity of the upstream listing whose identifier is exactly the
/// one asked for, and with status 404 and the text "activity not found" when
/// the listing has none.
pub proof fn law_single_activity(activities: Seq<ActivityView>, id: Seq<char>)
    ensures
        has_activity(activities, id) ==> exists|i: int|
            is_first_with_id(activities, id, i) && rendered(
                activity_outcome(Ok(activities), id),
            ) == json_reply(PayloadView::Activity(#[trigger] activities[i])),
        !has_activity(activities, id) ==> rendered(activity_outcome(Ok(activities), id))
            == (HttpReplyView {
            status: 404,
            content_type: "text/plain"@,
            body: ReplyBodyView::Text("activity not found"@),
        }),
{
    if has_activity(activities, id) {
        let i = lemma_first_with_id(activities, id);
        lemma_lookup_first(activities, id, i);
    }
}

/// Whatever the operation, an upstream call that fails is answered with
/// status 500 and the text "external service error": where no response
/// came, where its status reports an error, and where its body could not be
/// read. For a single activity this holds too: a listing that could not be
/// had is no finding that the activity is missing.
pub proof fn law_upstream_failure(
    listing: Exchange<ActivitiesResponse>,
    activity: Exchange<ActivityResponse>,
    deletion: Exchange<ErrorListResponse>,
    id: Seq<char>,
)
    ensures
        outcome_of(listing) is Err ==> rendered(
            upstream_outcome(activities_view(outcome_of(listing))),
        ) == service_error_reply(),
        outcome_of(listing) is Err ==> rendered(
            activity_outcome(listed_view(outcome_of(listing)), id),
        ) == service_error_reply(),
        outcome_of(activity) is Err ==> rendered(
            upstream_outcome(activity_view(outcome_of(activity))),
        ) == service_error_reply(),
        outcome_of(deletion) is Err ==> rendered(
            upstream_outcome(deleted_view(outcome_of(deletion))),
        ) == service_error_reply(),
{
}

/// The reply to a request that failed upstream, spelled out.
pub open spec fn service_error_reply() -> HttpReplyView {
    HttpReplyView {
        status: 500,
        content_type: "text/plain"@,
        body: ReplyBodyView::Text("external service error"@),
    }
}

/// What upstream reports comes back as it is: status 200, content type
/// JSON, and the very data.
pub proof fn law_upstream_data_verbatim(payload: PayloadView)
    ensures
        rendered(upstream_outcome(Ok(payload))) == (HttpReplyView {
            status: 200,
            content_type: "application/json"@,
            body: ReplyBodyView::Json(payload),
        }),
{
}

} // verus!
