//! The shapes exchanged with the upstream service, each with its
//! mathematical view.

use vstd::prelude::*;

verus! {

/// What an activity is: four pieces of text.
pub ghost struct ActivityView {
    pub id: Seq<char>,
    pub name: Seq<char>,
    pub color: Seq<char>,
    pub integration: Seq<char>,
}

/// An activity as the upstream service reports it.
#[derive(Debug)]
pub struct ActivityResponse {
    pub id: String,
    pub name: String,
    pub color: String,
    pub integration: String,
}

impl View for ActivityResponse {
    type V = ActivityView;

    open spec fn view(&self) -> ActivityView {
        ActivityView {
            id: self.id@,
            name: self.name@,
            color: self.color@,
            integration: self.integration@,
        }
    }
}

impl DeepView for ActivityResponse {
    type V = ActivityView;

    open spec fn deep_view(&self) -> ActivityView {
        self@
    }
}

impl Clone for ActivityResponse {
    fn clone(&self) -> (copy: Self)
        ensures
            copy@ == self@,
    {
        ActivityResponse {
            id: self.id.clone(),
            name: self.name.clone(),
            color: self.color.clone(),
            integration: self.integration.clone(),
        }
    }
}

/// The upstream listing of all activities, in upstream order.
#[derive(Debug)]
pub struct ActivitiesResponse {
    pub activities: Vec<ActivityResponse>,
}

impl View for ActivitiesResponse {
    type V = Seq<ActivityView>;

    open spec fn view(&self) -> Seq<ActivityView> {
        self.activities.deep_view()
    }
}

/// What a request to create an activity says.
pub ghost struct ActivityRequestView {
    pub name: Seq<char>,
    pub color: Seq<char>,
    pub integration: Seq<char>,
}

/// The fields of an activity that is to be created.
#[derive(Debug)]
pub struct ActivityRequest {
    pub name: String,
    pub color: String,
    pub integration: String,
}

impl View for ActivityRequest {
    type V = ActivityRequestView;

    open spec fn view(&self) -> ActivityRequestView {
        ActivityRequestView { name: self.name@, color: self.color@, integration: self.integration@ }
    }
}

/// What a request to edit an activity says: an absent field is left as it
/// is upstream.
pub ghost struct EditActivityRequestView {
    pub name: Option<Seq<char>>,
    pub color: Option<Seq<char>>,
}

/// The fields of an activity that are to be changed.
#[derive(Debug)]
pub struct EditActivityRequest {
    pub name: Option<String>,
    pub color: Option<String>,
}

impl View for EditActivityRequest {
    type V = EditActivityRequestView;

    open spec fn view(&self) -> EditActivityRequestView {
        EditActivityRequestView {
            name: match self.name {
                Some(name) => Some(name@),
                None => None,
            },
            color: match self.color {
                Some(color) => Some(color@),
                None => None,
            },
        }
    }
}

/// What the upstream service answers to a deletion: a list of complaints.
#[derive(Debug)]
pub struct ErrorListResponse {
    pub errors: Vec<String>,
}

impl View for ErrorListResponse {
    type V = Seq<Seq<char>>;

    open spec fn view(&self) -> Seq<Seq<char>> {
        self.errors.deep_view()
    }
}

/// What the upstream service answers to a sign-in: the session token.
#[derive(Debug)]
pub struct SignInResponse {
    pub token: String,
}

impl View for SignInResponse {
    type V = Seq<char>;

    open spec fn view(&self) -> Seq<char> {
        self.token@
    }
}

} // verus!
