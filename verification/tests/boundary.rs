use analyzer::data::{ActivitiesResponse, ActivityResponse, ErrorListResponse};
use analyzer::external::Exchange;
use analyzer::handlers::{
    create_activity, delete_activity, edit_activity, get_activities, get_activity, health,
    json_ok, respond, AnalyzerError, HttpReply, Payload, ReplyBody, APPLICATION_JSON,
    STATUS_INTERNAL_SERVER_ERROR, STATUS_NOT_FOUND, STATUS_OK, TEXT_PLAIN, TEXT_PLAIN_UTF8,
};

fn activity(id: &str, name: &str) -> ActivityResponse {
    ActivityResponse {
        id: id.to_string(),
        name: name.to_string(),
        color: "#abc".to_string(),
        integration: "zei".to_string(),
    }
}

fn two_activities() -> ActivitiesResponse {
    ActivitiesResponse { activities: vec![activity("a1", "Coding"), activity("a2", "Meeting")] }
}

fn ok<T>(body: T) -> Exchange<T> {
    Exchange::Response { status: 200, body: Some(body) }
}

fn text_of(reply: &HttpReply) -> Option<String> {
    match &reply.body {
        ReplyBody::Text(text) => Some(text.clone()),
        ReplyBody::Json(_) => None,
    }
}

fn activity_of(reply: &HttpReply) -> Option<(String, String, String, String)> {
    match &reply.body {
        ReplyBody::Json(Payload::Activity(a)) => {
            Some((a.id.clone(), a.name.clone(), a.color.clone(), a.integration.clone()))
        }
        _ => None,
    }
}

fn assert_service_error(reply: &HttpReply) {
    assert_eq!(reply.status, 500);
    assert_eq!(reply.content_type, "text/plain");
    assert_eq!(text_of(reply), Some("external service error".to_string()));
}

#[test]
fn the_constants_are_the_usual_ones() {
    assert_eq!(STATUS_OK, 200);
    assert_eq!(STATUS_NOT_FOUND, 404);
    assert_eq!(STATUS_INTERNAL_SERVER_ERROR, 500);
    assert_eq!(TEXT_PLAIN, "text/plain");
    assert_eq!(TEXT_PLAIN_UTF8, "text/plain; charset=utf-8");
    assert_eq!(APPLICATION_JSON, "application/json");
}

#[test]
fn health_is_ok() {
    let reply = health();
    assert_eq!(reply.status, 200);
    assert_eq!(reply.content_type, "text/plain; charset=utf-8");
    assert_eq!(text_of(&reply), Some("OK".to_string()));
}

#[test]
fn external_service_error_is_a_500() {
    let reply = AnalyzerError::ExternalServiceError.error_response();
    assert_service_error(&reply);
}

#[test]
fn activity_not_found_is_a_404() {
    let reply = AnalyzerError::ActivityNotFoundError.error_response();
    assert_eq!(reply.status, 404);
    assert_eq!(reply.content_type, "text/plain");
    assert_eq!(text_of(&reply), Some("activity not found".to_string()));
}

#[test]
fn render_response_is_error_response() {
    for error in [AnalyzerError::ExternalServiceError, AnalyzerError::ActivityNotFoundError] {
        let rendered = error.render_response();
        let made = error.error_response();
        assert_eq!(rendered.status, made.status);
        assert_eq!(rendered.content_type, made.content_type);
        assert_eq!(text_of(&rendered), text_of(&made));
        assert!(text_of(&rendered).is_some());
    }
}

#[test]
fn errors_have_names() {
    assert_eq!(AnalyzerError::ExternalServiceError.to_string(), "External Service Error");
    assert_eq!(AnalyzerError::ActivityNotFoundError.to_string(), "Activity Not Found Error");
}

#[test]
fn json_ok_wraps_the_data() {
    let reply = json_ok(Payload::Activity(activity("a1", "Coding"))).unwrap();
    assert_eq!(reply.status, 200);
    assert_eq!(reply.content_type, "application/json");
    assert_eq!(
        activity_of(&reply),
        Some(("a1".to_string(), "Coding".to_string(), "#abc".to_string(), "zei".to_string()))
    );
}

#[test]
fn get_activities_passes_the_listing_on() {
    let reply = respond(get_activities(ok(two_activities())));
    assert_eq!(reply.status, 200);
    assert_eq!(reply.content_type, "application/json");
    match reply.body {
        ReplyBody::Json(Payload::Activities(listing)) => {
            assert_eq!(listing.activities.len(), 2);
            assert_eq!(listing.activities[0].id, "a1");
            assert_eq!(listing.activities[0].name, "Coding");
            assert_eq!(listing.activities[1].id, "a2");
            assert_eq!(listing.activities[1].name, "Meeting");
        }
        _ => panic!("the reply does not carry the listing"),
    }
}

#[test]
fn get_activity_replies_with_the_matching_activity() {
    let reply = respond(get_activity("a2", ok(two_activities())));
    assert_eq!(reply.status, 200);
    assert_eq!(reply.content_type, "application/json");
    assert_eq!(
        activity_of(&reply),
        Some(("a2".to_string(), "Meeting".to_string(), "#abc".to_string(), "zei".to_string()))
    );
}

#[test]
fn get_activity_replies_404_for_an_unknown_id() {
    let result = get_activity("zz", ok(two_activities()));
    assert_eq!(result.as_ref().err(), Some(&AnalyzerError::ActivityNotFoundError));
    let reply = respond(result);
    assert_eq!(reply.status, 404);
    assert_eq!(reply.content_type, "text/plain");
    assert_eq!(text_of(&reply), Some("activity not found".to_string()));
}

#[test]
fn get_activity_replies_500_when_the_listing_fails() {
    let result = get_activity("a1", Exchange::NoResponse);
    assert_eq!(result.as_ref().err(), Some(&AnalyzerError::ExternalServiceError));
    assert_service_error(&respond(result));
}

#[test]
fn create_activity_returns_what_upstream_created() {
    let created = ActivityResponse {
        id: "77".to_string(),
        name: "Reading".to_string(),
        color: "#fff".to_string(),
        integration: "none".to_string(),
    };
    let reply = respond(create_activity(ok(created)));
    assert_eq!(reply.status, 200);
    assert_eq!(reply.content_type, "application/json");
    assert_eq!(
        activity_of(&reply),
        Some(("77".to_string(), "Reading".to_string(), "#fff".to_string(), "none".to_string()))
    );
}

#[test]
fn edit_activity_returns_what_upstream_reports() {
    let reply = respond(edit_activity(ok(activity("a1", "Focus"))));
    assert_eq!(reply.status, 200);
    assert_eq!(reply.content_type, "application/json");
    assert_eq!(
        activity_of(&reply),
        Some(("a1".to_string(), "Focus".to_string(), "#abc".to_string(), "zei".to_string()))
    );
}

#[test]
fn delete_activity_returns_the_deletion_result() {
    let outcome = ErrorListResponse { errors: vec!["in use".to_string()] };
    let reply = respond(delete_activity(ok(outcome)));
    assert_eq!(reply.status, 200);
    assert_eq!(reply.content_type, "application/json");
    match reply.body {
        ReplyBody::Json(Payload::Deleted(outcome)) => {
            assert_eq!(outcome.errors, vec!["in use".to_string()]);
        }
        _ => panic!("the reply does not carry the deletion result"),
    }
}

#[test]
fn a_failed_listing_is_a_500() {
    let result = get_activities(Exchange::NoResponse);
    assert_eq!(result.as_ref().err(), Some(&AnalyzerError::ExternalServiceError));
    assert_service_error(&respond(result));
}

#[test]
fn a_failed_creation_is_a_500() {
    let result = create_activity(Exchange::NoResponse);
    assert_eq!(result.as_ref().err(), Some(&AnalyzerError::ExternalServiceError));
    assert_service_error(&respond(result));
}

#[test]
fn a_failed_edit_is_a_500() {
    let result = edit_activity(Exchange::NoResponse);
    assert_eq!(result.as_ref().err(), Some(&AnalyzerError::ExternalServiceError));
    assert_service_error(&respond(result));
}

#[test]
fn a_failed_deletion_is_a_500() {
    let result = delete_activity(Exchange::NoResponse);
    assert_eq!(result.as_ref().err(), Some(&AnalyzerError::ExternalServiceError));
    assert_service_error(&respond(result));
}

#[test]
fn an_error_status_is_a_500_whatever_the_body() {
    let listed = Exchange::Response { status: 401, body: Some(two_activities()) };
    assert_service_error(&respond(get_activities(listed)));
    let listed = Exchange::Response { status: 503, body: Some(two_activities()) };
    assert_service_error(&respond(get_activity("a1", listed)));
    let created = Exchange::Response { status: 400, body: Some(activity("a1", "Coding")) };
    assert_service_error(&respond(create_activity(created)));
    let edited = Exchange::Response { status: 404, body: Some(activity("a1", "Coding")) };
    assert_service_error(&respond(edit_activity(edited)));
    let deleted = Exchange::Response { status: 500, body: Some(ErrorListResponse { errors: vec![] }) };
    assert_service_error(&respond(delete_activity(deleted)));
}

#[test]
fn an_unreadable_body_is_a_500() {
    assert_service_error(&respond(get_activities(Exchange::Response { status: 200, body: None })));
    assert_service_error(&respond(get_activity(
        "a1",
        Exchange::Response { status: 200, body: None },
    )));
    assert_service_error(&respond(create_activity(Exchange::Response { status: 200, body: None })));
    assert_service_error(&respond(edit_activity(Exchange::Response { status: 200, body: None })));
    assert_service_error(&respond(delete_activity(Exchange::Response { status: 200, body: None })));
}

#[test]
fn respond_leaves_a_reply_as_it_is() {
    let made = HttpReply {
        status: 200,
        content_type: "text/plain".to_string(),
        body: ReplyBody::Text("kept".to_string()),
    };
    let reply = respond(Ok(made));
    assert_eq!(reply.status, 200);
    assert_eq!(reply.content_type, "text/plain");
    assert_eq!(text_of(&reply), Some("kept".to_string()));
}
