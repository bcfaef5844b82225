use email_confirmation_service::email_confirmation_request::{
    EmailConfirmationMinimalRequest, Status,
};
use email_confirmation_service::email_confirmation_request_service::{
    ApiBody, EmailConfirmationRequestService,
};
use email_confirmation_service::handler::{
    create_signature, post_email_confirmation_request, signature_is_valid,
};
use email_confirmation_service::link_click::function_handler;
use email_confirmation_service::workflow_reactor::{process_event, ChangeEvent};

fn change(service: &EmailConfirmationRequestService, name: &str) -> ChangeEvent {
    ChangeEvent {
        event_name: name.to_string(),
        event_source: Some("aws:dynamodb".to_string()),
        new_image: service.get_email_confirmation_request_internal("a@x.com#c1#r1".to_string()).unwrap(),
    }
}

#[test]
fn request_runs_from_queued_to_done() {
    let mut service = EmailConfirmationRequestService::new("requests");
    let created = post_email_confirmation_request(
        &mut service,
        EmailConfirmationMinimalRequest {
            email: "a@x.com".to_string(),
            client_id: "c1".to_string(),
            request_id: "r1".to_string(),
            callback_url: "http://cb".to_string(),
        },
        1000,
    );
    assert_eq!(created.status_code, 200);
    assert_eq!(created.body, ApiBody::Message("Request added.".to_string()));
    let queued = service.get_email_confirmation_request_internal("a@x.com#c1#r1".to_string()).unwrap();
    assert_eq!(queued.status, Status::Queued);

    let insert = change(&service, "INSERT");
    let report = process_event(&mut service, &insert, 1010, "https://click", true);
    let pending = service.get_email_confirmation_request_internal("a@x.com#c1#r1".to_string()).unwrap();
    assert_eq!(pending.status, Status::Pending);
    assert_eq!(pending.updated_at, 1010);
    assert!(report.callback.is_none());
    let email = report.email.expect("one email is dispatched");
    assert_eq!(email.address, "a@x.com");
    assert_eq!(email.subject, "Please, confirm your email.");
    let token = create_signature(&pending);
    let link = format!("https://click/confirm?principal=a%40x.com%23c1%23r1&signature={}", token);
    assert_eq!(
        email.message,
        format!(
            "Hi! to confirm your email address, click the link below. The link will expire on 1970-01-01 01:16:40 UTC. \n\n {}. ",
            link
        )
    );
    assert!(signature_is_valid(token.clone(), &pending));
    assert!(!signature_is_valid(token.clone(), &queued));

    let page = function_handler(
        &mut service,
        "/confirm",
        "POST",
        Some("a@x.com#c1#r1".to_string()),
        Some(token),
        1020,
        "https://click",
    );
    assert!(page.unwrap().contains("Your email address 'a@x.com' is confirmed."));
    let confirmed = service.get_email_confirmation_request_internal("a@x.com#c1#r1".to_string()).unwrap();
    assert_eq!(confirmed.status, Status::Confirmed);
    assert_eq!(confirmed.updated_at, 1020);

    let modify = change(&service, "MODIFY");
    let report = process_event(&mut service, &modify, 1030, "https://click", true);
    assert!(report.email.is_none());
    let callback = report.callback.expect("one callback is dispatched");
    assert_eq!(callback.url, "http://cb");
    let mut payload = serde_json::Map::new();
    payload.insert("email".to_string(), serde_json::Value::String(callback.message.email.clone()));
    payload.insert(
        "status".to_string(),
        serde_json::Value::String(callback.message.status.to_string()),
    );
    assert_eq!(
        serde_json::Value::Object(payload).to_string(),
        "{\"email\":\"a@x.com\",\"status\":\"Confirmed\"}"
    );
    let done = service.get_email_confirmation_request_internal("a@x.com#c1#r1".to_string()).unwrap();
    assert_eq!(done.status, Status::Done);
    assert_eq!(done.updated_at, 1030);
    assert_eq!(done.signature_key, queued.signature_key);
    assert_eq!(done.created_at, 1000);
    assert_eq!(done.expires_at, 4600);
}
