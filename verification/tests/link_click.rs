use email_confirmation_service::email_confirmation_request::{EmailConfirmationRequest, Status};
use email_confirmation_service::email_confirmation_request_service::EmailConfirmationRequestService;
use email_confirmation_service::handler::create_signature;
use email_confirmation_service::link_click::{
    decide_click, expiration_date_is_valid, function_handler, get_confirm_button_response,
    get_confirmed_response, get_expired_response, route, ClickDecision, ClickError,
};

const EXPIRED_PAGE: &str = "<html><head>
            <title>Confirmation request expired</title>
        </head><body>
            <h1>Confirmation request expired.</h1>
            <p>Please, re-request confirmation.</p>
        </body><html>";

const BUTTON_PAGE: &str = "<html><head>
                <title>Confirm email address</title>
            </head><body>
                <h1>Confirm email address</h1>
                <p>Confirm your email address 'a@x.com' by clicking the button below.</p>
                <form method=\"POST\" action=\"https://click/confirm?principal=a%40x.com%23c1%23r1&signature=TOKEN\">
                    <input type=\"submit\" value=\"Confirm\" />
                </form>
            </body><html>";

const CONFIRMED_PAGE: &str = "<html><head>
            <title>Email address confirmed</title>
        </head><body>
            <h1>Email address confirmed</h1>
            <p>Your email address 'a@x.com' is confirmed.</p>
        </body><html>";

fn pending() -> EmailConfirmationRequest {
    let mut record = EmailConfirmationRequest::with_signature_key(
        "a@x.com".to_string(),
        "c1".to_string(),
        "r1".to_string(),
        "http://cb".to_string(),
        "key-1".to_string(),
        1000,
    );
    record.status = Status::Pending;
    record.updated_at = 1005;
    record
}

fn service() -> EmailConfirmationRequestService {
    let mut service = EmailConfirmationRequestService::new("requests");
    assert!(service.post_email_confirmation_request(pending()).is_ok());
    service
}

fn click(
    service: &mut EmailConfirmationRequestService,
    method: &str,
    signature: &str,
    now: u64,
) -> Result<String, ClickError> {
    function_handler(
        service,
        "/confirm",
        method,
        Some("a@x.com#c1#r1".to_string()),
        Some(signature.to_string()),
        now,
        "https://click",
    )
}

#[test]
fn pages_have_their_wording() {
    assert_eq!(get_expired_response(), EXPIRED_PAGE);
    assert_eq!(
        get_confirm_button_response("https://click", "a@x.com", "a@x.com#c1#r1", "TOKEN"),
        BUTTON_PAGE
    );
    assert_eq!(get_confirmed_response(&pending().sanitize()), CONFIRMED_PAGE);
}

#[test]
fn expiry_is_valid_up_to_and_including_the_expiry_time() {
    let record = pending().sanitize();
    assert_eq!(record.expires_at, 4600);
    assert!(expiration_date_is_valid(&record, 0));
    assert!(expiration_date_is_valid(&record, 4599));
    assert!(expiration_date_is_valid(&record, 4600));
    assert!(!expiration_date_is_valid(&record, 4601));
    assert!(!expiration_date_is_valid(&record, u64::MAX));
}

#[test]
fn decisions_put_expiry_first() {
    let record = pending().sanitize();
    assert_eq!(decide_click("GET", &record, 4600), ClickDecision::ShowConfirmButton);
    assert_eq!(decide_click("POST", &record, 4600), ClickDecision::Confirm);
    assert_eq!(decide_click("PUT", &record, 4600), ClickDecision::RejectMethod);
    assert_eq!(decide_click("get", &record, 4600), ClickDecision::RejectMethod);
    assert_eq!(decide_click("GET", &record, 4601), ClickDecision::ShowExpired);
    assert_eq!(decide_click("POST", &record, 4601), ClickDecision::ShowExpired);
    assert_eq!(decide_click("PUT", &record, 4601), ClickDecision::ShowExpired);
}

#[test]
fn get_shows_the_button_and_changes_nothing() {
    let mut service = service();
    let token = create_signature(&pending());
    let page = click(&mut service, "GET", &token, 2000).unwrap();
    assert_eq!(page, BUTTON_PAGE.replace("TOKEN", &token));
    assert_eq!(
        service.get_email_confirmation_request_internal("a@x.com#c1#r1".to_string()),
        Ok(pending())
    );
}

#[test]
fn post_confirms() {
    let mut service = service();
    let token = create_signature(&pending());
    assert_eq!(click(&mut service, "POST", &token, 2000), Ok(CONFIRMED_PAGE.to_string()));
    let stored = service.get_email_confirmation_request_internal("a@x.com#c1#r1".to_string()).unwrap();
    assert_eq!(stored.status, Status::Confirmed);
    assert_eq!(stored.updated_at, 2000);
}

#[test]
fn post_at_the_expiry_time_still_confirms() {
    let mut service = service();
    let token = create_signature(&pending());
    assert_eq!(click(&mut service, "POST", &token, 4600), Ok(CONFIRMED_PAGE.to_string()));
}

#[test]
fn expired_request_is_rejected_even_with_a_valid_token() {
    let mut service = service();
    let token = create_signature(&pending());
    for method in ["POST", "GET", "DELETE"] {
        assert_eq!(click(&mut service, method, &token, 4601), Ok(EXPIRED_PAGE.to_string()));
        assert_eq!(
            service.get_email_confirmation_request_internal("a@x.com#c1#r1".to_string()),
            Ok(pending())
        );
    }
}

#[test]
fn wrong_token_and_unknown_request_are_turned_away_alike() {
    let mut service = service();
    assert_eq!(click(&mut service, "POST", "bad", 2000), Err(ClickError::InvalidRequest));
    let unknown = function_handler(
        &mut service,
        "/confirm",
        "POST",
        Some("nobody".to_string()),
        Some(create_signature(&pending())),
        2000,
        "https://click",
    );
    assert_eq!(unknown, Err(ClickError::InvalidRequest));
    assert_eq!(
        service.get_email_confirmation_request_internal("a@x.com#c1#r1".to_string()),
        Ok(pending())
    );
}

#[test]
fn confirmed_link_cannot_be_used_twice() {
    let mut service = service();
    let token = create_signature(&pending());
    assert!(click(&mut service, "POST", &token, 2000).is_ok());
    assert_eq!(click(&mut service, "POST", &token, 2001), Err(ClickError::InvalidRequest));
    let stored = service.get_email_confirmation_request_internal("a@x.com#c1#r1".to_string()).unwrap();
    assert_eq!(stored.updated_at, 2000);
}

#[test]
fn other_paths_methods_and_missing_parameters() {
    let mut service = service();
    let token = create_signature(&pending());
    let other_path = function_handler(
        &mut service,
        "/confirmation",
        "GET",
        Some("a@x.com#c1#r1".to_string()),
        Some(token.clone()),
        2000,
        "https://click",
    );
    assert_eq!(other_path, Err(ClickError::InvalidPath("/confirmation".to_string())));
    assert_eq!(
        click(&mut service, "DELETE", &token, 2000),
        Err(ClickError::InvalidMethod("DELETE".to_string()))
    );
    let no_signature = function_handler(
        &mut service,
        "/confirm",
        "GET",
        Some("a@x.com#c1#r1".to_string()),
        None,
        2000,
        "https://click",
    );
    assert_eq!(no_signature, Err(ClickError::MissingParameter));
    let no_principal =
        function_handler(&mut service, "/confirm", "GET", None, Some(token), 2000, "https://click");
    assert_eq!(no_principal, Err(ClickError::MissingParameter));
}

#[test]
fn route_reads_key_and_token_off_the_click() {
    assert_eq!(
        route("/confirm", Some("k".to_string()), Some("s".to_string())),
        Ok(("k".to_string(), "s".to_string()))
    );
    assert_eq!(
        route("/", Some("k".to_string()), Some("s".to_string())),
        Err(ClickError::InvalidPath("/".to_string()))
    );
    assert_eq!(route("/other", None, None), Err(ClickError::InvalidPath("/other".to_string())));
    assert_eq!(route("/confirm", None, Some("s".to_string())), Err(ClickError::MissingParameter));
    assert_eq!(route("/confirm", Some("k".to_string()), None), Err(ClickError::MissingParameter));
}

#[test]
fn refusals_in_words() {
    assert_eq!(ClickError::InvalidPath("/x".to_string()).to_string(), "Invalid path: /x");
    assert_eq!(ClickError::InvalidMethod("PUT".to_string()).to_string(), "Invalid method: PUT");
    assert_eq!(ClickError::MissingParameter.to_string(), "Missing parameter");
    assert_eq!(ClickError::InvalidRequest.to_string(), "Invalid request");
}
