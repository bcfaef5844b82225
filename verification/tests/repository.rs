use email_confirmation_service::email_confirmation_request::{
    EmailConfirmationRequest, SanitizedEmailConfirmationRequest, Status,
};
use email_confirmation_service::email_confirmation_request_service::{
    found_or_missing, refuse_duplicate, require_present, ApiBody, EmailConfirmationRequestService,
    ScanCursor, ScanPage, ScanStep, ServiceError,
};
use email_confirmation_service::handler_params::QueryParams;

fn record(email: &str, client_id: &str, request_id: &str) -> EmailConfirmationRequest {
    EmailConfirmationRequest::with_signature_key(
        email.to_string(),
        client_id.to_string(),
        request_id.to_string(),
        "http://cb".to_string(),
        "key".to_string(),
        1000,
    )
}

fn filled(n: usize) -> EmailConfirmationRequestService {
    let mut service = EmailConfirmationRequestService::new("requests");
    for i in 0..n {
        let result = service.post_email_confirmation_request(record("a@x.com", "c1", &format!("r{}", i)));
        assert_eq!(result, Ok(ApiBody::Message("Request added.".to_string())));
    }
    service
}

fn keys(records: &Vec<SanitizedEmailConfirmationRequest>) -> Vec<String> {
    records.iter().map(|r| r.pk.clone()).collect()
}

fn no_filter() -> QueryParams {
    QueryParams { email: None, client_id: None, request_id: None }
}

#[test]
fn second_creation_with_same_identity_already_exists() {
    let mut service = EmailConfirmationRequestService::new("requests");
    let first = record("a@x.com", "c1", "r1");
    let mut second = record("a@x.com", "c1", "r1");
    second.callback_url = "http://other".to_string();
    second.signature_key = "other-key".to_string();
    assert_eq!(
        service.post_email_confirmation_request(first.clone()),
        Ok(ApiBody::Message("Request added.".to_string()))
    );
    assert_eq!(service.post_email_confirmation_request(second), Err(ServiceError::AlreadyExists));
    assert_eq!(
        service.get_email_confirmation_request_internal("a@x.com#c1#r1".to_string()),
        Ok(first)
    );
    assert_eq!(service.scan_all(10).len(), 1);
}

#[test]
fn creation_with_any_differing_component_succeeds() {
    let mut service = EmailConfirmationRequestService::new("requests");
    let all = vec![
        record("a@x.com", "c1", "r1"),
        record("b@x.com", "c1", "r1"),
        record("a@x.com", "c2", "r1"),
        record("a@x.com", "c1", "r2"),
    ];
    for r in all.iter() {
        assert_eq!(
            service.post_email_confirmation_request(r.clone()),
            Ok(ApiBody::Message("Request added.".to_string()))
        );
    }
    assert_eq!(
        keys(&service.scan_all(3)),
        vec!["a@x.com#c1#r1", "b@x.com#c1#r1", "a@x.com#c2#r1", "a@x.com#c1#r2"]
    );
}

#[test]
fn delimiter_inside_components_makes_identities_collide() {
    let mut service = EmailConfirmationRequestService::new("requests");
    assert!(service.post_email_confirmation_request(record("a#b", "c", "r")).is_ok());
    assert_eq!(
        service.post_email_confirmation_request(record("a", "b#c", "r")),
        Err(ServiceError::AlreadyExists)
    );
}

#[test]
fn request_exist_tells_stored_keys() {
    let service = filled(2);
    assert!(service.request_exist("a@x.com#c1#r0"));
    assert!(service.request_exist("a@x.com#c1#r1"));
    assert!(!service.request_exist("a@x.com#c1#r2"));
    assert!(!service.request_exist(""));
}

#[test]
fn get_unknown_key_is_not_found() {
    let service = filled(1);
    assert_eq!(
        service.get_email_confirmation_request_single("nobody".to_string()),
        Err(ServiceError::NotFound("nobody".to_string()))
    );
    assert_eq!(
        service.get_email_confirmation_request_internal("nobody".to_string()),
        Err(ServiceError::NotFound("nobody".to_string()))
    );
}

#[test]
fn get_single_is_sanitized() {
    let service = filled(1);
    assert_eq!(
        service.get_email_confirmation_request_single("a@x.com#c1#r0".to_string()),
        Ok(ApiBody::Request(record("a@x.com", "c1", "r0").sanitize()))
    );
}

#[test]
fn update_sets_status_and_time_and_nothing_else() {
    let mut service = filled(3);
    let updated = service
        .put_email_confirmation_request_status("a@x.com#c1#r1".to_string(), Status::Pending, 2000)
        .unwrap();
    let mut expected = record("a@x.com", "c1", "r1");
    expected.status = Status::Pending;
    expected.updated_at = 2000;
    assert_eq!(updated, expected);
    assert_eq!(
        service.get_email_confirmation_request_internal("a@x.com#c1#r1".to_string()),
        Ok(expected)
    );
    assert_eq!(
        service.get_email_confirmation_request_internal("a@x.com#c1#r0".to_string()),
        Ok(record("a@x.com", "c1", "r0"))
    );
    assert_eq!(
        service.get_email_confirmation_request_internal("a@x.com#c1#r2".to_string()),
        Ok(record("a@x.com", "c1", "r2"))
    );
    assert_eq!(
        keys(&service.scan_all(2)),
        vec!["a@x.com#c1#r0", "a@x.com#c1#r1", "a@x.com#c1#r2"]
    );
}

#[test]
fn update_is_unconditional() {
    let mut service = filled(1);
    let pk = "a@x.com#c1#r0".to_string();
    service.put_email_confirmation_request_status(pk.clone(), Status::Done, 9).unwrap();
    let back = service.put_email_confirmation_request_status(pk, Status::Queued, 3).unwrap();
    assert_eq!(back.status, Status::Queued);
    assert_eq!(back.updated_at, 3);
}

#[test]
fn update_unknown_key_is_not_found() {
    let mut service = filled(1);
    assert_eq!(
        service.put_email_confirmation_request_status("nobody".to_string(), Status::Pending, 5),
        Err(ServiceError::NotFound("nobody".to_string()))
    );
    assert_eq!(service.scan_all(1), vec![record("a@x.com", "c1", "r0").sanitize()]);
}

#[test]
fn delete_removes_the_record() {
    let mut service = filled(3);
    assert_eq!(
        service.delete_email_confirmation_request_single("a@x.com#c1#r1".to_string()),
        Ok(ApiBody::Message("Request for pk: a@x.com#c1#r1 deleted.".to_string()))
    );
    assert!(!service.request_exist("a@x.com#c1#r1"));
    assert_eq!(keys(&service.scan_all(5)), vec!["a@x.com#c1#r0", "a@x.com#c1#r2"]);
    assert!(service.post_email_confirmation_request(record("a@x.com", "c1", "r1")).is_ok());
}

#[test]
fn delete_unknown_key_is_not_found() {
    let mut service = filled(2);
    assert_eq!(
        service.delete_email_confirmation_request_single("nobody".to_string()),
        Err(ServiceError::NotFound("nobody".to_string()))
    );
    assert_eq!(service.scan_all(5).len(), 2);
}

#[test]
fn scan_page_follows_continuations() {
    let service = filled(5);
    let first = service.scan_page(&None, 2);
    assert_eq!(keys(first.items.as_ref().unwrap()), vec!["a@x.com#c1#r0", "a@x.com#c1#r1"]);
    assert_eq!(first.last_evaluated_key, Some("a@x.com#c1#r1".to_string()));
    let second = service.scan_page(&first.last_evaluated_key, 2);
    assert_eq!(keys(second.items.as_ref().unwrap()), vec!["a@x.com#c1#r2", "a@x.com#c1#r3"]);
    assert_eq!(second.last_evaluated_key, Some("a@x.com#c1#r3".to_string()));
    let third = service.scan_page(&second.last_evaluated_key, 2);
    assert_eq!(keys(third.items.as_ref().unwrap()), vec!["a@x.com#c1#r4"]);
    assert_eq!(third.last_evaluated_key, None);
}

#[test]
fn scan_page_that_ends_on_the_last_record_has_no_continuation() {
    let service = filled(4);
    let page = service.scan_page(&Some("a@x.com#c1#r1".to_string()), 2);
    assert_eq!(keys(page.items.as_ref().unwrap()), vec!["a@x.com#c1#r2", "a@x.com#c1#r3"]);
    assert_eq!(page.last_evaluated_key, None);
}

#[test]
fn scan_page_behind_unknown_key_is_empty() {
    let service = filled(3);
    let page = service.scan_page(&Some("nobody".to_string()), 2);
    assert_eq!(page.items, Some(vec![]));
    assert_eq!(page.last_evaluated_key, None);
}

#[test]
fn scan_all_returns_every_record_once_whatever_the_page_size() {
    for n in 0..8usize {
        let service = filled(n);
        let expected: Vec<String> = (0..n).map(|i| format!("a@x.com#c1#r{}", i)).collect();
        for page_size in 1..10usize {
            assert_eq!(keys(&service.scan_all(page_size)), expected);
        }
        assert_eq!(keys(&service.scan_all(usize::MAX)), expected);
    }
}

#[test]
fn listing_without_full_filter_returns_all() {
    let service = filled(3);
    let expected: Vec<SanitizedEmailConfirmationRequest> =
        (0..3).map(|i| record("a@x.com", "c1", &format!("r{}", i)).sanitize()).collect();
    assert_eq!(
        service.get_email_confirmation_requests(no_filter()),
        Ok(ApiBody::Requests(expected.clone()))
    );
    let partial = QueryParams { email: Some("a@x.com".to_string()), client_id: None, request_id: None };
    assert_eq!(service.get_email_confirmation_requests(partial), Ok(ApiBody::Requests(expected)));
}

#[test]
fn listing_of_more_records_than_one_page_holds() {
    let service = filled(250);
    match service.get_email_confirmation_requests(no_filter()) {
        Ok(ApiBody::Requests(requests)) => {
            assert_eq!(requests.len(), 250);
            assert_eq!(requests[0].pk, "a@x.com#c1#r0");
            assert_eq!(requests[249].pk, "a@x.com#c1#r249");
        }
        other => panic!("unexpected listing: {:?}", other),
    }
}

#[test]
fn listing_with_full_filter_returns_the_single_record() {
    let service = filled(3);
    let filter = QueryParams {
        email: Some("a@x.com".to_string()),
        client_id: Some("c1".to_string()),
        request_id: Some("r2".to_string()),
    };
    assert_eq!(
        service.get_email_confirmation_requests(filter),
        Ok(ApiBody::Request(record("a@x.com", "c1", "r2").sanitize()))
    );
    let unknown = QueryParams {
        email: Some("a@x.com".to_string()),
        client_id: Some("c1".to_string()),
        request_id: Some("r9".to_string()),
    };
    assert_eq!(
        service.get_email_confirmation_requests(unknown),
        Err(ServiceError::NotFound("a@x.com#c1#r9".to_string()))
    );
}

#[test]
fn cursor_collects_pages_until_no_continuation() {
    let item = |i: usize| record("a@x.com", "c1", &format!("r{}", i)).sanitize();
    let mut cursor = ScanCursor::start();
    assert_eq!(cursor.step(), ScanStep::Fetch(None));
    cursor.absorb(ScanPage { items: Some(vec![item(0), item(1)]), last_evaluated_key: Some("k1".to_string()) });
    assert_eq!(cursor.step(), ScanStep::Fetch(Some("k1".to_string())));
    cursor.absorb(ScanPage { items: Some(vec![]), last_evaluated_key: Some("k2".to_string()) });
    assert_eq!(cursor.step(), ScanStep::Fetch(Some("k2".to_string())));
    cursor.absorb(ScanPage { items: Some(vec![item(2)]), last_evaluated_key: None });
    assert_eq!(cursor.step(), ScanStep::Finished);
    assert_eq!(cursor.into_requests(), vec![item(0), item(1), item(2)]);
}

#[test]
fn cursor_follows_the_continuation_of_a_page_without_records() {
    let item = |i: usize| record("a@x.com", "c1", &format!("r{}", i)).sanitize();
    let mut cursor = ScanCursor::start();
    cursor.absorb(ScanPage { items: Some(vec![item(0)]), last_evaluated_key: Some("k".to_string()) });
    cursor.absorb(ScanPage { items: None, last_evaluated_key: Some("more".to_string()) });
    assert_eq!(cursor.step(), ScanStep::Fetch(Some("more".to_string())));
    cursor.absorb(ScanPage { items: Some(vec![]), last_evaluated_key: Some("still".to_string()) });
    assert_eq!(cursor.step(), ScanStep::Fetch(Some("still".to_string())));
    cursor.absorb(ScanPage { items: Some(vec![item(1)]), last_evaluated_key: None });
    assert_eq!(cursor.step(), ScanStep::Finished);
    assert_eq!(cursor.into_requests(), vec![item(0), item(1)]);

    let mut first = ScanCursor::start();
    first.absorb(ScanPage { items: None, last_evaluated_key: Some("k".to_string()) });
    assert_eq!(first.step(), ScanStep::Fetch(Some("k".to_string())));

    let mut empty = ScanCursor::start();
    empty.absorb(ScanPage { items: None, last_evaluated_key: None });
    assert_eq!(empty.step(), ScanStep::Finished);
    assert_eq!(empty.into_requests(), vec![]);
}

#[test]
fn cursor_that_has_finished_takes_in_nothing() {
    let item = |i: usize| record("a@x.com", "c1", &format!("r{}", i)).sanitize();
    let mut cursor = ScanCursor::start();
    cursor.absorb(ScanPage { items: Some(vec![item(0)]), last_evaluated_key: None });
    assert_eq!(cursor.step(), ScanStep::Finished);
    cursor.absorb(ScanPage { items: Some(vec![item(1)]), last_evaluated_key: Some("k".to_string()) });
    assert_eq!(cursor.step(), ScanStep::Finished);
    assert_eq!(cursor.into_requests(), vec![item(0)]);
}

#[test]
fn store_refusals_are_decided_from_what_the_store_holds() {
    assert_eq!(refuse_duplicate(false), Ok(()));
    assert_eq!(refuse_duplicate(true), Err(ServiceError::AlreadyExists));
    assert_eq!(require_present(true, "k"), Ok(()));
    assert_eq!(require_present(false, "k"), Err(ServiceError::NotFound("k".to_string())));
    let stored = record("a@x.com", "c1", "r1");
    assert_eq!(found_or_missing(Some(stored.clone()), "a@x.com#c1#r1"), Ok(stored));
    assert_eq!(found_or_missing(None, "k"), Err(ServiceError::NotFound("k".to_string())));
}
