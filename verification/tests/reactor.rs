use email_confirmation_service::email_confirmation_request::{
    EmailConfirmationRequest, EmailConfirmationServiceApiResponse, Status,
};
use email_confirmation_service::email_confirmation_request_service::{
    EmailConfirmationRequestService, ServiceError,
};
use email_confirmation_service::handler::create_signature;
use email_confirmation_service::links::confirmation_link_for;
use email_confirmation_service::service_client::{request_url, status_change_outcome, status_url};
use email_confirmation_service::workflow_reactor::{
    after_callback, callback_for, compose_confirmation_email, expiry_text, format_email,
    function_handler, plan, process_event, record_to_serve, transition_for, Callback,
    ChangeEvent, ConfirmationMessage, Email, ReactorAction, ReactorReport, Transition,
};

fn stream() -> Option<String> {
    Some("aws:dynamodb".to_string())
}

fn stored_record() -> EmailConfirmationRequest {
    EmailConfirmationRequest {
        pk: "email@example.com#me_myself_and_i-3#req-3".to_string(),
        email: "email@example.com".to_string(),
        client_id: "me_myself_and_i-3".to_string(),
        request_id: "req-3".to_string(),
        callback_url: "http://localhost:9000/email-confirmation".to_string(),
        signature_key: "75af2381-ecde-4113-af22-75c2c1407d98".to_string(),
        created_at: 1741592476,
        expires_at: 1741596076,
        updated_at: 1741592476,
        status: Status::Queued,
    }
}

fn test_event() -> ChangeEvent {
    ChangeEvent {
        event_name: "INSERT".to_string(),
        event_source: Some("aws:dynamodb".to_string()),
        new_image: stored_record(),
    }
}

fn service_with(record: EmailConfirmationRequest) -> EmailConfirmationRequestService {
    let mut service = EmailConfirmationRequestService::new("requests");
    assert!(service.post_email_confirmation_request(record).is_ok());
    service
}

fn nothing() -> ReactorReport {
    ReactorReport { email: None, callback: None }
}

#[test]
fn test_another_event_handler() {
    let mut service = service_with(stored_record());
    let reports =
        function_handler(&mut service, &vec![test_event()], 1741592500, "https://click.example", true);
    assert_eq!(reports.len(), 1);
    let report = &reports[0];
    let mut pending = stored_record();
    pending.status = Status::Pending;
    pending.updated_at = 1741592500;
    let link = format!(
        "https://click.example/confirm?principal=email%40example.com%23me_myself_and_i-3%23req-3&signature={}",
        create_signature(&pending)
    );
    assert_eq!(
        *report,
        ReactorReport {
            email: Some(Email {
                address: "email@example.com".to_string(),
                subject: "Please, confirm your email.".to_string(),
                message: format!(
                    "Hi! to confirm your email address, click the link below. The link will expire on 2025-03-10 08:41:16 UTC. \n\n {}. ",
                    link
                ),
            }),
            callback: None,
        }
    );
    assert_eq!(
        service.get_email_confirmation_request_internal(stored_record().pk),
        Ok(pending)
    );
}

#[test]
fn transitions_follow_the_table() {
    let statuses = vec![Status::Queued, Status::Pending, Status::Confirmed, Status::Expired, Status::Done];
    for status in statuses {
        let insert = transition_for("INSERT", &stream(), status);
        let modify = transition_for("MODIFY", &stream(), status);
        assert_eq!(insert, if status == Status::Queued { Some(Transition::SendConfirmation) } else { None });
        assert_eq!(modify, if status == Status::Confirmed { Some(Transition::TriggerCallback) } else { None });
        assert_eq!(transition_for("REMOVE", &stream(), status), None);
        assert_eq!(transition_for("insert", &stream(), status), None);
        assert_eq!(transition_for("", &stream(), status), None);
        assert_eq!(transition_for("INSERT", &None, status), None);
        assert_eq!(transition_for("MODIFY", &Some("aws:s3".to_string()), status), None);
        assert_eq!(transition_for("INSERT", &Some("".to_string()), status), None);
    }
}

#[test]
fn plan_for_a_queued_insert_is_the_signed_move_to_pending() {
    let record = stored_record();
    assert_eq!(
        plan("INSERT", &stream(), &record),
        ReactorAction::SetStatus {
            pk: record.pk.clone(),
            status: Status::Pending,
            signature: create_signature(&record),
        }
    );
}

#[test]
fn plan_for_a_confirmed_modify_is_the_callback() {
    let mut record = stored_record();
    record.status = Status::Confirmed;
    let expected = Callback {
        url: "http://localhost:9000/email-confirmation".to_string(),
        message: ConfirmationMessage { email: "email@example.com".to_string(), status: Status::Confirmed },
    };
    assert_eq!(plan("MODIFY", &stream(), &record), ReactorAction::PostCallback(expected));
    assert_eq!(callback_for(&record).url, "http://localhost:9000/email-confirmation");
}

#[test]
fn plan_ignores_everything_else() {
    let mut record = stored_record();
    assert_eq!(plan("MODIFY", &stream(), &record), ReactorAction::Ignore);
    assert_eq!(plan("INSERT", &None, &record), ReactorAction::Ignore);
    record.status = Status::Pending;
    assert_eq!(plan("INSERT", &stream(), &record), ReactorAction::Ignore);
    assert_eq!(plan("MODIFY", &stream(), &record), ReactorAction::Ignore);
    record.status = Status::Done;
    assert_eq!(plan("MODIFY", &stream(), &record), ReactorAction::Ignore);
}

#[test]
fn after_callback_moves_to_done_only_on_delivery() {
    let mut record = stored_record();
    record.status = Status::Confirmed;
    assert_eq!(
        after_callback(&record, true),
        ReactorAction::SetStatus {
            pk: record.pk.clone(),
            status: Status::Done,
            signature: create_signature(&record),
        }
    );
    assert_eq!(after_callback(&record, false), ReactorAction::Ignore);
}

#[test]
fn link_percent_encodes_the_key() {
    assert_eq!(
        confirmation_link_for("https://h", "a@x.com#c1#r1", "abc123"),
        "https://h/confirm?principal=a%40x.com%23c1%23r1&signature=abc123"
    );
    assert_eq!(
        confirmation_link_for("", "ü b~", ""),
        "/confirm?principal=%C3%BC%20b~&signature="
    );
    assert_eq!(
        confirmation_link_for("h", "AZaz09-._~", "s"),
        "h/confirm?principal=AZaz09-._~&signature=s"
    );
}

#[test]
fn expiry_is_rendered_in_utc() {
    assert_eq!(expiry_text(0), Some("1970-01-01 00:00:00 UTC".to_string()));
    assert_eq!(expiry_text(1741596076), Some("2025-03-10 08:41:16 UTC".to_string()));
    assert_eq!(expiry_text(1700003600), Some("2023-11-14 23:13:20 UTC".to_string()));
}

#[test]
fn expiry_beyond_the_calendar_has_no_text() {
    assert_eq!(expiry_text(u64::MAX), None);
    assert_eq!(expiry_text(1u64 << 63), None);
    assert_eq!(expiry_text(i64::MAX as u64), None);
}

#[test]
fn email_body_wording() {
    assert_eq!(
        format_email("2025-03-10 08:41:16 UTC", "https://h/confirm"),
        "Hi! to confirm your email address, click the link below. The link will expire on 2025-03-10 08:41:16 UTC. \n\n https://h/confirm. "
    );
}

#[test]
fn composed_email_without_a_date_is_none() {
    let mut record = stored_record();
    record.expires_at = u64::MAX;
    assert_eq!(compose_confirmation_email(&record, 5, "h"), None);
}

#[test]
fn redelivered_insert_changes_nothing_and_sends_nothing() {
    let mut service = service_with(stored_record());
    let first = process_event(&mut service, &test_event(), 1741592500, "https://click.example", true);
    assert!(first.email.is_some());
    let after_first = service.get_email_confirmation_request_internal(stored_record().pk).unwrap();
    assert_eq!(after_first.status, Status::Pending);
    assert_eq!(after_first.updated_at, 1741592500);

    let second = process_event(&mut service, &test_event(), 1741592777, "https://click.example", true);
    assert_eq!(second, nothing());
    assert_eq!(
        service.get_email_confirmation_request_internal(stored_record().pk),
        Ok(after_first.clone())
    );

    let same_second = process_event(&mut service, &test_event(), 1741592500, "https://click.example", true);
    assert_eq!(same_second, nothing());
    assert_eq!(service.get_email_confirmation_request_internal(stored_record().pk), Ok(after_first));
}

#[test]
fn exactly_one_email_over_many_deliveries() {
    let mut service = service_with(stored_record());
    let mut sent = 0;
    for round in 0..5u64 {
        let report = process_event(&mut service, &test_event(), 1741592500 + round, "h", true);
        if report.email.is_some() {
            sent += 1;
        }
    }
    assert_eq!(sent, 1);
}

#[test]
fn event_for_an_unknown_record_is_ignored() {
    let mut service = EmailConfirmationRequestService::new("requests");
    assert_eq!(process_event(&mut service, &test_event(), 5, "h", true), nothing());
    assert_eq!(service.scan_all(10), vec![]);
}

#[test]
fn event_from_another_source_or_of_another_kind_is_ignored() {
    let mut service = service_with(stored_record());
    let mut foreign = test_event();
    foreign.event_source = Some("aws:kinesis".to_string());
    assert_eq!(process_event(&mut service, &foreign, 5, "h", true), nothing());
    let mut unmarked = test_event();
    unmarked.event_source = None;
    assert_eq!(process_event(&mut service, &unmarked, 5, "h", true), nothing());
    let mut removal = test_event();
    removal.event_name = "REMOVE".to_string();
    assert_eq!(process_event(&mut service, &removal, 5, "h", true), nothing());
    let mut modify = test_event();
    modify.event_name = "MODIFY".to_string();
    assert_eq!(process_event(&mut service, &modify, 5, "h", true), nothing());
    assert_eq!(service.get_email_confirmation_request_internal(stored_record().pk), Ok(stored_record()));
}

#[test]
fn delivered_callback_moves_to_done() {
    let mut confirmed = stored_record();
    confirmed.status = Status::Confirmed;
    confirmed.updated_at = 1741592600;
    let mut service = service_with(confirmed.clone());
    let event = ChangeEvent {
        event_name: "MODIFY".to_string(),
        event_source: stream(),
        new_image: confirmed.clone(),
    };
    let report = process_event(&mut service, &event, 1741592700, "h", true);
    assert_eq!(
        report,
        ReactorReport {
            email: None,
            callback: Some(Callback {
                url: "http://localhost:9000/email-confirmation".to_string(),
                message: ConfirmationMessage {
                    email: "email@example.com".to_string(),
                    status: Status::Confirmed
                },
            }),
        }
    );
    let stored = service.get_email_confirmation_request_internal(confirmed.pk.clone()).unwrap();
    assert_eq!(stored.status, Status::Done);
    assert_eq!(stored.updated_at, 1741592700);

    let again = process_event(&mut service, &event, 1741592800, "h", true);
    assert_eq!(again, nothing());
    assert_eq!(service.get_email_confirmation_request_internal(confirmed.pk), Ok(stored));
}

#[test]
fn failed_callback_leaves_the_request_confirmed_until_redelivery() {
    let mut confirmed = stored_record();
    confirmed.status = Status::Confirmed;
    let mut service = service_with(confirmed.clone());
    let event = ChangeEvent {
        event_name: "MODIFY".to_string(),
        event_source: stream(),
        new_image: confirmed.clone(),
    };
    let failed = process_event(&mut service, &event, 1741592700, "h", false);
    assert!(failed.callback.is_some());
    assert_eq!(service.get_email_confirmation_request_internal(confirmed.pk.clone()), Ok(confirmed.clone()));

    let retried = process_event(&mut service, &event, 1741592900, "h", true);
    assert!(retried.callback.is_some());
    let stored = service.get_email_confirmation_request_internal(confirmed.pk).unwrap();
    assert_eq!(stored.status, Status::Done);
    assert_eq!(stored.updated_at, 1741592900);
}

#[test]
fn stale_image_does_not_mislead_the_reactor() {
    let mut pending = stored_record();
    pending.status = Status::Pending;
    pending.updated_at = 1741592480;
    let mut service = service_with(pending.clone());
    let report = process_event(&mut service, &test_event(), 1741592500, "h", true);
    assert_eq!(report, nothing());
    assert_eq!(service.get_email_confirmation_request_internal(pending.pk.clone()), Ok(pending));
}

#[test]
fn api_addresses_percent_encode_the_key() {
    assert_eq!(
        status_url("https://api", "a@x.com#c1#r1"),
        "https://api/email-confirmation-requests/a%40x.com%23c1%23r1/status"
    );
    assert_eq!(
        request_url("https://api", "a@x.com#c1#r1", "abc"),
        "https://api/email-confirmation-requests/a%40x.com%23c1%23r1?signature=abc"
    );
}

#[test]
fn refused_status_change_is_an_error() {
    let request = stored_record().sanitize();
    assert_eq!(
        status_change_outcome(&EmailConfirmationServiceApiResponse { error: false, request: request.clone() }),
        Ok(())
    );
    assert_eq!(
        status_change_outcome(&EmailConfirmationServiceApiResponse { error: true, request }),
        Err("Email confirmation service error".to_string())
    );
}

#[test]
fn batch_is_served_in_order_and_ignorable_events_are_passed_over() {
    let mut other = stored_record();
    other.pk = "b@x.com#c#r".to_string();
    other.email = "b@x.com".to_string();
    other.client_id = "c".to_string();
    other.request_id = "r".to_string();
    other.status = Status::Confirmed;
    let mut service = service_with(stored_record());
    assert!(service.post_email_confirmation_request(other.clone()).is_ok());

    let mut removal = test_event();
    removal.event_name = "REMOVE".to_string();
    let modify = ChangeEvent {
        event_name: "MODIFY".to_string(),
        event_source: stream(),
        new_image: other.clone(),
    };
    let events = vec![removal, test_event(), test_event(), modify];
    let reports = function_handler(&mut service, &events, 1741592500, "h", true);

    assert_eq!(reports.len(), 4);
    assert_eq!(reports[0], nothing());
    assert!(reports[1].email.is_some());
    assert!(reports[1].callback.is_none());
    assert_eq!(reports[2], nothing());
    assert!(reports[3].email.is_none());
    assert_eq!(reports[3].callback, Some(callback_for(&other)));
    assert_eq!(
        service.get_email_confirmation_request_internal(stored_record().pk).unwrap().status,
        Status::Pending
    );
    assert_eq!(service.get_email_confirmation_request_internal(other.pk).unwrap().status, Status::Done);
    assert_eq!(function_handler(&mut service, &vec![], 1, "h", true), vec![]);
}

#[test]
fn reactor_plans_for_the_stored_record_and_passes_over_unknown_keys() {
    assert_eq!(record_to_serve(Ok(stored_record())), Ok(Some(stored_record())));
    assert_eq!(record_to_serve(Err(ServiceError::NotFound("k".to_string()))), Ok(None));
    let failure = ServiceError::UpstreamFailure(vec!["query failed".to_string()]);
    assert_eq!(
        record_to_serve(Err(ServiceError::UpstreamFailure(vec!["query failed".to_string()]))),
        Err(failure)
    );
    assert_eq!(
        record_to_serve(Err(ServiceError::InvalidSignature)),
        Err(ServiceError::InvalidSignature)
    );
}
