//! The workflow reactor: it reads the change events of the repository and
//! advances requests. A queued request that was inserted is moved to
//! `Pending` and its confirmation email is composed; a confirmed request
//! has its callback dispatched and, once that was delivered, is moved to
//! `Done`. Every other event is ignored, so that an event may be delivered
//! again without harm.

use crate::email_confirmation_request::{EmailConfirmationRequest, RequestView, Status};
use crate::email_confirmation_request_service::{
    after_update, has_key, keys_distinct, lemma_after_update, optional_text, row_of, ApiBody,
    EmailConfirmationRequestService, ServiceError,
};
use crate::handler::{create_signature, put_email_confirmation_request_status};
use crate::handler_params::PutStatusParams;
use crate::links::{confirmation_link, confirmation_link_for};
use crate::signature_request::signed_fields_of;
use crate::signature_service::{law_own_signature_verifies, signature_of};
use crate::text::str_eq;
use vstd::prelude::*;
use vstd::string::*;

verus! {

/// One change of the repository as its change stream reports it.
#[derive(Debug, PartialEq, Eq)]
pub struct ChangeEvent {
    /// `INSERT`, `MODIFY`, or a kind that the reactor does not act on.
    pub event_name: String,
    /// Where the event comes from; the change stream marks its own.
    pub event_source: Option<String>,
    /// The record as it was after the change.
    pub new_image: EmailConfirmationRequest,
}

/// Mathematical content of a [`ChangeEvent`].
pub struct ChangeEventView {
    pub event_name: Seq<char>,
    pub event_source: Option<Seq<char>>,
    pub new_image: RequestView,
}

impl View for ChangeEvent {
    type V = ChangeEventView;

    open spec fn view(&self) -> ChangeEventView {
        ChangeEventView {
            event_name: self.event_name@,
            event_source: optional_text(self.event_source),
            new_image: self.new_image@,
        }
    }
}

/// The step of the workflow that an event sets off.
#[derive(Debug, PartialEq, Eq, Clone, Copy, Structural)]
pub enum Transition {
    /// Move the request to `Pending` and send the confirmation email.
    SendConfirmation,
    /// Dispatch the callback and, on delivery, move the request to `Done`.
    TriggerCallback,
}

/// An email for the notifier.
#[derive(Debug, PartialEq, Eq)]
pub struct Email {
    pub address: String,
    pub subject: String,
    pub message: String,
}

/// What the consumer of a callback is told.
#[derive(Debug, PartialEq, Eq)]
pub struct ConfirmationMessage {
    pub email: String,
    pub status: Status,
}

/// A callback for the notifier.
#[derive(Debug, PartialEq, Eq)]
pub struct Callback {
    pub url: String,
    pub message: ConfirmationMessage,
}

/// Mathematical content of an [`Email`].
pub struct EmailView {
    pub address: Seq<char>,
    pub subject: Seq<char>,
    pub message: Seq<char>,
}

/// Mathematical content of a [`Callback`].
pub struct CallbackView {
    pub url: Seq<char>,
    pub email: Seq<char>,
    pub status: Status,
}

impl View for Email {
    type V = EmailView;

    open spec fn view(&self) -> EmailView {
        EmailView { address: self.address@, subject: self.subject@, message: self.message@ }
    }
}

impl View for Callback {
    type V = CallbackView;

    open spec fn view(&self) -> CallbackView {
        CallbackView { url: self.url@, email: self.message.email@, status: self.message.status }
    }
}

/// What the reactor asks of its surroundings.
#[derive(Debug, PartialEq, Eq)]
pub enum ReactorAction {
    /// Nothing: the event is not for the reactor.
    Ignore,
    /// Move the request `pk` to `status`, authorised by `signature`.
    SetStatus { pk: String, status: Status, signature: String },
    /// Dispatch the callback.
    PostCallback(Callback),
}

/// Mathematical content of a [`ReactorAction`].
pub enum ReactorActionView {
    Ignore,
    SetStatus { pk: Seq<char>, status: Status, signature: Seq<char> },
    PostCallback(CallbackView),
}

impl View for ReactorAction {
    type V = ReactorActionView;

    open spec fn view(&self) -> ReactorActionView {
        match self {
            ReactorAction::Ignore => ReactorActionView::Ignore,
            ReactorAction::SetStatus { pk, status, signature } => ReactorActionView::SetStatus {
                pk: pk@,
                status: *status,
                signature: signature@,
            },
            ReactorAction::PostCallback(callback) => ReactorActionView::PostCallback(callback@),
        }
    }
}

/// The mark that the change stream of the repository puts on its events.
pub open spec fn change_stream_source() -> Seq<char> {
    "aws:dynamodb"@
}

/// The step that an event of kind `event_name` from `event_source` sets off
/// for a request in `status`.
pub open spec fn due_transition(
    event_name: Seq<char>,
    event_source: Option<Seq<char>>,
    status: Status,
) -> Option<Transition> {
    if event_source != Some(change_stream_source()) {
        None
    } else if event_name == "INSERT"@ && status == Status::Queued {
        Some(Transition::SendConfirmation)
    } else if event_name == "MODIFY"@ && status == Status::Confirmed {
        Some(Transition::TriggerCallback)
    } else {
        None
    }
}

/// The callback that reports the confirmation of `record`.
pub open spec fn confirmation_callback(record: RequestView) -> CallbackView {
    CallbackView { url: record.callback_url, email: record.email, status: Status::Confirmed }
}

/// The first thing to do for an event, given the record it is about.
pub open spec fn planned_action(
    event_name: Seq<char>,
    event_source: Option<Seq<char>>,
    record: RequestView,
) -> ReactorActionView {
    match due_transition(event_name, event_source, record.status) {
        Some(Transition::SendConfirmation) => ReactorActionView::SetStatus {
            pk: record.pk,
            status: Status::Pending,
            signature: signature_of(signed_fields_of(record)),
        },
        Some(Transition::TriggerCallback) => ReactorActionView::PostCallback(
            confirmation_callback(record),
        ),
        None => ReactorActionView::Ignore,
    }
}

/// What to do once the callback for `record` was attempted: move the
/// request to `Done` where it was delivered, nothing where it was not.
pub open spec fn action_after_callback(record: RequestView, delivered: bool)
    -> ReactorActionView {
    if delivered {
        ReactorActionView::SetStatus {
            pk: record.pk,
            status: Status::Done,
            signature: signature_of(signed_fields_of(record)),
        }
    } else {
        ReactorActionView::Ignore
    }
}

/// The moment `seconds` after the start of 1970, UTC, as the calendar date
/// and time of day that `chrono` prints for it; `None` where `chrono` has
/// no date for the moment.
pub uninterp spec fn utc_date_time_text(seconds: i64) -> Option<Seq<char>>;

/// The expiry `expires_at` in words; `None` where there is no date for it.
pub open spec fn expiry_words(expires_at: nat) -> Option<Seq<char>> {
    if expires_at <= i64::MAX {
        utc_date_time_text(expires_at as i64)
    } else {
        None
    }
}

/// The subject of the confirmation email.
pub open spec fn email_subject() -> Seq<char> {
    "Please, confirm your email."@
}

/// The body of the confirmation email.
pub open spec fn email_body(expiry: Seq<char>, link: Seq<char>) -> Seq<char> {
    "Hi! to confirm your email address, click the link below. The link will expire on "@
        + expiry + ". \n\n "@ + link + ". "@
}

/// The confirmation email for `record` once it was moved to `Pending` at
/// time `updated_at`: its link carries the signature of the record in that
/// state. `None` where the expiry has no date.
pub open spec fn confirmation_email(record: RequestView, updated_at: nat, link_base: Seq<char>)
    -> Option<EmailView> {
    match expiry_words(record.expires_at) {
        Some(expiry) => Some(
            EmailView {
                address: record.email,
                subject: email_subject(),
                message: email_body(
                    expiry,
                    confirmation_link(
                        link_base,
                        record.pk,
                        signature_of(
                            signed_fields_of(record.with_status(Status::Pending, updated_at)),
                        ),
                    ),
                ),
            },
        ),
        None => None,
    }
}

/// Renders the moment `seconds` after the start of 1970 with
/// `chrono::DateTime::from_timestamp` and the `Display` of the result. The
/// text is a function of `seconds` alone; it is named, not restated.
#[verifier::external_body]
fn utc_date_time(seconds: i64) -> (text: Option<String>)
    ensures
        optional_text(text) == utc_date_time_text(seconds),
{
    match chrono::DateTime::from_timestamp(seconds, 0) {
        Some(moment) => Some(moment.to_string()),
        None => None,
    }
}

/// The record for which the reactor plans, given what the lookup of the
/// key of an event found: the record as it is stored now; none where no
/// record has the key, so that the event is passed over; the error of the
/// lookup where the store failed.
pub fn record_to_serve(found: Result<EmailConfirmationRequest, ServiceError>) -> (stored: Result<
    Option<EmailConfirmationRequest>,
    ServiceError,
>)
    ensures
        match found {
            Ok(record) => stored == Ok::<Option<EmailConfirmationRequest>, ServiceError>(
                Some(record),
            ),
            Err(ServiceError::NotFound(_)) => stored == Ok::<
                Option<EmailConfirmationRequest>,
                ServiceError,
            >(None),
            Err(error) => stored == Err::<Option<EmailConfirmationRequest>, ServiceError>(error),
        },
{
    match found {
        Ok(record) => Ok(Some(record)),
        Err(ServiceError::NotFound(_)) => Ok(None),
        Err(error) => Err(error),
    }
}

/// The step that an event sets off for a request in `status`.
pub fn transition_for(
    event_name: &str,
    event_source: &Option<String>,
    status: Status,
) -> (transition: Option<Transition>)
    ensures
        transition == due_transition(event_name@, optional_text(*event_source), status),
{
    proof {
        reveal_strlit("INSERT");
        reveal_strlit("MODIFY");
    }
    let from_stream = match event_source {
        Some(source) => str_eq(source.as_str(), "aws:dynamodb"),
        None => false,
    };
    if !from_stream {
        None
    } else if str_eq(event_name, "INSERT") && status == Status::Queued {
        Some(Transition::SendConfirmation)
    } else if str_eq(event_name, "MODIFY") && status == Status::Confirmed {
        Some(Transition::TriggerCallback)
    } else {
        None
    }
}

/// The callback that reports the confirmation of `record`.
pub fn callback_for(record: &EmailConfirmationRequest) -> (callback: Callback)
    ensures
        callback@ == confirmation_callback(record@),
{
    Callback {
        url: record.callback_url.clone(),
        message: ConfirmationMessage { email: record.email.clone(), status: Status::Confirmed },
    }
}

/// The first thing to do for an event of kind `event_name` from
/// `event_source`, given the record it is about.
pub fn plan(
    event_name: &str,
    event_source: &Option<String>,
    record: &EmailConfirmationRequest,
) -> (action: ReactorAction)
    ensures
        action@ == planned_action(event_name@, optional_text(*event_source), record@),
{
    match transition_for(event_name, event_source, record.status) {
        Some(Transition::SendConfirmation) => ReactorAction::SetStatus {
            pk: record.pk.clone(),
            status: Status::Pending,
            signature: create_signature(record),
        },
        Some(Transition::TriggerCallback) => ReactorAction::PostCallback(callback_for(record)),
        None => ReactorAction::Ignore,
    }
}

/// What to do once the callback for `record` was attempted.
pub fn after_callback(record: &EmailConfirmationRequest, delivered: bool) -> (action: ReactorAction)
    ensures
        action@ == action_after_callback(record@, delivered),
{
    if delivered {
        ReactorAction::SetStatus {
            pk: record.pk.clone(),
            status: Status::Done,
            signature: create_signature(record),
        }
    } else {
        ReactorAction::Ignore
    }
}

/// The expiry `expires_at` in words; `None` where there is no date for it.
pub fn expiry_text(expires_at: u64) -> (text: Option<String>)
    ensures
        optional_text(text) == expiry_words(expires_at as nat),
{
    if expires_at <= i64::MAX as u64 {
        utc_date_time(expires_at as i64)
    } else {
        None
    }
}

/// The body of the confirmation email for a link that expires at the
/// moment that `expiry` names.
pub fn format_email(expiry: &str, link: &str) -> (message: String)
    ensures
        message@ == email_body(expiry@, link@),
{
    let mut message = String::from_str(
        "Hi! to confirm your email address, click the link below. The link will expire on ",
    );
    message.append(expiry);
    message.append(". \n\n ");
    message.append(link);
    message.append(". ");
    message
}

/// The confirmation email for `record` once it was moved to `Pending` and
/// stamped with `updated_at`. `None` where the expiry has no date.
pub fn compose_confirmation_email(
    record: &EmailConfirmationRequest,
    updated_at: u64,
    link_base: &str,
) -> (email: Option<Email>)
    ensures
        match email {
            Some(email) => Some(email@),
            None => None,
        } == confirmation_email(record@, updated_at as nat, link_base@),
{
    let expiry = match expiry_text(record.expires_at) {
        Some(expiry) => expiry,
        None => {
            return None;
        },
    };
    let mut pending = record.clone();
    pending.status = Status::Pending;
    pending.updated_at = updated_at;
    let signature = create_signature(&pending);
    let link = confirmation_link_for(link_base, record.pk.as_str(), signature.as_str());
    Some(
        Email {
            address: record.email.clone(),
            subject: String::from_str("Please, confirm your email."),
            message: format_email(expiry.as_str(), link.as_str()),
        },
    )
}

/// What the reactor handed to the notifier while it served one event.
#[derive(Debug, PartialEq, Eq)]
pub struct ReactorReport {
    /// The confirmation email, where one was due.
    pub email: Option<Email>,
    /// The callback, where one was due.
    pub callback: Option<Callback>,
}

/// The content of an optional email.
pub open spec fn optional_email(email: Option<Email>) -> Option<EmailView> {
    match email {
        Some(email) => Some(email@),
        None => None,
    }
}

/// The content of an optional callback.
pub open spec fn optional_callback(callback: Option<Callback>) -> Option<CallbackView> {
    match callback {
        Some(callback) => Some(callback@),
        None => None,
    }
}

/// The step that `event` sets off in a repository that holds `rows`: the
/// one that is due for the record of the event's key as it is stored now,
/// none where no such record is stored.
pub open spec fn current_transition(rows: Seq<RequestView>, event: ChangeEventView) -> Option<
    Transition,
> {
    if has_key(rows, event.new_image.pk) {
        due_transition(
            event.event_name,
            event.event_source,
            row_of(rows, event.new_image.pk).status,
        )
    } else {
        None
    }
}

/// The repository after the reactor served `event` at time `now`, with a
/// notifier that answers `callback_delivered` to a callback.
pub open spec fn rows_after_event(
    rows: Seq<RequestView>,
    event: ChangeEventView,
    now: nat,
    callback_delivered: bool,
) -> Seq<RequestView> {
    match current_transition(rows, event) {
        Some(Transition::SendConfirmation) => after_update(
            rows,
            event.new_image.pk,
            Status::Pending,
            now,
        ),
        Some(Transition::TriggerCallback) => if callback_delivered {
            after_update(rows, event.new_image.pk, Status::Done, now)
        } else {
            rows
        },
        None => rows,
    }
}

/// The email that the reactor sends while it serves `event` at time `now`.
pub open spec fn email_for_event(
    rows: Seq<RequestView>,
    event: ChangeEventView,
    now: nat,
    link_base: Seq<char>,
) -> Option<EmailView> {
    match current_transition(rows, event) {
        Some(Transition::SendConfirmation) => confirmation_email(
            row_of(rows, event.new_image.pk),
            now,
            link_base,
        ),
        _ => None,
    }
}

/// The callback that the reactor dispatches while it serves `event`.
pub open spec fn callback_for_event(rows: Seq<RequestView>, event: ChangeEventView) -> Option<
    CallbackView,
> {
    match current_transition(rows, event) {
        Some(Transition::TriggerCallback) => Some(
            confirmation_callback(row_of(rows, event.new_image.pk)),
        ),
        _ => None,
    }
}

/// Serves one change event at time `now`. The record that the event is
/// about is read as it is stored now, and the step that is due for it is
/// taken through the request API, authorised by a token minted from that
/// record. `callback_delivered` is the notifier's answer to a callback; a
/// callback that was not delivered leaves the request `Confirmed`.
pub fn process_event(
    service: &mut EmailConfirmationRequestService,
    event: &ChangeEvent,
    now: u64,
    link_base: &str,
    callback_delivered: bool,
) -> (report: ReactorReport)
    requires
        old(service).wf(),
    ensures
        final(service).wf(),
        final(service).table_name() == old(service).table_name(),
        final(service).rows() == rows_after_event(
            old(service).rows(),
            event@,
            now as nat,
            callback_delivered,
        ),
        optional_email(report.email) == email_for_event(
            old(service).rows(),
            event@,
            now as nat,
            link_base@,
        ),
        optional_callback(report.callback) == callback_for_event(old(service).rows(), event@),
{
    let ghost rows = service.rows();
    let current = service.get_email_confirmation_request_internal(event.new_image.pk.clone());
    let current = match record_to_serve(current) {
        Ok(Some(record)) => record,
        _ => {
            return ReactorReport { email: None, callback: None };
        },
    };
    proof {
        assert(current@.pk == event@.new_image.pk);
        law_own_signature_verifies(signed_fields_of(current@));
    }
    match plan(event.event_name.as_str(), &event.event_source, &current) {
        ReactorAction::Ignore => ReactorReport { email: None, callback: None },
        ReactorAction::SetStatus { pk, status, signature } => {
            let response = put_email_confirmation_request_status(
                service,
                pk,
                PutStatusParams { status: Some(status), signature: Some(signature) },
                now,
            );
            let email = match response.body {
                ApiBody::Request(updated) => compose_confirmation_email(
                    &current,
                    updated.updated_at,
                    link_base,
                ),
                _ => None,
            };
            ReactorReport { email, callback: None }
        },
        ReactorAction::PostCallback(callback) => {
            match after_callback(&current, callback_delivered) {
                ReactorAction::SetStatus { pk, status, signature } => {
                    put_email_confirmation_request_status(
                        service,
                        pk,
                        PutStatusParams { status: Some(status), signature: Some(signature) },
                        now,
                    );
                },
                _ => {},
            }
            ReactorReport { email: None, callback: Some(callback) }
        },
    }
}

/// The contents of a list of events.
pub open spec fn event_views(events: Seq<ChangeEvent>) -> Seq<ChangeEventView> {
    events.map_values(|e: ChangeEvent| e@)
}

/// The repository after the reactor served `events` one after the other.
pub open spec fn rows_after_events(
    rows: Seq<RequestView>,
    events: Seq<ChangeEventView>,
    now: nat,
    callback_delivered: bool,
) -> Seq<RequestView>
    decreases events.len(),
{
    if events.len() == 0 {
        rows
    } else {
        rows_after_event(
            rows_after_events(rows, events.drop_last(), now, callback_delivered),
            events.last(),
            now,
            callback_delivered,
        )
    }
}

/// Serves a batch of change events in the order of their arrival, each as
/// [`process_event`] does, and reports for each what was handed to the
/// notifier. An event that is not for the reactor is passed over; the
/// events behind it are served all the same.
pub fn function_handler(
    service: &mut EmailConfirmationRequestService,
    events: &Vec<ChangeEvent>,
    now: u64,
    link_base: &str,
    callback_delivered: bool,
) -> (reports: Vec<ReactorReport>)
    requires
        old(service).wf(),
    ensures
        final(service).wf(),
        final(service).table_name() == old(service).table_name(),
        final(service).rows() == rows_after_events(
            old(service).rows(),
            event_views(events@),
            now as nat,
            callback_delivered,
        ),
        reports@.len() == events@.len(),
        forall|i: int|
            #![trigger reports@[i]]
            0 <= i < events@.len() ==> {
                let before = rows_after_events(
                    old(service).rows(),
                    event_views(events@).take(i),
                    now as nat,
                    callback_delivered,
                );
                &&& optional_email(reports@[i].email) == email_for_event(
                    before,
                    events@[i]@,
                    now as nat,
                    link_base@,
                )
                &&& optional_callback(reports@[i].callback) == callback_for_event(
                    before,
                    events@[i]@,
                )
            },
{
    let ghost start = service.rows();
    let ghost views = event_views(events@);
    let mut reports: Vec<ReactorReport> = Vec::new();
    let mut i: usize = 0;
    while i < events.len()
        invariant
            i <= events@.len(),
            views == event_views(events@),
            service.wf(),
            service.table_name() == old(service).table_name(),
            service.rows() == rows_after_events(
                start,
                views.take(i as int),
                now as nat,
                callback_delivered,
            ),
            reports@.len() == i,
            forall|j: int|
                #![trigger reports@[j]]
                0 <= j < i ==> {
                    let before = rows_after_events(
                        start,
                        views.take(j),
                        now as nat,
                        callback_delivered,
                    );
                    &&& optional_email(reports@[j].email) == email_for_event(
                        before,
                        events@[j]@,
                        now as nat,
                        link_base@,
                    )
                    &&& optional_callback(reports@[j].callback) == callback_for_event(
                        before,
                        events@[j]@,
                    )
                },
        decreases events@.len() - i,
    {
        let report = process_event(service, &events[i], now, link_base, callback_delivered);
        proof {
            let served = views.take(i + 1);
            assert(served.drop_last() =~= views.take(i as int));
            assert(served.last() == events@[i as int]@);
        }
        reports.push(report);
        i += 1;
    }
    assert(views.take(i as int) =~= views);
    reports
}

/// An `INSERT` event that is delivered again finds nothing to do: once the
/// reactor has served it, the same event sets off no step, sends no email
/// and leaves the repository as it is, whenever it comes.
pub proof fn law_redelivered_insert_is_ignored(
    rows: Seq<RequestView>,
    event: ChangeEventView,
    first_time: nat,
    second_time: nat,
    link_base: Seq<char>,
    callback_delivered: bool,
)
    requires
        keys_distinct(rows),
        event.event_name == "INSERT"@,
    ensures
        ({
            let served = rows_after_event(rows, event, first_time, callback_delivered);
            &&& current_transition(served, event) is None
            &&& rows_after_event(served, event, second_time, callback_delivered) == served
            &&& email_for_event(served, event, second_time, link_base) is None
            &&& callback_for_event(served, event) is None
        }),
{
    reveal_strlit("INSERT");
    reveal_strlit("MODIFY");
    assert("INSERT"@ != "MODIFY"@) by {
        assert("INSERT"@[0] == 'I');
        assert("MODIFY"@[0] == 'M');
    }
    let served = rows_after_event(rows, event, first_time, callback_delivered);
    if current_transition(rows, event) is Some {
        assert(current_transition(rows, event) == Some(Transition::SendConfirmation));
        lemma_after_update(rows, event.new_image.pk, Status::Pending, first_time);
        assert(has_key(served, event.new_image.pk));
        assert(row_of(served, event.new_image.pk).status == Status::Pending);
    }
    assert(current_transition(served, event) is None);
}

/// A `MODIFY` event whose callback was delivered finds nothing to do when
/// it is delivered again: the request is `Done`, no callback is dispatched
/// and the repository stays as it is.
pub proof fn law_redelivered_modify_is_ignored_once_done(
    rows: Seq<RequestView>,
    event: ChangeEventView,
    first_time: nat,
    second_time: nat,
    callback_delivered: bool,
)
    requires
        keys_distinct(rows),
        event.event_name == "MODIFY"@,
    ensures
        ({
            let served = rows_after_event(rows, event, first_time, true);
            &&& current_transition(served, event) is None
            &&& rows_after_event(served, event, second_time, callback_delivered) == served
            &&& callback_for_event(served, event) is None
        }),
{
    reveal_strlit("INSERT");
    reveal_strlit("MODIFY");
    assert("INSERT"@ != "MODIFY"@) by {
        assert("INSERT"@[0] == 'I');
        assert("MODIFY"@[0] == 'M');
    }
    let served = rows_after_event(rows, event, first_time, true);
    if current_transition(rows, event) is Some {
        assert(current_transition(rows, event) == Some(Transition::TriggerCallback));
        lemma_after_update(rows, event.new_image.pk, Status::Done, first_time);
        assert(has_key(served, event.new_image.pk));
        assert(row_of(served, event.new_image.pk).status == Status::Done);
    }
    assert(current_transition(served, event) is None);
}

/// The reactor never moves a request backward: where serving an event
/// changes the status of a record, the new status ranks above the old one,
/// and no other record changes.
pub proof fn law_reactor_moves_forward(
    rows: Seq<RequestView>,
    event: ChangeEventView,
    now: nat,
    callback_delivered: bool,
)
    requires
        keys_distinct(rows),
    ensures
        ({
            let served = rows_after_event(rows, event, now, callback_delivered);
            &&& served.len() == rows.len()
            &&& forall|pk: Seq<char>| has_key(served, pk) == has_key(rows, pk)
            &&& forall|pk: Seq<char>|
                has_key(rows, pk) ==> row_of(served, pk) == row_of(rows, pk) || (pk
                    == event.new_image.pk && row_of(served, pk).status.rank() > row_of(
                    rows,
                    pk,
                ).status.rank())
        }),
{
    let served = rows_after_event(rows, event, now, callback_delivered);
    if served != rows {
        let status = if current_transition(rows, event) == Some(Transition::SendConfirmation) {
            Status::Pending
        } else {
            Status::Done
        };
        lemma_after_update(rows, event.new_image.pk, status, now);
    }
}

} // verus!
