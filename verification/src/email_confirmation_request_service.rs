//! The request repository: a keyed table of confirmation requests with
//! creation, point lookup, paged scan, status update and deletion.
//!
//! The table is modelled as the sequence of its records in scan order, with
//! pairwise distinct keys. Every operation is described by a function on
//! that sequence.

use crate::email_confirmation_request::{
    spec_pk, EmailConfirmationRequest, RequestView, SanitizedEmailConfirmationRequest,
    SanitizedView, Status, KEY_DELIMITER,
};
use crate::handler_params::QueryParams;
use crate::text::{lemma_split_at_delimiter, str_eq};
use vstd::prelude::*;
use vstd::string::*;

verus! {

/// Number of records that one page of a full listing holds.
pub const DEFAULT_SCAN_PAGE_SIZE: usize = 100;

/// Why the repository refused an operation.
#[derive(Debug, PartialEq, Eq)]
pub enum ServiceError {
    /// No record has the key that was asked for.
    NotFound(String),
    /// A record with the key of the new request is already stored.
    AlreadyExists,
    /// The capability token does not match the record.
    InvalidSignature,
    /// The request was acted on after its expiry.
    Expired,
    /// The store or a notifier failed; the causes, outermost first.
    UpstreamFailure(Vec<String>),
}

/// Mathematical content of a [`ServiceError`].
pub enum ServiceErrorView {
    NotFound(Seq<char>),
    AlreadyExists,
    InvalidSignature,
    Expired,
    UpstreamFailure(Seq<Seq<char>>),
}

/// The texts of a list of strings.
pub open spec fn texts_of(strings: Seq<String>) -> Seq<Seq<char>> {
    strings.map_values(|s: String| s@)
}

/// What an error says in words.
pub open spec fn error_message(error: ServiceErrorView) -> Seq<char> {
    match error {
        ServiceErrorView::NotFound(pk) => "Request does not exist for pk: "@ + pk + "!"@,
        ServiceErrorView::AlreadyExists => "Request exists!"@,
        ServiceErrorView::InvalidSignature => "Invalid request"@,
        ServiceErrorView::Expired => "Request expired"@,
        ServiceErrorView::UpstreamFailure(causes) => if causes.len() > 0 {
            causes[0]
        } else {
            Seq::empty()
        },
    }
}

impl View for ServiceError {
    type V = ServiceErrorView;

    open spec fn view(&self) -> ServiceErrorView {
        match self {
            ServiceError::NotFound(pk) => ServiceErrorView::NotFound(pk@),
            ServiceError::AlreadyExists => ServiceErrorView::AlreadyExists,
            ServiceError::InvalidSignature => ServiceErrorView::InvalidSignature,
            ServiceError::Expired => ServiceErrorView::Expired,
            ServiceError::UpstreamFailure(causes) => ServiceErrorView::UpstreamFailure(
                texts_of(causes@),
            ),
        }
    }
}

impl ServiceError {
    /// The error in words: for an upstream failure its outermost cause.
    pub fn to_string(&self) -> (message: String)
        ensures
            message@ == error_message(self@),
    {
        match self {
            ServiceError::NotFound(pk) => {
                let mut message = String::from_str("Request does not exist for pk: ");
                message.append(pk.as_str());
                message.append("!");
                message
            },
            ServiceError::AlreadyExists => String::from_str("Request exists!"),
            ServiceError::InvalidSignature => String::from_str("Invalid request"),
            ServiceError::Expired => String::from_str("Request expired"),
            ServiceError::UpstreamFailure(causes) => if causes.len() > 0 {
                causes[0].clone()
            } else {
                String::new()
            },
        }
    }
}

/// What the request API hands back on success, or to report a refusal.
#[derive(Debug, PartialEq, Eq)]
pub enum ApiBody {
    /// The records of a listing.
    Requests(Vec<SanitizedEmailConfirmationRequest>),
    /// A single record.
    Request(SanitizedEmailConfirmationRequest),
    /// A confirmation in words.
    Message(String),
    /// A refusal in words.
    Failure(String),
}

/// Mathematical content of an [`ApiBody`].
pub enum ApiBodyView {
    Requests(Seq<SanitizedView>),
    Request(SanitizedView),
    Message(Seq<char>),
    Failure(Seq<char>),
}

/// The contents of a list of sanitized records.
pub open spec fn sanitized_views(records: Seq<SanitizedEmailConfirmationRequest>) -> Seq<
    SanitizedView,
> {
    records.map_values(|r: SanitizedEmailConfirmationRequest| r@)
}

impl View for ApiBody {
    type V = ApiBodyView;

    open spec fn view(&self) -> ApiBodyView {
        match self {
            ApiBody::Requests(requests) => ApiBodyView::Requests(sanitized_views(requests@)),
            ApiBody::Request(request) => ApiBodyView::Request(request@),
            ApiBody::Message(message) => ApiBodyView::Message(message@),
            ApiBody::Failure(message) => ApiBodyView::Failure(message@),
        }
    }
}

/// No two rows have the same key.
pub open spec fn keys_distinct(rows: Seq<RequestView>) -> bool {
    forall|i: int, j: int| 0 <= i < j < rows.len() ==> rows[i].pk != rows[j].pk
}

/// Some row has the key `pk`.
pub open spec fn has_key(rows: Seq<RequestView>, pk: Seq<char>) -> bool {
    exists|i: int| 0 <= i < rows.len() && (#[trigger] rows[i]).pk == pk
}

/// The position of a row with the key `pk`, where there is one.
pub open spec fn key_index(rows: Seq<RequestView>, pk: Seq<char>) -> int {
    choose|i: int| 0 <= i < rows.len() && (#[trigger] rows[i]).pk == pk
}

/// The row with the key `pk`, where there is one.
pub open spec fn row_of(rows: Seq<RequestView>, pk: Seq<char>) -> RequestView {
    rows[key_index(rows, pk)]
}

/// The table after an attempt to create `record`: a record whose key is
/// taken changes nothing, any other is added at the end.
pub open spec fn after_create(rows: Seq<RequestView>, record: RequestView) -> Seq<RequestView> {
    if has_key(rows, record.pk) {
        rows
    } else {
        rows.push(record)
    }
}

/// The table after an attempt to set the status of the record `pk` at time
/// `now`.
pub open spec fn after_update(rows: Seq<RequestView>, pk: Seq<char>, status: Status, now: nat)
    -> Seq<RequestView> {
    if has_key(rows, pk) {
        rows.update(key_index(rows, pk), row_of(rows, pk).with_status(status, now))
    } else {
        rows
    }
}

/// The table after an attempt to delete the record `pk`.
pub open spec fn after_delete(rows: Seq<RequestView>, pk: Seq<char>) -> Seq<RequestView> {
    if has_key(rows, pk) {
        rows.remove(key_index(rows, pk))
    } else {
        rows
    }
}

/// The sanitized projections of `rows`, in order.
pub open spec fn sanitized_rows(rows: Seq<RequestView>) -> Seq<SanitizedView> {
    rows.map_values(|r: RequestView| r.sanitized())
}

/// Where a scan resumes that was handed `start` as its continuation: at
/// the front without one, behind the row with that key otherwise, and at
/// the end where no row has it.
pub open spec fn resume_index(rows: Seq<RequestView>, start: Option<Seq<char>>) -> int {
    match start {
        None => 0,
        Some(pk) => if has_key(rows, pk) {
            key_index(rows, pk) + 1
        } else {
            rows.len() as int
        },
    }
}

/// Where the page ends that resumes at `start` and holds at most `limit`
/// rows.
pub open spec fn page_end(rows: Seq<RequestView>, start: Option<Seq<char>>, limit: nat) -> int {
    if resume_index(rows, start) + limit < rows.len() {
        resume_index(rows, start) + limit
    } else {
        rows.len() as int
    }
}

/// The rows of that page.
pub open spec fn page_rows(rows: Seq<RequestView>, start: Option<Seq<char>>, limit: nat) -> Seq<
    RequestView,
> {
    rows.subrange(resume_index(rows, start), page_end(rows, start, limit))
}

/// The continuation that comes with that page: the key of its last row
/// while rows remain behind it, none at the end of the table.
pub open spec fn page_continuation(rows: Seq<RequestView>, start: Option<Seq<char>>, limit: nat)
    -> Option<Seq<char>> {
    if page_end(rows, start, limit) < rows.len() {
        Some(rows[page_end(rows, start, limit) - 1].pk)
    } else {
        None
    }
}

/// In a table with distinct keys, a key is found where it stands.
pub proof fn lemma_key_index_unique(rows: Seq<RequestView>, i: int)
    requires
        keys_distinct(rows),
        0 <= i < rows.len(),
    ensures
        has_key(rows, rows[i].pk),
        key_index(rows, rows[i].pk) == i,
{
    let j = key_index(rows, rows[i].pk);
    assert(0 <= j < rows.len() && rows[j].pk == rows[i].pk);
}

/// What a status update leaves behind: the keys are the same and still
/// distinct, the record `pk` has the new status and time, and every other
/// record is as it was.
pub proof fn lemma_after_update(rows: Seq<RequestView>, pk: Seq<char>, status: Status, now: nat)
    requires
        keys_distinct(rows),
        has_key(rows, pk),
    ensures
        keys_distinct(after_update(rows, pk, status, now)),
        after_update(rows, pk, status, now).len() == rows.len(),
        forall|other: Seq<char>|
            has_key(after_update(rows, pk, status, now), other) == has_key(rows, other),
        row_of(after_update(rows, pk, status, now), pk) == row_of(rows, pk).with_status(
            status,
            now,
        ),
        forall|other: Seq<char>|
            other != pk && has_key(rows, other) ==> row_of(
                after_update(rows, pk, status, now),
                other,
            ) == row_of(rows, other),
{
    let after = after_update(rows, pk, status, now);
    let at = key_index(rows, pk);
    assert forall|i: int| 0 <= i < rows.len() implies (#[trigger] after[i]).pk == rows[i].pk by {}
    assert forall|other: Seq<char>| has_key(after, other) == has_key(rows, other) by {
        if has_key(rows, other) {
            let i = key_index(rows, other);
            assert(after[i].pk == other);
        }
        if has_key(after, other) {
            let i = key_index(after, other);
            assert(rows[i].pk == other);
        }
    }
    assert(after[at].pk == pk);
    lemma_key_index_unique(after, at);
    assert forall|other: Seq<char>| other != pk && has_key(rows, other) implies row_of(
        after,
        other,
    ) == row_of(rows, other) by {
        let i = key_index(rows, other);
        assert(after[i].pk == other);
        lemma_key_index_unique(after, i);
    }
}

/// A status update changes the status and the time of the last change of
/// one record and nothing else: every record keeps its key, its identity,
/// its callback address, its signature key and its times of creation and
/// expiry, and every record but `pk` is as it was.
pub proof fn law_update_changes_status_and_time_only(
    rows: Seq<RequestView>,
    pk: Seq<char>,
    status: Status,
    now: nat,
)
    requires
        keys_distinct(rows),
    ensures
        after_update(rows, pk, status, now).len() == rows.len(),
        forall|i: int|
            0 <= i < rows.len() ==> {
                let before = rows[i];
                let after = #[trigger] after_update(rows, pk, status, now)[i];
                &&& after == before.with_status(after.status, after.updated_at)
                &&& before.pk != pk ==> after == before
                &&& before.pk == pk ==> after.status == status && after.updated_at == now
            },
{
    if has_key(rows, pk) {
        let at = key_index(rows, pk);
        assert forall|i: int| 0 <= i < rows.len() && rows[i].pk == pk implies i == at by {
            lemma_key_index_unique(rows, i);
        }
    }
}

/// One page of a scan.
#[derive(Debug, PartialEq, Eq)]
pub struct ScanPage {
    /// The records of the page; `None` where the store sent none.
    pub items: Option<Vec<SanitizedEmailConfirmationRequest>>,
    /// The continuation for the next page; `None` at the end of the table.
    pub last_evaluated_key: Option<String>,
}

/// What the reader of a paged scan does next.
#[derive(Debug, PartialEq, Eq)]
pub enum ScanStep {
    /// Ask the store for the page behind this continuation.
    Fetch(Option<String>),
    /// The scan is over.
    Finished,
}

/// Mathematical content of a [`ScanStep`].
pub enum ScanStepView {
    Fetch(Option<Seq<char>>),
    Finished,
}

impl View for ScanStep {
    type V = ScanStepView;

    open spec fn view(&self) -> ScanStepView {
        match self {
            ScanStep::Fetch(None) => ScanStepView::Fetch(None),
            ScanStep::Fetch(Some(key)) => ScanStepView::Fetch(Some(key@)),
            ScanStep::Finished => ScanStepView::Finished,
        }
    }
}

/// The reader of a paged scan: it collects the pages that it is handed and
/// says which page to ask for next, until a page comes without a
/// continuation.
#[derive(Debug)]
pub struct ScanCursor {
    collected: Vec<SanitizedEmailConfirmationRequest>,
    next: ScanStep,
}

impl ScanCursor {
    /// The records collected so far, in the order of their arrival.
    pub closed spec fn collected(&self) -> Seq<SanitizedView> {
        sanitized_views(self.collected@)
    }

    /// What the reader does next.
    pub closed spec fn next(&self) -> ScanStepView {
        self.next@
    }

    /// A reader that has collected nothing and asks for the first page.
    pub fn start() -> (cursor: Self)
        ensures
            cursor.collected() == Seq::<SanitizedView>::empty(),
            cursor.next() == ScanStepView::Fetch(None),
    {
        let cursor = ScanCursor { collected: Vec::new(), next: ScanStep::Fetch(None) };
        assert(cursor.collected() =~= Seq::<SanitizedView>::empty());
        cursor
    }

    /// What to do next: fetch the page behind a continuation, or stop.
    pub fn step(&self) -> (step: ScanStep)
        ensures
            step@ == self.next(),
    {
        match &self.next {
            ScanStep::Fetch(None) => ScanStep::Fetch(None),
            ScanStep::Fetch(Some(key)) => ScanStep::Fetch(Some(key.clone())),
            ScanStep::Finished => ScanStep::Finished,
        }
    }

    /// Takes in the page that was fetched. Its records, where it has any,
    /// are appended. The scan goes on behind the continuation of the page,
    /// whether or not records came with it, and ends where the page has
    /// none. A reader that has finished takes in nothing.
    pub fn absorb(&mut self, page: ScanPage)
        ensures
            old(self).next() is Finished ==> {
                &&& final(self).collected() == old(self).collected()
                &&& final(self).next() == old(self).next()
            },
            old(self).next() is Fetch ==> {
                &&& final(self).collected() == old(self).collected() + (match page.items {
                    Some(items) => sanitized_views(items@),
                    None => Seq::empty(),
                })
                &&& final(self).next() == (match page.last_evaluated_key {
                    Some(key) => ScanStepView::Fetch(Some(key@)),
                    None => ScanStepView::Finished,
                })
            },
    {
        if let ScanStep::Finished = self.next {
            return ;
        }
        let ghost before = self.collected@;
        match page.items {
            Some(mut items) => {
                let ghost added = items@;
                self.collected.append(&mut items);
                assert(sanitized_views(before + added) =~= sanitized_views(before)
                    + sanitized_views(added));
            },
            None => {
                assert(sanitized_views(before) + Seq::<SanitizedView>::empty()
                    =~= sanitized_views(before));
            },
        }
        match page.last_evaluated_key {
            Some(key) => {
                self.next = ScanStep::Fetch(Some(key));
            },
            None => {
                self.next = ScanStep::Finished;
            },
        }
    }

    /// Ends the scan and hands out what was collected.
    pub fn into_requests(self) -> (requests: Vec<SanitizedEmailConfirmationRequest>)
        ensures
            sanitized_views(requests@) == self.collected(),
    {
        self.collected
    }
}

/// The contents of a list of records.
pub open spec fn request_views(records: Seq<EmailConfirmationRequest>) -> Seq<RequestView> {
    records.map_values(|r: EmailConfirmationRequest| r@)
}

/// The text of an optional string.
pub open spec fn optional_text(text: Option<String>) -> Option<Seq<char>> {
    match text {
        Some(s) => Some(s@),
        None => None,
    }
}

/// The key that a listing filter names, where it names all three
/// components.
pub open spec fn filter_key(params: QueryParams) -> Option<Seq<char>> {
    match (params.email, params.client_id, params.request_id) {
        (Some(email), Some(client_id), Some(request_id)) => Some(
            spec_pk(email@, client_id@, request_id@),
        ),
        _ => None,
    }
}

/// The words that confirm a creation.
pub open spec fn created_message() -> Seq<char> {
    "Request added."@
}

/// The words that confirm the deletion of the record `pk`.
pub open spec fn deleted_message(pk: Seq<char>) -> Seq<char> {
    "Request for pk: "@ + pk + " deleted."@
}

/// The body that confirms a creation.
pub fn creation_answer() -> (body: ApiBody)
    ensures
        body@ == ApiBodyView::Message(created_message()),
{
    ApiBody::Message(String::from_str("Request added."))
}

/// The body that confirms the deletion of the record `pk`.
pub fn deletion_answer(pk: &str) -> (body: ApiBody)
    ensures
        body@ == ApiBodyView::Message(deleted_message(pk@)),
{
    let mut message = String::from_str("Request for pk: ");
    message.append(pk);
    message.append(" deleted.");
    ApiBody::Message(message)
}

/// Decides on a creation, given whether the store holds the key of the new
/// request: a key that is taken is refused.
pub fn refuse_duplicate(exists: bool) -> (outcome: Result<(), ServiceError>)
    ensures
        match outcome {
            Ok(_) => !exists,
            Err(error) => exists && error@ == ServiceErrorView::AlreadyExists,
        },
{
    if exists {
        Err(ServiceError::AlreadyExists)
    } else {
        Ok(())
    }
}

/// Decides on an update or a deletion of the record `pk`, given whether the
/// store holds it: an unknown key is refused.
pub fn require_present(exists: bool, pk: &str) -> (outcome: Result<(), ServiceError>)
    ensures
        match outcome {
            Ok(_) => exists,
            Err(error) => !exists && error@ == ServiceErrorView::NotFound(pk@),
        },
{
    if exists {
        Ok(())
    } else {
        Err(ServiceError::NotFound(String::from_str(pk)))
    }
}

/// The outcome of a lookup of the record `pk`, given what the store found:
/// the record, or the error of an unknown key.
pub fn found_or_missing(found: Option<EmailConfirmationRequest>, pk: &str) -> (outcome: Result<
    EmailConfirmationRequest,
    ServiceError,
>)
    ensures
        match outcome {
            Ok(record) => found == Some(record),
            Err(error) => found is None && error@ == ServiceErrorView::NotFound(pk@),
        },
{
    match found {
        Some(record) => Ok(record),
        None => Err(ServiceError::NotFound(String::from_str(pk))),
    }
}

/// The repository of confirmation requests.
#[derive(Debug)]
pub struct EmailConfirmationRequestService {
    records: Vec<EmailConfirmationRequest>,
    table_name: String,
}

impl EmailConfirmationRequestService {
    /// The stored records, in scan order.
    pub closed spec fn rows(&self) -> Seq<RequestView> {
        request_views(self.records@)
    }

    /// The name of the table.
    pub closed spec fn table_name(&self) -> Seq<char> {
        self.table_name@
    }

    /// The repository holds no key twice.
    pub open spec fn wf(&self) -> bool {
        keys_distinct(self.rows())
    }

    /// An empty repository over the table `table_name`.
    pub fn new(table_name: &str) -> (service: Self)
        ensures
            service.wf(),
            service.rows() == Seq::<RequestView>::empty(),
            service.table_name() == table_name@,
    {
        let service = EmailConfirmationRequestService {
            records: Vec::new(),
            table_name: String::from_str(table_name),
        };
        assert(service.rows() =~= Seq::<RequestView>::empty());
        service
    }

    /// The position of the record `pk`.
    fn find(&self, pk: &str) -> (found: Option<usize>)
        requires
            self.wf(),
        ensures
            match found {
                Some(i) => {
                    &&& i < self.rows().len()
                    &&& has_key(self.rows(), pk@)
                    &&& key_index(self.rows(), pk@) == i
                },
                None => !has_key(self.rows(), pk@),
            },
    {
        let mut i: usize = 0;
        while i < self.records.len()
            invariant
                i <= self.records@.len(),
                self.wf(),
                forall|j: int| 0 <= j < i ==> (#[trigger] self.rows()[j]).pk != pk@,
            decreases self.records@.len() - i,
        {
            if str_eq(self.records[i].pk.as_str(), pk) {
                proof {
                    assert(self.rows()[i as int].pk == pk@);
                    lemma_key_index_unique(self.rows(), i as int);
                }
                return Some(i);
            }
            i += 1;
        }
        None
    }

    /// Whether a record with the key `pk` is stored.
    pub fn request_exist(&self, pk: &str) -> (exists: bool)
        requires
            self.wf(),
        ensures
            exists == has_key(self.rows(), pk@),
    {
        self.find(pk).is_some()
    }

    /// Stores a new request. A request whose key is taken is refused and
    /// nothing changes.
    pub fn post_email_confirmation_request(
        &mut self,
        ec_request: EmailConfirmationRequest,
    ) -> (result: Result<ApiBody, ServiceError>)
        requires
            old(self).wf(),
        ensures
            final(self).wf(),
            final(self).table_name() == old(self).table_name(),
            final(self).rows() == after_create(old(self).rows(), ec_request@),
            match result {
                Ok(body) => {
                    &&& !has_key(old(self).rows(), ec_request@.pk)
                    &&& body@ == ApiBodyView::Message(created_message())
                },
                Err(error) => {
                    &&& has_key(old(self).rows(), ec_request@.pk)
                    &&& error@ == ServiceErrorView::AlreadyExists
                },
            },
    {
        match refuse_duplicate(self.request_exist(ec_request.pk.as_str())) {
            Ok(_) => {},
            Err(error) => {
                return Err(error);
            },
        }
        let ghost before = self.rows();
        self.records.push(ec_request);
        proof {
            assert(self.rows() =~= before.push(ec_request@));
            assert forall|i: int, j: int| 0 <= i < j < self.rows().len() implies self.rows()[i].pk
                != self.rows()[j].pk by {
                if j == before.len() {
                    assert(before[i].pk != ec_request@.pk);
                } else {
                    assert(before[i].pk != before[j].pk);
                }
            }
        }
        Ok(creation_answer())
    }

    /// The sanitized record `pk`.
    pub fn get_email_confirmation_request_single(&self, pk: String) -> (result: Result<
        ApiBody,
        ServiceError,
    >)
        requires
            self.wf(),
        ensures
            match result {
                Ok(body) => {
                    &&& has_key(self.rows(), pk@)
                    &&& body@ == ApiBodyView::Request(row_of(self.rows(), pk@).sanitized())
                },
                Err(error) => {
                    &&& !has_key(self.rows(), pk@)
                    &&& error@ == ServiceErrorView::NotFound(pk@)
                },
            },
    {
        match self.get_email_confirmation_request_internal(pk) {
            Ok(record) => Ok(ApiBody::Request(record.sanitize())),
            Err(error) => Err(error),
        }
    }

    /// The full record `pk`, signature key included. For trusted callers
    /// only.
    pub fn get_email_confirmation_request_internal(&self, pk: String) -> (result: Result<
        EmailConfirmationRequest,
        ServiceError,
    >)
        requires
            self.wf(),
        ensures
            match result {
                Ok(record) => has_key(self.rows(), pk@) && record@ == row_of(self.rows(), pk@),
                Err(error) => {
                    &&& !has_key(self.rows(), pk@)
                    &&& error@ == ServiceErrorView::NotFound(pk@)
                },
            },
    {
        let found = match self.find(pk.as_str()) {
            Some(i) => Some(self.records[i].clone()),
            None => None,
        };
        found_or_missing(found, pk.as_str())
    }

    /// Deletes the record `pk`.
    pub fn delete_email_confirmation_request_single(&mut self, pk: String) -> (result: Result<
        ApiBody,
        ServiceError,
    >)
        requires
            old(self).wf(),
        ensures
            final(self).wf(),
            final(self).table_name() == old(self).table_name(),
            final(self).rows() == after_delete(old(self).rows(), pk@),
            match result {
                Ok(body) => {
                    &&& has_key(old(self).rows(), pk@)
                    &&& body@ == ApiBodyView::Message(deleted_message(pk@))
                },
                Err(error) => {
                    &&& !has_key(old(self).rows(), pk@)
                    &&& error@ == ServiceErrorView::NotFound(pk@)
                },
            },
    {
        let found = self.find(pk.as_str());
        match require_present(found.is_some(), pk.as_str()) {
            Ok(_) => {},
            Err(error) => {
                return Err(error);
            },
        }
        let i = found.unwrap();
        let ghost before = self.rows();
        self.records.remove(i);
        proof {
            assert(self.rows() =~= before.remove(i as int));
            assert forall|a: int, b: int| 0 <= a < b < self.rows().len() implies self.rows()[a].pk
                != self.rows()[b].pk by {
                let a0 = if a < i { a } else { a + 1 };
                let b0 = if b < i { b } else { b + 1 };
                assert(self.rows()[a] == before[a0]);
                assert(self.rows()[b] == before[b0]);
            }
        }
        Ok(deletion_answer(pk.as_str()))
    }

    /// Sets the status of the record `pk` and stamps it with `now`,
    /// whatever its status was. Returns the record as it is afterwards.
    pub fn put_email_confirmation_request_status(
        &mut self,
        pk: String,
        status: Status,
        now: u64,
    ) -> (result: Result<EmailConfirmationRequest, ServiceError>)
        requires
            old(self).wf(),
        ensures
            final(self).wf(),
            final(self).table_name() == old(self).table_name(),
            final(self).rows() == after_update(old(self).rows(), pk@, status, now as nat),
            match result {
                Ok(record) => {
                    &&& has_key(old(self).rows(), pk@)
                    &&& record@ == row_of(old(self).rows(), pk@).with_status(status, now as nat)
                },
                Err(error) => {
                    &&& !has_key(old(self).rows(), pk@)
                    &&& error@ == ServiceErrorView::NotFound(pk@)
                },
            },
    {
        let found = self.find(pk.as_str());
        match require_present(found.is_some(), pk.as_str()) {
            Ok(_) => {},
            Err(error) => {
                return Err(error);
            },
        }
        let i = found.unwrap();
        let ghost before = self.rows();
        let mut updated = self.records[i].clone();
        updated.status = status;
        updated.updated_at = now;
        let answer = updated.clone();
        self.records[i] = updated;
        proof {
            assert(self.rows() =~= before.update(i as int, answer@));
            assert forall|a: int, b: int| 0 <= a < b < self.rows().len() implies self.rows()[a].pk
                != self.rows()[b].pk by {
                assert(self.rows()[a].pk == before[a].pk);
                assert(self.rows()[b].pk == before[b].pk);
            }
        }
        Ok(answer)
    }

    /// One page of a scan: at most `limit` records behind the record
    /// `exclusive_start_key`, or from the front where none is given, and
    /// the continuation for the page after it.
    pub fn scan_page(&self, exclusive_start_key: &Option<String>, limit: usize) -> (page: ScanPage)
        requires
            self.wf(),
            limit > 0,
        ensures
            page.items matches Some(items) && sanitized_views(items@) == sanitized_rows(
                page_rows(self.rows(), optional_text(*exclusive_start_key), limit as nat),
            ),
            optional_text(page.last_evaluated_key) == page_continuation(
                self.rows(),
                optional_text(*exclusive_start_key),
                limit as nat,
            ),
    {
        let len = self.records.len();
        let start: usize = match exclusive_start_key {
            None => 0,
            Some(key) => match self.find(key.as_str()) {
                Some(i) => i + 1,
                None => len,
            },
        };
        let end: usize = if limit < len - start {
            start + limit
        } else {
            len
        };
        let mut items: Vec<SanitizedEmailConfirmationRequest> = Vec::new();
        let mut i: usize = start;
        while i < end
            invariant
                start <= i <= end <= self.records@.len(),
                sanitized_views(items@) == sanitized_rows(
                    self.rows().subrange(start as int, i as int),
                ),
            decreases end - i,
        {
            let ghost before = items@;
            let item = self.records[i].sanitize();
            items.push(item);
            proof {
                let done = self.rows().subrange(start as int, i as int);
                assert(self.rows()[i as int] == self.records@[i as int]@);
                assert(self.rows().subrange(start as int, i + 1) =~= done.push(
                    self.rows()[i as int],
                ));
                assert(sanitized_views(before.push(item)) =~= sanitized_views(before).push(item@));
                assert(sanitized_rows(done.push(self.rows()[i as int])) =~= sanitized_rows(
                    done,
                ).push(self.rows()[i as int].sanitized()));
            }
            i += 1;
        }
        let last_evaluated_key = if end < len {
            Some(self.records[end - 1].pk.clone())
        } else {
            None
        };
        ScanPage { items: Some(items), last_evaluated_key }
    }

    /// All records, sanitized, in scan order. The table is read page by
    /// page, `page_size` records at a time; the result does not depend on
    /// the page size.
    pub fn scan_all(&self, page_size: usize) -> (requests: Vec<SanitizedEmailConfirmationRequest>)
        requires
            self.wf(),
            page_size > 0,
        ensures
            sanitized_views(requests@) == sanitized_rows(self.rows()),
            forall|i: int, j: int|
                0 <= i < j < requests@.len() ==> requests@[i]@.pk != requests@[j]@.pk,
    {
        let mut cursor = ScanCursor::start();
        let ghost mut position: int = 0;
        assert(sanitized_rows(self.rows().take(0)) =~= Seq::<SanitizedView>::empty());
        loop
            invariant
                self.wf(),
                page_size > 0,
                0 <= position <= self.rows().len(),
                cursor.collected() == sanitized_rows(self.rows().take(position)),
                match cursor.next() {
                    ScanStepView::Fetch(None) => position == 0,
                    ScanStepView::Fetch(Some(key)) => {
                        &&& 0 < position < self.rows().len()
                        &&& key == self.rows()[position - 1].pk
                    },
                    ScanStepView::Finished => position == self.rows().len(),
                },
            ensures
                cursor.next() is Finished,
                position == self.rows().len(),
                cursor.collected() == sanitized_rows(self.rows().take(position)),
            decreases
                self.rows().len() - position + (if cursor.next() is Fetch { 1int } else { 0int }),
        {
            let key = match cursor.step() {
                ScanStep::Fetch(key) => key,
                ScanStep::Finished => {
                    break ;
                },
            };
            let page = self.scan_page(&key, page_size);
            proof {
                let rows = self.rows();
                let start = optional_text(key);
                if position > 0 {
                    lemma_key_index_unique(rows, position - 1);
                }
                assert(resume_index(rows, start) == position);
                let end = page_end(rows, start, page_size as nat);
                assert(rows.take(end) =~= rows.take(position) + rows.subrange(position, end));
                assert(sanitized_rows(rows.take(end)) =~= sanitized_rows(rows.take(position))
                    + sanitized_rows(rows.subrange(position, end)));
                position = end;
            }
            cursor.absorb(page);
        }
        assert(self.rows().take(position) =~= self.rows());
        let requests = cursor.into_requests();
        proof {
            assert forall|i: int, j: int| 0 <= i < j < requests@.len() implies requests@[i]@.pk
                != requests@[j]@.pk by {
                assert(sanitized_views(requests@)[i] == self.rows()[i].sanitized());
                assert(sanitized_views(requests@)[j] == self.rows()[j].sanitized());
            }
        }
        requests
    }

    /// The listing: the single record that a full identity filter names,
    /// or every record where the filter is not full.
    pub fn get_email_confirmation_requests(&self, params: QueryParams) -> (result: Result<
        ApiBody,
        ServiceError,
    >)
        requires
            self.wf(),
        ensures
            match filter_key(params) {
                Some(pk) => match result {
                    Ok(body) => {
                        &&& has_key(self.rows(), pk)
                        &&& body@ == ApiBodyView::Request(row_of(self.rows(), pk).sanitized())
                    },
                    Err(error) => {
                        &&& !has_key(self.rows(), pk)
                        &&& error@ == ServiceErrorView::NotFound(pk)
                    },
                },
                None => result matches Ok(body) && body@ == ApiBodyView::Requests(
                    sanitized_rows(self.rows()),
                ),
            },
    {
        match EmailConfirmationRequest::pk_from_query_params(&params) {
            Ok(pk) => self.get_email_confirmation_request_single(pk),
            Err(_) => Ok(ApiBody::Requests(self.scan_all(DEFAULT_SCAN_PAGE_SIZE))),
        }
    }
}

/// The key tells identities apart: where email and client id are free of
/// the key delimiter, equal keys come from equal components.
pub proof fn lemma_key_injective(
    email: Seq<char>,
    client_id: Seq<char>,
    request_id: Seq<char>,
    other_email: Seq<char>,
    other_client_id: Seq<char>,
    other_request_id: Seq<char>,
)
    requires
        !email.contains(KEY_DELIMITER),
        !client_id.contains(KEY_DELIMITER),
        !other_email.contains(KEY_DELIMITER),
        !other_client_id.contains(KEY_DELIMITER),
        spec_pk(email, client_id, request_id) == spec_pk(
            other_email,
            other_client_id,
            other_request_id,
        ),
    ensures
        email == other_email,
        client_id == other_client_id,
        request_id == other_request_id,
{
    let d = seq![KEY_DELIMITER];
    let tail = client_id + d + request_id;
    let other_tail = other_client_id + d + other_request_id;
    assert(spec_pk(email, client_id, request_id) =~= email + d + tail);
    assert(spec_pk(other_email, other_client_id, other_request_id) =~= other_email + d
        + other_tail);
    lemma_split_at_delimiter(KEY_DELIMITER, email, tail, other_email, other_tail);
    lemma_split_at_delimiter(
        KEY_DELIMITER,
        client_id,
        request_id,
        other_client_id,
        other_request_id,
    );
}

/// Once a request is stored, a second one with the same email, client id
/// and request id is refused and changes nothing, whatever else it holds.
pub proof fn law_same_identity_is_refused(
    rows: Seq<RequestView>,
    first: RequestView,
    second: RequestView,
)
    requires
        first.wf(),
        second.wf(),
        first.email == second.email,
        first.client_id == second.client_id,
        first.request_id == second.request_id,
    ensures
        has_key(after_create(rows, first), second.pk),
        after_create(after_create(rows, first), second) == after_create(rows, first),
{
    if !has_key(rows, first.pk) {
        let stored = rows.push(first);
        assert(stored[rows.len() as int].pk == second.pk);
    }
}

/// Storing a request does not stand in the way of one that differs from
/// it in email, client id or request id: the second is accepted exactly
/// where it would have been accepted before. The key delimiter must not
/// occur in the emails and client ids.
pub proof fn law_other_identity_is_independent(
    rows: Seq<RequestView>,
    first: RequestView,
    second: RequestView,
)
    requires
        first.wf(),
        second.wf(),
        !first.email.contains(KEY_DELIMITER),
        !first.client_id.contains(KEY_DELIMITER),
        !second.email.contains(KEY_DELIMITER),
        !second.client_id.contains(KEY_DELIMITER),
        first.email != second.email || first.client_id != second.client_id || first.request_id
            != second.request_id,
    ensures
        has_key(after_create(rows, first), second.pk) == has_key(rows, second.pk),
{
    if first.pk == second.pk {
        lemma_key_injective(
            first.email,
            first.client_id,
            first.request_id,
            second.email,
            second.client_id,
            second.request_id,
        );
    }
    let stored = after_create(rows, first);
    if has_key(rows, second.pk) {
        let i = key_index(rows, second.pk);
        assert(stored[i].pk == second.pk);
    }
    if has_key(stored, second.pk) {
        let i = key_index(stored, second.pk);
        if i < rows.len() {
            assert(rows[i].pk == second.pk);
        }
    }
}

} // verus!
