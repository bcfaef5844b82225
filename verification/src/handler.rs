//! The request API: listing, creation, signed read, signed status
//! transition and deletion, on top of the repository and the signature
//! authority. Every endpoint answers with a status code and a body.

use crate::email_confirmation_request::{
    is_random_uuid, spec_pk, EmailConfirmationMinimalRequest, EmailConfirmationRequest,
    RequestView, Status, EMAIL_REQUEST_EXPIRATION_PERIOD,
};
use crate::email_confirmation_request_service::{
    after_create, after_delete, after_update, created_message, deleted_message, error_message,
    filter_key, has_key, optional_text, row_of, sanitized_rows, texts_of, ApiBody, ApiBodyView,
    EmailConfirmationRequestService, ServiceError, ServiceErrorView,
};
use crate::handler_params::{GetSingleParams, PutStatusParams, QueryParams};
use crate::signature_request::{
    signed_fields_of, SignatureCreationData, SignatureRequest, SignatureResponse,
    SignatureVerificationResult,
};
use crate::signature_service::{signature_of, verifies};
use vstd::prelude::*;
use vstd::string::*;

verus! {

/// Status code of an answer that the API gave in the ordinary course.
pub const STATUS_OK: u16 = 200;

/// Status code of an answer to a failure of the store or a notifier.
pub const STATUS_INTERNAL_SERVER_ERROR: u16 = 500;

/// An answer of the request API.
#[derive(Debug, PartialEq, Eq)]
pub struct ApiResponse {
    pub status_code: u16,
    pub body: ApiBody,
}

/// Mathematical content of an [`ApiResponse`].
pub struct ApiResponseView {
    pub status_code: nat,
    pub body: ApiBodyView,
}

impl View for ApiResponse {
    type V = ApiResponseView;

    open spec fn view(&self) -> ApiResponseView {
        ApiResponseView { status_code: self.status_code as nat, body: self.body@ }
    }
}

/// The words of the one refusal that an unknown key, a missing token and a
/// wrong token have in common.
pub open spec fn invalid_request_message() -> Seq<char> {
    "Invalid request"@
}

/// The causes in `causes`, each behind the words " because: ".
pub open spec fn because_chain(causes: Seq<Seq<char>>) -> Seq<char>
    decreases causes.len(),
{
    if causes.len() == 0 {
        Seq::empty()
    } else {
        because_chain(causes.drop_last()) + " because: "@ + causes.last()
    }
}

/// The words of the answer to a failure of the store or a notifier. They
/// are the same for every such failure: callers learn nothing of its
/// causes.
pub open spec fn server_error_message() -> Seq<char> {
    "Internal server error"@
}

/// What operators are told of an upstream failure beside its outermost
/// cause: the causes behind it.
pub open spec fn causes_behind_outermost(causes: Seq<Seq<char>>) -> Seq<char> {
    if causes.len() <= 1 {
        Seq::empty()
    } else {
        because_chain(causes.subrange(1, causes.len() as int))
    }
}

/// The answer that says no more than "invalid request".
pub open spec fn invalid_response() -> ApiResponseView {
    ApiResponseView {
        status_code: STATUS_OK as nat,
        body: ApiBodyView::Failure(invalid_request_message()),
    }
}

/// The answer to the outcome of an operation.
pub open spec fn response_for(result: Result<ApiBodyView, ServiceErrorView>) -> ApiResponseView {
    match result {
        Ok(body) => ApiResponseView { status_code: STATUS_OK as nat, body },
        Err(ServiceErrorView::NotFound(_)) => invalid_response(),
        Err(ServiceErrorView::InvalidSignature) => invalid_response(),
        Err(ServiceErrorView::AlreadyExists) => ApiResponseView {
            status_code: STATUS_OK as nat,
            body: ApiBodyView::Failure(error_message(ServiceErrorView::AlreadyExists)),
        },
        Err(ServiceErrorView::Expired) => ApiResponseView {
            status_code: STATUS_OK as nat,
            body: ApiBodyView::Failure(error_message(ServiceErrorView::Expired)),
        },
        Err(ServiceErrorView::UpstreamFailure(_)) => ApiResponseView {
            status_code: STATUS_INTERNAL_SERVER_ERROR as nat,
            body: ApiBodyView::Failure(server_error_message()),
        },
    }
}

/// The answer to a failure of the store or a notifier tells nothing of
/// its causes: any two such failures are answered alike.
pub proof fn law_server_error_hides_causes(causes: Seq<Seq<char>>, other_causes: Seq<Seq<char>>)
    ensures
        response_for(Err(ServiceErrorView::UpstreamFailure(causes))) == response_for(
            Err(ServiceErrorView::UpstreamFailure(other_causes)),
        ),
        response_for(Err(ServiceErrorView::UpstreamFailure(causes))).status_code
            == STATUS_INTERNAL_SERVER_ERROR,
{
}

/// An unknown key and a token that does not verify are answered alike,
/// whatever the key: the answer does not tell which requests exist.
pub proof fn law_refusal_hides_existence(pk: Seq<char>)
    ensures
        response_for(Err(ServiceErrorView::NotFound(pk))) == response_for(
            Err(ServiceErrorView::InvalidSignature),
        ),
        response_for(Err(ServiceErrorView::NotFound(pk))) == invalid_response(),
{
}

/// The content of the outcome of an operation.
pub open spec fn outcome_view(result: Result<ApiBody, ServiceError>) -> Result<
    ApiBodyView,
    ServiceErrorView,
> {
    match result {
        Ok(body) => Ok(body@),
        Err(error) => Err(error@),
    }
}

/// `signature` is present and is the signature of the record `pk` as it is
/// stored in `rows`.
pub open spec fn authorized(rows: Seq<RequestView>, pk: Seq<char>, signature: Option<Seq<char>>)
    -> bool {
    &&& signature is Some
    &&& has_key(rows, pk)
    &&& verifies(signature->0, signed_fields_of(row_of(rows, pk)))
}

/// The answer for a refusal in words.
fn invalid_request() -> (response: ApiResponse)
    ensures
        response@ == invalid_response(),
{
    ApiResponse {
        status_code: STATUS_OK,
        body: ApiBody::Failure(String::from_str("Invalid request")),
    }
}

/// What operators are told of an upstream failure with the causes
/// `causes`, beside the outermost: every cause behind it. The text is for
/// logs; no answer to a caller holds it.
pub fn error_chain_message(causes: &Vec<String>) -> (message: String)
    ensures
        message@ == causes_behind_outermost(texts_of(causes@)),
{
    let mut message = String::new();
    let mut i: usize = 1;
    if causes.len() <= 1 {
        return message;
    }
    let ghost rest = texts_of(causes@).subrange(1, causes@.len() as int);
    assert(rest.take(0) =~= Seq::<Seq<char>>::empty());
    while i < causes.len()
        invariant
            1 <= i <= causes@.len(),
            rest == texts_of(causes@).subrange(1, causes@.len() as int),
            message@ == because_chain(rest.take(i - 1)),
        decreases causes@.len() - i,
    {
        message.append(" because: ");
        message.append(causes[i].as_str());
        proof {
            let done = rest.take(i as int);
            assert(done.drop_last() =~= rest.take(i - 1));
            assert(done.last() == causes@[i as int]@);
        }
        i += 1;
    }
    assert(rest.take(i - 1) =~= rest);
    message
}

/// Turns the outcome of an operation into the answer for the caller. An
/// unknown key and a wrong token get the same answer. Only a failure of
/// the store or a notifier is reported as a server error, and always in
/// the same words, whatever its causes.
pub fn result_to_response(result: Result<ApiBody, ServiceError>) -> (response: ApiResponse)
    ensures
        response@ == response_for(outcome_view(result)),
{
    match result {
        Ok(body) => ApiResponse { status_code: STATUS_OK, body },
        Err(ServiceError::NotFound(_)) => invalid_request(),
        Err(ServiceError::InvalidSignature) => invalid_request(),
        Err(ServiceError::AlreadyExists) => ApiResponse {
            status_code: STATUS_OK,
            body: ApiBody::Failure(ServiceError::AlreadyExists.to_string()),
        },
        Err(ServiceError::Expired) => ApiResponse {
            status_code: STATUS_OK,
            body: ApiBody::Failure(ServiceError::Expired.to_string()),
        },
        Err(ServiceError::UpstreamFailure(_)) => ApiResponse {
            status_code: STATUS_INTERNAL_SERVER_ERROR,
            body: ApiBody::Failure(String::from_str("Internal server error")),
        },
    }
}

/// The signature of `confirmation_request` in its present state.
pub fn create_signature(confirmation_request: &EmailConfirmationRequest) -> (signature: String)
    ensures
        signature@ == signature_of(signed_fields_of(confirmation_request@)),
        signature@.len() == 64,
{
    crate::signature_service::create_signature(
        SignatureCreationData {
            email: confirmation_request.email.clone(),
            client_id: confirmation_request.client_id.clone(),
            request_id: confirmation_request.request_id.clone(),
            updated_at: confirmation_request.updated_at,
            signature_key: confirmation_request.signature_key.clone(),
        },
    )
}

/// Whether `signature` is the signature of `confirmation_request` in its
/// present state, as the signature authority sees it.
pub fn signature_is_valid(
    signature: String,
    confirmation_request: &EmailConfirmationRequest,
) -> (valid: bool)
    ensures
        valid == verifies(signature@, signed_fields_of(confirmation_request@)),
{
    let request = SignatureRequest::signature_verification_request(
        confirmation_request,
        signature,
    );
    match crate::signature_service::function_handler(request) {
        Ok(SignatureResponse::VerificationResult(SignatureVerificationResult::Success)) => true,
        _ => false,
    }
}

/// The content of what a lookup found.
pub open spec fn lookup_view(found: Result<EmailConfirmationRequest, ServiceError>) -> Result<
    RequestView,
    ServiceErrorView,
> {
    match found {
        Ok(record) => Ok(record@),
        Err(error) => Err(error@),
    }
}

/// What a token opens: the record that the lookup found, where the token
/// is there and is the signature of that record; the error of the lookup
/// where it failed; the error of an invalid signature otherwise.
pub open spec fn authorisation(
    found: Result<RequestView, ServiceErrorView>,
    signature: Option<Seq<char>>,
) -> Result<RequestView, ServiceErrorView> {
    match (signature, found) {
        (None, _) => Err(ServiceErrorView::InvalidSignature),
        (Some(signature), Ok(record)) => if verifies(signature, signed_fields_of(record)) {
            Ok(record)
        } else {
            Err(ServiceErrorView::InvalidSignature)
        },
        (Some(_), Err(error)) => Err(error),
    }
}

/// The answer to a read with the token `signature` of a request whose
/// lookup gave `found`: the sanitized record for the holder of its token,
/// a server error for a failure of the store, and the one refusal for
/// everything else.
pub open spec fn signed_read_response(
    found: Result<RequestView, ServiceErrorView>,
    signature: Option<Seq<char>>,
) -> ApiResponseView {
    response_for(
        match authorisation(found, signature) {
            Ok(record) => Ok(ApiBodyView::Request(record.sanitized())),
            Err(error) => Err(error),
        },
    )
}

/// The status that a transition request may set on the request whose
/// lookup gave `found`: the one it names, where it carries the token of
/// the record as it is stored; none otherwise.
pub open spec fn granted_status(
    found: Result<RequestView, ServiceErrorView>,
    status: Option<Status>,
    signature: Option<Seq<char>>,
) -> Option<Status> {
    if authorisation(found, signature) is Ok {
        status
    } else {
        None
    }
}

/// The answer to a transition request that is not granted: the one
/// refusal where it names no status, and the answer to the error of the
/// authorisation otherwise.
pub open spec fn transition_refusal(
    found: Result<RequestView, ServiceErrorView>,
    status: Option<Status>,
    signature: Option<Seq<char>>,
) -> ApiResponseView {
    match (status, authorisation(found, signature)) {
        (Some(_), Err(error)) => response_for(Err(error)),
        _ => invalid_response(),
    }
}

/// Checks a token against what the lookup of a request found. The record
/// is handed on to the holder of its token only.
pub fn authorise(
    found: Result<EmailConfirmationRequest, ServiceError>,
    signature: Option<String>,
) -> (result: Result<EmailConfirmationRequest, ServiceError>)
    ensures
        lookup_view(result) == authorisation(lookup_view(found), optional_text(signature)),
{
    let signature = match signature {
        Some(signature) => signature,
        None => {
            return Err(ServiceError::InvalidSignature);
        },
    };
    match found {
        Ok(confirmation_request) => {
            if signature_is_valid(signature, &confirmation_request) {
                Ok(confirmation_request)
            } else {
                Err(ServiceError::InvalidSignature)
            }
        },
        Err(error) => Err(error),
    }
}

/// Answers a read with a token, given what the lookup of the request
/// found.
pub fn answer_signed_read(
    found: Result<EmailConfirmationRequest, ServiceError>,
    params: GetSingleParams,
) -> (response: ApiResponse)
    ensures
        response@ == signed_read_response(lookup_view(found), optional_text(params.signature)),
{
    match authorise(found, params.signature) {
        Ok(confirmation_request) => result_to_response(
            Ok(ApiBody::Request(confirmation_request.sanitize())),
        ),
        Err(error) => result_to_response(Err(error)),
    }
}

/// Decides on a transition request, given what the lookup of the request
/// found: the status to set where the request is granted, the answer to
/// give where it is not.
pub fn authorise_transition(
    found: Result<EmailConfirmationRequest, ServiceError>,
    put_status_params: PutStatusParams,
) -> (decision: Result<Status, ApiResponse>)
    ensures
        match decision {
            Ok(status) => granted_status(
                lookup_view(found),
                put_status_params.status,
                optional_text(put_status_params.signature),
            ) == Some(status),
            Err(response) => {
                &&& granted_status(
                    lookup_view(found),
                    put_status_params.status,
                    optional_text(put_status_params.signature),
                ) is None
                &&& response@ == transition_refusal(
                    lookup_view(found),
                    put_status_params.status,
                    optional_text(put_status_params.signature),
                )
            },
        },
{
    let status = match put_status_params.status {
        Some(status) => status,
        None => {
            return Err(invalid_request());
        },
    };
    match authorise(found, put_status_params.signature) {
        Ok(_) => Ok(status),
        Err(error) => Err(result_to_response(Err(error))),
    }
}

/// Answers a transition that was carried out, or that the store failed to
/// carry out.
pub fn answer_transition(
    updated: Result<EmailConfirmationRequest, ServiceError>,
) -> (response: ApiResponse)
    ensures
        response@ == response_for(
            match updated {
                Ok(record) => Ok(ApiBodyView::Request(record@.sanitized())),
                Err(error) => Err(error@),
            },
        ),
{
    match updated {
        Ok(updated_request) => result_to_response(Ok(ApiBody::Request(updated_request.sanitize()))),
        Err(error) => result_to_response(Err(error)),
    }
}

/// Lists requests: the one that a full identity filter names, else all.
pub fn get_email_confirmation_requests(
    service: &EmailConfirmationRequestService,
    params: QueryParams,
) -> (response: ApiResponse)
    requires
        service.wf(),
    ensures
        response@ == response_for(
            match filter_key(params) {
                Some(pk) => if has_key(service.rows(), pk) {
                    Ok(ApiBodyView::Request(row_of(service.rows(), pk).sanitized()))
                } else {
                    Err(ServiceErrorView::NotFound(pk))
                },
                None => Ok(ApiBodyView::Requests(sanitized_rows(service.rows()))),
            },
        ),
{
    let result = service.get_email_confirmation_requests(params);
    result_to_response(result)
}

/// Stores `request`, which was built for a caller, and answers.
pub fn create_request(
    service: &mut EmailConfirmationRequestService,
    request: EmailConfirmationRequest,
) -> (response: ApiResponse)
    requires
        old(service).wf(),
    ensures
        final(service).wf(),
        final(service).table_name() == old(service).table_name(),
        final(service).rows() == after_create(old(service).rows(), request@),
        response@ == response_for(
            if has_key(old(service).rows(), request@.pk) {
                Err(ServiceErrorView::AlreadyExists)
            } else {
                Ok(ApiBodyView::Message(created_message()))
            },
        ),
{
    let result = service.post_email_confirmation_request(request);
    result_to_response(result)
}

/// Builds the request that `minimal_request` asks for, at time `now`:
/// queued, with a fresh signature key, expiring after the fixed period. A
/// request whose email, client id or request id holds the key delimiter is
/// not admitted and gets the one refusal.
pub fn admit_request(
    minimal_request: EmailConfirmationMinimalRequest,
    now: u64,
) -> (admitted: Result<EmailConfirmationRequest, ApiResponse>)
    requires
        now + EMAIL_REQUEST_EXPIRATION_PERIOD <= u64::MAX,
    ensures
        match admitted {
            Ok(request) => {
                &&& minimal_request@.valid_identity()
                &&& request@ == RequestView::created(
                    minimal_request@,
                    request@.signature_key,
                    now as nat,
                )
                &&& is_random_uuid(request@.signature_key)
            },
            Err(refusal) => {
                &&& !minimal_request@.valid_identity()
                &&& refusal@ == invalid_response()
            },
        },
{
    if minimal_request.has_valid_identity() {
        Ok(EmailConfirmationRequest::from_minimal(minimal_request, now))
    } else {
        Err(invalid_request())
    }
}

/// Creates the request that `minimal_request` asks for, at time `now`. A
/// request that is not admitted, and one whose identity is already stored,
/// is refused and changes nothing.
pub fn post_email_confirmation_request(
    service: &mut EmailConfirmationRequestService,
    minimal_request: EmailConfirmationMinimalRequest,
    now: u64,
) -> (response: ApiResponse)
    requires
        old(service).wf(),
        now + EMAIL_REQUEST_EXPIRATION_PERIOD <= u64::MAX,
    ensures
        final(service).wf(),
        final(service).table_name() == old(service).table_name(),
        ({
            let before = old(service).rows();
            let after = final(service).rows();
            let pk = spec_pk(
                minimal_request@.email,
                minimal_request@.client_id,
                minimal_request@.request_id,
            );
            if !minimal_request@.valid_identity() {
                &&& after == before
                &&& response@ == invalid_response()
            } else if has_key(before, pk) {
                &&& after == before
                &&& response@ == response_for(Err(ServiceErrorView::AlreadyExists))
            } else {
                &&& after.len() == before.len() + 1
                &&& after.drop_last() == before
                &&& after.last() == RequestView::created(
                    minimal_request@,
                    after.last().signature_key,
                    now as nat,
                )
                &&& is_random_uuid(after.last().signature_key)
                &&& response@ == response_for(Ok(ApiBodyView::Message(created_message())))
            }
        }),
{
    let request = match admit_request(minimal_request, now) {
        Ok(request) => request,
        Err(refusal) => {
            return refusal;
        },
    };
    let ghost before = service.rows();
    let response = create_request(service, request);
    proof {
        if !has_key(before, request@.pk) {
            assert(service.rows().drop_last() =~= before);
        }
    }
    response
}

/// Reads one request for the holder of its token. A missing token, an
/// unknown key and a wrong token all get the same refusal.
pub fn get_email_confirmation_request_single(
    service: &EmailConfirmationRequestService,
    pk: String,
    params: GetSingleParams,
) -> (response: ApiResponse)
    requires
        service.wf(),
    ensures
        response@ == (if authorized(service.rows(), pk@, optional_text(params.signature)) {
            response_for(Ok(ApiBodyView::Request(row_of(service.rows(), pk@).sanitized())))
        } else {
            invalid_response()
        }),
{
    let found = match &params.signature {
        Some(_) => service.get_email_confirmation_request_internal(pk),
        None => Err(ServiceError::InvalidSignature),
    };
    answer_signed_read(found, params)
}

/// Deletes one request.
pub fn delete_email_confirmation_request_single(
    service: &mut EmailConfirmationRequestService,
    pk: String,
) -> (response: ApiResponse)
    requires
        old(service).wf(),
    ensures
        final(service).wf(),
        final(service).table_name() == old(service).table_name(),
        final(service).rows() == after_delete(old(service).rows(), pk@),
        response@ == response_for(
            if has_key(old(service).rows(), pk@) {
                Ok(ApiBodyView::Message(deleted_message(pk@)))
            } else {
                Err(ServiceErrorView::NotFound(pk@))
            },
        ),
{
    let result = service.delete_email_confirmation_request_single(pk);
    result_to_response(result)
}

/// Moves one request to a new status for the holder of its token, at time
/// `now`. The token is checked against the record as it is stored before
/// the change. Without a status, or without a token that verifies, nothing
/// changes and the refusal is the same as for an unknown key.
pub fn put_email_confirmation_request_status(
    service: &mut EmailConfirmationRequestService,
    pk: String,
    put_status_params: PutStatusParams,
    now: u64,
) -> (response: ApiResponse)
    requires
        old(service).wf(),
    ensures
        final(service).wf(),
        final(service).table_name() == old(service).table_name(),
        ({
            let before = old(service).rows();
            if put_status_params.status is Some && authorized(
                before,
                pk@,
                optional_text(put_status_params.signature),
            ) {
                let status = put_status_params.status->0;
                &&& final(service).rows() == after_update(before, pk@, status, now as nat)
                &&& response@ == response_for(
                    Ok(
                        ApiBodyView::Request(
                            row_of(before, pk@).with_status(status, now as nat).sanitized(),
                        ),
                    ),
                )
            } else {
                &&& final(service).rows() == before
                &&& response@ == invalid_response()
            }
        }),
{
    let found = service.get_email_confirmation_request_internal(pk.clone());
    match authorise_transition(found, put_status_params) {
        Ok(status) => answer_transition(
            service.put_email_confirmation_request_status(pk, status, now),
        ),
        Err(refusal) => refusal,
    }
}

} // verus!
