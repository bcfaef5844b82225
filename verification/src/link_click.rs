//! The endpoint behind the link of the confirmation email. It shows the
//! holder of a valid link a button, confirms the request when the button
//! is pressed, and turns away links that have expired.

use crate::email_confirmation_request::{RequestView, SanitizedEmailConfirmationRequest, Status};
use crate::email_confirmation_request_service::{
    after_update, has_key, optional_text, row_of, ApiBody, EmailConfirmationRequestService,
};
use crate::handler::{
    authorized, get_email_confirmation_request_single, put_email_confirmation_request_status,
};
use crate::handler_params::{GetSingleParams, PutStatusParams};
use crate::links::{confirmation_link, confirmation_link_for};
use crate::text::str_eq;
use vstd::prelude::*;
use vstd::string::*;

verus! {

/// What the endpoint does with a click.
#[derive(Debug, PartialEq, Eq, Clone, Copy, Structural)]
pub enum ClickDecision {
    /// The request has expired: say so and change nothing.
    ShowExpired,
    /// Show the page with the button that confirms.
    ShowConfirmButton,
    /// Confirm the request.
    Confirm,
    /// The method is neither `GET` nor `POST`.
    RejectMethod,
}

/// Why the endpoint turned a click away.
#[derive(Debug, PartialEq, Eq)]
pub enum ClickError {
    /// The path is not the path of the endpoint.
    InvalidPath(String),
    /// The link names no request or carries no token.
    MissingParameter,
    /// No request has the key, or the token does not verify.
    InvalidRequest,
    /// The method is neither `GET` nor `POST`.
    InvalidMethod(String),
}

/// Mathematical content of a [`ClickError`].
pub enum ClickErrorView {
    InvalidPath(Seq<char>),
    MissingParameter,
    InvalidRequest,
    InvalidMethod(Seq<char>),
}

impl View for ClickError {
    type V = ClickErrorView;

    open spec fn view(&self) -> ClickErrorView {
        match self {
            ClickError::InvalidPath(path) => ClickErrorView::InvalidPath(path@),
            ClickError::MissingParameter => ClickErrorView::MissingParameter,
            ClickError::InvalidRequest => ClickErrorView::InvalidRequest,
            ClickError::InvalidMethod(method) => ClickErrorView::InvalidMethod(method@),
        }
    }
}

/// What a refusal says in words.
pub open spec fn click_error_message(error: ClickErrorView) -> Seq<char> {
    match error {
        ClickErrorView::InvalidPath(path) => "Invalid path: "@ + path,
        ClickErrorView::MissingParameter => "Missing parameter"@,
        ClickErrorView::InvalidRequest => "Invalid request"@,
        ClickErrorView::InvalidMethod(method) => "Invalid method: "@ + method,
    }
}

impl ClickError {
    /// The refusal in words.
    pub fn to_string(&self) -> (message: String)
        ensures
            message@ == click_error_message(self@),
    {
        match self {
            ClickError::InvalidPath(path) => {
                let mut message = String::from_str("Invalid path: ");
                message.append(path.as_str());
                message
            },
            ClickError::MissingParameter => String::from_str("Missing parameter"),
            ClickError::InvalidRequest => String::from_str("Invalid request"),
            ClickError::InvalidMethod(method) => {
                let mut message = String::from_str("Invalid method: ");
                message.append(method.as_str());
                message
            },
        }
    }
}

/// The request key and the token that a click on `path` names, or the
/// reason why it names none.
pub open spec fn routed(path: Seq<char>, principal: Option<Seq<char>>, signature: Option<Seq<char>>)
    -> Result<(Seq<char>, Seq<char>), ClickErrorView> {
    if path != "/confirm"@ {
        Err(ClickErrorView::InvalidPath(path))
    } else if principal is None || signature is None {
        Err(ClickErrorView::MissingParameter)
    } else {
        Ok((principal->0, signature->0))
    }
}

/// A request can be confirmed at time `now` as long as `now` is not past
/// its expiry.
pub open spec fn not_expired(expires_at: nat, now: nat) -> bool {
    now <= expires_at
}

/// What the endpoint does with a click of the given method on a request
/// that expires at `expires_at`, at time `now`. Expiry comes first: past
/// it no method confirms.
pub open spec fn click_decision(method: Seq<char>, expires_at: nat, now: nat) -> ClickDecision {
    if !not_expired(expires_at, now) {
        ClickDecision::ShowExpired
    } else if method == "GET"@ {
        ClickDecision::ShowConfirmButton
    } else if method == "POST"@ {
        ClickDecision::Confirm
    } else {
        ClickDecision::RejectMethod
    }
}

/// The page for a request that has expired.
pub open spec fn expired_page() -> Seq<char> {
    "<html><head>\n            <title>Confirmation request expired</title>\n        </head><body>\n            <h1>Confirmation request expired.</h1>\n            <p>Please, re-request confirmation.</p>\n        </body><html>"@
}

/// The page with the button that confirms `email` by a `POST` to
/// `action_url`.
pub open spec fn confirm_button_page(email: Seq<char>, action_url: Seq<char>) -> Seq<char> {
    "<html><head>\n                <title>Confirm email address</title>\n            </head><body>\n                <h1>Confirm email address</h1>\n                <p>Confirm your email address '"@
        + email
        + "' by clicking the button below.</p>\n                <form method=\"POST\" action=\""@
        + action_url
        + "\">\n                    <input type=\"submit\" value=\"Confirm\" />\n                </form>\n            </body><html>"@
}

/// The page that tells that `email` is confirmed.
pub open spec fn confirmed_page(email: Seq<char>) -> Seq<char> {
    "<html><head>\n            <title>Email address confirmed</title>\n        </head><body>\n            <h1>Email address confirmed</h1>\n            <p>Your email address '"@
        + email
        + "' is confirmed.</p>\n        </body><html>"@
}

/// The outcome of a click: the page to show, or the reason why the click
/// was turned away.
pub open spec fn click_outcome(
    rows: Seq<RequestView>,
    path: Seq<char>,
    method: Seq<char>,
    principal: Option<Seq<char>>,
    signature: Option<Seq<char>>,
    now: nat,
    self_service_url: Seq<char>,
) -> Result<Seq<char>, ClickErrorView> {
    if path != "/confirm"@ {
        Err(ClickErrorView::InvalidPath(path))
    } else if principal is None || signature is None {
        Err(ClickErrorView::MissingParameter)
    } else if !authorized(rows, principal->0, signature) {
        Err(ClickErrorView::InvalidRequest)
    } else {
        let record = row_of(rows, principal->0);
        match click_decision(method, record.expires_at, now) {
            ClickDecision::ShowExpired => Ok(expired_page()),
            ClickDecision::ShowConfirmButton => Ok(
                confirm_button_page(
                    record.email,
                    confirmation_link(self_service_url, principal->0, signature->0),
                ),
            ),
            ClickDecision::Confirm => Ok(confirmed_page(record.email)),
            ClickDecision::RejectMethod => Err(ClickErrorView::InvalidMethod(method)),
        }
    }
}

/// The repository after a click: the request is `Confirmed` and stamped
/// with `now` where a `POST` came in time with a token that verifies, and
/// nothing has changed otherwise.
pub open spec fn rows_after_click(
    rows: Seq<RequestView>,
    path: Seq<char>,
    method: Seq<char>,
    principal: Option<Seq<char>>,
    signature: Option<Seq<char>>,
    now: nat,
) -> Seq<RequestView> {
    if path == "/confirm"@ && principal is Some && signature is Some && authorized(
        rows,
        principal->0,
        signature,
    ) && click_decision(method, row_of(rows, principal->0).expires_at, now)
        == ClickDecision::Confirm {
        after_update(rows, principal->0, Status::Confirmed, now)
    } else {
        rows
    }
}

/// Reads the request key and the token off a click. Only the path of the
/// endpoint is served, and both parameters must be there.
pub fn route(path: &str, principal: Option<String>, signature: Option<String>) -> (target: Result<
    (String, String),
    ClickError,
>)
    ensures
        (match target {
            Ok((principal, signature)) => Ok((principal@, signature@)),
            Err(error) => Err(error@),
        }) == routed(path@, optional_text(principal), optional_text(signature)),
{
    if !str_eq(path, "/confirm") {
        return Err(ClickError::InvalidPath(String::from_str(path)));
    }
    match (principal, signature) {
        (Some(principal), Some(signature)) => Ok((principal, signature)),
        _ => Err(ClickError::MissingParameter),
    }
}

/// Whether a request can still be confirmed at time `now`.
pub fn expiration_date_is_valid(
    confirmation_request: &SanitizedEmailConfirmationRequest,
    now: u64,
) -> (valid: bool)
    ensures
        valid == not_expired(confirmation_request@.expires_at, now as nat),
{
    now <= confirmation_request.expires_at
}

/// What the endpoint does with a click of the given method on
/// `confirmation_request` at time `now`.
pub fn decide_click(
    method: &str,
    confirmation_request: &SanitizedEmailConfirmationRequest,
    now: u64,
) -> (decision: ClickDecision)
    ensures
        decision == click_decision(method@, confirmation_request@.expires_at, now as nat),
{
    if !expiration_date_is_valid(confirmation_request, now) {
        ClickDecision::ShowExpired
    } else if str_eq(method, "GET") {
        ClickDecision::ShowConfirmButton
    } else if str_eq(method, "POST") {
        ClickDecision::Confirm
    } else {
        ClickDecision::RejectMethod
    }
}

/// The page for a request that has expired.
pub fn get_expired_response() -> (page: String)
    ensures
        page@ == expired_page(),
{
    String::from_str(
        "<html><head>\n            <title>Confirmation request expired</title>\n        </head><body>\n            <h1>Confirmation request expired.</h1>\n            <p>Please, re-request confirmation.</p>\n        </body><html>",
    )
}

/// The page with the button that confirms `email`: the button posts to
/// the link that was clicked.
pub fn get_confirm_button_response(
    self_service_url: &str,
    email: &str,
    principal: &str,
    signature: &str,
) -> (page: String)
    ensures
        page@ == confirm_button_page(
            email@,
            confirmation_link(self_service_url@, principal@, signature@),
        ),
{
    let action_url = confirmation_link_for(self_service_url, principal, signature);
    let mut page = String::from_str(
        "<html><head>\n                <title>Confirm email address</title>\n            </head><body>\n                <h1>Confirm email address</h1>\n                <p>Confirm your email address '",
    );
    page.append(email);
    page.append(
        "' by clicking the button below.</p>\n                <form method=\"POST\" action=\"",
    );
    page.append(action_url.as_str());
    page.append(
        "\">\n                    <input type=\"submit\" value=\"Confirm\" />\n                </form>\n            </body><html>",
    );
    page
}

/// The page that tells that the email of `updated_request` is confirmed.
pub fn get_confirmed_response(updated_request: &SanitizedEmailConfirmationRequest) -> (page: String)
    ensures
        page@ == confirmed_page(updated_request@.email),
{
    let mut page = String::from_str(
        "<html><head>\n            <title>Email address confirmed</title>\n        </head><body>\n            <h1>Email address confirmed</h1>\n            <p>Your email address '",
    );
    page.append(updated_request.email.as_str());
    page.append(
        "' is confirmed.</p>\n        </body><html>",
    );
    page
}

/// Serves one click on a confirmation link at time `now`. The request is
/// read with the token of the link; a link whose token does not verify is
/// turned away like one for an unknown request. A request past its expiry
/// is never confirmed, whatever the token.
pub fn function_handler(
    service: &mut EmailConfirmationRequestService,
    path: &str,
    method: &str,
    principal: Option<String>,
    signature: Option<String>,
    now: u64,
    self_service_url: &str,
) -> (result: Result<String, ClickError>)
    requires
        old(service).wf(),
    ensures
        final(service).wf(),
        final(service).table_name() == old(service).table_name(),
        final(service).rows() == rows_after_click(
            old(service).rows(),
            path@,
            method@,
            optional_text(principal),
            optional_text(signature),
            now as nat,
        ),
        (match result {
            Ok(page) => Ok(page@),
            Err(error) => Err(error@),
        }) == click_outcome(
            old(service).rows(),
            path@,
            method@,
            optional_text(principal),
            optional_text(signature),
            now as nat,
            self_service_url@,
        ),
{
    let (principal, signature) = match route(path, principal, signature) {
        Ok(target) => target,
        Err(error) => {
            return Err(error);
        },
    };
    let response = get_email_confirmation_request_single(
        service,
        principal.clone(),
        GetSingleParams { signature: Some(signature.clone()) },
    );
    let confirmation_request = match response.body {
        ApiBody::Request(request) => request,
        _ => {
            return Err(ClickError::InvalidRequest);
        },
    };
    match decide_click(method, &confirmation_request, now) {
        ClickDecision::ShowExpired => Ok(get_expired_response()),
        ClickDecision::ShowConfirmButton => Ok(
            get_confirm_button_response(
                self_service_url,
                confirmation_request.email.as_str(),
                principal.as_str(),
                signature.as_str(),
            ),
        ),
        ClickDecision::Confirm => {
            let updated = put_email_confirmation_request_status(
                service,
                principal,
                PutStatusParams { status: Some(Status::Confirmed), signature: Some(signature) },
                now,
            );
            match updated.body {
                ApiBody::Request(updated_request) => Ok(get_confirmed_response(&updated_request)),
                _ => Err(ClickError::InvalidRequest),
            }
        },
        ClickDecision::RejectMethod => Err(ClickError::InvalidMethod(String::from_str(method))),
    }
}

/// A click past the expiry of the request confirms nothing: the repository
/// stays as it is and no page of confirmation is shown, even where the
/// token verifies and the method is `POST`.
pub proof fn law_expired_request_is_not_confirmed(
    rows: Seq<RequestView>,
    path: Seq<char>,
    method: Seq<char>,
    principal: Seq<char>,
    signature: Seq<char>,
    now: nat,
    self_service_url: Seq<char>,
)
    requires
        has_key(rows, principal),
        now > row_of(rows, principal).expires_at,
    ensures
        rows_after_click(rows, path, method, Some(principal), Some(signature), now) == rows,
        click_outcome(
            rows,
            path,
            method,
            Some(principal),
            Some(signature),
            now,
            self_service_url,
        ) matches Ok(page) ==> page == expired_page(),
{
}

} // verus!
