//! What a caller of the request API needs: the addresses of its endpoints,
//! and what to make of its answers.

use crate::email_confirmation_request::EmailConfirmationServiceApiResponse;
use crate::links::{percent_encode, percent_encoded};
use vstd::prelude::*;
use vstd::string::*;

verus! {

/// The address of the status of the request `pk` in the request API at
/// `service_url`.
pub open spec fn status_address(service_url: Seq<char>, pk: Seq<char>) -> Seq<char> {
    service_url + "/email-confirmation-requests/"@ + percent_encoded(pk) + "/status"@
}

/// The address of the request `pk` in the request API at `service_url`,
/// for the holder of `signature`.
pub open spec fn request_address(service_url: Seq<char>, pk: Seq<char>, signature: Seq<char>)
    -> Seq<char> {
    service_url + "/email-confirmation-requests/"@ + percent_encoded(pk) + "?signature="@
        + signature
}

/// The address of the status of the request `pk` in the request API at
/// `service_url`.
pub fn status_url(service_url: &str, pk: &str) -> (url: String)
    ensures
        url@ == status_address(service_url@, pk@),
{
    let encoded = percent_encode(pk);
    let mut url = String::from_str(service_url);
    url.append("/email-confirmation-requests/");
    url.append(encoded.as_str());
    url.append("/status");
    url
}

/// The address of the request `pk` in the request API at `service_url`,
/// for the holder of `signature`.
pub fn request_url(service_url: &str, pk: &str, signature: &str) -> (url: String)
    ensures
        url@ == request_address(service_url@, pk@, signature@),
{
    let encoded = percent_encode(pk);
    let mut url = String::from_str(service_url);
    url.append("/email-confirmation-requests/");
    url.append(encoded.as_str());
    url.append("?signature=");
    url.append(signature);
    url
}

/// Whether the request API carried out the status change that it was
/// asked for.
pub fn status_change_outcome(response: &EmailConfirmationServiceApiResponse) -> (outcome: Result<
    (),
    String,
>)
    ensures
        match outcome {
            Ok(_) => !response.error,
            Err(message) => response.error && message@ == "Email confirmation service error"@,
        },
{
    if response.error {
        Err(String::from_str("Email confirmation service error"))
    } else {
        Ok(())
    }
}

} // verus!
