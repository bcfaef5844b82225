//! Messages exchanged with the signature authority.

use crate::email_confirmation_request::EmailConfirmationRequest;
use vstd::prelude::*;

verus! {

/// What a signature request asks for.
#[derive(Debug, PartialEq, Eq, Clone, Copy, Structural)]
pub enum SignatureRequestType {
    SignatureCreationRequest,
    SignatureVerificationRequest,
}

/// Outcome of a signature verification.
#[derive(Debug, PartialEq, Eq, Clone, Copy, Structural)]
pub enum SignatureVerificationResult {
    Success,
    Fail,
}

/// The fields of a request that a signature covers.
#[derive(Debug, PartialEq, Eq)]
pub struct SignatureCreationData {
    pub email: String,
    pub client_id: String,
    pub request_id: String,
    pub updated_at: u64,
    pub signature_key: String,
}

/// The signed fields together with the signature to check against them.
#[derive(Debug, PartialEq, Eq)]
pub struct SignatureVerificationData {
    pub email: String,
    pub client_id: String,
    pub request_id: String,
    pub updated_at: u64,
    pub signature_key: String,
    pub signature_value: String,
}

/// The data that comes with a signature request.
#[derive(Debug, PartialEq, Eq)]
pub enum SignatureRequestPayload {
    SignatureCreationRequest(SignatureCreationData),
    SignatureVerificationRequest(SignatureVerificationData),
}

/// A request to the signature authority.
#[derive(Debug, PartialEq, Eq)]
pub struct SignatureRequest {
    pub signature_request_type: SignatureRequestType,
    pub signature_request_payload: SignatureRequestPayload,
}

/// The authority's answer.
#[derive(Debug, PartialEq, Eq)]
pub enum SignatureResponse {
    Signature(String),
    VerificationResult(SignatureVerificationResult),
}

/// Mathematical content of the fields that a signature covers.
pub struct SignedFields {
    pub email: Seq<char>,
    pub client_id: Seq<char>,
    pub request_id: Seq<char>,
    pub updated_at: nat,
    pub signature_key: Seq<char>,
}

/// Mathematical content of a [`SignatureVerificationData`].
pub struct SignatureVerificationView {
    pub fields: SignedFields,
    pub signature_value: Seq<char>,
}

/// Mathematical content of a [`SignatureRequestPayload`].
pub enum SignatureRequestPayloadView {
    SignatureCreationRequest(SignedFields),
    SignatureVerificationRequest(SignatureVerificationView),
}

/// Mathematical content of a [`SignatureRequest`].
pub struct SignatureRequestView {
    pub signature_request_type: SignatureRequestType,
    pub signature_request_payload: SignatureRequestPayloadView,
}

/// Mathematical content of a [`SignatureResponse`].
pub enum SignatureResponseView {
    Signature(Seq<char>),
    VerificationResult(SignatureVerificationResult),
}

impl View for SignatureCreationData {
    type V = SignedFields;

    open spec fn view(&self) -> SignedFields {
        SignedFields {
            email: self.email@,
            client_id: self.client_id@,
            request_id: self.request_id@,
            updated_at: self.updated_at as nat,
            signature_key: self.signature_key@,
        }
    }
}

impl View for SignatureVerificationData {
    type V = SignatureVerificationView;

    open spec fn view(&self) -> SignatureVerificationView {
        SignatureVerificationView {
            fields: SignedFields {
                email: self.email@,
                client_id: self.client_id@,
                request_id: self.request_id@,
                updated_at: self.updated_at as nat,
                signature_key: self.signature_key@,
            },
            signature_value: self.signature_value@,
        }
    }
}

impl View for SignatureRequestPayload {
    type V = SignatureRequestPayloadView;

    open spec fn view(&self) -> SignatureRequestPayloadView {
        match self {
            SignatureRequestPayload::SignatureCreationRequest(data) => {
                SignatureRequestPayloadView::SignatureCreationRequest(data@)
            },
            SignatureRequestPayload::SignatureVerificationRequest(data) => {
                SignatureRequestPayloadView::SignatureVerificationRequest(data@)
            },
        }
    }
}

impl View for SignatureRequest {
    type V = SignatureRequestView;

    open spec fn view(&self) -> SignatureRequestView {
        SignatureRequestView {
            signature_request_type: self.signature_request_type,
            signature_request_payload: self.signature_request_payload@,
        }
    }
}

impl View for SignatureResponse {
    type V = SignatureResponseView;

    open spec fn view(&self) -> SignatureResponseView {
        match self {
            SignatureResponse::Signature(signature) => SignatureResponseView::Signature(
                signature@,
            ),
            SignatureResponse::VerificationResult(result) => {
                SignatureResponseView::VerificationResult(*result)
            },
        }
    }
}

impl Clone for SignatureCreationData {
    fn clone(&self) -> (r: Self)
        ensures
            r == *self,
    {
        SignatureCreationData {
            email: self.email.clone(),
            client_id: self.client_id.clone(),
            request_id: self.request_id.clone(),
            updated_at: self.updated_at,
            signature_key: self.signature_key.clone(),
        }
    }
}

impl Clone for SignatureVerificationData {
    fn clone(&self) -> (r: Self)
        ensures
            r == *self,
    {
        SignatureVerificationData {
            email: self.email.clone(),
            client_id: self.client_id.clone(),
            request_id: self.request_id.clone(),
            updated_at: self.updated_at,
            signature_key: self.signature_key.clone(),
            signature_value: self.signature_value.clone(),
        }
    }
}

impl Clone for SignatureRequestPayload {
    fn clone(&self) -> (r: Self)
        ensures
            r == *self,
    {
        match self {
            SignatureRequestPayload::SignatureCreationRequest(data) => {
                SignatureRequestPayload::SignatureCreationRequest(data.clone())
            },
            SignatureRequestPayload::SignatureVerificationRequest(data) => {
                SignatureRequestPayload::SignatureVerificationRequest(data.clone())
            },
        }
    }
}

impl Clone for SignatureRequest {
    fn clone(&self) -> (r: Self)
        ensures
            r == *self,
    {
        SignatureRequest {
            signature_request_type: self.signature_request_type,
            signature_request_payload: self.signature_request_payload.clone(),
        }
    }
}

impl Clone for SignatureResponse {
    fn clone(&self) -> (r: Self)
        ensures
            r == *self,
    {
        match self {
            SignatureResponse::Signature(signature) => SignatureResponse::Signature(
                signature.clone(),
            ),
            SignatureResponse::VerificationResult(result) => SignatureResponse::VerificationResult(
                *result,
            ),
        }
    }
}

impl From<SignatureVerificationData> for SignatureCreationData {
    fn from(signature_verification_data: SignatureVerificationData) -> (r: Self) {
        SignatureCreationData {
            email: signature_verification_data.email,
            client_id: signature_verification_data.client_id,
            request_id: signature_verification_data.request_id,
            updated_at: signature_verification_data.updated_at,
            signature_key: signature_verification_data.signature_key,
        }
    }
}

impl vstd::std_specs::convert::FromSpecImpl<SignatureVerificationData> for SignatureCreationData {
    open spec fn obeys_from_spec() -> bool {
        true
    }

    open spec fn from_spec(signature_verification_data: SignatureVerificationData) -> Self {
        SignatureCreationData {
            email: signature_verification_data.email,
            client_id: signature_verification_data.client_id,
            request_id: signature_verification_data.request_id,
            updated_at: signature_verification_data.updated_at,
            signature_key: signature_verification_data.signature_key,
        }
    }
}

/// The fields of `request` that a signature covers.
pub open spec fn signed_fields_of(
    request: crate::email_confirmation_request::RequestView,
) -> SignedFields {
    SignedFields {
        email: request.email,
        client_id: request.client_id,
        request_id: request.request_id,
        updated_at: request.updated_at,
        signature_key: request.signature_key,
    }
}

impl SignatureRequest {
    /// The request that asks whether `signature` is the signature of
    /// `email_confirmation_request` in its present state.
    pub fn signature_verification_request(
        email_confirmation_request: &EmailConfirmationRequest,
        signature: String,
    ) -> (r: Self)
        ensures
            r@ == (SignatureRequestView {
                signature_request_type: SignatureRequestType::SignatureVerificationRequest,
                signature_request_payload:
                    SignatureRequestPayloadView::SignatureVerificationRequest(
                    SignatureVerificationView {
                        fields: signed_fields_of(email_confirmation_request@),
                        signature_value: signature@,
                    },
                ),
            }),
    {
        SignatureRequest {
            signature_request_type: SignatureRequestType::SignatureVerificationRequest,
            signature_request_payload: SignatureRequestPayload::SignatureVerificationRequest(
                SignatureVerificationData {
                    signature_value: signature,
                    email: email_confirmation_request.email.clone(),
                    client_id: email_confirmation_request.client_id.clone(),
                    request_id: email_confirmation_request.request_id.clone(),
                    updated_at: email_confirmation_request.updated_at,
                    signature_key: email_confirmation_request.signature_key.clone(),
                },
            ),
        }
    }

    /// The request that asks for the signature of
    /// `email_confirmation_request` in its present state.
    pub fn signature_creation_request(
        email_confirmation_request: EmailConfirmationRequest,
    ) -> (r: Self)
        ensures
            r@ == (SignatureRequestView {
                signature_request_type: SignatureRequestType::SignatureCreationRequest,
                signature_request_payload: SignatureRequestPayloadView::SignatureCreationRequest(
                    signed_fields_of(email_confirmation_request@),
                ),
            }),
    {
        SignatureRequest {
            signature_request_type: SignatureRequestType::SignatureCreationRequest,
            signature_request_payload: SignatureRequestPayload::SignatureCreationRequest(
                SignatureCreationData {
                    email: email_confirmation_request.email,
                    client_id: email_confirmation_request.client_id,
                    request_id: email_confirmation_request.request_id,
                    updated_at: email_confirmation_request.updated_at,
                    signature_key: email_confirmation_request.signature_key,
                },
            ),
        }
    }
}

} // verus!
