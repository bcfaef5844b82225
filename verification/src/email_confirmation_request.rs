//! The confirmation request, its status, and the projections of it that leave
//! the service.

use crate::handler_params::QueryParams;
use crate::text::contains_char;
use vstd::prelude::*;
use vstd::string::*;

verus! {

/// Seconds between the creation of a request and its expiry.
pub const EMAIL_REQUEST_EXPIRATION_PERIOD: u64 = 3600;

/// Separator of the three components of a request key.
pub const KEY_DELIMITER: char = '#';

/// Where a request stands in its lifecycle.
#[derive(Debug, PartialEq, Eq, Clone, Copy, Structural)]
pub enum Status {
    Queued,
    Pending,
    Confirmed,
    Expired,
    Done,
}

impl Status {
    /// The name of the status as it is stored and exchanged.
    pub open spec fn name(self) -> Seq<char> {
        match self {
            Status::Queued => "Queued"@,
            Status::Pending => "Pending"@,
            Status::Confirmed => "Confirmed"@,
            Status::Expired => "Expired"@,
            Status::Done => "Done"@,
        }
    }

    /// Position of the status on the path `Queued`, `Pending`, `Confirmed`,
    /// `Done`; `Expired` is terminal and ranks last.
    pub open spec fn rank(self) -> nat {
        match self {
            Status::Queued => 0,
            Status::Pending => 1,
            Status::Confirmed => 2,
            Status::Done => 3,
            Status::Expired => 4,
        }
    }

    /// The name of the status as an owned string.
    pub fn to_string(&self) -> (s: String)
        ensures
            s@ == self.name(),
    {
        match self {
            Status::Queued => String::from_str("Queued"),
            Status::Pending => String::from_str("Pending"),
            Status::Confirmed => String::from_str("Confirmed"),
            Status::Expired => String::from_str("Expired"),
            Status::Done => String::from_str("Done"),
        }
    }
}

/// The key of the request identified by the three components.
pub open spec fn spec_pk(email: Seq<char>, client_id: Seq<char>, request_id: Seq<char>) -> Seq<
    char,
> {
    email + seq![KEY_DELIMITER] + client_id + seq![KEY_DELIMITER] + request_id
}

/// What a caller supplies to have a request created.
#[derive(Debug, PartialEq, Eq)]
pub struct EmailConfirmationMinimalRequest {
    pub email: String,
    pub client_id: String,
    pub request_id: String,
    pub callback_url: String,
}

/// The stored record of a confirmation request.
#[derive(Debug, PartialEq, Eq)]
pub struct EmailConfirmationRequest {
    pub pk: String,
    pub email: String,
    pub client_id: String,
    pub request_id: String,
    pub callback_url: String,
    pub signature_key: String,
    pub created_at: u64,
    pub expires_at: u64,
    pub updated_at: u64,
    pub status: Status,
}

/// The record without its signature key: the only form handed to callers.
#[derive(Debug, PartialEq, Eq)]
pub struct SanitizedEmailConfirmationRequest {
    pub pk: String,
    pub email: String,
    pub client_id: String,
    pub request_id: String,
    pub callback_url: String,
    pub created_at: u64,
    pub expires_at: u64,
    pub updated_at: u64,
    pub status: Status,
}

/// What the request API answers to a signed read or transition.
#[derive(Debug, PartialEq, Eq)]
pub struct EmailConfirmationServiceApiResponse {
    pub error: bool,
    pub request: SanitizedEmailConfirmationRequest,
}

/// Mathematical content of an [`EmailConfirmationMinimalRequest`].
pub struct MinimalRequestView {
    pub email: Seq<char>,
    pub client_id: Seq<char>,
    pub request_id: Seq<char>,
    pub callback_url: Seq<char>,
}

/// Mathematical content of an [`EmailConfirmationRequest`].
pub struct RequestView {
    pub pk: Seq<char>,
    pub email: Seq<char>,
    pub client_id: Seq<char>,
    pub request_id: Seq<char>,
    pub callback_url: Seq<char>,
    pub signature_key: Seq<char>,
    pub created_at: nat,
    pub expires_at: nat,
    pub updated_at: nat,
    pub status: Status,
}

/// Mathematical content of a [`SanitizedEmailConfirmationRequest`].
pub struct SanitizedView {
    pub pk: Seq<char>,
    pub email: Seq<char>,
    pub client_id: Seq<char>,
    pub request_id: Seq<char>,
    pub callback_url: Seq<char>,
    pub created_at: nat,
    pub expires_at: nat,
    pub updated_at: nat,
    pub status: Status,
}

impl RequestView {
    /// The projection that omits the signature key.
    pub open spec fn sanitized(self) -> SanitizedView {
        SanitizedView {
            pk: self.pk,
            email: self.email,
            client_id: self.client_id,
            request_id: self.request_id,
            callback_url: self.callback_url,
            created_at: self.created_at,
            expires_at: self.expires_at,
            updated_at: self.updated_at,
            status: self.status,
        }
    }

    /// The record after a status change at time `now`: status and
    /// `updated_at` are replaced, everything else is kept.
    pub open spec fn with_status(self, status: Status, now: nat) -> RequestView {
        RequestView { status, updated_at: now, ..self }
    }

    /// The key is derived from the identity, and the expiry from the creation
    /// time.
    pub open spec fn wf(self) -> bool {
        &&& self.pk == spec_pk(self.email, self.client_id, self.request_id)
        &&& self.expires_at == self.created_at + EMAIL_REQUEST_EXPIRATION_PERIOD
    }

    /// The record as it is created at time `now` from a caller's request and
    /// a signature key.
    pub open spec fn created(minimal: MinimalRequestView, signature_key: Seq<char>, now: nat)
        -> RequestView {
        RequestView {
            pk: spec_pk(minimal.email, minimal.client_id, minimal.request_id),
            email: minimal.email,
            client_id: minimal.client_id,
            request_id: minimal.request_id,
            callback_url: minimal.callback_url,
            signature_key,
            created_at: now,
            expires_at: now + EMAIL_REQUEST_EXPIRATION_PERIOD as nat,
            updated_at: now,
            status: Status::Queued,
        }
    }
}

impl MinimalRequestView {
    /// None of the three components of the identity holds the key
    /// delimiter.
    pub open spec fn valid_identity(self) -> bool {
        &&& !self.email.contains(KEY_DELIMITER)
        &&& !self.client_id.contains(KEY_DELIMITER)
        &&& !self.request_id.contains(KEY_DELIMITER)
    }
}

impl View for EmailConfirmationMinimalRequest {
    type V = MinimalRequestView;

    open spec fn view(&self) -> MinimalRequestView {
        MinimalRequestView {
            email: self.email@,
            client_id: self.client_id@,
            request_id: self.request_id@,
            callback_url: self.callback_url@,
        }
    }
}

impl View for EmailConfirmationRequest {
    type V = RequestView;

    open spec fn view(&self) -> RequestView {
        RequestView {
            pk: self.pk@,
            email: self.email@,
            client_id: self.client_id@,
            request_id: self.request_id@,
            callback_url: self.callback_url@,
            signature_key: self.signature_key@,
            created_at: self.created_at as nat,
            expires_at: self.expires_at as nat,
            updated_at: self.updated_at as nat,
            status: self.status,
        }
    }
}

impl View for SanitizedEmailConfirmationRequest {
    type V = SanitizedView;

    open spec fn view(&self) -> SanitizedView {
        SanitizedView {
            pk: self.pk@,
            email: self.email@,
            client_id: self.client_id@,
            request_id: self.request_id@,
            callback_url: self.callback_url@,
            created_at: self.created_at as nat,
            expires_at: self.expires_at as nat,
            updated_at: self.updated_at as nat,
            status: self.status,
        }
    }
}

impl Clone for EmailConfirmationMinimalRequest {
    fn clone(&self) -> (r: Self)
        ensures
            r == *self,
    {
        EmailConfirmationMinimalRequest {
            email: self.email.clone(),
            client_id: self.client_id.clone(),
            request_id: self.request_id.clone(),
            callback_url: self.callback_url.clone(),
        }
    }
}

impl Clone for EmailConfirmationRequest {
    fn clone(&self) -> (r: Self)
        ensures
            r == *self,
    {
        EmailConfirmationRequest {
            pk: self.pk.clone(),
            email: self.email.clone(),
            client_id: self.client_id.clone(),
            request_id: self.request_id.clone(),
            callback_url: self.callback_url.clone(),
            signature_key: self.signature_key.clone(),
            created_at: self.created_at,
            expires_at: self.expires_at,
            updated_at: self.updated_at,
            status: self.status,
        }
    }
}

impl Clone for SanitizedEmailConfirmationRequest {
    fn clone(&self) -> (r: Self)
        ensures
            r == *self,
    {
        SanitizedEmailConfirmationRequest {
            pk: self.pk.clone(),
            email: self.email.clone(),
            client_id: self.client_id.clone(),
            request_id: self.request_id.clone(),
            callback_url: self.callback_url.clone(),
            created_at: self.created_at,
            expires_at: self.expires_at,
            updated_at: self.updated_at,
            status: self.status,
        }
    }
}

impl Clone for EmailConfirmationServiceApiResponse {
    fn clone(&self) -> (r: Self)
        ensures
            r == *self,
    {
        EmailConfirmationServiceApiResponse { error: self.error, request: self.request.clone() }
    }
}

impl From<EmailConfirmationRequest> for SanitizedEmailConfirmationRequest {
    fn from(record: EmailConfirmationRequest) -> (r: Self) {
        SanitizedEmailConfirmationRequest {
            pk: record.pk,
            email: record.email,
            client_id: record.client_id,
            request_id: record.request_id,
            callback_url: record.callback_url,
            created_at: record.created_at,
            expires_at: record.expires_at,
            updated_at: record.updated_at,
            status: record.status,
        }
    }
}

impl vstd::std_specs::convert::FromSpecImpl<EmailConfirmationRequest> for SanitizedEmailConfirmationRequest {
    open spec fn obeys_from_spec() -> bool {
        true
    }

    open spec fn from_spec(record: EmailConfirmationRequest) -> Self {
        SanitizedEmailConfirmationRequest {
            pk: record.pk,
            email: record.email,
            client_id: record.client_id,
            request_id: record.request_id,
            callback_url: record.callback_url,
            created_at: record.created_at,
            expires_at: record.expires_at,
            updated_at: record.updated_at,
            status: record.status,
        }
    }
}

/// `c` is one of `'0'` to `'9'` or `'a'` to `'f'`.
pub open spec fn is_lower_hex_digit(c: char) -> bool {
    ('0' <= c && c <= '9') || ('a' <= c && c <= 'f')
}

/// `s` has the hyphenated form of a UUID in lower case: 36 characters, a
/// hyphen at positions 8, 13, 18 and 23, a hexadecimal digit everywhere else.
pub open spec fn is_hyphenated_uuid(s: Seq<char>) -> bool {
    &&& s.len() == 36
    &&& forall|i: int|
        0 <= i < 36 ==> if i == 8 || i == 13 || i == 18 || i == 23 {
            #[trigger] s[i] == '-'
        } else {
            is_lower_hex_digit(s[i])
        }
}

/// The UUID `s` says of itself that it is random: its version digit is 4
/// and its variant digit is one of 8, 9, a and b.
pub open spec fn is_random_uuid(s: Seq<char>) -> bool {
    &&& is_hyphenated_uuid(s)
    &&& s[14] == '4'
    &&& (s[19] == '8' || s[19] == '9' || s[19] == 'a' || s[19] == 'b')
}

/// Draws a fresh signature key from `uuid::Uuid::new_v4` and renders it with
/// the type's `Display`. The value is random, so only its form is stated: the
/// crate formats a UUID hyphenated and in lower case, and `new_v4` sets the
/// version to 4 and the two highest bits of the variant to 1 and 0. The draw
/// fails only where the operating system cannot supply random bytes.
#[verifier::external_body]
fn fresh_signature_key() -> (key: String)
    ensures
        is_random_uuid(key@),
{
    uuid::Uuid::new_v4().to_string()
}

impl EmailConfirmationMinimalRequest {
    /// Whether the identity keeps clear of the key delimiter, so that its
    /// key names no other identity.
    pub fn has_valid_identity(&self) -> (valid: bool)
        ensures
            valid == self@.valid_identity(),
    {
        !contains_char(self.email.as_str(), KEY_DELIMITER) && !contains_char(
            self.client_id.as_str(),
            KEY_DELIMITER,
        ) && !contains_char(self.request_id.as_str(), KEY_DELIMITER)
    }
}

impl EmailConfirmationRequest {
    /// Creates the record of a new request at time `now`, with a freshly
    /// drawn signature key.
    pub fn new(
        email: String,
        client_id: String,
        request_id: String,
        callback_url: String,
        now: u64,
    ) -> (r: Self)
        requires
            now + EMAIL_REQUEST_EXPIRATION_PERIOD <= u64::MAX,
        ensures
            r@ == RequestView::created(
                MinimalRequestView {
                    email: email@,
                    client_id: client_id@,
                    request_id: request_id@,
                    callback_url: callback_url@,
                },
                r@.signature_key,
                now as nat,
            ),
            is_random_uuid(r@.signature_key),
            r@.wf(),
    {
        let signature_key = fresh_signature_key();
        Self::with_signature_key(email, client_id, request_id, callback_url, signature_key, now)
    }

    /// Creates the record of a new request at time `now` with the given
    /// signature key.
    pub fn with_signature_key(
        email: String,
        client_id: String,
        request_id: String,
        callback_url: String,
        signature_key: String,
        now: u64,
    ) -> (r: Self)
        requires
            now + EMAIL_REQUEST_EXPIRATION_PERIOD <= u64::MAX,
        ensures
            r@ == RequestView::created(
                MinimalRequestView {
                    email: email@,
                    client_id: client_id@,
                    request_id: request_id@,
                    callback_url: callback_url@,
                },
                signature_key@,
                now as nat,
            ),
            r@.wf(),
    {
        let pk = Self::pk_from_params(email.as_str(), client_id.as_str(), request_id.as_str());
        EmailConfirmationRequest {
            pk,
            email,
            client_id,
            request_id,
            callback_url,
            signature_key,
            created_at: now,
            expires_at: now + EMAIL_REQUEST_EXPIRATION_PERIOD,
            updated_at: now,
            status: Status::Queued,
        }
    }

    /// Creates the record of the request that `minimal_request` asks for.
    pub fn from_minimal(minimal_request: EmailConfirmationMinimalRequest, now: u64) -> (r: Self)
        requires
            now + EMAIL_REQUEST_EXPIRATION_PERIOD <= u64::MAX,
        ensures
            r@ == RequestView::created(minimal_request@, r@.signature_key, now as nat),
            is_random_uuid(r@.signature_key),
            r@.wf(),
    {
        Self::new(
            minimal_request.email,
            minimal_request.client_id,
            minimal_request.request_id,
            minimal_request.callback_url,
            now,
        )
    }

    /// The key named by a full identity filter; an error where a component
    /// is missing.
    pub fn pk_from_query_params(params: &QueryParams) -> (r: Result<String, String>)
        ensures
            match r {
                Ok(pk) => {
                    &&& params.email matches Some(email)
                    &&& params.client_id matches Some(client_id)
                    &&& params.request_id matches Some(request_id)
                    &&& pk@ == spec_pk(email@, client_id@, request_id@)
                },
                Err(message) => {
                    &&& params.email is None || params.client_id is None
                        || params.request_id is None
                    &&& message@ == "Invalid parameters"@
                },
            },
    {
        match (&params.email, &params.client_id, &params.request_id) {
            (Some(email_param), Some(client_id_param), Some(request_id_param)) => Ok(
                Self::pk_from_params(
                    email_param.as_str(),
                    client_id_param.as_str(),
                    request_id_param.as_str(),
                ),
            ),
            _ => Err(String::from_str("Invalid parameters")),
        }
    }

    /// The key of the request identified by the three components.
    pub fn pk_from_params(email: &str, client_id: &str, request_id: &str) -> (pk: String)
        ensures
            pk@ == spec_pk(email@, client_id@, request_id@),
    {
        proof {
            reveal_strlit("#");
        }
        let mut pk = String::from_str(email);
        pk.append("#");
        pk.append(client_id);
        pk.append("#");
        pk.append(request_id);
        assert("#"@ =~= seq![KEY_DELIMITER]);
        pk
    }

    /// The projection of the record that may leave the service.
    pub fn sanitize(&self) -> (r: SanitizedEmailConfirmationRequest)
        ensures
            r@ == self@.sanitized(),
    {
        SanitizedEmailConfirmationRequest::from(self.clone())
    }
}

} // verus!
