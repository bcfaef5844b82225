//! The signature authority: it computes and checks the capability token of a
//! request. The token is the SHA-256 digest, in lower-case hexadecimal, of
//! the request's identity, its signature key and the time of its last
//! change, written between `|` delimiters.

use crate::signature_request::{
    SignatureCreationData, SignatureRequest, SignatureRequestPayload, SignatureRequestPayloadView,
    SignatureRequestType, SignatureRequestView, SignatureResponse, SignatureResponseView,
    SignatureVerificationData, SignatureVerificationResult, SignatureVerificationView,
    SignedFields,
};
use crate::text::{
    constant_time_eq, decimal_digits, digit_char, lemma_decimal_digits_injective,
    lemma_split_at_delimiter, push_decimal,
};
use vstd::prelude::*;
use vstd::string::*;
use vstd::utf8::*;

verus! {

/// Separator of the fields in the text that is signed.
pub const FIELD_DELIMITER: char = '|';

/// The SHA-256 digest of `data`.
pub uninterp spec fn sha256(data: Seq<u8>) -> Seq<u8>;

/// The lower-case hexadecimal digit of `n` (`0 <= n <= 15`).
pub open spec fn hex_digit(n: nat) -> char {
    if n < 10 {
        digit_char(n)
    } else if n == 10 {
        'a'
    } else if n == 11 {
        'b'
    } else if n == 12 {
        'c'
    } else if n == 13 {
        'd'
    } else if n == 14 {
        'e'
    } else {
        'f'
    }
}

/// `data` in lower-case hexadecimal: two digits per byte, the high half
/// first.
pub open spec fn hex_lower(data: Seq<u8>) -> Seq<char> {
    Seq::new(
        2 * data.len(),
        |i: int|
            if i % 2 == 0 {
                hex_digit((data[i / 2] / 16) as nat)
            } else {
                hex_digit((data[i / 2] % 16) as nat)
            },
    )
}

/// The text that is signed for `fields`.
pub open spec fn signing_input(fields: SignedFields) -> Seq<char> {
    seq![FIELD_DELIMITER] + fields.email + seq![FIELD_DELIMITER] + fields.client_id
        + seq![FIELD_DELIMITER] + fields.request_id + seq![FIELD_DELIMITER] + fields.signature_key
        + seq![FIELD_DELIMITER] + decimal_digits(fields.updated_at) + seq![FIELD_DELIMITER]
}

/// The bytes that are hashed for `fields`: the signed text in UTF-8.
pub open spec fn signing_bytes(fields: SignedFields) -> Seq<u8> {
    encode_utf8(signing_input(fields))
}

/// The signature of `fields`.
pub open spec fn signature_of(fields: SignedFields) -> Seq<char> {
    hex_lower(sha256(signing_bytes(fields)))
}

/// `signature` is the signature of `fields`.
pub open spec fn verifies(signature: Seq<char>, fields: SignedFields) -> bool {
    signature == signature_of(fields)
}

/// The answer that the authority owes to `request`; `None` where the kind of
/// the request and its payload disagree.
pub open spec fn answer_to(request: SignatureRequestView) -> Option<SignatureResponseView> {
    match (request.signature_request_type, request.signature_request_payload) {
        (
            SignatureRequestType::SignatureCreationRequest,
            SignatureRequestPayloadView::SignatureCreationRequest(fields),
        ) => Some(SignatureResponseView::Signature(signature_of(fields))),
        (
            SignatureRequestType::SignatureVerificationRequest,
            SignatureRequestPayloadView::SignatureVerificationRequest(data),
        ) => Some(
            SignatureResponseView::VerificationResult(
                if verifies(data.signature_value, data.fields) {
                    SignatureVerificationResult::Success
                } else {
                    SignatureVerificationResult::Fail
                },
            ),
        ),
        _ => None,
    }
}

/// None of the four text fields holds the field delimiter.
pub open spec fn delimiter_free(fields: SignedFields) -> bool {
    &&& !fields.email.contains(FIELD_DELIMITER)
    &&& !fields.client_id.contains(FIELD_DELIMITER)
    &&& !fields.request_id.contains(FIELD_DELIMITER)
    &&& !fields.signature_key.contains(FIELD_DELIMITER)
}

/// Two different byte strings with the same SHA-256 digest.
pub open spec fn sha256_collision(first: Seq<u8>, second: Seq<u8>) -> bool {
    first != second && sha256(first) == sha256(second)
}

/// Computes the SHA-256 digest of `data` with `sha2::Sha256`, through
/// `Digest::digest`. The digest is a function of the bytes alone; it is
/// named, not restated. Its length, 32 bytes, is the output size of the
/// hasher's type.
#[verifier::external_body]
fn sha256_digest(data: &[u8]) -> (digest: Vec<u8>)
    ensures
        digest@ == sha256(data@),
        digest@.len() == 32,
{
    <sha2::Sha256 as sha2::Digest>::digest(data).to_vec()
}

/// Renders `data` with `hex::encode`: each byte becomes two lower-case
/// hexadecimal digits, the high four bits first.
#[verifier::external_body]
fn hex_encode(data: &Vec<u8>) -> (text: String)
    ensures
        text@ == hex_lower(data@),
{
    hex::encode(data)
}

/// The text that is signed for `data`.
pub fn signing_message(data: &SignatureCreationData) -> (message: String)
    ensures
        message@ == signing_input(data@),
{
    proof {
        reveal_strlit("|");
    }
    assert("|"@ =~= seq![FIELD_DELIMITER]);
    let mut message = String::from_str("|");
    message.append(data.email.as_str());
    message.append("|");
    message.append(data.client_id.as_str());
    message.append("|");
    message.append(data.request_id.as_str());
    message.append("|");
    message.append(data.signature_key.as_str());
    message.append("|");
    push_decimal(&mut message, data.updated_at);
    message.append("|");
    message
}

/// The signature of a digest that was computed over the signed text.
pub fn signature_from_digest(digest: &Vec<u8>) -> (signature: String)
    ensures
        signature@ == hex_lower(digest@),
{
    hex_encode(digest)
}

/// Signs `signature_creation_data`.
pub fn create_signature(signature_creation_data: SignatureCreationData) -> (signature: String)
    ensures
        signature@ == signature_of(signature_creation_data@),
        signature@.len() == 64,
{
    let data = signing_message(&signature_creation_data);
    let digest = sha256_digest(data.as_str().as_bytes());
    signature_from_digest(&digest)
}

/// Checks the signature in `signature_verification_data` against the fields
/// that come with it.
pub fn verify_signature(
    signature_verification_data: SignatureVerificationData,
) -> (result: SignatureVerificationResult)
    ensures
        result == SignatureVerificationResult::Success <==> verifies(
            signature_verification_data@.signature_value,
            signature_verification_data@.fields,
        ),
{
    let signature = signature_verification_data.signature_value.clone();
    let creation_data = SignatureCreationData::from(signature_verification_data);
    let expected = create_signature(creation_data);
    if constant_time_eq(expected.as_str(), signature.as_str()) {
        SignatureVerificationResult::Success
    } else {
        SignatureVerificationResult::Fail
    }
}

/// Serves one request to the authority. A request whose kind and payload
/// disagree is refused.
pub fn function_handler(request: SignatureRequest) -> (response: Result<SignatureResponse, String>)
    ensures
        match response {
            Ok(answer) => answer_to(request@) == Some(answer@),
            Err(message) => answer_to(request@) is None && message@ == "Invalid request"@,
        },
{
    match (request.signature_request_type, request.signature_request_payload) {
        (
            SignatureRequestType::SignatureCreationRequest,
            SignatureRequestPayload::SignatureCreationRequest(payload),
        ) => Ok(SignatureResponse::Signature(create_signature(payload))),
        (
            SignatureRequestType::SignatureVerificationRequest,
            SignatureRequestPayload::SignatureVerificationRequest(payload),
        ) => Ok(SignatureResponse::VerificationResult(verify_signature(payload))),
        _ => Err(String::from_str("Invalid request")),
    }
}

/// The signed text, bracketed so that each field stands in front of its
/// closing delimiter.
proof fn lemma_signing_input_nested(fields: SignedFields)
    ensures
        signing_input(fields) == seq![FIELD_DELIMITER] + (fields.email + seq![FIELD_DELIMITER] + (
        fields.client_id + seq![FIELD_DELIMITER] + (fields.request_id + seq![FIELD_DELIMITER] + (
        fields.signature_key + seq![FIELD_DELIMITER] + (decimal_digits(fields.updated_at)
            + seq![FIELD_DELIMITER]))))),
{
    let d = seq![FIELD_DELIMITER];
    let tail4 = decimal_digits(fields.updated_at) + d;
    let tail3 = fields.signature_key + d + tail4;
    let tail2 = fields.request_id + d + tail3;
    let tail1 = fields.client_id + d + tail2;
    let tail0 = fields.email + d + tail1;
    assert(signing_input(fields) =~= d + tail0);
}

/// The hexadecimal digits of two different half-bytes differ.
proof fn lemma_hex_digit_injective(m: nat, n: nat)
    requires
        m < 16,
        n < 16,
        hex_digit(m) == hex_digit(n),
    ensures
        m == n,
{
}

/// Byte strings with the same hexadecimal rendering are equal.
pub proof fn lemma_hex_lower_injective(a: Seq<u8>, b: Seq<u8>)
    requires
        hex_lower(a) == hex_lower(b),
    ensures
        a == b,
{
    assert(hex_lower(a).len() == 2 * a.len());
    assert(hex_lower(b).len() == 2 * b.len());
    assert(a.len() == b.len());
    assert forall|j: int| 0 <= j < a.len() implies a[j] == b[j] by {
        let high_a = hex_lower(a)[2 * j];
        let high_b = hex_lower(b)[2 * j];
        let low_a = hex_lower(a)[2 * j + 1];
        let low_b = hex_lower(b)[2 * j + 1];
        assert((2 * j) % 2 == 0 && (2 * j) / 2 == j);
        assert((2 * j + 1) % 2 == 1 && (2 * j + 1) / 2 == j);
        assert(high_a == hex_digit((a[j] / 16) as nat));
        assert(high_b == hex_digit((b[j] / 16) as nat));
        assert(low_a == hex_digit((a[j] % 16) as nat));
        assert(low_b == hex_digit((b[j] % 16) as nat));
        lemma_hex_digit_injective((a[j] / 16) as nat, (b[j] / 16) as nat);
        lemma_hex_digit_injective((a[j] % 16) as nat, (b[j] % 16) as nat);
    }
    assert(a =~= b);
}

/// A signature verifies against the fields it was made for: what the
/// authority answers to a creation request, it accepts in a verification
/// request for the same fields.
pub proof fn law_own_signature_verifies(fields: SignedFields)
    ensures
        verifies(signature_of(fields), fields),
        answer_to(
            SignatureRequestView {
                signature_request_type: SignatureRequestType::SignatureCreationRequest,
                signature_request_payload: SignatureRequestPayloadView::SignatureCreationRequest(
                    fields,
                ),
            },
        ) == Some(SignatureResponseView::Signature(signature_of(fields))),
        answer_to(
            SignatureRequestView {
                signature_request_type: SignatureRequestType::SignatureVerificationRequest,
                signature_request_payload:
                    SignatureRequestPayloadView::SignatureVerificationRequest(
                    SignatureVerificationView {
                        fields,
                        signature_value: signature_of(fields),
                    },
                ),
            },
        ) == Some(
            SignatureResponseView::VerificationResult(SignatureVerificationResult::Success),
        ),
{
}

/// Delimiter-free fields can be read back from the signed text: two sets
/// of such fields with the same signed text are the same fields.
pub proof fn law_signing_input_injective(a: SignedFields, b: SignedFields)
    requires
        delimiter_free(a),
        delimiter_free(b),
        signing_input(a) == signing_input(b),
    ensures
        a == b,
{
    let d = seq![FIELD_DELIMITER];
    lemma_signing_input_nested(a);
    lemma_signing_input_nested(b);
    let a4 = decimal_digits(a.updated_at) + d;
    let a3 = a.signature_key + d + a4;
    let a2 = a.request_id + d + a3;
    let a1 = a.client_id + d + a2;
    let a0 = a.email + d + a1;
    let b4 = decimal_digits(b.updated_at) + d;
    let b3 = b.signature_key + d + b4;
    let b2 = b.request_id + d + b3;
    let b1 = b.client_id + d + b2;
    let b0 = b.email + d + b1;
    assert(a0 =~= (d + a0).skip(1));
    assert(b0 =~= (d + b0).skip(1));
    lemma_split_at_delimiter(FIELD_DELIMITER, a.email, a1, b.email, b1);
    lemma_split_at_delimiter(FIELD_DELIMITER, a.client_id, a2, b.client_id, b2);
    lemma_split_at_delimiter(FIELD_DELIMITER, a.request_id, a3, b.request_id, b3);
    lemma_split_at_delimiter(FIELD_DELIMITER, a.signature_key, a4, b.signature_key, b4);
    assert(decimal_digits(a.updated_at) =~= a4.drop_last());
    assert(decimal_digits(b.updated_at) =~= b4.drop_last());
    lemma_decimal_digits_injective(a.updated_at, b.updated_at);
}

/// The signed texts of fields that differ in the time of the last change
/// alone are different, whatever the other fields hold.
pub proof fn law_signing_input_tells_times_apart(fields: SignedFields, other_time: nat)
    requires
        other_time != fields.updated_at,
    ensures
        signing_input(fields) != signing_input(SignedFields { updated_at: other_time, ..fields }),
{
    let other = SignedFields { updated_at: other_time, ..fields };
    let d = seq![FIELD_DELIMITER];
    let prefix = d + fields.email + d + fields.client_id + d + fields.request_id + d
        + fields.signature_key + d;
    let x = decimal_digits(fields.updated_at) + d;
    let y = decimal_digits(other_time) + d;
    assert(signing_input(fields) =~= prefix + x);
    assert(signing_input(other) =~= prefix + y);
    if signing_input(fields) == signing_input(other) {
        assert(x =~= (prefix + x).skip(prefix.len() as int));
        assert(y =~= (prefix + y).skip(prefix.len() as int));
        assert(decimal_digits(fields.updated_at) =~= x.drop_last());
        assert(decimal_digits(other_time) =~= y.drop_last());
        lemma_decimal_digits_injective(fields.updated_at, other_time);
    }
}

/// Where the signature of `a` verifies against `b` although the signed
/// texts differ, the two texts are a SHA-256 collision.
pub proof fn law_foreign_signature_is_collision(a: SignedFields, b: SignedFields)
    requires
        signing_input(a) != signing_input(b),
    ensures
        verifies(signature_of(a), b) ==> sha256_collision(signing_bytes(a), signing_bytes(b)),
{
    if verifies(signature_of(a), b) {
        lemma_hex_lower_injective(sha256(signing_bytes(a)), sha256(signing_bytes(b)));
        encode_utf8_decode_utf8(signing_input(a));
        encode_utf8_decode_utf8(signing_input(b));
    }
}

/// Changing any field of delimiter-free fields makes verification fail,
/// short of a SHA-256 collision: a signature made for `a` that verifies
/// against different fields `b` exhibits one.
pub proof fn law_changed_field_fails_verification(a: SignedFields, b: SignedFields)
    requires
        delimiter_free(a),
        delimiter_free(b),
        a != b,
    ensures
        verifies(signature_of(a), b) ==> sha256_collision(signing_bytes(a), signing_bytes(b)),
{
    if signing_input(a) == signing_input(b) {
        law_signing_input_injective(a, b);
    }
    law_foreign_signature_is_collision(a, b);
}

/// A signature made before the time of the last change moved no longer
/// verifies, short of a SHA-256 collision.
pub proof fn law_stale_signature_fails_verification(fields: SignedFields, later: nat)
    requires
        later != fields.updated_at,
    ensures
        verifies(signature_of(fields), SignedFields { updated_at: later, ..fields })
            ==> sha256_collision(
            signing_bytes(fields),
            signing_bytes(SignedFields { updated_at: later, ..fields }),
        ),
{
    law_signing_input_tells_times_apart(fields, later);
    law_foreign_signature_is_collision(fields, SignedFields { updated_at: later, ..fields });
}

} // verus!
