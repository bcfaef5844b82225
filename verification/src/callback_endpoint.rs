//! A consumer of confirmation callbacks: it acknowledges what it is sent.

use crate::text::str_eq;
use vstd::prelude::*;
use vstd::string::*;

verus! {

/// What stands for the body of a callback that came without one.
pub open spec fn missing_body_text() -> Seq<char> {
    " -- No body found in request -- "@
}

/// The acknowledgement of a callback with the body `body`.
pub open spec fn acknowledgement(body: Seq<char>) -> Seq<char> {
    "{ \"message\":\"Confirmation for '"@ + body + "' received.\""@
}

/// The refusal of a callback that came by `method`.
pub open spec fn invalid_method_message(method: Seq<char>) -> Seq<char> {
    "Invalid method: "@ + method + ". Callback request should use POST."@
}

/// The answer to a callback that came by `method` with the body `body`.
pub open spec fn callback_answer(method: Seq<char>, body: Seq<char>) -> Result<
    Seq<char>,
    Seq<char>,
> {
    if method != "POST"@ {
        Err(invalid_method_message(method))
    } else if body.len() == 0 {
        Ok(acknowledgement(missing_body_text()))
    } else {
        Ok(acknowledgement(body))
    }
}

/// The acknowledgement of a callback with the body `body`.
pub fn respond(body: &str) -> (answer: String)
    ensures
        answer@ == acknowledgement(body@),
{
    let mut answer = String::from_str("{ \"message\":\"Confirmation for '");
    answer.append(body);
    answer.append("' received.\"");
    answer
}

/// Answers one callback. Only `POST` is accepted; a callback without a
/// body is acknowledged as such.
pub fn function_handler(method: &str, body: &str) -> (answer: Result<String, String>)
    ensures
        (match answer {
            Ok(text) => Ok(text@),
            Err(text) => Err(text@),
        }) == callback_answer(method@, body@),
{
    if !str_eq(method, "POST") {
        let mut message = String::from_str("Invalid method: ");
        message.append(method);
        message.append(". Callback request should use POST.");
        return Err(message);
    }
    if !body.is_empty() {
        Ok(respond(body))
    } else {
        Ok(respond(" -- No body found in request -- "))
    }
}

} // verus!
