//! Login: what a refused or failed login is reported as.
use vstd::prelude::*;
use vstd::string::*;
use crate::schemas::{session_token, Root};

verus! {

/// Why a login failed: a message, and the server's reply where there was one.
#[derive(Clone, Debug, Default)]
pub struct LoginError {
    pub message: String,
    pub ret_body: String,
}

/// What came back from the login request: no answer (the text of the
/// transport error), or an answer with its body and the body read as a
/// login reply (or the text of the decoding error).
pub enum LoginReply {
    Unreachable(String),
    Answered { body: String, root: Result<Root, String> },
}

/// What `serde_json::to_string` writes for a string: the string as a JSON
/// string literal.
pub uninterp spec fn json_string(s: Seq<char>) -> Seq<char>;

/// The JSON string literal of `s` (`serde_json::to_string` on a `str`, which
/// cannot fail for a string).
#[verifier::external_body]
pub(crate) fn to_json_string(s: &str) -> (r: String)
    ensures
        r@ == json_string(s@),
{
    serde_json::to_string(s).unwrap_or_default()
}

/// The JSON object of a login error, as its serialisation writes it: the
/// fields in order, in camel case, without spaces.
pub open spec fn login_error_json_spec(message: Seq<char>, ret_body: Seq<char>) -> Seq<char> {
    "{\"message\":"@ + json_string(message) + ",\"retBody\":"@ + json_string(ret_body) + "}"@
}

/// Serialises a login error as a JSON object.
pub fn login_error_json(e: &LoginError) -> (r: String)
    ensures
        r@ == login_error_json_spec(e.message@, e.ret_body@),
{
    let mut r = String::from_str("{\"message\":");
    let m = to_json_string(e.message.as_str());
    r.append(m.as_str());
    r.append(",\"retBody\":");
    let b = to_json_string(e.ret_body.as_str());
    r.append(b.as_str());
    r.append("}");
    r
}

/// The login error that carries the same text as message and as reply.
pub fn login_error(text: &String) -> (r: LoginError)
    ensures
        r.message@ == text@,
        r.ret_body@ == text@,
{
    LoginError { message: text.clone(), ret_body: text.clone() }
}

/// The session token of a login, or why it failed: with no answer the
/// transport error is both message and reply; with an answer that does not
/// decode, the decoding error is the message and the answer is the reply.
pub fn login_outcome(reply: &LoginReply) -> (r: Result<String, LoginError>)
    ensures
        match reply {
            LoginReply::Unreachable(e) => r matches Err(le) && le.message@ == e@ && le.ret_body@ == e@,
            LoginReply::Answered { body, root } => match root {
                Ok(root) => r matches Ok(t) && t@ == root.response_body.jsessionid.field@,
                Err(e) => r matches Err(le) && le.message@ == e@ && le.ret_body@ == body@,
            },
        },
{
    match reply {
        LoginReply::Unreachable(e) => Err(login_error(e)),
        LoginReply::Answered { body, root } => match root {
            Ok(root) => Ok(session_token(root)),
            Err(e) => Err(LoginError { message: e.clone(), ret_body: body.clone() }),
        },
    }
}

/// The text of a login error is a JSON object whose `message` value is the
/// JSON string literal of the message and whose `retBody` value, the last
/// one, is the JSON string literal of the reply: both are escaped as JSON
/// strings, never pasted raw.
pub proof fn lemma_login_error_json_fields(message: Seq<char>, ret_body: Seq<char>)
    ensures
        ({
            let t = login_error_json_spec(message, ret_body);
            let head = "{\"message\":"@ + json_string(message);
            let tail = json_string(ret_body) + "}"@;
            &&& t.len() == head.len() + ",\"retBody\":"@.len() + tail.len()
            &&& t.take(head.len() as int) == head
            &&& t.skip(t.len() - tail.len()) == tail
            &&& t.subrange(head.len() as int, t.len() - tail.len()) == ",\"retBody\":"@
        }),
{
    let t = login_error_json_spec(message, ret_body);
    let head = "{\"message\":"@ + json_string(message);
    let mid = ",\"retBody\":"@;
    let tail = json_string(ret_body) + "}"@;
    assert(t =~= head + mid + tail);
    assert(t.take(head.len() as int) =~= head);
    assert(t.skip(t.len() - tail.len()) =~= tail);
    assert(t.subrange(head.len() as int, t.len() - tail.len()) =~= mid);
}

} // verus!
