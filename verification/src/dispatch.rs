//! The command dispatcher: classifies an outgoing command, frames nothing
//! itself, and interprets a framed reply according to the command's shape.

use vstd::prelude::*;
use vstd::string::StrSliceExecFns;
use vstd::string::StringExecFns;
use vstd::utf8::{encode_utf8, encode_utf8_decode_utf8, valid_utf8};
use crate::error::SeismicError;
use crate::text::{
    nth_token, seq_contains, seq_starts_with, spec_tokens, str_contains, str_starts_with,
};

verus! {

/// Whether a command's success payload carries binary-encoded records: it
/// retrieves records and asks for neither a plain-text nor a JSON-only
/// rendering.
pub open spec fn spec_is_binary_get(cmd: Seq<char>) -> bool {
    seq_starts_with(cmd, "GET"@) && !seq_contains(cmd, "AS CSV"@) && !seq_contains(
        cmd,
        "AS JSON"@,
    )
}

/// Decides whether a command's success payload is the binary record
/// encoding. Evaluated before the reply is read; every other command's
/// payload is UTF-8 text.
pub fn is_binary_get(cmd: &str) -> (r: bool)
    ensures
        r == spec_is_binary_get(cmd@),
{
    str_starts_with(cmd, "GET") && !str_contains(cmd, "AS CSV") && !str_contains(cmd, "AS JSON")
}

/// A command that does not begin with `G` never takes the binary-record
/// path.
pub proof fn lemma_not_get(cmd: Seq<char>)
    requires
        cmd.len() == 0 || cmd[0] != 'G',
    ensures
        !spec_is_binary_get(cmd),
{
    reveal_strlit("GET");
    if seq_starts_with(cmd, "GET"@) {
        assert(cmd.subrange(0, 3)[0] == cmd[0]);
    }
}

/// The database name a failure text carries, when the text begins with the
/// server's "no such database" prefix and has a fifth space-separated
/// token; `None` otherwise.
pub open spec fn spec_db_err_name(s: Seq<char>) -> Option<Seq<char>> {
    if seq_starts_with(s, "ERR: No db named"@) && spec_tokens(s).len() > 4 {
        Some(spec_tokens(s)[4])
    } else {
        None
    }
}

/// Extracts the missing database's name from a failure text of the shape
/// `ERR: No db named <X> ...`: the fifth space-separated token.
pub fn parse_db_not_found(text: &str) -> (r: Option<String>)
    ensures
        r is Some <==> spec_db_err_name(text@) is Some,
        r matches Some(name) ==> spec_db_err_name(text@) == Some(name@),
{
    if str_starts_with(text, "ERR: No db named") {
        nth_token(text, 4)
    } else {
        None
    }
}

/// The interpretation of one framed reply, as a value: what a caller is
/// owed for each status byte and payload.
pub enum SpecReply {
    /// Success: the payload text, verbatim.
    Success(Seq<char>),
    /// Failure naming a database the server does not have.
    NotFound(Seq<char>),
    /// Any other failure: the payload text, verbatim.
    Failure(Seq<char>),
    /// The payload is not valid UTF-8.
    Malformed,
}

/// What one reply means. Interpretation is a function of the status flag
/// and the payload bytes alone: this layer keeps no state between replies.
pub open spec fn spec_reply(success: bool, payload: Seq<u8>) -> SpecReply {
    if !valid_utf8(payload) {
        SpecReply::Malformed
    } else {
        let text = vstd::utf8::decode_utf8(payload);
        if success {
            SpecReply::Success(text)
        } else {
            match spec_db_err_name(text) {
                Some(name) => SpecReply::NotFound(name),
                None => SpecReply::Failure(text),
            }
        }
    }
}

/// Whether an executable outcome returns exactly what a reply means.
pub open spec fn reply_matches(r: Result<String, SeismicError>, s: SpecReply) -> bool {
    match s {
        SpecReply::Success(t) => r matches Ok(x) && x@ == t,
        SpecReply::NotFound(n) => r matches Err(SeismicError::DBNotFoundError(x)) && x@ == n,
        SpecReply::Failure(t) => r matches Err(SeismicError::ServerError(x)) && x@ == t,
        SpecReply::Malformed => r == Err::<String, SeismicError>(SeismicError::SerialError),
    }
}

/// Relies on std::str::from_utf8: the bytes read back as text exactly when
/// they are valid UTF-8, and the text re-encodes to the same bytes.
#[verifier::external_body]
fn utf8_from_bytes(v: &[u8]) -> (r: Option<&str>)
    ensures
        r is Some <==> valid_utf8(v@),
        r matches Some(s) ==> encode_utf8(s@) == v@,
{
    match std::str::from_utf8(v) {
        Ok(s) => Some(s),
        Err(_) => None,
    }
}

/// Interprets a text reply: a success reply returns its text unchanged; a
/// failure text of the shape `ERR: No db named <X> ...` becomes a
/// database-not-found error carrying exactly `<X>`; any other failure text
/// becomes a server error carrying the text verbatim.
pub fn interpret_text_reply(success: bool, text: String) -> (r: Result<String, SeismicError>)
    ensures
        success ==> (r matches Ok(t) && t@ == text@),
        (!success && spec_db_err_name(text@) is Some) ==> (r matches Err(
            SeismicError::DBNotFoundError(name),
        ) && Some(name@) == spec_db_err_name(text@)),
        (!success && spec_db_err_name(text@) is None) ==> (r matches Err(
            SeismicError::ServerError(m),
        ) && m@ == text@),
{
    if success {
        Ok(text)
    } else {
        match parse_db_not_found(text.as_str()) {
            Some(name) => Err(SeismicError::DBNotFoundError(name)),
            None => Err(SeismicError::ServerError(text)),
        }
    }
}

/// Interprets one framed reply from its status flag and payload bytes,
/// returning exactly what the reply means: the text on success, a
/// database-not-found or server error on failure, and a decode error when
/// the payload is not valid UTF-8 (the one reply shape this layer cannot
/// read).
pub fn interpret_reply(success: bool, payload: &[u8]) -> (r: Result<String, SeismicError>)
    ensures
        reply_matches(r, spec_reply(success, payload@)),
{
    match utf8_from_bytes(payload) {
        None => Err(SeismicError::SerialError),
        Some(s) => {
            proof {
                encode_utf8_decode_utf8(s@);
            }
            interpret_text_reply(success, s.to_owned())
        },
    }
}

/// Interpreting the same reply twice yields equivalent results: the outcome
/// is a function of the status flag and payload alone, so re-issuing a
/// command such as `USE <db>\n` against the same success reply returns the
/// same text both times, with no state kept in this layer.
pub open spec fn reply_equiv(a: Result<String, SeismicError>, b: Result<String, SeismicError>) -> bool {
    match (a, b) {
        (Ok(x), Ok(y)) => x@ == y@,
        (Err(SeismicError::ServerError(x)), Err(SeismicError::ServerError(y))) => x@ == y@,
        (
            Err(SeismicError::DBNotFoundError(x)),
            Err(SeismicError::DBNotFoundError(y)),
        ) => x@ == y@,
        (Err(SeismicError::ConnectionError), Err(SeismicError::ConnectionError)) => true,
        (Err(SeismicError::SerialError), Err(SeismicError::SerialError)) => true,
        (Err(SeismicError::JsonError), Err(SeismicError::JsonError)) => true,
        _ => false,
    }
}

/// Any two results of interpreting one and the same reply are equivalent:
/// same success text, or the same error carrying the same text.
pub proof fn lemma_reply_idempotent(
    success: bool,
    payload: Seq<u8>,
    r1: Result<String, SeismicError>,
    r2: Result<String, SeismicError>,
)
    requires
        reply_matches(r1, spec_reply(success, payload)),
        reply_matches(r2, spec_reply(success, payload)),
    ensures
        reply_equiv(r1, r2),
{
}

/// Re-renders decoded records as one JSON array line: the decoded text
/// wrapped in brackets, newline-terminated, exactly `[` + records + `]\n`.
pub fn render_records_json(records_json: &str) -> (r: String)
    ensures
        r@ == "["@ + records_json@ + "]\n"@,
{
    let mut s = String::from_str("[");
    s.append(records_json);
    s.append("]\n");
    s
}

/// The `CREATE <name>\n` command line.
pub fn create_db_cmd(book_name: &str) -> (r: String)
    ensures
        r@ == "CREATE "@ + book_name@ + "\n"@,
        !spec_is_binary_get(r@),
{
    let mut s = String::from_str("CREATE ");
    s.append(book_name);
    s.append("\n");
    proof {
        reveal_strlit("CREATE ");
        assert(s@[0] == 'C');
        lemma_not_get(s@);
    }
    s
}

/// The `USE <name>\n` command line.
pub fn use_db_cmd(book_name: &str) -> (r: String)
    ensures
        r@ == "USE "@ + book_name@ + "\n"@,
        !spec_is_binary_get(r@),
{
    let mut s = String::from_str("USE ");
    s.append(book_name);
    s.append("\n");
    proof {
        reveal_strlit("USE ");
        assert(s@[0] == 'U');
        lemma_not_get(s@);
    }
    s
}

/// The `OB <name>\n` command line, requesting an order-book snapshot.
pub fn ob_cmd(book_name: &str) -> (r: String)
    ensures
        r@ == "OB "@ + book_name@ + "\n"@,
        !spec_is_binary_get(r@),
{
    let mut s = String::from_str("OB ");
    s.append(book_name);
    s.append("\n");
    proof {
        reveal_strlit("OB ");
        assert(s@[0] == 'O');
        lemma_not_get(s@);
    }
    s
}

/// The `SUBSCRIBE <name>\n` command line, the handshake that turns the
/// connection into a stream.
pub fn subscribe_cmd(book_name: &str) -> (r: String)
    ensures
        r@ == "SUBSCRIBE "@ + book_name@ + "\n"@,
        !spec_is_binary_get(r@),
{
    let mut s = String::from_str("SUBSCRIBE ");
    s.append(book_name);
    s.append("\n");
    proof {
        reveal_strlit("SUBSCRIBE ");
        assert(s@[0] == 'S');
        lemma_not_get(s@);
    }
    s
}

} // verus!
