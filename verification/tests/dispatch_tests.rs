use sdb_client::dispatch::{
    create_db_cmd, interpret_reply, interpret_text_reply, is_binary_get, ob_cmd,
    parse_db_not_found, render_records_json, subscribe_cmd, use_db_cmd,
};
use sdb_client::error::SeismicError;
use sdb_client::frame::{encode_response, parse_response, FrameParse};
use sdb_client::text::nth_token;

#[test]
fn classifies_record_retrieval() {
    assert!(is_binary_get("GET ALL IN MEM\n"));
    assert!(is_binary_get("GET 100\n"));
    assert!(!is_binary_get("GET ALL AS CSV\n"));
    assert!(!is_binary_get("GET ALL AS JSON\n"));
    assert!(!is_binary_get("CREATE bench\n"));
    assert!(!is_binary_get("USE bench\n"));
    assert!(!is_binary_get("COUNT ALL IN MEM\n"));
    assert!(!is_binary_get(""));
}

#[test]
fn command_builders_emit_exact_lines() {
    assert_eq!(create_db_cmd("bench"), "CREATE bench\n");
    assert_eq!(use_db_cmd("bench"), "USE bench\n");
    assert_eq!(ob_cmd("btc"), "OB btc\n");
    assert_eq!(subscribe_cmd("btc"), "SUBSCRIBE btc\n");
}

#[test]
fn extracts_missing_database_name() {
    assert_eq!(
        parse_db_not_found("ERR: No db named missing at line 1"),
        Some("missing".to_owned())
    );
    assert_eq!(
        parse_db_not_found("ERR: No db named bench"),
        Some("bench".to_owned())
    );
    assert_eq!(parse_db_not_found("ERR: something else"), None);
    assert_eq!(parse_db_not_found("OK"), None);
    // The prefix alone has only four space-separated tokens: no name to carry.
    assert_eq!(parse_db_not_found("ERR: No db named"), None);
}

#[test]
fn nth_token_splits_on_single_spaces() {
    assert_eq!(nth_token("a b c", 0), Some("a".to_owned()));
    assert_eq!(nth_token("a b c", 2), Some("c".to_owned()));
    assert_eq!(nth_token("a b c", 3), None);
    // Consecutive spaces yield empty tokens, as splitting on one space does.
    assert_eq!(nth_token("a  b", 1), Some("".to_owned()));
    assert_eq!(nth_token("", 0), Some("".to_owned()));
}

#[test]
fn success_reply_text_is_returned_verbatim() {
    assert_eq!(
        interpret_text_reply(true, " 10000 \n".to_owned()),
        Ok(" 10000 \n".to_owned())
    );
    let reply = interpret_reply(true, b"hello");
    assert_eq!(reply, Ok("hello".to_owned()));
}

#[test]
fn failure_reply_classification() {
    assert_eq!(
        interpret_text_reply(false, "ERR: No db named missing at line 1".to_owned()),
        Err(SeismicError::DBNotFoundError("missing".to_owned()))
    );
    assert_eq!(
        interpret_text_reply(false, "ERR: out of memory".to_owned()),
        Err(SeismicError::ServerError("ERR: out of memory".to_owned()))
    );
}

#[test]
fn invalid_utf8_payload_is_a_decode_error() {
    assert_eq!(
        interpret_reply(true, &[0xff, 0xfe]),
        Err(SeismicError::SerialError)
    );
    assert_eq!(
        interpret_reply(false, &[0xff, 0xfe]),
        Err(SeismicError::SerialError)
    );
}

#[test]
fn create_reply_ok() {
    // A peer answering `CREATE bench\n` with status 0x01 and the two bytes
    // "OK" yields exactly "OK".
    let frame = encode_response(true, b"OK");
    match parse_response(&frame) {
        FrameParse::Frame {
            success, payload, ..
        } => {
            assert_eq!(interpret_reply(success, &payload), Ok("OK".to_owned()));
        }
        FrameParse::Incomplete => panic!("whole frame not recognised"),
    }
}

#[test]
fn missing_db_reply_carries_name() {
    // A peer answering `OB missing\n` with status 0x00 and the text
    // `ERR: No db named missing at line 1` yields a database-not-found
    // error carrying exactly "missing".
    let text = b"ERR: No db named missing at line 1";
    let frame = encode_response(false, text);
    match parse_response(&frame) {
        FrameParse::Frame {
            success, payload, ..
        } => {
            assert_eq!(
                interpret_reply(success, &payload),
                Err(SeismicError::DBNotFoundError("missing".to_owned()))
            );
        }
        FrameParse::Incomplete => panic!("whole frame not recognised"),
    }
}

#[test]
fn records_render_as_bracketed_json_line() {
    assert_eq!(render_records_json(""), "[]\n");
    assert_eq!(
        render_records_json("{\"ts\":1},{\"ts\":2}"),
        "[{\"ts\":1},{\"ts\":2}]\n"
    );
}

#[test]
fn error_descriptions() {
    assert_eq!(
        SeismicError::ServerError("ERR: full".to_owned()).description(),
        "ERR: full"
    );
    assert_eq!(
        SeismicError::DBNotFoundError("bench".to_owned()).description(),
        "bench"
    );
    assert_eq!(
        SeismicError::ConnectionError.description(),
        "Error connecting to seismicdb"
    );
    assert_eq!(
        SeismicError::SerialError.description(),
        "Error serializing/deserializing"
    );
    assert_eq!(
        SeismicError::JsonError.description(),
        "Error serializing/deserializing json"
    );
}

#[test]
fn error_display_strings() {
    assert_eq!(
        SeismicError::ServerError("ERR: full".to_owned()).display_string(),
        "SeismicError: ERR: full"
    );
    assert_eq!(
        SeismicError::DBNotFoundError("bench".to_owned()).display_string(),
        "DBNotFoundError: bench"
    );
    assert_eq!(
        SeismicError::ConnectionError.display_string(),
        "ConnectionError"
    );
    assert_eq!(SeismicError::SerialError.display_string(), "SerialError");
    assert_eq!(SeismicError::JsonError.display_string(), "JsonError");
}
