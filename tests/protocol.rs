use stainlessdb::cmd::{db_cmd_producer, DbCmd};
use stainlessdb::connection::{
    gen_cmd_not_found_res, gen_db_error_res, gen_encode_fail_res, on_bytes, on_decoded, on_reply,
    on_text, Action,
};
use stainlessdb::database::{Database, StringType};
use stainlessdb::request::{ReqBody, ReqHeader, ReqJsonCmd};
use stainlessdb::response::{ResHeader, ResJsonCmd, ResponseCmdUtil};
use tokio::sync::oneshot;

fn request(command: &str, key: &str, body: Option<&str>) -> ReqJsonCmd {
    ReqJsonCmd::new(ReqHeader::new(command, key), body.map(ReqBody::new))
}

// Reads a request from its wire text, as a connection does.
fn decode(text: &str) -> Option<ReqJsonCmd> {
    let value: serde_json::Value = serde_json::from_str(text).ok()?;
    let header = value.get("header")?;
    let command = header.get("command")?.as_str()?;
    let key = header.get("key")?.as_str()?;
    let body = match value.get("body") {
        None | Some(serde_json::Value::Null) => None,
        Some(b) => Some(b.as_str()?),
    };
    Some(request(command, key, body))
}

// Runs one message through the connection steps and the store, and returns
// the text written back.
fn round_trip(db: &mut Database, bytes: &[u8]) -> String {
    let req = match on_bytes(bytes) {
        Action::Decode(text) => match on_decoded(decode(&text)) {
            Action::Submit(req) => req,
            Action::Respond { text, .. } => return text,
            _ => panic!("unexpected action"),
        },
        Action::Respond { text, .. } => return text,
        _ => panic!("unexpected action"),
    };
    let (tx, mut rx) = oneshot::channel();
    db.handle(db_cmd_producer(req, tx));
    match on_reply(rx.try_recv().ok()) {
        Action::Respond { text, close } => {
            assert!(!close);
            text
        }
        _ => panic!("unexpected action"),
    }
}

fn kind(cmd: &DbCmd) -> &'static str {
    match cmd {
        DbCmd::SetValue { .. } => "set",
        DbCmd::Get { .. } => "get",
        DbCmd::Del { .. } => "del",
        DbCmd::NotFound { .. } => "notfound",
    }
}

fn classify(command: &str, body: Option<&str>) -> &'static str {
    let (tx, _rx) = oneshot::channel();
    kind(&db_cmd_producer(request(command, "k", body), tx))
}

#[test]
fn test_gen_encode_fail_res() {
    let generated_txt = gen_encode_fail_res();

    let verify_res_cmd = ResJsonCmd::new(400, ResHeader::new("failed to encode text"), None);
    let verify_res_txt = verify_res_cmd.to_json();
    assert_eq!(verify_res_txt, generated_txt);
}

#[test]
fn fixed_responses_have_their_wire_text() {
    assert_eq!(
        gen_encode_fail_res(),
        r#"{"statuscode":400,"header":{"comment":"failed to encode text"},"body":null}"#
    );
    assert_eq!(
        gen_cmd_not_found_res(),
        r#"{"statuscode":404,"header":{"comment":"Command not found"},"body":null}"#
    );
    assert_eq!(
        gen_db_error_res(),
        r#"{"statuscode":500,"header":{"comment":"failed to access database server"},"body":null}"#
    );
}

#[test]
fn response_text_escapes_strings() {
    let res = ResJsonCmd::ok_with_body("a\"b\\c\nd");
    assert_eq!(
        res.to_json(),
        r#"{"statuscode":200,"header":{"comment":"Get value"},"body":"a\"b\\c\nd"}"#
    );
    let res = ResJsonCmd::new(0, ResHeader::new(""), None);
    assert_eq!(res.to_json(), r#"{"statuscode":0,"header":{"comment":""},"body":null}"#);
    let res = ResJsonCmd::new(4294967295, ResHeader::new("x"), None);
    assert_eq!(res.to_json(), r#"{"statuscode":4294967295,"header":{"comment":"x"},"body":null}"#);
}

#[test]
fn response_shorthands() {
    assert_eq!(
        ResJsonCmd::ok().to_json(),
        r#"{"statuscode":204,"header":{"comment":"Command success"},"body":"OK"}"#
    );
    assert_eq!(
        ResJsonCmd::key_not_found().to_json(),
        r#"{"statuscode":400,"header":{"comment":"Key not found"},"body":null}"#
    );
    assert_eq!(
        ResJsonCmd::cmd_not_found().to_json(),
        r#"{"statuscode":404,"header":{"comment":"Command not found"},"body":null}"#
    );
}

#[test]
fn classification_table() {
    assert_eq!(classify("SET", Some("v")), "set");
    assert_eq!(classify("SET", None), "notfound");
    assert_eq!(classify("GET", None), "get");
    assert_eq!(classify("GET", Some("v")), "notfound");
    assert_eq!(classify("DEL", None), "del");
    assert_eq!(classify("DEL", Some("v")), "notfound");
    assert_eq!(classify("PUT", None), "notfound");
    assert_eq!(classify("PUT", Some("v")), "notfound");
    assert_eq!(classify("set", Some("v")), "notfound");
    assert_eq!(classify("GET", None), classify("GET", None));
}

#[test]
fn request_accessors() {
    let req = request("SET", "hello", Some("world"));
    assert_eq!(req.get_key(), "hello");
    assert_eq!(req.get_body(), Some("world".to_string()));
    assert_eq!(req.get_header().get_command(), "SET");
    assert_eq!(req.get_header().get_key(), "hello");
    assert_eq!(request("GET", "", None).get_body(), None);
}

#[test]
fn set_then_get_end_to_end() {
    let mut db = Database::new();
    let set = br#"{"header":{"command":"SET","key":"hello"},"body":"world"}"#;
    assert_eq!(
        round_trip(&mut db, set),
        r#"{"statuscode":204,"header":{"comment":"Command success"},"body":"OK"}"#
    );
    let get = br#"{"header":{"command":"GET","key":"hello"},"body":null}"#;
    assert_eq!(
        round_trip(&mut db, get),
        r#"{"statuscode":200,"header":{"comment":"Get value"},"body":"world"}"#
    );
}

#[test]
fn get_missing_key_end_to_end() {
    let mut db = Database::new();
    let get = br#"{"header":{"command":"GET","key":"missing"},"body":null}"#;
    assert_eq!(
        round_trip(&mut db, get),
        r#"{"statuscode":400,"header":{"comment":"Key not found"},"body":null}"#
    );
}

#[test]
fn non_text_bytes_keep_connection_open() {
    let mut db = Database::new();
    match on_bytes(&[0xff, 0xfe, 0x00]) {
        Action::Respond { text, close } => {
            assert!(!close);
            assert!(text.contains("\"statuscode\":400"));
            assert!(text.contains("failed to encode text"));
        }
        _ => panic!("expected a response"),
    }
    let set = br#"{"header":{"command":"SET","key":"a"},"body":"b"}"#;
    assert_eq!(
        round_trip(&mut db, set),
        r#"{"statuscode":204,"header":{"comment":"Command success"},"body":"OK"}"#
    );
}

#[test]
fn connection_steps() {
    assert!(matches!(on_bytes(&[]), Action::Close));
    match on_bytes("héllo".as_bytes()) {
        Action::Decode(text) => assert_eq!(text, "héllo"),
        _ => panic!("expected text"),
    }
    assert!(matches!(on_text(Some("x".to_string())), Action::Decode(_)));
    match on_decoded(None) {
        Action::Respond { text, close } => {
            assert!(!close);
            assert_eq!(text, gen_cmd_not_found_res());
        }
        _ => panic!("expected a response"),
    }
    match on_reply(None) {
        Action::Respond { text, close } => {
            assert!(close);
            assert_eq!(text, gen_db_error_res());
        }
        _ => panic!("expected a response"),
    }
}

#[test]
fn bad_request_shape_is_command_not_found() {
    let mut db = Database::new();
    assert_eq!(round_trip(&mut db, b"not json"), gen_cmd_not_found_res());
    let set_without_body = br#"{"header":{"command":"SET","key":"a"},"body":null}"#;
    assert_eq!(round_trip(&mut db, set_without_body), gen_cmd_not_found_res());
    assert_eq!(db.get("a"), None);
}

#[test]
fn delete_end_to_end() {
    let mut db = Database::new();
    db.set("k", "v");
    let del = br#"{"header":{"command":"DEL","key":"k"},"body":null}"#;
    assert_eq!(
        round_trip(&mut db, del),
        r#"{"statuscode":204,"header":{"comment":"Command success"},"body":"OK"}"#
    );
    assert_eq!(db.get("k"), None);
}

#[test]
fn last_set_on_same_key_wins() {
    let mut db = Database::new();
    let (tx1, _rx1) = oneshot::channel();
    let (tx2, _rx2) = oneshot::channel();
    let first = db_cmd_producer(request("SET", "k", Some("one")), tx1);
    let second = db_cmd_producer(request("SET", "k", Some("two")), tx2);
    db.handle(first);
    db.handle(second);
    assert_eq!(db.get("k"), Some("two".to_string()));
}

#[test]
fn dropped_requester_does_not_stop_store() {
    let mut db = Database::new();
    let (tx, rx) = oneshot::channel();
    drop(rx);
    db.handle(db_cmd_producer(request("SET", "k", Some("v")), tx));
    assert_eq!(db.get("k"), Some("v".to_string()));
}
