//! The response the server sends back, and its text on the wire.

use vstd::prelude::*;

verus! {

broadcast use vstd::string::to_string_from_display_ensures_for_str;

/// A response: a status code, a header with a comment, and an optional body.
#[derive(Debug, Clone)]
pub struct ResJsonCmd {
    statuscode: u32,
    header: ResHeader,
    body: Option<ResBody>,
}

impl ResJsonCmd {
    pub closed spec fn spec_statuscode(&self) -> u32 {
        self.statuscode
    }

    pub closed spec fn spec_comment(&self) -> Seq<char> {
        self.header.spec_comment()
    }

    pub closed spec fn spec_body(&self) -> Option<Seq<char>> {
        match self.body {
            Some(b) => Some(b.spec_value()),
            None => None,
        }
    }

    /// The response has exactly the given status code, comment and body.
    pub open spec fn has(&self, code: u32, comment: Seq<char>, body: Option<Seq<char>>) -> bool {
        &&& self.spec_statuscode() == code
        &&& self.spec_comment() == comment
        &&& self.spec_body() == body
    }

    pub fn new(statuscode: u32, header: ResHeader, body: Option<ResBody>) -> (r: Self)
        ensures
            r.has(
                statuscode,
                header.spec_comment(),
                match body {
                    Some(b) => Some(b.spec_value()),
                    None => None,
                },
            ),
    {
        Self { statuscode, header, body }
    }

    /// The wire text of this response.
    pub fn to_json(&self) -> (r: String)
        ensures
            r@ == response_json(self.spec_statuscode(), self.spec_comment(), self.spec_body()),
    {
        let mut text = "{\"statuscode\":".to_string();
        let code = decimal_text(self.statuscode);
        text.append(code.as_str());
        text.append(",\"header\":{\"comment\":");
        let comment = json_string(self.header.comment.as_str());
        text.append(comment.as_str());
        text.append("},\"body\":");
        match &self.body {
            Some(b) => {
                let value = json_string(b.0.as_str());
                text.append(value.as_str());
            },
            None => {
                text.append("null");
            },
        }
        text.append("}");
        text
    }
}

/// The JSON string literal (quoted and escaped) that serde_json writes for `s`.
pub uninterp spec fn json_string_literal(s: Seq<char>) -> Seq<char>;

/// Relies on serde_json's `Display` for `Value::String`: it writes the string
/// as a compact JSON string literal, which depends on the characters alone.
#[verifier::external_body]
fn json_string(s: &str) -> (r: String)
    ensures
        r@ == json_string_literal(s@),
{
    serde_json::Value::String(s.to_string()).to_string()
}

/// The decimal digit character for `d < 10`.
pub open spec fn digit_char(d: nat) -> char {
    seq!['0', '1', '2', '3', '4', '5', '6', '7', '8', '9'][d as int]
}

/// The decimal numeral of `n`, without leading zeros.
pub open spec fn decimal(n: nat) -> Seq<char>
    decreases n,
{
    if n < 10 {
        seq![digit_char(n)]
    } else {
        decimal(n / 10).push(digit_char(n % 10))
    }
}

/// The wire text of a response with the given parts.
pub open spec fn response_json(code: u32, comment: Seq<char>, body: Option<Seq<char>>) -> Seq<char> {
    "{\"statuscode\":"@ + decimal(code as nat) + ",\"header\":{\"comment\":"@
        + json_string_literal(comment) + "},\"body\":"@ + match body {
        Some(b) => json_string_literal(b),
        None => "null"@,
    } + "}"@
}

fn digit_text(d: u32) -> (r: String)
    requires
        d < 10,
    ensures
        r@ == seq![digit_char(d as nat)],
{
    let r = match d {
        0 => "0".to_string(),
        1 => "1".to_string(),
        2 => "2".to_string(),
        3 => "3".to_string(),
        4 => "4".to_string(),
        5 => "5".to_string(),
        6 => "6".to_string(),
        7 => "7".to_string(),
        8 => "8".to_string(),
        _ => "9".to_string(),
    };
    proof {
        reveal_strlit("0");
        reveal_strlit("1");
        reveal_strlit("2");
        reveal_strlit("3");
        reveal_strlit("4");
        reveal_strlit("5");
        reveal_strlit("6");
        reveal_strlit("7");
        reveal_strlit("8");
        reveal_strlit("9");
    }
    assert(r@ =~= seq![digit_char(d as nat)]);
    r
}

fn decimal_text(n: u32) -> (r: String)
    ensures
        r@ == decimal(n as nat),
    decreases n,
{
    if n < 10 {
        digit_text(n)
    } else {
        let mut r = decimal_text(n / 10);
        let d = digit_text(n % 10);
        r.append(d.as_str());
        assert(r@ =~= decimal(n as nat));
        r
    }
}

/// Shorthands for the responses the store sends.
pub trait ResponseCmdUtil {
    type Output;

    fn ok() -> Self::Output;

    fn ok_with_body(body: &str) -> Self::Output;

    fn key_not_found() -> Self::Output;

    fn cmd_not_found() -> Self::Output;
}

impl ResponseCmdUtil for ResJsonCmd {
    type Output = Self;

    /// Success without a value: 204, "Command success", body "OK".
    fn ok() -> (r: Self)
        ensures
            r.has(204, "Command success"@, Some("OK"@)),
    {
        Self {
            statuscode: 204,
            header: ResHeader { comment: "Command success".to_string() },
            body: Some(ResBody::new("OK")),
        }
    }

    /// Success carrying a value: 200, "Get value", the value as body.
    fn ok_with_body(body: &str) -> (r: Self)
        ensures
            r.has(200, "Get value"@, Some(body@)),
    {
        Self {
            statuscode: 200,
            header: ResHeader { comment: "Get value".to_string() },
            body: Some(ResBody::new(body)),
        }
    }

    /// The key is absent: 400, "Key not found", no body.
    fn key_not_found() -> (r: Self)
        ensures
            r.has(400, "Key not found"@, None),
    {
        Self {
            statuscode: 400,
            header: ResHeader { comment: "Key not found".to_string() },
            body: None,
        }
    }

    /// The command is not recognised: 404, "Command not found", no body.
    fn cmd_not_found() -> (r: Self)
        ensures
            r.has(404, "Command not found"@, None),
    {
        Self {
            statuscode: 404,
            header: ResHeader { comment: "Command not found".to_string() },
            body: None,
        }
    }
}

/// The comment of a response.
#[derive(Debug, Clone)]
pub struct ResHeader {
    comment: String,
}

impl ResHeader {
    pub closed spec fn spec_comment(&self) -> Seq<char> {
        self.comment@
    }

    pub fn new(comment: &str) -> (r: Self)
        ensures
            r.spec_comment() == comment@,
    {
        Self { comment: comment.to_string() }
    }
}

/// The value a response carries.
#[derive(Debug, Clone)]
pub struct ResBody(String);

impl ResBody {
    pub closed spec fn spec_value(&self) -> Seq<char> {
        self.0@
    }

    pub fn new(value: &str) -> (r: Self)
        ensures
            r.spec_value() == value@,
    {
        Self(value.to_string())
    }
}

} // verus!
