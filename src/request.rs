//! The request a client sends: a header naming the command and the key, and
//! an optional body carrying the value.

use vstd::prelude::*;

verus! {

broadcast use vstd::string::to_string_from_display_ensures_for_str;

/// A request as it arrives on the wire.
#[derive(Debug, Clone)]
pub struct ReqJsonCmd {
    header: ReqHeader,
    body: Option<ReqBody>,
}

impl ReqJsonCmd {
    /// The command word of the request.
    pub closed spec fn spec_command(&self) -> Seq<char> {
        self.header.spec_command()
    }

    /// The key the request operates on.
    pub closed spec fn spec_key(&self) -> Seq<char> {
        self.header.spec_key()
    }

    /// The value carried by the request, if any.
    pub closed spec fn spec_body(&self) -> Option<Seq<char>> {
        match self.body {
            Some(b) => Some(b.spec_value()),
            None => None,
        }
    }

    pub fn get_key(&self) -> (r: String)
        ensures
            r@ == self.spec_key(),
    {
        self.header.key.clone()
    }

    pub fn get_body(&self) -> (r: Option<String>)
        ensures
            match r {
                Some(s) => self.spec_body() == Some(s@),
                None => self.spec_body() is None,
            },
    {
        match &self.body {
            Some(b) => Some(b.0.clone()),
            None => None,
        }
    }

    pub fn get_header(&self) -> (r: ReqHeader)
        ensures
            r.spec_command() == self.spec_command(),
            r.spec_key() == self.spec_key(),
    {
        ReqHeader { command: self.header.command.clone(), key: self.header.key.clone() }
    }

    pub fn new(header: ReqHeader, body: Option<ReqBody>) -> (r: Self)
        ensures
            r.spec_command() == header.spec_command(),
            r.spec_key() == header.spec_key(),
            r.spec_body() == (match body {
                Some(b) => Some(b.spec_value()),
                None => None::<Seq<char>>,
            }),
    {
        Self { header, body }
    }
}

/// Names the operation (`SET`, `GET`, `DEL`) and the key it applies to.
#[derive(Debug, Clone)]
pub struct ReqHeader {
    command: String,
    key: String,
}

impl ReqHeader {
    pub closed spec fn spec_command(&self) -> Seq<char> {
        self.command@
    }

    pub closed spec fn spec_key(&self) -> Seq<char> {
        self.key@
    }

    pub fn get_command(&self) -> (r: &str)
        ensures
            r@ == self.spec_command(),
    {
        self.command.as_str()
    }

    pub fn get_key(&self) -> (r: &str)
        ensures
            r@ == self.spec_key(),
    {
        self.key.as_str()
    }

    pub fn new(command: &str, key: &str) -> (r: Self)
        ensures
            r.spec_command() == command@,
            r.spec_key() == key@,
    {
        Self { command: command.to_string(), key: key.to_string() }
    }
}

/// The value of a request; only `SET` carries one.
#[derive(Debug, Clone)]
pub struct ReqBody(String);

impl ReqBody {
    pub closed spec fn spec_value(&self) -> Seq<char> {
        self.0@
    }

    pub fn new(value: &str) -> (r: Self)
        ensures
            r.spec_value() == value@,
    {
        ReqBody(value.to_string())
    }
}

} // verus!
