//! Requests and responses as plain values.

use vstd::prelude::*;

verus! {

/// The operation a request asks for.
#[derive(Clone, Copy, Debug, PartialEq, Eq, Structural)]
pub enum Verb {
    Get,
    Put,
    Post,
    Delete,
    Other,
}

/// The verb that a method name stands for; names are case-sensitive.
pub open spec fn verb_of(name: Seq<char>) -> Verb {
    if name == "GET"@ {
        Verb::Get
    } else if name == "PUT"@ {
        Verb::Put
    } else if name == "POST"@ {
        Verb::Post
    } else if name == "DELETE"@ {
        Verb::Delete
    } else {
        Verb::Other
    }
}

/// Whether two strings hold the same characters.
pub fn same_text(a: &str, b: &str) -> (r: bool)
    ensures
        r == (a@ == b@),
{
    let n = a.unicode_len();
    if n != b.unicode_len() {
        return false;
    }
    let mut i: usize = 0;
    while i < n
        invariant
            n == a@.len(),
            n == b@.len(),
            i <= n,
            a@.subrange(0, i as int) == b@.subrange(0, i as int),
        decreases n - i,
    {
        if a.get_char(i) != b.get_char(i) {
            assert(a@[i as int] != b@[i as int]);
            return false;
        }
        assert(a@.subrange(0, i + 1) == a@.subrange(0, i as int).push(a@[i as int]));
        assert(b@.subrange(0, i + 1) == b@.subrange(0, i as int).push(b@[i as int]));
        i = i + 1;
    }
    assert(a@ == a@.subrange(0, n as int));
    assert(b@ == b@.subrange(0, n as int));
    true
}

impl Verb {
    /// Reads a method name such as `GET`; any name but the four known ones is `Other`.
    pub fn from_method(name: &str) -> (r: Verb)
        ensures
            r == verb_of(name@),
    {
        if same_text(name, "GET") {
            Verb::Get
        } else if same_text(name, "PUT") {
            Verb::Put
        } else if same_text(name, "POST") {
            Verb::Post
        } else if same_text(name, "DELETE") {
            Verb::Delete
        } else {
            Verb::Other
        }
    }
}

/// The status of a response.
#[derive(Clone, Copy, Debug, PartialEq, Eq, Structural)]
pub enum Status {
    Success,
    Accepted,
    NotFound,
    NotImplemented,
    InternalError,
}

impl Status {
    /// The numeric HTTP status code.
    pub fn code(&self) -> (r: u16)
        ensures
            r == match *self {
                Status::Success => 200u16,
                Status::Accepted => 202u16,
                Status::NotFound => 404u16,
                Status::NotImplemented => 501u16,
                Status::InternalError => 500u16,
            },
    {
        match *self {
            Status::Success => 200,
            Status::Accepted => 202,
            Status::NotFound => 404,
            Status::NotImplemented => 501,
            Status::InternalError => 500,
        }
    }
}

/// One request: its verb, its target as written (`/data`) and its body.
#[derive(Debug)]
pub struct Request {
    pub verb: Verb,
    pub target: String,
    pub body: Vec<u8>,
}

/// One response: a status and a body.
#[derive(Debug)]
pub struct Response {
    pub status: Status,
    pub body: Vec<u8>,
}

impl Request {
    /// A request from a method name, a target and a body.
    pub fn new(method: &str, target: &str, body: Vec<u8>) -> (r: Request)
        ensures
            r.verb == verb_of(method@),
            r.target@ == target@,
            r.body@ == body@,
    {
        Request { verb: Verb::from_method(method), target: target.to_owned(), body }
    }
}

/// The file-system path a target names: the target without its leading `/`.
pub open spec fn path_of(target: Seq<char>) -> Seq<char> {
    if target.len() > 0 && target[0] == '/' {
        target.skip(1)
    } else {
        target
    }
}

/// The file-system path of a target, relative to the working directory.
///
/// The path is taken as it stands: it is not sanitized, so `..` segments can
/// name files outside the working directory.
pub fn file_path(target: &str) -> (r: String)
    ensures
        r@ == path_of(target@),
{
    let n = target.unicode_len();
    if n > 0 && target.get_char(0) == '/' {
        target.substring_char(1, n).to_owned()
    } else {
        target.to_owned()
    }
}

} // verus!
