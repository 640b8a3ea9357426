//! The greeting responder: a fixed answer that looks at no file.

use vstd::prelude::*;
use vstd::string::{StringSliceAdditionalSpecFns, StrSliceExecFns};
use crate::message::{Verb, Status, Request, Response, same_text};

verus! {

/// Whether a request asks for the greeting: `GET /`.
pub open spec fn asks_greeting(verb: Verb, target: Seq<char>) -> bool {
    verb == Verb::Get && target == "/"@
}

/// Answers `GET /` with `hello` and every other request with `NotFound`.
pub fn response(req: &Request) -> (r: Response)
    ensures
        asks_greeting(req.verb, req.target@) ==> r.status == Status::Success && r.body@
            == "hello".spec_bytes(),
        !asks_greeting(req.verb, req.target@) ==> r.status == Status::NotFound && r.body@
            == Seq::<u8>::empty(),
{
    if req.verb == Verb::Get && same_text(req.target.as_str(), "/") {
        Response { status: Status::Success, body: "hello".as_bytes_vec() }
    } else {
        Response { status: Status::NotFound, body: Vec::new() }
    }
}

} // verus!
