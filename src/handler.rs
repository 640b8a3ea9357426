//! Answering one request against an in-memory directory.

use vstd::prelude::*;
use crate::message::{Verb, Status, Request, Response};
use crate::ops::{Files, planned, perform, reply, plan, respond};
use crate::store::MemStore;

verus! {

/// The files after a request and the status and body of its response.
pub open spec fn serve(files: Files, verb: Verb, target: Seq<char>, body: Seq<u8>) -> (
    Files,
    (Status, Seq<u8>),
) {
    let op = planned(verb, target, body);
    let (after, outcome) = perform(files, op);
    (after, reply(op, outcome))
}

/// Answers one request: plans its file operation, carries it out on `store`
/// and turns the outcome into the response.
pub fn handle(store: &mut MemStore, req: Request) -> (r: Response)
    requires
        old(store).wf(),
    ensures
        final(store).wf(),
        (final(store)@, (r.status, r.body@)) == serve(old(store)@, req.verb, req.target@, req.body@),
{
    let op = plan(req);
    let outcome = store.execute(&op);
    respond(&op, outcome)
}

} // verus!
