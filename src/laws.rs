//! What holds of every request sequence, stated over the model of the files.

use vstd::prelude::*;
use crate::message::{Verb, Status, path_of};
use crate::ops::{Files, unsupported_body};
use crate::handler::serve;

verus! {

/// Creating a file with `body` and then reading it gives back exactly `body`;
/// the create is accepted with an empty body, and the read changes nothing.
pub proof fn law_create_then_read(files: Files, target: Seq<char>, body: Seq<u8>, get_body: Seq<u8>)
    ensures
        ({
            let (created, post_reply) = serve(files, Verb::Post, target, body);
            let (read, get_reply) = serve(created, Verb::Get, target, get_body);
            &&& post_reply == (Status::Accepted, Seq::<u8>::empty())
            &&& get_reply == (Status::Accepted, body)
            &&& read == created
        }),
{
}

/// Deleting a path that names no file is accepted and leaves the files as they were.
pub proof fn law_delete_missing(files: Files, target: Seq<char>, body: Seq<u8>)
    requires
        !files.contains_key(path_of(target)),
    ensures
        serve(files, Verb::Delete, target, body) == (files, (Status::Accepted, Seq::<u8>::empty())),
{
    assert(files.remove(path_of(target)) =~= files);
}

/// Overwriting an existing file with a body no longer than its content
/// replaces the first bytes and keeps the rest; no other file changes.
pub proof fn law_overwrite_keeps_tail(files: Files, target: Seq<char>, body: Seq<u8>)
    requires
        files.contains_key(path_of(target)),
        body.len() <= files[path_of(target)].len(),
    ensures
        ({
            let path = path_of(target);
            let old_content = files[path];
            let (after, put_reply) = serve(files, Verb::Put, target, body);
            &&& put_reply == (Status::Accepted, Seq::<u8>::empty())
            &&& after == files.insert(path, body + old_content.skip(body.len() as int))
        }),
{
    let old_content = files[path_of(target)];
    if body.len() == old_content.len() {
        assert(body + old_content.skip(body.len() as int) =~= body);
    }
}

/// Overwriting a path that names no file fails with `NotFound` and creates nothing.
pub proof fn law_overwrite_missing(files: Files, target: Seq<char>, body: Seq<u8>)
    requires
        !files.contains_key(path_of(target)),
    ensures
        serve(files, Verb::Put, target, body) == (files, (Status::NotFound, Seq::<u8>::empty())),
{
}

/// A verb that is not served is answered with `NotImplemented` and touches no file.
pub proof fn law_unsupported_verb(files: Files, target: Seq<char>, body: Seq<u8>)
    ensures
        serve(files, Verb::Other, target, body) == (files, (Status::NotImplemented, unsupported_body())),
{
}

} // verus!
