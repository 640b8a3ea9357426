//! The file operation each request asks for, what it does to the files, and
//! the response that its outcome becomes.

use vstd::prelude::*;
use vstd::string::{StringSliceAdditionalSpecFns, StrSliceExecFns};
use crate::message::{Verb, Status, Request, Response, path_of, file_path};

verus! {

/// Why a file operation failed.
#[derive(Clone, Copy, Debug, PartialEq, Eq, Structural)]
pub enum FileError {
    /// The path names no file.
    NotFound,
    /// Any other failure: permission, an invalid path, a failed read or write.
    Other,
}

/// A file operation on a path relative to the working directory.
#[derive(Debug)]
pub enum FileOp {
    /// Read the whole file.
    Read { path: String },
    /// Write `body` at the start of an existing file, keeping the bytes past its end.
    Overwrite { path: String, body: Vec<u8> },
    /// Create the file, or truncate it, and write `body`.
    CreateOrReplace { path: String, body: Vec<u8> },
    /// Delete the file if it is there.
    Remove { path: String },
    /// No file operation: the verb is not served.
    Unsupported,
}

/// What a `FileOp` holds, as mathematical values.
pub enum OpModel {
    Read { path: Seq<char> },
    Overwrite { path: Seq<char>, body: Seq<u8> },
    CreateOrReplace { path: Seq<char>, body: Seq<u8> },
    Remove { path: Seq<char> },
    Unsupported,
}

impl View for FileOp {
    type V = OpModel;

    open spec fn view(&self) -> OpModel {
        match self {
            FileOp::Read { path } => OpModel::Read { path: path@ },
            FileOp::Overwrite { path, body } => OpModel::Overwrite { path: path@, body: body@ },
            FileOp::CreateOrReplace { path, body } => OpModel::CreateOrReplace {
                path: path@,
                body: body@,
            },
            FileOp::Remove { path } => OpModel::Remove { path: path@ },
            FileOp::Unsupported => OpModel::Unsupported,
        }
    }
}

/// The files of a directory: each path that names a file, with its content.
pub type Files = Map<Seq<char>, Seq<u8>>;

/// The outcome of a file operation as mathematical values: the bytes read
/// (empty for the operations that write), or the error.
pub open spec fn outcome_of(r: Result<Vec<u8>, FileError>) -> Result<Seq<u8>, FileError> {
    match r {
        Ok(b) => Ok(b@),
        Err(e) => Err(e),
    }
}

/// The operation a request asks for, by its verb, on the path its target names.
pub open spec fn planned(verb: Verb, target: Seq<char>, body: Seq<u8>) -> OpModel {
    match verb {
        Verb::Get => OpModel::Read { path: path_of(target) },
        Verb::Put => OpModel::Overwrite { path: path_of(target), body },
        Verb::Post => OpModel::CreateOrReplace { path: path_of(target), body },
        Verb::Delete => OpModel::Remove { path: path_of(target) },
        Verb::Other => OpModel::Unsupported,
    }
}

/// The content after writing `body` at offset 0 of `old` without truncating.
pub open spec fn overwrite_prefix(old: Seq<u8>, body: Seq<u8>) -> Seq<u8> {
    if body.len() >= old.len() {
        body
    } else {
        body + old.skip(body.len() as int)
    }
}

/// The files after an operation, and its outcome, when nothing but a missing
/// file makes it fail.
pub open spec fn perform(files: Files, op: OpModel) -> (Files, Result<Seq<u8>, FileError>) {
    match op {
        OpModel::Read { path } => if files.contains_key(path) {
            (files, Ok(files[path]))
        } else {
            (files, Err(FileError::NotFound))
        },
        OpModel::Overwrite { path, body } => if files.contains_key(path) {
            (files.insert(path, overwrite_prefix(files[path], body)), Ok(Seq::empty()))
        } else {
            (files, Err(FileError::NotFound))
        },
        OpModel::CreateOrReplace { path, body } => (files.insert(path, body), Ok(Seq::empty())),
        OpModel::Remove { path } => (files.remove(path), Ok(Seq::empty())),
        OpModel::Unsupported => (files, Ok(Seq::empty())),
    }
}

/// The body of the response to a verb that is not served.
pub open spec fn unsupported_body() -> Seq<u8> {
    "Unidentified request-method".spec_bytes()
}

/// The status and body that answer an operation with the given outcome.
pub open spec fn reply(op: OpModel, outcome: Result<Seq<u8>, FileError>) -> (Status, Seq<u8>) {
    match op {
        OpModel::Unsupported => (Status::NotImplemented, unsupported_body()),
        OpModel::Remove { .. } => (Status::Accepted, Seq::empty()),
        _ => match outcome {
            Ok(b) => if op is Read {
                (Status::Accepted, b)
            } else {
                (Status::Accepted, Seq::empty())
            },
            Err(FileError::NotFound) => (Status::NotFound, Seq::empty()),
            Err(FileError::Other) => (Status::InternalError, Seq::empty()),
        },
    }
}

/// The file operation that answers a request.
pub fn plan(req: Request) -> (r: FileOp)
    ensures
        r@ == planned(req.verb, req.target@, req.body@),
{
    let path = file_path(req.target.as_str());
    match req.verb {
        Verb::Get => FileOp::Read { path },
        Verb::Put => FileOp::Overwrite { path, body: req.body },
        Verb::Post => FileOp::CreateOrReplace { path, body: req.body },
        Verb::Delete => FileOp::Remove { path },
        Verb::Other => FileOp::Unsupported,
    }
}

/// The response to an operation, given its outcome.
pub fn respond(op: &FileOp, outcome: Result<Vec<u8>, FileError>) -> (r: Response)
    ensures
        (r.status, r.body@) == reply(op@, outcome_of(outcome)),
{
    match op {
        FileOp::Unsupported => Response {
            status: Status::NotImplemented,
            body: "Unidentified request-method".as_bytes_vec(),
        },
        FileOp::Remove { .. } => Response { status: Status::Accepted, body: Vec::new() },
        _ => match outcome {
            Ok(b) => match op {
                FileOp::Read { .. } => Response { status: Status::Accepted, body: b },
                _ => Response { status: Status::Accepted, body: Vec::new() },
            },
            Err(FileError::NotFound) => Response { status: Status::NotFound, body: Vec::new() },
            Err(FileError::Other) => Response { status: Status::InternalError, body: Vec::new() },
        },
    }
}

} // verus!
