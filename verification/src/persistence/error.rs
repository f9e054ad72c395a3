use vstd::prelude::*;

use crate::text::{concat_strs, decimal, push_decimal};

verus! {

/// Why a project could not be saved or opened. I/O and JSON failures carry the
/// underlying error's message.
#[derive(Debug, PartialEq, Eq)]
pub enum PersistenceError {
    Io(String),
    Json(String),
    UnsupportedVersion(u32),
    MissingSourceImage(String),
}

/// The message shown for an error.
pub open spec fn persistence_message(e: PersistenceError) -> Seq<char> {
    match e {
        PersistenceError::Io(m) => "I/O error: "@ + m@,
        PersistenceError::Json(m) => "JSON error: "@ + m@,
        PersistenceError::UnsupportedVersion(v) => "unsupported project version: "@ + decimal(v as nat),
        PersistenceError::MissingSourceImage(p) => "source image not found: "@ + p@,
    }
}

impl PersistenceError {
    /// The message shown for this error.
    pub fn message(&self) -> (r: String)
        ensures
            r@ == persistence_message(*self),
    {
        match self {
            PersistenceError::Io(m) => concat_strs("I/O error: ", m.as_str()),
            PersistenceError::Json(m) => concat_strs("JSON error: ", m.as_str()),
            PersistenceError::UnsupportedVersion(v) => {
                let mut s = crate::text::owned("unsupported project version: ");
                push_decimal(&mut s, *v);
                s
            },
            PersistenceError::MissingSourceImage(p) => concat_strs("source image not found: ", p.as_str()),
        }
    }
}

} // verus!
