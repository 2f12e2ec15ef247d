//! What came back from one request, as the library sees it.

use vstd::prelude::*;

verus! {

/// The outcome of one request: no answer at all (a timeout, a refused
/// connection, a name that did not resolve), or an answer with its status
/// code and its body as text.
#[derive(Debug, Clone, PartialEq, Eq)]
pub enum Reply {
    Unreachable,
    Answer { status: u16, body: String },
}

/// Whether a status code reports success.
pub open spec fn is_success(status: u16) -> bool {
    200 <= status < 300
}

/// The body of a reply that can be used: that of an answer with a success
/// status.
pub open spec fn usable_body(reply: Reply) -> Option<Seq<char>> {
    match reply {
        Reply::Answer { status, body } => if is_success(status) {
            Some(body@)
        } else {
            None
        },
        Reply::Unreachable => None,
    }
}

impl Reply {
    /// The body of this reply where it can be used.
    pub fn body(&self) -> (r: Option<&str>)
        ensures
            match r {
                Some(b) => usable_body(*self) == Some(b@),
                None => usable_body(*self) is None,
            },
    {
        match self {
            Reply::Answer { status, body } => if 200 <= *status && *status < 300 {
                Some(body.as_str())
            } else {
                None
            },
            Reply::Unreachable => None,
        }
    }
}

} // verus!
