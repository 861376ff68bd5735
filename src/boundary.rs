use vstd::prelude::*;

use crate::text::{push_char, replace_char, swap_char};

verus! {

/// What a panic carried, as far as the boundary can tell.
#[derive(Debug, PartialEq, Eq)]
pub enum PanicPayload {
    /// A string slice, as `panic!("literal")` makes.
    Str(String),
    /// An owned string, as `panic!("{}", x)` makes.
    Owned(String),
    /// Anything else.
    Other,
}

/// How the body of an exported entry point ended.
#[derive(Debug, PartialEq, Eq)]
pub enum BodyOutcome<R> {
    /// It returned a value.
    Returned(R),
    /// It returned an error, described by the text.
    Failed(String),
    /// It panicked.
    Panicked(PanicPayload),
}

/// What the boundary hands back to the host runtime after the body ended.
#[derive(Debug, PartialEq, Eq)]
pub struct BoundaryExit<R> {
    /// The value returned across the boundary.
    pub value: R,
    /// Whether to ask the host runtime to describe the exception it already had pending.
    pub describe_pending: bool,
    /// The message of the exception to raise in the host runtime, if any.
    pub exception: Option<String>,
}

/// The message that the host exception carries for a panic.
pub open spec fn panic_message(p: PanicPayload) -> Seq<char> {
    match p {
        PanicPayload::Str(s) => s@,
        PanicPayload::Owned(s) => s@,
        PanicPayload::Other => "Unknown panic payload type"@,
    }
}

/// The name under which the host runtime finds the entry point `method` of
/// the class at `class_path`.
pub open spec fn symbol_name(class_path: Seq<char>, method: Seq<char>) -> Seq<char> {
    "Java_"@ + swap_char(class_path, '.', '_') + seq!['_'] + method
}

impl PanicPayload {
    /// The message that the host exception carries for this panic.
    pub fn message(self) -> (r: String)
        ensures
            r@ == panic_message(self),
    {
        match self {
            PanicPayload::Str(s) => s,
            PanicPayload::Owned(s) => s,
            PanicPayload::Other => String::from_str("Unknown panic payload type"),
        }
    }
}

/// Settles a boundary call: a returned value passes through untouched; an
/// error or a panic becomes a host exception with its text, after the host is
/// asked to describe an exception it already had pending, and the call
/// returns `fallback`, the default of the declared return type.
pub fn settle<R>(outcome: BodyOutcome<R>, pending_exception: bool, fallback: R) -> (r: BoundaryExit<R>)
    ensures
        match outcome {
            BodyOutcome::Returned(v) => r.value == v && !r.describe_pending && r.exception is None,
            BodyOutcome::Failed(m) => r.value == fallback && r.describe_pending == pending_exception
                && r.exception == Some(m),
            BodyOutcome::Panicked(p) => r.value == fallback && r.describe_pending
                == pending_exception && (r.exception matches Some(e) && e@ == panic_message(p)),
        },
{
    match outcome {
        BodyOutcome::Returned(v) => BoundaryExit { value: v, describe_pending: false, exception: None },
        BodyOutcome::Failed(m) => BoundaryExit {
            value: fallback,
            describe_pending: pending_exception,
            exception: Some(m),
        },
        BodyOutcome::Panicked(p) => BoundaryExit {
            value: fallback,
            describe_pending: pending_exception,
            exception: Some(p.message()),
        },
    }
}

/// The exported symbol of the entry point `method` of the class at
/// `class_path`: `Java_`, the path with dots turned into underscores, `_`, the
/// method name.
pub fn exported_symbol(class_path: &str, method: &str) -> (r: String)
    ensures
        r@ == symbol_name(class_path@, method@),
{
    let mut r = String::from_str("Java_");
    proof {
        reveal_strlit("Java_");
    }
    let path = replace_char(class_path, '.', '_');
    r.append(path.as_str());
    push_char(&mut r, '_');
    r.append(method);
    proof {
        reveal_strlit("Java_");
    }
    assert(r@ =~= symbol_name(class_path@, method@));
    r
}

} // verus!
