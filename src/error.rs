use vstd::prelude::*;

use crate::cache::HandleKind;

verus! {

/// The errors that the native side reports to its immediate caller.
#[derive(Debug, PartialEq, Eq)]
pub enum SpError {
    /// An opaque handle is null, or its object was already reclaimed.
    NullHandle,
    /// A member was invoked before its handle was resolved and cached.
    CacheMiss,
    /// A resolver of the given kind that has to look its target up holds no
    /// name or signature (for a class: no path, and its key is never cached).
    MissingDescriptor(HandleKind),
    /// A class resolver made from its key alone whose key is not cached.
    NoClassCache,
    /// The host runtime found no class or member matching the descriptor.
    ResolutionFailure,
    /// A class handle was asked for before the class was initialised.
    ClassNotInit,
    /// A failure described by free text.
    Message(String),
}

/// The text of a missing descriptor, by the kind of resolver that lacks it.
pub open spec fn missing_descriptor_text(k: HandleKind) -> Seq<char> {
    match k {
        HandleKind::Class => "no class"@,
        HandleKind::Field => "init field error: name or return type is null"@,
        HandleKind::StaticField => "init static field error: name or return type is null"@,
        HandleKind::Method => "init static method error: name or sig is null"@,
        HandleKind::StaticMethod => "init static method error: name or sig is null"@,
    }
}

/// The text that describes an error.
pub open spec fn error_text(e: SpError) -> Seq<char> {
    match e {
        SpError::NullHandle => "point is null or not"@,
        SpError::CacheMiss => "no method cache"@,
        SpError::MissingDescriptor(k) => missing_descriptor_text(k),
        SpError::NoClassCache => "no class cache"@,
        SpError::ResolutionFailure => "no class or member matches the descriptor"@,
        SpError::ClassNotInit => "class not init"@,
        SpError::Message(s) => s@,
    }
}

impl SpError {
    /// The text that describes this error; it becomes the host exception's message.
    pub fn message(&self) -> (r: String)
        ensures
            r@ == error_text(*self),
    {
        match self {
            SpError::NullHandle => String::from_str("point is null or not"),
            SpError::CacheMiss => String::from_str("no method cache"),
            SpError::MissingDescriptor(k) => match k {
                HandleKind::Class => String::from_str("no class"),
                HandleKind::Field => String::from_str(
                    "init field error: name or return type is null",
                ),
                HandleKind::StaticField => String::from_str(
                    "init static field error: name or return type is null",
                ),
                HandleKind::Method | HandleKind::StaticMethod => String::from_str(
                    "init static method error: name or sig is null",
                ),
            },
            SpError::NoClassCache => String::from_str("no class cache"),
            SpError::ResolutionFailure => String::from_str(
                "no class or member matches the descriptor",
            ),
            SpError::ClassNotInit => String::from_str("class not init"),
            SpError::Message(s) => s.clone(),
        }
    }
}

/// Fails with a free-text error that carries `info`.
pub fn throw<T>(info: &str) -> (r: Result<T, SpError>)
    ensures
        r matches Err(SpError::Message(s)) && s@ == info@,
{
    Err(SpError::Message(String::from_str(info)))
}

} // verus!
