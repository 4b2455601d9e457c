//! The error taxonomy of the resolution subsystem.
//!
//! Every failure of a resolution request falls in one of four kinds; each
//! carries a human-readable message, which is all that crosses the boundary
//! to external callers.

use vstd::prelude::*;

verus! {

/// Spec-level mirror of [`FlyError`]: the same four kinds, with the message
/// as a sequence of characters.
pub enum SpecError {
    MalformedSpecifier { message: Seq<char> },
    UnsupportedProtocol { message: Seq<char> },
    NotFound { message: Seq<char> },
    LoadFailure { message: Seq<char> },
}

/// An error of the resolution subsystem.
///
/// - `MalformedSpecifier`: the specifier or its base failed URL parsing or
///   joining.
/// - `UnsupportedProtocol`: no resolver is registered for the normalized
///   scheme.
/// - `NotFound`: at least one resolver was tried but every one declined at
///   its resolve step.
/// - `LoadFailure`: a resolver's resolve step succeeded but its bound loader
///   failed to materialize content.
#[derive(Clone, Debug)]
pub enum FlyError {
    MalformedSpecifier { message: String },
    UnsupportedProtocol { message: String },
    NotFound { message: String },
    LoadFailure { message: String },
}

impl View for FlyError {
    type V = SpecError;

    open spec fn view(&self) -> SpecError {
        match self {
            FlyError::MalformedSpecifier { message } => SpecError::MalformedSpecifier {
                message: message@,
            },
            FlyError::UnsupportedProtocol { message } => SpecError::UnsupportedProtocol {
                message: message@,
            },
            FlyError::NotFound { message } => SpecError::NotFound { message: message@ },
            FlyError::LoadFailure { message } => SpecError::LoadFailure { message: message@ },
        }
    }
}

/// The message of a spec-level error, independent of its kind.
pub open spec fn spec_error_message(e: SpecError) -> Seq<char> {
    match e {
        SpecError::MalformedSpecifier { message } => message,
        SpecError::UnsupportedProtocol { message } => message,
        SpecError::NotFound { message } => message,
        SpecError::LoadFailure { message } => message,
    }
}

/// The view of a `Result`, componentwise.
pub open spec fn result_view<T: View, E: View>(r: Result<T, E>) -> Result<T::V, E::V> {
    match r {
        Ok(v) => Ok(v@),
        Err(e) => Err(e@),
    }
}

impl FlyError {
    /// The human-readable message carried by this error.
    pub fn message(&self) -> (r: &str)
        ensures
            r@ == spec_error_message(self@),
    {
        match self {
            FlyError::MalformedSpecifier { message } => message.as_str(),
            FlyError::UnsupportedProtocol { message } => message.as_str(),
            FlyError::NotFound { message } => message.as_str(),
            FlyError::LoadFailure { message } => message.as_str(),
        }
    }
}

} // verus!
