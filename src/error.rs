use vstd::prelude::*;

verus! {

/// Why a message could not be decoded. Every kind is terminal for the message:
/// no partial value is ever returned.
#[derive(Clone, Copy, Debug, PartialEq, Eq, Structural)]
pub enum DecodeError {
    /// An outer or inner discriminator holds a value outside its known set.
    UnknownTag,
    /// A field without a documented default is absent.
    MissingRequiredField,
    /// A field is present but has the wrong shape or does not fit its type.
    TypeMismatch,
    /// An integer discriminant (or a rank label) lies outside its table.
    EnumOutOfRange,
    /// An event arrived on a session before its handshake.
    PreconditionViolated,
}

} // verus!
