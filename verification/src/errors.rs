use vstd::prelude::*;

verus! {

/// Failure reported when the native engine cannot build an instance.
#[derive(Debug, PartialEq, Eq, Structural)]
pub enum CreationError {
    /// The engine returned a null instance; no partial resource remains.
    NativeInitFailed,
}

/// Rejection of caller-supplied text, raised before any native work starts.
#[derive(Debug, PartialEq, Eq, Structural)]
pub enum EncodingError {
    /// The text embeds a null byte, so it cannot cross the C boundary intact.
    EmbeddedNul,
}

} // verus!
