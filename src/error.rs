use vstd::prelude::*;

verus! {

/// The ways provisioning can fail.
#[derive(Debug, Clone, PartialEq, Eq)]
pub enum ProvisionError {
    /// The archive server answered with a status other than success.
    Transport { status: u16 },
    /// The target operating system names no known archive flavour.
    PlatformUnsupported { token: String },
    /// A rewrite pattern was refused by the pattern engine.
    InvalidPattern,
}

} // verus!
