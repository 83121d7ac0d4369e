use vstd::prelude::*;

verus! {

/// The errors the core reports. The store's own failures are opaque to the
/// core beyond success or failure, so a single variant stands for them.
#[derive(Debug, Clone, Copy, PartialEq, Eq, Structural)]
pub enum AriadneErrors {
    /// A storage operation (schema setup or batch insert) failed.
    Database,
    /// The configured flush interval is unparsable or not positive.
    Configuration,
}

} // verus!
