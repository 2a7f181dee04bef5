//! The two fatal error kinds of this layer.

use vstd::prelude::*;

verus! {

/// The machine rejected the native-function catalogue at host construction:
/// two registrations claimed the same module/function slot (a registration
/// colliding with a reserved slot included). Fatal; there is no retry path.
#[derive(Clone, Copy, Debug, PartialEq, Eq, Structural)]
pub struct InitializationError;

/// The capability kinds an extension bundle is keyed by.
#[derive(Clone, Copy, Debug, PartialEq, Eq, Structural)]
pub enum CapabilityKind {
    Table,
    TransactionMetadata,
    CodePublishing,
}

/// A second capability of the same kind was inserted into a bundle under
/// assembly. This is an internal invariant violation: the fixed construction
/// sequence never produces it, and that is proved where the bundle is built,
/// but insertion guards against it regardless.
#[derive(Clone, Copy, Debug, PartialEq, Eq, Structural)]
pub struct DuplicateCapabilityError {
    pub kind: CapabilityKind,
}

} // verus!
