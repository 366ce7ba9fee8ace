//! Roles a user can hold in the marketplace.

use vstd::prelude::*;

verus! {

/// The capacity in which a user acts: buyer, seller or both.
#[derive(Debug, Clone, Copy, PartialEq, Eq, Structural)]
pub enum Rol {
    /// Buyer and seller at once.
    Ambos,
    /// Buyer only.
    Comp,
    /// Seller only.
    Vend,
}

impl Rol {
    /// Whether a user with this role may act as a seller.
    pub open spec fn vende(self) -> bool {
        self != Rol::Comp
    }

    /// Whether a user with this role may act as a buyer.
    pub open spec fn compra(self) -> bool {
        self != Rol::Vend
    }
}

} // verus!
