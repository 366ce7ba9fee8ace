//! Listings: a seller's offer of products at a total price fixed when it is made.

use vstd::prelude::*;
use ink::primitives::AccountId;
use crate::cuenta::bytes_de_cuenta;
use crate::listas::copiar_pares;

verus! {

/// A listing. Its products, quantities, price and seller never change after
/// creation; only `disponible` does.
#[derive(Debug)]
pub struct Publicacion {
    /// Identifier, assigned in sequence from 0.
    pub id: u32,
    /// (product, quantity) pairs offered.
    pub productos: Vec<(u32, u32)>,
    /// Sum over the pairs of unit price times quantity, as of creation.
    pub precio_final: u32,
    pub id_vendedor: AccountId,
    /// Whether an order can be placed against the listing.
    pub disponible: bool,
}

/// What a listing is, as plain values.
pub struct PublicacionVista {
    pub id: u32,
    pub productos: Seq<(u32, u32)>,
    pub precio_final: u32,
    pub id_vendedor: Seq<u8>,
    pub disponible: bool,
}

impl PublicacionVista {
    /// The same listing with its availability set to `disponible`.
    pub open spec fn con_disponible(self, disponible: bool) -> PublicacionVista {
        PublicacionVista { disponible, ..self }
    }
}

impl View for Publicacion {
    type V = PublicacionVista;

    open spec fn view(&self) -> PublicacionVista {
        PublicacionVista {
            id: self.id,
            productos: self.productos@,
            precio_final: self.precio_final,
            id_vendedor: bytes_de_cuenta(self.id_vendedor),
            disponible: self.disponible,
        }
    }
}

impl Publicacion {
    /// A fresh, available listing.
    pub fn crear_publicacion(
        productos_a_publicar: Vec<(u32, u32)>,
        precio_final: u32,
        id_publicacion: u32,
        id_vendedor: AccountId,
    ) -> (publicacion: Publicacion)
        ensures
            publicacion@ == (PublicacionVista {
                id: id_publicacion,
                productos: productos_a_publicar@,
                precio_final,
                id_vendedor: bytes_de_cuenta(id_vendedor),
                disponible: true,
            }),
    {
        Publicacion {
            id: id_publicacion,
            productos: productos_a_publicar,
            precio_final,
            id_vendedor,
            disponible: true,
        }
    }

    /// A copy of this listing.
    pub fn copiar(&self) -> (copia: Publicacion)
        ensures
            copia@ == self@,
    {
        Publicacion {
            id: self.id,
            productos: copiar_pares(&self.productos),
            precio_final: self.precio_final,
            id_vendedor: self.id_vendedor,
            disponible: self.disponible,
        }
    }
}

} // verus!
