//! Purchase orders and their life cycle.

use vstd::prelude::*;
use ink::primitives::AccountId;
use crate::cuenta::bytes_de_cuenta;
use crate::error::ErrorMercado;
use crate::listas::copiar_pares;
use crate::publicacion::{Publicacion, PublicacionVista};

verus! {

/// Where an order stands.
///
/// ```text
/// Pendiente --shipped by the seller--> Enviado --received by the buyer--> Recibido
/// Pendiente --buyer asks, then seller agrees--> Cancelada
/// ```
#[derive(Debug, Clone, Copy, PartialEq, Eq, Structural)]
pub enum EstadoCompra {
    Pendiente,
    Enviado,
    Recibido,
    Cancelada,
}

impl EstadoCompra {
    /// Whether an order in this state counts as a sale: shipped or received.
    pub open spec fn concretada(self) -> bool {
        self != EstadoCompra::Pendiente && self != EstadoCompra::Cancelada
    }
}

/// An order placed by a buyer against a listing.
#[derive(Debug)]
pub struct OrdenCompra {
    /// Identifier, assigned in sequence from 0.
    pub id: u32,
    pub estado: EstadoCompra,
    /// Who has asked to cancel: (seller, buyer).
    pub cancelacion: (bool, bool),
    /// The listing as it was when the order was placed:
    /// (listing id, (product, quantity) pairs, total price, seller).
    pub info_publicacion: (u32, Vec<(u32, u32)>, u32, AccountId),
    pub id_comprador: AccountId,
    /// Who has rated the other party: (buyer, seller).
    pub calificaciones: (bool, bool),
    /// The score the buyer gave the seller, once given.
    pub puntuacion_del_comprador: Option<u8>,
}

/// What an order is, as plain values.
pub struct OrdenVista {
    pub id: u32,
    pub estado: EstadoCompra,
    pub cancelacion: (bool, bool),
    pub info_publicacion: (u32, Seq<(u32, u32)>, u32, Seq<u8>),
    pub id_comprador: Seq<u8>,
    pub calificaciones: (bool, bool),
    pub puntuacion_del_comprador: Option<u8>,
}

impl OrdenVista {
    /// The order a buyer obtains by ordering `publicacion`.
    pub open spec fn nueva(
        id_orden: u32,
        publicacion: PublicacionVista,
        id_comprador: Seq<u8>,
    ) -> OrdenVista {
        OrdenVista {
            id: id_orden,
            estado: EstadoCompra::Pendiente,
            cancelacion: (false, false),
            info_publicacion: (
                publicacion.id,
                publicacion.productos,
                publicacion.precio_final,
                publicacion.id_vendedor,
            ),
            id_comprador,
            calificaciones: (false, false),
            puntuacion_del_comprador: None,
        }
    }

    /// The same order in state `estado`.
    pub open spec fn con_estado(self, estado: EstadoCompra) -> OrdenVista {
        OrdenVista { estado, ..self }
    }

    /// The order after its buyer has asked to cancel it.
    pub open spec fn cancelada_por_comprador(self) -> OrdenVista {
        OrdenVista { cancelacion: (self.cancelacion.0, true), ..self }
    }

    /// The order after its seller has agreed to cancel it.
    pub open spec fn cancelada_por_vendedor(self) -> OrdenVista {
        OrdenVista {
            cancelacion: (true, self.cancelacion.1),
            estado: EstadoCompra::Cancelada,
            ..self
        }
    }

    /// Whether the seller may agree to cancel: not yet agreed, and the buyer has asked.
    pub open spec fn consentimiento_del_vendedor(self) -> Result<(), ErrorMercado> {
        if self.cancelacion.0 {
            Err(ErrorMercado::YaCancelada)
        } else if !self.cancelacion.1 {
            Err(ErrorMercado::CompradorNoConsintio)
        } else {
            Ok(())
        }
    }

    /// The order after its buyer has rated the seller with `calificacion`.
    pub open spec fn calificada_por_comprador(self, calificacion: u8) -> OrdenVista {
        OrdenVista {
            calificaciones: (true, self.calificaciones.1),
            puntuacion_del_comprador: Some(calificacion),
            ..self
        }
    }

    /// The order after its seller has rated the buyer.
    pub open spec fn calificada_por_vendedor(self) -> OrdenVista {
        OrdenVista { calificaciones: (self.calificaciones.0, true), ..self }
    }
}

impl View for OrdenCompra {
    type V = OrdenVista;

    open spec fn view(&self) -> OrdenVista {
        OrdenVista {
            id: self.id,
            estado: self.estado,
            cancelacion: self.cancelacion,
            info_publicacion: (
                self.info_publicacion.0,
                self.info_publicacion.1@,
                self.info_publicacion.2,
                bytes_de_cuenta(self.info_publicacion.3),
            ),
            id_comprador: bytes_de_cuenta(self.id_comprador),
            calificaciones: self.calificaciones,
            puntuacion_del_comprador: self.puntuacion_del_comprador,
        }
    }
}

impl OrdenCompra {
    /// A pending order that snapshots `publicacion` for `id_comprador`.
    pub fn crear_orden_de_compra(
        id_orden: u32,
        publicacion: Publicacion,
        id_comprador: AccountId,
    ) -> (orden: OrdenCompra)
        ensures
            orden@ == OrdenVista::nueva(id_orden, publicacion@, bytes_de_cuenta(id_comprador)),
    {
        let id_publicacion = publicacion.id;
        let precio_final = publicacion.precio_final;
        let id_vendedor = publicacion.id_vendedor;
        let productos = publicacion.productos;
        OrdenCompra {
            id: id_orden,
            estado: EstadoCompra::Pendiente,
            cancelacion: (false, false),
            info_publicacion: (id_publicacion, productos, precio_final, id_vendedor),
            id_comprador,
            calificaciones: (false, false),
            puntuacion_del_comprador: None,
        }
    }

    /// Records that the buyer asks to cancel. Fails if the buyer had asked before.
    pub fn cancelar_compra_comprador(&mut self) -> (resultado: Result<(), ErrorMercado>)
        ensures
            match resultado {
                Ok(()) => !old(self).cancelacion.1
                    && final(self)@ == old(self)@.cancelada_por_comprador(),
                Err(e) => old(self).cancelacion.1
                    && e == ErrorMercado::YaCanceladaPorComprador
                    && *final(self) == *old(self),
            },
    {
        if self.cancelacion.1 {
            Err(ErrorMercado::YaCanceladaPorComprador)
        } else {
            self.cancelacion.1 = true;
            Ok(())
        }
    }

    /// Whether the seller may agree to cancel this order.
    pub fn puede_cancelar_vendedor(&self) -> (resultado: Result<(), ErrorMercado>)
        ensures
            resultado == self@.consentimiento_del_vendedor(),
    {
        if self.cancelacion.0 {
            Err(ErrorMercado::YaCancelada)
        } else if self.cancelacion.1 {
            Ok(())
        } else {
            Err(ErrorMercado::CompradorNoConsintio)
        }
    }

    /// Records that the seller agrees to cancel, which cancels the order.
    /// Fails if the seller had agreed before, or if the buyer has not asked.
    pub fn cancelar_compra_vendedor(&mut self) -> (resultado: Result<(), ErrorMercado>)
        ensures
            resultado == old(self)@.consentimiento_del_vendedor(),
            match resultado {
                Ok(()) => final(self)@ == old(self)@.cancelada_por_vendedor(),
                Err(_) => *final(self) == *old(self),
            },
    {
        match self.puede_cancelar_vendedor() {
            Ok(()) => {
                self.cancelacion.0 = true;
                self.estado = EstadoCompra::Cancelada;
                Ok(())
            },
            Err(e) => Err(e),
        }
    }

    /// A copy of this order.
    pub fn copiar(&self) -> (copia: OrdenCompra)
        ensures
            copia@ == self@,
    {
        OrdenCompra {
            id: self.id,
            estado: self.estado,
            cancelacion: self.cancelacion,
            info_publicacion: (
                self.info_publicacion.0,
                copiar_pares(&self.info_publicacion.1),
                self.info_publicacion.2,
                self.info_publicacion.3,
            ),
            id_comprador: self.id_comprador,
            calificaciones: self.calificaciones,
            puntuacion_del_comprador: self.puntuacion_del_comprador,
        }
    }
}

} // verus!
