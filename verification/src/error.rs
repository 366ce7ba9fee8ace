//! Every way an operation of the marketplace or of its statistics can fail.

use vstd::prelude::*;
use vstd::string::*;

verus! {

/// A named failure. No operation fails in any other way, and an operation
/// that fails leaves the state it was called on untouched.
#[derive(Debug, Clone, Copy, PartialEq, Eq, Structural)]
pub enum ErrorMercado {
    /// The account is already registered.
    UsuarioYaRegistrado,
    /// No user is registered under the account.
    UsuarioNoEncontrado,
    /// The requested role is the one the user already holds.
    MismoRol,
    /// A product was offered at price zero.
    PrecioInvalido,
    /// A product was loaded with stock zero.
    StockInvalido,
    /// A counter would exceed its width.
    DesbordeAlSumar,
    /// The user is a buyer only and may not load products.
    SinPermisoDeVendedor,
    /// The user is a buyer only.
    EsComprador,
    /// The user is a seller only.
    EsVendedor,
    /// The seller has loaded no product yet.
    VendedorSinProductos,
    /// The user has no seller profile.
    VendedorSinDatos,
    /// The product is not among the seller's own.
    NoEsPropietario,
    /// A listing asks for quantity zero of some product.
    CantidadInvalida,
    /// The stock of some product does not cover the quantity asked.
    StockInsuficiente,
    /// No product is registered under the identifier.
    ProductoNoEncontrado,
    /// Unit price times quantity exceeds the width of a price.
    DesbordeAlMultiplicar,
    /// The total price of a listing exceeds the width of a price.
    DesbordeAlAcumular,
    /// Taking a quantity out of stock would drop below zero.
    DesbordeAlRestarStock,
    /// Returning a quantity to stock would exceed the width of the counter.
    DesbordeAlSumarStock,
    /// The user is a buyer only and may not publish.
    NoEsVendedor,
    /// No listing is registered under the identifier.
    PublicacionNoEncontrada,
    /// No listing is registered under the identifier being replaced.
    PosicionDePublicacionNoEncontrada,
    /// A history already holds as many entries as an identifier can number.
    HistorialLleno,
    /// The listing is sold out.
    PublicacionSinStock,
    /// The buyer is the seller of the listing.
    CompraPropia,
    /// The seller of the listing has since become a buyer only.
    PublicacionNoDisponible,
    /// The user is a seller only and may not buy.
    NoEsComprador,
    /// The order is no longer pending, so it cannot be cancelled.
    NoCancelable,
    /// The buyer had already asked to cancel the order.
    YaCanceladaPorComprador,
    /// The seller had already agreed to cancel the order.
    YaCancelada,
    /// The seller asked to cancel an order the buyer has not asked to cancel.
    CompradorNoConsintio,
    /// The order is not pending, so it cannot be shipped.
    NoSePuedeEnviar,
    /// The order has not been shipped, so it cannot be received.
    NoFueEnviado,
    /// No order is registered under the identifier (shipping, receiving).
    OrdenInexistente,
    /// No order is registered under the identifier (cancelling, rating).
    OrdenNoEncontrada,
    /// The order is not among the buyer's own, or cannot be located.
    OrdenDeCompraNoEncontrada,
    /// The user is a buyer only and may not ship.
    SinRolDeVendedor,
    /// The user is a seller only and may not receive.
    SinRolDeComprador,
    /// The listing of the order is not among the seller's own.
    PublicacionAjena,
    /// The score is outside 1..=5.
    CalificacionInvalida,
    /// The order has not been received yet, so it cannot be rated.
    CompraNoRecibida,
    /// The party had already rated the order.
    YaCalifico,
    /// The rated seller has no seller profile.
    VendedorSinDatosCargados,
    /// The rated buyer has no buyer profile.
    CompradorSinDatosCargados,
    /// A seller-only user is not the seller of the order.
    VendedorNoPoseePublicacion,
    /// A buyer-only user is not the buyer of the order.
    NoPoseeOrden,
    /// A user with both roles is neither seller nor buyer of the order.
    NoParticipa,
    /// No order has been shipped or received yet.
    SinVentasConcretadas,
    /// No user has a buyer profile.
    SinCompradores,
    /// A category with no sale was asked for its average.
    ErrorAlDividir,
}

impl ErrorMercado {
    /// The text shown to a caller for this failure.
    pub open spec fn texto(self) -> Seq<char> {
        match self {
            ErrorMercado::UsuarioYaRegistrado => "El usuario ya esta registrado."@,
            ErrorMercado::UsuarioNoEncontrado => "No se encontro el usuario."@,
            ErrorMercado::MismoRol => "El usuario ya posee ese rol."@,
            ErrorMercado::PrecioInvalido => "Precio no valido"@,
            ErrorMercado::StockInvalido => "Stock no valido"@,
            ErrorMercado::DesbordeAlSumar => "Error al sumar."@,
            ErrorMercado::SinPermisoDeVendedor =>
                "El usuario no tiene permisos para cargar productos. No es vendedor."@,
            ErrorMercado::EsComprador => "El usuario es comprador."@,
            ErrorMercado::EsVendedor => "El usuario es vendedor."@,
            ErrorMercado::VendedorSinProductos => "El vendedor no tiene productos."@,
            ErrorMercado::VendedorSinDatos => "El vendedor no tiene datos."@,
            ErrorMercado::NoEsPropietario => "El vendedor no posee ese producto."@,
            ErrorMercado::CantidadInvalida => "Un producto tiene cantidades no validas."@,
            ErrorMercado::StockInsuficiente => "No hay stock suficiente."@,
            ErrorMercado::ProductoNoEncontrado => "No se encontro el producto."@,
            ErrorMercado::DesbordeAlMultiplicar => "Overflow al multiplicar precio por cantidad."@,
            ErrorMercado::DesbordeAlAcumular => "Overflow al acumular el total."@,
            ErrorMercado::DesbordeAlRestarStock => "Error al restar stock"@,
            ErrorMercado::DesbordeAlSumarStock => "Error al sumar stock"@,
            ErrorMercado::NoEsVendedor => "El usuario no es vendedor."@,
            ErrorMercado::PublicacionNoEncontrada => "No se encontro la publicacion."@,
            ErrorMercado::PosicionDePublicacionNoEncontrada => "No se encontro publicacion"@,
            ErrorMercado::HistorialLleno => "El historial esta lleno."@,
            ErrorMercado::PublicacionSinStock => "La publicacion ya no tiene stock"@,
            ErrorMercado::CompraPropia =>
                "El usuario no puede comprar sus propias publicaciones."@,
            ErrorMercado::PublicacionNoDisponible =>
                "La publicacion ya no se encuentra disponible."@,
            ErrorMercado::NoEsComprador =>
                "El usuario no esta autorizado para realizar una compra. ERROR: No posee el rol comprador."@,
            ErrorMercado::NoCancelable => "Ya no se puede cancelar la compra."@,
            ErrorMercado::YaCanceladaPorComprador =>
                "La compra ya fue cancelada por el comprador anteriormente."@,
            ErrorMercado::YaCancelada => "La compra ya fue cancelada."@,
            ErrorMercado::CompradorNoConsintio => "El comprador no desea cancelar la compra."@,
            ErrorMercado::NoSePuedeEnviar => "El producto no puede ser enviado."@,
            ErrorMercado::NoFueEnviado => "El producto todavia no fue enviado."@,
            ErrorMercado::OrdenInexistente => "No existe la orden buscada."@,
            ErrorMercado::OrdenNoEncontrada => "No se encontro la orden."@,
            ErrorMercado::OrdenDeCompraNoEncontrada => "No se encontro la orden de compra."@,
            ErrorMercado::SinRolDeVendedor => "El usuario no posee el rol de vendedor."@,
            ErrorMercado::SinRolDeComprador => "El usuario no posee el rol de comprador."@,
            ErrorMercado::PublicacionAjena =>
                "La publicacion buscada no pertenece a este vendedor."@,
            ErrorMercado::CalificacionInvalida =>
                "El valor de la calificacion no es valido (1..5)."@,
            ErrorMercado::CompraNoRecibida => "La compra aun no fue recibida."@,
            ErrorMercado::YaCalifico => "El usuario ya califico."@,
            ErrorMercado::VendedorSinDatosCargados => "El vendedor no tiene datos cargados."@,
            ErrorMercado::CompradorSinDatosCargados => "El comprador no tiene datos cargados."@,
            ErrorMercado::VendedorNoPoseePublicacion => "El vendedor no posee esta publicacion."@,
            ErrorMercado::NoPoseeOrden => "El usuario no posee esa orden de compra."@,
            ErrorMercado::NoParticipa => "El usuario no participa de la compra."@,
            ErrorMercado::SinVentasConcretadas =>
                "No hay productos vendidos de ventas concretadas."@,
            ErrorMercado::SinCompradores =>
                "No hay usuarios con datos de comprador cargados en sistema."@,
            ErrorMercado::ErrorAlDividir => "Error al dividir."@,
        }
    }

    /// The text of this failure as an owned string.
    pub fn mensaje(&self) -> (texto: String)
        ensures
            texto@ == self.texto(),
    {
        let literal: &str = match *self {
            ErrorMercado::UsuarioYaRegistrado => "El usuario ya esta registrado.",
            ErrorMercado::UsuarioNoEncontrado => "No se encontro el usuario.",
            ErrorMercado::MismoRol => "El usuario ya posee ese rol.",
            ErrorMercado::PrecioInvalido => "Precio no valido",
            ErrorMercado::StockInvalido => "Stock no valido",
            ErrorMercado::DesbordeAlSumar => "Error al sumar.",
            ErrorMercado::SinPermisoDeVendedor =>
                "El usuario no tiene permisos para cargar productos. No es vendedor.",
            ErrorMercado::EsComprador => "El usuario es comprador.",
            ErrorMercado::EsVendedor => "El usuario es vendedor.",
            ErrorMercado::VendedorSinProductos => "El vendedor no tiene productos.",
            ErrorMercado::VendedorSinDatos => "El vendedor no tiene datos.",
            ErrorMercado::NoEsPropietario => "El vendedor no posee ese producto.",
            ErrorMercado::CantidadInvalida => "Un producto tiene cantidades no validas.",
            ErrorMercado::StockInsuficiente => "No hay stock suficiente.",
            ErrorMercado::ProductoNoEncontrado => "No se encontro el producto.",
            ErrorMercado::DesbordeAlMultiplicar => "Overflow al multiplicar precio por cantidad.",
            ErrorMercado::DesbordeAlAcumular => "Overflow al acumular el total.",
            ErrorMercado::DesbordeAlRestarStock => "Error al restar stock",
            ErrorMercado::DesbordeAlSumarStock => "Error al sumar stock",
            ErrorMercado::NoEsVendedor => "El usuario no es vendedor.",
            ErrorMercado::PublicacionNoEncontrada => "No se encontro la publicacion.",
            ErrorMercado::PosicionDePublicacionNoEncontrada => "No se encontro publicacion",
            ErrorMercado::HistorialLleno => "El historial esta lleno.",
            ErrorMercado::PublicacionSinStock => "La publicacion ya no tiene stock",
            ErrorMercado::CompraPropia =>
                "El usuario no puede comprar sus propias publicaciones.",
            ErrorMercado::PublicacionNoDisponible =>
                "La publicacion ya no se encuentra disponible.",
            ErrorMercado::NoEsComprador =>
                "El usuario no esta autorizado para realizar una compra. ERROR: No posee el rol comprador.",
            ErrorMercado::NoCancelable => "Ya no se puede cancelar la compra.",
            ErrorMercado::YaCanceladaPorComprador =>
                "La compra ya fue cancelada por el comprador anteriormente.",
            ErrorMercado::YaCancelada => "La compra ya fue cancelada.",
            ErrorMercado::CompradorNoConsintio => "El comprador no desea cancelar la compra.",
            ErrorMercado::NoSePuedeEnviar => "El producto no puede ser enviado.",
            ErrorMercado::NoFueEnviado => "El producto todavia no fue enviado.",
            ErrorMercado::OrdenInexistente => "No existe la orden buscada.",
            ErrorMercado::OrdenNoEncontrada => "No se encontro la orden.",
            ErrorMercado::OrdenDeCompraNoEncontrada => "No se encontro la orden de compra.",
            ErrorMercado::SinRolDeVendedor => "El usuario no posee el rol de vendedor.",
            ErrorMercado::SinRolDeComprador => "El usuario no posee el rol de comprador.",
            ErrorMercado::PublicacionAjena =>
                "La publicacion buscada no pertenece a este vendedor.",
            ErrorMercado::CalificacionInvalida =>
                "El valor de la calificacion no es valido (1..5).",
            ErrorMercado::CompraNoRecibida => "La compra aun no fue recibida.",
            ErrorMercado::YaCalifico => "El usuario ya califico.",
            ErrorMercado::VendedorSinDatosCargados => "El vendedor no tiene datos cargados.",
            ErrorMercado::CompradorSinDatosCargados => "El comprador no tiene datos cargados.",
            ErrorMercado::VendedorNoPoseePublicacion => "El vendedor no posee esta publicacion.",
            ErrorMercado::NoPoseeOrden => "El usuario no posee esa orden de compra.",
            ErrorMercado::NoParticipa => "El usuario no participa de la compra.",
            ErrorMercado::SinVentasConcretadas =>
                "No hay productos vendidos de ventas concretadas.",
            ErrorMercado::SinCompradores =>
                "No hay usuarios con datos de comprador cargados en sistema.",
            ErrorMercado::ErrorAlDividir => "Error al dividir.",
        };
        String::from_str(literal)
    }
}

} // verus!
