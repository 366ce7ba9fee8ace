//! No operation creates or loses a unit of any product.
//!
//! For each operation that succeeds, the inventory of every product (stock,
//! plus reserves of available listings, plus commitments of orders not
//! cancelled) is after the operation what it was before. Loading a product
//! brings its initial stock in as the inventory of the new product.

use vstd::prelude::*;
use crate::estado::MercadoVista;
use crate::existencias::{cantidad_total, existe, tras_aumentar, tras_descontar};
use crate::inventario::{
    comprometido, lema_aumentar_cantidades, lema_comprometido_con_cambio,
    lema_comprometido_con_nueva, lema_descontar_cantidades, lema_reservado_con_cambio,
    lema_reservado_con_nueva, lema_sin_cantidad, reservado,
};
use crate::orden::{EstadoCompra, OrdenVista};
use crate::rol::Rol;

verus! {

/// No listing of a consistent marketplace reserves a product that does not exist.
pub proof fn lema_nada_reservado(vista: MercadoVista, i: int, id: u32)
    requires
        vista.estructura_coherente(),
        0 <= i <= vista.publicaciones.len(),
        !existe(vista.productos.len(), id),
    ensures
        reservado(vista.publicaciones.take(i), id) == 0,
    decreases i,
{
    if i > 0 {
        lema_nada_reservado(vista, i - 1, id);
        assert(vista.publicaciones.take(i).drop_last() =~= vista.publicaciones.take(i - 1));
        assert(vista.publicaciones.take(i).last() == vista.publicaciones[i - 1]);
        assert(vista.productos_conocidos(vista.publicaciones[i - 1].productos));
        lema_sin_cantidad(vista.publicaciones[i - 1].productos, vista.productos.len(), id);
    }
}

/// No order of a consistent marketplace commits a product that does not exist.
pub proof fn lema_nada_comprometido(vista: MercadoVista, i: int, id: u32)
    requires
        vista.estructura_coherente(),
        0 <= i <= vista.ordenes.len(),
        !existe(vista.productos.len(), id),
    ensures
        comprometido(vista.ordenes.take(i), id) == 0,
    decreases i,
{
    if i > 0 {
        lema_nada_comprometido(vista, i - 1, id);
        assert(vista.ordenes.take(i).drop_last() =~= vista.ordenes.take(i - 1));
        let orden = vista.ordenes[i - 1];
        assert(vista.ordenes.take(i).last() == orden);
        assert(vista.productos_conocidos(
            vista.publicaciones[orden.info_publicacion.0 as int].productos,
        ));
        lema_sin_cantidad(orden.info_publicacion.1, vista.productos.len(), id);
    }
}

/// Loading a product leaves the inventory of every other product as it was,
/// and the inventory of the new product is its initial stock.
pub proof fn ley_inventario_tras_cargar_producto(
    vista: MercadoVista,
    cuenta: Seq<u8>,
    nombre: Seq<char>,
    descripcion: Seq<char>,
    precio: u32,
    categoria: Seq<char>,
    stock: u32,
)
    requires
        vista.estructura_coherente(),
        vista.tras_cargar_producto(cuenta, nombre, descripcion, precio, categoria, stock) is Ok,
    ensures
        ({
            let nueva = vista.tras_cargar_producto(
                cuenta,
                nombre,
                descripcion,
                precio,
                categoria,
                stock,
            ).unwrap();
            &&& forall|id: u32|
                existe(vista.productos.len(), id) ==> #[trigger] nueva.inventario(id)
                    == vista.inventario(id)
            &&& nueva.inventario((vista.productos.len() + 1) as u32) == stock
        }),
{
    let nueva = vista.tras_cargar_producto(
        cuenta,
        nombre,
        descripcion,
        precio,
        categoria,
        stock,
    ).unwrap();
    let id = (vista.productos.len() + 1) as u32;
    lema_nada_reservado(vista, vista.publicaciones.len() as int, id);
    lema_nada_comprometido(vista, vista.ordenes.len() as int, id);
    assert(vista.publicaciones.take(vista.publicaciones.len() as int) =~= vista.publicaciones);
    assert(vista.ordenes.take(vista.ordenes.len() as int) =~= vista.ordenes);
}

/// Making a listing moves units from stock into the reserve of the listing.
pub proof fn ley_inventario_tras_publicar(
    vista: MercadoVista,
    cuenta: Seq<u8>,
    pares: Seq<(u32, u32)>,
)
    requires
        vista.estructura_coherente(),
        vista.tras_publicar(cuenta, pares) is Ok,
    ensures
        forall|id: u32|
            existe(vista.productos.len(), id) ==> #[trigger] vista.tras_publicar(
                cuenta,
                pares,
            ).unwrap().inventario(id) == vista.inventario(id),
{
    let nueva = vista.tras_publicar(cuenta, pares).unwrap();
    lema_descontar_cantidades(vista.existencias, pares);
    assert forall|id: u32| existe(vista.productos.len(), id) implies #[trigger] nueva.inventario(
        id,
    ) == vista.inventario(id) by {
        lema_reservado_con_nueva(
            vista.publicaciones,
            nueva.publicaciones[vista.publicaciones.len() as int],
            id,
        );
        assert(nueva.publicaciones =~= vista.publicaciones.push(
            nueva.publicaciones[vista.publicaciones.len() as int],
        ));
        assert(nueva.existencias[id - 1] == vista.existencias[id - 1] - cantidad_total(pares, id));
    }
}

/// Placing an order commits the quantities of the listing to the order exactly
/// once: they come out of stock when the listing is restocked, and out of the
/// reserve of the listing when it becomes sold out.
pub proof fn ley_inventario_tras_ordenar(
    vista: MercadoVista,
    cuenta: Seq<u8>,
    id_publicacion: u32,
)
    requires
        vista.estructura_coherente(),
        vista.tras_ordenar(cuenta, id_publicacion) is Ok,
    ensures
        forall|id: u32|
            existe(vista.productos.len(), id) ==> #[trigger] vista.tras_ordenar(
                cuenta,
                id_publicacion,
            ).unwrap().inventario(id) == vista.inventario(id),
{
    let nueva = vista.tras_ordenar(cuenta, id_publicacion).unwrap();
    let publicacion = vista.publicaciones[id_publicacion as int];
    let orden = OrdenVista::nueva(vista.ordenes.len() as u32, publicacion, cuenta);
    assert(nueva.ordenes =~= vista.ordenes.push(orden));
    assert forall|id: u32| existe(vista.productos.len(), id) implies #[trigger] nueva.inventario(
        id,
    ) == vista.inventario(id) by {
        lema_comprometido_con_nueva(vista.ordenes, orden, id);
        if tras_descontar(vista.existencias, publicacion.productos) is Some {
            lema_descontar_cantidades(vista.existencias, publicacion.productos);
            assert(nueva.existencias[id - 1] == vista.existencias[id - 1] - cantidad_total(
                publicacion.productos,
                id,
            ));
        } else {
            lema_reservado_con_cambio(
                vista.publicaciones,
                id_publicacion as int,
                publicacion.con_disponible(false),
                id,
            );
        }
    }
}

/// Giving the goods of an order back moves its quantities into stock, or
/// into the reserve of the listing when that was sold out.
pub proof fn lema_inventario_tras_devolver(vista: MercadoVista, id_publicacion: u32, id: u32)
    requires
        vista.estructura_coherente(),
        vista.tras_devolver(id_publicacion) is Ok,
        existe(vista.productos.len(), id),
    ensures
        vista.tras_devolver(id_publicacion).unwrap().inventario(id) == vista.inventario(id)
            + cantidad_total(vista.publicaciones[id_publicacion as int].productos, id),
{
    let publicacion = vista.publicaciones[id_publicacion as int];
    if publicacion.disponible {
        lema_aumentar_cantidades(vista.existencias, publicacion.productos);
        assert(tras_aumentar(vista.existencias, publicacion.productos).unwrap()[id - 1]
            == vista.existencias[id - 1] + cantidad_total(publicacion.productos, id));
    } else {
        lema_reservado_con_cambio(
            vista.publicaciones,
            id_publicacion as int,
            publicacion.con_disponible(true),
            id,
        );
    }
}

/// A request to cancel moves no unit if it is the buyer's; the seller's
/// agreement releases the commitment of the order and gives its quantities
/// back to the stock or to the listing.
pub proof fn ley_inventario_tras_cancelar(vista: MercadoVista, cuenta: Seq<u8>, id_orden: u32)
    requires
        vista.estructura_coherente(),
        vista.tras_cancelar(cuenta, id_orden) is Ok,
    ensures
        forall|id: u32|
            existe(vista.productos.len(), id) ==> #[trigger] vista.tras_cancelar(
                cuenta,
                id_orden,
            ).unwrap().inventario(id) == vista.inventario(id),
{
    let nueva = vista.tras_cancelar(cuenta, id_orden).unwrap();
    let orden = vista.ordenes[id_orden as int];
    let rol = vista.usuario(cuenta).rol_en_compra(orden.info_publicacion.3, orden.id_comprador);
    assert forall|id: u32| existe(vista.productos.len(), id) implies #[trigger] nueva.inventario(
        id,
    ) == vista.inventario(id) by {
        if rol == Ok::<Rol, crate::error::ErrorMercado>(Rol::Comp) {
            lema_comprometido_con_cambio(
                vista.ordenes,
                id_orden as int,
                orden.cancelada_por_comprador(),
                id,
            );
        } else {
            let devuelto = vista.tras_devolver(orden.info_publicacion.0).unwrap();
            lema_inventario_tras_devolver(vista, orden.info_publicacion.0, id);
            lema_comprometido_con_cambio(
                vista.ordenes,
                id_orden as int,
                orden.cancelada_por_vendedor(),
                id,
            );
            assert(devuelto.ordenes == vista.ordenes);
            assert(nueva.existencias == devuelto.existencias);
            assert(nueva.publicaciones == devuelto.publicaciones);
        }
    }
}

/// Shipping an order moves no unit.
pub proof fn ley_inventario_tras_enviar(vista: MercadoVista, cuenta: Seq<u8>, id_orden: u32)
    requires
        vista.tras_enviar(cuenta, id_orden) is Ok,
    ensures
        forall|id: u32| #[trigger]
            vista.tras_enviar(cuenta, id_orden).unwrap().inventario(id) == vista.inventario(id),
{
    let orden = vista.ordenes[id_orden as int];
    assert forall|id: u32| #[trigger]
        vista.tras_enviar(cuenta, id_orden).unwrap().inventario(id) == vista.inventario(id) by {
        lema_comprometido_con_cambio(
            vista.ordenes,
            id_orden as int,
            orden.con_estado(EstadoCompra::Enviado),
            id,
        );
    }
}

/// Receiving an order moves no unit.
pub proof fn ley_inventario_tras_recibir(vista: MercadoVista, cuenta: Seq<u8>, id_orden: u32)
    requires
        vista.tras_recibir(cuenta, id_orden) is Ok,
    ensures
        forall|id: u32| #[trigger]
            vista.tras_recibir(cuenta, id_orden).unwrap().inventario(id) == vista.inventario(id),
{
    let orden = vista.ordenes[id_orden as int];
    assert forall|id: u32| #[trigger]
        vista.tras_recibir(cuenta, id_orden).unwrap().inventario(id) == vista.inventario(id) by {
        lema_comprometido_con_cambio(
            vista.ordenes,
            id_orden as int,
            orden.con_estado(EstadoCompra::Recibido),
            id,
        );
    }
}

/// Rating an order moves no unit.
pub proof fn ley_inventario_tras_calificar(
    vista: MercadoVista,
    cuenta: Seq<u8>,
    id_orden: u32,
    calificacion: u8,
)
    requires
        vista.tras_calificar_segun_rol(cuenta, id_orden, calificacion) is Ok,
    ensures
        forall|id: u32| #[trigger]
            vista.tras_calificar_segun_rol(cuenta, id_orden, calificacion).unwrap().inventario(id)
                == vista.inventario(id),
{
    let orden = vista.ordenes[id_orden as int];
    assert forall|id: u32| #[trigger]
        vista.tras_calificar_segun_rol(cuenta, id_orden, calificacion).unwrap().inventario(id)
            == vista.inventario(id) by {
        lema_comprometido_con_cambio(
            vista.ordenes,
            id_orden as int,
            orden.calificada_por_comprador(calificacion),
            id,
        );
        lema_comprometido_con_cambio(
            vista.ordenes,
            id_orden as int,
            orden.calificada_por_vendedor(),
            id,
        );
    }
}

} // verus!
