//! What always holds of the operations of the marketplace.

use vstd::prelude::*;
use crate::error::ErrorMercado;
use crate::estado::MercadoVista;
use crate::existencias::{cantidad_total, existe, tras_descontar};
use crate::inventario::{
    comprometido, lema_aumentar_cantidades, lema_aumentar_posible, lema_cantidad_ausente,
    lema_cantidad_incluye, lema_cantidad_sin_repetir, lema_comprometido_con_nueva,
    lema_compromiso_incluido, lema_descontar_cantidades, lema_reservado_no_negativo,
    ley_descontar_posible, nombra, reservado, sin_producto_repetido,
};
use crate::orden::{EstadoCompra, OrdenVista};
use crate::conservacion::ley_inventario_tras_ordenar;
use crate::invariante::{
    lema_partes_de_orden, lema_perfil_comprador, lema_perfil_vendedor,
    ley_bien_formado_tras_cancelar,
};
use crate::producto::ProductoVista;
use crate::rol::Rol;
use crate::usuario::UsuarioVista;

verus! {

/// Once an account is registered, registering it again fails with
/// `UsuarioYaRegistrado`, whatever name, address, e-mail or role is given.
pub proof fn ley_registro_repetido(
    vista: MercadoVista,
    cuenta: Seq<u8>,
    primero: UsuarioVista,
    segundo: UsuarioVista,
)
    requires
        vista.tras_registrar(
            cuenta,
            primero.nombre,
            primero.apellido,
            primero.direccion,
            primero.email,
            primero.rol,
        ) is Ok,
    ensures
        vista.tras_registrar(
            cuenta,
            primero.nombre,
            primero.apellido,
            primero.direccion,
            primero.email,
            primero.rol,
        ).unwrap().tras_registrar(
            cuenta,
            segundo.nombre,
            segundo.apellido,
            segundo.direccion,
            segundo.email,
            segundo.rol,
        ) == Err::<MercadoVista, ErrorMercado>(ErrorMercado::UsuarioYaRegistrado),
        forall|otra: Seq<u8>|
            vista.registrado(otra) ==> #[trigger] vista.tras_registrar(
                cuenta,
                primero.nombre,
                primero.apellido,
                primero.direccion,
                primero.email,
                primero.rol,
            ).unwrap().registrado(otra),
{
    let nueva = vista.tras_registrar(
        cuenta,
        primero.nombre,
        primero.apellido,
        primero.direccion,
        primero.email,
        primero.rol,
    ).unwrap();
    assert(nueva.usuarios[vista.usuarios.len() as int].id_usuario == cuenta);
    assert forall|otra: Seq<u8>| vista.registrado(otra) implies nueva.registrado(otra) by {
        let i = vista.indice(otra);
        assert(nueva.usuarios[i].id_usuario == otra);
    }
}

/// A product loaded by a user who sells, with a price and a stock above zero,
/// is stored under the next identifier with exactly the fields and the stock
/// submitted, and is the latest of its seller's own products. Nothing else in
/// the marketplace moves: every other product keeps its fields and its stock.
/// The one limit is the width of the identifiers.
pub proof fn ley_producto_recuperable(
    vista: MercadoVista,
    cuenta: Seq<u8>,
    nombre: Seq<char>,
    descripcion: Seq<char>,
    precio: u32,
    categoria: Seq<char>,
    stock: u32,
)
    requires
        vista.bien_formado(),
        vista.registrado(cuenta),
        vista.usuario(cuenta).rol.vende(),
        precio > 0,
        stock > 0,
        vista.productos.len() < u32::MAX,
    ensures
        vista.tras_cargar_producto(cuenta, nombre, descripcion, precio, categoria, stock) is Ok,
        ({
            let nueva = vista.tras_cargar_producto(
                cuenta,
                nombre,
                descripcion,
                precio,
                categoria,
                stock,
            ).unwrap();
            let id = (vista.productos.len() + 1) as u32;
            &&& existe(nueva.productos.len(), id)
            &&& nueva.productos[id - 1] == (ProductoVista {
                id,
                nombre,
                descripcion,
                precio,
                categoria,
            })
            &&& nueva.existencias[id - 1] == stock
            &&& nueva.productos.len() == id
            &&& forall|k: int|
                0 <= k < vista.productos.len() ==> #[trigger] nueva.productos[k]
                    == vista.productos[k] && nueva.existencias[k] == vista.existencias[k]
            &&& nueva.registrado(cuenta)
            &&& nueva.usuario(cuenta).datos_vendedor.unwrap().productos == vista.usuario(
                cuenta,
            ).datos_vendedor.unwrap().productos.push(id)
            &&& nueva.productos_propios(cuenta) is Ok
            &&& nueva.productos_propios(cuenta).unwrap().last() == (id, stock)
        }),
{
    let nueva = vista.tras_cargar_producto(
        cuenta,
        nombre,
        descripcion,
        precio,
        categoria,
        stock,
    ).unwrap();
    let i = vista.indice(cuenta);
    assert(vista.usuarios[i].bien_formado());
    assert forall|a: int, b: int| 0 <= a < b < nueva.usuarios.len() implies (
    #[trigger] nueva.usuarios[a]).id_usuario != (#[trigger] nueva.usuarios[b]).id_usuario by {
        assert(vista.usuarios[a].id_usuario != vista.usuarios[b].id_usuario);
    }
    assert(nueva.usuarios[i].id_usuario == cuenta);
    let j = nueva.indice(cuenta);
    if j < i {
        assert(nueva.usuarios[j].id_usuario != nueva.usuarios[i].id_usuario);
    }
    if i < j {
        assert(nueva.usuarios[i].id_usuario != nueva.usuarios[j].id_usuario);
    }
}

/// A successful order commits the quantities of its listing exactly once.
/// The order holds those quantities. If the listing is still available
/// afterwards, exactly those quantities have left the stock, to restock the
/// listing; if it is not, the stock is untouched and the order has taken over
/// what the listing had in reserve. Either way stock and reserves together
/// have gone down by the quantities of the listing, and the commitments of
/// orders have gone up by the same.
pub proof fn ley_orden_descuenta_una_vez(
    vista: MercadoVista,
    cuenta: Seq<u8>,
    id_publicacion: u32,
)
    requires
        vista.bien_formado(),
        vista.tras_ordenar(cuenta, id_publicacion) is Ok,
    ensures
        ({
            let nueva = vista.tras_ordenar(cuenta, id_publicacion).unwrap();
            let pares = vista.publicaciones[id_publicacion as int].productos;
            &&& nueva.ordenes.len() == vista.ordenes.len() + 1
            &&& nueva.ordenes.last().info_publicacion.1 == pares
            &&& nueva.ordenes.last().estado == EstadoCompra::Pendiente
            &&& forall|id: u32|
                existe(vista.productos.len(), id) ==> {
                    &&& comprometido(nueva.ordenes, id) == comprometido(vista.ordenes, id)
                        + #[trigger] cantidad_total(pares, id)
                    &&& nueva.existencias[id - 1] + reservado(nueva.publicaciones, id)
                        == vista.existencias[id - 1] + reservado(vista.publicaciones, id)
                        - cantidad_total(pares, id)
                    &&& nueva.existencias[id - 1] == if nueva.publicaciones[id_publicacion
                        as int].disponible {
                        vista.existencias[id - 1] - cantidad_total(pares, id)
                    } else {
                        vista.existencias[id - 1] as int
                    }
                }
        }),
{
    let nueva = vista.tras_ordenar(cuenta, id_publicacion).unwrap();
    let publicacion = vista.publicaciones[id_publicacion as int];
    let pares = publicacion.productos;
    let orden = OrdenVista::nueva(vista.ordenes.len() as u32, publicacion, cuenta);
    assert(nueva.ordenes =~= vista.ordenes.push(orden));
    ley_inventario_tras_ordenar(vista, cuenta, id_publicacion);
    if tras_descontar(vista.existencias, pares) is Some {
        lema_descontar_cantidades(vista.existencias, pares);
    }
    assert forall|id: u32| existe(vista.productos.len(), id) implies {
        &&& comprometido(nueva.ordenes, id) == comprometido(vista.ordenes, id)
            + #[trigger] cantidad_total(pares, id)
        &&& nueva.existencias[id - 1] + reservado(nueva.publicaciones, id)
            == vista.existencias[id - 1] + reservado(vista.publicaciones, id) - cantidad_total(
            pares,
            id,
        )
        &&& nueva.existencias[id - 1] == if nueva.publicaciones[id_publicacion as int].disponible {
            vista.existencias[id - 1] - cantidad_total(pares, id)
        } else {
            vista.existencias[id - 1] as int
        }
    } by {
        lema_comprometido_con_nueva(vista.ordenes, orden, id);
        assert(nueva.inventario(id) == vista.inventario(id));
    }
}

/// Whether `cuenta` may order listing `id_publicacion`: the listing exists and
/// is available, its seller still sells and is someone else, the account is
/// registered and buys, and the history of orders has room for one more.
pub open spec fn puede_ordenar(vista: MercadoVista, cuenta: Seq<u8>, id_publicacion: u32) -> bool {
    &&& id_publicacion < vista.publicaciones.len()
    &&& vista.publicaciones[id_publicacion as int].disponible
    &&& vista.registrado(cuenta)
    &&& cuenta != vista.publicaciones[id_publicacion as int].id_vendedor
    &&& vista.usuario(vista.publicaciones[id_publicacion as int].id_vendedor).rol.vende()
    &&& vista.usuario(cuenta).rol.compra()
    &&& vista.ordenes.len() < u32::MAX
}

/// An order that may be placed succeeds: the buyer gets a pending order that
/// holds the listing as it stands, under the next identifier, and every
/// order placed before is as it was.
pub proof fn ley_orden_aceptada(vista: MercadoVista, cuenta: Seq<u8>, id_publicacion: u32)
    requires
        vista.bien_formado(),
        puede_ordenar(vista, cuenta, id_publicacion),
    ensures
        vista.tras_ordenar(cuenta, id_publicacion) is Ok,
        ({
            let nueva = vista.tras_ordenar(cuenta, id_publicacion).unwrap();
            &&& nueva.ordenes == vista.ordenes.push(
                OrdenVista::nueva(
                    vista.ordenes.len() as u32,
                    vista.publicaciones[id_publicacion as int],
                    cuenta,
                ),
            )
            &&& nueva.productos == vista.productos
        }),
{
}

/// When the stock covers each pair of a listing that names no product twice,
/// an order that may be placed restocks the listing: the stock of the product
/// of each pair goes down by the quantity of that pair, once; the stock of
/// every other product stays; and every listing, this one included, is as it
/// was and so still available.
pub proof fn ley_orden_con_stock(vista: MercadoVista, cuenta: Seq<u8>, id_publicacion: u32)
    requires
        vista.bien_formado(),
        puede_ordenar(vista, cuenta, id_publicacion),
        sin_producto_repetido(vista.publicaciones[id_publicacion as int].productos),
        forall|k: int|
            0 <= k < vista.publicaciones[id_publicacion as int].productos.len()
                ==> vista.existencias[(
            #[trigger] vista.publicaciones[id_publicacion as int].productos[k]).0 - 1]
                >= vista.publicaciones[id_publicacion as int].productos[k].1,
    ensures
        vista.tras_ordenar(cuenta, id_publicacion) is Ok,
        ({
            let nueva = vista.tras_ordenar(cuenta, id_publicacion).unwrap();
            let pares = vista.publicaciones[id_publicacion as int].productos;
            &&& nueva.publicaciones == vista.publicaciones
            &&& nueva.existencias.len() == vista.existencias.len()
            &&& forall|k: int|
                0 <= k < pares.len() ==> nueva.existencias[(#[trigger] pares[k]).0 - 1]
                    == vista.existencias[pares[k].0 - 1] - pares[k].1
            &&& forall|id: u32|
                existe(vista.productos.len(), id) && !nombra(pares, id)
                    ==> #[trigger] nueva.existencias[id - 1] == vista.existencias[id - 1]
        }),
{
    let pares = vista.publicaciones[id_publicacion as int].productos;
    assert(vista.productos_conocidos(pares));
    ley_descontar_posible(vista.existencias, pares);
    assert forall|id: u32| existe(vista.existencias.len(), id) implies #[trigger] cantidad_total(
        pares,
        id,
    ) <= vista.existencias[id - 1] by {
        if nombra(pares, id) {
            let k = choose|k: int| 0 <= k < pares.len() && (#[trigger] pares[k]).0 == id;
            lema_cantidad_sin_repetir(pares, k);
        } else {
            lema_cantidad_ausente(pares, id);
        }
    }
    lema_descontar_cantidades(vista.existencias, pares);
    let nueva = vista.tras_ordenar(cuenta, id_publicacion).unwrap();
    assert forall|k: int| 0 <= k < pares.len() implies nueva.existencias[(
    #[trigger] pares[k]).0 - 1] == vista.existencias[pares[k].0 - 1] - pares[k].1 by {
        lema_cantidad_sin_repetir(pares, k);
        assert(existe(vista.existencias.len(), pares[k].0));
        assert(nueva.existencias[pares[k].0 - 1] == vista.existencias[pares[k].0 - 1]
            - cantidad_total(pares, pares[k].0));
    }
    assert forall|id: u32|
        existe(vista.productos.len(), id) && !nombra(pares, id)
        implies #[trigger] nueva.existencias[id - 1] == vista.existencias[id - 1] by {
        lema_cantidad_ausente(pares, id);
        assert(nueva.existencias[id - 1] == vista.existencias[id - 1] - cantidad_total(pares, id));
    }
}

/// When the stock does not cover some pair of a listing, an order that may be
/// placed takes over what the listing had in reserve: no stock counter
/// moves, and the listing becomes unavailable and is otherwise as it was, as
/// is every other listing.
pub proof fn ley_orden_sin_stock(vista: MercadoVista, cuenta: Seq<u8>, id_publicacion: u32)
    requires
        vista.bien_formado(),
        puede_ordenar(vista, cuenta, id_publicacion),
        exists|k: int|
            0 <= k < vista.publicaciones[id_publicacion as int].productos.len()
                && vista.existencias[(
            #[trigger] vista.publicaciones[id_publicacion as int].productos[k]).0 - 1]
                < vista.publicaciones[id_publicacion as int].productos[k].1,
    ensures
        vista.tras_ordenar(cuenta, id_publicacion) is Ok,
        ({
            let nueva = vista.tras_ordenar(cuenta, id_publicacion).unwrap();
            let publicacion = vista.publicaciones[id_publicacion as int];
            &&& nueva.existencias == vista.existencias
            &&& nueva.publicaciones == vista.publicaciones.update(
                id_publicacion as int,
                publicacion.con_disponible(false),
            )
            &&& nueva.publicaciones[id_publicacion as int].productos == publicacion.productos
            &&& nueva.publicaciones[id_publicacion as int].precio_final
                == publicacion.precio_final
        }),
{
    let pares = vista.publicaciones[id_publicacion as int].productos;
    let k = choose|k: int|
        0 <= k < pares.len() && vista.existencias[(#[trigger] pares[k]).0 - 1] < pares[k].1;
    assert(vista.productos_conocidos(pares));
    assert(existe(vista.existencias.len(), pares[k].0));
    lema_cantidad_incluye(pares, k);
    ley_descontar_posible(vista.existencias, pares);
    assert(cantidad_total(pares, pares[k].0) > vista.existencias[pares[k].0 - 1]);
}

/// The buyer of a pending order, while it still buys, can ask to cancel it
/// once. The request alone cancels nothing: the order stays pending with the
/// request noted and is otherwise as it was, and every other order, every
/// listing, every stock counter and every user is as it was.
pub proof fn ley_cancelacion_del_comprador(vista: MercadoVista, id_orden: u32)
    requires
        vista.bien_formado(),
        id_orden < vista.ordenes.len(),
        vista.ordenes[id_orden as int].estado == EstadoCompra::Pendiente,
        !vista.ordenes[id_orden as int].cancelacion.1,
        vista.usuario(vista.ordenes[id_orden as int].id_comprador).rol.compra(),
    ensures
        vista.tras_cancelar(vista.ordenes[id_orden as int].id_comprador, id_orden) is Ok,
        ({
            let orden = vista.ordenes[id_orden as int];
            let nueva = vista.tras_cancelar(orden.id_comprador, id_orden).unwrap();
            &&& nueva.ordenes == vista.ordenes.update(
                id_orden as int,
                OrdenVista { cancelacion: (orden.cancelacion.0, true), ..orden },
            )
            &&& nueva.ordenes[id_orden as int].estado == EstadoCompra::Pendiente
            &&& nueva.existencias == vista.existencias
            &&& nueva.publicaciones == vista.publicaciones
            &&& nueva.productos == vista.productos
            &&& nueva.usuarios == vista.usuarios
        }),
{
    lema_partes_de_orden(vista, id_orden);
    let orden = vista.ordenes[id_orden as int];
    let i = vista.indice(orden.id_comprador);
    assert(vista.usuarios[i].bien_formado());
}

/// Once the buyer has asked, the seller of the order, while it still sells,
/// cancels it by asking too. This cannot fail. The order is cancelled and is
/// otherwise as it was, and so is every other order. The goods go back: if
/// the listing is available, the quantities of the order return to the
/// stock and the listings stay as they were; if the listing was sold out, it
/// becomes available again and the stock is left alone.
pub proof fn ley_cancelacion_del_vendedor(vista: MercadoVista, id_orden: u32)
    requires
        vista.bien_formado(),
        id_orden < vista.ordenes.len(),
        vista.ordenes[id_orden as int].estado == EstadoCompra::Pendiente,
        vista.ordenes[id_orden as int].cancelacion == (false, true),
        vista.usuario(vista.ordenes[id_orden as int].info_publicacion.3).rol.vende(),
    ensures
        vista.tras_cancelar(vista.ordenes[id_orden as int].info_publicacion.3, id_orden) is Ok,
        ({
            let orden = vista.ordenes[id_orden as int];
            let nueva = vista.tras_cancelar(orden.info_publicacion.3, id_orden).unwrap();
            let id_publicacion = orden.info_publicacion.0 as int;
            &&& nueva.ordenes == vista.ordenes.update(
                id_orden as int,
                OrdenVista {
                    cancelacion: (true, true),
                    estado: EstadoCompra::Cancelada,
                    ..orden
                },
            )
            &&& nueva.usuarios == vista.usuarios
            &&& nueva.productos == vista.productos
            &&& nueva.publicaciones[id_publicacion].disponible
            &&& if vista.publicaciones[id_publicacion].disponible {
                &&& nueva.publicaciones == vista.publicaciones
                &&& nueva.existencias.len() == vista.existencias.len()
                &&& forall|id: u32|
                    existe(vista.productos.len(), id) ==> nueva.existencias[id - 1]
                        == vista.existencias[id - 1] + #[trigger] cantidad_total(
                        orden.info_publicacion.1,
                        id,
                    )
            } else {
                &&& nueva.existencias == vista.existencias
                &&& nueva.publicaciones == vista.publicaciones.update(
                    id_publicacion,
                    vista.publicaciones[id_publicacion].con_disponible(true),
                )
            }
        }),
{
    lema_partes_de_orden(vista, id_orden);
    let orden = vista.ordenes[id_orden as int];
    let publicacion = vista.publicaciones[orden.info_publicacion.0 as int];
    let i = vista.indice(orden.info_publicacion.3);
    assert(vista.usuarios[i].bien_formado());
    assert(vista.productos_conocidos(publicacion.productos));
    if publicacion.disponible {
        assert forall|id: u32| existe(vista.existencias.len(), id) implies vista.existencias[id
            - 1] + #[trigger] cantidad_total(publicacion.productos, id) <= u32::MAX by {
            assert(vista.inventario(id) <= u32::MAX);
            lema_reservado_no_negativo(vista.publicaciones, id);
            lema_compromiso_incluido(vista.ordenes, id_orden as int, id);
        }
        lema_aumentar_posible(vista.existencias, publicacion.productos);
        lema_aumentar_cantidades(vista.existencias, publicacion.productos);
    }
}

/// Cancelling takes both parties, the buyer first. From a pending order that
/// nobody has asked to cancel, whose buyer still buys and whose seller still
/// sells: the seller's request alone is refused; the buyer's request succeeds
/// and leaves the order pending; the seller's request that follows succeeds
/// too, cancels the order and leaves its listing available, with the goods
/// back in the stock or in the listing.
pub proof fn ley_cancelacion_en_dos_pasos(vista: MercadoVista, id_orden: u32)
    requires
        vista.bien_formado(),
        id_orden < vista.ordenes.len(),
        vista.ordenes[id_orden as int].estado == EstadoCompra::Pendiente,
        vista.ordenes[id_orden as int].cancelacion == (false, false),
        vista.usuario(vista.ordenes[id_orden as int].id_comprador).rol.compra(),
        vista.usuario(vista.ordenes[id_orden as int].info_publicacion.3).rol.vende(),
    ensures
        ({
            let comprador = vista.ordenes[id_orden as int].id_comprador;
            let vendedor = vista.ordenes[id_orden as int].info_publicacion.3;
            let id_publicacion = vista.ordenes[id_orden as int].info_publicacion.0 as int;
            let pedida = vista.tras_cancelar(comprador, id_orden).unwrap();
            &&& vista.tras_cancelar(vendedor, id_orden) == Err::<MercadoVista, ErrorMercado>(
                ErrorMercado::CompradorNoConsintio,
            )
            &&& vista.tras_cancelar(comprador, id_orden) is Ok
            &&& pedida.bien_formado()
            &&& pedida.ordenes[id_orden as int].estado == EstadoCompra::Pendiente
            &&& pedida.tras_cancelar(vendedor, id_orden) is Ok
            &&& pedida.tras_cancelar(vendedor, id_orden).unwrap().ordenes[id_orden as int].estado
                == EstadoCompra::Cancelada
            &&& pedida.tras_cancelar(
                vendedor,
                id_orden,
            ).unwrap().publicaciones[id_publicacion].disponible
        }),
{
    let comprador = vista.ordenes[id_orden as int].id_comprador;
    let vendedor = vista.ordenes[id_orden as int].info_publicacion.3;
    lema_partes_de_orden(vista, id_orden);
    assert(vista.usuarios[vista.indice(vendedor)].bien_formado());
    ley_cancelacion_del_comprador(vista, id_orden);
    let pedida = vista.tras_cancelar(comprador, id_orden).unwrap();
    ley_bien_formado_tras_cancelar(vista, comprador, id_orden);
    ley_cancelacion_del_vendedor(pedida, id_orden);
}

/// Each party rates an order once: after a rating has been accepted, a second
/// rating of the same order by the same account fails with `YaCalifico`,
/// whatever valid score it carries.
pub proof fn ley_calificacion_unica(
    vista: MercadoVista,
    cuenta: Seq<u8>,
    id_orden: u32,
    primera: u8,
    segunda: u8,
)
    requires
        vista.bien_formado(),
        vista.tras_calificar(cuenta, id_orden, primera) is Ok,
        1 <= segunda <= 5,
    ensures
        vista.tras_calificar(cuenta, id_orden, primera).unwrap().tras_calificar(
            cuenta,
            id_orden,
            segunda,
        ) == Err::<MercadoVista, ErrorMercado>(ErrorMercado::YaCalifico),
{
    let nueva = vista.tras_calificar(cuenta, id_orden, primera).unwrap();
    let orden = vista.ordenes[id_orden as int];
    let vendedor = orden.info_publicacion.3;
    let comprador = orden.id_comprador;
    let i = vista.indice(cuenta);
    let rol = vista.usuario(cuenta).rol_en_compra(vendedor, comprador);
    let calificado = if rol == Ok::<Rol, ErrorMercado>(Rol::Comp) {
        vendedor
    } else {
        comprador
    };
    let k = vista.indice(calificado);
    assert(vista.tiene_perfil_comprador(comprador));
    assert(vista.tiene_perfil_vendedor(
        vista.publicaciones[orden.info_publicacion.0 as int].id_vendedor,
    ));
    lema_perfil_vendedor(vista, vendedor);
    lema_perfil_comprador(vista, comprador);
    assert(0 <= k < vista.usuarios.len() && vista.usuarios[k].id_usuario == calificado);
    assert forall|a: int, b: int| 0 <= a < b < nueva.usuarios.len() implies (
    #[trigger] nueva.usuarios[a]).id_usuario != (#[trigger] nueva.usuarios[b]).id_usuario by {
        assert(vista.usuarios[a].id_usuario != vista.usuarios[b].id_usuario);
    }
    assert(nueva.usuarios[i].id_usuario == cuenta);
    let j = nueva.indice(cuenta);
    if j < i {
        assert(nueva.usuarios[j].id_usuario != nueva.usuarios[i].id_usuario);
    }
    if i < j {
        assert(nueva.usuarios[i].id_usuario != nueva.usuarios[j].id_usuario);
    }
    assert(nueva.usuario(cuenta).rol_en_compra(vendedor, comprador) == rol);
}

/// A score outside 1..=5 is refused before anything else is looked at.
pub proof fn ley_calificacion_en_rango(
    vista: MercadoVista,
    cuenta: Seq<u8>,
    id_orden: u32,
    calificacion: u8,
)
    requires
        calificacion < 1 || calificacion > 5,
    ensures
        vista.tras_calificar(cuenta, id_orden, calificacion) == Err::<MercadoVista, ErrorMercado>(
            ErrorMercado::CalificacionInvalida,
        ),
{
}

} // verus!
