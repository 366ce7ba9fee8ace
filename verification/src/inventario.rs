//! Where the units of each product are: in stock, reserved by an available
//! listing, or committed to an order.

use vstd::prelude::*;
use crate::existencias::{
    aumentar_par, cantidad_total, descontar_par, existe, tras_aumentar, tras_descontar,
};
use crate::orden::{EstadoCompra, OrdenVista};
use crate::publicacion::PublicacionVista;

verus! {

/// The units of product `id` that `publicacion` holds in reserve: its
/// quantities while it is available, nothing once it is sold out.
pub open spec fn reserva_de(publicacion: PublicacionVista, id: u32) -> int {
    if publicacion.disponible {
        cantidad_total(publicacion.productos, id)
    } else {
        0
    }
}

/// The units of product `id` committed to `orden`: its quantities unless it
/// has been cancelled.
pub open spec fn compromiso_de(orden: OrdenVista, id: u32) -> int {
    if orden.estado != EstadoCompra::Cancelada {
        cantidad_total(orden.info_publicacion.1, id)
    } else {
        0
    }
}

/// The units of product `id` held in reserve by all listings together.
pub open spec fn reservado(publicaciones: Seq<PublicacionVista>, id: u32) -> int
    decreases publicaciones.len(),
{
    if publicaciones.len() == 0 {
        0
    } else {
        reservado(publicaciones.drop_last(), id) + reserva_de(publicaciones.last(), id)
    }
}

/// The units of product `id` committed to all orders together.
pub open spec fn comprometido(ordenes: Seq<OrdenVista>, id: u32) -> int
    decreases ordenes.len(),
{
    if ordenes.len() == 0 {
        0
    } else {
        comprometido(ordenes.drop_last(), id) + compromiso_de(ordenes.last(), id)
    }
}

/// A list of pairs asks for no negative quantity.
pub proof fn lema_cantidad_no_negativa(pares: Seq<(u32, u32)>, id: u32)
    ensures
        cantidad_total(pares, id) >= 0,
    decreases pares.len(),
{
    if pares.len() > 0 {
        lema_cantidad_no_negativa(pares.drop_last(), id);
    }
}

/// Pairs that name only the first `cuantos` products ask for nothing of any other.
pub proof fn lema_sin_cantidad(pares: Seq<(u32, u32)>, cuantos: nat, id: u32)
    requires
        forall|k: int| 0 <= k < pares.len() ==> existe(cuantos, (#[trigger] pares[k]).0),
        !existe(cuantos, id),
    ensures
        cantidad_total(pares, id) == 0,
    decreases pares.len(),
{
    if pares.len() > 0 {
        assert forall|k: int| 0 <= k < pares.drop_last().len() implies existe(
            cuantos,
            (#[trigger] pares.drop_last()[k]).0,
        ) by {
            assert(pares.drop_last()[k] == pares[k]);
        }
        lema_sin_cantidad(pares.drop_last(), cuantos, id);
        assert(existe(cuantos, pares[pares.len() - 1].0));
    }
}

/// A new listing adds its own reserve to the total.
pub proof fn lema_reservado_con_nueva(
    publicaciones: Seq<PublicacionVista>,
    nueva: PublicacionVista,
    id: u32,
)
    ensures
        reservado(publicaciones.push(nueva), id) == reservado(publicaciones, id) + reserva_de(
            nueva,
            id,
        ),
{
    assert(publicaciones.push(nueva).drop_last() =~= publicaciones);
}

/// Replacing a listing swaps its reserve in the total.
pub proof fn lema_reservado_con_cambio(
    publicaciones: Seq<PublicacionVista>,
    i: int,
    nueva: PublicacionVista,
    id: u32,
)
    requires
        0 <= i < publicaciones.len(),
    ensures
        reservado(publicaciones.update(i, nueva), id) == reservado(publicaciones, id) - reserva_de(
            publicaciones[i],
            id,
        ) + reserva_de(nueva, id),
    decreases publicaciones.len(),
{
    let cambiadas = publicaciones.update(i, nueva);
    if i == publicaciones.len() - 1 {
        assert(cambiadas.drop_last() =~= publicaciones.drop_last());
    } else {
        lema_reservado_con_cambio(publicaciones.drop_last(), i, nueva, id);
        assert(cambiadas.drop_last() =~= publicaciones.drop_last().update(i, nueva));
    }
}

/// No listing holds a negative reserve.
pub proof fn lema_reservado_no_negativo(publicaciones: Seq<PublicacionVista>, id: u32)
    ensures
        reservado(publicaciones, id) >= 0,
    decreases publicaciones.len(),
{
    if publicaciones.len() > 0 {
        lema_reservado_no_negativo(publicaciones.drop_last(), id);
        lema_cantidad_no_negativa(publicaciones.last().productos, id);
    }
}

/// A new order adds its own commitment to the total.
pub proof fn lema_comprometido_con_nueva(ordenes: Seq<OrdenVista>, nueva: OrdenVista, id: u32)
    ensures
        comprometido(ordenes.push(nueva), id) == comprometido(ordenes, id) + compromiso_de(
            nueva,
            id,
        ),
{
    assert(ordenes.push(nueva).drop_last() =~= ordenes);
}

/// Replacing an order swaps its commitment in the total.
pub proof fn lema_comprometido_con_cambio(
    ordenes: Seq<OrdenVista>,
    i: int,
    nueva: OrdenVista,
    id: u32,
)
    requires
        0 <= i < ordenes.len(),
    ensures
        comprometido(ordenes.update(i, nueva), id) == comprometido(ordenes, id) - compromiso_de(
            ordenes[i],
            id,
        ) + compromiso_de(nueva, id),
    decreases ordenes.len(),
{
    let cambiadas = ordenes.update(i, nueva);
    if i == ordenes.len() - 1 {
        assert(cambiadas.drop_last() =~= ordenes.drop_last());
    } else {
        lema_comprometido_con_cambio(ordenes.drop_last(), i, nueva, id);
        assert(cambiadas.drop_last() =~= ordenes.drop_last().update(i, nueva));
    }
}

/// No order holds a negative commitment.
pub proof fn lema_comprometido_no_negativo(ordenes: Seq<OrdenVista>, id: u32)
    ensures
        comprometido(ordenes, id) >= 0,
    decreases ordenes.len(),
{
    if ordenes.len() > 0 {
        lema_comprometido_no_negativo(ordenes.drop_last(), id);
        lema_cantidad_no_negativa(ordenes.last().info_publicacion.1, id);
    }
}

/// The commitment of one order is at most that of all orders together.
pub proof fn lema_compromiso_incluido(ordenes: Seq<OrdenVista>, i: int, id: u32)
    requires
        0 <= i < ordenes.len(),
    ensures
        compromiso_de(ordenes[i], id) <= comprometido(ordenes, id),
    decreases ordenes.len(),
{
    lema_cantidad_no_negativa(ordenes.last().info_publicacion.1, id);
    if i == ordenes.len() - 1 {
        lema_comprometido_no_negativo(ordenes.drop_last(), id);
    } else {
        lema_compromiso_incluido(ordenes.drop_last(), i, id);
    }
}

/// Taking pairs out of stock lowers each counter by what the pairs ask of
/// its product, and keeps the number of counters.
pub proof fn lema_descontar_cantidades(existencias: Seq<u32>, pares: Seq<(u32, u32)>)
    requires
        tras_descontar(existencias, pares) is Some,
    ensures
        tras_descontar(existencias, pares).unwrap().len() == existencias.len(),
        forall|id: u32|
            existe(existencias.len(), id) ==> tras_descontar(existencias, pares).unwrap()[id - 1]
                == existencias[id - 1] - #[trigger] cantidad_total(pares, id),
    decreases pares.len(),
{
    if pares.len() > 0 {
        lema_descontar_cantidades(existencias, pares.drop_last());
        let previas = tras_descontar(existencias, pares.drop_last()).unwrap();
        assert(descontar_par(previas, pares.last()) is Some);
        assert forall|id: u32| existe(existencias.len(), id) implies tras_descontar(
            existencias,
            pares,
        ).unwrap()[id - 1] == existencias[id - 1] - #[trigger] cantidad_total(pares, id) by {
            assert(previas[id - 1] == existencias[id - 1] - cantidad_total(
                pares.drop_last(),
                id,
            ));
        }
    }
}

/// Returning pairs to stock raises each counter by what the pairs ask of its
/// product, and keeps the number of counters.
pub proof fn lema_aumentar_cantidades(existencias: Seq<u32>, pares: Seq<(u32, u32)>)
    requires
        tras_aumentar(existencias, pares) is Ok,
    ensures
        tras_aumentar(existencias, pares).unwrap().len() == existencias.len(),
        forall|id: u32|
            existe(existencias.len(), id) ==> tras_aumentar(existencias, pares).unwrap()[id - 1]
                == existencias[id - 1] + #[trigger] cantidad_total(pares, id),
    decreases pares.len(),
{
    if pares.len() > 0 {
        lema_aumentar_cantidades(existencias, pares.drop_last());
        let previas = tras_aumentar(existencias, pares.drop_last()).unwrap();
        assert(aumentar_par(previas, pares.last()) is Ok);
        assert forall|id: u32| existe(existencias.len(), id) implies tras_aumentar(
            existencias,
            pares,
        ).unwrap()[id - 1] == existencias[id - 1] + #[trigger] cantidad_total(pares, id) by {
            assert(previas[id - 1] == existencias[id - 1] + cantidad_total(
                pares.drop_last(),
                id,
            ));
        }
    }
}

/// Pairs that name known products can be returned to stock whenever each
/// counter has room for all that the pairs ask of its product.
pub proof fn lema_aumentar_posible(existencias: Seq<u32>, pares: Seq<(u32, u32)>)
    requires
        forall|k: int| 0 <= k < pares.len() ==> existe(existencias.len(), (#[trigger] pares[k]).0),
        forall|id: u32|
            existe(existencias.len(), id) ==> existencias[id - 1] + #[trigger] cantidad_total(
                pares,
                id,
            ) <= u32::MAX,
    ensures
        tras_aumentar(existencias, pares) is Ok,
    decreases pares.len(),
{
    if pares.len() > 0 {
        let previos = pares.drop_last();
        let ultimo = pares.last();
        assert forall|k: int| 0 <= k < previos.len() implies existe(
            existencias.len(),
            (#[trigger] previos[k]).0,
        ) by {
            assert(previos[k] == pares[k]);
        }
        assert forall|id: u32| existe(existencias.len(), id) implies existencias[id - 1]
            + #[trigger] cantidad_total(previos, id) <= u32::MAX by {
            assert(existencias[id - 1] + cantidad_total(pares, id) <= u32::MAX);
        }
        lema_aumentar_posible(existencias, previos);
        lema_aumentar_cantidades(existencias, previos);
        assert(existe(existencias.len(), pares[pares.len() - 1].0));
        let previas = tras_aumentar(existencias, previos).unwrap();
        assert(previas[ultimo.0 - 1] == existencias[ultimo.0 - 1] + cantidad_total(
            previos,
            ultimo.0,
        ));
        assert(existencias[ultimo.0 - 1] + cantidad_total(pares, ultimo.0) <= u32::MAX);
        assert(cantidad_total(pares, ultimo.0) == cantidad_total(previos, ultimo.0) + ultimo.1);
        assert(aumentar_par(previas, ultimo) is Ok);
    }
}

/// Pairs can be taken out of stock exactly when no counter is asked for more
/// than it holds, all pairs of its product taken together.
pub proof fn ley_descontar_posible(existencias: Seq<u32>, pares: Seq<(u32, u32)>)
    ensures
        tras_descontar(existencias, pares) is Some <==> (forall|id: u32|
            existe(existencias.len(), id) ==> #[trigger] cantidad_total(pares, id)
                <= existencias[id - 1]),
    decreases pares.len(),
{
    if pares.len() > 0 {
        let previos = pares.drop_last();
        let ultimo = pares.last();
        ley_descontar_posible(existencias, previos);
        lema_cantidad_no_negativa(previos, ultimo.0);
        if tras_descontar(existencias, pares) is Some {
            lema_descontar_cantidades(existencias, pares);
            assert forall|id: u32| existe(existencias.len(), id) implies #[trigger] cantidad_total(
                pares,
                id,
            ) <= existencias[id - 1] by {
                assert(tras_descontar(existencias, pares).unwrap()[id - 1] == existencias[id - 1]
                    - cantidad_total(pares, id));
            }
        }
        if forall|id: u32|
            existe(existencias.len(), id) ==> #[trigger] cantidad_total(pares, id)
                <= existencias[id - 1] {
            assert forall|id: u32| existe(existencias.len(), id) implies #[trigger] cantidad_total(
                previos,
                id,
            ) <= existencias[id - 1] by {
                assert(cantidad_total(pares, id) <= existencias[id - 1]);
            }
            lema_descontar_cantidades(existencias, previos);
            let previas = tras_descontar(existencias, previos).unwrap();
            if existe(existencias.len(), ultimo.0) {
                assert(previas[ultimo.0 - 1] == existencias[ultimo.0 - 1] - cantidad_total(
                    previos,
                    ultimo.0,
                ));
                assert(cantidad_total(pares, ultimo.0) <= existencias[ultimo.0 - 1]);
            }
            assert(descontar_par(previas, ultimo) is Some);
        }
    }
}

/// Whether no product is named by two of the pairs.
pub open spec fn sin_producto_repetido(pares: Seq<(u32, u32)>) -> bool {
    forall|i: int, j: int|
        0 <= i < j < pares.len() ==> (#[trigger] pares[i]).0 != (#[trigger] pares[j]).0
}

/// Whether one of the pairs names product `id`.
pub open spec fn nombra(pares: Seq<(u32, u32)>, id: u32) -> bool {
    exists|k: int| 0 <= k < pares.len() && (#[trigger] pares[k]).0 == id
}

/// The pairs ask of the product of each of them at least the quantity of that pair.
pub proof fn lema_cantidad_incluye(pares: Seq<(u32, u32)>, k: int)
    requires
        0 <= k < pares.len(),
    ensures
        cantidad_total(pares, pares[k].0) >= pares[k].1,
    decreases pares.len(),
{
    lema_cantidad_no_negativa(pares.drop_last(), pares[k].0);
    if k < pares.len() - 1 {
        lema_cantidad_incluye(pares.drop_last(), k);
    }
}

/// The pairs ask nothing of a product that none of them names.
pub proof fn lema_cantidad_ausente(pares: Seq<(u32, u32)>, id: u32)
    requires
        !nombra(pares, id),
    ensures
        cantidad_total(pares, id) == 0,
    decreases pares.len(),
{
    if pares.len() > 0 {
        assert(pares[pares.len() - 1].0 != id);
        assert forall|k: int| 0 <= k < pares.drop_last().len() implies (
        #[trigger] pares.drop_last()[k]).0 != id by {
            assert(pares[k].0 != id);
        }
        lema_cantidad_ausente(pares.drop_last(), id);
    }
}

/// Pairs that name no product twice ask of the product of each of them
/// exactly the quantity of that pair.
pub proof fn lema_cantidad_sin_repetir(pares: Seq<(u32, u32)>, k: int)
    requires
        sin_producto_repetido(pares),
        0 <= k < pares.len(),
    ensures
        cantidad_total(pares, pares[k].0) == pares[k].1,
    decreases pares.len(),
{
    let previos = pares.drop_last();
    assert forall|i: int, j: int| 0 <= i < j < previos.len() implies (#[trigger] previos[i]).0 != (
    #[trigger] previos[j]).0 by {
        assert(pares[i].0 != pares[j].0);
    }
    if k < pares.len() - 1 {
        assert(pares[k].0 != pares[pares.len() - 1].0);
        lema_cantidad_sin_repetir(previos, k);
    } else {
        assert forall|i: int| 0 <= i < previos.len() implies (#[trigger] previos[i]).0
            != pares[k].0 by {
            assert(pares[i].0 != pares[k].0);
        }
        lema_cantidad_ausente(previos, pares[k].0);
    }
}

} // verus!
