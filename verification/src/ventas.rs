//! What the tally of products sold adds up to.

use vstd::prelude::*;
use crate::existencias::cantidad_total;
use crate::inventario::{lema_cantidad_no_negativa, nombra};
use crate::orden::OrdenVista;
use crate::ranking::{antes, ley_ranking_existe, ranking};
use crate::segundo_contrato::{
    acumular, acumular_ordenes, acumular_par, cantidades_de, contiene_producto, es_venta,
    lugar_de_producto, mas_vendidos, ordenados_por_cantidad,
};

verus! {

/// Whether no product has two entries in the tally.
pub open spec fn sin_repetidos(contador: Seq<(u32, u32)>) -> bool {
    forall|i: int, j: int|
        0 <= i < j < contador.len() ==> (#[trigger] contador[i]).0 != (#[trigger] contador[j]).0
}

/// The quantity the tally holds for product `id`; 0 when it has no entry.
pub open spec fn vendido_en(contador: Seq<(u32, u32)>, id: u32) -> int {
    if contiene_producto(contador, id) {
        contador[lugar_de_producto(contador, id)].1 as int
    } else {
        0
    }
}

/// What all the orders ask of product `id`, taken together.
pub open spec fn pedido_en(ordenes: Seq<OrdenVista>, id: u32) -> int
    decreases ordenes.len(),
{
    if ordenes.len() == 0 {
        0
    } else {
        pedido_en(ordenes.drop_last(), id) + cantidad_total(ordenes.last().info_publicacion.1, id)
    }
}

/// A tally that has an entry for a product at place `k` has a first entry
/// for it, at `k` or before.
pub proof fn lema_primer_lugar(contador: Seq<(u32, u32)>, id: u32, k: int)
    requires
        0 <= k < contador.len(),
        contador[k].0 == id,
    ensures
        contiene_producto(contador, id),
        0 <= lugar_de_producto(contador, id) <= k,
        contador[lugar_de_producto(contador, id)].0 == id,
    decreases k,
{
    if exists|j: int| 0 <= j < k && (#[trigger] contador[j]).0 == id {
        let j = choose|j: int| 0 <= j < k && (#[trigger] contador[j]).0 == id;
        lema_primer_lugar(contador, id, j);
    } else {
        assert(forall|j: int| 0 <= j < k ==> (#[trigger] contador[j]).0 != id);
        let elegido = lugar_de_producto(contador, id);
        if elegido > k {
            assert(contador[k].0 != id);
        }
    }
}

/// In a tally without repeated products, the entry of a product is where the
/// product is found.
pub proof fn lema_lugar_unico(contador: Seq<(u32, u32)>, k: int)
    requires
        sin_repetidos(contador),
        0 <= k < contador.len(),
    ensures
        contiene_producto(contador, contador[k].0),
        lugar_de_producto(contador, contador[k].0) == k,
{
    lema_primer_lugar(contador, contador[k].0, k);
    let lugar = lugar_de_producto(contador, contador[k].0);
    if lugar < k {
        assert(contador[lugar].0 != contador[k].0);
    }
}

/// Counting one pair keeps the tally free of repeated products, adds the
/// quantity of the pair to its product and leaves every other product alone.
pub proof fn lema_acumular_par(contador: Seq<(u32, u32)>, par: (u32, u32), id: u32)
    requires
        sin_repetidos(contador),
        acumular_par(contador, par) is Ok,
    ensures
        sin_repetidos(acumular_par(contador, par).unwrap()),
        vendido_en(acumular_par(contador, par).unwrap(), id) == vendido_en(contador, id) + if par.0
            == id {
            par.1 as int
        } else {
            0
        },
{
    let nuevo = acumular_par(contador, par).unwrap();
    if contiene_producto(contador, par.0) {
        let k = choose|k: int| 0 <= k < contador.len() && (#[trigger] contador[k]).0 == par.0;
        lema_lugar_unico(contador, k);
        assert forall|i: int, j: int| 0 <= i < j < nuevo.len() implies (#[trigger] nuevo[i]).0 != (
        #[trigger] nuevo[j]).0 by {
            assert(contador[i].0 != contador[j].0);
        }
        if contiene_producto(contador, id) {
            let m = choose|m: int| 0 <= m < contador.len() && (#[trigger] contador[m]).0 == id;
            lema_lugar_unico(contador, m);
            assert(nuevo[m].0 == id);
            lema_lugar_unico(nuevo, m);
        } else {
            if contiene_producto(nuevo, id) {
                let m = choose|m: int| 0 <= m < nuevo.len() && (#[trigger] nuevo[m]).0 == id;
                assert(contador[m].0 == id);
            }
        }
    } else {
        assert forall|i: int, j: int| 0 <= i < j < nuevo.len() implies (#[trigger] nuevo[i]).0 != (
        #[trigger] nuevo[j]).0 by {
            if j < contador.len() {
                assert(contador[i].0 != contador[j].0);
            } else {
                assert(contador[i].0 != par.0);
            }
        }
        if par.0 == id {
            assert(nuevo[contador.len() as int].0 == id);
            lema_lugar_unico(nuevo, contador.len() as int);
        } else if contiene_producto(contador, id) {
            let m = choose|m: int| 0 <= m < contador.len() && (#[trigger] contador[m]).0 == id;
            lema_lugar_unico(contador, m);
            assert(nuevo[m].0 == id);
            lema_lugar_unico(nuevo, m);
        } else {
            if contiene_producto(nuevo, id) {
                let m = choose|m: int| 0 <= m < nuevo.len() && (#[trigger] nuevo[m]).0 == id;
                if m < contador.len() {
                    assert(contador[m].0 == id);
                }
            }
        }
    }
}

/// Counting a list of pairs into a tally without repeated products gives a
/// tally without repeated products in which every product holds what it held
/// plus all that the pairs ask of it.
pub proof fn ley_acumular(contador: Seq<(u32, u32)>, pares: Seq<(u32, u32)>, id: u32)
    requires
        sin_repetidos(contador),
        acumular(contador, pares) is Ok,
    ensures
        sin_repetidos(acumular(contador, pares).unwrap()),
        vendido_en(acumular(contador, pares).unwrap(), id) == vendido_en(contador, id)
            + cantidad_total(pares, id),
    decreases pares.len(),
{
    if pares.len() > 0 {
        ley_acumular(contador, pares.drop_last(), id);
        lema_acumular_par(acumular(contador, pares.drop_last()).unwrap(), pares.last(), id);
    }
}

/// The tally of a list of orders has one entry per product, and the entry of
/// each product holds all that the orders ask of it.
pub proof fn ley_ventas_por_producto(ordenes: Seq<OrdenVista>, id: u32)
    requires
        acumular_ordenes(Seq::empty(), ordenes) is Ok,
    ensures
        sin_repetidos(acumular_ordenes(Seq::empty(), ordenes).unwrap()),
        vendido_en(acumular_ordenes(Seq::empty(), ordenes).unwrap(), id) == pedido_en(ordenes, id),
    decreases ordenes.len(),
{
    if ordenes.len() > 0 {
        ley_ventas_por_producto(ordenes.drop_last(), id);
        ley_acumular(
            acumular_ordenes(Seq::empty(), ordenes.drop_last()).unwrap(),
            ordenes.last().info_publicacion.1,
            id,
        );
    }
}

/// Whether one of the orders asks for product `id`.
pub open spec fn pide(ordenes: Seq<OrdenVista>, id: u32) -> bool {
    exists|i: int|
        0 <= i < ordenes.len() && nombra((#[trigger] ordenes[i]).info_publicacion.1, id)
}

/// The products that the orders ask for.
pub open spec fn productos_pedidos(ordenes: Seq<OrdenVista>) -> Set<u32> {
    Set::new(|id: u32| pide(ordenes, id))
}

/// The products of a tally, in its order.
pub open spec fn productos_de(contador: Seq<(u32, u32)>) -> Seq<u32> {
    contador.map_values(|p: (u32, u32)| p.0)
}

/// Orders ask for no negative quantity.
pub proof fn lema_pedido_no_negativo(ordenes: Seq<OrdenVista>, id: u32)
    ensures
        pedido_en(ordenes, id) >= 0,
    decreases ordenes.len(),
{
    if ordenes.len() > 0 {
        lema_pedido_no_negativo(ordenes.drop_last(), id);
        lema_cantidad_no_negativa(ordenes.last().info_publicacion.1, id);
    }
}

/// Pairs can be counted into a tally without repeated products whenever, for
/// each product, what the tally holds and what the pairs ask fit together in
/// one counter.
pub proof fn lema_acumular_posible(contador: Seq<(u32, u32)>, pares: Seq<(u32, u32)>)
    requires
        sin_repetidos(contador),
        forall|id: u32|
            vendido_en(contador, id) + #[trigger] cantidad_total(pares, id) <= u32::MAX,
    ensures
        acumular(contador, pares) is Ok,
    decreases pares.len(),
{
    if pares.len() > 0 {
        let previos = pares.drop_last();
        let ultimo = pares.last();
        assert forall|id: u32| vendido_en(contador, id) + #[trigger] cantidad_total(previos, id)
            <= u32::MAX by {
            assert(vendido_en(contador, id) + cantidad_total(pares, id) <= u32::MAX);
        }
        lema_acumular_posible(contador, previos);
        ley_acumular(contador, previos, ultimo.0);
        assert(vendido_en(contador, ultimo.0) + cantidad_total(pares, ultimo.0) <= u32::MAX);
    }
}

/// Orders can be counted whenever, for each product, all that they ask of it
/// fits in one counter.
pub proof fn lema_acumular_ordenes_posible(ordenes: Seq<OrdenVista>)
    requires
        forall|id: u32| #[trigger] pedido_en(ordenes, id) <= u32::MAX,
    ensures
        acumular_ordenes(Seq::empty(), ordenes) is Ok,
    decreases ordenes.len(),
{
    if ordenes.len() > 0 {
        let previas = ordenes.drop_last();
        let pares = ordenes.last().info_publicacion.1;
        assert forall|id: u32| #[trigger] pedido_en(previas, id) <= u32::MAX by {
            assert(pedido_en(ordenes, id) <= u32::MAX);
            lema_cantidad_no_negativa(pares, id);
        }
        lema_acumular_ordenes_posible(previas);
        let contador = acumular_ordenes(Seq::empty(), previas).unwrap();
        assert forall|id: u32| vendido_en(contador, id) + #[trigger] cantidad_total(pares, id)
            <= u32::MAX by {
            ley_ventas_por_producto(previas, id);
            assert(pedido_en(ordenes, id) <= u32::MAX);
        }
        ley_ventas_por_producto(previas, 0);
        lema_acumular_posible(contador, pares);
    }
}

/// After one pair is counted the tally has an entry for the product of the
/// pair, and for whatever it had an entry before.
pub proof fn lema_acumular_par_contiene(contador: Seq<(u32, u32)>, par: (u32, u32), id: u32)
    requires
        acumular_par(contador, par) is Ok,
    ensures
        contiene_producto(acumular_par(contador, par).unwrap(), id) <==> contiene_producto(
            contador,
            id,
        ) || par.0 == id,
{
    let nuevo = acumular_par(contador, par).unwrap();
    if contiene_producto(contador, par.0) {
        let k = choose|k: int| 0 <= k < contador.len() && (#[trigger] contador[k]).0 == par.0;
        lema_primer_lugar(contador, par.0, k);
        let lugar = lugar_de_producto(contador, par.0);
        if contiene_producto(contador, id) {
            let m = choose|m: int| 0 <= m < contador.len() && (#[trigger] contador[m]).0 == id;
            assert(nuevo[m].0 == id);
        }
        if contiene_producto(nuevo, id) {
            let m = choose|m: int| 0 <= m < nuevo.len() && (#[trigger] nuevo[m]).0 == id;
            assert(contador[m].0 == id);
        }
    } else {
        if contiene_producto(contador, id) {
            let m = choose|m: int| 0 <= m < contador.len() && (#[trigger] contador[m]).0 == id;
            assert(nuevo[m].0 == id);
        }
        if par.0 == id {
            assert(nuevo[contador.len() as int].0 == id);
        }
        if contiene_producto(nuevo, id) {
            let m = choose|m: int| 0 <= m < nuevo.len() && (#[trigger] nuevo[m]).0 == id;
            if m < contador.len() {
                assert(contador[m].0 == id);
            }
        }
    }
}

/// After pairs are counted the tally has an entry for exactly the products
/// it had one for and the products the pairs name.
pub proof fn lema_acumular_contiene(contador: Seq<(u32, u32)>, pares: Seq<(u32, u32)>, id: u32)
    requires
        acumular(contador, pares) is Ok,
    ensures
        contiene_producto(acumular(contador, pares).unwrap(), id) <==> contiene_producto(
            contador,
            id,
        ) || nombra(pares, id),
    decreases pares.len(),
{
    if pares.len() > 0 {
        let previos = pares.drop_last();
        lema_acumular_contiene(contador, previos, id);
        lema_acumular_par_contiene(acumular(contador, previos).unwrap(), pares.last(), id);
        if nombra(previos, id) {
            let k = choose|k: int| 0 <= k < previos.len() && (#[trigger] previos[k]).0 == id;
            assert(pares[k].0 == id);
        }
        if pares.last().0 == id {
            assert(pares[pares.len() - 1].0 == id);
        }
        if nombra(pares, id) {
            let k = choose|k: int| 0 <= k < pares.len() && (#[trigger] pares[k]).0 == id;
            if k < previos.len() {
                assert(previos[k].0 == id);
            }
        }
    } else {
        assert(!nombra(pares, id));
    }
}

/// The tally of a list of orders has an entry for exactly the products that
/// the orders ask for.
pub proof fn lema_acumular_ordenes_contiene(ordenes: Seq<OrdenVista>, id: u32)
    requires
        acumular_ordenes(Seq::empty(), ordenes) is Ok,
    ensures
        contiene_producto(acumular_ordenes(Seq::empty(), ordenes).unwrap(), id) <==> pide(
            ordenes,
            id,
        ),
    decreases ordenes.len(),
{
    if ordenes.len() > 0 {
        let previas = ordenes.drop_last();
        lema_acumular_ordenes_contiene(previas, id);
        lema_acumular_contiene(
            acumular_ordenes(Seq::empty(), previas).unwrap(),
            ordenes.last().info_publicacion.1,
            id,
        );
        if pide(previas, id) {
            let i = choose|i: int|
                0 <= i < previas.len() && nombra((#[trigger] previas[i]).info_publicacion.1, id);
            assert(nombra(ordenes[i].info_publicacion.1, id));
        }
        if nombra(ordenes.last().info_publicacion.1, id) {
            assert(nombra(ordenes[ordenes.len() - 1].info_publicacion.1, id));
        }
        if pide(ordenes, id) {
            let i = choose|i: int|
                0 <= i < ordenes.len() && nombra((#[trigger] ordenes[i]).info_publicacion.1, id);
            if i < previas.len() {
                assert(nombra(previas[i].info_publicacion.1, id));
            }
        }
    } else {
        assert(!contiene_producto(Seq::<(u32, u32)>::empty(), id));
    }
}

/// The orders that count as sales: those shipped or received, in order.
pub open spec fn ventas_de(ordenes: Seq<OrdenVista>) -> Seq<OrdenVista> {
    ordenes.filter(|o: OrdenVista| es_venta(o))
}

/// The best-selling products, in general. The orders that count are those
/// shipped or received; pending and cancelled orders contribute nothing.
/// When at least one order counts and, for each product, all that the orders
/// that count ask of it fits in one counter, the result is there, and:
/// it lists as many products as the orders ask for, or `top` of them if that
/// is fewer; quantities never go up along it; no product is listed twice;
/// each product listed is one the orders ask for, with all that they ask of
/// it; and no product left out was asked for more than the last one listed.
pub proof fn ley_mas_vendidos(ordenes: Seq<OrdenVista>, top: Option<u32>)
    requires
        ventas_de(ordenes).len() > 0,
        forall|id: u32| #[trigger] pedido_en(ventas_de(ordenes), id) <= u32::MAX,
    ensures
        mas_vendidos(ordenes, top) is Ok,
        ({
            let ventas = ventas_de(ordenes);
            let vendidos = mas_vendidos(ordenes, top).unwrap();
            let distintos = productos_pedidos(ventas);
            &&& distintos.finite()
            &&& vendidos.len() == match top {
                Some(cuantos) => if cuantos < distintos.len() {
                    cuantos as nat
                } else {
                    distintos.len()
                },
                None => distintos.len(),
            }
            &&& forall|a: int, b: int|
                0 <= a < b < vendidos.len() ==> (#[trigger] vendidos[a]).1 >= (
                #[trigger] vendidos[b]).1
            &&& sin_repetidos(vendidos)
            &&& forall|a: int|
                0 <= a < vendidos.len() ==> pide(ventas, (#[trigger] vendidos[a]).0)
                    && vendidos[a].1 == pedido_en(ventas, vendidos[a].0)
            &&& forall|id: u32|
                pide(ventas, id) && !contiene_producto(vendidos, id) && vendidos.len() > 0
                    ==> #[trigger] pedido_en(ventas, id) <= vendidos.last().1
        }),
{
    let ventas = ventas_de(ordenes);
    lema_acumular_ordenes_posible(ventas);
    let contador = acumular_ordenes(Seq::empty(), ventas).unwrap();
    ley_ventas_por_producto(ventas, 0);
    let claves = cantidades_de(contador);
    let puestos = ranking(claves);
    ley_ranking_existe(claves);
    let ordenados = ordenados_por_cantidad(contador);
    let vendidos = mas_vendidos(ordenes, top).unwrap();
    let distintos = productos_pedidos(ventas);
    // one entry per product asked for
    let productos = productos_de(contador);
    assert(productos.no_duplicates()) by {
        assert forall|i: int, j: int|
            0 <= i < productos.len() && 0 <= j < productos.len() && i != j implies productos[i]
            != productos[j] by {
            if i < j {
                assert(contador[i].0 != contador[j].0);
            } else {
                assert(contador[j].0 != contador[i].0);
            }
        }
    }
    assert(productos.to_set() =~= distintos) by {
        assert forall|id: u32| productos.to_set().contains(id) <==> distintos.contains(id) by {
            lema_acumular_ordenes_contiene(ventas, id);
            if productos.contains(id) {
                let m = choose|m: int| 0 <= m < productos.len() && productos[m] == id;
                assert(contador[m].0 == id);
            }
            if contiene_producto(contador, id) {
                let m = choose|m: int| 0 <= m < contador.len() && (#[trigger] contador[m]).0 == id;
                assert(productos[m] == id);
            }
        }
    }
    productos.unique_seq_to_set();
    vstd::seq_lib::seq_to_set_is_finite(productos);
    assert(ordenados.len() == contador.len());
    assert forall|a: int| 0 <= a < vendidos.len() implies (#[trigger] vendidos[a])
        == contador[puestos[a]] by {
        assert(vendidos[a] == ordenados[a]);
    }
    assert forall|a: int, b: int| 0 <= a < b < vendidos.len() implies (#[trigger] vendidos[a]).1
        >= (#[trigger] vendidos[b]).1 && vendidos[a].0 != vendidos[b].0 by {
        assert(antes(claves, puestos[a], puestos[b]));
        assert(puestos[a] != puestos[b]);
        if puestos[a] < puestos[b] {
            assert(contador[puestos[a]].0 != contador[puestos[b]].0);
        } else {
            assert(contador[puestos[b]].0 != contador[puestos[a]].0);
        }
    }
    assert forall|a: int| 0 <= a < vendidos.len() implies pide(ventas, (#[trigger] vendidos[a]).0)
        && vendidos[a].1 == pedido_en(ventas, vendidos[a].0) by {
        let id = vendidos[a].0;
        lema_lugar_unico(contador, puestos[a]);
        ley_ventas_por_producto(ventas, id);
        lema_acumular_ordenes_contiene(ventas, id);
    }
    assert forall|id: u32|
        pide(ventas, id) && !contiene_producto(vendidos, id) && vendidos.len()
            > 0 implies #[trigger] pedido_en(ventas, id) <= vendidos.last().1 by {
        lema_acumular_ordenes_contiene(ventas, id);
        let m = choose|m: int| 0 <= m < contador.len() && (#[trigger] contador[m]).0 == id;
        lema_lugar_unico(contador, m);
        ley_ventas_por_producto(ventas, id);
        assert(puestos.contains(m));
        let q = choose|q: int| 0 <= q < puestos.len() && puestos[q] == m;
        if q < vendidos.len() {
            assert(vendidos[q].0 == id);
        }
        let ultimo = vendidos.len() - 1;
        assert(vendidos[ultimo] == contador[puestos[ultimo]]);
        assert(antes(claves, puestos[ultimo], puestos[q]));
    }
}

} // verus!
