//! Stock counters and the arithmetic of reserving and returning quantities.
//!
//! Products are numbered from 1, and the stock of product `id` is entry
//! `id - 1` of a list of counters. Every operation here takes a list of
//! (product, quantity) pairs and works through it in order.

use vstd::prelude::*;
use crate::error::ErrorMercado;
use crate::listas::copiar_ids;
use crate::producto::{Producto, ProductoVista};

verus! {

/// Whether product `id` is one of the first `cuantos` products.
pub open spec fn existe(cuantos: nat, id: u32) -> bool {
    1 <= id <= cuantos
}

/// Why the pair `par` cannot be served from `existencias`, if it cannot.
pub open spec fn falta_de_stock(existencias: Seq<u32>, par: (u32, u32)) -> Option<ErrorMercado> {
    if !existe(existencias.len(), par.0) {
        Some(ErrorMercado::ProductoNoEncontrado)
    } else if existencias[par.0 - 1] < par.1 || existencias[par.0 - 1] == 0 {
        Some(ErrorMercado::StockInsuficiente)
    } else {
        None
    }
}

/// Checks each pair on its own against `existencias`: the failure of the
/// first pair that cannot be served, or `Ok` when every pair can.
pub open spec fn stock_suficiente(
    existencias: Seq<u32>,
    pares: Seq<(u32, u32)>,
) -> Result<(), ErrorMercado>
    decreases pares.len(),
{
    if pares.len() == 0 {
        Ok(())
    } else {
        match stock_suficiente(existencias, pares.drop_last()) {
            Err(e) => Err(e),
            Ok(()) => match falta_de_stock(existencias, pares.last()) {
                Some(e) => Err(e),
                None => Ok(()),
            },
        }
    }
}

/// The counters after taking the quantity of one pair out of stock, or `None`
/// when the stock of its product is smaller. A pair naming no product changes
/// nothing.
pub open spec fn descontar_par(existencias: Seq<u32>, par: (u32, u32)) -> Option<Seq<u32>> {
    if !existe(existencias.len(), par.0) {
        Some(existencias)
    } else if existencias[par.0 - 1] < par.1 {
        None
    } else {
        Some(existencias.update(par.0 - 1, (existencias[par.0 - 1] - par.1) as u32))
    }
}

/// The counters after taking every pair out of stock in turn, or `None` when
/// at some pair the stock left by the pairs before it is too small.
pub open spec fn tras_descontar(
    existencias: Seq<u32>,
    pares: Seq<(u32, u32)>,
) -> Option<Seq<u32>>
    decreases pares.len(),
{
    if pares.len() == 0 {
        Some(existencias)
    } else {
        match tras_descontar(existencias, pares.drop_last()) {
            None => None,
            Some(previas) => descontar_par(previas, pares.last()),
        }
    }
}

/// The counters after returning the quantity of one pair to stock.
pub open spec fn aumentar_par(
    existencias: Seq<u32>,
    par: (u32, u32),
) -> Result<Seq<u32>, ErrorMercado> {
    if !existe(existencias.len(), par.0) {
        Err(ErrorMercado::ProductoNoEncontrado)
    } else if existencias[par.0 - 1] + par.1 > u32::MAX {
        Err(ErrorMercado::DesbordeAlSumarStock)
    } else {
        Ok(existencias.update(par.0 - 1, (existencias[par.0 - 1] + par.1) as u32))
    }
}

/// The counters after returning every pair to stock in turn, or the failure
/// of the first pair that names no product or overflows its counter.
pub open spec fn tras_aumentar(
    existencias: Seq<u32>,
    pares: Seq<(u32, u32)>,
) -> Result<Seq<u32>, ErrorMercado>
    decreases pares.len(),
{
    if pares.len() == 0 {
        Ok(existencias)
    } else {
        match tras_aumentar(existencias, pares.drop_last()) {
            Err(e) => Err(e),
            Ok(previas) => aumentar_par(previas, pares.last()),
        }
    }
}

/// The running total after adding the price of one pair. A pair naming no
/// product adds nothing.
pub open spec fn sumar_precio(
    productos: Seq<ProductoVista>,
    total: u32,
    par: (u32, u32),
) -> Result<u32, ErrorMercado> {
    if !existe(productos.len(), par.0) {
        Ok(total)
    } else if productos[par.0 - 1].precio * par.1 > u32::MAX {
        Err(ErrorMercado::DesbordeAlMultiplicar)
    } else if total + productos[par.0 - 1].precio * par.1 > u32::MAX {
        Err(ErrorMercado::DesbordeAlAcumular)
    } else {
        Ok((total + productos[par.0 - 1].precio * par.1) as u32)
    }
}

/// The total price of a list of pairs: the sum of unit price times quantity,
/// or the failure of the first pair at which a product or the running total
/// no longer fits in 32 bits.
pub open spec fn precio_final(
    productos: Seq<ProductoVista>,
    pares: Seq<(u32, u32)>,
) -> Result<u32, ErrorMercado>
    decreases pares.len(),
{
    if pares.len() == 0 {
        Ok(0u32)
    } else {
        match precio_final(productos, pares.drop_last()) {
            Err(e) => Err(e),
            Ok(total) => sumar_precio(productos, total, pares.last()),
        }
    }
}

/// The quantity of product `id` that a list of pairs asks for in all.
pub open spec fn cantidad_total(pares: Seq<(u32, u32)>, id: u32) -> int
    decreases pares.len(),
{
    if pares.len() == 0 {
        0
    } else {
        cantidad_total(pares.drop_last(), id) + if pares.last().0 == id {
            pares.last().1 as int
        } else {
            0
        }
    }
}

/// The sum of unit price times quantity over a list of pairs, unbounded.
pub open spec fn importe(productos: Seq<ProductoVista>, pares: Seq<(u32, u32)>) -> int
    decreases pares.len(),
{
    if pares.len() == 0 {
        0
    } else {
        importe(productos, pares.drop_last()) + if existe(productos.len(), pares.last().0) {
            productos[pares.last().0 - 1].precio * pares.last().1
        } else {
            0
        }
    }
}

/// Once a prefix of the pairs cannot be taken out of stock, neither can the whole list.
pub proof fn lema_descontar_prefijo(existencias: Seq<u32>, pares: Seq<(u32, u32)>, i: int)
    requires
        0 <= i <= pares.len(),
        tras_descontar(existencias, pares.take(i)).is_none(),
    ensures
        tras_descontar(existencias, pares).is_none(),
    decreases pares.len() - i,
{
    if i < pares.len() {
        assert(pares.take(i + 1).drop_last() =~= pares.take(i));
        lema_descontar_prefijo(existencias, pares, i + 1);
    } else {
        assert(pares.take(i) =~= pares);
    }
}

/// The failure of a prefix of the pairs to return to stock is the failure of the whole list.
pub proof fn lema_aumentar_prefijo(existencias: Seq<u32>, pares: Seq<(u32, u32)>, i: int)
    requires
        0 <= i <= pares.len(),
        tras_aumentar(existencias, pares.take(i)).is_err(),
    ensures
        tras_aumentar(existencias, pares) == tras_aumentar(existencias, pares.take(i)),
    decreases pares.len() - i,
{
    if i < pares.len() {
        assert(pares.take(i + 1).drop_last() =~= pares.take(i));
        lema_aumentar_prefijo(existencias, pares, i + 1);
    } else {
        assert(pares.take(i) =~= pares);
    }
}

/// The failure of a prefix of the pairs to be priced is the failure of the whole list.
pub proof fn lema_precio_prefijo(productos: Seq<ProductoVista>, pares: Seq<(u32, u32)>, i: int)
    requires
        0 <= i <= pares.len(),
        precio_final(productos, pares.take(i)).is_err(),
    ensures
        precio_final(productos, pares) == precio_final(productos, pares.take(i)),
    decreases pares.len() - i,
{
    if i < pares.len() {
        assert(pares.take(i + 1).drop_last() =~= pares.take(i));
        lema_precio_prefijo(productos, pares, i + 1);
    } else {
        assert(pares.take(i) =~= pares);
    }
}

/// The failure of a prefix of the pairs to be served is the failure of the whole list.
pub proof fn lema_suficiente_prefijo(existencias: Seq<u32>, pares: Seq<(u32, u32)>, i: int)
    requires
        0 <= i <= pares.len(),
        stock_suficiente(existencias, pares.take(i)).is_err(),
    ensures
        stock_suficiente(existencias, pares) == stock_suficiente(existencias, pares.take(i)),
    decreases pares.len() - i,
{
    if i < pares.len() {
        assert(pares.take(i + 1).drop_last() =~= pares.take(i));
        lema_suficiente_prefijo(existencias, pares, i + 1);
    } else {
        assert(pares.take(i) =~= pares);
    }
}

/// Every pair can be served exactly when none of them, taken on its own,
/// lacks stock.
pub proof fn ley_stock_suficiente(existencias: Seq<u32>, pares: Seq<(u32, u32)>)
    ensures
        stock_suficiente(existencias, pares) is Ok <==> (forall|k: int|
            0 <= k < pares.len() ==> falta_de_stock(existencias, #[trigger] pares[k]) is None),
    decreases pares.len(),
{
    if pares.len() > 0 {
        let previos = pares.drop_last();
        ley_stock_suficiente(existencias, previos);
        if stock_suficiente(existencias, pares) is Ok {
            assert forall|k: int| 0 <= k < pares.len() implies falta_de_stock(
                existencias,
                #[trigger] pares[k],
            ) is None by {
                if k < pares.len() - 1 {
                    assert(previos[k] == pares[k]);
                }
            }
        }
        if forall|k: int|
            0 <= k < pares.len() ==> falta_de_stock(existencias, #[trigger] pares[k]) is None {
            assert forall|k: int| 0 <= k < previos.len() implies falta_de_stock(
                existencias,
                #[trigger] previos[k],
            ) is None by {
                assert(previos[k] == pares[k]);
            }
            assert(falta_de_stock(existencias, pares[pares.len() - 1]) is None);
        }
    }
}

/// The total price of a list of pairs is the sum of unit price times
/// quantity over the pairs, and it can be computed exactly when that sum fits
/// in 32 bits.
pub proof fn ley_precio_es_importe(productos: Seq<ProductoVista>, pares: Seq<(u32, u32)>)
    ensures
        importe(productos, pares) >= 0,
        precio_final(productos, pares) is Ok <==> importe(productos, pares) <= u32::MAX,
        precio_final(productos, pares) is Ok ==> precio_final(productos, pares).unwrap()
            == importe(productos, pares),
    decreases pares.len(),
{
    if pares.len() > 0 {
        let ultimo = pares.last();
        ley_precio_es_importe(productos, pares.drop_last());
        if existe(productos.len(), ultimo.0) {
            let precio = productos[ultimo.0 - 1].precio;
            assert(precio * ultimo.1 >= 0) by (nonlinear_arith)
                requires
                    precio >= 0,
                    ultimo.1 >= 0,
            ;
        }
    }
}

/// Checks that each pair, taken on its own, names a product whose stock
/// covers the quantity asked.
pub fn hay_stock_suficiente(
    existencias: &Vec<u32>,
    productos_cantidades: &Vec<(u32, u32)>,
) -> (resultado: Result<(), ErrorMercado>)
    ensures
        resultado == stock_suficiente(existencias@, productos_cantidades@),
{
    let mut i: usize = 0;
    while i < productos_cantidades.len()
        invariant
            i <= productos_cantidades.len(),
            stock_suficiente(existencias@, productos_cantidades@.take(i as int)).is_ok(),
        decreases productos_cantidades.len() - i,
    {
        let (id, cantidad) = productos_cantidades[i];
        proof {
            assert(productos_cantidades@.take(i + 1).drop_last()
                =~= productos_cantidades@.take(i as int));
            assert(productos_cantidades@.take(i + 1).last() == (id, cantidad));
        }
        if id >= 1 && ((id - 1) as usize) < existencias.len() {
            let stock = existencias[(id - 1) as usize];
            if stock < cantidad || stock == 0 {
                proof {
                    lema_suficiente_prefijo(existencias@, productos_cantidades@, i + 1);
                }
                return Err(ErrorMercado::StockInsuficiente);
            }
        } else {
            proof {
                lema_suficiente_prefijo(existencias@, productos_cantidades@, i + 1);
            }
            return Err(ErrorMercado::ProductoNoEncontrado);
        }
        i += 1;
    }
    proof {
        assert(productos_cantidades@.take(i as int) =~= productos_cantidades@);
    }
    Ok(())
}

/// Takes every pair out of stock, or fails and leaves the counters as they were.
pub fn descontar_stock(
    existencias: &mut Vec<u32>,
    productos_cantidades: &Vec<(u32, u32)>,
) -> (resultado: Result<(), ErrorMercado>)
    ensures
        match resultado {
            Ok(()) => tras_descontar(old(existencias)@, productos_cantidades@) == Some(
                final(existencias)@,
            ),
            Err(e) => e == ErrorMercado::DesbordeAlRestarStock && tras_descontar(
                old(existencias)@,
                productos_cantidades@,
            ).is_none() && final(existencias)@ == old(existencias)@,
        },
{
    let mut nuevas = copiar_ids(existencias);
    let mut i: usize = 0;
    while i < productos_cantidades.len()
        invariant
            i <= productos_cantidades.len(),
            tras_descontar(existencias@, productos_cantidades@.take(i as int)) == Some(nuevas@),
        decreases productos_cantidades.len() - i,
    {
        let (id, cantidad) = productos_cantidades[i];
        proof {
            assert(productos_cantidades@.take(i + 1).drop_last()
                =~= productos_cantidades@.take(i as int));
            assert(productos_cantidades@.take(i + 1).last() == (id, cantidad));
        }
        if id >= 1 && ((id - 1) as usize) < nuevas.len() {
            let posicion = (id - 1) as usize;
            let stock = nuevas[posicion];
            if stock < cantidad {
                proof {
                    lema_descontar_prefijo(existencias@, productos_cantidades@, i + 1);
                }
                return Err(ErrorMercado::DesbordeAlRestarStock);
            }
            nuevas.set(posicion, stock - cantidad);
        }
        i += 1;
    }
    proof {
        assert(productos_cantidades@.take(i as int) =~= productos_cantidades@);
    }
    *existencias = nuevas;
    Ok(())
}

/// Returns every pair to stock, or fails and leaves the counters as they were.
pub fn aumentar_stock_productos(
    existencias: &mut Vec<u32>,
    productos_cantidades: &Vec<(u32, u32)>,
) -> (resultado: Result<(), ErrorMercado>)
    ensures
        match resultado {
            Ok(()) => tras_aumentar(old(existencias)@, productos_cantidades@) == Ok::<
                Seq<u32>,
                ErrorMercado,
            >(final(existencias)@),
            Err(e) => tras_aumentar(old(existencias)@, productos_cantidades@) == Err::<
                Seq<u32>,
                ErrorMercado,
            >(e) && final(existencias)@ == old(existencias)@,
        },
{
    let mut nuevas = copiar_ids(existencias);
    let mut i: usize = 0;
    while i < productos_cantidades.len()
        invariant
            i <= productos_cantidades.len(),
            tras_aumentar(existencias@, productos_cantidades@.take(i as int)) == Ok::<
                Seq<u32>,
                ErrorMercado,
            >(nuevas@),
        decreases productos_cantidades.len() - i,
    {
        let (id, cantidad) = productos_cantidades[i];
        proof {
            assert(productos_cantidades@.take(i + 1).drop_last()
                =~= productos_cantidades@.take(i as int));
            assert(productos_cantidades@.take(i + 1).last() == (id, cantidad));
        }
        if id >= 1 && ((id - 1) as usize) < nuevas.len() {
            let posicion = (id - 1) as usize;
            let stock = nuevas[posicion];
            if cantidad > u32::MAX - stock {
                proof {
                    lema_aumentar_prefijo(existencias@, productos_cantidades@, i + 1);
                }
                return Err(ErrorMercado::DesbordeAlSumarStock);
            }
            nuevas.set(posicion, stock + cantidad);
        } else {
            proof {
                lema_aumentar_prefijo(existencias@, productos_cantidades@, i + 1);
            }
            return Err(ErrorMercado::ProductoNoEncontrado);
        }
        i += 1;
    }
    proof {
        assert(productos_cantidades@.take(i as int) =~= productos_cantidades@);
    }
    *existencias = nuevas;
    Ok(())
}

/// Whether every pair can be taken out of stock in turn.
pub fn puede_descontar(
    existencias: &Vec<u32>,
    productos_cantidades: &Vec<(u32, u32)>,
) -> (puede: bool)
    ensures
        puede == tras_descontar(existencias@, productos_cantidades@).is_some(),
{
    let mut prueba = copiar_ids(existencias);
    descontar_stock(&mut prueba, productos_cantidades).is_ok()
}

/// The unit prices of `productos`, in order.
pub open spec fn vistas(productos: Seq<Producto>) -> Seq<ProductoVista> {
    productos.map_values(|p: Producto| p@)
}

/// The total price of a list of pairs at the current unit prices.
pub fn calcular_precio_final(
    productos: &Vec<Producto>,
    productos_publicados: &Vec<(u32, u32)>,
) -> (resultado: Result<u32, ErrorMercado>)
    ensures
        resultado == precio_final(vistas(productos@), productos_publicados@),
{
    let mut total: u32 = 0;
    let mut i: usize = 0;
    while i < productos_publicados.len()
        invariant
            i <= productos_publicados.len(),
            precio_final(vistas(productos@), productos_publicados@.take(i as int)) == Ok::<
                u32,
                ErrorMercado,
            >(total),
        decreases productos_publicados.len() - i,
    {
        let (id, cantidad) = productos_publicados[i];
        proof {
            assert(productos_publicados@.take(i + 1).drop_last()
                =~= productos_publicados@.take(i as int));
            assert(productos_publicados@.take(i + 1).last() == (id, cantidad));
        }
        if id >= 1 && ((id - 1) as usize) < productos.len() {
            let precio = productos[(id - 1) as usize].precio;
            assert(vistas(productos@)[id - 1].precio == precio);
            match precio.checked_mul(cantidad) {
                Some(parcial) => match total.checked_add(parcial) {
                    Some(suma) => {
                        total = suma;
                    },
                    None => {
                        proof {
                            lema_precio_prefijo(vistas(productos@), productos_publicados@, i + 1);
                        }
                        return Err(ErrorMercado::DesbordeAlAcumular);
                    },
                },
                None => {
                    proof {
                        lema_precio_prefijo(vistas(productos@), productos_publicados@, i + 1);
                    }
                    return Err(ErrorMercado::DesbordeAlMultiplicar);
                },
            }
        }
        i += 1;
    }
    proof {
        assert(productos_publicados@.take(i as int) =~= productos_publicados@);
    }
    Ok(total)
}

} // verus!
