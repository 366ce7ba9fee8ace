//! Deciding whether users, products, listings and orders brought from
//! storage form a consistent marketplace.

use vstd::prelude::*;
use ink::primitives::AccountId;
use crate::cuenta::{bytes_de_cuenta, misma_cuenta};
use crate::existencias::{cantidad_total, existe};
use crate::inventario::{
    comprometido, lema_cantidad_no_negativa, lema_comprometido_no_negativo,
    lema_reservado_no_negativo, reservado,
};
use crate::orden::{EstadoCompra, OrdenVista};
use crate::publicacion::PublicacionVista;
use crate::primer_contrato::PrimerContrato;
use crate::rol::Rol;

verus! {

/// Whether every identifier in `ids` names one of the first `cuantos` products.
fn ids_conocidos(ids: &Vec<u32>, cuantos: usize) -> (conocidos: bool)
    ensures
        conocidos == (forall|k: int|
            0 <= k < ids@.len() ==> existe(cuantos as nat, #[trigger] ids@[k])),
{
    let mut k: usize = 0;
    while k < ids.len()
        invariant
            k <= ids.len(),
            forall|j: int| 0 <= j < k ==> existe(cuantos as nat, #[trigger] ids@[j]),
        decreases ids.len() - k,
    {
        let id = ids[k];
        if id < 1 || id as usize > cuantos {
            return false;
        }
        k += 1;
    }
    true
}

/// Whether every pair names one of the first `cuantos` products.
fn pares_conocidos(pares: &Vec<(u32, u32)>, cuantos: usize) -> (conocidos: bool)
    ensures
        conocidos == (forall|k: int|
            0 <= k < pares@.len() ==> existe(cuantos as nat, (#[trigger] pares@[k]).0)),
{
    let mut k: usize = 0;
    while k < pares.len()
        invariant
            k <= pares.len(),
            forall|j: int| 0 <= j < k ==> existe(cuantos as nat, (#[trigger] pares@[j]).0),
        decreases pares.len() - k,
    {
        let id = pares[k].0;
        if id < 1 || id as usize > cuantos {
            return false;
        }
        k += 1;
    }
    true
}

/// Whether two lists of pairs are the same.
fn mismos_pares(unos: &Vec<(u32, u32)>, otros: &Vec<(u32, u32)>) -> (iguales: bool)
    ensures
        iguales == (unos@ == otros@),
{
    if unos.len() != otros.len() {
        return false;
    }
    let mut k: usize = 0;
    while k < unos.len()
        invariant
            k <= unos.len(),
            unos.len() == otros.len(),
            forall|j: int| 0 <= j < k ==> unos@[j] == otros@[j],
        decreases unos.len() - k,
    {
        if unos[k].0 != otros[k].0 || unos[k].1 != otros[k].1 {
            return false;
        }
        k += 1;
    }
    proof {
        assert(unos@ =~= otros@);
    }
    true
}

/// What a prefix of the pairs asks of a product is at most what all of them ask.
proof fn lema_cantidad_prefijo(pares: Seq<(u32, u32)>, k: int, id: u32)
    requires
        0 <= k <= pares.len(),
    ensures
        cantidad_total(pares.take(k), id) <= cantidad_total(pares, id),
    decreases pares.len() - k,
{
    if k < pares.len() {
        lema_cantidad_prefijo(pares, k + 1, id);
        assert(pares.take(k + 1).drop_last() =~= pares.take(k));
    } else {
        assert(pares.take(k) =~= pares);
    }
}

/// What a prefix of the listings holds in reserve is at most what all of them hold.
proof fn lema_reservado_prefijo(publicaciones: Seq<PublicacionVista>, k: int, id: u32)
    requires
        0 <= k <= publicaciones.len(),
    ensures
        reservado(publicaciones.take(k), id) <= reservado(publicaciones, id),
    decreases publicaciones.len() - k,
{
    if k < publicaciones.len() {
        lema_reservado_prefijo(publicaciones, k + 1, id);
        assert(publicaciones.take(k + 1).drop_last() =~= publicaciones.take(k));
        lema_cantidad_no_negativa(publicaciones[k].productos, id);
    } else {
        assert(publicaciones.take(k) =~= publicaciones);
    }
}

/// What a prefix of the orders commits is at most what all of them commit.
proof fn lema_comprometido_prefijo(ordenes: Seq<OrdenVista>, k: int, id: u32)
    requires
        0 <= k <= ordenes.len(),
    ensures
        comprometido(ordenes.take(k), id) <= comprometido(ordenes, id),
    decreases ordenes.len() - k,
{
    if k < ordenes.len() {
        lema_comprometido_prefijo(ordenes, k + 1, id);
        assert(ordenes.take(k + 1).drop_last() =~= ordenes.take(k));
        lema_cantidad_no_negativa(ordenes[k].info_publicacion.1, id);
    } else {
        assert(ordenes.take(k) =~= ordenes);
    }
}

/// What the pairs ask of product `id` in all, or `None` when that exceeds a counter.
fn cantidad_de(pares: &Vec<(u32, u32)>, id: u32) -> (cantidad: Option<u32>)
    ensures
        match cantidad {
            Some(c) => c == cantidad_total(pares@, id),
            None => cantidad_total(pares@, id) > u32::MAX,
        },
{
    let mut acumulado: u32 = 0;
    let mut k: usize = 0;
    while k < pares.len()
        invariant
            k <= pares.len(),
            acumulado == cantidad_total(pares@.take(k as int), id),
        decreases pares.len() - k,
    {
        proof {
            assert(pares@.take(k + 1).drop_last() =~= pares@.take(k as int));
        }
        if pares[k].0 == id {
            if pares[k].1 > u32::MAX - acumulado {
                proof {
                    lema_cantidad_prefijo(pares@, k + 1, id);
                }
                return None;
            }
            acumulado = acumulado + pares[k].1;
        }
        k += 1;
    }
    proof {
        assert(pares@.take(k as int) =~= pares@);
    }
    Some(acumulado)
}

impl PrimerContrato {
    /// Whether a user under `cuenta` has a seller profile.
    fn hay_vendedor(&self, cuenta: AccountId) -> (hay: bool)
        ensures
            hay == self@.tiene_perfil_vendedor(bytes_de_cuenta(cuenta)),
    {
        let mut i: usize = 0;
        while i < self.usuarios.len()
            invariant
                i <= self.usuarios.len(),
                forall|j: int|
                    0 <= j < i ==> !((#[trigger] self@.usuarios[j]).id_usuario == bytes_de_cuenta(
                        cuenta,
                    ) && self@.usuarios[j].datos_vendedor.is_some()),
            decreases self.usuarios.len() - i,
        {
            let usuario = &self.usuarios[i];
            if misma_cuenta(&usuario.id_usuario, &cuenta) && usuario.datos_vendedor.is_some() {
                proof {
                    assert(self@.usuarios[i as int].id_usuario == bytes_de_cuenta(cuenta));
                }
                return true;
            }
            i += 1;
        }
        false
    }

    /// Whether a user under `cuenta` has a buyer profile.
    fn hay_comprador(&self, cuenta: AccountId) -> (hay: bool)
        ensures
            hay == self@.tiene_perfil_comprador(bytes_de_cuenta(cuenta)),
    {
        let mut i: usize = 0;
        while i < self.usuarios.len()
            invariant
                i <= self.usuarios.len(),
                forall|j: int|
                    0 <= j < i ==> !((#[trigger] self@.usuarios[j]).id_usuario == bytes_de_cuenta(
                        cuenta,
                    ) && self@.usuarios[j].datos_comprador.is_some()),
            decreases self.usuarios.len() - i,
        {
            let usuario = &self.usuarios[i];
            if misma_cuenta(&usuario.id_usuario, &cuenta) && usuario.datos_comprador.is_some() {
                proof {
                    assert(self@.usuarios[i as int].id_usuario == bytes_de_cuenta(cuenta));
                }
                return true;
            }
            i += 1;
        }
        false
    }

    /// Whether no two users share an account, each holds the profiles of its
    /// role, and the products of each seller exist.
    pub(super) fn usuarios_validos(&self) -> (validos: bool)
        ensures
            validos == self@.usuarios_coherentes(),
    {
        let ghost vista = self@;
        let cuantos = self.historial_productos.len();
        let mut i: usize = 0;
        while i < self.usuarios.len()
            invariant
                i <= self.usuarios.len(),
                vista == self@,
                cuantos == vista.productos.len(),
                forall|a: int, b: int|
                    0 <= a < b < i ==> (#[trigger] vista.usuarios[a]).id_usuario != (
                    #[trigger] vista.usuarios[b]).id_usuario,
                forall|a: int| 0 <= a < i ==> (#[trigger] vista.usuarios[a]).bien_formado(),
                forall|a: int, k: int|
                    0 <= a < i && vista.usuarios[a].datos_vendedor.is_some() && 0 <= k
                        < vista.usuarios[a].datos_vendedor.unwrap().productos.len() ==> existe(
                        vista.productos.len(),
                        #[trigger] (#[trigger] vista.usuarios[
                            a
                        ]).datos_vendedor.unwrap().productos[k],
                    ),
            decreases self.usuarios.len() - i,
        {
            let usuario = &self.usuarios[i];
            proof {
                assert(vista.usuarios[i as int] == usuario@);
            }
            if (usuario.rol != Rol::Vend && usuario.datos_comprador.is_none()) || (usuario.rol
                != Rol::Comp && usuario.datos_vendedor.is_none()) {
                proof {
                    assert(!vista.usuarios[i as int].bien_formado());
                }
                return false;
            }
            match &usuario.datos_vendedor {
                Some(datos) => {
                    if !ids_conocidos(&datos.productos, cuantos) {
                        proof {
                            let k = choose|k: int|
                                0 <= k < datos.productos@.len() && !existe(
                                    cuantos as nat,
                                    #[trigger] datos.productos@[k],
                                );
                            assert(!existe(
                                vista.productos.len(),
                                vista.usuarios[i as int].datos_vendedor.unwrap().productos[k],
                            ));
                        }
                        return false;
                    }
                },
                None => {},
            }
            let mut j: usize = 0;
            while j < i
                invariant
                    j <= i < self.usuarios.len(),
                    vista == self@,
                    *usuario == self.usuarios@[i as int],
                    forall|a: int|
                        0 <= a < j ==> (#[trigger] vista.usuarios[a]).id_usuario
                            != vista.usuarios[i as int].id_usuario,
                decreases i - j,
            {
                if misma_cuenta(&self.usuarios[j].id_usuario, &usuario.id_usuario) {
                    proof {
                        assert(vista.usuarios[j as int].id_usuario
                            == vista.usuarios[i as int].id_usuario);
                    }
                    return false;
                }
                j += 1;
            }
            i += 1;
        }
        true
    }

    /// Whether products, listings and orders are numbered by their place and
    /// each history is short enough for its identifiers.
    pub(super) fn numeracion_valida(&self) -> (valida: bool)
        ensures
            valida == self@.numeracion_coherente(),
    {
        let ghost vista = self@;
        let tope = u32::MAX as usize;
        if self.historial_productos.len() != self.existencias.len()
            || self.historial_productos.len() > tope || self.historial_publicaciones.len() > tope
            || self.historial_ordenes_de_compra.len() > tope {
            return false;
        }
        let mut i: usize = 0;
        while i < self.historial_productos.len()
            invariant
                i <= self.historial_productos.len() <= u32::MAX,
                vista == self@,
                forall|j: int| 0 <= j < i ==> (#[trigger] vista.productos[j]).id == j + 1,
            decreases self.historial_productos.len() - i,
        {
            if self.historial_productos[i].id as usize != i + 1 {
                proof {
                    assert(vista.productos[i as int].id != i + 1);
                }
                return false;
            }
            proof {
                assert(vista.productos[i as int].id == i + 1);
            }
            i += 1;
        }
        let mut i: usize = 0;
        while i < self.historial_publicaciones.len()
            invariant
                i <= self.historial_publicaciones.len() <= u32::MAX,
                vista == self@,
                forall|j: int| 0 <= j < i ==> (#[trigger] vista.publicaciones[j]).id == j,
            decreases self.historial_publicaciones.len() - i,
        {
            if self.historial_publicaciones[i].id as usize != i {
                proof {
                    assert(vista.publicaciones[i as int].id != i);
                }
                return false;
            }
            proof {
                assert(vista.publicaciones[i as int].id == i);
            }
            i += 1;
        }
        let mut i: usize = 0;
        while i < self.historial_ordenes_de_compra.len()
            invariant
                i <= self.historial_ordenes_de_compra.len() <= u32::MAX,
                vista == self@,
                forall|j: int| 0 <= j < i ==> (#[trigger] vista.ordenes[j]).id == j,
            decreases self.historial_ordenes_de_compra.len() - i,
        {
            if self.historial_ordenes_de_compra[i].id as usize != i {
                proof {
                    assert(vista.ordenes[i as int].id != i);
                }
                return false;
            }
            proof {
                assert(vista.ordenes[i as int].id == i);
            }
            i += 1;
        }
        true
    }

    /// Whether every listing belongs to a user with a seller profile and
    /// offers products of the marketplace.
    pub(super) fn publicaciones_validas(&self) -> (validas: bool)
        ensures
            validas == self@.publicaciones_coherentes(),
    {
        let ghost vista = self@;
        let cuantos = self.historial_productos.len();
        let mut i: usize = 0;
        while i < self.historial_publicaciones.len()
            invariant
                i <= self.historial_publicaciones.len(),
                vista == self@,
                cuantos == vista.productos.len(),
                forall|j: int|
                    0 <= j < i ==> {
                        &&& vista.tiene_perfil_vendedor(
                            (#[trigger] vista.publicaciones[j]).id_vendedor,
                        )
                        &&& vista.productos_conocidos(vista.publicaciones[j].productos)
                    },
            decreases self.historial_publicaciones.len() - i,
        {
            let publicacion = &self.historial_publicaciones[i];
            proof {
                assert(vista.publicaciones[i as int] == publicacion@);
            }
            if !self.hay_vendedor(publicacion.id_vendedor) {
                proof {
                    assert(!vista.tiene_perfil_vendedor(vista.publicaciones[i as int].id_vendedor));
                }
                return false;
            }
            if !pares_conocidos(&publicacion.productos, cuantos) {
                proof {
                    assert(!vista.productos_conocidos(vista.publicaciones[i as int].productos));
                }
                return false;
            }
            i += 1;
        }
        true
    }

    /// Whether every order holds the listing it was placed against, as that
    /// listing was made, and belongs to a user with a buyer profile who is
    /// not the seller.
    pub(super) fn ordenes_validas(&self) -> (validas: bool)
        ensures
            validas == self@.ordenes_coherentes(),
    {
        let ghost vista = self@;
        let mut i: usize = 0;
        while i < self.historial_ordenes_de_compra.len()
            invariant
                i <= self.historial_ordenes_de_compra.len(),
                vista == self@,
                forall|j: int|
                    0 <= j < i ==> {
                        let orden = #[trigger] vista.ordenes[j];
                        &&& orden.info_publicacion.0 < vista.publicaciones.len()
                        &&& orden.info_publicacion.1
                            == vista.publicaciones[orden.info_publicacion.0 as int].productos
                        &&& orden.info_publicacion.2
                            == vista.publicaciones[orden.info_publicacion.0 as int].precio_final
                        &&& orden.info_publicacion.3
                            == vista.publicaciones[orden.info_publicacion.0 as int].id_vendedor
                        &&& vista.tiene_perfil_comprador(orden.id_comprador)
                        &&& orden.id_comprador != orden.info_publicacion.3
                    },
            decreases self.historial_ordenes_de_compra.len() - i,
        {
            let orden = &self.historial_ordenes_de_compra[i];
            proof {
                assert(vista.ordenes[i as int] == orden@);
            }
            let id_publicacion = orden.info_publicacion.0 as usize;
            if id_publicacion >= self.historial_publicaciones.len() {
                return false;
            }
            let publicacion = &self.historial_publicaciones[id_publicacion];
            proof {
                assert(vista.publicaciones[id_publicacion as int] == publicacion@);
            }
            if !mismos_pares(&orden.info_publicacion.1, &publicacion.productos) {
                return false;
            }
            if orden.info_publicacion.2 != publicacion.precio_final {
                return false;
            }
            if !misma_cuenta(&orden.info_publicacion.3, &publicacion.id_vendedor) {
                return false;
            }
            if !self.hay_comprador(orden.id_comprador) {
                return false;
            }
            if misma_cuenta(&orden.id_comprador, &orden.info_publicacion.3) {
                return false;
            }
            i += 1;
        }
        true
    }

    /// What the available listings hold of product `id` in reserve, or `None`
    /// when that exceeds a counter.
    fn reservado_de(&self, id: u32) -> (cantidad: Option<u32>)
        ensures
            match cantidad {
                Some(c) => c == reservado(self@.publicaciones, id),
                None => reservado(self@.publicaciones, id) > u32::MAX,
            },
    {
        let ghost publicaciones = self@.publicaciones;
        let mut acumulado: u32 = 0;
        let mut k: usize = 0;
        while k < self.historial_publicaciones.len()
            invariant
                k <= self.historial_publicaciones.len(),
                publicaciones == self@.publicaciones,
                acumulado == reservado(publicaciones.take(k as int), id),
            decreases self.historial_publicaciones.len() - k,
        {
            let publicacion = &self.historial_publicaciones[k];
            proof {
                assert(publicaciones.take(k + 1).drop_last() =~= publicaciones.take(k as int));
                assert(publicaciones.take(k + 1).last() == publicacion@);
            }
            if publicacion.disponible {
                let cantidad = match cantidad_de(&publicacion.productos, id) {
                    Some(c) => c,
                    None => {
                        proof {
                            lema_reservado_prefijo(publicaciones, k + 1, id);
                            lema_reservado_no_negativo(publicaciones.take(k as int), id);
                        }
                        return None;
                    },
                };
                if cantidad > u32::MAX - acumulado {
                    proof {
                        lema_reservado_prefijo(publicaciones, k + 1, id);
                    }
                    return None;
                }
                acumulado = acumulado + cantidad;
            }
            k += 1;
        }
        proof {
            assert(publicaciones.take(k as int) =~= publicaciones);
        }
        Some(acumulado)
    }

    /// What the orders not cancelled commit of product `id`, or `None` when
    /// that exceeds a counter.
    fn comprometido_de(&self, id: u32) -> (cantidad: Option<u32>)
        ensures
            match cantidad {
                Some(c) => c == comprometido(self@.ordenes, id),
                None => comprometido(self@.ordenes, id) > u32::MAX,
            },
    {
        let ghost ordenes = self@.ordenes;
        let mut acumulado: u32 = 0;
        let mut k: usize = 0;
        while k < self.historial_ordenes_de_compra.len()
            invariant
                k <= self.historial_ordenes_de_compra.len(),
                ordenes == self@.ordenes,
                acumulado == comprometido(ordenes.take(k as int), id),
            decreases self.historial_ordenes_de_compra.len() - k,
        {
            let orden = &self.historial_ordenes_de_compra[k];
            proof {
                assert(ordenes.take(k + 1).drop_last() =~= ordenes.take(k as int));
                assert(ordenes.take(k + 1).last() == orden@);
            }
            if orden.estado != EstadoCompra::Cancelada {
                let cantidad = match cantidad_de(&orden.info_publicacion.1, id) {
                    Some(c) => c,
                    None => {
                        proof {
                            lema_comprometido_prefijo(ordenes, k + 1, id);
                            lema_comprometido_no_negativo(ordenes.take(k as int), id);
                        }
                        return None;
                    },
                };
                if cantidad > u32::MAX - acumulado {
                    proof {
                        lema_comprometido_prefijo(ordenes, k + 1, id);
                    }
                    return None;
                }
                acumulado = acumulado + cantidad;
            }
            k += 1;
        }
        proof {
            assert(ordenes.take(k as int) =~= ordenes);
        }
        Some(acumulado)
    }

    /// Whether the units of every product, wherever they are, fit in one counter.
    pub(super) fn inventario_valido(&self) -> (valido: bool)
        requires
            self@.numeracion_coherente(),
        ensures
            valido == self@.inventario_acotado(),
    {
        let ghost vista = self@;
        let mut i: usize = 0;
        while i < self.existencias.len()
            invariant
                i <= self.existencias.len(),
                vista == self@,
                vista.numeracion_coherente(),
                forall|id: u32| 1 <= id <= i ==> #[trigger] vista.inventario(id) <= u32::MAX,
            decreases self.existencias.len() - i,
        {
            let id = (i + 1) as u32;
            let stock = self.existencias[i];
            proof {
                lema_reservado_no_negativo(vista.publicaciones, id);
                lema_comprometido_no_negativo(vista.ordenes, id);
                assert(existe(vista.productos.len(), id));
            }
            let reservadas = match self.reservado_de(id) {
                Some(c) => c,
                None => {
                    proof {
                        assert(vista.inventario(id) > u32::MAX);
                    }
                    return false;
                },
            };
            let comprometidas = match self.comprometido_de(id) {
                Some(c) => c,
                None => {
                    proof {
                        assert(vista.inventario(id) > u32::MAX);
                    }
                    return false;
                },
            };
            if stock as u64 + reservadas as u64 + comprometidas as u64 > u32::MAX as u64 {
                proof {
                    assert(vista.inventario(id) > u32::MAX);
                }
                return false;
            }
            proof {
                assert(vista.inventario(id) <= u32::MAX);
                assert forall|otro: u32| 1 <= otro <= i + 1 implies #[trigger] vista.inventario(
                    otro,
                ) <= u32::MAX by {
                    if otro != id {
                        assert(1 <= otro <= i);
                    }
                }
            }
            i += 1;
        }
        true
    }
}

} // verus!
