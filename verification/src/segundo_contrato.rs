//! Statistics over the history of the marketplace: rankings by reputation,
//! best-selling products, orders per buyer and sales per category.
//!
//! Nothing here changes the marketplace. Every function works on a snapshot
//! of its users, orders or products handed to it.

use vstd::prelude::*;
use ink::primitives::AccountId;
use crate::cuenta::bytes_de_cuenta;
use crate::error::ErrorMercado;
use crate::listas::copiar_pares;
use crate::orden::{EstadoCompra, OrdenCompra, OrdenVista};
use crate::ranking::{como_enteros, es_ranking, ordenar_por_puntaje, ranking};
use crate::rol::Rol;
use crate::usuario::{Usuario, UsuarioVista};

verus! {

/// The statistics of one marketplace, known by its address.
#[derive(Debug)]
pub struct SegundoContrato {
    marketplace: AccountId,
}

/// The users of a snapshot, as plain values.
pub open spec fn vistas_de_usuarios(usuarios: Seq<Usuario>) -> Seq<UsuarioVista> {
    usuarios.map_values(|u: Usuario| u@)
}

/// Accounts paired with scores, as plain values.
pub open spec fn vistas_de_puntuados(puntuados: Seq<(AccountId, u8)>) -> Seq<(Seq<u8>, u8)> {
    puntuados.map_values(|p: (AccountId, u8)| (bytes_de_cuenta(p.0), p.1))
}

/// Accounts as plain values.
pub open spec fn vistas_de_cuentas(cuentas: Seq<AccountId>) -> Seq<Seq<u8>> {
    cuentas.map_values(|c: AccountId| bytes_de_cuenta(c))
}

/// The sum of a list of scores.
pub open spec fn suma_de_puntajes(puntajes: Seq<u8>) -> int
    decreases puntajes.len(),
{
    if puntajes.len() == 0 {
        0
    } else {
        suma_de_puntajes(puntajes.drop_last()) + puntajes.last()
    }
}

/// The mean of a list of scores, rounded half up; 0 for an empty list.
pub open spec fn promedio(puntajes: Seq<u8>) -> int {
    if puntajes.len() == 0 {
        0
    } else {
        (suma_de_puntajes(puntajes) + puntajes.len() / 2) / (puntajes.len() as int)
    }
}

/// Whether the user currently sells.
pub open spec fn vende(usuario: UsuarioVista) -> bool {
    usuario.rol.vende()
}

/// Whether the user currently buys.
pub open spec fn compra(usuario: UsuarioVista) -> bool {
    usuario.rol.compra()
}

/// Whether the user has a buyer profile.
pub open spec fn con_datos_comprador(usuario: UsuarioVista) -> bool {
    usuario.datos_comprador.is_some()
}

/// Each user with the mean of the scores received as a seller. Meant for
/// users who all have a seller profile.
pub open spec fn promedios_de_vendedores(usuarios: Seq<UsuarioVista>) -> Seq<(Seq<u8>, u8)> {
    usuarios.map_values(
        |u: UsuarioVista|
            (u.id_usuario, promedio(u.datos_vendedor.unwrap().reputacion_como_vendedor) as u8),
    )
}

/// Each user with the mean of the scores received as a buyer. Meant for
/// users who all have a buyer profile.
pub open spec fn promedios_de_compradores(usuarios: Seq<UsuarioVista>) -> Seq<(Seq<u8>, u8)> {
    usuarios.map_values(
        |u: UsuarioVista|
            (u.id_usuario, promedio(u.datos_comprador.unwrap().reputacion_como_comprador) as u8),
    )
}

/// Whether every user has a seller profile.
pub open spec fn todos_con_perfil_vendedor(usuarios: Seq<UsuarioVista>) -> bool {
    forall|i: int| 0 <= i < usuarios.len() ==> (#[trigger] usuarios[i]).datos_vendedor.is_some()
}

/// Whether every user has a buyer profile.
pub open spec fn todos_con_perfil_comprador(usuarios: Seq<UsuarioVista>) -> bool {
    forall|i: int| 0 <= i < usuarios.len() ==> (#[trigger] usuarios[i]).datos_comprador.is_some()
}

/// The scores of a list of scored accounts, widened for ranking.
pub open spec fn puntajes_de(puntuados: Seq<(Seq<u8>, u8)>) -> Seq<u32> {
    puntuados.map_values(|p: (Seq<u8>, u8)| p.1 as u32)
}

/// The accounts with the `cuantos` best scores, best first; among equal
/// scores, whoever comes first in `puntuados`. All of them when there are
/// fewer than `cuantos`.
pub open spec fn mejores(puntuados: Seq<(Seq<u8>, u8)>, cuantos: nat) -> Seq<Seq<u8>> {
    Seq::new(
        if puntuados.len() < cuantos {
            puntuados.len()
        } else {
            cuantos
        },
        |k: int| puntuados[ranking(puntajes_de(puntuados))[k]].0,
    )
}

/// The five sellers of best mean reputation, or the failure to compute it
/// when one of the users has no seller profile.
pub open spec fn mejores_vendedores(
    vendedores: Seq<UsuarioVista>,
) -> Result<Seq<Seq<u8>>, ErrorMercado> {
    if todos_con_perfil_vendedor(vendedores) {
        Ok(mejores(promedios_de_vendedores(vendedores), 5))
    } else {
        Err(ErrorMercado::VendedorSinDatosCargados)
    }
}

/// The five buyers of best mean reputation, or the failure to compute it
/// when one of the users has no buyer profile.
pub open spec fn mejores_compradores(
    compradores: Seq<UsuarioVista>,
) -> Result<Seq<Seq<u8>>, ErrorMercado> {
    if todos_con_perfil_comprador(compradores) {
        Ok(mejores(promedios_de_compradores(compradores), 5))
    } else {
        Err(ErrorMercado::CompradorSinDatosCargados)
    }
}

/// The orders of a snapshot, as plain values.
pub open spec fn vistas_de_ordenes(ordenes: Seq<OrdenCompra>) -> Seq<OrdenVista> {
    ordenes.map_values(|o: OrdenCompra| o@)
}

/// Whether the order counts as a sale: shipped or received.
pub open spec fn es_venta(orden: OrdenVista) -> bool {
    orden.estado.concretada()
}

/// Whether the tally has an entry for product `id`.
pub open spec fn contiene_producto(contador: Seq<(u32, u32)>, id: u32) -> bool {
    exists|i: int| 0 <= i < contador.len() && (#[trigger] contador[i]).0 == id
}

/// The place of the first entry for product `id` in the tally.
pub open spec fn lugar_de_producto(contador: Seq<(u32, u32)>, id: u32) -> int {
    choose|i: int|
        0 <= i < contador.len() && (#[trigger] contador[i]).0 == id && forall|j: int|
            0 <= j < i ==> (#[trigger] contador[j]).0 != id
}

/// The tally after counting one (product, quantity) pair: the quantity joins
/// the entry of the product, or opens one at the end.
pub open spec fn acumular_par(
    contador: Seq<(u32, u32)>,
    par: (u32, u32),
) -> Result<Seq<(u32, u32)>, ErrorMercado> {
    if contiene_producto(contador, par.0) {
        let lugar = lugar_de_producto(contador, par.0);
        if contador[lugar].1 + par.1 > u32::MAX {
            Err(ErrorMercado::DesbordeAlSumar)
        } else {
            Ok(contador.update(lugar, (par.0, (contador[lugar].1 + par.1) as u32)))
        }
    } else {
        Ok(contador.push(par))
    }
}

/// The tally after counting every pair in turn, or the failure of the first
/// pair whose quantity no longer fits.
pub open spec fn acumular(
    contador: Seq<(u32, u32)>,
    pares: Seq<(u32, u32)>,
) -> Result<Seq<(u32, u32)>, ErrorMercado>
    decreases pares.len(),
{
    if pares.len() == 0 {
        Ok(contador)
    } else {
        match acumular(contador, pares.drop_last()) {
            Err(e) => Err(e),
            Ok(previo) => acumular_par(previo, pares.last()),
        }
    }
}

/// The tally after counting the pairs of every order in turn.
pub open spec fn acumular_ordenes(
    contador: Seq<(u32, u32)>,
    ordenes: Seq<OrdenVista>,
) -> Result<Seq<(u32, u32)>, ErrorMercado>
    decreases ordenes.len(),
{
    if ordenes.len() == 0 {
        Ok(contador)
    } else {
        match acumular_ordenes(contador, ordenes.drop_last()) {
            Err(e) => Err(e),
            Ok(previo) => acumular(previo, ordenes.last().info_publicacion.1),
        }
    }
}

/// The quantities of a tally, for ranking.
pub open spec fn cantidades_de(contador: Seq<(u32, u32)>) -> Seq<u32> {
    contador.map_values(|p: (u32, u32)| p.1)
}

/// The tally with the largest quantity first; among equal quantities, the
/// product counted first.
pub open spec fn ordenados_por_cantidad(contador: Seq<(u32, u32)>) -> Seq<(u32, u32)> {
    Seq::new(contador.len(), |k: int| contador[ranking(cantidades_de(contador))[k]])
}

/// The first `top` entries of a list, or all of them when there are fewer or
/// no limit is given.
pub open spec fn primeros(lista: Seq<(u32, u32)>, top: Option<u32>) -> Seq<(u32, u32)> {
    match top {
        Some(cuantos) => if cuantos < lista.len() {
            lista.take(cuantos as int)
        } else {
            lista
        },
        None => lista,
    }
}

/// The products sold, each with the quantity sold over all orders shipped or
/// received, best-selling first, cut to `top` entries if a limit is given.
pub open spec fn mas_vendidos(
    ordenes: Seq<OrdenVista>,
    top: Option<u32>,
) -> Result<Seq<(u32, u32)>, ErrorMercado> {
    let ventas = ordenes.filter(|o: OrdenVista| es_venta(o));
    if ventas.len() == 0 {
        Err(ErrorMercado::SinVentasConcretadas)
    } else {
        match acumular_ordenes(Seq::empty(), ventas) {
            Err(e) => Err(e),
            Ok(contador) => Ok(primeros(ordenados_por_cantidad(contador), top)),
        }
    }
}

/// The failure of a prefix of the pairs to be counted is the failure of the whole list.
pub proof fn lema_acumular_prefijo(contador: Seq<(u32, u32)>, pares: Seq<(u32, u32)>, i: int)
    requires
        0 <= i <= pares.len(),
        acumular(contador, pares.take(i)).is_err(),
    ensures
        acumular(contador, pares) == acumular(contador, pares.take(i)),
    decreases pares.len() - i,
{
    if i < pares.len() {
        assert(pares.take(i + 1).drop_last() =~= pares.take(i));
        lema_acumular_prefijo(contador, pares, i + 1);
    } else {
        assert(pares.take(i) =~= pares);
    }
}

/// The failure of a prefix of the orders to be counted is the failure of the whole list.
pub proof fn lema_acumular_ordenes_prefijo(
    contador: Seq<(u32, u32)>,
    ordenes: Seq<OrdenVista>,
    i: int,
)
    requires
        0 <= i <= ordenes.len(),
        acumular_ordenes(contador, ordenes.take(i)).is_err(),
    ensures
        acumular_ordenes(contador, ordenes) == acumular_ordenes(contador, ordenes.take(i)),
    decreases ordenes.len() - i,
{
    if i < ordenes.len() {
        assert(ordenes.take(i + 1).drop_last() =~= ordenes.take(i));
        lema_acumular_ordenes_prefijo(contador, ordenes, i + 1);
    } else {
        assert(ordenes.take(i) =~= ordenes);
    }
}

/// Accounts paired with counts, as plain values.
pub open spec fn vistas_de_contados(contados: Seq<(AccountId, u32)>) -> Seq<(Seq<u8>, u32)> {
    contados.map_values(|p: (AccountId, u32)| (bytes_de_cuenta(p.0), p.1))
}

/// How many orders the user has placed: the length of the history of orders
/// of its buyer profile, at most `u32::MAX`; 0 without a buyer profile.
pub open spec fn ordenes_de(usuario: UsuarioVista) -> u32 {
    match usuario.datos_comprador {
        Some(datos) => if datos.ordenes_de_compra.len() > u32::MAX {
            u32::MAX
        } else {
            datos.ordenes_de_compra.len() as u32
        },
        None => 0,
    }
}

/// Each user with the number of orders placed.
pub open spec fn cantidades_de_ordenes(usuarios: Seq<UsuarioVista>) -> Seq<(Seq<u8>, u32)> {
    usuarios.map_values(|u: UsuarioVista| (u.id_usuario, ordenes_de(u)))
}

/// Each user that has a buyer profile with the number of orders placed, or
/// `SinCompradores` when no user has one.
pub open spec fn ordenes_por_comprador(
    usuarios: Seq<UsuarioVista>,
) -> Result<Seq<(Seq<u8>, u32)>, ErrorMercado> {
    let compradores = usuarios.filter(|u: UsuarioVista| con_datos_comprador(u));
    if compradores.len() == 0 {
        Err(ErrorMercado::SinCompradores)
    } else {
        Ok(cantidades_de_ordenes(compradores))
    }
}

/// The sum of `n` scores is at most `255 * n`.
pub proof fn lema_suma_acotada(puntajes: Seq<u8>)
    ensures
        0 <= suma_de_puntajes(puntajes) <= 255 * puntajes.len(),
    decreases puntajes.len(),
{
    if puntajes.len() > 0 {
        lema_suma_acotada(puntajes.drop_last());
    }
}

/// The mean of a list of scores is itself a score: between 0 and 255.
pub proof fn lema_promedio_acotado(puntajes: Seq<u8>)
    ensures
        0 <= promedio(puntajes) <= 255,
{
    lema_suma_acotada(puntajes);
    if puntajes.len() > 0 {
        let n = puntajes.len() as int;
        let s = suma_de_puntajes(puntajes);
        assert((s + n / 2) / n <= 255 && (s + n / 2) / n >= 0) by (nonlinear_arith)
            requires
                0 <= s <= 255 * n,
                n > 0,
        ;
    }
}

impl SegundoContrato {
    /// The statistics of the marketplace at `primer_contrato_addr`.
    pub fn new(primer_contrato_addr: AccountId) -> (contrato: SegundoContrato)
        ensures
            contrato.marketplace() == primer_contrato_addr,
    {
        SegundoContrato { marketplace: primer_contrato_addr }
    }

    /// The address of the marketplace.
    pub closed spec fn marketplace(&self) -> AccountId {
        self.marketplace
    }

    /// The address of the marketplace.
    pub fn direccion_del_marketplace(&self) -> (direccion: AccountId)
        ensures
            direccion == self.marketplace(),
    {
        self.marketplace
    }

    /// The mean of a list of scores, rounded half up; 0 for an empty list.
    pub fn promedio_reputacion(&self, puntajes: Vec<u8>) -> (resultado: u8)
        ensures
            resultado == promedio(puntajes@),
    {
        promedio_de(&puntajes)
    }

    /// The users who currently sell, in the order given.
    pub fn filtrar_vendedores_interno(
        &self,
        usuarios: Vec<Usuario>,
    ) -> (vendedores: Vec<Usuario>)
        ensures
            vistas_de_usuarios(vendedores@) == vistas_de_usuarios(usuarios@).filter(
                |u: UsuarioVista| vende(u),
            ),
    {
        let mut vendedores: Vec<Usuario> = Vec::new();
        let mut i: usize = 0;
        proof {
            assert(vistas_de_usuarios(usuarios@).take(0) =~= Seq::empty());
            assert(vistas_de_usuarios(vendedores@) =~= Seq::empty());
        }
        while i < usuarios.len()
            invariant
                i <= usuarios.len(),
                vistas_de_usuarios(vendedores@) == vistas_de_usuarios(usuarios@).take(
                    i as int,
                ).filter(|u: UsuarioVista| vende(u)),
            decreases usuarios.len() - i,
        {
            let ghost previos = vistas_de_usuarios(vendedores@);
            proof {
                let todos = vistas_de_usuarios(usuarios@);
                reveal(Seq::filter);
                assert(todos.take(i + 1).drop_last() =~= todos.take(i as int));
                assert(todos.take(i + 1).last() == usuarios@[i as int]@);
            }
            if usuarios[i].rol == Rol::Vend || usuarios[i].rol
                == Rol::Ambos {
                let copia = usuarios[i].copiar();
                vendedores.push(copia);
                proof {
                    assert(vistas_de_usuarios(vendedores@) =~= previos.push(copia@));
                }
            }
            i += 1;
        }
        proof {
            assert(vistas_de_usuarios(usuarios@).take(i as int) =~= vistas_de_usuarios(usuarios@));
        }
        vendedores
    }

    /// The users who currently buy, in the order given.
    pub fn filtrar_compradores_interno(
        &self,
        usuarios: Vec<Usuario>,
    ) -> (compradores: Vec<Usuario>)
        ensures
            vistas_de_usuarios(compradores@) == vistas_de_usuarios(usuarios@).filter(
                |u: UsuarioVista| compra(u),
            ),
    {
        let mut compradores: Vec<Usuario> = Vec::new();
        let mut i: usize = 0;
        proof {
            assert(vistas_de_usuarios(usuarios@).take(0) =~= Seq::empty());
            assert(vistas_de_usuarios(compradores@) =~= Seq::empty());
        }
        while i < usuarios.len()
            invariant
                i <= usuarios.len(),
                vistas_de_usuarios(compradores@) == vistas_de_usuarios(usuarios@).take(
                    i as int,
                ).filter(|u: UsuarioVista| compra(u)),
            decreases usuarios.len() - i,
        {
            let ghost previos = vistas_de_usuarios(compradores@);
            proof {
                let todos = vistas_de_usuarios(usuarios@);
                reveal(Seq::filter);
                assert(todos.take(i + 1).drop_last() =~= todos.take(i as int));
                assert(todos.take(i + 1).last() == usuarios@[i as int]@);
            }
            if usuarios[i].rol == Rol::Comp || usuarios[i].rol
                == Rol::Ambos {
                let copia = usuarios[i].copiar();
                compradores.push(copia);
                proof {
                    assert(vistas_de_usuarios(compradores@) =~= previos.push(copia@));
                }
            }
            i += 1;
        }
        proof {
            assert(vistas_de_usuarios(usuarios@).take(i as int) =~= vistas_de_usuarios(usuarios@));
        }
        compradores
    }

    /// The users who have a buyer profile, in the order given.
    pub fn filtrar_con_datos_comprador(
        &self,
        usuarios: Vec<Usuario>,
    ) -> (con_datos: Vec<Usuario>)
        ensures
            vistas_de_usuarios(con_datos@) == vistas_de_usuarios(usuarios@).filter(
                |u: UsuarioVista| con_datos_comprador(u),
            ),
    {
        let mut con_datos: Vec<Usuario> = Vec::new();
        let mut i: usize = 0;
        proof {
            assert(vistas_de_usuarios(usuarios@).take(0) =~= Seq::empty());
            assert(vistas_de_usuarios(con_datos@) =~= Seq::empty());
        }
        while i < usuarios.len()
            invariant
                i <= usuarios.len(),
                vistas_de_usuarios(con_datos@) == vistas_de_usuarios(usuarios@).take(
                    i as int,
                ).filter(|u: UsuarioVista| con_datos_comprador(u)),
            decreases usuarios.len() - i,
        {
            let ghost previos = vistas_de_usuarios(con_datos@);
            proof {
                let todos = vistas_de_usuarios(usuarios@);
                reveal(Seq::filter);
                assert(todos.take(i + 1).drop_last() =~= todos.take(i as int));
                assert(todos.take(i + 1).last() == usuarios@[i as int]@);
            }
            if usuarios[i].datos_comprador.is_some() {
                let copia = usuarios[i].copiar();
                con_datos.push(copia);
                proof {
                    assert(vistas_de_usuarios(con_datos@) =~= previos.push(copia@));
                }
            }
            i += 1;
        }
        proof {
            assert(vistas_de_usuarios(usuarios@).take(i as int) =~= vistas_de_usuarios(usuarios@));
        }
        con_datos
    }

    /// Each seller with the mean of the scores received. Fails when a user
    /// has no seller profile.
    pub fn contar_promedios_vendedor(
        &self,
        vendedores: Vec<Usuario>,
    ) -> (resultado: Result<Vec<(AccountId, u8)>, ErrorMercado>)
        ensures
            match resultado {
                Ok(promedios) => todos_con_perfil_vendedor(vistas_de_usuarios(vendedores@))
                    && vistas_de_puntuados(promedios@) == promedios_de_vendedores(
                    vistas_de_usuarios(vendedores@),
                ),
                Err(e) => !todos_con_perfil_vendedor(vistas_de_usuarios(vendedores@)) && e
                    == ErrorMercado::VendedorSinDatosCargados,
            },
    {
        let mut vector_contador: Vec<(AccountId, u8)> = Vec::new();
        let mut i: usize = 0;
        let ghost todos = vistas_de_usuarios(vendedores@);
        while i < vendedores.len()
            invariant
                i <= vendedores.len(),
                todos == vistas_de_usuarios(vendedores@),
                vector_contador@.len() == i,
                todos_con_perfil_vendedor(todos.take(i as int)),
                vistas_de_puntuados(vector_contador@) == promedios_de_vendedores(
                    todos.take(i as int),
                ),
            decreases vendedores.len() - i,
        {
            let vendedor = &vendedores[i];
            let ghost previos = vistas_de_puntuados(vector_contador@);
            match &vendedor.datos_vendedor {
                Some(datos) => {
                    let promedio = promedio_de(&datos.reputacion_como_vendedor);
                    vector_contador.push((vendedor.id_usuario, promedio));
                    proof {
                        assert(todos[i as int] == vendedor@);
                        assert(todos.take(i + 1) =~= todos.take(i as int).push(todos[i as int]));
                        assert(vistas_de_puntuados(vector_contador@) =~= previos.push(
                            (vendedor@.id_usuario, promedio),
                        ));
                        assert(promedios_de_vendedores(todos.take(i + 1))
                            =~= promedios_de_vendedores(todos.take(i as int)).push(
                            (vendedor@.id_usuario, promedio),
                        ));
                    }
                },
                None => {
                    proof {
                        assert(todos[i as int] == vendedor@);
                    }
                    return Err(ErrorMercado::VendedorSinDatosCargados);
                },
            }
            i += 1;
        }
        proof {
            assert(todos.take(i as int) =~= todos);
        }
        Ok(vector_contador)
    }

    /// Each buyer with the mean of the scores received. Fails when a user
    /// has no buyer profile.
    pub fn contar_promedios_comprador(
        &self,
        compradores: Vec<Usuario>,
    ) -> (resultado: Result<Vec<(AccountId, u8)>, ErrorMercado>)
        ensures
            match resultado {
                Ok(promedios) => todos_con_perfil_comprador(vistas_de_usuarios(compradores@))
                    && vistas_de_puntuados(promedios@) == promedios_de_compradores(
                    vistas_de_usuarios(compradores@),
                ),
                Err(e) => !todos_con_perfil_comprador(vistas_de_usuarios(compradores@)) && e
                    == ErrorMercado::CompradorSinDatosCargados,
            },
    {
        let mut vector_contador: Vec<(AccountId, u8)> = Vec::new();
        let mut i: usize = 0;
        let ghost todos = vistas_de_usuarios(compradores@);
        while i < compradores.len()
            invariant
                i <= compradores.len(),
                todos == vistas_de_usuarios(compradores@),
                vector_contador@.len() == i,
                todos_con_perfil_comprador(todos.take(i as int)),
                vistas_de_puntuados(vector_contador@) == promedios_de_compradores(
                    todos.take(i as int),
                ),
            decreases compradores.len() - i,
        {
            let comprador = &compradores[i];
            let ghost previos = vistas_de_puntuados(vector_contador@);
            match &comprador.datos_comprador {
                Some(datos) => {
                    let promedio = promedio_de(&datos.reputacion_como_comprador);
                    vector_contador.push((comprador.id_usuario, promedio));
                    proof {
                        assert(todos[i as int] == comprador@);
                        assert(todos.take(i + 1) =~= todos.take(i as int).push(todos[i as int]));
                        assert(vistas_de_puntuados(vector_contador@) =~= previos.push(
                            (comprador@.id_usuario, promedio),
                        ));
                        assert(promedios_de_compradores(todos.take(i + 1))
                            =~= promedios_de_compradores(todos.take(i as int)).push(
                            (comprador@.id_usuario, promedio),
                        ));
                    }
                },
                None => {
                    proof {
                        assert(todos[i as int] == comprador@);
                    }
                    return Err(ErrorMercado::CompradorSinDatosCargados);
                },
            }
            i += 1;
        }
        proof {
            assert(todos.take(i as int) =~= todos);
        }
        Ok(vector_contador)
    }

    /// The accounts with the five best scores, best first; among equal
    /// scores, whoever comes first in `vec_contador`.
    pub fn calcular_5_mejores(
        &self,
        vec_contador: Vec<(AccountId, u8)>,
    ) -> (resultado: Result<Vec<AccountId>, ErrorMercado>)
        ensures
            resultado is Ok,
            vistas_de_cuentas(resultado.unwrap()@) == mejores(
                vistas_de_puntuados(vec_contador@),
                5,
            ),
    {
        let ghost puntuados = vistas_de_puntuados(vec_contador@);
        let mut claves: Vec<u32> = Vec::new();
        let mut i: usize = 0;
        while i < vec_contador.len()
            invariant
                i <= vec_contador.len(),
                puntuados == vistas_de_puntuados(vec_contador@),
                claves@ == puntajes_de(puntuados).take(i as int),
            decreases vec_contador.len() - i,
        {
            claves.push(vec_contador[i].1 as u32);
            proof {
                assert(claves@ =~= puntajes_de(puntuados).take(i + 1));
            }
            i += 1;
        }
        proof {
            assert(claves@ =~= puntajes_de(puntuados));
        }
        let puestos = ordenar_por_puntaje(&claves);
        let cuantos: usize = if puestos.len() < 5 {
            puestos.len()
        } else {
            5
        };
        let mut top: Vec<AccountId> = Vec::new();
        let mut k: usize = 0;
        proof {
            assert(como_enteros(puestos@).len() == puestos@.len());
        }
        while k < cuantos
            invariant
                k <= cuantos <= puestos@.len(),
                puestos@.len() == vec_contador@.len(),
                puntuados == vistas_de_puntuados(vec_contador@),
                es_ranking(puntajes_de(puntuados), como_enteros(puestos@)),
                como_enteros(puestos@) == ranking(puntajes_de(puntuados)),
                top@.len() == k,
                forall|j: int|
                    0 <= j < k ==> bytes_de_cuenta(#[trigger] top@[j])
                        == puntuados[ranking(puntajes_de(puntuados))[j]].0,
            decreases cuantos - k,
        {
            proof {
                assert(como_enteros(puestos@)[k as int] == puestos@[k as int]);
            }
            let puesto = puestos[k];
            top.push(vec_contador[puesto].0);
            k += 1;
        }
        proof {
            assert(vistas_de_cuentas(top@) =~= mejores(puntuados, 5));
        }
        Ok(top)
    }

    /// The five sellers of best mean reputation among `vendedores`.
    pub fn procesar_vendedores_mejor_reputacion(
        &self,
        vendedores: Vec<Usuario>,
    ) -> (resultado: Result<Vec<AccountId>, ErrorMercado>)
        ensures
            match resultado {
                Ok(top) => Ok::<Seq<Seq<u8>>, ErrorMercado>(vistas_de_cuentas(top@)),
                Err(e) => Err(e),
            } == mejores_vendedores(vistas_de_usuarios(vendedores@)),
    {
        let vec_contador = match self.contar_promedios_vendedor(vendedores) {
            Ok(promedios) => promedios,
            Err(e) => {
                return Err(e);
            },
        };
        self.calcular_5_mejores(vec_contador)
    }

    /// The five buyers of best mean reputation among `compradores`.
    pub fn procesar_compradores_mejor_reputacion(
        &self,
        compradores: Vec<Usuario>,
    ) -> (resultado: Result<Vec<AccountId>, ErrorMercado>)
        ensures
            match resultado {
                Ok(top) => Ok::<Seq<Seq<u8>>, ErrorMercado>(vistas_de_cuentas(top@)),
                Err(e) => Err(e),
            } == mejores_compradores(vistas_de_usuarios(compradores@)),
    {
        let vec_contador = match self.contar_promedios_comprador(compradores) {
            Ok(promedios) => promedios,
            Err(e) => {
                return Err(e);
            },
        };
        self.calcular_5_mejores(vec_contador)
    }

    /// The five users of best mean reputation as sellers, among those of
    /// `usuarios` who currently sell.
    pub fn vendedores_mejor_reputacion(
        &self,
        usuarios: Vec<Usuario>,
    ) -> (resultado: Result<Vec<AccountId>, ErrorMercado>)
        ensures
            match resultado {
                Ok(top) => Ok::<Seq<Seq<u8>>, ErrorMercado>(vistas_de_cuentas(top@)),
                Err(e) => Err(e),
            } == mejores_vendedores(
                vistas_de_usuarios(usuarios@).filter(|u: UsuarioVista| vende(u)),
            ),
    {
        let vendedores = self.filtrar_vendedores_interno(usuarios);
        self.procesar_vendedores_mejor_reputacion(vendedores)
    }

    /// The five users of best mean reputation as buyers, among those of
    /// `usuarios` who currently buy.
    pub fn compradores_mejor_reputacion(
        &self,
        usuarios: Vec<Usuario>,
    ) -> (resultado: Result<Vec<AccountId>, ErrorMercado>)
        ensures
            match resultado {
                Ok(top) => Ok::<Seq<Seq<u8>>, ErrorMercado>(vistas_de_cuentas(top@)),
                Err(e) => Err(e),
            } == mejores_compradores(
                vistas_de_usuarios(usuarios@).filter(|u: UsuarioVista| compra(u)),
            ),
    {
        let compradores = self.filtrar_compradores_interno(usuarios);
        self.procesar_compradores_mejor_reputacion(compradores)
    }

    /// Counts the quantities of one order into the tally: each quantity joins
    /// the entry of its product, or opens one at the end. On failure the
    /// tally is left as it was.
    pub fn procesar_orden(
        &self,
        vector_contador: &mut Vec<(u32, u32)>,
        orden: OrdenCompra,
    ) -> (resultado: Result<(), ErrorMercado>)
        ensures
            match resultado {
                Ok(()) => Ok::<Seq<(u32, u32)>, ErrorMercado>(final(vector_contador)@),
                Err(e) => Err(e),
            } == acumular(old(vector_contador)@, orden@.info_publicacion.1),
            resultado is Err ==> final(vector_contador)@ == old(vector_contador)@,
    {
        let pares = &orden.info_publicacion.1;
        let mut contador = copiar_pares(vector_contador);
        let mut i: usize = 0;
        while i < pares.len()
            invariant
                i <= pares.len(),
                pares@ == orden@.info_publicacion.1,
                vector_contador@ == old(vector_contador)@,
                acumular(vector_contador@, pares@.take(i as int)) == Ok::<
                    Seq<(u32, u32)>,
                    ErrorMercado,
                >(contador@),
            decreases pares.len() - i,
        {
            let (id_producto, cantidad_producto) = pares[i];
            proof {
                assert(pares@.take(i + 1).drop_last() =~= pares@.take(i as int));
                assert(pares@.take(i + 1).last() == (id_producto, cantidad_producto));
            }
            match lugar_en_contador(&contador, id_producto) {
                Some(pos) => {
                    let previa = contador[pos].1;
                    if cantidad_producto > u32::MAX - previa {
                        proof {
                            assert(acumular_par(contador@, (id_producto, cantidad_producto))
                                == Err::<Seq<(u32, u32)>, ErrorMercado>(
                                ErrorMercado::DesbordeAlSumar,
                            ));
                            assert(acumular(vector_contador@, pares@.take(i + 1)).is_err());
                            lema_acumular_prefijo(vector_contador@, pares@, i + 1);
                        }
                        return Err(ErrorMercado::DesbordeAlSumar);
                    }
                    contador.set(pos, (id_producto, previa + cantidad_producto));
                },
                None => {
                    contador.push((id_producto, cantidad_producto));
                },
            }
            i += 1;
        }
        proof {
            assert(pares@.take(i as int) =~= pares@);
        }
        *vector_contador = contador;
        Ok(())
    }

    /// The orders that count as sales: shipped or received, in the order given.
    pub fn filtrar_validas(&self, ordenes: Vec<OrdenCompra>) -> (validas: Vec<OrdenCompra>)
        ensures
            vistas_de_ordenes(validas@) == vistas_de_ordenes(ordenes@).filter(
                |o: OrdenVista| es_venta(o),
            ),
    {
        let mut validas: Vec<OrdenCompra> = Vec::new();
        let mut i: usize = 0;
        proof {
            assert(vistas_de_ordenes(ordenes@).take(0) =~= Seq::empty());
            assert(vistas_de_ordenes(validas@) =~= Seq::empty());
        }
        while i < ordenes.len()
            invariant
                i <= ordenes.len(),
                vistas_de_ordenes(validas@) == vistas_de_ordenes(ordenes@).take(i as int).filter(
                    |o: OrdenVista| es_venta(o),
                ),
            decreases ordenes.len() - i,
        {
            let ghost previas = vistas_de_ordenes(validas@);
            proof {
                let todas = vistas_de_ordenes(ordenes@);
                reveal(Seq::filter);
                assert(todas.take(i + 1).drop_last() =~= todas.take(i as int));
                assert(todas.take(i + 1).last() == ordenes@[i as int]@);
            }
            if ordenes[i].estado != EstadoCompra::Pendiente && ordenes[i].estado
                != EstadoCompra::Cancelada {
                let copia = ordenes[i].copiar();
                validas.push(copia);
                proof {
                    assert(vistas_de_ordenes(validas@) =~= previas.push(copia@));
                }
            }
            i += 1;
        }
        proof {
            assert(vistas_de_ordenes(ordenes@).take(i as int) =~= vistas_de_ordenes(ordenes@));
        }
        validas
    }

    /// The products sold over the orders shipped or received, each with the
    /// quantity sold, best-selling first, cut to `top` entries if given.
    /// Fails when no order has been shipped or received.
    pub fn procesar_productos_mas_vendidos(
        &self,
        ordenes: Vec<OrdenCompra>,
        top: Option<u32>,
    ) -> (resultado: Result<Vec<(u32, u32)>, ErrorMercado>)
        ensures
            match resultado {
                Ok(vendidos) => Ok::<Seq<(u32, u32)>, ErrorMercado>(vendidos@),
                Err(e) => Err(e),
            } == mas_vendidos(vistas_de_ordenes(ordenes@), top),
    {
        let validas = self.filtrar_validas(ordenes);
        if validas.len() == 0 {
            proof {
                assert(vistas_de_ordenes(validas@).len() == validas@.len());
            }
            return Err(ErrorMercado::SinVentasConcretadas);
        }
        proof {
            assert(vistas_de_ordenes(validas@).len() == validas@.len());
        }
        let ghost ventas = vistas_de_ordenes(validas@);
        let mut vector_contador: Vec<(u32, u32)> = Vec::new();
        let mut i: usize = 0;
        while i < validas.len()
            invariant
                i <= validas.len(),
                ventas == vistas_de_ordenes(validas@),
                ventas == vistas_de_ordenes(ordenes@).filter(|o: OrdenVista| es_venta(o)),
                ventas.len() > 0,
                acumular_ordenes(Seq::empty(), ventas.take(i as int)) == Ok::<
                    Seq<(u32, u32)>,
                    ErrorMercado,
                >(vector_contador@),
            decreases validas.len() - i,
        {
            proof {
                assert(ventas.take(i + 1).drop_last() =~= ventas.take(i as int));
                assert(ventas.take(i + 1).last() == validas@[i as int]@);
            }
            let orden = validas[i].copiar();
            let ghost previo = vector_contador@;
            match self.procesar_orden(&mut vector_contador, orden) {
                Ok(()) => {},
                Err(e) => {
                    proof {
                        assert(acumular(previo, ventas[i as int].info_publicacion.1).is_err());
                        assert(acumular_ordenes(Seq::empty(), ventas.take(i + 1)).is_err());
                        lema_acumular_ordenes_prefijo(Seq::empty(), ventas, i + 1);
                    }
                    return Err(e);
                },
            }
            i += 1;
        }
        proof {
            assert(ventas.take(i as int) =~= ventas);
        }
        let ordenado = ordenar_por_cantidad(&vector_contador);
        Ok(tomar_primeros(ordenado, top))
    }

    /// The best-selling products of a snapshot of the orders.
    pub fn productos_mas_vendidos(
        &self,
        ordenes: Vec<OrdenCompra>,
        top: Option<u32>,
    ) -> (resultado: Result<Vec<(u32, u32)>, ErrorMercado>)
        ensures
            match resultado {
                Ok(vendidos) => Ok::<Seq<(u32, u32)>, ErrorMercado>(vendidos@),
                Err(e) => Err(e),
            } == mas_vendidos(vistas_de_ordenes(ordenes@), top),
    {
        self.procesar_productos_mas_vendidos(ordenes, top)
    }

    /// Each user with the number of orders placed; 0 for a user without a
    /// buyer profile.
    pub fn contar_cantidades(
        &self,
        usuarios: Vec<Usuario>,
    ) -> (cantidades: Vec<(AccountId, u32)>)
        ensures
            vistas_de_contados(cantidades@) == cantidades_de_ordenes(vistas_de_usuarios(usuarios@)),
    {
        let ghost todos = vistas_de_usuarios(usuarios@);
        let mut cantidades: Vec<(AccountId, u32)> = Vec::new();
        let mut i: usize = 0;
        while i < usuarios.len()
            invariant
                i <= usuarios.len(),
                todos == vistas_de_usuarios(usuarios@),
                cantidades@.len() == i,
                vistas_de_contados(cantidades@) == cantidades_de_ordenes(todos).take(i as int),
            decreases usuarios.len() - i,
        {
            let usuario = &usuarios[i];
            let ghost previas = vistas_de_contados(cantidades@);
            let cantidad: u32 = match &usuario.datos_comprador {
                Some(datos) => {
                    if datos.ordenes_de_compra.len() > u32::MAX as usize {
                        u32::MAX
                    } else {
                        datos.ordenes_de_compra.len() as u32
                    }
                },
                None => 0,
            };
            cantidades.push((usuario.id_usuario, cantidad));
            proof {
                assert(todos[i as int] == usuario@);
                assert(vistas_de_contados(cantidades@) =~= previas.push(
                    (usuario@.id_usuario, cantidad),
                ));
                assert(cantidades_de_ordenes(todos).take(i + 1) =~= cantidades_de_ordenes(
                    todos,
                ).take(i as int).push((usuario@.id_usuario, cantidad)));
            }
            i += 1;
        }
        proof {
            assert(cantidades_de_ordenes(todos).take(i as int) =~= cantidades_de_ordenes(todos));
        }
        cantidades
    }

    /// Each user that has a buyer profile with the number of orders placed.
    /// Fails when no user has a buyer profile.
    pub fn procesar_cantidad_ordenes_por_usuarios(
        &self,
        usuarios: Vec<Usuario>,
    ) -> (resultado: Result<Vec<(AccountId, u32)>, ErrorMercado>)
        ensures
            match resultado {
                Ok(cantidades) => Ok::<Seq<(Seq<u8>, u32)>, ErrorMercado>(
                    vistas_de_contados(cantidades@),
                ),
                Err(e) => Err(e),
            } == ordenes_por_comprador(vistas_de_usuarios(usuarios@)),
    {
        let usuarios = self.filtrar_con_datos_comprador(usuarios);
        proof {
            assert(vistas_de_usuarios(usuarios@).len() == usuarios@.len());
        }
        if usuarios.len() == 0 {
            return Err(ErrorMercado::SinCompradores);
        }
        let cantidades = self.contar_cantidades(usuarios);
        Ok(cantidades)
    }

    /// The orders per buyer of a snapshot of the users.
    pub fn cantidad_ordenes_por_usuarios(
        &self,
        usuarios: Vec<Usuario>,
    ) -> (resultado: Result<Vec<(AccountId, u32)>, ErrorMercado>)
        ensures
            match resultado {
                Ok(cantidades) => Ok::<Seq<(Seq<u8>, u32)>, ErrorMercado>(
                    vistas_de_contados(cantidades@),
                ),
                Err(e) => Err(e),
            } == ordenes_por_comprador(vistas_de_usuarios(usuarios@)),
    {
        self.procesar_cantidad_ordenes_por_usuarios(usuarios)
    }
}

/// The place of the first entry for product `id` in the tally, if it has one.
fn lugar_en_contador(contador: &Vec<(u32, u32)>, id: u32) -> (lugar: Option<usize>)
    ensures
        match lugar {
            Some(i) => contiene_producto(contador@, id) && i == lugar_de_producto(contador@, id)
                && i < contador@.len(),
            None => !contiene_producto(contador@, id),
        },
{
    let mut i: usize = 0;
    while i < contador.len()
        invariant
            i <= contador.len(),
            forall|j: int| 0 <= j < i ==> (#[trigger] contador@[j]).0 != id,
        decreases contador.len() - i,
    {
        if contador[i].0 == id {
            proof {
                let elegido = lugar_de_producto(contador@, id);
                assert(contador@[i as int].0 == id);
                if elegido < i {
                    assert(contador@[elegido].0 != id);
                }
                if i < elegido {
                    assert(contador@[i as int].0 != id);
                }
            }
            return Some(i);
        }
        i += 1;
    }
    None
}

/// The tally with the largest quantity first; among equal quantities, the
/// product counted first.
fn ordenar_por_cantidad(contador: &Vec<(u32, u32)>) -> (ordenado: Vec<(u32, u32)>)
    ensures
        ordenado@ == ordenados_por_cantidad(contador@),
{
    let mut claves: Vec<u32> = Vec::new();
    let mut i: usize = 0;
    while i < contador.len()
        invariant
            i <= contador.len(),
            claves@ == cantidades_de(contador@).take(i as int),
        decreases contador.len() - i,
    {
        claves.push(contador[i].1);
        proof {
            assert(claves@ =~= cantidades_de(contador@).take(i + 1));
        }
        i += 1;
    }
    proof {
        assert(claves@ =~= cantidades_de(contador@));
    }
    let puestos = ordenar_por_puntaje(&claves);
    proof {
        assert(como_enteros(puestos@).len() == puestos@.len());
    }
    let mut ordenado: Vec<(u32, u32)> = Vec::new();
    let mut k: usize = 0;
    while k < puestos.len()
        invariant
            k <= puestos@.len(),
            puestos@.len() == contador@.len(),
            es_ranking(cantidades_de(contador@), como_enteros(puestos@)),
            como_enteros(puestos@) == ranking(cantidades_de(contador@)),
            ordenado@.len() == k,
            forall|j: int|
                0 <= j < k ==> #[trigger] ordenado@[j] == contador@[ranking(
                    cantidades_de(contador@),
                )[j]],
        decreases puestos@.len() - k,
    {
        proof {
            assert(como_enteros(puestos@)[k as int] == puestos@[k as int]);
        }
        ordenado.push(contador[puestos[k]]);
        k += 1;
    }
    proof {
        assert(ordenado@ =~= ordenados_por_cantidad(contador@));
    }
    ordenado
}

/// The first `top` entries of a list, or all of them when there are fewer or
/// no limit is given.
fn tomar_primeros(lista: Vec<(u32, u32)>, top: Option<u32>) -> (resultado: Vec<(u32, u32)>)
    ensures
        resultado@ == primeros(lista@, top),
{
    match top {
        Some(cuantos) => {
            if (cuantos as usize) < lista.len() {
                let mut lista = lista;
                lista.truncate(cuantos as usize);
                lista
            } else {
                lista
            }
        },
        None => lista,
    }
}

/// The mean of a list of scores, rounded half up; 0 for an empty list.
fn promedio_de(puntajes: &Vec<u8>) -> (resultado: u8)
    ensures
        resultado == promedio(puntajes@),
{
    let n = puntajes.len();
    if n == 0 {
        return 0;
    }
    let mut suma: u128 = 0;
    let mut i: usize = 0;
    while i < n
        invariant
            i <= n,
            n == puntajes.len(),
            suma == suma_de_puntajes(puntajes@.take(i as int)),
            suma <= 255 * i,
        decreases n - i,
    {
        proof {
            assert(puntajes@.take(i + 1).drop_last() =~= puntajes@.take(i as int));
        }
        suma = suma + puntajes[i] as u128;
        i += 1;
    }
    proof {
        assert(puntajes@.take(n as int) =~= puntajes@);
        lema_promedio_acotado(puntajes@);
    }
    let mitad = (n as u128) / 2;
    let avg = (suma + mitad) / (n as u128);
    avg as u8
}

} // verus!
