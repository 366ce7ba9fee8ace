//! Every operation that succeeds on a consistent marketplace leaves a
//! consistent marketplace.

use vstd::prelude::*;
use crate::conservacion::{
    ley_inventario_tras_calificar, ley_inventario_tras_cancelar,
    ley_inventario_tras_cargar_producto, ley_inventario_tras_enviar, ley_inventario_tras_ordenar,
    ley_inventario_tras_publicar, ley_inventario_tras_recibir,
};
use crate::error::ErrorMercado;
use crate::estado::{falta_en_par, pares_validos, MercadoVista};
use crate::existencias::{existe, tras_aumentar, tras_descontar};
use crate::orden::{EstadoCompra, OrdenVista};
use crate::rol::Rol;
use crate::usuario::UsuarioVista;

verus! {

/// Among users with distinct accounts, a user is found under its own account
/// at its own place.
pub proof fn lema_indice(vista: MercadoVista, i: int)
    requires
        vista.usuarios_coherentes(),
        0 <= i < vista.usuarios.len(),
    ensures
        vista.registrado(vista.usuarios[i].id_usuario),
        vista.indice(vista.usuarios[i].id_usuario) == i,
        vista.usuario(vista.usuarios[i].id_usuario) == vista.usuarios[i],
{
    let cuenta = vista.usuarios[i].id_usuario;
    let j = vista.indice(cuenta);
    assert(0 <= j < vista.usuarios.len() && vista.usuarios[j].id_usuario == cuenta);
    if j < i {
        assert(vista.usuarios[j].id_usuario != vista.usuarios[i].id_usuario);
    }
    if i < j {
        assert(vista.usuarios[i].id_usuario != vista.usuarios[j].id_usuario);
    }
}

/// Whether `nuevos` holds the users of `previos` at the same places, under
/// the same accounts, with at least the profiles they had.
pub open spec fn usuarios_conservados(
    previos: Seq<UsuarioVista>,
    nuevos: Seq<UsuarioVista>,
) -> bool {
    &&& previos.len() <= nuevos.len()
    &&& forall|i: int|
        0 <= i < previos.len() ==> {
            &&& (#[trigger] nuevos[i]).id_usuario == previos[i].id_usuario
            &&& previos[i].datos_vendedor.is_some() ==> nuevos[i].datos_vendedor.is_some()
            &&& previos[i].datos_comprador.is_some() ==> nuevos[i].datos_comprador.is_some()
        }
}

/// Listings and orders that referred to users and products before still do
/// after users have been added or have gained history, and products added.
pub proof fn lema_referencias(previo: MercadoVista, nuevo: MercadoVista)
    requires
        previo.publicaciones_coherentes(),
        previo.ordenes_coherentes(),
        usuarios_conservados(previo.usuarios, nuevo.usuarios),
        previo.productos.len() <= nuevo.productos.len(),
    ensures
        forall|i: int|
            0 <= i < previo.publicaciones.len() ==> {
                &&& nuevo.tiene_perfil_vendedor((#[trigger] previo.publicaciones[i]).id_vendedor)
                &&& nuevo.productos_conocidos(previo.publicaciones[i].productos)
            },
        forall|i: int|
            0 <= i < previo.ordenes.len() ==> nuevo.tiene_perfil_comprador(
                (#[trigger] previo.ordenes[i]).id_comprador,
            ),
        forall|cuenta: Seq<u8>| previo.registrado(cuenta) ==> nuevo.registrado(cuenta),
{
    assert forall|i: int| 0 <= i < previo.publicaciones.len() implies {
        &&& nuevo.tiene_perfil_vendedor((#[trigger] previo.publicaciones[i]).id_vendedor)
        &&& nuevo.productos_conocidos(previo.publicaciones[i].productos)
    } by {
        let cuenta = previo.publicaciones[i].id_vendedor;
        assert(previo.tiene_perfil_vendedor(cuenta));
        let k = choose|k: int|
            0 <= k < previo.usuarios.len() && #[trigger] previo.usuarios[k].id_usuario == cuenta
                && previo.usuarios[k].datos_vendedor.is_some();
        assert(nuevo.usuarios[k].id_usuario == cuenta);
        assert(previo.productos_conocidos(previo.publicaciones[i].productos));
    }
    assert forall|i: int| 0 <= i < previo.ordenes.len() implies nuevo.tiene_perfil_comprador(
        (#[trigger] previo.ordenes[i]).id_comprador,
    ) by {
        let cuenta = previo.ordenes[i].id_comprador;
        assert(previo.tiene_perfil_comprador(cuenta));
        let k = choose|k: int|
            0 <= k < previo.usuarios.len() && #[trigger] previo.usuarios[k].id_usuario == cuenta
                && previo.usuarios[k].datos_comprador.is_some();
        assert(nuevo.usuarios[k].id_usuario == cuenta);
    }
    assert forall|cuenta: Seq<u8>| previo.registrado(cuenta) implies nuevo.registrado(cuenta) by {
        let k = previo.indice(cuenta);
        assert(nuevo.usuarios[k].id_usuario == cuenta);
    }
}

/// The outcome of an operation that has kept the inventory of every product
/// is within bounds if the marketplace was.
pub proof fn lema_acotado(previo: MercadoVista, resultado: Result<MercadoVista, ErrorMercado>)
    requires
        previo.inventario_acotado(),
        resultado is Ok,
        resultado.unwrap().productos.len() == previo.productos.len(),
        forall|id: u32|
            existe(previo.productos.len(), id) ==> #[trigger] resultado.unwrap().inventario(id)
                == previo.inventario(id),
    ensures
        resultado.unwrap().inventario_acotado(),
{
    let nuevo = resultado.unwrap();
    assert forall|id: u32| existe(nuevo.productos.len(), id) implies #[trigger] nuevo.inventario(
        id,
    ) <= u32::MAX by {
        assert(previo.inventario(id) <= u32::MAX);
    }
}

/// A user that has a seller profile is registered, and found with that profile.
pub proof fn lema_perfil_vendedor(vista: MercadoVista, cuenta: Seq<u8>)
    requires
        vista.usuarios_coherentes(),
        vista.tiene_perfil_vendedor(cuenta),
    ensures
        vista.registrado(cuenta),
        vista.usuario(cuenta).datos_vendedor.is_some(),
{
    let k = choose|k: int|
        0 <= k < vista.usuarios.len() && #[trigger] vista.usuarios[k].id_usuario == cuenta
            && vista.usuarios[k].datos_vendedor.is_some();
    lema_indice(vista, k);
}

/// A user that has a buyer profile is registered, and found with that profile.
pub proof fn lema_perfil_comprador(vista: MercadoVista, cuenta: Seq<u8>)
    requires
        vista.usuarios_coherentes(),
        vista.tiene_perfil_comprador(cuenta),
    ensures
        vista.registrado(cuenta),
        vista.usuario(cuenta).datos_comprador.is_some(),
{
    let k = choose|k: int|
        0 <= k < vista.usuarios.len() && #[trigger] vista.usuarios[k].id_usuario == cuenta
            && vista.usuarios[k].datos_comprador.is_some();
    lema_indice(vista, k);
}

/// Returning pairs to stock keeps the number of counters.
pub proof fn lema_aumentar_longitud(existencias: Seq<u32>, pares: Seq<(u32, u32)>)
    requires
        tras_aumentar(existencias, pares) is Ok,
    ensures
        tras_aumentar(existencias, pares).unwrap().len() == existencias.len(),
    decreases pares.len(),
{
    if pares.len() > 0 {
        lema_aumentar_longitud(existencias, pares.drop_last());
    }
}

/// Taking pairs out of stock keeps the number of counters.
pub proof fn lema_descontar_longitud(existencias: Seq<u32>, pares: Seq<(u32, u32)>)
    requires
        tras_descontar(existencias, pares) is Some,
    ensures
        tras_descontar(existencias, pares).unwrap().len() == existencias.len(),
    decreases pares.len(),
{
    if pares.len() > 0 {
        lema_descontar_longitud(existencias, pares.drop_last());
    }
}

/// Pairs that pass the ownership check of a user name products of the marketplace.
pub proof fn lema_validos_conocidos(vista: MercadoVista, i: int, pares: Seq<(u32, u32)>)
    requires
        vista.usuarios_coherentes(),
        0 <= i < vista.usuarios.len(),
        pares_validos(vista.usuarios[i], pares) is Ok,
    ensures
        vista.productos_conocidos(pares),
    decreases pares.len(),
{
    if pares.len() > 0 {
        lema_validos_conocidos(vista, i, pares.drop_last());
        let ultimo = pares.last();
        assert(falta_en_par(vista.usuarios[i], ultimo) is None);
        let propios = vista.usuarios[i].datos_vendedor.unwrap().productos;
        let k = choose|k: int| 0 <= k < propios.len() && propios[k] == ultimo.0;
        assert(existe(
            vista.productos.len(),
            vista.usuarios[i].datos_vendedor.unwrap().productos[k],
        ));
        assert forall|k: int| 0 <= k < pares.len() implies existe(
            vista.productos.len(),
            (#[trigger] pares[k]).0,
        ) by {
            if k < pares.len() - 1 {
                assert(pares.drop_last()[k] == pares[k]);
            }
        }
    }
}

/// Replacing a user by one under the same account, with at least the same
/// profiles and with products that exist, keeps the references consistent.
pub proof fn lema_con_usuario(vista: MercadoVista, cuenta: Seq<u8>, usuario: UsuarioVista)
    requires
        vista.estructura_coherente(),
        vista.registrado(cuenta),
        usuario.id_usuario == cuenta,
        usuario.bien_formado(),
        vista.usuario(cuenta).datos_vendedor.is_some() ==> usuario.datos_vendedor.is_some(),
        vista.usuario(cuenta).datos_comprador.is_some() ==> usuario.datos_comprador.is_some(),
        usuario.datos_vendedor.is_some() ==> forall|k: int|
            0 <= k < usuario.datos_vendedor.unwrap().productos.len() ==> existe(
                vista.productos.len(),
                #[trigger] usuario.datos_vendedor.unwrap().productos[k],
            ),
    ensures
        vista.con_usuario(cuenta, usuario).estructura_coherente(),
        vista.con_usuario(cuenta, usuario).usuario(cuenta) == usuario,
        forall|otra: Seq<u8>|
            vista.con_usuario(cuenta, usuario).registrado(otra) == vista.registrado(otra),
        forall|otra: Seq<u8>|
            otra != cuenta && vista.registrado(otra) ==> #[trigger] vista.con_usuario(
                cuenta,
                usuario,
            ).usuario(otra) == vista.usuario(otra),
{
    let nueva = vista.con_usuario(cuenta, usuario);
    let i = vista.indice(cuenta);
    lema_referencias(vista, nueva);
    assert forall|a: int, b: int| 0 <= a < b < nueva.usuarios.len() implies (
    #[trigger] nueva.usuarios[a]).id_usuario != (#[trigger] nueva.usuarios[b]).id_usuario by {
        assert(vista.usuarios[a].id_usuario != vista.usuarios[b].id_usuario);
    }
    assert forall|a: int, k: int|
        0 <= a < nueva.usuarios.len() && nueva.usuarios[a].datos_vendedor.is_some() && 0 <= k
            < nueva.usuarios[a].datos_vendedor.unwrap().productos.len() implies existe(
        nueva.productos.len(),
        #[trigger] (#[trigger] nueva.usuarios[a]).datos_vendedor.unwrap().productos[k],
    ) by {
        if a != i {
            assert(existe(
                vista.productos.len(),
                vista.usuarios[a].datos_vendedor.unwrap().productos[k],
            ));
        }
    }
    assert(nueva.usuarios_coherentes());
    lema_indice(nueva, i);
    assert forall|otra: Seq<u8>| nueva.registrado(otra) == vista.registrado(otra) by {
        if nueva.registrado(otra) {
            let k = nueva.indice(otra);
            assert(vista.usuarios[k].id_usuario == otra);
        }
    }
    assert forall|otra: Seq<u8>|
        otra != cuenta && vista.registrado(otra) implies #[trigger] nueva.usuario(otra)
        == vista.usuario(otra) by {
        let k = vista.indice(otra);
        lema_indice(vista, k);
        assert(nueva.usuarios[k] == vista.usuarios[k]);
        lema_indice(nueva, k);
    }
}

/// Replacing an order by one that refers to the same listing and buyer keeps
/// the references consistent.
pub proof fn lema_con_orden(vista: MercadoVista, i: int, orden: OrdenVista)
    requires
        vista.estructura_coherente(),
        0 <= i < vista.ordenes.len(),
        orden.id == vista.ordenes[i].id,
        orden.info_publicacion == vista.ordenes[i].info_publicacion,
        orden.id_comprador == vista.ordenes[i].id_comprador,
    ensures
        (MercadoVista { ordenes: vista.ordenes.update(i, orden), ..vista }).estructura_coherente(),
{
    let nueva = MercadoVista { ordenes: vista.ordenes.update(i, orden), ..vista };
    assert forall|j: int| 0 <= j < nueva.ordenes.len() implies {
        let o = #[trigger] nueva.ordenes[j];
        &&& o.info_publicacion.0 < nueva.publicaciones.len()
        &&& o.info_publicacion.1 == nueva.publicaciones[o.info_publicacion.0 as int].productos
        &&& o.info_publicacion.2 == nueva.publicaciones[o.info_publicacion.0 as int].precio_final
        &&& o.info_publicacion.3 == nueva.publicaciones[o.info_publicacion.0 as int].id_vendedor
        &&& nueva.tiene_perfil_comprador(o.id_comprador)
        &&& o.id_comprador != o.info_publicacion.3
    } by {
        assert(nueva.ordenes[j].info_publicacion == vista.ordenes[j].info_publicacion);
        assert(nueva.ordenes[j].id_comprador == vista.ordenes[j].id_comprador);
        assert(vista.tiene_perfil_comprador(vista.ordenes[j].id_comprador));
    }
}

/// Changing the availability of a listing keeps the references consistent.
pub proof fn lema_con_disponible(vista: MercadoVista, i: int, disponible: bool)
    requires
        vista.estructura_coherente(),
        0 <= i < vista.publicaciones.len(),
    ensures
        (MercadoVista {
            publicaciones: vista.publicaciones.update(
                i,
                vista.publicaciones[i].con_disponible(disponible),
            ),
            ..vista
        }).estructura_coherente(),
{
    let nueva = MercadoVista {
        publicaciones: vista.publicaciones.update(
            i,
            vista.publicaciones[i].con_disponible(disponible),
        ),
        ..vista
    };
    assert forall|j: int| 0 <= j < nueva.publicaciones.len() implies {
        &&& nueva.tiene_perfil_vendedor((#[trigger] nueva.publicaciones[j]).id_vendedor)
        &&& nueva.productos_conocidos(nueva.publicaciones[j].productos)
    } by {
        assert(nueva.publicaciones[j].id_vendedor == vista.publicaciones[j].id_vendedor);
        assert(nueva.publicaciones[j].productos == vista.publicaciones[j].productos);
        assert(vista.tiene_perfil_vendedor(vista.publicaciones[j].id_vendedor));
    }
    assert forall|j: int| 0 <= j < nueva.ordenes.len() implies {
        let o = #[trigger] nueva.ordenes[j];
        &&& o.info_publicacion.0 < nueva.publicaciones.len()
        &&& o.info_publicacion.1 == nueva.publicaciones[o.info_publicacion.0 as int].productos
        &&& o.info_publicacion.2 == nueva.publicaciones[o.info_publicacion.0 as int].precio_final
        &&& o.info_publicacion.3 == nueva.publicaciones[o.info_publicacion.0 as int].id_vendedor
        &&& nueva.tiene_perfil_comprador(o.id_comprador)
        &&& o.id_comprador != o.info_publicacion.3
    } by {
        assert(nueva.ordenes[j] == vista.ordenes[j]);
        assert(vista.tiene_perfil_comprador(vista.ordenes[j].id_comprador));
    }
}

/// Registration keeps the marketplace consistent.
pub proof fn ley_bien_formado_tras_registrar(
    vista: MercadoVista,
    cuenta: Seq<u8>,
    nombre: Seq<char>,
    apellido: Seq<char>,
    direccion: Seq<char>,
    email: Seq<char>,
    rol: Rol,
)
    requires
        vista.bien_formado(),
        vista.tras_registrar(cuenta, nombre, apellido, direccion, email, rol) is Ok,
    ensures
        vista.tras_registrar(
            cuenta,
            nombre,
            apellido,
            direccion,
            email,
            rol,
        ).unwrap().bien_formado(),
{
    let nueva = vista.tras_registrar(cuenta, nombre, apellido, direccion, email, rol).unwrap();
    lema_referencias(vista, nueva);
    assert forall|a: int, b: int| 0 <= a < b < nueva.usuarios.len() implies (
    #[trigger] nueva.usuarios[a]).id_usuario != (#[trigger] nueva.usuarios[b]).id_usuario by {
        if b < vista.usuarios.len() {
            assert(vista.usuarios[a].id_usuario != vista.usuarios[b].id_usuario);
        } else {
            assert(vista.usuarios[a].id_usuario != cuenta);
        }
    }
    assert forall|a: int, k: int|
        0 <= a < nueva.usuarios.len() && nueva.usuarios[a].datos_vendedor.is_some() && 0 <= k
            < nueva.usuarios[a].datos_vendedor.unwrap().productos.len() implies existe(
        nueva.productos.len(),
        #[trigger] (#[trigger] nueva.usuarios[a]).datos_vendedor.unwrap().productos[k],
    ) by {
        if a < vista.usuarios.len() {
            assert(existe(
                vista.productos.len(),
                vista.usuarios[a].datos_vendedor.unwrap().productos[k],
            ));
        }
    }
    assert(nueva.usuarios_coherentes());
    lema_acotado(vista, Ok(nueva));
}

/// A change of role keeps the marketplace consistent.
pub proof fn ley_bien_formado_tras_modificar_rol(
    vista: MercadoVista,
    cuenta: Seq<u8>,
    nuevo_rol: Rol,
)
    requires
        vista.bien_formado(),
        vista.tras_modificar_rol(cuenta, nuevo_rol) is Ok,
    ensures
        vista.tras_modificar_rol(cuenta, nuevo_rol).unwrap().bien_formado(),
{
    let i = vista.indice(cuenta);
    assert(vista.usuarios[i].bien_formado());
    let cambiado = vista.usuario(cuenta).con_rol(nuevo_rol);
    if cambiado.datos_vendedor.is_some() {
        assert forall|k: int|
            0 <= k < cambiado.datos_vendedor.unwrap().productos.len() implies existe(
            vista.productos.len(),
            #[trigger] cambiado.datos_vendedor.unwrap().productos[k],
        ) by {
            assert(existe(
                vista.productos.len(),
                vista.usuarios[i].datos_vendedor.unwrap().productos[k],
            ));
        }
    }
    lema_con_usuario(vista, cuenta, cambiado);
    lema_acotado(vista, vista.tras_modificar_rol(cuenta, nuevo_rol));
}

/// Loading a product keeps the marketplace consistent.
pub proof fn ley_bien_formado_tras_cargar_producto(
    vista: MercadoVista,
    cuenta: Seq<u8>,
    nombre: Seq<char>,
    descripcion: Seq<char>,
    precio: u32,
    categoria: Seq<char>,
    stock: u32,
)
    requires
        vista.bien_formado(),
        vista.tras_cargar_producto(cuenta, nombre, descripcion, precio, categoria, stock) is Ok,
    ensures
        vista.tras_cargar_producto(
            cuenta,
            nombre,
            descripcion,
            precio,
            categoria,
            stock,
        ).unwrap().bien_formado(),
{
    let nueva = vista.tras_cargar_producto(
        cuenta,
        nombre,
        descripcion,
        precio,
        categoria,
        stock,
    ).unwrap();
    let i = vista.indice(cuenta);
    assert(vista.usuarios[i].bien_formado());
    lema_referencias(vista, nueva);
    assert forall|a: int, b: int| 0 <= a < b < nueva.usuarios.len() implies (
    #[trigger] nueva.usuarios[a]).id_usuario != (#[trigger] nueva.usuarios[b]).id_usuario by {
        assert(vista.usuarios[a].id_usuario != vista.usuarios[b].id_usuario);
    }
    assert forall|a: int, k: int|
        0 <= a < nueva.usuarios.len() && nueva.usuarios[a].datos_vendedor.is_some() && 0 <= k
            < nueva.usuarios[a].datos_vendedor.unwrap().productos.len() implies existe(
        nueva.productos.len(),
        #[trigger] (#[trigger] nueva.usuarios[a]).datos_vendedor.unwrap().productos[k],
    ) by {
        if a == i && k == vista.usuarios[a].datos_vendedor.unwrap().productos.len() {
        } else {
            assert(existe(
                vista.productos.len(),
                vista.usuarios[a].datos_vendedor.unwrap().productos[k],
            ));
        }
    }
    assert(nueva.usuarios_coherentes());
    assert(nueva.estructura_coherente());
    ley_inventario_tras_cargar_producto(
        vista,
        cuenta,
        nombre,
        descripcion,
        precio,
        categoria,
        stock,
    );
    assert forall|otro: u32|
        existe(nueva.productos.len(), otro) implies #[trigger] nueva.inventario(otro)
        <= u32::MAX by {
        if existe(vista.productos.len(), otro) {
            assert(vista.inventario(otro) <= u32::MAX);
        }
    }
}

/// Making a listing keeps the marketplace consistent.
pub proof fn ley_bien_formado_tras_publicar(
    vista: MercadoVista,
    cuenta: Seq<u8>,
    pares: Seq<(u32, u32)>,
)
    requires
        vista.bien_formado(),
        vista.tras_publicar(cuenta, pares) is Ok,
    ensures
        vista.tras_publicar(cuenta, pares).unwrap().bien_formado(),
{
    let nueva = vista.tras_publicar(cuenta, pares).unwrap();
    let i = vista.indice(cuenta);
    let id = vista.publicaciones.len() as u32;
    assert(vista.usuarios[i].bien_formado());
    lema_descontar_longitud(vista.existencias, pares);
    lema_validos_conocidos(vista, i, pares);
    lema_referencias(vista, nueva);
    assert forall|a: int, b: int| 0 <= a < b < nueva.usuarios.len() implies (
    #[trigger] nueva.usuarios[a]).id_usuario != (#[trigger] nueva.usuarios[b]).id_usuario by {
        assert(vista.usuarios[a].id_usuario != vista.usuarios[b].id_usuario);
    }
    assert forall|a: int, k: int|
        0 <= a < nueva.usuarios.len() && nueva.usuarios[a].datos_vendedor.is_some() && 0 <= k
            < nueva.usuarios[a].datos_vendedor.unwrap().productos.len() implies existe(
        nueva.productos.len(),
        #[trigger] (#[trigger] nueva.usuarios[a]).datos_vendedor.unwrap().productos[k],
    ) by {
        assert(existe(
            vista.productos.len(),
            vista.usuarios[a].datos_vendedor.unwrap().productos[k],
        ));
    }
    assert(nueva.usuarios_coherentes());
    assert(nueva.usuarios[i].id_usuario == cuenta);
    assert(nueva.tiene_perfil_vendedor(cuenta));
    assert(nueva.publicaciones_coherentes());
    assert(nueva.ordenes_coherentes());
    ley_inventario_tras_publicar(vista, cuenta, pares);
    lema_acotado(vista, vista.tras_publicar(cuenta, pares));
}

/// Placing an order keeps the marketplace consistent.
pub proof fn ley_bien_formado_tras_ordenar(
    vista: MercadoVista,
    cuenta: Seq<u8>,
    id_publicacion: u32,
)
    requires
        vista.bien_formado(),
        vista.tras_ordenar(cuenta, id_publicacion) is Ok,
    ensures
        vista.tras_ordenar(cuenta, id_publicacion).unwrap().bien_formado(),
{
    let nueva = vista.tras_ordenar(cuenta, id_publicacion).unwrap();
    let i = vista.indice(cuenta);
    let publicacion = vista.publicaciones[id_publicacion as int];
    assert(vista.usuarios[i].bien_formado());
    if tras_descontar(vista.existencias, publicacion.productos) is Some {
        lema_descontar_longitud(vista.existencias, publicacion.productos);
    }
    lema_referencias(vista, nueva);
    assert forall|a: int, b: int| 0 <= a < b < nueva.usuarios.len() implies (
    #[trigger] nueva.usuarios[a]).id_usuario != (#[trigger] nueva.usuarios[b]).id_usuario by {
        assert(vista.usuarios[a].id_usuario != vista.usuarios[b].id_usuario);
    }
    assert forall|a: int, k: int|
        0 <= a < nueva.usuarios.len() && nueva.usuarios[a].datos_vendedor.is_some() && 0 <= k
            < nueva.usuarios[a].datos_vendedor.unwrap().productos.len() implies existe(
        nueva.productos.len(),
        #[trigger] (#[trigger] nueva.usuarios[a]).datos_vendedor.unwrap().productos[k],
    ) by {
        assert(existe(
            vista.productos.len(),
            vista.usuarios[a].datos_vendedor.unwrap().productos[k],
        ));
    }
    assert(nueva.usuarios_coherentes());
    assert(nueva.numeracion_coherente());
    assert forall|j: int| 0 <= j < nueva.publicaciones.len() implies {
        &&& nueva.tiene_perfil_vendedor((#[trigger] nueva.publicaciones[j]).id_vendedor)
        &&& nueva.productos_conocidos(nueva.publicaciones[j].productos)
    } by {
        assert(nueva.publicaciones[j].id_vendedor == vista.publicaciones[j].id_vendedor);
        assert(nueva.publicaciones[j].productos == vista.publicaciones[j].productos);
    }
    assert(nueva.usuarios[i].id_usuario == cuenta);
    assert(nueva.tiene_perfil_comprador(cuenta));
    assert forall|j: int| 0 <= j < nueva.ordenes.len() implies {
        let o = #[trigger] nueva.ordenes[j];
        &&& o.info_publicacion.0 < nueva.publicaciones.len()
        &&& o.info_publicacion.1 == nueva.publicaciones[o.info_publicacion.0 as int].productos
        &&& o.info_publicacion.2 == nueva.publicaciones[o.info_publicacion.0 as int].precio_final
        &&& o.info_publicacion.3 == nueva.publicaciones[o.info_publicacion.0 as int].id_vendedor
        &&& nueva.tiene_perfil_comprador(o.id_comprador)
        &&& o.id_comprador != o.info_publicacion.3
    } by {
        if j < vista.ordenes.len() {
            assert(nueva.ordenes[j] == vista.ordenes[j]);
        }
    }
    ley_inventario_tras_ordenar(vista, cuenta, id_publicacion);
    lema_acotado(vista, vista.tras_ordenar(cuenta, id_publicacion));
}

/// Giving goods back keeps the references of the marketplace consistent.
pub proof fn lema_estructura_tras_devolver(vista: MercadoVista, id_publicacion: u32)
    requires
        vista.estructura_coherente(),
        vista.tras_devolver(id_publicacion) is Ok,
    ensures
        vista.tras_devolver(id_publicacion).unwrap().estructura_coherente(),
        vista.tras_devolver(id_publicacion).unwrap().ordenes == vista.ordenes,
        vista.tras_devolver(id_publicacion).unwrap().usuarios == vista.usuarios,
{
    let publicacion = vista.publicaciones[id_publicacion as int];
    if publicacion.disponible {
        lema_aumentar_longitud(vista.existencias, publicacion.productos);
        let nueva = vista.tras_devolver(id_publicacion).unwrap();
        assert forall|j: int| 0 <= j < nueva.publicaciones.len() implies {
            &&& nueva.tiene_perfil_vendedor((#[trigger] nueva.publicaciones[j]).id_vendedor)
            &&& nueva.productos_conocidos(nueva.publicaciones[j].productos)
        } by {
            assert(vista.tiene_perfil_vendedor(vista.publicaciones[j].id_vendedor));
        }
        assert forall|j: int| 0 <= j < nueva.ordenes.len() implies {
            let o = #[trigger] nueva.ordenes[j];
            &&& o.info_publicacion.0 < nueva.publicaciones.len()
            &&& o.info_publicacion.1 == nueva.publicaciones[o.info_publicacion.0 as int].productos
            &&& o.info_publicacion.2
                == nueva.publicaciones[o.info_publicacion.0 as int].precio_final
            &&& o.info_publicacion.3
                == nueva.publicaciones[o.info_publicacion.0 as int].id_vendedor
            &&& nueva.tiene_perfil_comprador(o.id_comprador)
            &&& o.id_comprador != o.info_publicacion.3
        } by {
            assert(vista.tiene_perfil_comprador(vista.ordenes[j].id_comprador));
        }
    } else {
        lema_con_disponible(vista, id_publicacion as int, true);
    }
}

/// A request to cancel keeps the marketplace consistent.
pub proof fn ley_bien_formado_tras_cancelar(vista: MercadoVista, cuenta: Seq<u8>, id_orden: u32)
    requires
        vista.bien_formado(),
        vista.tras_cancelar(cuenta, id_orden) is Ok,
    ensures
        vista.tras_cancelar(cuenta, id_orden).unwrap().bien_formado(),
{
    let orden = vista.ordenes[id_orden as int];
    let rol = vista.usuario(cuenta).rol_en_compra(orden.info_publicacion.3, orden.id_comprador);
    if rol == Ok::<Rol, ErrorMercado>(Rol::Comp) {
        lema_con_orden(vista, id_orden as int, orden.cancelada_por_comprador());
    } else {
        lema_estructura_tras_devolver(vista, orden.info_publicacion.0);
        lema_con_orden(
            vista.tras_devolver(orden.info_publicacion.0).unwrap(),
            id_orden as int,
            orden.cancelada_por_vendedor(),
        );
    }
    ley_inventario_tras_cancelar(vista, cuenta, id_orden);
    lema_acotado(vista, vista.tras_cancelar(cuenta, id_orden));
}

/// Shipping keeps the marketplace consistent.
pub proof fn ley_bien_formado_tras_enviar(vista: MercadoVista, cuenta: Seq<u8>, id_orden: u32)
    requires
        vista.bien_formado(),
        vista.tras_enviar(cuenta, id_orden) is Ok,
    ensures
        vista.tras_enviar(cuenta, id_orden).unwrap().bien_formado(),
{
    lema_con_orden(
        vista,
        id_orden as int,
        vista.ordenes[id_orden as int].con_estado(EstadoCompra::Enviado),
    );
    ley_inventario_tras_enviar(vista, cuenta, id_orden);
    lema_acotado(vista, vista.tras_enviar(cuenta, id_orden));
}

/// Receiving keeps the marketplace consistent.
pub proof fn ley_bien_formado_tras_recibir(vista: MercadoVista, cuenta: Seq<u8>, id_orden: u32)
    requires
        vista.bien_formado(),
        vista.tras_recibir(cuenta, id_orden) is Ok,
    ensures
        vista.tras_recibir(cuenta, id_orden).unwrap().bien_formado(),
{
    lema_con_orden(
        vista,
        id_orden as int,
        vista.ordenes[id_orden as int].con_estado(EstadoCompra::Recibido),
    );
    ley_inventario_tras_recibir(vista, cuenta, id_orden);
    lema_acotado(vista, vista.tras_recibir(cuenta, id_orden));
}

/// A score received as a seller keeps the marketplace consistent.
pub proof fn ley_bien_formado_tras_puntuar_vendedor(
    vista: MercadoVista,
    cuenta: Seq<u8>,
    calificacion: u8,
)
    requires
        vista.bien_formado(),
        vista.tras_puntuar_vendedor(cuenta, calificacion) is Ok,
    ensures
        vista.tras_puntuar_vendedor(cuenta, calificacion).unwrap().bien_formado(),
{
    let i = vista.indice(cuenta);
    assert(vista.usuarios[i].bien_formado());
    let puntuado = vista.usuario(cuenta).con_puntaje_de_vendedor(calificacion);
    assert forall|k: int| 0 <= k < puntuado.datos_vendedor.unwrap().productos.len() implies existe(
        vista.productos.len(),
        #[trigger] puntuado.datos_vendedor.unwrap().productos[k],
    ) by {
        assert(existe(
            vista.productos.len(),
            vista.usuarios[i].datos_vendedor.unwrap().productos[k],
        ));
    }
    lema_con_usuario(vista, cuenta, puntuado);
    lema_acotado(vista, vista.tras_puntuar_vendedor(cuenta, calificacion));
}

/// A score received as a buyer keeps the marketplace consistent.
pub proof fn ley_bien_formado_tras_puntuar_comprador(
    vista: MercadoVista,
    cuenta: Seq<u8>,
    calificacion: u8,
)
    requires
        vista.bien_formado(),
        vista.tras_puntuar_comprador(cuenta, calificacion) is Ok,
    ensures
        vista.tras_puntuar_comprador(cuenta, calificacion).unwrap().bien_formado(),
{
    let i = vista.indice(cuenta);
    assert(vista.usuarios[i].bien_formado());
    let puntuado = vista.usuario(cuenta).con_puntaje_de_comprador(calificacion);
    if puntuado.datos_vendedor.is_some() {
        assert forall|k: int|
            0 <= k < puntuado.datos_vendedor.unwrap().productos.len() implies existe(
            vista.productos.len(),
            #[trigger] puntuado.datos_vendedor.unwrap().productos[k],
        ) by {
            assert(existe(
                vista.productos.len(),
                vista.usuarios[i].datos_vendedor.unwrap().productos[k],
            ));
        }
    }
    lema_con_usuario(vista, cuenta, puntuado);
    lema_acotado(vista, vista.tras_puntuar_comprador(cuenta, calificacion));
}

/// In a consistent marketplace the seller of every order has a seller
/// profile and its buyer a buyer profile.
pub proof fn lema_partes_de_orden(vista: MercadoVista, id_orden: u32)
    requires
        vista.estructura_coherente(),
        id_orden < vista.ordenes.len(),
    ensures
        vista.registrado(vista.ordenes[id_orden as int].info_publicacion.3),
        vista.usuario(vista.ordenes[id_orden as int].info_publicacion.3).datos_vendedor.is_some(),
        vista.registrado(vista.ordenes[id_orden as int].id_comprador),
        vista.usuario(vista.ordenes[id_orden as int].id_comprador).datos_comprador.is_some(),
{
    let orden = vista.ordenes[id_orden as int];
    assert(vista.tiene_perfil_comprador(orden.id_comprador));
    assert(vista.tiene_perfil_vendedor(
        vista.publicaciones[orden.info_publicacion.0 as int].id_vendedor,
    ));
    lema_perfil_vendedor(vista, orden.info_publicacion.3);
    lema_perfil_comprador(vista, orden.id_comprador);
}

/// Rating keeps the marketplace consistent, whichever side the caller is on.
pub proof fn ley_bien_formado_tras_calificar_segun_rol(
    vista: MercadoVista,
    cuenta: Seq<u8>,
    id_orden: u32,
    calificacion: u8,
)
    requires
        vista.bien_formado(),
        vista.tras_calificar_segun_rol(cuenta, id_orden, calificacion) is Ok,
    ensures
        vista.tras_calificar_segun_rol(cuenta, id_orden, calificacion).unwrap().bien_formado(),
{
    let orden = vista.ordenes[id_orden as int];
    let vendedor = orden.info_publicacion.3;
    let comprador = orden.id_comprador;
    let rol = vista.usuario(cuenta).rol_en_compra(vendedor, comprador);
    lema_partes_de_orden(vista, id_orden);
    if rol == Ok::<Rol, ErrorMercado>(Rol::Comp) {
        ley_bien_formado_tras_puntuar_vendedor(vista, vendedor, calificacion);
        lema_con_orden(
            vista.tras_puntuar_vendedor(vendedor, calificacion).unwrap(),
            id_orden as int,
            orden.calificada_por_comprador(calificacion),
        );
    } else {
        ley_bien_formado_tras_puntuar_comprador(vista, comprador, calificacion);
        lema_con_orden(
            vista.tras_puntuar_comprador(comprador, calificacion).unwrap(),
            id_orden as int,
            orden.calificada_por_vendedor(),
        );
    }
    ley_inventario_tras_calificar(vista, cuenta, id_orden, calificacion);
    lema_acotado(vista, vista.tras_calificar_segun_rol(cuenta, id_orden, calificacion));
}

/// Rating keeps the marketplace consistent.
pub proof fn ley_bien_formado_tras_calificar(
    vista: MercadoVista,
    cuenta: Seq<u8>,
    id_orden: u32,
    calificacion: u8,
)
    requires
        vista.bien_formado(),
        vista.tras_calificar(cuenta, id_orden, calificacion) is Ok,
    ensures
        vista.tras_calificar(cuenta, id_orden, calificacion).unwrap().bien_formado(),
{
    ley_bien_formado_tras_calificar_segun_rol(vista, cuenta, id_orden, calificacion);
}

} // verus!
