//! The marketplace as a machine: a state, the calls that can be made on it,
//! and what no call ever undoes.

use vstd::prelude::*;
use crate::conservacion::{
    ley_inventario_tras_calificar, ley_inventario_tras_cancelar,
    ley_inventario_tras_cargar_producto, ley_inventario_tras_enviar, ley_inventario_tras_ordenar,
    ley_inventario_tras_publicar, ley_inventario_tras_recibir,
};
use crate::error::ErrorMercado;
use crate::estado::MercadoVista;
use crate::existencias::existe;
use crate::invariante::{
    lema_partes_de_orden, ley_bien_formado_tras_calificar, ley_bien_formado_tras_cancelar,
    ley_bien_formado_tras_cargar_producto, ley_bien_formado_tras_enviar,
    ley_bien_formado_tras_modificar_rol, ley_bien_formado_tras_ordenar,
    ley_bien_formado_tras_publicar, ley_bien_formado_tras_recibir,
    ley_bien_formado_tras_registrar,
};
use crate::rol::Rol;
use crate::usuario::{CompradorVista, UsuarioVista, VendedorVista};

verus! {

/// A call to the marketplace, with the account that makes it.
pub enum Operacion {
    Registrar {
        cuenta: Seq<u8>,
        nombre: Seq<char>,
        apellido: Seq<char>,
        direccion: Seq<char>,
        email: Seq<char>,
        rol: Rol,
    },
    ModificarRol { cuenta: Seq<u8>, nuevo_rol: Rol },
    CargarProducto {
        cuenta: Seq<u8>,
        nombre: Seq<char>,
        descripcion: Seq<char>,
        precio: u32,
        categoria: Seq<char>,
        stock: u32,
    },
    Publicar { cuenta: Seq<u8>, pares: Seq<(u32, u32)> },
    Ordenar { cuenta: Seq<u8>, id_publicacion: u32 },
    Cancelar { cuenta: Seq<u8>, id_orden: u32 },
    Enviar { cuenta: Seq<u8>, id_orden: u32 },
    Recibir { cuenta: Seq<u8>, id_orden: u32 },
    Calificar { cuenta: Seq<u8>, id_orden: u32, calificacion: u8 },
}

/// What a call makes of the marketplace, or why it is refused.
pub open spec fn aplicar(
    vista: MercadoVista,
    operacion: Operacion,
) -> Result<MercadoVista, ErrorMercado> {
    match operacion {
        Operacion::Registrar { cuenta, nombre, apellido, direccion, email, rol } =>
            vista.tras_registrar(cuenta, nombre, apellido, direccion, email, rol),
        Operacion::ModificarRol { cuenta, nuevo_rol } => vista.tras_modificar_rol(
            cuenta,
            nuevo_rol,
        ),
        Operacion::CargarProducto { cuenta, nombre, descripcion, precio, categoria, stock } =>
            vista.tras_cargar_producto(cuenta, nombre, descripcion, precio, categoria, stock),
        Operacion::Publicar { cuenta, pares } => vista.tras_publicar(cuenta, pares),
        Operacion::Ordenar { cuenta, id_publicacion } => vista.tras_ordenar(cuenta, id_publicacion),
        Operacion::Cancelar { cuenta, id_orden } => vista.tras_cancelar(cuenta, id_orden),
        Operacion::Enviar { cuenta, id_orden } => vista.tras_enviar(cuenta, id_orden),
        Operacion::Recibir { cuenta, id_orden } => vista.tras_recibir(cuenta, id_orden),
        Operacion::Calificar { cuenta, id_orden, calificacion } => vista.tras_calificar(
            cuenta,
            id_orden,
            calificacion,
        ),
    }
}

/// Whether `larga` starts with all of `corta`.
pub open spec fn empieza_con<T>(larga: Seq<T>, corta: Seq<T>) -> bool {
    corta.len() <= larga.len() && larga.take(corta.len() as int) == corta
}

/// Whether a buyer profile has kept all the history it had.
pub open spec fn comprador_conservado(
    previo: Option<CompradorVista>,
    nuevo: Option<CompradorVista>,
) -> bool {
    previo.is_some() ==> {
        &&& nuevo.is_some()
        &&& empieza_con(nuevo.unwrap().ordenes_de_compra, previo.unwrap().ordenes_de_compra)
        &&& empieza_con(
            nuevo.unwrap().reputacion_como_comprador,
            previo.unwrap().reputacion_como_comprador,
        )
    }
}

/// Whether a seller profile has kept all the history it had.
pub open spec fn vendedor_conservado(
    previo: Option<VendedorVista>,
    nuevo: Option<VendedorVista>,
) -> bool {
    previo.is_some() ==> {
        &&& nuevo.is_some()
        &&& empieza_con(nuevo.unwrap().productos, previo.unwrap().productos)
        &&& empieza_con(nuevo.unwrap().publicaciones, previo.unwrap().publicaciones)
        &&& empieza_con(
            nuevo.unwrap().reputacion_como_vendedor,
            previo.unwrap().reputacion_como_vendedor,
        )
    }
}

/// Whether a user is the same person as before, with the profiles it had and
/// all their history.
pub open spec fn usuario_conservado(previo: UsuarioVista, nuevo: UsuarioVista) -> bool {
    &&& nuevo.id_usuario == previo.id_usuario
    &&& nuevo.nombre == previo.nombre
    &&& nuevo.apellido == previo.apellido
    &&& nuevo.direccion == previo.direccion
    &&& nuevo.email == previo.email
    &&& comprador_conservado(previo.datos_comprador, nuevo.datos_comprador)
    &&& vendedor_conservado(previo.datos_vendedor, nuevo.datos_vendedor)
}

/// Whether `nueva` has kept everything `previa` held: every user with its
/// profiles and their history, every product as it was loaded, every listing
/// as it was made but for its availability, and every order with the
/// listing it holds and its buyer.
pub open spec fn historia_conservada(previa: MercadoVista, nueva: MercadoVista) -> bool {
    &&& previa.usuarios.len() <= nueva.usuarios.len()
    &&& forall|i: int|
        0 <= i < previa.usuarios.len() ==> usuario_conservado(
            previa.usuarios[i],
            #[trigger] nueva.usuarios[i],
        )
    &&& empieza_con(nueva.productos, previa.productos)
    &&& previa.publicaciones.len() <= nueva.publicaciones.len()
    &&& forall|i: int|
        0 <= i < previa.publicaciones.len() ==> #[trigger] nueva.publicaciones[i]
            == previa.publicaciones[i].con_disponible(nueva.publicaciones[i].disponible)
    &&& previa.ordenes.len() <= nueva.ordenes.len()
    &&& forall|i: int|
        0 <= i < previa.ordenes.len() ==> {
            &&& (#[trigger] nueva.ordenes[i]).id == previa.ordenes[i].id
            &&& nueva.ordenes[i].info_publicacion == previa.ordenes[i].info_publicacion
            &&& nueva.ordenes[i].id_comprador == previa.ordenes[i].id_comprador
        }
}

/// A list starts with itself, and still does after something is added at its end.
pub proof fn lema_empieza_con<T>(lista: Seq<T>, nuevo: T)
    ensures
        empieza_con(lista, lista),
        empieza_con(lista.push(nuevo), lista),
{
    assert(lista.take(lista.len() as int) =~= lista);
    assert(lista.push(nuevo).take(lista.len() as int) =~= lista);
}

/// A marketplace in which one user was replaced by itself with more history
/// has kept everything it held.
proof fn lema_historia_con_usuario(vista: MercadoVista, nueva: MercadoVista, i: int)
    requires
        0 <= i < vista.usuarios.len(),
        nueva.usuarios == vista.usuarios.update(i, nueva.usuarios[i]),
        usuario_conservado(vista.usuarios[i], nueva.usuarios[i]),
    ensures
        vista.usuarios.len() <= nueva.usuarios.len(),
        forall|j: int|
            0 <= j < vista.usuarios.len() ==> usuario_conservado(
                vista.usuarios[j],
                #[trigger] nueva.usuarios[j],
            ),
{
    assert forall|j: int| 0 <= j < vista.usuarios.len() implies usuario_conservado(
        vista.usuarios[j],
        #[trigger] nueva.usuarios[j],
    ) by {
        if j != i {
            lema_usuario_igual(vista.usuarios[j]);
        }
    }
}

/// A user that has not changed has kept everything.
proof fn lema_usuario_igual(usuario: UsuarioVista)
    ensures
        usuario_conservado(usuario, usuario),
{
    if usuario.datos_comprador.is_some() {
        lema_empieza_con(usuario.datos_comprador.unwrap().ordenes_de_compra, 0u32);
        lema_empieza_con(usuario.datos_comprador.unwrap().reputacion_como_comprador, 0u8);
    }
    if usuario.datos_vendedor.is_some() {
        lema_empieza_con(usuario.datos_vendedor.unwrap().productos, 0u32);
        lema_empieza_con(usuario.datos_vendedor.unwrap().publicaciones, 0u32);
        lema_empieza_con(usuario.datos_vendedor.unwrap().reputacion_como_vendedor, 0u8);
    }
}

/// A marketplace whose users have not changed has kept all of them.
proof fn lema_usuarios_iguales(vista: MercadoVista)
    ensures
        forall|j: int|
            0 <= j < vista.usuarios.len() ==> usuario_conservado(
                #[trigger] vista.usuarios[j],
                vista.usuarios[j],
            ),
{
    assert forall|j: int| 0 <= j < vista.usuarios.len() implies usuario_conservado(
        #[trigger] vista.usuarios[j],
        vista.usuarios[j],
    ) by {
        lema_usuario_igual(vista.usuarios[j]);
    }
}

/// Whatever call succeeds on a consistent marketplace, the marketplace stays
/// consistent, nothing it held is lost or rewritten, and no unit of any
/// product appears or disappears.
pub proof fn ley_paso(vista: MercadoVista, operacion: Operacion)
    requires
        vista.bien_formado(),
        aplicar(vista, operacion) is Ok,
    ensures
        aplicar(vista, operacion).unwrap().bien_formado(),
        historia_conservada(vista, aplicar(vista, operacion).unwrap()),
        forall|id: u32|
            existe(vista.productos.len(), id) ==> #[trigger] aplicar(
                vista,
                operacion,
            ).unwrap().inventario(id) == vista.inventario(id),
{
    let nueva = aplicar(vista, operacion).unwrap();
    lema_usuarios_iguales(vista);
    assert(vista.productos.take(vista.productos.len() as int) =~= vista.productos);
    match operacion {
        Operacion::Registrar { cuenta, nombre, apellido, direccion, email, rol } => {
            ley_bien_formado_tras_registrar(vista, cuenta, nombre, apellido, direccion, email, rol);
        },
        Operacion::ModificarRol { cuenta, nuevo_rol } => {
            ley_bien_formado_tras_modificar_rol(vista, cuenta, nuevo_rol);
            let i = vista.indice(cuenta);
            lema_usuario_igual(vista.usuarios[i]);
            lema_historia_con_usuario(vista, nueva, i);
        },
        Operacion::CargarProducto { cuenta, nombre, descripcion, precio, categoria, stock } => {
            ley_bien_formado_tras_cargar_producto(
                vista,
                cuenta,
                nombre,
                descripcion,
                precio,
                categoria,
                stock,
            );
            ley_inventario_tras_cargar_producto(
                vista,
                cuenta,
                nombre,
                descripcion,
                precio,
                categoria,
                stock,
            );
            let i = vista.indice(cuenta);
            assert(vista.usuarios[i].bien_formado());
            lema_usuario_igual(vista.usuarios[i]);
            lema_empieza_con(
                vista.usuarios[i].datos_vendedor.unwrap().productos,
                (vista.productos.len() + 1) as u32,
            );
            lema_historia_con_usuario(vista, nueva, i);
            assert(nueva.productos.take(vista.productos.len() as int) =~= vista.productos);
        },
        Operacion::Publicar { cuenta, pares } => {
            ley_bien_formado_tras_publicar(vista, cuenta, pares);
            ley_inventario_tras_publicar(vista, cuenta, pares);
            let i = vista.indice(cuenta);
            assert(vista.usuarios[i].bien_formado());
            lema_usuario_igual(vista.usuarios[i]);
            lema_empieza_con(
                vista.usuarios[i].datos_vendedor.unwrap().publicaciones,
                vista.publicaciones.len() as u32,
            );
            lema_historia_con_usuario(vista, nueva, i);
        },
        Operacion::Ordenar { cuenta, id_publicacion } => {
            ley_bien_formado_tras_ordenar(vista, cuenta, id_publicacion);
            ley_inventario_tras_ordenar(vista, cuenta, id_publicacion);
            let i = vista.indice(cuenta);
            assert(vista.usuarios[i].bien_formado());
            lema_usuario_igual(vista.usuarios[i]);
            lema_empieza_con(
                vista.usuarios[i].datos_comprador.unwrap().ordenes_de_compra,
                vista.ordenes.len() as u32,
            );
            lema_historia_con_usuario(vista, nueva, i);
        },
        Operacion::Cancelar { cuenta, id_orden } => {
            ley_bien_formado_tras_cancelar(vista, cuenta, id_orden);
            ley_inventario_tras_cancelar(vista, cuenta, id_orden);
        },
        Operacion::Enviar { cuenta, id_orden } => {
            ley_bien_formado_tras_enviar(vista, cuenta, id_orden);
            ley_inventario_tras_enviar(vista, cuenta, id_orden);
        },
        Operacion::Recibir { cuenta, id_orden } => {
            ley_bien_formado_tras_recibir(vista, cuenta, id_orden);
            ley_inventario_tras_recibir(vista, cuenta, id_orden);
        },
        Operacion::Calificar { cuenta, id_orden, calificacion } => {
            ley_bien_formado_tras_calificar(vista, cuenta, id_orden, calificacion);
            ley_inventario_tras_calificar(vista, cuenta, id_orden, calificacion);
            lema_partes_de_orden(vista, id_orden);
            let orden = vista.ordenes[id_orden as int];
            let rol = vista.usuario(cuenta).rol_en_compra(
                orden.info_publicacion.3,
                orden.id_comprador,
            );
            if rol == Ok::<Rol, ErrorMercado>(Rol::Comp) {
                let i = vista.indice(orden.info_publicacion.3);
                lema_usuario_igual(vista.usuarios[i]);
                lema_empieza_con(
                    vista.usuarios[i].datos_vendedor.unwrap().reputacion_como_vendedor,
                    calificacion,
                );
                lema_historia_con_usuario(vista, nueva, i);
            } else {
                let i = vista.indice(orden.id_comprador);
                lema_usuario_igual(vista.usuarios[i]);
                lema_empieza_con(
                    vista.usuarios[i].datos_comprador.unwrap().reputacion_como_comprador,
                    calificacion,
                );
                lema_historia_con_usuario(vista, nueva, i);
            }
        },
    }
}

/// The marketplace after a series of calls on an empty one. A call that is
/// refused changes nothing.
pub open spec fn tras_llamadas(llamadas: Seq<Operacion>) -> MercadoVista
    decreases llamadas.len(),
{
    if llamadas.len() == 0 {
        MercadoVista::vacio()
    } else {
        let previa = tras_llamadas(llamadas.drop_last());
        match aplicar(previa, llamadas.last()) {
            Ok(nueva) => nueva,
            Err(_) => previa,
        }
    }
}

/// Whatever calls are made, the marketplace is consistent.
pub proof fn ley_siempre_bien_formado(llamadas: Seq<Operacion>)
    ensures
        tras_llamadas(llamadas).bien_formado(),
    decreases llamadas.len(),
{
    if llamadas.len() > 0 {
        let previa = tras_llamadas(llamadas.drop_last());
        ley_siempre_bien_formado(llamadas.drop_last());
        if aplicar(previa, llamadas.last()) is Ok {
            ley_paso(previa, llamadas.last());
        }
    }
}

/// An account that is registered stays registered whatever call succeeds,
/// and registering it again is refused with `UsuarioYaRegistrado`, whatever
/// name, address, e-mail or role is given.
pub proof fn ley_registro_permanente(
    vista: MercadoVista,
    operacion: Operacion,
    cuenta: Seq<u8>,
    nombre: Seq<char>,
    apellido: Seq<char>,
    direccion: Seq<char>,
    email: Seq<char>,
    rol: Rol,
)
    requires
        vista.bien_formado(),
        vista.registrado(cuenta),
        aplicar(vista, operacion) is Ok,
    ensures
        aplicar(vista, operacion).unwrap().registrado(cuenta),
        aplicar(vista, operacion).unwrap().tras_registrar(
            cuenta,
            nombre,
            apellido,
            direccion,
            email,
            rol,
        ) == Err::<MercadoVista, ErrorMercado>(ErrorMercado::UsuarioYaRegistrado),
{
    let nueva = aplicar(vista, operacion).unwrap();
    ley_paso(vista, operacion);
    let i = vista.indice(cuenta);
    assert(usuario_conservado(vista.usuarios[i], nueva.usuarios[i]));
    assert(nueva.usuarios[i].id_usuario == cuenta);
}

} // verus!
