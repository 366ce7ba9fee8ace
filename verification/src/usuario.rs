//! Users, their roles and the history each role accumulates.

use vstd::prelude::*;
use ink::primitives::AccountId;
use crate::cuenta::{bytes_de_cuenta, misma_cuenta};
use crate::error::ErrorMercado;
use crate::listas::{contiene, copiar_ids, copiar_puntajes};
use crate::orden::{OrdenCompra, OrdenVista};
use crate::publicacion::{Publicacion, PublicacionVista};
use crate::rol::Rol;

verus! {

/// What a user has done and received as a buyer.
#[derive(Debug)]
pub struct Comprador {
    /// Identifiers of the orders placed, oldest first.
    pub ordenes_de_compra: Vec<u32>,
    /// Scores received from sellers, oldest first.
    pub reputacion_como_comprador: Vec<u8>,
}

/// What a user has done and received as a seller.
#[derive(Debug)]
pub struct Vendedor {
    /// Identifiers of the products loaded, oldest first.
    pub productos: Vec<u32>,
    /// Identifiers of the listings made, oldest first.
    pub publicaciones: Vec<u32>,
    /// Scores received from buyers, oldest first.
    pub reputacion_como_vendedor: Vec<u8>,
}

/// A registered user. A sub-profile, once allocated, is kept for good, also
/// when the role changes.
#[derive(Debug)]
pub struct Usuario {
    pub id_usuario: AccountId,
    pub nombre: String,
    pub apellido: String,
    pub direccion: String,
    pub email: String,
    pub rol: Rol,
    pub datos_comprador: Option<Comprador>,
    pub datos_vendedor: Option<Vendedor>,
}

/// A buyer profile as plain values.
pub struct CompradorVista {
    pub ordenes_de_compra: Seq<u32>,
    pub reputacion_como_comprador: Seq<u8>,
}

/// A seller profile as plain values.
pub struct VendedorVista {
    pub productos: Seq<u32>,
    pub publicaciones: Seq<u32>,
    pub reputacion_como_vendedor: Seq<u8>,
}

/// A user as plain values.
pub struct UsuarioVista {
    pub id_usuario: Seq<u8>,
    pub nombre: Seq<char>,
    pub apellido: Seq<char>,
    pub direccion: Seq<char>,
    pub email: Seq<char>,
    pub rol: Rol,
    pub datos_comprador: Option<CompradorVista>,
    pub datos_vendedor: Option<VendedorVista>,
}

impl CompradorVista {
    /// The profile of a buyer with no history.
    pub open spec fn vacio() -> CompradorVista {
        CompradorVista { ordenes_de_compra: Seq::empty(), reputacion_como_comprador: Seq::empty() }
    }
}

impl VendedorVista {
    /// The profile of a seller with no history.
    pub open spec fn vacio() -> VendedorVista {
        VendedorVista {
            productos: Seq::empty(),
            publicaciones: Seq::empty(),
            reputacion_como_vendedor: Seq::empty(),
        }
    }
}

impl UsuarioVista {
    /// The user that registration creates: the profiles of the role, empty.
    pub open spec fn nuevo(
        id: Seq<u8>,
        nombre: Seq<char>,
        apellido: Seq<char>,
        direccion: Seq<char>,
        email: Seq<char>,
        rol: Rol,
    ) -> UsuarioVista {
        UsuarioVista {
            id_usuario: id,
            nombre,
            apellido,
            direccion,
            email,
            rol,
            datos_comprador: if rol.compra() {
                Some(CompradorVista::vacio())
            } else {
                None
            },
            datos_vendedor: if rol.vende() {
                Some(VendedorVista::vacio())
            } else {
                None
            },
        }
    }

    /// A user holds the profile of every role it currently has.
    pub open spec fn bien_formado(self) -> bool {
        &&& self.rol.compra() ==> self.datos_comprador.is_some()
        &&& self.rol.vende() ==> self.datos_vendedor.is_some()
    }

    /// The user after switching to `nuevo_rol`: profiles it lacks are
    /// allocated empty, profiles it has are kept as they are.
    pub open spec fn con_rol(self, nuevo_rol: Rol) -> UsuarioVista {
        UsuarioVista {
            rol: nuevo_rol,
            datos_comprador: if nuevo_rol.compra() && self.datos_comprador.is_none() {
                Some(CompradorVista::vacio())
            } else {
                self.datos_comprador
            },
            datos_vendedor: if nuevo_rol.vende() && self.datos_vendedor.is_none() {
                Some(VendedorVista::vacio())
            } else {
                self.datos_vendedor
            },
            ..self
        }
    }

    /// The user after loading product `id`. Meant for a user with a seller profile.
    pub open spec fn con_producto(self, id: u32) -> UsuarioVista {
        let datos = self.datos_vendedor.unwrap();
        UsuarioVista {
            datos_vendedor: Some(VendedorVista { productos: datos.productos.push(id), ..datos }),
            ..self
        }
    }

    /// The user after making listing `id`. Meant for a user with a seller profile.
    pub open spec fn con_publicacion(self, id: u32) -> UsuarioVista {
        let datos = self.datos_vendedor.unwrap();
        UsuarioVista {
            datos_vendedor: Some(
                VendedorVista { publicaciones: datos.publicaciones.push(id), ..datos },
            ),
            ..self
        }
    }

    /// The user after placing order `id`. Meant for a user with a buyer profile.
    pub open spec fn con_orden(self, id: u32) -> UsuarioVista {
        let datos = self.datos_comprador.unwrap();
        UsuarioVista {
            datos_comprador: Some(
                CompradorVista { ordenes_de_compra: datos.ordenes_de_compra.push(id), ..datos },
            ),
            ..self
        }
    }

    /// The user after a buyer rated it as a seller. Meant for a user with a seller profile.
    pub open spec fn con_puntaje_de_vendedor(self, calificacion: u8) -> UsuarioVista {
        let datos = self.datos_vendedor.unwrap();
        UsuarioVista {
            datos_vendedor: Some(
                VendedorVista {
                    reputacion_como_vendedor: datos.reputacion_como_vendedor.push(calificacion),
                    ..datos
                },
            ),
            ..self
        }
    }

    /// The user after a seller rated it as a buyer. Meant for a user with a buyer profile.
    pub open spec fn con_puntaje_de_comprador(self, calificacion: u8) -> UsuarioVista {
        let datos = self.datos_comprador.unwrap();
        UsuarioVista {
            datos_comprador: Some(
                CompradorVista {
                    reputacion_como_comprador: datos.reputacion_como_comprador.push(calificacion),
                    ..datos
                },
            ),
            ..self
        }
    }

    /// Whether product `id` is among the products this user loaded.
    pub open spec fn posee_producto(self, id: u32) -> bool {
        self.datos_vendedor.is_some() && self.datos_vendedor.unwrap().productos.contains(id)
    }

    /// Whether this user may ship an order placed against listing `id_publicacion`.
    pub open spec fn puede_enviar(self, id_publicacion: u32) -> Result<(), ErrorMercado> {
        if !self.rol.vende() {
            Err(ErrorMercado::SinRolDeVendedor)
        } else if self.datos_vendedor.is_none() {
            Err(ErrorMercado::VendedorSinDatos)
        } else if self.datos_vendedor.unwrap().publicaciones.contains(id_publicacion) {
            Ok(())
        } else {
            Err(ErrorMercado::PublicacionAjena)
        }
    }

    /// Whether this user may receive order `id_orden`.
    pub open spec fn puede_recibir(self, id_orden: u32) -> Result<(), ErrorMercado> {
        if !self.rol.compra() {
            Err(ErrorMercado::SinRolDeComprador)
        } else if self.datos_comprador.is_none() {
            Err(ErrorMercado::CompradorSinDatosCargados)
        } else if self.datos_comprador.unwrap().ordenes_de_compra.contains(id_orden) {
            Ok(())
        } else {
            Err(ErrorMercado::OrdenDeCompraNoEncontrada)
        }
    }

    /// The side on which this user takes part in an order between
    /// `id_vendedor` and `id_comprador`: `Rol::Vend` or `Rol::Comp`.
    ///
    /// A seller-only user must be the seller, a buyer-only user the buyer; a
    /// user with both roles is matched against the seller first.
    pub open spec fn rol_en_compra(
        self,
        id_vendedor: Seq<u8>,
        id_comprador: Seq<u8>,
    ) -> Result<Rol, ErrorMercado> {
        match self.rol {
            Rol::Vend => if self.datos_vendedor.is_none() {
                Err(ErrorMercado::VendedorSinDatosCargados)
            } else if self.id_usuario == id_vendedor {
                Ok(Rol::Vend)
            } else {
                Err(ErrorMercado::VendedorNoPoseePublicacion)
            },
            Rol::Comp => if self.datos_comprador.is_none() {
                Err(ErrorMercado::CompradorSinDatosCargados)
            } else if self.id_usuario == id_comprador {
                Ok(Rol::Comp)
            } else {
                Err(ErrorMercado::NoPoseeOrden)
            },
            Rol::Ambos => if self.id_usuario == id_vendedor {
                Ok(Rol::Vend)
            } else if self.id_usuario == id_comprador {
                Ok(Rol::Comp)
            } else {
                Err(ErrorMercado::NoParticipa)
            },
        }
    }
}

impl View for Comprador {
    type V = CompradorVista;

    open spec fn view(&self) -> CompradorVista {
        CompradorVista {
            ordenes_de_compra: self.ordenes_de_compra@,
            reputacion_como_comprador: self.reputacion_como_comprador@,
        }
    }
}

impl View for Vendedor {
    type V = VendedorVista;

    open spec fn view(&self) -> VendedorVista {
        VendedorVista {
            productos: self.productos@,
            publicaciones: self.publicaciones@,
            reputacion_como_vendedor: self.reputacion_como_vendedor@,
        }
    }
}

impl View for Usuario {
    type V = UsuarioVista;

    open spec fn view(&self) -> UsuarioVista {
        UsuarioVista {
            id_usuario: bytes_de_cuenta(self.id_usuario),
            nombre: self.nombre@,
            apellido: self.apellido@,
            direccion: self.direccion@,
            email: self.email@,
            rol: self.rol,
            datos_comprador: match self.datos_comprador {
                Some(datos) => Some(datos@),
                None => None,
            },
            datos_vendedor: match self.datos_vendedor {
                Some(datos) => Some(datos@),
                None => None,
            },
        }
    }
}

impl Comprador {
    /// A buyer profile with no history.
    pub fn nuevo() -> (datos: Comprador)
        ensures
            datos@ == CompradorVista::vacio(),
    {
        Comprador { ordenes_de_compra: Vec::new(), reputacion_como_comprador: Vec::new() }
    }

    /// Notes order `id_orden` as placed and builds it from `publicacion`.
    pub fn crear_orden_de_compra(
        &mut self,
        id_orden: u32,
        publicacion: Publicacion,
        id_comprador: AccountId,
    ) -> (orden: OrdenCompra)
        ensures
            orden@ == OrdenVista::nueva(id_orden, publicacion@, bytes_de_cuenta(id_comprador)),
            final(self)@ == (CompradorVista {
                ordenes_de_compra: old(self)@.ordenes_de_compra.push(id_orden),
                ..old(self)@
            }),
    {
        self.ordenes_de_compra.push(id_orden);
        OrdenCompra::crear_orden_de_compra(id_orden, publicacion, id_comprador)
    }

    /// Succeeds exactly when order `id_orden` was placed by this buyer.
    pub fn recibir_compra(&self, id_orden: u32) -> (resultado: Result<(), ErrorMercado>)
        ensures
            resultado == (if self@.ordenes_de_compra.contains(id_orden) {
                Ok::<(), ErrorMercado>(())
            } else {
                Err(ErrorMercado::OrdenDeCompraNoEncontrada)
            }),
    {
        if contiene(&self.ordenes_de_compra, id_orden) {
            Ok(())
        } else {
            Err(ErrorMercado::OrdenDeCompraNoEncontrada)
        }
    }

    /// A copy of this profile.
    pub fn copiar(&self) -> (copia: Comprador)
        ensures
            copia@ == self@,
    {
        Comprador {
            ordenes_de_compra: copiar_ids(&self.ordenes_de_compra),
            reputacion_como_comprador: copiar_puntajes(&self.reputacion_como_comprador),
        }
    }
}

impl Vendedor {
    /// A seller profile with no history.
    pub fn nuevo() -> (datos: Vendedor)
        ensures
            datos@ == VendedorVista::vacio(),
    {
        Vendedor {
            productos: Vec::new(),
            publicaciones: Vec::new(),
            reputacion_como_vendedor: Vec::new(),
        }
    }

    /// Notes listing `id_publicacion` as made and builds it.
    pub fn crear_publicacion(
        &mut self,
        productos_a_publicar: Vec<(u32, u32)>,
        precio_final: u32,
        id_publicacion: u32,
        id_vendedor: AccountId,
    ) -> (publicacion: Publicacion)
        ensures
            publicacion@ == (PublicacionVista {
                id: id_publicacion,
                productos: productos_a_publicar@,
                precio_final,
                id_vendedor: bytes_de_cuenta(id_vendedor),
                disponible: true,
            }),
            final(self)@ == (VendedorVista {
                publicaciones: old(self)@.publicaciones.push(id_publicacion),
                ..old(self)@
            }),
    {
        let publicacion = Publicacion::crear_publicacion(
            productos_a_publicar,
            precio_final,
            id_publicacion,
            id_vendedor,
        );
        self.publicaciones.push(id_publicacion);
        publicacion
    }

    /// Succeeds exactly when listing `id_publicacion` was made by this seller.
    pub fn enviar_compra(&self, id_publicacion: u32) -> (resultado: Result<(), ErrorMercado>)
        ensures
            resultado == (if self@.publicaciones.contains(id_publicacion) {
                Ok::<(), ErrorMercado>(())
            } else {
                Err(ErrorMercado::PublicacionAjena)
            }),
    {
        if contiene(&self.publicaciones, id_publicacion) {
            Ok(())
        } else {
            Err(ErrorMercado::PublicacionAjena)
        }
    }

    /// Notes product `id_producto` as loaded by this seller.
    pub fn cargar_producto(&mut self, id_producto: u32)
        ensures
            final(self)@ == (VendedorVista {
                productos: old(self)@.productos.push(id_producto),
                ..old(self)@
            }),
    {
        self.productos.push(id_producto);
    }

    /// A copy of this profile.
    pub fn copiar(&self) -> (copia: Vendedor)
        ensures
            copia@ == self@,
    {
        Vendedor {
            productos: copiar_ids(&self.productos),
            publicaciones: copiar_ids(&self.publicaciones),
            reputacion_como_vendedor: copiar_puntajes(&self.reputacion_como_vendedor),
        }
    }
}

impl Usuario {
    /// Fails with `EsComprador` exactly when the user is a buyer only.
    pub fn es_vendedor_ambos(&self) -> (resultado: Result<(), ErrorMercado>)
        ensures
            resultado == (if self.rol.vende() {
                Ok::<(), ErrorMercado>(())
            } else {
                Err(ErrorMercado::EsComprador)
            }),
    {
        if self.rol == Rol::Comp {
            return Err(ErrorMercado::EsComprador);
        }
        Ok(())
    }

    /// Fails with `EsVendedor` exactly when the user is a seller only.
    pub fn es_comprador_ambos(&self) -> (resultado: Result<(), ErrorMercado>)
        ensures
            resultado == (if self.rol.compra() {
                Ok::<(), ErrorMercado>(())
            } else {
                Err(ErrorMercado::EsVendedor)
            }),
    {
        if self.rol == Rol::Vend {
            return Err(ErrorMercado::EsVendedor);
        }
        Ok(())
    }

    /// The identifiers of the products the user loaded, oldest first. Fails
    /// without a seller profile, and when no product has been loaded.
    pub fn lista_de_productos(&self) -> (resultado: Result<Vec<u32>, ErrorMercado>)
        ensures
            match resultado {
                Ok(lista) => self@.datos_vendedor.is_some()
                    && lista@ == self@.datos_vendedor.unwrap().productos && lista@.len() > 0,
                Err(e) => e == (if self@.datos_vendedor.is_none() {
                    ErrorMercado::VendedorSinDatos
                } else {
                    ErrorMercado::VendedorSinProductos
                }) && (self@.datos_vendedor.is_none()
                    || self@.datos_vendedor.unwrap().productos.len() == 0),
            },
    {
        match &self.datos_vendedor {
            Some(datos_vendedor) => {
                if datos_vendedor.productos.len() == 0 {
                    return Err(ErrorMercado::VendedorSinProductos);
                }
                Ok(copiar_ids(&datos_vendedor.productos))
            },
            None => Err(ErrorMercado::VendedorSinDatos),
        }
    }

    /// Succeeds exactly when the user loaded product `id_producto`.
    pub fn verificar_propiedad_producto(
        &self,
        id_producto: u32,
    ) -> (resultado: Result<(), ErrorMercado>)
        ensures
            resultado == (if self@.datos_vendedor.is_none() {
                Err::<(), ErrorMercado>(ErrorMercado::VendedorSinDatos)
            } else if self@.posee_producto(id_producto) {
                Ok(())
            } else {
                Err(ErrorMercado::NoEsPropietario)
            }),
    {
        match &self.datos_vendedor {
            Some(datos_vendedor) => {
                if contiene(&datos_vendedor.productos, id_producto) {
                    return Ok(());
                }
                Err(ErrorMercado::NoEsPropietario)
            },
            None => Err(ErrorMercado::VendedorSinDatos),
        }
    }

    /// Notes product `id_producto` as loaded by the user. Fails, changing
    /// nothing, without a seller profile.
    pub fn cargar_producto(&mut self, id_producto: u32) -> (resultado: Result<(), ErrorMercado>)
        ensures
            match resultado {
                Ok(()) => old(self)@.datos_vendedor.is_some()
                    && final(self)@ == old(self)@.con_producto(id_producto),
                Err(e) => old(self)@.datos_vendedor.is_none()
                    && e == ErrorMercado::VendedorSinDatos && *final(self) == *old(self),
            },
    {
        match &mut self.datos_vendedor {
            Some(datos_vendedor) => {
                datos_vendedor.cargar_producto(id_producto);
                Ok(())
            },
            None => Err(ErrorMercado::VendedorSinDatos),
        }
    }

    /// Adds a score to the user's reputation as a seller. Fails, changing
    /// nothing, without a seller profile.
    pub fn recibir_puntaje_de_vendedor(
        &mut self,
        calificacion: u8,
    ) -> (resultado: Result<(), ErrorMercado>)
        ensures
            match resultado {
                Ok(()) => old(self)@.datos_vendedor.is_some()
                    && final(self)@ == old(self)@.con_puntaje_de_vendedor(calificacion),
                Err(e) => old(self)@.datos_vendedor.is_none()
                    && e == ErrorMercado::VendedorSinDatosCargados && *final(self) == *old(self),
            },
    {
        match &mut self.datos_vendedor {
            Some(datos_vendedor) => {
                datos_vendedor.reputacion_como_vendedor.push(calificacion);
                Ok(())
            },
            None => Err(ErrorMercado::VendedorSinDatosCargados),
        }
    }

    /// Adds a score to the user's reputation as a buyer. Fails, changing
    /// nothing, without a buyer profile.
    pub fn recibir_puntaje_de_comprador(
        &mut self,
        calificacion: u8,
    ) -> (resultado: Result<(), ErrorMercado>)
        ensures
            match resultado {
                Ok(()) => old(self)@.datos_comprador.is_some()
                    && final(self)@ == old(self)@.con_puntaje_de_comprador(calificacion),
                Err(e) => old(self)@.datos_comprador.is_none()
                    && e == ErrorMercado::CompradorSinDatosCargados && *final(self) == *old(self),
            },
    {
        match &mut self.datos_comprador {
            Some(datos_comprador) => {
                datos_comprador.reputacion_como_comprador.push(calificacion);
                Ok(())
            },
            None => Err(ErrorMercado::CompradorSinDatosCargados),
        }
    }

    /// A user registered under `id` with the profiles of `rol`, both empty.
    pub fn nuevo(
        id: AccountId,
        nombre: String,
        apellido: String,
        direccion: String,
        email: String,
        rol: Rol,
    ) -> (usuario: Usuario)
        ensures
            usuario@ == UsuarioVista::nuevo(
                bytes_de_cuenta(id),
                nombre@,
                apellido@,
                direccion@,
                email@,
                rol,
            ),
            usuario@.bien_formado(),
    {
        Usuario {
            id_usuario: id,
            nombre,
            apellido,
            direccion,
            email,
            rol,
            datos_comprador: match rol {
                Rol::Comp | Rol::Ambos => Some(Comprador::nuevo()),
                _ => None,
            },
            datos_vendedor: match rol {
                Rol::Vend | Rol::Ambos => Some(Vendedor::nuevo()),
                _ => None,
            },
        }
    }

    /// Makes a listing in the user's name and notes it in the seller profile.
    /// Fails, changing nothing, for a buyer-only user or without a seller profile.
    pub fn crear_publicacion(
        &mut self,
        productos_a_publicar: Vec<(u32, u32)>,
        precio_final: u32,
        id_publicacion: u32,
        id_vendedor: AccountId,
    ) -> (resultado: Result<Publicacion, ErrorMercado>)
        ensures
            match resultado {
                Ok(publicacion) => old(self).rol.vende() && old(self)@.datos_vendedor.is_some()
                    && publicacion@ == (PublicacionVista {
                    id: id_publicacion,
                    productos: productos_a_publicar@,
                    precio_final,
                    id_vendedor: bytes_de_cuenta(id_vendedor),
                    disponible: true,
                }) && final(self)@ == old(self)@.con_publicacion(id_publicacion),
                Err(e) => *final(self) == *old(self) && e == (if !old(self).rol.vende() {
                    ErrorMercado::NoEsVendedor
                } else {
                    ErrorMercado::VendedorSinDatos
                }) && (!old(self).rol.vende() || old(self)@.datos_vendedor.is_none()),
            },
    {
        if self.rol == Rol::Comp {
            return Err(ErrorMercado::NoEsVendedor);
        }
        match &mut self.datos_vendedor {
            Some(datos_vendedor) => Ok(
                datos_vendedor.crear_publicacion(
                    productos_a_publicar,
                    precio_final,
                    id_publicacion,
                    id_vendedor,
                ),
            ),
            None => Err(ErrorMercado::VendedorSinDatos),
        }
    }

    /// Switches the user to `nuevo_rol`, allocating the profiles the new role
    /// needs and the user lacks; existing profiles keep their history. Fails,
    /// changing nothing, when the user already holds `nuevo_rol`.
    pub fn modificar_rol(&mut self, nuevo_rol: Rol) -> (resultado: Result<(), ErrorMercado>)
        ensures
            match resultado {
                Ok(()) => nuevo_rol != old(self).rol
                    && final(self)@ == old(self)@.con_rol(nuevo_rol),
                Err(e) => nuevo_rol == old(self).rol && e == ErrorMercado::MismoRol
                    && *final(self) == *old(self),
            },
    {
        if nuevo_rol == self.rol {
            return Err(ErrorMercado::MismoRol);
        }
        self.rol = nuevo_rol;
        match nuevo_rol {
            Rol::Comp => {
                if self.datos_comprador.is_none() {
                    self.datos_comprador = Some(Comprador::nuevo());
                }
            },
            Rol::Vend => {
                if self.datos_vendedor.is_none() {
                    self.datos_vendedor = Some(Vendedor::nuevo());
                }
            },
            Rol::Ambos => {
                if self.datos_comprador.is_none() {
                    self.datos_comprador = Some(Comprador::nuevo());
                }
                if self.datos_vendedor.is_none() {
                    self.datos_vendedor = Some(Vendedor::nuevo());
                }
            },
        }
        Ok(())
    }

    /// Places an order in the user's name and notes it in the buyer profile.
    /// Fails, changing nothing, for a seller-only user or without a buyer profile.
    pub fn crear_orden_de_compra(
        &mut self,
        id_orden: u32,
        publicacion: Publicacion,
        id_comprador: AccountId,
    ) -> (resultado: Result<OrdenCompra, ErrorMercado>)
        ensures
            match resultado {
                Ok(orden) => old(self).rol.compra() && old(self)@.datos_comprador.is_some()
                    && orden@ == OrdenVista::nueva(
                    id_orden,
                    publicacion@,
                    bytes_de_cuenta(id_comprador),
                ) && final(self)@ == old(self)@.con_orden(id_orden),
                Err(e) => *final(self) == *old(self) && e == (if !old(self).rol.compra() {
                    ErrorMercado::NoEsComprador
                } else {
                    ErrorMercado::CompradorSinDatosCargados
                }) && (!old(self).rol.compra() || old(self)@.datos_comprador.is_none()),
            },
    {
        if self.rol == Rol::Vend {
            return Err(ErrorMercado::NoEsComprador);
        }
        match &mut self.datos_comprador {
            Some(datos_comprador) => Ok(
                datos_comprador.crear_orden_de_compra(id_orden, publicacion, id_comprador),
            ),
            None => Err(ErrorMercado::CompradorSinDatosCargados),
        }
    }

    /// Succeeds exactly when the user currently sells and made listing
    /// `id_publicacion`.
    pub fn enviar_compra(&self, id_publicacion: u32) -> (resultado: Result<(), ErrorMercado>)
        ensures
            resultado == self@.puede_enviar(id_publicacion),
    {
        if self.rol == Rol::Comp {
            return Err(ErrorMercado::SinRolDeVendedor);
        }
        match &self.datos_vendedor {
            Some(datos_vendedor) => datos_vendedor.enviar_compra(id_publicacion),
            None => Err(ErrorMercado::VendedorSinDatos),
        }
    }

    /// Succeeds exactly when the user currently buys and placed order `id_orden`.
    pub fn recibir_compra(&self, id_orden: u32) -> (resultado: Result<(), ErrorMercado>)
        ensures
            resultado == self@.puede_recibir(id_orden),
    {
        if self.rol == Rol::Vend {
            return Err(ErrorMercado::SinRolDeComprador);
        }
        match &self.datos_comprador {
            Some(datos_comprador) => datos_comprador.recibir_compra(id_orden),
            None => Err(ErrorMercado::CompradorSinDatosCargados),
        }
    }

    /// The side on which the user takes part in an order between
    /// `id_vendedor` and `id_comprador`.
    pub fn comprobar_rol(
        &self,
        id_vendedor: AccountId,
        id_comprador: AccountId,
    ) -> (resultado: Result<Rol, ErrorMercado>)
        ensures
            resultado == self@.rol_en_compra(
                bytes_de_cuenta(id_vendedor),
                bytes_de_cuenta(id_comprador),
            ),
    {
        match self.rol {
            Rol::Vend => {
                if self.datos_vendedor.is_some() {
                    if self.es_el_vendedor(id_vendedor) {
                        Ok(Rol::Vend)
                    } else {
                        Err(ErrorMercado::VendedorNoPoseePublicacion)
                    }
                } else {
                    Err(ErrorMercado::VendedorSinDatosCargados)
                }
            },
            Rol::Comp => {
                if self.datos_comprador.is_some() {
                    if self.es_el_comprador(id_comprador) {
                        Ok(Rol::Comp)
                    } else {
                        Err(ErrorMercado::NoPoseeOrden)
                    }
                } else {
                    Err(ErrorMercado::CompradorSinDatosCargados)
                }
            },
            Rol::Ambos => {
                if self.es_el_vendedor(id_vendedor) {
                    Ok(Rol::Vend)
                } else if self.es_el_comprador(id_comprador) {
                    Ok(Rol::Comp)
                } else {
                    Err(ErrorMercado::NoParticipa)
                }
            },
        }
    }

    /// Whether `id_vendedor` is this user.
    pub fn es_el_vendedor(&self, id_vendedor: AccountId) -> (es: bool)
        ensures
            es == (self@.id_usuario == bytes_de_cuenta(id_vendedor)),
    {
        misma_cuenta(&id_vendedor, &self.id_usuario)
    }

    /// Whether `id_comprador` is this user.
    pub fn es_el_comprador(&self, id_comprador: AccountId) -> (es: bool)
        ensures
            es == (self@.id_usuario == bytes_de_cuenta(id_comprador)),
    {
        misma_cuenta(&id_comprador, &self.id_usuario)
    }

    /// A copy of this user.
    pub fn copiar(&self) -> (copia: Usuario)
        ensures
            copia@ == self@,
    {
        Usuario {
            id_usuario: self.id_usuario,
            nombre: self.nombre.clone(),
            apellido: self.apellido.clone(),
            direccion: self.direccion.clone(),
            email: self.email.clone(),
            rol: self.rol,
            datos_comprador: match &self.datos_comprador {
                Some(datos) => Some(datos.copiar()),
                None => None,
            },
            datos_vendedor: match &self.datos_vendedor {
                Some(datos) => Some(datos.copiar()),
                None => None,
            },
        }
    }
}

} // verus!
