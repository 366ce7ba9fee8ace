//! The state of the marketplace as plain values, what it means for that state
//! to be consistent, and what each operation makes of it.

use vstd::prelude::*;
use crate::error::ErrorMercado;
use crate::existencias::{existe, precio_final, stock_suficiente, tras_aumentar, tras_descontar};
use crate::inventario::{comprometido, reservado};
use crate::orden::{EstadoCompra, OrdenVista};
use crate::producto::ProductoVista;
use crate::publicacion::PublicacionVista;
use crate::rol::Rol;
use crate::usuario::UsuarioVista;

verus! {

/// Everything the marketplace holds.
pub struct MercadoVista {
    /// Registered users, in order of registration.
    pub usuarios: Seq<UsuarioVista>,
    /// Listings; listing `id` is entry `id`.
    pub publicaciones: Seq<PublicacionVista>,
    /// Products; product `id` is entry `id - 1`.
    pub productos: Seq<ProductoVista>,
    /// Stock counters; the stock of product `id` is entry `id - 1`.
    pub existencias: Seq<u32>,
    /// Orders; order `id` is entry `id`.
    pub ordenes: Seq<OrdenVista>,
}

/// Why `par` cannot be listed by `usuario`, if it cannot: its quantity is
/// zero, or its product is not one the user loaded.
pub open spec fn falta_en_par(usuario: UsuarioVista, par: (u32, u32)) -> Option<ErrorMercado> {
    if par.1 == 0 {
        Some(ErrorMercado::CantidadInvalida)
    } else if usuario.datos_vendedor.is_none() {
        Some(ErrorMercado::VendedorSinDatos)
    } else if !usuario.posee_producto(par.0) {
        Some(ErrorMercado::NoEsPropietario)
    } else {
        None
    }
}

/// Checks quantity and ownership of each pair: the failure of the first pair
/// that cannot be listed, or `Ok` when every pair can.
pub open spec fn pares_validos(
    usuario: UsuarioVista,
    pares: Seq<(u32, u32)>,
) -> Result<(), ErrorMercado>
    decreases pares.len(),
{
    if pares.len() == 0 {
        Ok(())
    } else {
        match pares_validos(usuario, pares.drop_last()) {
            Err(e) => Err(e),
            Ok(()) => match falta_en_par(usuario, pares.last()) {
                Some(e) => Err(e),
                None => Ok(()),
            },
        }
    }
}

/// The failure of a prefix of the pairs to be valid is the failure of the whole list.
pub proof fn lema_validos_prefijo(usuario: UsuarioVista, pares: Seq<(u32, u32)>, i: int)
    requires
        0 <= i <= pares.len(),
        pares_validos(usuario, pares.take(i)).is_err(),
    ensures
        pares_validos(usuario, pares) == pares_validos(usuario, pares.take(i)),
    decreases pares.len() - i,
{
    if i < pares.len() {
        assert(pares.take(i + 1).drop_last() =~= pares.take(i));
        lema_validos_prefijo(usuario, pares, i + 1);
    } else {
        assert(pares.take(i) =~= pares);
    }
}

impl MercadoVista {
    /// The marketplace before anything has happened.
    pub open spec fn vacio() -> MercadoVista {
        MercadoVista {
            usuarios: Seq::empty(),
            publicaciones: Seq::empty(),
            productos: Seq::empty(),
            existencias: Seq::empty(),
            ordenes: Seq::empty(),
        }
    }

    /// Whether a user is registered under `cuenta`.
    pub open spec fn registrado(self, cuenta: Seq<u8>) -> bool {
        exists|i: int|
            0 <= i < self.usuarios.len() && #[trigger] self.usuarios[i].id_usuario == cuenta
    }

    /// The place among the users of the one registered under `cuenta`.
    pub open spec fn indice(self, cuenta: Seq<u8>) -> int {
        choose|i: int|
            0 <= i < self.usuarios.len() && #[trigger] self.usuarios[i].id_usuario == cuenta
    }

    /// The user registered under `cuenta`.
    pub open spec fn usuario(self, cuenta: Seq<u8>) -> UsuarioVista {
        self.usuarios[self.indice(cuenta)]
    }

    /// Whether `cuenta` is registered and has a seller profile.
    pub open spec fn tiene_perfil_vendedor(self, cuenta: Seq<u8>) -> bool {
        exists|i: int|
            0 <= i < self.usuarios.len() && #[trigger] self.usuarios[i].id_usuario == cuenta
                && self.usuarios[i].datos_vendedor.is_some()
    }

    /// Whether `cuenta` is registered and has a buyer profile.
    pub open spec fn tiene_perfil_comprador(self, cuenta: Seq<u8>) -> bool {
        exists|i: int|
            0 <= i < self.usuarios.len() && #[trigger] self.usuarios[i].id_usuario == cuenta
                && self.usuarios[i].datos_comprador.is_some()
    }

    /// Whether every pair names a product of the marketplace.
    pub open spec fn productos_conocidos(self, pares: Seq<(u32, u32)>) -> bool {
        forall|k: int|
            0 <= k < pares.len() ==> existe(self.productos.len(), (#[trigger] pares[k]).0)
    }

    /// No two users share an account, and each holds the profiles of its role.
    pub open spec fn usuarios_coherentes(self) -> bool {
        &&& forall|i: int, j: int|
            0 <= i < j < self.usuarios.len() ==> (#[trigger] self.usuarios[i]).id_usuario != (
            #[trigger] self.usuarios[j]).id_usuario
        &&& forall|i: int|
            0 <= i < self.usuarios.len() ==> (#[trigger] self.usuarios[i]).bien_formado()
        &&& forall|i: int, k: int|
            0 <= i < self.usuarios.len() && self.usuarios[i].datos_vendedor.is_some() && 0 <= k
                < self.usuarios[i].datos_vendedor.unwrap().productos.len() ==> existe(
                self.productos.len(),
                #[trigger] (#[trigger] self.usuarios[i]).datos_vendedor.unwrap().productos[k],
            )
    }

    /// Products, listings and orders are numbered by their place, and each
    /// history is short enough for its identifiers.
    pub open spec fn numeracion_coherente(self) -> bool {
        &&& self.productos.len() == self.existencias.len()
        &&& self.productos.len() <= u32::MAX
        &&& self.publicaciones.len() <= u32::MAX
        &&& self.ordenes.len() <= u32::MAX
        &&& forall|i: int|
            0 <= i < self.productos.len() ==> (#[trigger] self.productos[i]).id == i + 1
        &&& forall|i: int|
            0 <= i < self.publicaciones.len() ==> (#[trigger] self.publicaciones[i]).id == i
        &&& forall|i: int| 0 <= i < self.ordenes.len() ==> (#[trigger] self.ordenes[i]).id == i
    }

    /// Every listing belongs to a user with a seller profile and offers
    /// products of the marketplace.
    pub open spec fn publicaciones_coherentes(self) -> bool {
        forall|i: int|
            0 <= i < self.publicaciones.len() ==> {
                &&& self.tiene_perfil_vendedor((#[trigger] self.publicaciones[i]).id_vendedor)
                &&& self.productos_conocidos(self.publicaciones[i].productos)
            }
    }

    /// Every order holds the listing it was placed against, as that listing
    /// was made, and belongs to a user with a buyer profile who is not the
    /// seller of the listing.
    pub open spec fn ordenes_coherentes(self) -> bool {
        forall|i: int|
            0 <= i < self.ordenes.len() ==> {
                let orden = #[trigger] self.ordenes[i];
                &&& orden.info_publicacion.0 < self.publicaciones.len()
                &&& orden.info_publicacion.1
                    == self.publicaciones[orden.info_publicacion.0 as int].productos
                &&& orden.info_publicacion.2
                    == self.publicaciones[orden.info_publicacion.0 as int].precio_final
                &&& orden.info_publicacion.3
                    == self.publicaciones[orden.info_publicacion.0 as int].id_vendedor
                &&& self.tiene_perfil_comprador(orden.id_comprador)
                &&& orden.id_comprador != orden.info_publicacion.3
            }
    }

    /// Users, products, listings and orders refer to each other consistently.
    pub open spec fn estructura_coherente(self) -> bool {
        &&& self.usuarios_coherentes()
        &&& self.numeracion_coherente()
        &&& self.publicaciones_coherentes()
        &&& self.ordenes_coherentes()
    }

    /// All units of product `id`: those in stock, those reserved by available
    /// listings and those committed to orders that were not cancelled.
    pub open spec fn inventario(self, id: u32) -> int {
        self.existencias[id - 1] + reservado(self.publicaciones, id) + comprometido(
            self.ordenes,
            id,
        )
    }

    /// The units of every product, wherever they are, fit in one counter.
    pub open spec fn inventario_acotado(self) -> bool {
        forall|id: u32|
            existe(self.productos.len(), id) ==> #[trigger] self.inventario(id) <= u32::MAX
    }

    /// What holds of the marketplace between any two operations.
    pub open spec fn bien_formado(self) -> bool {
        &&& self.estructura_coherente()
        &&& self.inventario_acotado()
    }

    /// The same marketplace with the user registered under `cuenta` replaced.
    pub open spec fn con_usuario(self, cuenta: Seq<u8>, usuario: UsuarioVista) -> MercadoVista {
        MercadoVista { usuarios: self.usuarios.update(self.indice(cuenta), usuario), ..self }
    }

    /// Registration: a new user under `cuenta`, unless one exists.
    pub open spec fn tras_registrar(
        self,
        cuenta: Seq<u8>,
        nombre: Seq<char>,
        apellido: Seq<char>,
        direccion: Seq<char>,
        email: Seq<char>,
        rol: Rol,
    ) -> Result<MercadoVista, ErrorMercado> {
        if self.registrado(cuenta) {
            Err(ErrorMercado::UsuarioYaRegistrado)
        } else {
            Ok(
                MercadoVista {
                    usuarios: self.usuarios.push(
                        UsuarioVista::nuevo(cuenta, nombre, apellido, direccion, email, rol),
                    ),
                    ..self
                },
            )
        }
    }

    /// Role change: the user under `cuenta` switches to `nuevo_rol`.
    pub open spec fn tras_modificar_rol(
        self,
        cuenta: Seq<u8>,
        nuevo_rol: Rol,
    ) -> Result<MercadoVista, ErrorMercado> {
        if !self.registrado(cuenta) {
            Err(ErrorMercado::UsuarioNoEncontrado)
        } else if self.usuario(cuenta).rol == nuevo_rol {
            Err(ErrorMercado::MismoRol)
        } else {
            Ok(self.con_usuario(cuenta, self.usuario(cuenta).con_rol(nuevo_rol)))
        }
    }

    /// Loading a product: it gets the next identifier, its stock is recorded
    /// beside it, and its seller notes it as owned.
    pub open spec fn tras_cargar_producto(
        self,
        cuenta: Seq<u8>,
        nombre: Seq<char>,
        descripcion: Seq<char>,
        precio: u32,
        categoria: Seq<char>,
        stock: u32,
    ) -> Result<MercadoVista, ErrorMercado> {
        if precio == 0 {
            Err(ErrorMercado::PrecioInvalido)
        } else if stock == 0 {
            Err(ErrorMercado::StockInvalido)
        } else if !self.registrado(cuenta) {
            Err(ErrorMercado::UsuarioNoEncontrado)
        } else if !self.usuario(cuenta).rol.vende() {
            Err(ErrorMercado::SinPermisoDeVendedor)
        } else if self.productos.len() >= u32::MAX {
            Err(ErrorMercado::DesbordeAlSumar)
        } else {
            let id = (self.productos.len() + 1) as u32;
            Ok(
                MercadoVista {
                    productos: self.productos.push(
                        ProductoVista {
                            id,
                            nombre,
                            descripcion,
                            precio,
                            categoria,
                        },
                    ),
                    existencias: self.existencias.push(stock),
                    ..self.con_usuario(cuenta, self.usuario(cuenta).con_producto(id))
                },
            )
        }
    }

    /// The products of the user under `cuenta`, each with its current stock.
    pub open spec fn productos_propios(
        self,
        cuenta: Seq<u8>,
    ) -> Result<Seq<(u32, u32)>, ErrorMercado> {
        if !self.registrado(cuenta) {
            Err(ErrorMercado::UsuarioNoEncontrado)
        } else if !self.usuario(cuenta).rol.vende() {
            Err(ErrorMercado::EsComprador)
        } else if self.usuario(cuenta).datos_vendedor.unwrap().productos.len() == 0 {
            Err(ErrorMercado::VendedorSinProductos)
        } else {
            Ok(
                self.usuario(cuenta).datos_vendedor.unwrap().productos.map_values(
                    |id: u32| (id, self.existencias[id - 1]),
                ),
            )
        }
    }

    /// Making a listing: the caller must sell; the pairs are checked for
    /// quantity and ownership, then for stock; the total is computed; the
    /// stock is reserved; the listing gets the next identifier and its seller
    /// notes it.
    pub open spec fn tras_publicar(
        self,
        cuenta: Seq<u8>,
        pares: Seq<(u32, u32)>,
    ) -> Result<MercadoVista, ErrorMercado> {
        if !self.registrado(cuenta) {
            Err(ErrorMercado::UsuarioNoEncontrado)
        } else if !self.usuario(cuenta).rol.vende() {
            Err(ErrorMercado::NoEsVendedor)
        } else if pares_validos(self.usuario(cuenta), pares) is Err {
            Err(pares_validos(self.usuario(cuenta), pares)->Err_0)
        } else if stock_suficiente(self.existencias, pares) is Err {
            Err(stock_suficiente(self.existencias, pares)->Err_0)
        } else if self.publicaciones.len() >= u32::MAX {
            Err(ErrorMercado::HistorialLleno)
        } else if precio_final(self.productos, pares) is Err {
            Err(precio_final(self.productos, pares)->Err_0)
        } else if tras_descontar(self.existencias, pares) is None {
            Err(ErrorMercado::DesbordeAlRestarStock)
        } else {
            let id = self.publicaciones.len() as u32;
            Ok(
                MercadoVista {
                    existencias: tras_descontar(self.existencias, pares).unwrap(),
                    publicaciones: self.publicaciones.push(
                        PublicacionVista {
                            id,
                            productos: pares,
                            precio_final: precio_final(self.productos, pares).unwrap(),
                            id_vendedor: cuenta,
                            disponible: true,
                        },
                    ),
                    ..self.con_usuario(cuenta, self.usuario(cuenta).con_publicacion(id))
                },
            )
        }
    }

    /// Looking a listing up by its identifier.
    pub open spec fn publicacion(self, id: u32) -> Result<PublicacionVista, ErrorMercado> {
        if id < self.publicaciones.len() {
            Ok(self.publicaciones[id as int])
        } else {
            Err(ErrorMercado::PublicacionNoEncontrada)
        }
    }

    /// Placing an order: the buyer gets a pending order holding the listing as
    /// it stands. The listing is then restocked for the next buyer: if the
    /// stock covers its quantities once more they are reserved again and it
    /// stays available, otherwise it becomes unavailable and the stock is
    /// left alone.
    pub open spec fn tras_ordenar(
        self,
        cuenta: Seq<u8>,
        id_publicacion: u32,
    ) -> Result<MercadoVista, ErrorMercado> {
        if !self.registrado(cuenta) {
            Err(ErrorMercado::UsuarioNoEncontrado)
        } else if id_publicacion >= self.publicaciones.len() {
            Err(ErrorMercado::PublicacionNoEncontrada)
        } else {
            let publicacion = self.publicaciones[id_publicacion as int];
            if !publicacion.disponible {
                Err(ErrorMercado::PublicacionSinStock)
            } else if cuenta == publicacion.id_vendedor {
                Err(ErrorMercado::CompraPropia)
            } else if !self.usuario(publicacion.id_vendedor).rol.vende() {
                Err(ErrorMercado::PublicacionNoDisponible)
            } else if self.ordenes.len() >= u32::MAX {
                Err(ErrorMercado::HistorialLleno)
            } else if !self.usuario(cuenta).rol.compra() {
                Err(ErrorMercado::NoEsComprador)
            } else {
                let id = self.ordenes.len() as u32;
                let con_orden = MercadoVista {
                    ordenes: self.ordenes.push(OrdenVista::nueva(id, publicacion, cuenta)),
                    ..self.con_usuario(cuenta, self.usuario(cuenta).con_orden(id))
                };
                Ok(
                    match tras_descontar(self.existencias, publicacion.productos) {
                        Some(existencias) => MercadoVista { existencias, ..con_orden },
                        None => MercadoVista {
                            publicaciones: self.publicaciones.update(
                                id_publicacion as int,
                                publicacion.con_disponible(false),
                            ),
                            ..con_orden
                        },
                    },
                )
            }
        }
    }

    /// Asking to cancel an order. The buyer's request is only noted. The
    /// seller's request, which must follow the buyer's, cancels the order and
    /// gives the goods back: to the stock if the listing is still available,
    /// otherwise to the listing, which becomes available again.
    pub open spec fn tras_cancelar(
        self,
        cuenta: Seq<u8>,
        id_orden: u32,
    ) -> Result<MercadoVista, ErrorMercado> {
        if !self.registrado(cuenta) {
            Err(ErrorMercado::UsuarioNoEncontrado)
        } else if id_orden >= self.ordenes.len() {
            Err(ErrorMercado::OrdenNoEncontrada)
        } else {
            let orden = self.ordenes[id_orden as int];
            if orden.estado != EstadoCompra::Pendiente {
                Err(ErrorMercado::NoCancelable)
            } else {
                match self.usuario(cuenta).rol_en_compra(
                    orden.info_publicacion.3,
                    orden.id_comprador,
                ) {
                    Err(e) => Err(e),
                    Ok(Rol::Comp) => if orden.cancelacion.1 {
                        Err(ErrorMercado::YaCanceladaPorComprador)
                    } else {
                        Ok(
                            MercadoVista {
                                ordenes: self.ordenes.update(
                                    id_orden as int,
                                    orden.cancelada_por_comprador(),
                                ),
                                ..self
                            },
                        )
                    },
                    Ok(_) => match orden.consentimiento_del_vendedor() {
                        Err(e) => Err(e),
                        Ok(()) => match self.tras_devolver(orden.info_publicacion.0) {
                            Err(e) => Err(e),
                            Ok(devuelto) => Ok(
                                MercadoVista {
                                    ordenes: self.ordenes.update(
                                        id_orden as int,
                                        orden.cancelada_por_vendedor(),
                                    ),
                                    ..devuelto
                                },
                            ),
                        },
                    },
                }
            }
        }
    }

    /// Shipping: the seller of the listing moves a pending order to shipped.
    pub open spec fn tras_enviar(
        self,
        cuenta: Seq<u8>,
        id_orden: u32,
    ) -> Result<MercadoVista, ErrorMercado> {
        if !self.registrado(cuenta) {
            Err(ErrorMercado::UsuarioNoEncontrado)
        } else if id_orden >= self.ordenes.len() {
            Err(ErrorMercado::OrdenInexistente)
        } else {
            let orden = self.ordenes[id_orden as int];
            if orden.estado != EstadoCompra::Pendiente {
                Err(ErrorMercado::NoSePuedeEnviar)
            } else {
                match self.usuario(cuenta).puede_enviar(orden.info_publicacion.0) {
                    Err(e) => Err(e),
                    Ok(()) => Ok(
                        MercadoVista {
                            ordenes: self.ordenes.update(
                                id_orden as int,
                                orden.con_estado(EstadoCompra::Enviado),
                            ),
                            ..self
                        },
                    ),
                }
            }
        }
    }

    /// Receiving: the buyer of a shipped order moves it to received.
    pub open spec fn tras_recibir(
        self,
        cuenta: Seq<u8>,
        id_orden: u32,
    ) -> Result<MercadoVista, ErrorMercado> {
        if !self.registrado(cuenta) {
            Err(ErrorMercado::UsuarioNoEncontrado)
        } else if id_orden >= self.ordenes.len() {
            Err(ErrorMercado::OrdenInexistente)
        } else {
            let orden = self.ordenes[id_orden as int];
            if orden.estado != EstadoCompra::Enviado {
                Err(ErrorMercado::NoFueEnviado)
            } else {
                match self.usuario(cuenta).puede_recibir(id_orden) {
                    Err(e) => Err(e),
                    Ok(()) => Ok(
                        MercadoVista {
                            ordenes: self.ordenes.update(
                                id_orden as int,
                                orden.con_estado(EstadoCompra::Recibido),
                            ),
                            ..self
                        },
                    ),
                }
            }
        }
    }

    /// Rating: once an order is received, each party may score the other
    /// once, from 1 to 5. The score joins the reputation of the party rated.
    pub open spec fn tras_calificar(
        self,
        cuenta: Seq<u8>,
        id_orden: u32,
        calificacion: u8,
    ) -> Result<MercadoVista, ErrorMercado> {
        if calificacion < 1 || calificacion > 5 {
            Err(ErrorMercado::CalificacionInvalida)
        } else if !self.registrado(cuenta) {
            Err(ErrorMercado::UsuarioNoEncontrado)
        } else if id_orden >= self.ordenes.len() {
            Err(ErrorMercado::OrdenNoEncontrada)
        } else {
            let orden = self.ordenes[id_orden as int];
            if orden.estado != EstadoCompra::Recibido {
                Err(ErrorMercado::CompraNoRecibida)
            } else {
                self.tras_calificar_segun_rol(cuenta, id_orden, calificacion)
            }
        }
    }

    /// Adding a score to the seller reputation of the user under `cuenta`.
    pub open spec fn tras_puntuar_vendedor(
        self,
        cuenta: Seq<u8>,
        calificacion: u8,
    ) -> Result<MercadoVista, ErrorMercado> {
        if !self.registrado(cuenta) {
            Err(ErrorMercado::UsuarioNoEncontrado)
        } else if self.usuario(cuenta).datos_vendedor.is_none() {
            Err(ErrorMercado::VendedorSinDatosCargados)
        } else {
            Ok(self.con_usuario(cuenta, self.usuario(cuenta).con_puntaje_de_vendedor(calificacion)))
        }
    }

    /// Adding a score to the buyer reputation of the user under `cuenta`.
    pub open spec fn tras_puntuar_comprador(
        self,
        cuenta: Seq<u8>,
        calificacion: u8,
    ) -> Result<MercadoVista, ErrorMercado> {
        if !self.registrado(cuenta) {
            Err(ErrorMercado::UsuarioNoEncontrado)
        } else if self.usuario(cuenta).datos_comprador.is_none() {
            Err(ErrorMercado::CompradorSinDatosCargados)
        } else {
            Ok(
                self.con_usuario(
                    cuenta,
                    self.usuario(cuenta).con_puntaje_de_comprador(calificacion),
                ),
            )
        }
    }

    /// The part of rating that depends on the side the caller is on: the
    /// caller's slot on the order must be free; the score joins the
    /// reputation of the other party and the slot is filled.
    pub open spec fn tras_calificar_segun_rol(
        self,
        cuenta: Seq<u8>,
        id_orden: u32,
        calificacion: u8,
    ) -> Result<MercadoVista, ErrorMercado> {
        if !self.registrado(cuenta) {
            Err(ErrorMercado::UsuarioNoEncontrado)
        } else if id_orden >= self.ordenes.len() {
            Err(ErrorMercado::OrdenNoEncontrada)
        } else {
            let orden = self.ordenes[id_orden as int];
            let vendedor = orden.info_publicacion.3;
            let comprador = orden.id_comprador;
            match self.usuario(cuenta).rol_en_compra(vendedor, comprador) {
                Err(e) => Err(e),
                Ok(Rol::Comp) => if orden.calificaciones.0 {
                    Err(ErrorMercado::YaCalifico)
                } else {
                    Ok(
                        MercadoVista {
                            ordenes: self.ordenes.update(
                                id_orden as int,
                                orden.calificada_por_comprador(calificacion),
                            ),
                            ..self.con_usuario(
                                vendedor,
                                self.usuario(vendedor).con_puntaje_de_vendedor(calificacion),
                            )
                        },
                    )
                },
                Ok(_) => if orden.calificaciones.1 {
                    Err(ErrorMercado::YaCalifico)
                } else {
                    Ok(
                        MercadoVista {
                            ordenes: self.ordenes.update(
                                id_orden as int,
                                orden.calificada_por_vendedor(),
                            ),
                            ..self.con_usuario(
                                comprador,
                                self.usuario(comprador).con_puntaje_de_comprador(calificacion),
                            )
                        },
                    )
                },
            }
        }
    }

    /// Looking an order up by its identifier.
    pub open spec fn orden(self, id: u32) -> Result<OrdenVista, ErrorMercado> {
        if id < self.ordenes.len() {
            Ok(self.ordenes[id as int])
        } else {
            Err(ErrorMercado::OrdenNoEncontrada)
        }
    }

    /// Giving back the goods of an order placed against listing
    /// `id_publicacion`: to the stock if the listing is available, otherwise
    /// to the listing, which becomes available again.
    pub open spec fn tras_devolver(
        self,
        id_publicacion: u32,
    ) -> Result<MercadoVista, ErrorMercado> {
        if id_publicacion >= self.publicaciones.len() {
            Err(ErrorMercado::PublicacionNoEncontrada)
        } else {
            let publicacion = self.publicaciones[id_publicacion as int];
            if publicacion.disponible {
                match tras_aumentar(self.existencias, publicacion.productos) {
                    Err(e) => Err(e),
                    Ok(existencias) => Ok(MercadoVista { existencias, ..self }),
                }
            } else {
                Ok(
                    MercadoVista {
                        publicaciones: self.publicaciones.update(
                            id_publicacion as int,
                            publicacion.con_disponible(true),
                        ),
                        ..self
                    },
                )
            }
        }
    }
}

} // verus!
