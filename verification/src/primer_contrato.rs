//! The marketplace: registration, inventory, listings, orders and ratings.

mod validacion;

use vstd::prelude::*;
use ink::primitives::AccountId;
use crate::cuenta::{bytes_de_cuenta, misma_cuenta};
use crate::error::ErrorMercado;
use crate::estado::{lema_validos_prefijo, pares_validos, MercadoVista};
use crate::existencias::{
    aumentar_stock_productos, calcular_precio_final, descontar_stock, existe,
    hay_stock_suficiente, puede_descontar, tras_descontar, vistas,
};
use crate::invariante::{
    lema_indice, lema_partes_de_orden, lema_perfil_vendedor,
    ley_bien_formado_tras_calificar_segun_rol,
    ley_bien_formado_tras_cancelar, ley_bien_formado_tras_cargar_producto,
    ley_bien_formado_tras_enviar, ley_bien_formado_tras_modificar_rol,
    ley_bien_formado_tras_ordenar, ley_bien_formado_tras_publicar,
    ley_bien_formado_tras_puntuar_comprador, ley_bien_formado_tras_puntuar_vendedor,
    ley_bien_formado_tras_recibir, ley_bien_formado_tras_registrar,
};
use crate::listas::copiar_ids;
use crate::orden::{EstadoCompra, OrdenCompra, OrdenVista};
use crate::producto::Producto;
use crate::publicacion::{Publicacion, PublicacionVista};
use crate::rol::Rol;
use crate::usuario::Usuario;

verus! {

/// The marketplace. Its state can only be reached through the operations
/// below, each of which either applies in full or fails and changes nothing.
pub struct PrimerContrato {
    usuarios: Vec<Usuario>,
    historial_publicaciones: Vec<Publicacion>,
    historial_productos: Vec<Producto>,
    existencias: Vec<u32>,
    historial_ordenes_de_compra: Vec<OrdenCompra>,
}

impl View for PrimerContrato {
    type V = MercadoVista;

    closed spec fn view(&self) -> MercadoVista {
        MercadoVista {
            usuarios: self.usuarios@.map_values(|u: Usuario| u@),
            publicaciones: self.historial_publicaciones@.map_values(|p: Publicacion| p@),
            productos: self.historial_productos@.map_values(|p: Producto| p@),
            existencias: self.existencias@,
            ordenes: self.historial_ordenes_de_compra@.map_values(|o: OrdenCompra| o@),
        }
    }
}

/// The marketplace that the parts make up.
pub open spec fn vista_de_partes(
    usuarios: Seq<Usuario>,
    publicaciones: Seq<Publicacion>,
    productos: Seq<Producto>,
    existencias: Seq<u32>,
    ordenes: Seq<OrdenCompra>,
) -> MercadoVista {
    MercadoVista {
        usuarios: usuarios.map_values(|u: Usuario| u@),
        publicaciones: publicaciones.map_values(|p: Publicacion| p@),
        productos: productos.map_values(|p: Producto| p@),
        existencias,
        ordenes: ordenes.map_values(|o: OrdenCompra| o@),
    }
}

impl PrimerContrato {
    /// What holds of the marketplace between any two operations.
    pub open spec fn bien_formado(&self) -> bool {
        self@.bien_formado()
    }

    /// An empty marketplace.
    pub fn new() -> (contrato: PrimerContrato)
        ensures
            contrato.bien_formado(),
            contrato@ == MercadoVista::vacio(),
    {
        let contrato = PrimerContrato {
            usuarios: Vec::new(),
            historial_publicaciones: Vec::new(),
            historial_productos: Vec::new(),
            existencias: Vec::new(),
            historial_ordenes_de_compra: Vec::new(),
        };
        proof {
            assert(contrato@.usuarios =~= Seq::empty());
            assert(contrato@.publicaciones =~= Seq::empty());
            assert(contrato@.productos =~= Seq::empty());
            assert(contrato@.ordenes =~= Seq::empty());
        }
        contrato
    }

    /// The marketplace made of the parts given, as brought back from
    /// storage, if they are consistent with each other; `None` if not.
    pub fn desde_partes(
        usuarios: Vec<Usuario>,
        publicaciones: Vec<Publicacion>,
        productos: Vec<Producto>,
        existencias: Vec<u32>,
        ordenes: Vec<OrdenCompra>,
    ) -> (resultado: Option<PrimerContrato>)
        ensures
            match resultado {
                Some(contrato) => contrato.bien_formado() && contrato@ == vista_de_partes(
                    usuarios@,
                    publicaciones@,
                    productos@,
                    existencias@,
                    ordenes@,
                ),
                None => !vista_de_partes(
                    usuarios@,
                    publicaciones@,
                    productos@,
                    existencias@,
                    ordenes@,
                ).bien_formado(),
            },
    {
        let contrato = PrimerContrato {
            usuarios,
            historial_publicaciones: publicaciones,
            historial_productos: productos,
            existencias,
            historial_ordenes_de_compra: ordenes,
        };
        if contrato.numeracion_valida() && contrato.usuarios_validos()
            && contrato.publicaciones_validas() && contrato.ordenes_validas()
            && contrato.inventario_valido() {
            Some(contrato)
        } else {
            None
        }
    }

    /// How many products have been loaded; also the identifier of the latest.
    pub fn get_dimension_logica(&self) -> (dimension: u32)
        requires
            self.bien_formado(),
        ensures
            dimension == self@.productos.len(),
    {
        self.historial_productos.len() as u32
    }

    /// The place among the users of the one registered under `id_usuario`.
    fn posicion_de_usuario(&self, id_usuario: AccountId) -> (posicion: Option<usize>)
        requires
            self@.usuarios_coherentes(),
        ensures
            match posicion {
                Some(i) => i < self.usuarios.len() && self@.registrado(
                    bytes_de_cuenta(id_usuario),
                ) && self@.indice(bytes_de_cuenta(id_usuario)) == i,
                None => !self@.registrado(bytes_de_cuenta(id_usuario)),
            },
    {
        let mut i: usize = 0;
        while i < self.usuarios.len()
            invariant
                self@.usuarios_coherentes(),
                i <= self.usuarios.len(),
                forall|j: int|
                    0 <= j < i ==> (#[trigger] self@.usuarios[j]).id_usuario != bytes_de_cuenta(
                        id_usuario,
                    ),
            decreases self.usuarios.len() - i,
        {
            if misma_cuenta(&self.usuarios[i].id_usuario, &id_usuario) {
                proof {
                    lema_indice(self@, i as int);
                }
                return Some(i);
            }
            i += 1;
        }
        None
    }

    /// A copy of the user registered under `id_usuario`.
    pub fn buscar_usuario(
        &self,
        id_usuario: AccountId,
    ) -> (resultado: Result<Usuario, ErrorMercado>)
        requires
            self.bien_formado(),
        ensures
            match resultado {
                Ok(usuario) => self@.registrado(bytes_de_cuenta(id_usuario)) && usuario@
                    == self@.usuario(bytes_de_cuenta(id_usuario)),
                Err(e) => !self@.registrado(bytes_de_cuenta(id_usuario)) && e
                    == ErrorMercado::UsuarioNoEncontrado,
            },
    {
        match self.posicion_de_usuario(id_usuario) {
            Some(i) => Ok(self.usuarios[i].copiar()),
            None => Err(ErrorMercado::UsuarioNoEncontrado),
        }
    }

    /// Registers the caller. Fails if the account is already registered,
    /// whatever the other fields.
    pub fn agregar_usuario_sistema(
        &mut self,
        account_id: AccountId,
        nombre: String,
        apellido: String,
        direccion: String,
        email: String,
        rol: Rol,
    ) -> (resultado: Result<(), ErrorMercado>)
        requires
            old(self).bien_formado(),
        ensures
            final(self).bien_formado(),
            match resultado {
                Ok(()) => Ok::<MercadoVista, ErrorMercado>(final(self)@),
                Err(e) => Err(e),
            } == old(self)@.tras_registrar(
                bytes_de_cuenta(account_id),
                nombre@,
                apellido@,
                direccion@,
                email@,
                rol,
            ),
            resultado is Err ==> final(self)@ == old(self)@,
    {
        if self.posicion_de_usuario(account_id).is_some() {
            return Err(ErrorMercado::UsuarioYaRegistrado);
        }
        let usuario = Usuario::nuevo(account_id, nombre, apellido, direccion, email, rol);
        self.usuarios.push(usuario);
        proof {
            let previo = old(self)@;
            assert(self@.usuarios =~= previo.usuarios.push(usuario@));
            ley_bien_formado_tras_registrar(
                previo,
                bytes_de_cuenta(account_id),
                nombre@,
                apellido@,
                direccion@,
                email@,
                rol,
            );
        }
        Ok(())
    }

    /// Switches the caller to `nuevo_rol`. Profiles the new role needs are
    /// allocated; profiles the caller already has are kept with their history.
    pub fn modificar_rol(
        &mut self,
        account_id: AccountId,
        nuevo_rol: Rol,
    ) -> (resultado: Result<(), ErrorMercado>)
        requires
            old(self).bien_formado(),
        ensures
            final(self).bien_formado(),
            match resultado {
                Ok(()) => Ok::<MercadoVista, ErrorMercado>(final(self)@),
                Err(e) => Err(e),
            } == old(self)@.tras_modificar_rol(bytes_de_cuenta(account_id), nuevo_rol),
            resultado is Err ==> final(self)@ == old(self)@,
    {
        let posicion = match self.posicion_de_usuario(account_id) {
            Some(i) => i,
            None => {
                return Err(ErrorMercado::UsuarioNoEncontrado);
            },
        };
        match self.usuarios[posicion].modificar_rol(nuevo_rol) {
            Ok(()) => {
                proof {
                    let previo = old(self)@;
                    assert(self@.usuarios =~= previo.usuarios.update(
                        posicion as int,
                        previo.usuarios[posicion as int].con_rol(nuevo_rol),
                    ));
                    ley_bien_formado_tras_modificar_rol(
                        previo,
                        bytes_de_cuenta(account_id),
                        nuevo_rol,
                    );
                }
                Ok(())
            },
            Err(e) => {
                proof {
                    assert(self@.usuarios =~= old(self)@.usuarios);
                }
                Err(e)
            },
        }
    }

    /// Loads a product of the caller with its initial stock. The product gets
    /// the next identifier and can be read back with the fields submitted.
    pub fn cargar_producto(
        &mut self,
        account_id: AccountId,
        nombre: String,
        descripcion: String,
        precio: u32,
        categoria: String,
        stock: u32,
    ) -> (resultado: Result<(), ErrorMercado>)
        requires
            old(self).bien_formado(),
        ensures
            final(self).bien_formado(),
            match resultado {
                Ok(()) => Ok::<MercadoVista, ErrorMercado>(final(self)@),
                Err(e) => Err(e),
            } == old(self)@.tras_cargar_producto(
                bytes_de_cuenta(account_id),
                nombre@,
                descripcion@,
                precio,
                categoria@,
                stock,
            ),
            resultado is Err ==> final(self)@ == old(self)@,
    {
        if precio == 0 {
            return Err(ErrorMercado::PrecioInvalido);
        }
        if stock == 0 {
            return Err(ErrorMercado::StockInvalido);
        }
        let posicion = match self.posicion_de_usuario(account_id) {
            Some(i) => i,
            None => {
                return Err(ErrorMercado::UsuarioNoEncontrado);
            },
        };
        if self.usuarios[posicion].rol == Rol::Comp {
            return Err(ErrorMercado::SinPermisoDeVendedor);
        }
        if self.historial_productos.len() >= u32::MAX as usize {
            return Err(ErrorMercado::DesbordeAlSumar);
        }
        let id = (self.historial_productos.len() + 1) as u32;
        proof {
            assert(old(self)@.usuarios[posicion as int].bien_formado());
        }
        match self.usuarios[posicion].cargar_producto(id) {
            Ok(()) => {},
            Err(e) => {
                return Err(e);
            },
        }
        let producto = Producto::cargar_producto(id, nombre, descripcion, precio, categoria);
        self.historial_productos.push(producto);
        self.existencias.push(stock);
        proof {
            let previo = old(self)@;
            let nuevo = self@;
            assert(nuevo.usuarios =~= previo.usuarios.update(
                posicion as int,
                previo.usuarios[posicion as int].con_producto(id),
            ));
            assert(nuevo.productos =~= previo.productos.push(producto@));
            assert(nuevo.publicaciones =~= previo.publicaciones);
            assert(nuevo.ordenes =~= previo.ordenes);
            ley_bien_formado_tras_cargar_producto(
                previo,
                bytes_de_cuenta(account_id),
                nombre@,
                descripcion@,
                precio,
                categoria@,
                stock,
            );
        }
        Ok(())
    }

    /// The stock of each product in `lista_de_productos`, paired with its identifier.
    fn cargar_productos_propios(
        &self,
        lista_de_productos: &Vec<u32>,
    ) -> (productos: Vec<(u32, u32)>)
        requires
            self.bien_formado(),
            forall|k: int|
                0 <= k < lista_de_productos.len() ==> existe(
                    self@.productos.len(),
                    #[trigger] lista_de_productos[k],
                ),
        ensures
            productos@ == lista_de_productos@.map_values(
                |id: u32| (id, self@.existencias[id - 1]),
            ),
    {
        let mut productos: Vec<(u32, u32)> = Vec::new();
        let mut i: usize = 0;
        while i < lista_de_productos.len()
            invariant
                self.bien_formado(),
                i <= lista_de_productos.len(),
                forall|k: int|
                    0 <= k < lista_de_productos.len() ==> existe(
                        self@.productos.len(),
                        #[trigger] lista_de_productos[k],
                    ),
                productos@ == lista_de_productos@.take(i as int).map_values(
                    |id: u32| (id, self@.existencias[id - 1]),
                ),
            decreases lista_de_productos.len() - i,
        {
            let id_producto = lista_de_productos[i];
            let stock = self.existencias[(id_producto - 1) as usize];
            productos.push((id_producto, stock));
            proof {
                assert(lista_de_productos@.take(i + 1) =~= lista_de_productos@.take(i as int).push(
                    id_producto,
                ));
                assert(productos@ =~= lista_de_productos@.take(i + 1).map_values(
                    |id: u32| (id, self@.existencias[id - 1]),
                ));
            }
            i += 1;
        }
        proof {
            assert(lista_de_productos@.take(i as int) =~= lista_de_productos@);
        }
        productos
    }

    /// The caller's products, oldest first, each with its current stock.
    pub fn visualizar_productos_propios(
        &self,
        account_id: AccountId,
    ) -> (resultado: Result<Vec<(u32, u32)>, ErrorMercado>)
        requires
            self.bien_formado(),
        ensures
            match resultado {
                Ok(productos) => Ok::<Seq<(u32, u32)>, ErrorMercado>(productos@),
                Err(e) => Err(e),
            } == self@.productos_propios(bytes_de_cuenta(account_id)),
    {
        let posicion = match self.posicion_de_usuario(account_id) {
            Some(i) => i,
            None => {
                return Err(ErrorMercado::UsuarioNoEncontrado);
            },
        };
        let usuario = &self.usuarios[posicion];
        proof {
            assert(self@.usuarios[posicion as int].bien_formado());
        }
        match usuario.es_vendedor_ambos() {
            Ok(()) => {},
            Err(e) => {
                return Err(e);
            },
        }
        let lista_de_productos = match usuario.lista_de_productos() {
            Ok(lista) => lista,
            Err(e) => {
                return Err(e);
            },
        };
        proof {
            assert forall|k: int| 0 <= k < lista_de_productos.len() implies existe(
                self@.productos.len(),
                #[trigger] lista_de_productos[k],
            ) by {
                assert(existe(
                    self@.productos.len(),
                    self@.usuarios[posicion as int].datos_vendedor.unwrap().productos[k],
                ));
            }
        }
        Ok(self.cargar_productos_propios(&lista_de_productos))
    }

    /// Makes a listing of the caller's products. Every check comes before any
    /// change: on failure no stock has moved.
    pub fn crear_publicacion(
        &mut self,
        account_id: AccountId,
        productos_a_publicar: Vec<(u32, u32)>,
    ) -> (resultado: Result<(), ErrorMercado>)
        requires
            old(self).bien_formado(),
        ensures
            final(self).bien_formado(),
            match resultado {
                Ok(()) => Ok::<MercadoVista, ErrorMercado>(final(self)@),
                Err(e) => Err(e),
            } == old(self)@.tras_publicar(bytes_de_cuenta(account_id), productos_a_publicar@),
            resultado is Err ==> final(self)@ == old(self)@,
    {
        let posicion = match self.posicion_de_usuario(account_id) {
            Some(i) => i,
            None => {
                return Err(ErrorMercado::UsuarioNoEncontrado);
            },
        };
        if self.usuarios[posicion].rol == Rol::Comp {
            return Err(ErrorMercado::NoEsVendedor);
        }
        match validar_pares(&self.usuarios[posicion], &productos_a_publicar) {
            Ok(()) => {},
            Err(e) => {
                return Err(e);
            },
        }
        match hay_stock_suficiente(&self.existencias, &productos_a_publicar) {
            Ok(()) => {},
            Err(e) => {
                return Err(e);
            },
        }
        if self.historial_publicaciones.len() >= u32::MAX as usize {
            return Err(ErrorMercado::HistorialLleno);
        }
        let id_publicacion = self.historial_publicaciones.len() as u32;
        proof {
            assert(vistas(self.historial_productos@) =~= self@.productos);
        }
        let precio_final = match calcular_precio_final(
            &self.historial_productos,
            &productos_a_publicar,
        ) {
            Ok(precio) => precio,
            Err(e) => {
                return Err(e);
            },
        };
        match descontar_stock(&mut self.existencias, &productos_a_publicar) {
            Ok(()) => {},
            Err(e) => {
                return Err(e);
            },
        }
        proof {
            assert(old(self)@.usuarios[posicion as int].bien_formado());
        }
        let publicacion = match self.usuarios[posicion].crear_publicacion(
            productos_a_publicar,
            precio_final,
            id_publicacion,
            account_id,
        ) {
            Ok(publicacion) => publicacion,
            Err(e) => {
                return Err(e);
            },
        };
        self.historial_publicaciones.push(publicacion);
        proof {
            let previo = old(self)@;
            let nuevo = self@;
            assert(nuevo.usuarios =~= previo.usuarios.update(
                posicion as int,
                previo.usuarios[posicion as int].con_publicacion(id_publicacion),
            ));
            assert(nuevo.publicaciones =~= previo.publicaciones.push(publicacion@));
            assert(nuevo.productos =~= previo.productos);
            assert(nuevo.ordenes =~= previo.ordenes);
            ley_bien_formado_tras_publicar(
                previo,
                bytes_de_cuenta(account_id),
                productos_a_publicar@,
            );
        }
        Ok(())
    }

    /// A copy of listing `id_publicacion`.
    pub fn visualizar_productos_de_publicacion(
        &self,
        id_publicacion: u32,
    ) -> (resultado: Result<Publicacion, ErrorMercado>)
        ensures
            match resultado {
                Ok(publicacion) => Ok::<PublicacionVista, ErrorMercado>(publicacion@),
                Err(e) => Err(e),
            } == self@.publicacion(id_publicacion),
    {
        if (id_publicacion as usize) < self.historial_publicaciones.len() {
            Ok(self.historial_publicaciones[id_publicacion as usize].copiar())
        } else {
            Err(ErrorMercado::PublicacionNoEncontrada)
        }
    }

    /// Whether the stock covers the quantities of `publicacion` once more.
    pub fn puede_restockear(&self, publicacion: &Publicacion) -> (puede: bool)
        ensures
            puede == tras_descontar(self@.existencias, publicacion@.productos).is_some(),
    {
        puede_descontar(&self.existencias, &publicacion.productos)
    }

    /// The place of listing `id_publicacion` in the history of listings.
    pub fn devolver_posicion_publicacion(
        &self,
        id_publicacion: u32,
    ) -> (resultado: Result<u32, ErrorMercado>)
        ensures
            resultado == (if id_publicacion < self@.publicaciones.len() {
                Ok::<u32, ErrorMercado>(id_publicacion)
            } else {
                Err(ErrorMercado::PosicionDePublicacionNoEncontrada)
            }),
    {
        if (id_publicacion as usize) < self.historial_publicaciones.len() {
            Ok(id_publicacion)
        } else {
            Err(ErrorMercado::PosicionDePublicacionNoEncontrada)
        }
    }

    /// The place of order `id_orden` in the history of orders.
    pub fn devolver_posicion_orden_de_compra(
        &self,
        id_orden: u32,
    ) -> (resultado: Result<u32, ErrorMercado>)
        ensures
            resultado == (if id_orden < self@.ordenes.len() {
                Ok::<u32, ErrorMercado>(id_orden)
            } else {
                Err(ErrorMercado::OrdenDeCompraNoEncontrada)
            }),
    {
        if (id_orden as usize) < self.historial_ordenes_de_compra.len() {
            Ok(id_orden)
        } else {
            Err(ErrorMercado::OrdenDeCompraNoEncontrada)
        }
    }

    /// A copy of order `id_orden`.
    pub fn buscar_orden(&self, id_orden: u32) -> (resultado: Result<OrdenCompra, ErrorMercado>)
        ensures
            match resultado {
                Ok(orden) => Ok::<OrdenVista, ErrorMercado>(orden@),
                Err(e) => Err(e),
            } == self@.orden(id_orden),
    {
        match self.devolver_posicion_orden_de_compra(id_orden) {
            Ok(posicion) => Ok(self.historial_ordenes_de_compra[posicion as usize].copiar()),
            Err(_) => Err(ErrorMercado::OrdenNoEncontrada),
        }
    }

    /// A copy of listing `id_publicacion`.
    pub fn buscar_publicacion(
        &self,
        id_publicacion: u32,
    ) -> (resultado: Result<Publicacion, ErrorMercado>)
        ensures
            match resultado {
                Ok(publicacion) => Ok::<PublicacionVista, ErrorMercado>(publicacion@),
                Err(e) => Err(e),
            } == self@.publicacion(id_publicacion),
    {
        match self.devolver_posicion_publicacion(id_publicacion) {
            Ok(posicion) => Ok(self.historial_publicaciones[posicion as usize].copiar()),
            Err(_) => Err(ErrorMercado::PublicacionNoEncontrada),
        }
    }

    /// Places an order of the caller against listing `id_publicacion`, then
    /// restocks the listing for the next buyer or marks it sold out.
    pub fn crear_orden_de_compra(
        &mut self,
        account_id: AccountId,
        id_publicacion: u32,
    ) -> (resultado: Result<(), ErrorMercado>)
        requires
            old(self).bien_formado(),
        ensures
            final(self).bien_formado(),
            match resultado {
                Ok(()) => Ok::<MercadoVista, ErrorMercado>(final(self)@),
                Err(e) => Err(e),
            } == old(self)@.tras_ordenar(bytes_de_cuenta(account_id), id_publicacion),
            resultado is Err ==> final(self)@ == old(self)@,
    {
        let posicion = match self.posicion_de_usuario(account_id) {
            Some(i) => i,
            None => {
                return Err(ErrorMercado::UsuarioNoEncontrado);
            },
        };
        let publicacion = match self.buscar_publicacion(id_publicacion) {
            Ok(publicacion) => publicacion,
            Err(e) => {
                return Err(e);
            },
        };
        if !publicacion.disponible {
            return Err(ErrorMercado::PublicacionSinStock);
        }
        proof {
            lema_perfil_vendedor(self@, publicacion@.id_vendedor);
        }
        let posicion_vendedor = match self.posicion_de_usuario(publicacion.id_vendedor) {
            Some(i) => i,
            None => {
                return Err(ErrorMercado::UsuarioNoEncontrado);
            },
        };
        let vendedor_de_la_orden = &self.usuarios[posicion_vendedor];
        if misma_cuenta(&account_id, &vendedor_de_la_orden.id_usuario) {
            return Err(ErrorMercado::CompraPropia);
        }
        if vendedor_de_la_orden.rol == Rol::Comp {
            return Err(ErrorMercado::PublicacionNoDisponible);
        }
        if self.historial_ordenes_de_compra.len() >= u32::MAX as usize {
            return Err(ErrorMercado::HistorialLleno);
        }
        let id_orden = self.historial_ordenes_de_compra.len() as u32;
        let restock = self.puede_restockear(&publicacion);
        proof {
            assert(old(self)@.usuarios[posicion as int].bien_formado());
        }
        let orden_de_compra = match self.usuarios[posicion].crear_orden_de_compra(
            id_orden,
            publicacion,
            account_id,
        ) {
            Ok(orden) => orden,
            Err(e) => {
                proof {
                    assert(self@.usuarios =~= old(self)@.usuarios);
                }
                return Err(e);
            },
        };
        self.historial_ordenes_de_compra.push(orden_de_compra);
        if restock {
            match descontar_stock(
                &mut self.existencias,
                &self.historial_publicaciones[id_publicacion as usize].productos,
            ) {
                Ok(()) => {},
                Err(e) => {
                    return Err(e);
                },
            }
        } else {
            self.historial_publicaciones[id_publicacion as usize].disponible = false;
        }
        proof {
            let previo = old(self)@;
            let nuevo = self@;
            assert(nuevo.usuarios =~= previo.usuarios.update(
                posicion as int,
                previo.usuarios[posicion as int].con_orden(id_orden),
            ));
            assert(nuevo.ordenes =~= previo.ordenes.push(orden_de_compra@));
            assert(nuevo.productos =~= previo.productos);
            if restock {
                assert(nuevo.publicaciones =~= previo.publicaciones);
            } else {
                assert(nuevo.publicaciones =~= previo.publicaciones.update(
                    id_publicacion as int,
                    previo.publicaciones[id_publicacion as int].con_disponible(false),
                ));
            }
            ley_bien_formado_tras_ordenar(previo, bytes_de_cuenta(account_id), id_publicacion);
        }
        Ok(())
    }

    /// Gives back the goods of an order placed against listing
    /// `id_publicacion`: to the stock if the listing is available, otherwise
    /// to the listing, which becomes available again.
    fn devolver_productos(
        &mut self,
        id_publicacion: u32,
    ) -> (resultado: Result<(), ErrorMercado>)
        ensures
            match resultado {
                Ok(()) => Ok::<MercadoVista, ErrorMercado>(final(self)@),
                Err(e) => Err(e),
            } == old(self)@.tras_devolver(id_publicacion),
            resultado is Err ==> final(self)@ == old(self)@,
            final(self).usuarios == old(self).usuarios,
            final(self).historial_ordenes_de_compra == old(self).historial_ordenes_de_compra,
    {
        let posicion = match self.devolver_posicion_publicacion(id_publicacion) {
            Ok(posicion) => posicion as usize,
            Err(_) => {
                return Err(ErrorMercado::PublicacionNoEncontrada);
            },
        };
        if self.historial_publicaciones[posicion].disponible {
            aumentar_stock_productos(
                &mut self.existencias,
                &self.historial_publicaciones[posicion].productos,
            )
        } else {
            self.historial_publicaciones[posicion].disponible = true;
            proof {
                let previo = old(self)@;
                assert(self@.publicaciones =~= previo.publicaciones.update(
                    posicion as int,
                    previo.publicaciones[posicion as int].con_disponible(true),
                ));
            }
            Ok(())
        }
    }

    /// Notes the caller's wish to cancel order `id_orden`. The buyer asks
    /// first and the order stays pending; when the seller then agrees, the
    /// order is cancelled and its goods are given back.
    pub fn cancelar_comprar(
        &mut self,
        account_id: AccountId,
        id_orden: u32,
    ) -> (resultado: Result<(), ErrorMercado>)
        requires
            old(self).bien_formado(),
        ensures
            final(self).bien_formado(),
            match resultado {
                Ok(()) => Ok::<MercadoVista, ErrorMercado>(final(self)@),
                Err(e) => Err(e),
            } == old(self)@.tras_cancelar(bytes_de_cuenta(account_id), id_orden),
            resultado is Err ==> final(self)@ == old(self)@,
    {
        let posicion = match self.posicion_de_usuario(account_id) {
            Some(i) => i,
            None => {
                return Err(ErrorMercado::UsuarioNoEncontrado);
            },
        };
        let posicion_orden = match self.devolver_posicion_orden_de_compra(id_orden) {
            Ok(posicion) => posicion as usize,
            Err(_) => {
                return Err(ErrorMercado::OrdenNoEncontrada);
            },
        };
        let datos_de_la_orden = &self.historial_ordenes_de_compra[posicion_orden];
        match se_puede_cancelar(datos_de_la_orden.estado) {
            Ok(()) => {},
            Err(e) => {
                return Err(e);
            },
        }
        let id_vendedor = datos_de_la_orden.info_publicacion.3;
        let id_comprador = datos_de_la_orden.id_comprador;
        let id_publicacion = datos_de_la_orden.info_publicacion.0;
        let rol = match self.usuarios[posicion].comprobar_rol(id_vendedor, id_comprador) {
            Ok(rol) => rol,
            Err(e) => {
                return Err(e);
            },
        };
        if rol == Rol::Comp {
            match self.historial_ordenes_de_compra[posicion_orden].cancelar_compra_comprador() {
                Ok(()) => {},
                Err(e) => {
                    proof {
                        assert(self@.ordenes =~= old(self)@.ordenes);
                    }
                    return Err(e);
                },
            }
        } else {
            match datos_de_la_orden.puede_cancelar_vendedor() {
                Ok(()) => {},
                Err(e) => {
                    return Err(e);
                },
            }
            match self.devolver_productos(id_publicacion) {
                Ok(()) => {},
                Err(e) => {
                    return Err(e);
                },
            }
            match self.historial_ordenes_de_compra[posicion_orden].cancelar_compra_vendedor() {
                Ok(()) => {},
                Err(e) => {
                    return Err(e);
                },
            }
        }
        proof {
            let previo = old(self)@;
            let orden = previo.ordenes[posicion_orden as int];
            if rol == Rol::Comp {
                assert(self@.ordenes =~= previo.ordenes.update(
                    posicion_orden as int,
                    orden.cancelada_por_comprador(),
                ));
            } else {
                assert(self@.ordenes =~= previo.ordenes.update(
                    posicion_orden as int,
                    orden.cancelada_por_vendedor(),
                ));
            }
            ley_bien_formado_tras_cancelar(previo, bytes_de_cuenta(account_id), id_orden);
        }
        Ok(())
    }

    /// Ships order `id_orden`. Only the seller of its listing may, and only
    /// while the order is pending.
    pub fn enviar_compra(
        &mut self,
        account_id: AccountId,
        id_orden: u32,
    ) -> (resultado: Result<(), ErrorMercado>)
        requires
            old(self).bien_formado(),
        ensures
            final(self).bien_formado(),
            match resultado {
                Ok(()) => Ok::<MercadoVista, ErrorMercado>(final(self)@),
                Err(e) => Err(e),
            } == old(self)@.tras_enviar(bytes_de_cuenta(account_id), id_orden),
            resultado is Err ==> final(self)@ == old(self)@,
    {
        let posicion = match self.posicion_de_usuario(account_id) {
            Some(i) => i,
            None => {
                return Err(ErrorMercado::UsuarioNoEncontrado);
            },
        };
        let posicion_orden = match self.devolver_posicion_orden_de_compra(id_orden) {
            Ok(posicion) => posicion as usize,
            Err(_) => {
                return Err(ErrorMercado::OrdenInexistente);
            },
        };
        if self.historial_ordenes_de_compra[posicion_orden].estado != EstadoCompra::Pendiente {
            return Err(ErrorMercado::NoSePuedeEnviar);
        }
        let id_publicacion = self.historial_ordenes_de_compra[posicion_orden].info_publicacion.0;
        match self.usuarios[posicion].enviar_compra(id_publicacion) {
            Ok(()) => {},
            Err(e) => {
                return Err(e);
            },
        }
        self.historial_ordenes_de_compra[posicion_orden].estado = EstadoCompra::Enviado;
        proof {
            let previo = old(self)@;
            assert(self@.ordenes =~= previo.ordenes.update(
                posicion_orden as int,
                previo.ordenes[posicion_orden as int].con_estado(EstadoCompra::Enviado),
            ));
            ley_bien_formado_tras_enviar(previo, bytes_de_cuenta(account_id), id_orden);
        }
        Ok(())
    }

    /// Receives order `id_orden`. Only its buyer may, and only once it has
    /// been shipped.
    pub fn recibir_compra(
        &mut self,
        account_id: AccountId,
        id_orden: u32,
    ) -> (resultado: Result<(), ErrorMercado>)
        requires
            old(self).bien_formado(),
        ensures
            final(self).bien_formado(),
            match resultado {
                Ok(()) => Ok::<MercadoVista, ErrorMercado>(final(self)@),
                Err(e) => Err(e),
            } == old(self)@.tras_recibir(bytes_de_cuenta(account_id), id_orden),
            resultado is Err ==> final(self)@ == old(self)@,
    {
        let posicion = match self.posicion_de_usuario(account_id) {
            Some(i) => i,
            None => {
                return Err(ErrorMercado::UsuarioNoEncontrado);
            },
        };
        let posicion_orden = match self.devolver_posicion_orden_de_compra(id_orden) {
            Ok(posicion) => posicion as usize,
            Err(_) => {
                return Err(ErrorMercado::OrdenInexistente);
            },
        };
        if self.historial_ordenes_de_compra[posicion_orden].estado != EstadoCompra::Enviado {
            return Err(ErrorMercado::NoFueEnviado);
        }
        match self.usuarios[posicion].recibir_compra(id_orden) {
            Ok(()) => {},
            Err(e) => {
                return Err(e);
            },
        }
        self.historial_ordenes_de_compra[posicion_orden].estado = EstadoCompra::Recibido;
        proof {
            let previo = old(self)@;
            assert(self@.ordenes =~= previo.ordenes.update(
                posicion_orden as int,
                previo.ordenes[posicion_orden as int].con_estado(EstadoCompra::Recibido),
            ));
            ley_bien_formado_tras_recibir(previo, bytes_de_cuenta(account_id), id_orden);
        }
        Ok(())
    }

    /// Adds `calificacion` to the seller reputation of `id_vendedor`.
    pub fn calificar_vendedor(
        &mut self,
        id_vendedor: AccountId,
        calificacion: u8,
    ) -> (resultado: Result<(), ErrorMercado>)
        requires
            old(self).bien_formado(),
        ensures
            final(self).bien_formado(),
            match resultado {
                Ok(()) => Ok::<MercadoVista, ErrorMercado>(final(self)@),
                Err(e) => Err(e),
            } == old(self)@.tras_puntuar_vendedor(bytes_de_cuenta(id_vendedor), calificacion),
            resultado is Err ==> final(self)@ == old(self)@,
    {
        let posicion = match self.posicion_de_usuario(id_vendedor) {
            Some(i) => i,
            None => {
                return Err(ErrorMercado::UsuarioNoEncontrado);
            },
        };
        match self.usuarios[posicion].recibir_puntaje_de_vendedor(calificacion) {
            Ok(()) => {},
            Err(e) => {
                proof {
                    assert(self@.usuarios =~= old(self)@.usuarios);
                }
                return Err(e);
            },
        }
        proof {
            let previo = old(self)@;
            assert(self@.usuarios =~= previo.usuarios.update(
                posicion as int,
                previo.usuarios[posicion as int].con_puntaje_de_vendedor(calificacion),
            ));
            ley_bien_formado_tras_puntuar_vendedor(
                previo,
                bytes_de_cuenta(id_vendedor),
                calificacion,
            );
        }
        Ok(())
    }

    /// Adds `calificacion` to the buyer reputation of `id_comprador`.
    pub fn calificar_comprador(
        &mut self,
        id_comprador: AccountId,
        calificacion: u8,
    ) -> (resultado: Result<(), ErrorMercado>)
        requires
            old(self).bien_formado(),
        ensures
            final(self).bien_formado(),
            match resultado {
                Ok(()) => Ok::<MercadoVista, ErrorMercado>(final(self)@),
                Err(e) => Err(e),
            } == old(self)@.tras_puntuar_comprador(bytes_de_cuenta(id_comprador), calificacion),
            resultado is Err ==> final(self)@ == old(self)@,
    {
        let posicion = match self.posicion_de_usuario(id_comprador) {
            Some(i) => i,
            None => {
                return Err(ErrorMercado::UsuarioNoEncontrado);
            },
        };
        match self.usuarios[posicion].recibir_puntaje_de_comprador(calificacion) {
            Ok(()) => {},
            Err(e) => {
                proof {
                    assert(self@.usuarios =~= old(self)@.usuarios);
                }
                return Err(e);
            },
        }
        proof {
            let previo = old(self)@;
            assert(self@.usuarios =~= previo.usuarios.update(
                posicion as int,
                previo.usuarios[posicion as int].con_puntaje_de_comprador(calificacion),
            ));
            ley_bien_formado_tras_puntuar_comprador(
                previo,
                bytes_de_cuenta(id_comprador),
                calificacion,
            );
        }
        Ok(())
    }

    /// Notes on the order at `posicion_orden` that its buyer has rated the
    /// seller with `calificacion`.
    fn marcar_calificada_por_comprador(&mut self, posicion_orden: usize, calificacion: u8)
        requires
            posicion_orden < old(self)@.ordenes.len(),
        ensures
            final(self)@ == (MercadoVista {
                ordenes: old(self)@.ordenes.update(
                    posicion_orden as int,
                    old(self)@.ordenes[posicion_orden as int].calificada_por_comprador(
                        calificacion,
                    ),
                ),
                ..old(self)@
            }),
    {
        self.historial_ordenes_de_compra[posicion_orden].calificaciones.0 = true;
        self.historial_ordenes_de_compra[posicion_orden].puntuacion_del_comprador = Some(
            calificacion,
        );
        proof {
            assert(self@.ordenes =~= old(self)@.ordenes.update(
                posicion_orden as int,
                old(self)@.ordenes[posicion_orden as int].calificada_por_comprador(calificacion),
            ));
        }
    }

    /// Notes on the order at `posicion_orden` that its seller has rated the buyer.
    fn marcar_calificada_por_vendedor(&mut self, posicion_orden: usize)
        requires
            posicion_orden < old(self)@.ordenes.len(),
        ensures
            final(self)@ == (MercadoVista {
                ordenes: old(self)@.ordenes.update(
                    posicion_orden as int,
                    old(self)@.ordenes[posicion_orden as int].calificada_por_vendedor(),
                ),
                ..old(self)@
            }),
    {
        self.historial_ordenes_de_compra[posicion_orden].calificaciones.1 = true;
        proof {
            assert(self@.ordenes =~= old(self)@.ordenes.update(
                posicion_orden as int,
                old(self)@.ordenes[posicion_orden as int].calificada_por_vendedor(),
            ));
        }
    }

    /// Rates the other party of order `id_orden` on behalf of `account_id`,
    /// whichever side of the order that account is on.
    pub fn calificar_segun_rol(
        &mut self,
        calificacion: u8,
        id_orden: u32,
        account_id: AccountId,
    ) -> (resultado: Result<(), ErrorMercado>)
        requires
            old(self).bien_formado(),
        ensures
            final(self).bien_formado(),
            match resultado {
                Ok(()) => Ok::<MercadoVista, ErrorMercado>(final(self)@),
                Err(e) => Err(e),
            } == old(self)@.tras_calificar_segun_rol(
                bytes_de_cuenta(account_id),
                id_orden,
                calificacion,
            ),
            resultado is Err ==> final(self)@ == old(self)@,
    {
        let posicion = match self.posicion_de_usuario(account_id) {
            Some(i) => i,
            None => {
                return Err(ErrorMercado::UsuarioNoEncontrado);
            },
        };
        let posicion_orden = match self.devolver_posicion_orden_de_compra(id_orden) {
            Ok(posicion) => posicion as usize,
            Err(_) => {
                return Err(ErrorMercado::OrdenNoEncontrada);
            },
        };
        let orden_de_compra = &self.historial_ordenes_de_compra[posicion_orden];
        let id_vendedor = orden_de_compra.info_publicacion.3;
        let id_comprador = orden_de_compra.id_comprador;
        let rol_del_usuario_en_compra = match self.usuarios[posicion].comprobar_rol(
            id_vendedor,
            id_comprador,
        ) {
            Ok(rol) => rol,
            Err(e) => {
                return Err(e);
            },
        };
        match ya_califico(rol_del_usuario_en_compra, orden_de_compra) {
            Ok(()) => {},
            Err(e) => {
                return Err(e);
            },
        }
        proof {
            lema_partes_de_orden(self@, id_orden);
        }
        if rol_del_usuario_en_compra == Rol::Comp {
            match self.calificar_vendedor(id_vendedor, calificacion) {
                Ok(()) => {},
                Err(e) => {
                    return Err(e);
                },
            }
            self.marcar_calificada_por_comprador(posicion_orden, calificacion);
        } else {
            match self.calificar_comprador(id_comprador, calificacion) {
                Ok(()) => {},
                Err(e) => {
                    return Err(e);
                },
            }
            self.marcar_calificada_por_vendedor(posicion_orden);
        }
        proof {
            ley_bien_formado_tras_calificar_segun_rol(
                old(self)@,
                bytes_de_cuenta(account_id),
                id_orden,
                calificacion,
            );
        }
        Ok(())
    }

    /// Rates the other party of order `id_orden` with `calificacion`, from 1
    /// to 5. Each party may rate once, and only after the order is received.
    pub fn calificar(
        &mut self,
        id_orden: u32,
        calificacion: u8,
        account_id: AccountId,
    ) -> (resultado: Result<(), ErrorMercado>)
        requires
            old(self).bien_formado(),
        ensures
            final(self).bien_formado(),
            match resultado {
                Ok(()) => Ok::<MercadoVista, ErrorMercado>(final(self)@),
                Err(e) => Err(e),
            } == old(self)@.tras_calificar(bytes_de_cuenta(account_id), id_orden, calificacion),
            resultado is Err ==> final(self)@ == old(self)@,
    {
        if calificacion < 1 || calificacion > 5 {
            return Err(ErrorMercado::CalificacionInvalida);
        }
        if self.posicion_de_usuario(account_id).is_none() {
            return Err(ErrorMercado::UsuarioNoEncontrado);
        }
        let posicion_orden = match self.devolver_posicion_orden_de_compra(id_orden) {
            Ok(posicion) => posicion as usize,
            Err(_) => {
                return Err(ErrorMercado::OrdenNoEncontrada);
            },
        };
        match comprobar_estado_recibido(&self.historial_ordenes_de_compra[posicion_orden]) {
            Ok(()) => {},
            Err(e) => {
                return Err(e);
            },
        }
        self.calificar_segun_rol(calificacion, id_orden, account_id)
    }

    /// Copies of all users, in order of registration.
    pub fn get_usuarios(&self) -> (usuarios: Vec<Usuario>)
        ensures
            usuarios@.map_values(|u: Usuario| u@) == self@.usuarios,
    {
        let mut usuarios: Vec<Usuario> = Vec::new();
        let mut i: usize = 0;
        while i < self.usuarios.len()
            invariant
                i <= self.usuarios.len(),
                usuarios@.len() == i,
                usuarios@.map_values(|u: Usuario| u@) == self@.usuarios.take(i as int),
            decreases self.usuarios.len() - i,
        {
            let copia = self.usuarios[i].copiar();
            let ghost previas = usuarios@.map_values(|u: Usuario| u@);
            usuarios.push(copia);
            proof {
                let actuales = usuarios@.map_values(|u: Usuario| u@);
                assert forall|j: int| 0 <= j < i + 1 implies actuales[j] == self@.usuarios.take(
                    i + 1,
                )[j] by {
                    if j < i {
                        assert(actuales[j] == previas[j]);
                        assert(previas[j] == self@.usuarios.take(i as int)[j]);
                    }
                }
                assert(actuales =~= self@.usuarios.take(i + 1));
            }
            i += 1;
        }
        proof {
            assert(self@.usuarios.take(i as int) =~= self@.usuarios);
        }
        usuarios
    }

    /// Copies of all orders, by identifier.
    pub fn get_ordenes(&self) -> (ordenes: Vec<OrdenCompra>)
        ensures
            ordenes@.map_values(|o: OrdenCompra| o@) == self@.ordenes,
    {
        let mut ordenes: Vec<OrdenCompra> = Vec::new();
        let mut i: usize = 0;
        while i < self.historial_ordenes_de_compra.len()
            invariant
                i <= self.historial_ordenes_de_compra.len(),
                ordenes@.len() == i,
                ordenes@.map_values(|o: OrdenCompra| o@) == self@.ordenes.take(i as int),
            decreases self.historial_ordenes_de_compra.len() - i,
        {
            let copia = self.historial_ordenes_de_compra[i].copiar();
            let ghost previas = ordenes@.map_values(|o: OrdenCompra| o@);
            ordenes.push(copia);
            proof {
                let actuales = ordenes@.map_values(|o: OrdenCompra| o@);
                assert forall|j: int| 0 <= j < i + 1 implies actuales[j] == self@.ordenes.take(
                    i + 1,
                )[j] by {
                    if j < i {
                        assert(actuales[j] == previas[j]);
                        assert(previas[j] == self@.ordenes.take(i as int)[j]);
                    }
                }
                assert(actuales =~= self@.ordenes.take(i + 1));
            }
            i += 1;
        }
        proof {
            assert(self@.ordenes.take(i as int) =~= self@.ordenes);
        }
        ordenes
    }

    /// Copies of all products, by identifier.
    pub fn get_productos(&self) -> (productos: Vec<Producto>)
        ensures
            productos@.map_values(|p: Producto| p@) == self@.productos,
    {
        let mut productos: Vec<Producto> = Vec::new();
        let mut i: usize = 0;
        while i < self.historial_productos.len()
            invariant
                i <= self.historial_productos.len(),
                productos@.len() == i,
                productos@.map_values(|p: Producto| p@) == self@.productos.take(i as int),
            decreases self.historial_productos.len() - i,
        {
            let copia = self.historial_productos[i].copiar();
            let ghost previas = productos@.map_values(|p: Producto| p@);
            productos.push(copia);
            proof {
                let actuales = productos@.map_values(|p: Producto| p@);
                assert forall|j: int| 0 <= j < i + 1 implies actuales[j] == self@.productos.take(
                    i + 1,
                )[j] by {
                    if j < i {
                        assert(actuales[j] == previas[j]);
                        assert(previas[j] == self@.productos.take(i as int)[j]);
                    }
                }
                assert(actuales =~= self@.productos.take(i + 1));
            }
            i += 1;
        }
        proof {
            assert(self@.productos.take(i as int) =~= self@.productos);
        }
        productos
    }

    /// Copies of all listings, by identifier.
    pub fn get_publicaciones(&self) -> (publicaciones: Vec<Publicacion>)
        ensures
            publicaciones@.map_values(|p: Publicacion| p@) == self@.publicaciones,
    {
        let mut publicaciones: Vec<Publicacion> = Vec::new();
        let mut i: usize = 0;
        while i < self.historial_publicaciones.len()
            invariant
                i <= self.historial_publicaciones.len(),
                publicaciones@.len() == i,
                publicaciones@.map_values(|p: Publicacion| p@) == self@.publicaciones.take(
                    i as int,
                ),
            decreases self.historial_publicaciones.len() - i,
        {
            let copia = self.historial_publicaciones[i].copiar();
            let ghost previas = publicaciones@.map_values(|p: Publicacion| p@);
            publicaciones.push(copia);
            proof {
                let actuales = publicaciones@.map_values(|p: Publicacion| p@);
                assert forall|j: int| 0 <= j < i + 1 implies actuales[j]
                    == self@.publicaciones.take(i + 1)[j] by {
                    if j < i {
                        assert(actuales[j] == previas[j]);
                        assert(previas[j] == self@.publicaciones.take(i as int)[j]);
                    }
                }
                assert(actuales =~= self@.publicaciones.take(i + 1));
            }
            i += 1;
        }
        proof {
            assert(self@.publicaciones.take(i as int) =~= self@.publicaciones);
        }
        publicaciones
    }

    /// The stock counters, by product identifier.
    pub fn get_existencias(&self) -> (existencias: Vec<u32>)
        ensures
            existencias@ == self@.existencias,
    {
        copiar_ids(&self.existencias)
    }
}

impl Default for PrimerContrato {
    /// An empty marketplace.
    fn default() -> (contrato: PrimerContrato)
        ensures
            contrato.bien_formado(),
            contrato@ == MercadoVista::vacio(),
    {
        PrimerContrato::new()
    }
}

/// Checks quantity and ownership of each pair for `usuario`.
fn validar_pares(
    usuario: &Usuario,
    productos_a_publicar: &Vec<(u32, u32)>,
) -> (resultado: Result<(), ErrorMercado>)
    ensures
        resultado == pares_validos(usuario@, productos_a_publicar@),
{
    let mut i: usize = 0;
    while i < productos_a_publicar.len()
        invariant
            i <= productos_a_publicar.len(),
            pares_validos(usuario@, productos_a_publicar@.take(i as int)).is_ok(),
        decreases productos_a_publicar.len() - i,
    {
        let (id, cantidad) = productos_a_publicar[i];
        proof {
            assert(productos_a_publicar@.take(i + 1).drop_last()
                =~= productos_a_publicar@.take(i as int));
            assert(productos_a_publicar@.take(i + 1).last() == (id, cantidad));
        }
        if cantidad == 0 {
            proof {
                lema_validos_prefijo(usuario@, productos_a_publicar@, i + 1);
            }
            return Err(ErrorMercado::CantidadInvalida);
        }
        match usuario.verificar_propiedad_producto(id) {
            Ok(()) => {},
            Err(e) => {
                proof {
                    lema_validos_prefijo(usuario@, productos_a_publicar@, i + 1);
                }
                return Err(e);
            },
        }
        i += 1;
    }
    proof {
        assert(productos_a_publicar@.take(i as int) =~= productos_a_publicar@);
    }
    Ok(())
}

/// Only a pending order can be cancelled.
pub fn se_puede_cancelar(
    estado_de_la_orden: EstadoCompra,
) -> (resultado: Result<(), ErrorMercado>)
    ensures
        resultado == (if estado_de_la_orden == EstadoCompra::Pendiente {
            Ok::<(), ErrorMercado>(())
        } else {
            Err(ErrorMercado::NoCancelable)
        }),
{
    if estado_de_la_orden != EstadoCompra::Pendiente {
        Err(ErrorMercado::NoCancelable)
    } else {
        Ok(())
    }
}

/// Only a received order can be rated.
pub fn comprobar_estado_recibido(orden: &OrdenCompra) -> (resultado: Result<(), ErrorMercado>)
    ensures
        resultado == (if orden.estado == EstadoCompra::Recibido {
            Ok::<(), ErrorMercado>(())
        } else {
            Err(ErrorMercado::CompraNoRecibida)
        }),
{
    if orden.estado == EstadoCompra::Recibido {
        Ok(())
    } else {
        Err(ErrorMercado::CompraNoRecibida)
    }
}

/// Fails when the party acting as `rol` has already rated `orden`.
pub fn ya_califico(rol: Rol, orden: &OrdenCompra) -> (resultado: Result<(), ErrorMercado>)
    ensures
        resultado == (if (rol == Rol::Comp && orden.calificaciones.0) || (rol == Rol::Vend
            && orden.calificaciones.1) {
            Err::<(), ErrorMercado>(ErrorMercado::YaCalifico)
        } else {
            Ok(())
        }),
{
    if (rol == Rol::Comp && orden.calificaciones.0) || (rol == Rol::Vend
        && orden.calificaciones.1) {
        return Err(ErrorMercado::YaCalifico);
    }
    Ok(())
}

} // verus!
