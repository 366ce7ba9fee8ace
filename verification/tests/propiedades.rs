use ink::primitives::AccountId;
use mercado::cuenta::account;
use mercado::error::ErrorMercado;
use mercado::existencias::{
    aumentar_stock_productos, calcular_precio_final, descontar_stock, hay_stock_suficiente,
    puede_descontar,
};
use mercado::orden::{EstadoCompra, OrdenCompra};
use mercado::primer_contrato::PrimerContrato;
use mercado::producto::Producto;
use mercado::publicacion::Publicacion;
use mercado::rol::Rol;
use mercado::segundo_contrato::SegundoContrato;
use mercado::usuario::{Comprador, Usuario, Vendedor};

fn registrar(contrato: &mut PrimerContrato, cuenta: AccountId, rol: Rol) {
    contrato
        .agregar_usuario_sistema(
            cuenta,
            "Nombre".to_string(),
            "Apellido".to_string(),
            "Dir".to_string(),
            "mail@mail.com".to_string(),
            rol,
        )
        .unwrap();
}

fn cargar(contrato: &mut PrimerContrato, cuenta: AccountId, precio: u32, stock: u32) {
    contrato
        .cargar_producto(
            cuenta,
            "Producto".to_string(),
            "Desc".to_string(),
            precio,
            "Cat".to_string(),
            stock,
        )
        .unwrap();
}

/// A marketplace with seller 1, buyer 2, one product (price 100, stock 5)
/// and the listing `(1, 2)`.
fn mercado_con_publicacion() -> (PrimerContrato, AccountId, AccountId) {
    let mut contrato = PrimerContrato::new();
    let vendedor = account(1);
    let comprador = account(2);
    registrar(&mut contrato, vendedor, Rol::Vend);
    registrar(&mut contrato, comprador, Rol::Comp);
    cargar(&mut contrato, vendedor, 100, 5);
    contrato.crear_publicacion(vendedor, vec![(1, 2)]).unwrap();
    (contrato, vendedor, comprador)
}

fn orden_de(id: u32, estado: EstadoCompra, productos: Vec<(u32, u32)>, nota: Option<u8>) -> OrdenCompra {
    OrdenCompra {
        id,
        estado,
        cancelacion: (false, false),
        info_publicacion: (id, productos, 100, account(1)),
        id_comprador: account(2),
        calificaciones: (false, false),
        puntuacion_del_comprador: nota,
    }
}

fn producto_de(id: u32, categoria: &str) -> Producto {
    Producto {
        id,
        nombre: "Test".to_string(),
        descripcion: "Test".to_string(),
        precio: 10,
        categoria: categoria.to_string(),
    }
}

fn vendedor_con(id: u8, reputacion: Vec<u8>) -> Usuario {
    Usuario {
        id_usuario: account(id),
        nombre: "V".to_string(),
        apellido: "V".to_string(),
        direccion: "D".to_string(),
        email: "e".to_string(),
        rol: Rol::Vend,
        datos_comprador: None,
        datos_vendedor: Some(Vendedor {
            productos: vec![],
            publicaciones: vec![],
            reputacion_como_vendedor: reputacion,
        }),
    }
}

#[test]
fn cuenta_tiene_los_bytes_pedidos() {
    assert_eq!(account(7), AccountId::from([7u8; 32]));
    assert_ne!(account(7), AccountId::from([8u8; 32]));
    let cuenta = account(200);
    let bytes: &[u8; 32] = cuenta.as_ref();
    assert_eq!(*bytes, [200u8; 32]);
}

#[test]
fn cuentas_distintas_son_usuarios_distintos() {
    let mut contrato = PrimerContrato::new();
    registrar(&mut contrato, account(1), Rol::Vend);
    registrar(&mut contrato, account(2), Rol::Comp);
    assert_eq!(contrato.buscar_usuario(account(1)).unwrap().rol, Rol::Vend);
    assert_eq!(contrato.buscar_usuario(account(2)).unwrap().rol, Rol::Comp);
    assert_eq!(contrato.buscar_usuario(account(2)).unwrap().id_usuario, account(2));
    assert_eq!(
        contrato.buscar_usuario(account(3)).unwrap_err(),
        ErrorMercado::UsuarioNoEncontrado
    );
}

#[test]
fn registro_repetido_falla_aunque_cambien_los_datos() {
    let mut contrato = PrimerContrato::new();
    registrar(&mut contrato, account(1), Rol::Vend);
    let res = contrato.agregar_usuario_sistema(
        account(1),
        "Otro".to_string(),
        "Nombre".to_string(),
        "Otra dir".to_string(),
        "otro@mail.com".to_string(),
        Rol::Ambos,
    );
    assert_eq!(res, Err(ErrorMercado::UsuarioYaRegistrado));
    let u = contrato.buscar_usuario(account(1)).unwrap();
    assert_eq!(u.nombre, "Nombre");
    assert_eq!(u.rol, Rol::Vend);
    assert_eq!(contrato.get_usuarios().len(), 1);
}

#[test]
fn producto_cargado_se_recupera_con_sus_datos() {
    let mut contrato = PrimerContrato::new();
    let vendedor = account(1);
    registrar(&mut contrato, vendedor, Rol::Ambos);
    contrato
        .cargar_producto(
            vendedor,
            "Heladera".to_string(),
            "Con freezer".to_string(),
            1500,
            "Linea Blanca 2".to_string(),
            7,
        )
        .unwrap();
    assert_eq!(contrato.get_dimension_logica(), 1);
    let productos = contrato.get_productos();
    assert_eq!(productos.len(), 1);
    assert_eq!(productos[0].id, 1);
    assert_eq!(productos[0].nombre, "Heladera");
    assert_eq!(productos[0].descripcion, "Con freezer");
    assert_eq!(productos[0].precio, 1500);
    assert_eq!(productos[0].categoria, "Linea Blanca 2");
    assert_eq!(contrato.get_existencias(), vec![7]);
    assert_eq!(contrato.visualizar_productos_propios(vendedor).unwrap(), vec![(1, 7)]);
}

#[test]
fn publicacion_fallida_no_toca_el_stock() {
    let mut contrato = PrimerContrato::new();
    let vendedor = account(1);
    registrar(&mut contrato, vendedor, Rol::Vend);
    cargar(&mut contrato, vendedor, 10, 5);
    cargar(&mut contrato, vendedor, 20, 5);
    let res = contrato.crear_publicacion(vendedor, vec![(1, 1), (2, 1000)]);
    assert_eq!(res, Err(ErrorMercado::StockInsuficiente));
    assert_eq!(contrato.get_existencias(), vec![5, 5]);
    assert_eq!(contrato.get_publicaciones().len(), 0);
    let u = contrato.buscar_usuario(vendedor).unwrap();
    assert_eq!(u.datos_vendedor.unwrap().publicaciones.len(), 0);
}

#[test]
fn publicacion_con_producto_repetido_que_excede_no_toca_el_stock() {
    let mut contrato = PrimerContrato::new();
    let vendedor = account(1);
    registrar(&mut contrato, vendedor, Rol::Vend);
    cargar(&mut contrato, vendedor, 10, 5);
    let res = contrato.crear_publicacion(vendedor, vec![(1, 3), (1, 3)]);
    assert_eq!(res, Err(ErrorMercado::DesbordeAlRestarStock));
    assert_eq!(res.unwrap_err().mensaje(), "Error al restar stock");
    assert_eq!(contrato.get_existencias(), vec![5]);
    contrato.crear_publicacion(vendedor, vec![(1, 2), (1, 3)]).unwrap();
    assert_eq!(contrato.get_existencias(), vec![0]);
    assert_eq!(contrato.visualizar_productos_de_publicacion(0).unwrap().precio_final, 50);
}

#[test]
fn errores_de_publicacion() {
    let mut contrato = PrimerContrato::new();
    let vendedor = account(1);
    let comprador = account(2);
    registrar(&mut contrato, vendedor, Rol::Vend);
    registrar(&mut contrato, comprador, Rol::Comp);
    cargar(&mut contrato, vendedor, u32::MAX, 5);
    cargar(&mut contrato, vendedor, u32::MAX, 5);
    assert_eq!(
        contrato.crear_publicacion(vendedor, vec![(1, 0)]),
        Err(ErrorMercado::CantidadInvalida)
    );
    assert_eq!(
        contrato.crear_publicacion(vendedor, vec![(1, 1), (3, 1)]),
        Err(ErrorMercado::NoEsPropietario)
    );
    assert_eq!(
        contrato.crear_publicacion(comprador, vec![(1, 1)]),
        Err(ErrorMercado::NoEsVendedor)
    );
    assert_eq!(
        contrato.crear_publicacion(comprador, vec![(1, 0)]),
        Err(ErrorMercado::NoEsVendedor)
    );
    assert_eq!(contrato.crear_publicacion(comprador, vec![]), Err(ErrorMercado::NoEsVendedor));
    assert_eq!(
        contrato.crear_publicacion(vendedor, vec![(1, 2)]),
        Err(ErrorMercado::DesbordeAlMultiplicar)
    );
    assert_eq!(
        contrato.crear_publicacion(vendedor, vec![(1, 1), (2, 1)]),
        Err(ErrorMercado::DesbordeAlAcumular)
    );
    assert_eq!(contrato.get_existencias(), vec![5, 5]);
    contrato.modificar_rol(vendedor, Rol::Comp).unwrap();
    assert_eq!(
        contrato.crear_publicacion(vendedor, vec![(1, 1)]),
        Err(ErrorMercado::NoEsVendedor)
    );
    assert_eq!(contrato.get_existencias(), vec![5, 5]);
}

#[test]
fn errores_de_carga_de_producto() {
    let mut contrato = PrimerContrato::new();
    let comprador = account(2);
    registrar(&mut contrato, comprador, Rol::Comp);
    let res = contrato.cargar_producto(
        comprador,
        "P".to_string(),
        "D".to_string(),
        1,
        "c".to_string(),
        1,
    );
    assert_eq!(res, Err(ErrorMercado::SinPermisoDeVendedor));
    assert_eq!(contrato.get_dimension_logica(), 0);
    assert_eq!(
        contrato.visualizar_productos_propios(comprador),
        Err(ErrorMercado::EsComprador)
    );
    let mut u = contrato.buscar_usuario(comprador).unwrap();
    assert_eq!(u.cargar_producto(1), Err(ErrorMercado::VendedorSinDatos));
    assert_eq!(u.lista_de_productos(), Err(ErrorMercado::VendedorSinDatos));
    assert_eq!(u.verificar_propiedad_producto(1), Err(ErrorMercado::VendedorSinDatos));
}

#[test]
fn escenario_publicar_ordenar_cancelar() {
    let mut contrato = PrimerContrato::new();
    let s = account(1);
    let b = account(2);
    registrar(&mut contrato, s, Rol::Vend);
    registrar(&mut contrato, b, Rol::Comp);
    cargar(&mut contrato, s, 100, 5);

    contrato.crear_publicacion(s, vec![(1, 2)]).unwrap();
    let publicacion = contrato.visualizar_productos_de_publicacion(0).unwrap();
    assert_eq!(publicacion.precio_final, 200);
    assert!(publicacion.disponible);
    assert_eq!(contrato.get_existencias(), vec![3]);

    contrato.crear_orden_de_compra(b, 0).unwrap();
    let orden = contrato.buscar_orden(0).unwrap();
    assert_eq!(orden.info_publicacion.2, 200);
    assert_eq!(orden.info_publicacion.1, vec![(1, 2)]);
    assert_eq!(orden.info_publicacion.3, s);
    assert_eq!(orden.id_comprador, b);
    assert_eq!(orden.estado, EstadoCompra::Pendiente);
    assert!(contrato.visualizar_productos_de_publicacion(0).unwrap().disponible);
    assert_eq!(contrato.get_existencias(), vec![1]);

    contrato.cancelar_comprar(b, 0).unwrap();
    let orden = contrato.buscar_orden(0).unwrap();
    assert_eq!(orden.estado, EstadoCompra::Pendiente);
    assert_eq!(orden.cancelacion, (false, true));
    assert_eq!(contrato.get_existencias(), vec![1]);

    contrato.cancelar_comprar(s, 0).unwrap();
    let orden = contrato.buscar_orden(0).unwrap();
    assert_eq!(orden.estado, EstadoCompra::Cancelada);
    assert_eq!(orden.cancelacion, (true, true));
    assert_eq!(contrato.get_existencias(), vec![3]);
    assert!(contrato.visualizar_productos_de_publicacion(0).unwrap().disponible);
}

#[test]
fn orden_agota_y_cancelacion_rehabilita_la_publicacion() {
    let mut contrato = PrimerContrato::new();
    let s = account(1);
    let b = account(2);
    let c = account(3);
    registrar(&mut contrato, s, Rol::Vend);
    registrar(&mut contrato, b, Rol::Comp);
    registrar(&mut contrato, c, Rol::Ambos);
    cargar(&mut contrato, s, 10, 3);
    contrato.crear_publicacion(s, vec![(1, 2)]).unwrap();
    assert_eq!(contrato.get_existencias(), vec![1]);

    // stock 1 < 2: the listing cannot be restocked and is sold out
    contrato.crear_orden_de_compra(b, 0).unwrap();
    assert!(!contrato.visualizar_productos_de_publicacion(0).unwrap().disponible);
    assert_eq!(contrato.get_existencias(), vec![1]);
    assert_eq!(contrato.crear_orden_de_compra(c, 0), Err(ErrorMercado::PublicacionSinStock));

    // the seller may not cancel before the buyer asks
    assert_eq!(contrato.cancelar_comprar(s, 0), Err(ErrorMercado::CompradorNoConsintio));
    contrato.cancelar_comprar(b, 0).unwrap();
    assert_eq!(contrato.cancelar_comprar(b, 0), Err(ErrorMercado::YaCanceladaPorComprador));
    contrato.cancelar_comprar(s, 0).unwrap();

    // the goods went back to the listing, not to the stock
    assert!(contrato.visualizar_productos_de_publicacion(0).unwrap().disponible);
    assert_eq!(contrato.get_existencias(), vec![1]);
    assert_eq!(contrato.buscar_orden(0).unwrap().estado, EstadoCompra::Cancelada);
    assert_eq!(contrato.cancelar_comprar(s, 0), Err(ErrorMercado::NoCancelable));

    // and the listing can be bought again
    contrato.crear_orden_de_compra(c, 0).unwrap();
    assert_eq!(contrato.buscar_orden(1).unwrap().id_comprador, c);
    assert_eq!(contrato.buscar_usuario(c).unwrap().datos_comprador.unwrap().ordenes_de_compra, vec![1]);
}

#[test]
fn errores_de_orden() {
    let (mut contrato, vendedor, comprador) = mercado_con_publicacion();
    let otro_vendedor = account(3);
    registrar(&mut contrato, otro_vendedor, Rol::Vend);
    assert_eq!(
        contrato.crear_orden_de_compra(account(9), 0),
        Err(ErrorMercado::UsuarioNoEncontrado)
    );
    assert_eq!(
        contrato.crear_orden_de_compra(comprador, 1),
        Err(ErrorMercado::PublicacionNoEncontrada)
    );
    assert_eq!(contrato.crear_orden_de_compra(vendedor, 0), Err(ErrorMercado::CompraPropia));
    assert_eq!(
        contrato.crear_orden_de_compra(otro_vendedor, 0),
        Err(ErrorMercado::NoEsComprador)
    );
    assert_eq!(contrato.get_ordenes().len(), 0);
    assert_eq!(contrato.get_existencias(), vec![3]);
    assert_eq!(
        contrato.devolver_posicion_publicacion(1),
        Err(ErrorMercado::PosicionDePublicacionNoEncontrada)
    );
    assert_eq!(contrato.devolver_posicion_publicacion(0), Ok(0));
    assert_eq!(
        contrato.devolver_posicion_orden_de_compra(0),
        Err(ErrorMercado::OrdenDeCompraNoEncontrada)
    );
    assert_eq!(contrato.buscar_orden(0).unwrap_err(), ErrorMercado::OrdenNoEncontrada);
    assert_eq!(contrato.buscar_publicacion(7).unwrap_err(), ErrorMercado::PublicacionNoEncontrada);
}

#[test]
fn errores_de_envio_y_recepcion() {
    let (mut contrato, vendedor, comprador) = mercado_con_publicacion();
    let otro_vendedor = account(3);
    let ambos = account(4);
    registrar(&mut contrato, otro_vendedor, Rol::Vend);
    registrar(&mut contrato, ambos, Rol::Ambos);
    contrato.crear_orden_de_compra(comprador, 0).unwrap();

    assert_eq!(contrato.enviar_compra(comprador, 0), Err(ErrorMercado::SinRolDeVendedor));
    assert_eq!(contrato.enviar_compra(otro_vendedor, 0), Err(ErrorMercado::PublicacionAjena));
    assert_eq!(contrato.enviar_compra(vendedor, 5), Err(ErrorMercado::OrdenInexistente));
    assert_eq!(contrato.recibir_compra(comprador, 0), Err(ErrorMercado::NoFueEnviado));
    assert_eq!(contrato.buscar_orden(0).unwrap().estado, EstadoCompra::Pendiente);

    contrato.enviar_compra(vendedor, 0).unwrap();
    assert_eq!(contrato.buscar_orden(0).unwrap().estado, EstadoCompra::Enviado);
    assert_eq!(contrato.enviar_compra(vendedor, 0), Err(ErrorMercado::NoSePuedeEnviar));
    assert_eq!(contrato.cancelar_comprar(comprador, 0), Err(ErrorMercado::NoCancelable));
    assert_eq!(contrato.recibir_compra(vendedor, 0), Err(ErrorMercado::SinRolDeComprador));
    assert_eq!(
        contrato.recibir_compra(ambos, 0),
        Err(ErrorMercado::OrdenDeCompraNoEncontrada)
    );
    assert_eq!(contrato.recibir_compra(comprador, 9), Err(ErrorMercado::OrdenInexistente));
    assert_eq!(contrato.calificar(0, 5, comprador), Err(ErrorMercado::CompraNoRecibida));

    contrato.recibir_compra(comprador, 0).unwrap();
    assert_eq!(contrato.buscar_orden(0).unwrap().estado, EstadoCompra::Recibido);
    assert_eq!(contrato.recibir_compra(comprador, 0), Err(ErrorMercado::NoFueEnviado));
    // shipping and receiving move no stock
    assert_eq!(contrato.get_existencias(), vec![1]);
}

#[test]
fn calificacion_es_unica_por_parte() {
    let (mut contrato, vendedor, comprador) = mercado_con_publicacion();
    let ambos = account(4);
    registrar(&mut contrato, ambos, Rol::Ambos);
    contrato.crear_orden_de_compra(comprador, 0).unwrap();
    contrato.enviar_compra(vendedor, 0).unwrap();
    contrato.recibir_compra(comprador, 0).unwrap();

    assert_eq!(contrato.calificar(0, 0, comprador), Err(ErrorMercado::CalificacionInvalida));
    assert_eq!(contrato.calificar(0, 6, comprador), Err(ErrorMercado::CalificacionInvalida));
    assert_eq!(contrato.calificar(0, 255, account(9)), Err(ErrorMercado::CalificacionInvalida));
    assert_eq!(contrato.calificar(0, 3, account(9)), Err(ErrorMercado::UsuarioNoEncontrado));
    assert_eq!(contrato.calificar(3, 3, comprador), Err(ErrorMercado::OrdenNoEncontrada));
    assert_eq!(contrato.calificar(0, 3, ambos), Err(ErrorMercado::NoParticipa));

    contrato.calificar(0, 1, comprador).unwrap();
    let orden = contrato.buscar_orden(0).unwrap();
    assert_eq!(orden.calificaciones, (true, false));
    assert_eq!(orden.puntuacion_del_comprador, Some(1));
    assert_eq!(
        contrato.buscar_usuario(vendedor).unwrap().datos_vendedor.unwrap().reputacion_como_vendedor,
        vec![1]
    );
    assert_eq!(contrato.calificar(0, 5, comprador), Err(ErrorMercado::YaCalifico));

    contrato.calificar(0, 5, vendedor).unwrap();
    let orden = contrato.buscar_orden(0).unwrap();
    assert_eq!(orden.calificaciones, (true, true));
    assert_eq!(orden.puntuacion_del_comprador, Some(1));
    assert_eq!(
        contrato.buscar_usuario(comprador).unwrap().datos_comprador.unwrap().reputacion_como_comprador,
        vec![5]
    );
    assert_eq!(contrato.calificar(0, 4, vendedor), Err(ErrorMercado::YaCalifico));
    assert_eq!(
        contrato.buscar_usuario(vendedor).unwrap().datos_vendedor.unwrap().reputacion_como_vendedor,
        vec![1]
    );
}

#[test]
fn calificar_a_quien_no_tiene_perfil_falla() {
    let (mut contrato, vendedor, comprador) = mercado_con_publicacion();
    assert_eq!(
        contrato.calificar_vendedor(comprador, 4),
        Err(ErrorMercado::VendedorSinDatosCargados)
    );
    assert_eq!(
        contrato.calificar_comprador(vendedor, 4),
        Err(ErrorMercado::CompradorSinDatosCargados)
    );
    assert_eq!(contrato.calificar_vendedor(account(9), 4), Err(ErrorMercado::UsuarioNoEncontrado));
    contrato.calificar_vendedor(vendedor, 4).unwrap();
    assert_eq!(
        contrato.buscar_usuario(vendedor).unwrap().datos_vendedor.unwrap().reputacion_como_vendedor,
        vec![4]
    );
}

#[test]
fn vendedor_que_cambia_de_rol_no_confirma_la_cancelacion() {
    let (mut contrato, vendedor, comprador) = mercado_con_publicacion();
    contrato.crear_orden_de_compra(comprador, 0).unwrap();
    contrato.cancelar_comprar(comprador, 0).unwrap();
    contrato.modificar_rol(vendedor, Rol::Comp).unwrap();
    assert_eq!(contrato.cancelar_comprar(vendedor, 0), Err(ErrorMercado::NoPoseeOrden));
    contrato.modificar_rol(comprador, Rol::Vend).unwrap();
    assert_eq!(
        contrato.cancelar_comprar(comprador, 0),
        Err(ErrorMercado::VendedorNoPoseePublicacion)
    );
    contrato.modificar_rol(vendedor, Rol::Ambos).unwrap();
    contrato.cancelar_comprar(vendedor, 0).unwrap();
    assert_eq!(contrato.buscar_orden(0).unwrap().estado, EstadoCompra::Cancelada);
    assert_eq!(contrato.get_existencias(), vec![3]);
}

#[test]
fn cambio_de_rol_conserva_el_historial() {
    let (mut contrato, vendedor, _comprador) = mercado_con_publicacion();
    assert_eq!(contrato.modificar_rol(vendedor, Rol::Vend), Err(ErrorMercado::MismoRol));
    contrato.modificar_rol(vendedor, Rol::Comp).unwrap();
    let u = contrato.buscar_usuario(vendedor).unwrap();
    assert_eq!(u.rol, Rol::Comp);
    let datos = u.datos_vendedor.unwrap();
    assert_eq!(datos.productos, vec![1]);
    assert_eq!(datos.publicaciones, vec![0]);
    let datos = u.datos_comprador.unwrap();
    assert!(datos.ordenes_de_compra.is_empty());
    assert!(datos.reputacion_como_comprador.is_empty());
}

#[test]
fn orden_cancelacion_directa() {
    let publicacion = Publicacion::crear_publicacion(vec![(1, 2)], 200, 0, account(1));
    assert!(publicacion.disponible);
    let mut orden = OrdenCompra::crear_orden_de_compra(3, publicacion, account(2));
    assert_eq!(orden.id, 3);
    assert_eq!(orden.info_publicacion, (0, vec![(1, 2)], 200, account(1)));
    assert_eq!(orden.cancelar_compra_vendedor(), Err(ErrorMercado::CompradorNoConsintio));
    assert_eq!(orden.cancelar_compra_comprador(), Ok(()));
    assert_eq!(orden.estado, EstadoCompra::Pendiente);
    assert_eq!(orden.cancelar_compra_vendedor(), Ok(()));
    assert_eq!(orden.estado, EstadoCompra::Cancelada);
    assert_eq!(orden.cancelar_compra_vendedor(), Err(ErrorMercado::YaCancelada));
    assert_eq!(orden.cancelacion, (true, true));
}

#[test]
fn aritmetica_de_stock() {
    let mut existencias = vec![5u32, u32::MAX];
    assert_eq!(hay_stock_suficiente(&existencias, &vec![(1, 5), (2, 1)]), Ok(()));
    assert_eq!(
        hay_stock_suficiente(&existencias, &vec![(1, 6)]),
        Err(ErrorMercado::StockInsuficiente)
    );
    assert_eq!(
        hay_stock_suficiente(&existencias, &vec![(3, 1)]),
        Err(ErrorMercado::ProductoNoEncontrado)
    );
    assert_eq!(
        hay_stock_suficiente(&existencias, &vec![(0, 1)]),
        Err(ErrorMercado::ProductoNoEncontrado)
    );
    assert_eq!(
        hay_stock_suficiente(&vec![0], &vec![(1, 0)]),
        Err(ErrorMercado::StockInsuficiente)
    );
    assert_eq!(
        aumentar_stock_productos(&mut existencias, &vec![(1, 2), (2, 1)]),
        Err(ErrorMercado::DesbordeAlSumarStock)
    );
    assert_eq!(existencias, vec![5, u32::MAX]);
    assert_eq!(
        aumentar_stock_productos(&mut existencias, &vec![(1, 2), (3, 1)]),
        Err(ErrorMercado::ProductoNoEncontrado)
    );
    assert_eq!(existencias, vec![5, u32::MAX]);
    assert_eq!(aumentar_stock_productos(&mut existencias, &vec![(1, 2), (1, 3)]), Ok(()));
    assert_eq!(existencias, vec![10, u32::MAX]);
    assert!(puede_descontar(&existencias, &vec![(1, 4), (1, 6)]));
    assert!(!puede_descontar(&existencias, &vec![(1, 4), (1, 7)]));
    assert_eq!(
        descontar_stock(&mut existencias, &vec![(2, 1), (1, 11)]),
        Err(ErrorMercado::DesbordeAlRestarStock)
    );
    assert_eq!(existencias, vec![10, u32::MAX]);
    assert_eq!(descontar_stock(&mut existencias, &vec![(2, 1), (1, 10), (9, 4)]), Ok(()));
    assert_eq!(existencias, vec![0, u32::MAX - 1]);
}

#[test]
fn precio_final_exacto() {
    let productos = vec![
        Producto::cargar_producto(1, "a".into(), "b".into(), 100, "c".into()),
        Producto::cargar_producto(2, "a".into(), "b".into(), 7, "c".into()),
        Producto::cargar_producto(3, "a".into(), "b".into(), u32::MAX, "c".into()),
    ];
    assert_eq!(calcular_precio_final(&productos, &vec![]), Ok(0));
    assert_eq!(calcular_precio_final(&productos, &vec![(1, 2), (2, 3)]), Ok(221));
    assert_eq!(calcular_precio_final(&productos, &vec![(1, 2), (8, 3), (1, 1)]), Ok(300));
    assert_eq!(calcular_precio_final(&productos, &vec![(3, 1)]), Ok(u32::MAX));
    assert_eq!(
        calcular_precio_final(&productos, &vec![(3, 2)]),
        Err(ErrorMercado::DesbordeAlMultiplicar)
    );
    assert_eq!(
        calcular_precio_final(&productos, &vec![(2, 1), (3, 1)]),
        Err(ErrorMercado::DesbordeAlAcumular)
    );
}

#[test]
fn promedio_redondea_hacia_arriba_en_la_mitad() {
    let contrato = SegundoContrato::new(account(0));
    assert_eq!(contrato.promedio_reputacion(vec![1, 2]), 2);
    assert_eq!(contrato.promedio_reputacion(vec![1, 1, 2]), 1);
    assert_eq!(contrato.promedio_reputacion(vec![1, 2, 2]), 2);
    assert_eq!(contrato.promedio_reputacion(vec![3]), 3);
    assert_eq!(contrato.promedio_reputacion(vec![0, 0, 0, 1]), 0);
    assert_eq!(contrato.promedio_reputacion(vec![0, 1]), 1);
    assert_eq!(contrato.direccion_del_marketplace(), account(0));
}

#[test]
fn mejores_respetan_el_orden_de_llegada_en_empates() {
    let contrato = SegundoContrato::new(account(0));
    let puntuados =
        vec![(account(1), 3), (account(2), 5), (account(3), 3), (account(4), 5), (account(5), 1), (account(6), 3), (account(7), 0)];
    let top = contrato.calcular_5_mejores(puntuados).unwrap();
    assert_eq!(top, vec![account(2), account(4), account(1), account(3), account(6)]);
    assert_eq!(contrato.calcular_5_mejores(vec![]).unwrap(), Vec::<AccountId>::new());
}

#[test]
fn mejores_vendedores_sin_perfil_falla() {
    let contrato = SegundoContrato::new(account(0));
    let mut sin_perfil = vendedor_con(2, vec![]);
    sin_perfil.datos_vendedor = None;
    let res = contrato
        .procesar_vendedores_mejor_reputacion(vec![vendedor_con(1, vec![5]), sin_perfil]);
    assert_eq!(res, Err(ErrorMercado::VendedorSinDatosCargados));
    let res = contrato.procesar_compradores_mejor_reputacion(vec![vendedor_con(1, vec![5])]);
    assert_eq!(res, Err(ErrorMercado::CompradorSinDatosCargados));
}

#[test]
fn vendedores_mejor_reputacion_filtra_por_rol() {
    let contrato = SegundoContrato::new(account(0));
    let mut ex_vendedor = vendedor_con(3, vec![5, 5]);
    ex_vendedor.rol = Rol::Comp;
    ex_vendedor.datos_comprador =
        Some(Comprador { ordenes_de_compra: vec![], reputacion_como_comprador: vec![2] });
    let usuarios = vec![vendedor_con(1, vec![4]), vendedor_con(2, vec![5, 4]), ex_vendedor.copiar()];
    assert_eq!(contrato.vendedores_mejor_reputacion(usuarios).unwrap(), vec![account(2), account(1)]);
    let usuarios = vec![vendedor_con(1, vec![4]), ex_vendedor];
    assert_eq!(contrato.compradores_mejor_reputacion(usuarios).unwrap(), vec![account(3)]);
}

#[test]
fn escenario_productos_mas_vendidos() {
    let contrato = SegundoContrato::new(account(0));
    let ordenes = vec![
        orden_de(0, EstadoCompra::Recibido, vec![(1, 5)], None),
        orden_de(1, EstadoCompra::Recibido, vec![(2, 3)], None),
        orden_de(2, EstadoCompra::Enviado, vec![(3, 3)], None),
    ];
    let top = contrato.productos_mas_vendidos(ordenes, Some(2)).unwrap();
    assert_eq!(top, vec![(1, 5), (2, 3)]);
}

#[test]
fn productos_mas_vendidos_acumula_por_producto() {
    let contrato = SegundoContrato::new(account(0));
    let ordenes = vec![
        orden_de(0, EstadoCompra::Recibido, vec![(1, 1), (2, 4)], None),
        orden_de(1, EstadoCompra::Pendiente, vec![(1, 100)], None),
        orden_de(2, EstadoCompra::Enviado, vec![(3, 2), (1, 3), (3, 1)], None),
        orden_de(3, EstadoCompra::Cancelada, vec![(2, 100)], None),
    ];
    let todos = contrato.procesar_productos_mas_vendidos(ordenes, None).unwrap();
    assert_eq!(todos, vec![(1, 4), (2, 4), (3, 3)]);
    let ordenes = vec![
        orden_de(0, EstadoCompra::Recibido, vec![(1, u32::MAX)], None),
        orden_de(1, EstadoCompra::Recibido, vec![(1, 1)], None),
    ];
    assert_eq!(
        contrato.procesar_productos_mas_vendidos(ordenes, None),
        Err(ErrorMercado::DesbordeAlSumar)
    );
    let mut contador = vec![(7, 1), (8, u32::MAX)];
    let res = contrato.procesar_orden(
        &mut contador,
        orden_de(0, EstadoCompra::Recibido, vec![(7, 1), (8, 1)], None),
    );
    assert_eq!(res, Err(ErrorMercado::DesbordeAlSumar));
    assert_eq!(contador, vec![(7, 1), (8, u32::MAX)]);
    assert_eq!(
        contrato.procesar_productos_mas_vendidos(vec![], Some(3)),
        Err(ErrorMercado::SinVentasConcretadas)
    );
}

#[test]
fn ordenes_por_comprador() {
    let contrato = SegundoContrato::new(account(0));
    assert_eq!(
        contrato.cantidad_ordenes_por_usuarios(vec![vendedor_con(1, vec![])]),
        Err(ErrorMercado::SinCompradores)
    );
    assert_eq!(contrato.cantidad_ordenes_por_usuarios(vec![]), Err(ErrorMercado::SinCompradores));
    let mut comprador = vendedor_con(2, vec![]);
    comprador.datos_comprador =
        Some(Comprador { ordenes_de_compra: vec![4, 9], reputacion_como_comprador: vec![] });
    let res = contrato
        .cantidad_ordenes_por_usuarios(vec![vendedor_con(1, vec![]), comprador.copiar()])
        .unwrap();
    assert_eq!(res, vec![(account(2), 2)]);
    let res = contrato.contar_cantidades(vec![vendedor_con(1, vec![]), comprador]);
    assert_eq!(res, vec![(account(1), 0), (account(2), 2)]);
}

#[test]
fn estadisticas_por_categoria_con_calificaciones() {
    let contrato = SegundoContrato::new(account(0));
    let productos = vec![
        producto_de(1, "alimentos"),
        producto_de(2, "hogar"),
        producto_de(3, "alimentos"),
    ];
    let ordenes = vec![
        orden_de(0, EstadoCompra::Recibido, vec![(1, 2), (2, 1)], Some(5)),
        orden_de(1, EstadoCompra::Recibido, vec![(3, 1)], Some(2)),
        orden_de(2, EstadoCompra::Enviado, vec![(1, 1), (9, 1)], None),
        orden_de(3, EstadoCompra::Pendiente, vec![(2, 1)], Some(1)),
    ];
    let res = contrato.estadisticas_por_categoria(ordenes, productos).unwrap();
    // alimentos: 2 + 1 + 1 = 4 units, scores 5 + 2 = 7, 7 / 4 = 1
    // hogar: 1 unit, score 5
    assert_eq!(res, vec![("alimentos".to_string(), 4, 1), ("hogar".to_string(), 1, 5)]);
    assert_eq!(
        contrato.estadisticas_por_categoria(vec![], vec![]).unwrap(),
        Vec::<(String, u32, u8)>::new()
    );
}

#[test]
fn promedio_de_categoria_sin_ventas_falla() {
    let contrato = SegundoContrato::new(account(0));
    let mut categorias = vec![("a".to_string(), 2, 0), ("b".to_string(), 0, 0)];
    let puntos = vec![("a".to_string(), 9), ("b".to_string(), 0)];
    assert_eq!(
        contrato.calificacion_promedio_categorias(&mut categorias, puntos),
        Err(ErrorMercado::ErrorAlDividir)
    );
    assert_eq!(categorias, vec![("a".to_string(), 2, 0), ("b".to_string(), 0, 0)]);
    assert_eq!(ErrorMercado::ErrorAlDividir.mensaje(), "Error al dividir.");
    let mut categorias = vec![("a".to_string(), 2, 0), ("b".to_string(), 1, 0)];
    let puntos = vec![("a".to_string(), 9), ("b".to_string(), 300)];
    assert_eq!(contrato.calificacion_promedio_categorias(&mut categorias, puntos), Ok(()));
    assert_eq!(categorias, vec![("a".to_string(), 2, 4), ("b".to_string(), 1, 44)]);
}

#[test]
fn contar_categoria_y_puntuacion() {
    let contrato = SegundoContrato::new(account(0));
    let mut categorias: Vec<(String, u32, u8)> = vec![("a".to_string(), u32::MAX - 2, 0)];
    let mut puntos: Vec<(String, u32)> = vec![("a".to_string(), u32::MAX - 1)];
    assert_eq!(
        contrato.contar_categoria("a".to_string(), 3, &mut categorias, &mut puntos),
        Err(ErrorMercado::DesbordeAlSumar)
    );
    assert_eq!(categorias, vec![("a".to_string(), u32::MAX - 2, 0)]);
    assert_eq!(contrato.contar_categoria("a".to_string(), 2, &mut categorias, &mut puntos), Ok(()));
    assert_eq!(contrato.contar_categoria("b".to_string(), 2, &mut categorias, &mut puntos), Ok(()));
    assert_eq!(contrato.contar_categoria("b".to_string(), 3, &mut categorias, &mut puntos), Ok(()));
    assert_eq!(categorias, vec![("a".to_string(), u32::MAX, 0), ("b".to_string(), 5, 0)]);
    assert_eq!(puntos, vec![("a".to_string(), u32::MAX - 1), ("b".to_string(), 0)]);
    assert_eq!(contrato.contar_puntuacion("a".to_string(), &mut puntos, Some(1)), Ok(()));
    assert_eq!(
        contrato.contar_puntuacion("a".to_string(), &mut puntos, Some(1)),
        Err(ErrorMercado::DesbordeAlSumar)
    );
    assert_eq!(contrato.contar_puntuacion("b".to_string(), &mut puntos, None), Ok(()));
    assert_eq!(contrato.contar_puntuacion("z".to_string(), &mut puntos, Some(3)), Ok(()));
    assert_eq!(contrato.contar_puntuacion("b".to_string(), &mut puntos, Some(4)), Ok(()));
    assert_eq!(puntos, vec![("a".to_string(), u32::MAX), ("b".to_string(), 4)]);
}

#[test]
fn estadisticas_cuentan_unidades() {
    let contrato = SegundoContrato::new(account(0));
    let productos = || vec![producto_de(1, "Alimentos"), producto_de(2, " alimentos")];
    // one received order of 2 units of one product, not rated
    let ordenes = vec![orden_de(0, EstadoCompra::Recibido, vec![(1, 2)], None)];
    assert_eq!(
        contrato.procesar_estadisticas_por_categoria(ordenes, productos()).unwrap(),
        vec![("Alimentos".to_string(), 2, 0)]
    );
    // categories are told apart by their exact text
    let ordenes = vec![orden_de(0, EstadoCompra::Recibido, vec![(1, 2), (2, 3), (1, 5)], Some(4))];
    assert_eq!(
        contrato.procesar_estadisticas_por_categoria(ordenes, productos()).unwrap(),
        vec![("Alimentos".to_string(), 7, 1), (" alimentos".to_string(), 3, 1)]
    );
    // a category that appears with no unit sold has no mean
    let ordenes = vec![orden_de(0, EstadoCompra::Recibido, vec![(1, 0)], Some(4))];
    assert_eq!(
        contrato.procesar_estadisticas_por_categoria(ordenes, productos()),
        Err(ErrorMercado::ErrorAlDividir)
    );
    // the units of a category must fit in a counter
    let ordenes = vec![orden_de(0, EstadoCompra::Recibido, vec![(1, u32::MAX), (1, 1)], None)];
    assert_eq!(
        contrato.procesar_estadisticas_por_categoria(ordenes, productos()),
        Err(ErrorMercado::DesbordeAlSumar)
    );
}

#[test]
fn inventario_se_conserva() {
    // stock + reserved by available listings + committed to live orders
    let mut contrato = PrimerContrato::new();
    let s = account(1);
    let b = account(2);
    registrar(&mut contrato, s, Rol::Vend);
    registrar(&mut contrato, b, Rol::Comp);
    cargar(&mut contrato, s, 10, 7);
    let inventario = |contrato: &PrimerContrato| -> u32 {
        let mut total = contrato.get_existencias()[0];
        for publicacion in contrato.get_publicaciones() {
            if publicacion.disponible {
                total += publicacion.productos.iter().map(|p| p.1).sum::<u32>();
            }
        }
        for orden in contrato.get_ordenes() {
            if orden.estado != EstadoCompra::Cancelada {
                total += orden.info_publicacion.1.iter().map(|p| p.1).sum::<u32>();
            }
        }
        total
    };
    assert_eq!(inventario(&contrato), 7);
    contrato.crear_publicacion(s, vec![(1, 3)]).unwrap();
    assert_eq!(inventario(&contrato), 7);
    contrato.crear_orden_de_compra(b, 0).unwrap();
    assert_eq!(contrato.get_existencias(), vec![1]);
    assert_eq!(inventario(&contrato), 7);
    contrato.crear_orden_de_compra(b, 0).unwrap();
    assert_eq!(contrato.get_existencias(), vec![1]);
    assert!(!contrato.visualizar_productos_de_publicacion(0).unwrap().disponible);
    assert_eq!(inventario(&contrato), 7);
    contrato.enviar_compra(s, 0).unwrap();
    assert_eq!(inventario(&contrato), 7);
    contrato.cancelar_comprar(b, 1).unwrap();
    contrato.cancelar_comprar(s, 1).unwrap();
    assert_eq!(inventario(&contrato), 7);
    assert!(contrato.visualizar_productos_de_publicacion(0).unwrap().disponible);
}

#[test]
fn mensajes_de_error() {
    assert_eq!(ErrorMercado::UsuarioYaRegistrado.mensaje(), "El usuario ya esta registrado.");
    assert_eq!(ErrorMercado::HistorialLleno.mensaje(), "El historial esta lleno.");
    assert_eq!(ErrorMercado::DesbordeAlSumar.mensaje(), "Error al sumar.");
    assert_eq!(
        ErrorMercado::SinCompradores.mensaje(),
        "No hay usuarios con datos de comprador cargados en sistema."
    );
    assert_eq!(
        ErrorMercado::PosicionDePublicacionNoEncontrada.mensaje(),
        "No se encontro publicacion"
    );
    assert_eq!(ErrorMercado::YaCancelada.mensaje(), "La compra ya fue cancelada.");
}

#[test]
fn estado_se_reconstruye_desde_sus_partes() {
    let (mut contrato, vendedor, comprador) = mercado_con_publicacion();
    contrato.crear_orden_de_compra(comprador, 0).unwrap();
    let copia = PrimerContrato::desde_partes(
        contrato.get_usuarios(),
        contrato.get_publicaciones(),
        contrato.get_productos(),
        contrato.get_existencias(),
        contrato.get_ordenes(),
    );
    let mut copia = copia.expect("las partes de un mercado son consistentes");
    assert_eq!(copia.get_existencias(), vec![1]);
    assert_eq!(copia.get_dimension_logica(), 1);
    assert_eq!(copia.buscar_orden(0).unwrap().id_comprador, comprador);
    assert_eq!(copia.buscar_usuario(vendedor).unwrap().nombre, "Nombre");
    copia.cancelar_comprar(comprador, 0).unwrap();
    copia.cancelar_comprar(vendedor, 0).unwrap();
    assert_eq!(copia.get_existencias(), vec![3]);
    // the marketplace the copy was taken from has not moved
    assert_eq!(contrato.get_existencias(), vec![1]);
    assert_eq!(contrato.buscar_orden(0).unwrap().estado, EstadoCompra::Pendiente);
}

#[test]
fn partes_inconsistentes_se_rechazan() {
    let (mut contrato, _vendedor, comprador) = mercado_con_publicacion();
    contrato.crear_orden_de_compra(comprador, 0).unwrap();
    let partes = |contrato: &PrimerContrato| {
        (
            contrato.get_usuarios(),
            contrato.get_publicaciones(),
            contrato.get_productos(),
            contrato.get_existencias(),
            contrato.get_ordenes(),
        )
    };

    let (u, p, pr, e, o) = partes(&contrato);
    assert!(PrimerContrato::desde_partes(u, p, pr, e, o).is_some());

    // the same account twice
    let (mut u, p, pr, e, o) = partes(&contrato);
    u.push(u[0].copiar());
    assert!(PrimerContrato::desde_partes(u, p, pr, e, o).is_none());

    // a seller without its seller profile
    let (mut u, p, pr, e, o) = partes(&contrato);
    u[0].datos_vendedor = None;
    assert!(PrimerContrato::desde_partes(u, p, pr, e, o).is_none());

    // a seller that owns a product nobody loaded
    let (mut u, p, pr, e, o) = partes(&contrato);
    u[0].datos_vendedor.as_mut().unwrap().productos.push(2);
    assert!(PrimerContrato::desde_partes(u, p, pr, e, o).is_none());

    // a product without its stock counter
    let (u, p, pr, _e, o) = partes(&contrato);
    assert!(PrimerContrato::desde_partes(u, p, pr, vec![], o).is_none());

    // a product out of sequence
    let (u, p, mut pr, e, o) = partes(&contrato);
    pr[0].id = 2;
    assert!(PrimerContrato::desde_partes(u, p, pr, e, o).is_none());

    // a listing out of sequence
    let (u, mut p, pr, e, o) = partes(&contrato);
    p[0].id = 1;
    assert!(PrimerContrato::desde_partes(u, p, pr, e, o).is_none());

    // a listing of an unknown seller
    let (u, mut p, pr, e, o) = partes(&contrato);
    p[0].id_vendedor = account(9);
    assert!(PrimerContrato::desde_partes(u, p, pr, e, o).is_none());

    // a listing of an unknown product
    let (u, mut p, pr, e, mut o) = partes(&contrato);
    p[0].productos = vec![(2, 2)];
    o[0].info_publicacion.1 = vec![(2, 2)];
    assert!(PrimerContrato::desde_partes(u, p, pr, e, o).is_none());

    // an order that does not hold its listing as it was made
    let (u, p, pr, e, mut o) = partes(&contrato);
    o[0].info_publicacion.1 = vec![(1, 1)];
    assert!(PrimerContrato::desde_partes(u, p, pr, e, o).is_none());
    let (u, p, pr, e, mut o) = partes(&contrato);
    o[0].info_publicacion.2 = 201;
    assert!(PrimerContrato::desde_partes(u, p, pr, e, o).is_none());
    let (u, p, pr, e, mut o) = partes(&contrato);
    o[0].info_publicacion.0 = 1;
    assert!(PrimerContrato::desde_partes(u, p, pr, e, o).is_none());

    // an order of an unknown buyer
    let (u, p, pr, e, mut o) = partes(&contrato);
    o[0].id_comprador = account(9);
    assert!(PrimerContrato::desde_partes(u, p, pr, e, o).is_none());

    // an order placed by the seller of its own listing
    let mut propio = PrimerContrato::new();
    registrar(&mut propio, account(1), Rol::Ambos);
    registrar(&mut propio, account(2), Rol::Comp);
    cargar(&mut propio, account(1), 100, 5);
    propio.crear_publicacion(account(1), vec![(1, 2)]).unwrap();
    propio.crear_orden_de_compra(account(2), 0).unwrap();
    let (u, p, pr, e, o) = partes(&propio);
    assert!(PrimerContrato::desde_partes(u, p, pr, e, o).is_some());
    let (u, p, pr, e, mut o) = partes(&propio);
    o[0].id_comprador = account(1);
    assert!(PrimerContrato::desde_partes(u, p, pr, e, o).is_none());

    // more units than a counter can hold
    let (u, p, pr, _e, o) = partes(&contrato);
    assert!(PrimerContrato::desde_partes(u, p, pr, vec![u32::MAX - 3], o).is_none());
    let (u, p, pr, _e, o) = partes(&contrato);
    assert!(PrimerContrato::desde_partes(u, p, pr, vec![u32::MAX - 4], o).is_some());

    // a cancelled order commits nothing
    let (u, p, pr, _e, mut o) = partes(&contrato);
    o[0].estado = EstadoCompra::Cancelada;
    assert!(PrimerContrato::desde_partes(u, p, pr, vec![u32::MAX - 2], o).is_some());
}

#[test]
fn mercado_por_defecto_esta_vacio() {
    let contrato = PrimerContrato::default();
    assert_eq!(contrato.get_dimension_logica(), 0);
    assert!(contrato.get_usuarios().is_empty());
    assert!(contrato.get_publicaciones().is_empty());
    assert!(contrato.get_ordenes().is_empty());
    assert!(contrato.get_existencias().is_empty());
    assert!(PrimerContrato::desde_partes(vec![], vec![], vec![], vec![], vec![]).is_some());
}

#[test]
fn restock_considera_las_cantidades_en_conjunto() {
    let mut contrato = PrimerContrato::new();
    let s = account(1);
    let b = account(2);
    registrar(&mut contrato, s, Rol::Vend);
    registrar(&mut contrato, b, Rol::Comp);
    cargar(&mut contrato, s, 1, 10);
    // the listing asks for product 1 twice, 6 units in all; 4 are left
    contrato.crear_publicacion(s, vec![(1, 3), (1, 3)]).unwrap();
    assert_eq!(contrato.get_existencias(), vec![4]);
    let publicacion = contrato.visualizar_productos_de_publicacion(0).unwrap();
    assert!(!contrato.puede_restockear(&publicacion));
    contrato.crear_orden_de_compra(b, 0).unwrap();
    assert!(!contrato.visualizar_productos_de_publicacion(0).unwrap().disponible);
    assert_eq!(contrato.get_existencias(), vec![4]);
    assert_eq!(contrato.get_ordenes().len(), 1);
}

#[test]
fn orden_descuenta_cada_producto_una_vez() {
    let mut contrato = PrimerContrato::new();
    let s = account(1);
    let b = account(2);
    registrar(&mut contrato, s, Rol::Vend);
    registrar(&mut contrato, b, Rol::Ambos);
    cargar(&mut contrato, s, 10, 9);
    cargar(&mut contrato, s, 20, 8);
    cargar(&mut contrato, s, 30, 7);
    contrato.crear_publicacion(s, vec![(3, 2), (1, 4)]).unwrap();
    assert_eq!(contrato.get_existencias(), vec![5, 8, 5]);
    let antes = contrato.visualizar_productos_de_publicacion(0).unwrap();

    // the stock covers both pairs once more: each goes down by its quantity
    contrato.crear_orden_de_compra(b, 0).unwrap();
    assert_eq!(contrato.get_existencias(), vec![1, 8, 3]);
    let despues = contrato.visualizar_productos_de_publicacion(0).unwrap();
    assert!(despues.disponible);
    assert_eq!(despues.productos, antes.productos);
    assert_eq!(despues.precio_final, antes.precio_final);
    assert_eq!(despues.precio_final, 100);
    assert_eq!(despues.id_vendedor, s);

    // product 1 now lacks stock: nothing moves and the listing is sold out
    contrato.crear_orden_de_compra(b, 0).unwrap();
    assert_eq!(contrato.get_existencias(), vec![1, 8, 3]);
    let agotada = contrato.visualizar_productos_de_publicacion(0).unwrap();
    assert!(!agotada.disponible);
    assert_eq!(agotada.productos, antes.productos);
    assert_eq!(agotada.precio_final, 100);
    assert_eq!(contrato.get_ordenes().len(), 2);
    assert_eq!(contrato.buscar_orden(1).unwrap().info_publicacion.1, vec![(3, 2), (1, 4)]);
}

#[test]
fn mas_vendidos_en_general() {
    let contrato = SegundoContrato::new(account(0));
    let ordenes = || {
        vec![
            orden_de(0, EstadoCompra::Recibido, vec![(5, 1), (6, 2)], None),
            orden_de(1, EstadoCompra::Cancelada, vec![(7, 50)], None),
            orden_de(2, EstadoCompra::Enviado, vec![(8, 9), (5, 3)], None),
            orden_de(3, EstadoCompra::Pendiente, vec![(6, 50)], None),
            orden_de(4, EstadoCompra::Recibido, vec![(9, 2)], None),
        ]
    };
    // four products were sold: 5 -> 4, 6 -> 2, 8 -> 9, 9 -> 2
    let todos = contrato.procesar_productos_mas_vendidos(ordenes(), None).unwrap();
    assert_eq!(todos, vec![(8, 9), (5, 4), (6, 2), (9, 2)]);
    let dos = contrato.procesar_productos_mas_vendidos(ordenes(), Some(2)).unwrap();
    assert_eq!(dos, vec![(8, 9), (5, 4)]);
    let tres = contrato.procesar_productos_mas_vendidos(ordenes(), Some(3)).unwrap();
    assert_eq!(tres, vec![(8, 9), (5, 4), (6, 2)]);
    let muchos = contrato.procesar_productos_mas_vendidos(ordenes(), Some(40)).unwrap();
    assert_eq!(muchos, todos);
    // the sum of a product may reach the width of a counter, not exceed it
    let justo = vec![
        orden_de(0, EstadoCompra::Recibido, vec![(1, u32::MAX - 1)], None),
        orden_de(1, EstadoCompra::Recibido, vec![(1, 1), (2, u32::MAX)], None),
    ];
    assert_eq!(
        contrato.procesar_productos_mas_vendidos(justo, None).unwrap(),
        vec![(1, u32::MAX), (2, u32::MAX)]
    );
}
