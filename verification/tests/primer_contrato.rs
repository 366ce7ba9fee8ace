use ink::primitives::AccountId;
use mercado::cuenta::account;
use mercado::orden::EstadoCompra;
use mercado::primer_contrato::PrimerContrato;
use mercado::rol::Rol;
use mercado::usuario::{Comprador, Usuario, Vendedor};

#[test]
fn agregar_usuario_comp_exitoso() {
    let mut contrato = PrimerContrato::new();
    let acc = account(1);

    let res = contrato.agregar_usuario_sistema(
        acc,
        "Juan".to_string(),
        "Pérez".to_string(),
        "Calle Falsa 123".to_string(),
        "juan@mail.com".to_string(),
        Rol::Comp,
    );

    assert!(res.is_ok(), "Debería registrar correctamente");
    let u = contrato.buscar_usuario(acc).expect("Usuario no almacenado");
    assert!(u.datos_comprador.is_some(), "Para Rol::Comp debe inicializar datos_comprador");
    assert!(u.datos_vendedor.is_none(), "Para Rol::Comp no debe inicializar datos_vendedor");
}

#[test]
fn agregar_usuario_vend_exitoso() {
    let mut contrato = PrimerContrato::new();
    let acc = account(2);

    let res = contrato.agregar_usuario_sistema(
        acc,
        "Ana".to_string(),
        "López".to_string(),
        "Av. Central".to_string(),
        "ana@mail.com".to_string(),
        Rol::Vend,
    );

    assert!(res.is_ok(), "Debería registrar correctamente");
    let u = contrato.buscar_usuario(acc).expect("Usuario no almacenado");
    assert!(u.datos_comprador.is_none(), "Para Rol::Vend no debe inicializar datos_comprador");
    assert!(u.datos_vendedor.is_some(), "Para Rol::Vend debe inicializar datos_vendedor");
}

#[test]
fn agregar_usuario_ambos_exitoso() {
    let mut contrato = PrimerContrato::new();
    let acc = account(3);

    let res = contrato.agregar_usuario_sistema(
        acc,
        "Luis".to_string(),
        "Gómez".to_string(),
        "Ruta 8".to_string(),
        "luis@mail.com".to_string(),
        Rol::Ambos,
    );

    assert!(res.is_ok(), "Debería registrar correctamente");
    let u = contrato.buscar_usuario(acc).expect("Usuario no almacenado");
    assert!(u.datos_comprador.is_some(), "Para Rol::Ambos debe inicializar datos_comprador");
    assert!(u.datos_vendedor.is_some(), "Para Rol::Ambos debe inicializar datos_vendedor");
}

#[test]
fn agregar_usuario_duplicado_falla() {
    let mut contrato = PrimerContrato::new();
    let acc = account(4);

    assert!(contrato.agregar_usuario_sistema(
        acc,
        "Sofía".to_string(),
        "Ibarra".to_string(),
        "Mitre 100".to_string(),
        "sofia@mail.com".to_string(),
        Rol::Vend,
    ).is_ok());

    let res = contrato.agregar_usuario_sistema(
        acc,
        "Sofía".to_string(),
        "Ibarra".to_string(),
        "Mitre 100".to_string(),
        "sofia@mail.com".to_string(),
        Rol::Vend,
    );

    assert!(res.is_err(), "Debe devolver error por usuario duplicado");
    assert_eq!(res.unwrap_err().mensaje(), "El usuario ya esta registrado.");
}

#[test]
fn modificar_rol_usuario_inexistente_falla() {
    let mut contrato = PrimerContrato::new();
    let acc = account(10);

    let res = contrato.modificar_rol(acc, Rol::Vend);

    assert!(res.is_err(), "Debe fallar porque el usuario no existe");
    assert_eq!(res.unwrap_err().mensaje(), "No se encontro el usuario.");
}

#[test]
fn modificar_rol_exitoso() {
    let mut contrato = PrimerContrato::new();
    let acc = account(11);

    assert!(contrato.agregar_usuario_sistema(
        acc,
        "Mario".to_string(),
        "Rossi".to_string(),
        "Calle Uno".to_string(),
        "mario@mail.com".to_string(),
        Rol::Comp,
    ).is_ok());

    let res = contrato.modificar_rol(acc, Rol::Vend);
    assert!(res.is_ok(), "El cambio de rol debería ser exitoso");

    let u = contrato.buscar_usuario(acc).unwrap();
    assert_eq!(u.rol, Rol::Vend, "El rol debe haberse actualizado a Vend");
}

#[test]
fn modificar_rol_invalido_se_rechaza() {
    let mut contrato = PrimerContrato::new();
    let acc = account(12);

    assert!(contrato.agregar_usuario_sistema(
        acc,
        "Lucía".to_string(),
        "Fernández".to_string(),
        "Calle Dos".to_string(),
        "lucia@mail.com".to_string(),
        Rol::Comp,
    ).is_ok());

    let res = contrato.modificar_rol(acc, Rol::Comp);
    if res.is_err() {
        assert_eq!(res.unwrap_err().mensaje(), "El usuario ya posee ese rol.");
    } else {
        let u = contrato.buscar_usuario(acc).unwrap();
        assert_eq!(u.rol, Rol::Comp);
    }
}

#[test]
fn cargar_producto_precio_cero_falla() {
    let mut contrato = PrimerContrato::new();
    let acc = account(20);

    contrato.agregar_usuario_sistema(
        acc,
        "Carlos".to_string(),
        "García".to_string(),
        "Dir".to_string(),
        "carlos@mail.com".to_string(),
        Rol::Vend,
    ).unwrap();

    let res = contrato.cargar_producto(
        acc,
        "ProductoX".to_string(),
        "Desc".to_string(),
        0,
        "Categoria".to_string(),
        10,
    );

    assert!(res.is_err());
    assert_eq!(res.unwrap_err().mensaje(), "Precio no valido");
}

#[test]
fn cargar_producto_stock_cero_falla() {
    let mut contrato = PrimerContrato::new();
    let acc = account(21);

    contrato.agregar_usuario_sistema(
        acc,
        "Marta".to_string(),
        "Lopez".to_string(),
        "Dir".to_string(),
        "marta@mail.com".to_string(),
        Rol::Vend,
    ).unwrap();

    let res = contrato.cargar_producto(
        acc,
        "ProductoY".to_string(),
        "Desc".to_string(),
        100,
        "Categoria".to_string(),
        0,
    );

    assert!(res.is_err());
    assert_eq!(res.unwrap_err().mensaje(), "Stock no valido");
}

#[test]
fn cargar_producto_usuario_inexistente_falla() {
    let mut contrato = PrimerContrato::new();
    let acc = account(22);

    let res = contrato.cargar_producto(
        acc,
        "Prod".to_string(),
        "Desc".to_string(),
        100,
        "Categoria".to_string(),
        5,
    );

    assert!(res.is_err());
    assert_eq!(res.unwrap_err().mensaje(), "No se encontro el usuario.");
}

#[test]
fn cargar_producto_usuario_no_vendedor_falla() {
    let mut contrato = PrimerContrato::new();
    let acc = account(23);

    contrato.agregar_usuario_sistema(
        acc,
        "Pepe".to_string(),
        "Suarez".to_string(),
        "Dir".to_string(),
        "pepe@mail.com".to_string(),
        Rol::Comp,
    ).unwrap();

    let res = contrato.cargar_producto(
        acc,
        "Prod".to_string(),
        "Desc".to_string(),
        200,
        "Categoria".to_string(),
        5,
    );

    assert!(res.is_err());
    assert_eq!(res.unwrap_err().mensaje(), "El usuario no tiene permisos para cargar productos. No es vendedor.");
}

#[test]
fn cargar_producto_exitoso_vendedor() {
    let mut contrato = PrimerContrato::new();
    let acc = account(24);

    contrato.agregar_usuario_sistema(
        acc,
        "Vero".to_string(),
        "Alvarez".to_string(),
        "Dir".to_string(),
        "vero@mail.com".to_string(),
        Rol::Vend,
    ).unwrap();

    let res = contrato.cargar_producto(
        acc,
        "ProductoZ".to_string(),
        "Descripcion Z".to_string(),
        500,
        "Categoria Z".to_string(),
        15,
    );

    assert!(res.is_ok(), "El producto debería cargarse correctamente");

    assert_eq!(contrato.get_dimension_logica(), 1);

    let almacenado = contrato.visualizar_productos_propios(acc).expect("No se guardó el producto");
    assert_eq!(almacenado[0], (1, 15), "Stock debe coincidir con el cargado");
}

#[test]
fn visualizar_productos_usuario_inexistente_falla() {
    let contrato = PrimerContrato::new();
    let acc = account(30);

    let res = contrato.visualizar_productos_propios(acc);

    assert!(res.is_err());
    assert_eq!(res.unwrap_err().mensaje(), "No se encontro el usuario.");
}

#[test]
fn visualizar_productos_usuario_comprador_falla() {
    let mut contrato = PrimerContrato::new();
    let acc = account(31);

    contrato.agregar_usuario_sistema(
        acc,
        "Juan".to_string(),
        "Comprador".to_string(),
        "Dir".to_string(),
        "juan@mail.com".to_string(),
        Rol::Comp,
    ).unwrap();

    let res = contrato.visualizar_productos_propios(acc);

    assert!(res.is_err());
    assert_eq!(res.unwrap_err().mensaje(), "El usuario es comprador.");
}

#[test]
fn visualizar_productos_vendedor_sin_productos_falla() {
    let mut contrato = PrimerContrato::new();
    let acc = account(32);

    contrato.agregar_usuario_sistema(
        acc,
        "Ana".to_string(),
        "Vendedora".to_string(),
        "Dir".to_string(),
        "ana@mail.com".to_string(),
        Rol::Vend,
    ).unwrap();

    let res = contrato.visualizar_productos_propios(acc);

    assert!(res.is_err());
    assert_eq!(res.unwrap_err().mensaje(), "El vendedor no tiene productos.");
}

#[test]
fn visualizar_productos_vendedor_con_productos() {
    let mut contrato = PrimerContrato::new();
    let acc = account(33);

    contrato.agregar_usuario_sistema(
        acc,
        "Pedro".to_string(),
        "Vendedor".to_string(),
        "Dir".to_string(),
        "pedro@mail.com".to_string(),
        Rol::Vend,
    ).unwrap();

    contrato.cargar_producto(
        acc,
        "Producto1".to_string(),
        "Desc".to_string(),
        100,
        "Categoria".to_string(),
        5,
    ).unwrap();

    let res = contrato.visualizar_productos_propios(acc);

    assert!(res.is_ok());
    let lista = res.unwrap();
    assert_eq!(lista.len(), 1);
    assert_eq!(lista[0].1, 5);
}

#[test]
fn visualizar_productos_ambos_con_productos() {
    let mut contrato = PrimerContrato::new();
    let acc = account(34);

    contrato.agregar_usuario_sistema(
        acc,
        "Lucia".to_string(),
        "Mixta".to_string(),
        "Dir".to_string(),
        "lucia@mail.com".to_string(),
        Rol::Ambos,
    ).unwrap();

    contrato.cargar_producto(
        acc,
        "Producto2".to_string(),
        "Desc".to_string(),
        150,
        "Categoria".to_string(),
        8,
    ).unwrap();

    let res = contrato.visualizar_productos_propios(acc);

    assert!(res.is_ok());
    let lista = res.unwrap();
    assert_eq!(lista.len(), 1);
    assert_eq!(lista[0].1, 8);
}

#[test]
fn crear_publicacion_usuario_inexistente_falla() {
    let mut contrato = PrimerContrato::new();
    let acc = account(40);

    let res = contrato.crear_publicacion(acc, vec![(1, 2)]);

    assert!(res.is_err());
    assert_eq!(res.unwrap_err().mensaje(), "No se encontro el usuario.");
}

#[test]
fn crear_publicacion_producto_cantidad_cero_falla() {
    let mut contrato = PrimerContrato::new();
    let acc = account(41);

    contrato.agregar_usuario_sistema(
        acc,
        "Luis".to_string(),
        "Vendedor".to_string(),
        "Dir".to_string(),
        "luis@mail.com".to_string(),
        Rol::Vend,
    ).unwrap();

    contrato.cargar_producto(
        acc,
        "Prod".to_string(),
        "Desc".to_string(),
        100,
        "Cat".to_string(),
        10,
    ).unwrap();

    let res = contrato.crear_publicacion(acc, vec![(1, 0)]);

    assert!(res.is_err());
    assert_eq!(res.unwrap_err().mensaje(), "Un producto tiene cantidades no validas.");
}

#[test]
fn crear_publicacion_producto_no_pertenece_falla() {
    let mut contrato = PrimerContrato::new();
    let acc1 = account(42);
    let acc2 = account(43);

    contrato.agregar_usuario_sistema(
        acc1,
        "Ana".to_string(),
        "Vend1".to_string(),
        "Dir".to_string(),
        "ana@mail.com".to_string(),
        Rol::Vend,
    ).unwrap();

    contrato.cargar_producto(
        acc1,
        "Prod".to_string(),
        "Desc".to_string(),
        100,
        "Cat".to_string(),
        5,
    ).unwrap();

    contrato.agregar_usuario_sistema(
        acc2,
        "Beto".to_string(),
        "Vend2".to_string(),
        "Dir".to_string(),
        "beto@mail.com".to_string(),
        Rol::Vend,
    ).unwrap();

    let res = contrato.crear_publicacion(acc2, vec![(1, 2)]);

    assert!(res.is_err());
    assert_eq!(res.unwrap_err().mensaje(), "El vendedor no posee ese producto.");
}

#[test]
fn crear_publicacion_sin_stock_falla() {
    let mut contrato = PrimerContrato::new();
    let acc = account(44);

    contrato.agregar_usuario_sistema(
        acc,
        "Clara".to_string(),
        "Vend".to_string(),
        "Dir".to_string(),
        "clara@mail.com".to_string(),
        Rol::Vend,
    ).unwrap();

    contrato.cargar_producto(
        acc,
        "Prod".to_string(),
        "Desc".to_string(),
        50,
        "Cat".to_string(),
        3,
    ).unwrap();

    let res = contrato.crear_publicacion(acc, vec![(1, 10)]);

    assert!(res.is_err());
    assert_eq!(res.unwrap_err().mensaje(), "No hay stock suficiente.");
}

#[test]
fn crear_publicacion_exitosa() {
    let mut contrato = PrimerContrato::new();
    let acc = account(45);

    contrato.agregar_usuario_sistema(
        acc,
        "Diego".to_string(),
        "Vend".to_string(),
        "Dir".to_string(),
        "diego@mail.com".to_string(),
        Rol::Vend,
    ).unwrap();

    contrato.cargar_producto(
        acc,
        "Prod".to_string(),
        "Desc".to_string(),
        200,
        "Cat".to_string(),
        5,
    ).unwrap();

    let res = contrato.crear_publicacion(acc, vec![(1, 2)]);
    assert!(res.is_ok());

    assert_eq!(contrato.get_publicaciones().len(), 1);

    let existencias = contrato.get_existencias();
    assert_eq!(existencias[0], 3); //Comprobar si se descuenta el stock del producto almacenado al crear la publicación
}

#[test]
fn visualizar_publicacion_inexistente_falla() {
    let contrato = PrimerContrato::new();

    let res = contrato.visualizar_productos_de_publicacion(1);

    assert!(res.is_err());
    assert_eq!(res.unwrap_err().mensaje(), "No se encontro la publicacion.");
}

#[test]
fn visualizar_publicacion_existente_ok() {
    let mut contrato = PrimerContrato::new();
    let acc = account(50);

    contrato.agregar_usuario_sistema(
        acc,
        "Laura".to_string(),
        "Vendedora".to_string(),
        "Dir".to_string(),
        "laura@mail.com".to_string(),
        Rol::Vend,
    ).unwrap();

    contrato.cargar_producto(
        acc,
        "Prod".to_string(),
        "Desc".to_string(),
        100,
        "Cat".to_string(),
        10,
    ).unwrap();

    contrato.crear_publicacion(acc, vec![(1, 2)]).unwrap();

    let res = contrato.visualizar_productos_de_publicacion(0);
    assert!(res.is_ok());

    let publicacion = res.unwrap();
    assert_eq!(publicacion.id_vendedor, acc);
    assert_eq!(publicacion.productos.len(), 1);
    assert_eq!(publicacion.productos[0].1, 2);
}

#[test]
fn visualizar_publicacion_id_inexistente_falla() {
    let mut contrato = PrimerContrato::new();
    let acc = account(51);

    contrato.agregar_usuario_sistema(
        acc,
        "Carlos".to_string(),
        "Vend".to_string(),
        "Dir".to_string(),
        "carlos@mail.com".to_string(),
        Rol::Vend,
    ).unwrap();

    contrato.cargar_producto(
        acc,
        "Prod".to_string(),
        "Desc".to_string(),
        50,
        "Cat".to_string(),
        5,
    ).unwrap();

    contrato.crear_publicacion(acc, vec![(1, 1)]).unwrap();

    let res = contrato.visualizar_productos_de_publicacion(99);

    assert!(res.is_err());
    assert_eq!(res.unwrap_err().mensaje(), "No se encontro la publicacion.");
}

   #[test]
fn crear_orden_exito() {
    let mut contrato = PrimerContrato::new();

    let vendedor = account(60);
    let comprador = account(61);

    contrato.agregar_usuario_sistema(
        vendedor,
        "Vendedor".to_string(),
        "V".to_string(),
        "Dir".to_string(),
        "v@mail.com".to_string(),
        Rol::Vend,
    ).unwrap();

    contrato.agregar_usuario_sistema(
        comprador,
        "Comprador".to_string(),
        "C".to_string(),
        "Dir".to_string(),
        "c@mail.com".to_string(),
        Rol::Comp,
    ).unwrap();

    contrato.cargar_producto(
        vendedor,
        "Producto".to_string(),
        "Desc".to_string(),
        100,
        "Cat".to_string(),
        10,
    ).unwrap();

    contrato.crear_publicacion(vendedor, vec![(1, 2)]).unwrap(); // ID de la publicación = 0;

    let resultado = contrato.crear_orden_de_compra(comprador, 0);
    assert!(resultado.is_ok());

    let historial = contrato.get_ordenes().len();
    assert_eq!(historial, 1);
}

#[test]
fn crear_orden_propia_falla() {
    let mut contrato = PrimerContrato::new();
    let usuario = account(62);

    contrato.agregar_usuario_sistema(
        usuario,
        "Mixto".to_string(),
        "U".to_string(),
        "Dir".to_string(),
        "m@mail.com".to_string(),
        Rol::Ambos,
    ).unwrap();

    contrato.cargar_producto(
        usuario,
        "Prod".to_string(),
        "Desc".to_string(),
        50,
        "Cat".to_string(),
        5,
    ).unwrap();

    contrato.crear_publicacion(usuario, vec![(1, 1)]).unwrap();

    let resultado = contrato.crear_orden_de_compra(usuario, 0);
    assert!(resultado.is_err());
    assert_eq!(resultado.unwrap_err().mensaje(), "El usuario no puede comprar sus propias publicaciones.");
}

#[test]
fn crear_orden_publicacion_comp_falla() {
    let mut contrato = PrimerContrato::new();
    let vendedor = account(63);
    let comprador = account(64);

    contrato.agregar_usuario_sistema(
        vendedor,
        "V".to_string(),
        "V".to_string(),
        "Dir".to_string(),
        "v@mail.com".to_string(),
        Rol::Vend,
    ).unwrap();

    contrato.agregar_usuario_sistema(
        comprador,
        "C".to_string(),
        "C".to_string(),
        "Dir".to_string(),
        "c@mail.com".to_string(),
        Rol::Comp,
    ).unwrap();

    contrato.cargar_producto(
        vendedor,
        "Prod".to_string(),
        "Desc".to_string(),
        30,
        "Cat".to_string(),
        5,
    ).unwrap();

    contrato.crear_publicacion(vendedor, vec![(1, 1)]).unwrap();

    contrato.modificar_rol(vendedor, Rol::Comp).unwrap();

    let resultado = contrato.crear_orden_de_compra(comprador, 0);
    assert!(resultado.is_err()); //El vendedor de la publicación cambió su rol a comprador. Debe anular sus publicaciones;
    assert_eq!(resultado.unwrap_err().mensaje(), "La publicacion ya no se encuentra disponible.");
}

#[test]
fn crear_orden_sin_stock_falla() {
    let mut contrato = PrimerContrato::new();
    let vendedor = account(65);
    let comprador = account(66);

    contrato.agregar_usuario_sistema(
        vendedor,
        "V".to_string(),
        "V".to_string(),
        "Dir".to_string(),
        "v@mail.com".to_string(),
        Rol::Vend,
    ).unwrap();

    contrato.agregar_usuario_sistema(
        comprador,
        "C".to_string(),
        "C".to_string(),
        "Dir".to_string(),
        "c@mail.com".to_string(),
        Rol::Comp,
    ).unwrap();

    contrato.cargar_producto(
        vendedor,
        "Prod".to_string(),
        "Desc".to_string(),
        20,
        "Cat".to_string(),
        1,
    ).unwrap();

    contrato.crear_publicacion(vendedor, vec![(1, 1)]).unwrap();

    // Otro comprador se lleva la unica unidad: la publicacion queda sin stock.
    let otro = account(69);
    contrato.agregar_usuario_sistema(
        otro,
        "O".to_string(),
        "O".to_string(),
        "Dir".to_string(),
        "o@mail.com".to_string(),
        Rol::Comp,
    ).unwrap();
    contrato.crear_orden_de_compra(otro, 0).unwrap();
    let publicacion = contrato.visualizar_productos_de_publicacion(0).unwrap();
    assert!(!publicacion.disponible);

    let resultado = contrato.crear_orden_de_compra(comprador, 0);
    assert!(resultado.is_err());
    assert_eq!(resultado.unwrap_err().mensaje(), "La publicacion ya no tiene stock");
}

#[test]
fn crear_orden_usuario_inexistente_falla() {
    let mut contrato = PrimerContrato::new();
    let vendedor = account(67);

    contrato.agregar_usuario_sistema(
        vendedor,
        "V".to_string(),
        "V".to_string(),
        "Dir".to_string(),
        "v@mail.com".to_string(),
        Rol::Vend,
    ).unwrap();

    contrato.cargar_producto(
        vendedor,
        "Prod".to_string(),
        "Desc".to_string(),
        15,
        "Cat".to_string(),
        2,
    ).unwrap();

    contrato.crear_publicacion(vendedor, vec![(1, 1)]).unwrap();

    let account_invalido: AccountId = [0x0; 32].into();

    let resultado = contrato.crear_orden_de_compra(account_invalido, 0);
    assert!(resultado.is_err());
}

#[test]
fn crear_orden_publicacion_inexistente_falla() {
    let mut contrato = PrimerContrato::new();
    let comprador = account(68);

    contrato.agregar_usuario_sistema(
        comprador,
        "C".to_string(),
        "C".to_string(),
        "Dir".to_string(),
        "c@mail.com".to_string(),
        Rol::Comp,
    ).unwrap();

    let id_pub_invalido = 999u32;
    let resultado = contrato.crear_orden_de_compra(comprador, id_pub_invalido);
    assert!(resultado.is_err());
}


#[test]
fn cancelar_compra_comprador_exito() {
    let mut contrato = PrimerContrato::new();
    let vendedor = account(100);
    let comprador = account(101);

    contrato.agregar_usuario_sistema(
        vendedor, "V".into(), "V".into(), "Dir".into(), "v@mail".into(), Rol::Vend
    ).unwrap();
    contrato.agregar_usuario_sistema(
        comprador, "C".into(), "C".into(), "Dir".into(), "c@mail".into(), Rol::Comp
    ).unwrap();

    contrato.cargar_producto(vendedor, "P".into(), "D".into(), 10, "cat".into(), 5).unwrap();
    contrato.crear_publicacion(vendedor, vec![(1, 2)]).unwrap(); // pub 0

    contrato.crear_orden_de_compra(comprador, 0).unwrap();

    let res = contrato.cancelar_comprar(comprador, 0);
    assert!(res.is_ok());

    let orden = contrato.buscar_orden(0).unwrap();
    assert!(orden.cancelacion.1, "El comprador debe haber marcado la cancelación");
    assert!(!orden.cancelacion.0, "El vendedor aún no debe haber marcado la cancelación");
    assert_eq!(orden.estado, EstadoCompra::Pendiente, "El estado permanece Pendiente hasta que ambas partes cancelen");
}

#[test]
fn cancelar_compra_vendedor_exito() {
    let mut contrato = PrimerContrato::new();
    let vendedor = account(102);
    let comprador = account(103);

    contrato.agregar_usuario_sistema(
        vendedor, "V".into(), "V".into(), "Dir".into(), "v@mail".into(), Rol::Vend
    ).unwrap();
    contrato.agregar_usuario_sistema(
        comprador, "C".into(), "C".into(), "Dir".into(), "c@mail".into(), Rol::Comp
    ).unwrap();

    contrato.cargar_producto(vendedor, "P".into(), "D".into(), 10, "cat".into(), 5).unwrap(); //5 productos alcemanados;
    contrato.crear_publicacion(vendedor, vec![(1, 2)]).unwrap(); //3 productos almcenados;

    contrato.crear_orden_de_compra(comprador, 0).unwrap(); //1 producto almacenado. (Restockeo automatico de la publicacion);

    contrato.cancelar_comprar(comprador, 0).unwrap();

    let res = contrato.cancelar_comprar(vendedor, 0); //3 productos almacenados;
    assert!(res.is_ok());

    let orden = contrato.buscar_orden(0).unwrap();
    assert!(orden.cancelacion.0 && orden.cancelacion.1, "Ambas partes deben haber marcado cancelación");

    let stock = contrato.get_existencias()[0];
    assert_eq!(stock, 3); //El stock que estaba en la publicación debe restaurse correctamente; (5 - 2 - 2 + 2) = 3;
}

#[test]
fn cancelar_compra_orden_no_existe_falla() {
    let mut contrato = PrimerContrato::new();
    let acc = account(104);

    contrato.agregar_usuario_sistema(
        acc, "U".into(), "U".into(), "Dir".into(), "u@mail".into(), Rol::Vend
    ).unwrap();

    let id_orden_invalido = 999u32;
    let res = contrato.cancelar_comprar(acc, id_orden_invalido);
    assert!(res.is_err());
    assert_eq!(res.unwrap_err().mensaje(), "No se encontro la orden.");
}

#[test]
fn cancelar_compra_estado_no_cancelable_falla() {
    let mut contrato = PrimerContrato::new();
    let vendedor = account(105);
    let comprador = account(106);

    contrato.agregar_usuario_sistema(vendedor, "V".into(), "V".into(), "D".into(), "v@mail".into(), Rol::Vend).unwrap();
    contrato.agregar_usuario_sistema(comprador, "C".into(), "C".into(), "D".into(), "c@mail".into(), Rol::Comp).unwrap();
    contrato.cargar_producto(vendedor, "P".into(), "D".into(), 10, "cat".into(), 3).unwrap();
    contrato.crear_publicacion(vendedor, vec![(1,1)]).unwrap();
    contrato.crear_orden_de_compra(comprador, 0).unwrap();

    contrato.enviar_compra(vendedor, 0).unwrap(); //La orden pasa al estado Enviado;

    let res = contrato.cancelar_comprar(comprador, 0);
    assert!(res.is_err()); //La orden tiene el estado "Enviado";
    assert_eq!(res.unwrap_err().mensaje(), "Ya no se puede cancelar la compra.");
}

#[test]
fn cancelar_compra_usuario_inexistente_falla() {
    let mut contrato = PrimerContrato::new();
    let id_orden = 0u32;
    let account_invalido: AccountId = [0x0; 32].into();

    let res = contrato.cancelar_comprar(account_invalido, id_orden);
    assert!(res.is_err());
    assert_eq!(res.unwrap_err().mensaje(), "No se encontro el usuario.");
}

#[test]
 fn priv_recibir_compra_exito() {
    let mut contrato = PrimerContrato::new();
    let vendedor = account(200);
    let comprador = account(201);

    contrato.agregar_usuario_sistema(
        vendedor, "V".into(), "V".into(), "Dir".into(), "v@mail".into(), Rol::Vend
    ).unwrap();
    contrato.agregar_usuario_sistema(
        comprador, "C".into(), "C".into(), "Dir".into(), "c@mail".into(), Rol::Comp
    ).unwrap();

    contrato.cargar_producto(vendedor, "P".into(), "D".into(), 10, "cat".into(), 3).unwrap();
    contrato.crear_publicacion(vendedor, vec![(1,1)]).unwrap();
    contrato.crear_orden_de_compra(comprador, 0).unwrap();

    contrato.enviar_compra(vendedor, 0).unwrap();

    let res = contrato.recibir_compra(comprador, 0);
    assert!(res.is_ok());

    let orden = contrato.buscar_orden(0).unwrap();
    assert_eq!(orden.estado, EstadoCompra::Recibido);
}

#[test]
fn priv_recibir_compra_usuario_no_encontrado_falla() {
    let mut contrato = PrimerContrato::new();
    let account_invalido: AccountId = [0x0; 32].into();
    let res = contrato.recibir_compra(account_invalido, 0);
    assert!(res.is_err());
    assert_eq!(res.unwrap_err().mensaje(), "No se encontro el usuario.");
}

#[test]
fn priv_recibir_compra_orden_no_encontrada_falla() {
    let mut contrato = PrimerContrato::new();
    let comprador = account(210);
    contrato.agregar_usuario_sistema(
        comprador, "C".into(), "C".into(), "Dir".into(), "c@mail".into(), Rol::Comp
    ).unwrap();

    let res = contrato.recibir_compra(comprador, 999);
    assert!(res.is_err());
    assert_eq!(res.unwrap_err().mensaje(), "No existe la orden buscada.");
}

#[test]
fn priv_recibir_compra_no_enviado_falla() {
    let mut contrato = PrimerContrato::new();
    let vendedor = account(220);
    let comprador = account(221);

    contrato.agregar_usuario_sistema(
        vendedor, "V".into(), "V".into(), "Dir".into(), "v@mail".into(), Rol::Vend
    ).unwrap();
    contrato.agregar_usuario_sistema(
        comprador, "C".into(), "C".into(), "Dir".into(), "c@mail".into(), Rol::Comp
    ).unwrap();

    contrato.cargar_producto(vendedor, "P".into(), "D".into(), 10, "cat".into(), 3).unwrap();
    contrato.crear_publicacion(vendedor, vec![(1,1)]).unwrap();
    contrato.crear_orden_de_compra(comprador, 0).unwrap();

    let res = contrato.recibir_compra(comprador, 0);
    assert!(res.is_err());
    assert_eq!(res.unwrap_err().mensaje(), "El producto todavia no fue enviado.");
}

#[test]
fn priv_recibir_compra_usuario_no_comprador_falla() {
    let mut contrato = PrimerContrato::new();
    let vendedor = account(230);
    let comprador = account(231);
    let otro = account(232);

    contrato.agregar_usuario_sistema(
        vendedor, "V".into(), "V".into(), "Dir".into(), "v@mail".into(), Rol::Vend
    ).unwrap();
    contrato.agregar_usuario_sistema(
        comprador, "C".into(), "C".into(), "Dir".into(), "c@mail".into(), Rol::Comp
    ).unwrap();
    contrato.agregar_usuario_sistema(
        otro, "O".into(), "O".into(), "Dir".into(), "o@mail".into(), Rol::Comp
    ).unwrap();

    contrato.cargar_producto(vendedor, "P".into(), "D".into(), 10, "cat".into(), 3).unwrap();
    contrato.crear_publicacion(vendedor, vec![(1,1)]).unwrap();
    contrato.crear_orden_de_compra(comprador, 0).unwrap();
    contrato.enviar_compra(vendedor, 0).unwrap();

    let res = contrato.recibir_compra(otro, 0);
    assert!(res.is_err()); //Otro usuario externo a la orden de la compra en cuestión no puede alterarla;
    assert_eq!(res.unwrap_err().mensaje(), "No se encontro la orden de compra.");
}

#[test]
fn priv_calificar_exito() {
    let mut contrato = PrimerContrato::new();
    let vendedor = account(150);
    let comprador = account(151);

    contrato.agregar_usuario_sistema(
        vendedor, "V".into(), "V".into(), "Dir".into(), "v@mail".into(), Rol::Vend
    ).unwrap();
    contrato.agregar_usuario_sistema(
        comprador, "C".into(), "C".into(), "Dir".into(), "c@mail".into(), Rol::Comp
    ).unwrap();

    contrato.cargar_producto(vendedor, "P".into(), "D".into(), 10, "cat".into(), 5).unwrap();
    contrato.crear_publicacion(vendedor, vec![(1,1)]).unwrap();
    contrato.crear_orden_de_compra(comprador, 0).unwrap();
    contrato.enviar_compra(vendedor, 0).unwrap();
    contrato.recibir_compra(comprador, 0).unwrap();

    let res = contrato.calificar(0, 5, comprador);
    assert!(res.is_ok());

    let vend = contrato.buscar_usuario(vendedor).unwrap();
    assert_eq!(vend.datos_vendedor.unwrap().reputacion_como_vendedor[0], 5);
}

#[test]
fn priv_calificar_valor_fuera_rango_falla() {
    let mut contrato = PrimerContrato::new();
    let vendedor = account(152);
    let comprador = account(153);

    contrato.agregar_usuario_sistema(
        vendedor, "V".into(), "V".into(), "Dir".into(), "v@mail".into(), Rol::Vend
    ).unwrap();
    contrato.agregar_usuario_sistema(
        comprador, "C".into(), "C".into(), "Dir".into(), "c@mail".into(), Rol::Comp
    ).unwrap();

    contrato.cargar_producto(vendedor, "P".into(), "D".into(), 10, "cat".into(), 5).unwrap();
    contrato.crear_publicacion(vendedor, vec![(1,1)]).unwrap();
    contrato.crear_orden_de_compra(comprador, 0).unwrap();
    contrato.enviar_compra(vendedor, 0).unwrap();
    contrato.recibir_compra(comprador, 0).unwrap();

    let res = contrato.calificar(0, 0, comprador);
    assert!(res.is_err());
    assert_eq!(res.unwrap_err().mensaje(), "El valor de la calificacion no es valido (1..5).");
}

#[test]
fn priv_calificar_duplicada_falla() {
    let mut contrato = PrimerContrato::new();
    let vendedor = account(154);
    let comprador = account(155);

    contrato.agregar_usuario_sistema(
        vendedor, "V".into(), "V".into(), "Dir".into(), "v@mail".into(), Rol::Vend
    ).unwrap();
    contrato.agregar_usuario_sistema(
        comprador, "C".into(), "C".into(), "Dir".into(), "c@mail".into(), Rol::Comp
    ).unwrap();

    contrato.cargar_producto(vendedor, "P".into(), "D".into(), 10, "cat".into(), 5).unwrap();
    contrato.crear_publicacion(vendedor, vec![(1,1)]).unwrap();
    contrato.crear_orden_de_compra(comprador, 0).unwrap();
    contrato.enviar_compra(vendedor, 0).unwrap();
    contrato.recibir_compra(comprador, 0).unwrap();

    contrato.calificar(0, 5, comprador).unwrap();
    let res2 = contrato.calificar(0, 4, comprador);
    assert!(res2.is_err());
    assert_eq!(res2.unwrap_err().mensaje(), "El usuario ya califico.");
}

#[test]
fn priv_calificar_orden_no_recibida_falla() {
    let mut contrato = PrimerContrato::new();
    let vendedor = account(156);
    let comprador = account(157);

    contrato.agregar_usuario_sistema(
        vendedor, "V".into(), "V".into(), "Dir".into(), "v@mail".into(), Rol::Vend
    ).unwrap();
    contrato.agregar_usuario_sistema(
        comprador, "C".into(), "C".into(), "Dir".into(), "c@mail".into(), Rol::Comp
    ).unwrap();

    contrato.cargar_producto(vendedor, "P".into(), "D".into(), 10, "cat".into(), 5).unwrap();
    contrato.crear_publicacion(vendedor, vec![(1,1)]).unwrap();
    contrato.crear_orden_de_compra(comprador, 0).unwrap();

    let res = contrato.calificar(0, 5, comprador);
    assert!(res.is_err());
}

#[test]
fn priv_calificar_usuario_no_encontrado_falla() {
    let mut contrato = PrimerContrato::new();
    let vendedor = account(158);
    let comprador = account(159);

    contrato.agregar_usuario_sistema(
        vendedor, "V".into(), "V".into(), "Dir".into(), "v@mail".into(), Rol::Vend
    ).unwrap();

    contrato.cargar_producto(vendedor, "P".into(), "D".into(), 10, "cat".into(), 5).unwrap();
    contrato.crear_publicacion(vendedor, vec![(1,1)]).unwrap();

    let account_invalido: AccountId = [0x0; 32].into();
    let res = contrato.calificar(0, 5, account_invalido);
    assert!(res.is_err());
    assert_eq!(res.unwrap_err().mensaje(), "No se encontro el usuario.");
}

#[test]
fn priv_calificar_usuario_no_participante_falla() {
    let mut contrato = PrimerContrato::new();
    let vendedor = account(160);
    let comprador = account(161);
    let otro = account(162);

    contrato.agregar_usuario_sistema(
        vendedor, "V".into(), "V".into(), "Dir".into(), "v@mail".into(), Rol::Vend
    ).unwrap();
    contrato.agregar_usuario_sistema(
        comprador, "C".into(), "C".into(), "Dir".into(), "c@mail".into(), Rol::Comp
    ).unwrap();
    contrato.agregar_usuario_sistema(
        otro, "O".into(), "O".into(), "Dir".into(), "o@mail".into(), Rol::Comp
    ).unwrap();

    contrato.cargar_producto(vendedor, "P".into(), "D".into(), 10, "cat".into(), 5).unwrap();
    contrato.crear_publicacion(vendedor, vec![(1,1)]).unwrap();
    contrato.crear_orden_de_compra(comprador, 0).unwrap();
    contrato.enviar_compra(vendedor, 0).unwrap();
    contrato.recibir_compra(comprador, 0).unwrap();

    let res = contrato.calificar(0, 4, otro);
    assert!(res.is_err());
}


#[test]
fn modificar_a_rol_ambos_sin_datos_previos() {
    let mut contrato = PrimerContrato::new();
    let usuario = account(200);

    contrato.agregar_usuario_sistema(
        usuario,
        "Nombre".to_string(),
        "Apellido".to_string(),
        "Dir".to_string(),
        "u@mail.com".to_string(),
        Rol::Comp,
    ).unwrap();

    let res = contrato.modificar_rol(usuario, Rol::Ambos);
    assert!(res.is_ok());

    let u = contrato.buscar_usuario(usuario).unwrap();
    assert!(u.datos_comprador.is_some());
    assert!(u.datos_vendedor.is_some());

    assert_eq!(u.datos_comprador.as_ref().unwrap().ordenes_de_compra.len(), 0);
    assert_eq!(u.datos_comprador.as_ref().unwrap().reputacion_como_comprador.len(), 0);
    assert_eq!(u.datos_vendedor.as_ref().unwrap().productos.len(), 0);
    assert_eq!(u.datos_vendedor.as_ref().unwrap().publicaciones.len(), 0);
    assert_eq!(u.datos_vendedor.as_ref().unwrap().reputacion_como_vendedor.len(), 0);
}

#[test]
fn modificar_a_rol_ambos_con_datos_comprador_previos() {
    let usuario = account(201);

    let mut u = Usuario::nuevo(
        usuario,
        "Comprador".to_string(),
        "Uno".to_string(),
        "Dir".to_string(),
        "c@mail.com".to_string(),
        Rol::Comp,
    );

    //Los datos del comprador no deben perderse si se modifica su rol;
    u.datos_comprador = Some(Comprador {
        ordenes_de_compra: vec![1, 2],
        reputacion_como_comprador: vec![5],
    });

    let res = u.modificar_rol(Rol::Ambos);
    assert!(res.is_ok());

    assert!(u.datos_comprador.is_some()); //Rol previo
    assert!(u.datos_vendedor.is_some()); //Rol nuevo (ambos)

    //Fijarse que efectivamente sus datos siguen estando
    assert_eq!(u.datos_comprador.as_ref().unwrap().ordenes_de_compra.len(), 2);
    assert_eq!(u.datos_comprador.as_ref().unwrap().reputacion_como_comprador.len(), 1);
}

#[test]
fn modificar_a_rol_ambos_con_datos_vendedor_previos() {
    let usuario = account(202);

    let mut u = Usuario::nuevo(
        usuario,
        "Vendedor".to_string(),
        "Dos".to_string(),
        "Dir".to_string(),
        "v@mail.com".to_string(),
        Rol::Vend,
    );

    u.datos_vendedor = Some(Vendedor {
        productos: vec![10],
        publicaciones: vec![5],
        reputacion_como_vendedor: vec![3],
    });

    let res = u.modificar_rol(Rol::Ambos);
    assert!(res.is_ok());

    assert!(u.datos_comprador.is_some());
    assert!(u.datos_vendedor.is_some());

    assert_eq!(u.datos_vendedor.as_ref().unwrap().productos.len(), 1);
    assert_eq!(u.datos_vendedor.as_ref().unwrap().publicaciones.len(), 1);
}

#[test]
fn modificar_a_rol_ambos_con_ambos_datos_existentes() {
    let mut contrato = PrimerContrato::new();
    let usuario = account(203);

    contrato.agregar_usuario_sistema(
        usuario,
        "Ambos".to_string(),
        "Tres".to_string(),
        "Dir".to_string(),
        "a@mail.com".to_string(),
        Rol::Ambos,
    ).unwrap();

    assert!(contrato.modificar_rol(usuario, Rol::Vend).is_ok());
    let res = contrato.modificar_rol(usuario, Rol::Ambos);
    assert!(res.is_ok());

    let u = contrato.buscar_usuario(usuario).unwrap();
    assert!(u.datos_comprador.is_some());
    assert!(u.datos_vendedor.is_some());
}

#[test]
fn enviar_compra_fallo_estado() {
    let mut instance = PrimerContrato::new();
    let vendedor = account(240);
    let comprador = account(241);

    instance.agregar_usuario_sistema(
        vendedor, "V".into(), "V".into(), "Dir".into(), "v@mail".into(), Rol::Vend
    ).unwrap();
    instance.agregar_usuario_sistema(
        comprador, "C".into(), "C".into(), "Dir".into(), "c@mail".into(), Rol::Comp
    ).unwrap();

    instance.cargar_producto(vendedor, "P".into(), "D".into(), 10, "cat".into(), 3).unwrap();
    instance.crear_publicacion(vendedor, vec![(1,1)]).unwrap();

    instance.crear_orden_de_compra(comprador, 0).unwrap();

    instance.enviar_compra(vendedor, 0).unwrap();

    let result = instance.enviar_compra(vendedor, 0);
    assert!(result.is_err());
    assert_eq!(result.unwrap_err().mensaje(), "El producto no puede ser enviado.".to_string());
}

    #[test]
    fn enviar_compra_fallo_orden_no_existe() {
        let mut instance = PrimerContrato::new();
        let vendedor = account(240);
        let comprador = account(241);

        instance.agregar_usuario_sistema(
            vendedor, "V".into(), "V".into(), "Dir".into(), "v@mail".into(), Rol::Vend
        ).unwrap();
        instance.agregar_usuario_sistema(
            comprador, "C".into(), "C".into(), "Dir".into(), "c@mail".into(), Rol::Comp
        ).unwrap();

        instance.cargar_producto(vendedor, "P".into(), "D".into(), 10, "cat".into(), 3).unwrap();
        instance.crear_publicacion(vendedor, vec![(1,1)]).unwrap();

        let result = instance.enviar_compra(vendedor, 999);

        assert!(result.is_err());
        assert_eq!(result.unwrap_err().mensaje(), "No existe la orden buscada.".to_string());
    }


#[test]
fn comprobar_rol_ambos_casos() {
    let usuario_ambos = account(1);
    let vendedor = account(2);
    let comprador = account(3);
    let _otro_usuario = account(4);

    let usuario = Usuario::nuevo(
        usuario_ambos,
        "Nombre".into(),
        "Apellido".into(),
        "Dir".into(),
        "u@mail".into(),
        Rol::Ambos,
    );

    let resultado_vendedor = usuario.comprobar_rol(usuario_ambos, comprador);
    assert_eq!(resultado_vendedor, Ok(Rol::Vend));

    let resultado_comprador = usuario.comprobar_rol(vendedor, usuario_ambos);
    assert_eq!(resultado_comprador, Ok(Rol::Comp));

    let resultado_error = usuario.comprobar_rol(vendedor, comprador);
    assert!(resultado_error.is_err());
    assert_eq!(resultado_error.unwrap_err().mensaje(), "El usuario no participa de la compra.".to_string());
}


#[test]
fn comprobar_rol_errores() {
    let mut instancia = PrimerContrato::new();
    let vendedor_real = account(1);
    let comprador_real = account(2);
    let otro_vendedor = account(3);
    let otro_comprador = account(4);

    let mut usuario_vendedor = Usuario::nuevo(
        vendedor_real,
        "Vendedor".to_string(),
        "Apellido".to_string(),
        "Dir".to_string(),
        "v@mail.com".to_string(),
        Rol::Vend,
    );

    let resultado_error_vendedor = usuario_vendedor.comprobar_rol(otro_vendedor, comprador_real);
    assert!(resultado_error_vendedor.is_err());
    assert_eq!(resultado_error_vendedor.unwrap_err().mensaje(), "El vendedor no posee esta publicacion.".to_string());

    let mut usuario_comprador = Usuario::nuevo(
        comprador_real,
        "Comprador".to_string(),
        "Apellido".to_string(),
        "Dir".to_string(),
        "c@mail.com".to_string(),
        Rol::Comp,
    );

    let resultado_error_comprador = usuario_comprador.comprobar_rol(vendedor_real, otro_comprador);
    assert!(resultado_error_comprador.is_err());
    assert_eq!(resultado_error_comprador.unwrap_err().mensaje(), "El usuario no posee esa orden de compra.".to_string());
}

#[test]
fn priv_calificar_comprador_exito() {
    let mut contrato = PrimerContrato::new();
    let comprador = account(250);

    contrato.agregar_usuario_sistema(
        comprador, "Comprador".into(), "C".into(), "Dir".into(), "c@mail".into(), Rol::Comp
    ).unwrap();

    contrato.calificar_comprador(comprador, 3).unwrap();

    let res = contrato.calificar_comprador(comprador, 5);
    assert!(res.is_ok());

    let u = contrato.buscar_usuario(comprador).unwrap();
    assert_eq!(u.datos_comprador.unwrap().reputacion_como_comprador.last().copied(), Some(5));
}

#[test]
fn priv_calificar_comprador_sin_datos_falla() {
    let mut contrato = PrimerContrato::new();
    let usuario = account(251);

    contrato.agregar_usuario_sistema(
        usuario, "Usuario".into(), "U".into(), "Dir".into(), "u@mail".into(), Rol::Vend
    ).unwrap();

    let res = contrato.calificar_comprador(usuario, 4);
    assert!(res.is_err());
    assert_eq!(res.unwrap_err().mensaje(), "El comprador no tiene datos cargados.".to_string());
}

#[test]
fn priv_calificar_comprador_usuario_no_encontrado_falla() {
    let mut contrato = PrimerContrato::new();
    let account_invalido: AccountId = [0x0; 32].into();

    let res = contrato.calificar_comprador(account_invalido, 4);
    assert!(res.is_err());
    assert_eq!(res.unwrap_err().mensaje(), "No se encontro el usuario.".to_string());
}


 #[test]
fn es_comprador_ambos_con_rol_comp_ok() {
    let id = AccountId::from([1u8; 32]);
    let usuario = Usuario::nuevo(
        id,
        "Nombre".into(),
        "Apellido".into(),
        "Dir".into(),
        "u@mail".into(),
        Rol::Comp,
    );
    assert!(usuario.es_comprador_ambos().is_ok());
}

#[test]
fn es_comprador_ambos_con_rol_ambos_ok() {
    let id = AccountId::from([2u8; 32]);
    let usuario = Usuario::nuevo(
        id,
        "Nombre".into(),
        "Apellido".into(),
        "Dir".into(),
        "u@mail".into(),
        Rol::Ambos,
    );
    assert!(usuario.es_comprador_ambos().is_ok());
}

#[test]
fn es_comprador_ambos_con_rol_vend_err() {
    let id = AccountId::from([3u8; 32]);
    let usuario = Usuario::nuevo(
        id,
        "Nombre".into(),
        "Apellido".into(),
        "Dir".into(),
        "u@mail".into(),
        Rol::Vend,
    );
    let res = usuario.es_comprador_ambos();
    assert!(res.is_err());
    assert_eq!(res.unwrap_err().mensaje(), "El usuario es vendedor.".to_string());
}


#[test]
fn calificar_segun_rol_else_califica_comprador_por_vendedor() {
    let mut contrato = PrimerContrato::new();
    let vendedor = account(240);
    let comprador = account(241);

    contrato.agregar_usuario_sistema(
        vendedor, "V".into(), "V".into(), "Dir".into(), "v@mail".into(), Rol::Vend
    ).unwrap();
    contrato.agregar_usuario_sistema(
        comprador, "C".into(), "C".into(), "Dir".into(), "c@mail".into(), Rol::Comp
    ).unwrap();

    contrato.cargar_producto(vendedor, "P".into(), "D".into(), 10, "cat".into(), 3).unwrap();
    contrato.crear_publicacion(vendedor, vec![(1,1)]).unwrap();
    contrato.crear_orden_de_compra(comprador, 0).unwrap();

    contrato.calificar_segun_rol(4u8, 0, vendedor).unwrap();

    let orden_actualizada = contrato.buscar_orden(0).unwrap();
    assert!(orden_actualizada.calificaciones.1, "La orden debe marcar calificación del comprador por parte del vendedor");

    let comprador_actual = contrato.buscar_usuario(comprador).unwrap();
    assert_eq!(comprador_actual.datos_comprador.unwrap().reputacion_como_comprador.last().copied(), Some(4));
}
