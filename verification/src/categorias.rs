//! Sales and ratings per product category.
//!
//! The statistics are gathered in two tables kept side by side: one adds up
//! the units sold in each category, the other adds up the scores that buyers
//! gave to the orders in which they were sold. Entry `i` of both tables
//! belongs to the same category.

use vstd::prelude::*;
use crate::error::ErrorMercado;
use crate::orden::{OrdenCompra, OrdenVista};
use crate::producto::{Producto, ProductoVista};
use crate::segundo_contrato::{es_venta, vistas_de_ordenes, SegundoContrato};

verus! {

/// The two tables as plain values.
pub struct Tablas {
    /// (category, units sold, mean score) per category.
    pub ventas: Seq<(Seq<char>, u32, u8)>,
    /// (category, sum of scores) per category.
    pub puntos: Seq<(Seq<char>, u32)>,
}

/// A table of sales as plain values.
pub open spec fn vista_de_ventas(ventas: Seq<(String, u32, u8)>) -> Seq<(Seq<char>, u32, u8)> {
    ventas.map_values(|t: (String, u32, u8)| (t.0@, t.1, t.2))
}

/// A table of scores as plain values.
pub open spec fn vista_de_puntos(puntos: Seq<(String, u32)>) -> Seq<(Seq<char>, u32)> {
    puntos.map_values(|t: (String, u32)| (t.0@, t.1))
}

/// The two tables of a computation, as plain values.
pub open spec fn tablas(ventas: Seq<(String, u32, u8)>, puntos: Seq<(String, u32)>) -> Tablas {
    Tablas { ventas: vista_de_ventas(ventas), puntos: vista_de_puntos(puntos) }
}

/// The products of a snapshot, as plain values.
pub open spec fn vistas_de_productos(productos: Seq<Producto>) -> Seq<ProductoVista> {
    productos.map_values(|p: Producto| p@)
}

/// Whether the table of sales has an entry for `categoria`.
pub open spec fn hay_ventas_de(ventas: Seq<(Seq<char>, u32, u8)>, categoria: Seq<char>) -> bool {
    exists|i: int| 0 <= i < ventas.len() && (#[trigger] ventas[i]).0 == categoria
}

/// The place of the first entry for `categoria` in the table of sales.
pub open spec fn lugar_en_ventas(ventas: Seq<(Seq<char>, u32, u8)>, categoria: Seq<char>) -> int {
    choose|i: int|
        0 <= i < ventas.len() && (#[trigger] ventas[i]).0 == categoria && forall|j: int|
            0 <= j < i ==> (#[trigger] ventas[j]).0 != categoria
}

/// Whether the table of scores has an entry for `categoria`.
pub open spec fn hay_puntos_de(puntos: Seq<(Seq<char>, u32)>, categoria: Seq<char>) -> bool {
    exists|i: int| 0 <= i < puntos.len() && (#[trigger] puntos[i]).0 == categoria
}

/// The place of the first entry for `categoria` in the table of scores.
pub open spec fn lugar_en_puntos(puntos: Seq<(Seq<char>, u32)>, categoria: Seq<char>) -> int {
    choose|i: int|
        0 <= i < puntos.len() && (#[trigger] puntos[i]).0 == categoria && forall|j: int|
            0 <= j < i ==> (#[trigger] puntos[j]).0 != categoria
}

/// Whether a product of the snapshot has identifier `id`.
pub open spec fn hay_producto(productos: Seq<ProductoVista>, id: u32) -> bool {
    exists|i: int| 0 <= i < productos.len() && (#[trigger] productos[i]).id == id
}

/// The place of the first product with identifier `id` in the snapshot.
pub open spec fn lugar_de_id(productos: Seq<ProductoVista>, id: u32) -> int {
    choose|i: int|
        0 <= i < productos.len() && (#[trigger] productos[i]).id == id && forall|j: int|
            0 <= j < i ==> (#[trigger] productos[j]).id != id
}

impl Tablas {
    /// Two empty tables.
    pub open spec fn vacias() -> Tablas {
        Tablas { ventas: Seq::empty(), puntos: Seq::empty() }
    }

    /// Entry `i` of both tables belongs to the same category.
    pub open spec fn en_sintonia(self) -> bool {
        &&& self.ventas.len() == self.puntos.len()
        &&& forall|i: int|
            0 <= i < self.ventas.len() ==> (#[trigger] self.ventas[i]).0 == self.puntos[i].0
    }

    /// The tables after `cantidad` more units of `categoria` are sold: its
    /// units go up by that many, or the category enters both tables with
    /// those units and no score.
    pub open spec fn con_venta(self, categoria: Seq<char>, cantidad: u32) -> Result<
        Tablas,
        ErrorMercado,
    > {
        if hay_ventas_de(self.ventas, categoria) {
            let lugar = lugar_en_ventas(self.ventas, categoria);
            let previa = self.ventas[lugar];
            if previa.1 + cantidad > u32::MAX {
                Err(ErrorMercado::DesbordeAlSumar)
            } else {
                Ok(
                    Tablas {
                        ventas: self.ventas.update(
                            lugar,
                            (previa.0, (previa.1 + cantidad) as u32, previa.2),
                        ),
                        ..self
                    },
                )
            }
        } else {
            Ok(
                Tablas {
                    ventas: self.ventas.push((categoria, cantidad, 0u8)),
                    puntos: self.puntos.push((categoria, 0u32)),
                },
            )
        }
    }

    /// The tables after the (product, quantity) pairs of one order are
    /// counted, in order: each pair whose product is in the snapshot adds its
    /// quantity to the units of the category of the product and, if the buyer
    /// rated the order, adds the score to that category.
    pub open spec fn con_lineas(
        self,
        productos: Seq<ProductoVista>,
        pares: Seq<(u32, u32)>,
        nota: Option<u8>,
    ) -> Result<Tablas, ErrorMercado>
        decreases pares.len(),
    {
        if pares.len() == 0 {
            Ok(self)
        } else {
            match self.con_lineas(productos, pares.drop_last(), nota) {
                Err(e) => Err(e),
                Ok(previas) => previas.con_linea(productos, pares.last(), nota),
            }
        }
    }

    /// The tables after one (product, quantity) pair is counted.
    pub open spec fn con_linea(
        self,
        productos: Seq<ProductoVista>,
        par: (u32, u32),
        nota: Option<u8>,
    ) -> Result<Tablas, ErrorMercado> {
        if !hay_producto(productos, par.0) {
            Ok(self)
        } else {
            let categoria = productos[lugar_de_id(productos, par.0)].categoria;
            match self.con_venta(categoria, par.1) {
                Err(e) => Err(e),
                Ok(contada) => match con_nota(contada.puntos, categoria, nota) {
                    Err(e) => Err(e),
                    Ok(puntos) => Ok(Tablas { puntos, ..contada }),
                },
            }
        }
    }

    /// The tables after every order is counted in turn.
    pub open spec fn con_ordenes(
        self,
        productos: Seq<ProductoVista>,
        ordenes: Seq<OrdenVista>,
    ) -> Result<Tablas, ErrorMercado>
        decreases ordenes.len(),
    {
        if ordenes.len() == 0 {
            Ok(self)
        } else {
            match self.con_ordenes(productos, ordenes.drop_last()) {
                Err(e) => Err(e),
                Ok(previas) => previas.con_lineas(
                    productos,
                    ordenes.last().info_publicacion.1,
                    ordenes.last().puntuacion_del_comprador,
                ),
            }
        }
    }

    /// Whether some category of the table of sales has no sale.
    pub open spec fn hay_categoria_sin_ventas(self) -> bool {
        exists|i: int| 0 <= i < self.ventas.len() && (#[trigger] self.ventas[i]).1 == 0
    }

    /// The table of sales with the mean score of each category filled in:
    /// its sum of scores divided by its units sold, rounded down, kept to its
    /// low eight bits. Fails when a category has no unit sold.
    pub open spec fn con_promedios(self) -> Result<Seq<(Seq<char>, u32, u8)>, ErrorMercado> {
        if self.hay_categoria_sin_ventas() {
            Err(ErrorMercado::ErrorAlDividir)
        } else {
            Ok(
                Seq::new(
                    self.ventas.len(),
                    |i: int|
                        (
                            self.ventas[i].0,
                            self.ventas[i].1,
                            ((self.puntos[i].1 / self.ventas[i].1) % 256) as u8,
                        ),
                ),
            )
        }
    }
}

/// The table of scores after the buyer's rating of an order, if there is
/// one, is added to `categoria`. A table without the category is left as it is.
pub open spec fn con_nota(
    puntos: Seq<(Seq<char>, u32)>,
    categoria: Seq<char>,
    nota: Option<u8>,
) -> Result<Seq<(Seq<char>, u32)>, ErrorMercado> {
    match nota {
        None => Ok(puntos),
        Some(valor) => {
            let lugar = lugar_en_puntos(puntos, categoria);
            if !hay_puntos_de(puntos, categoria) {
                Ok(puntos)
            } else if puntos[lugar].1 + valor > u32::MAX {
                Err(ErrorMercado::DesbordeAlSumar)
            } else {
                Ok(puntos.update(lugar, (puntos[lugar].0, (puntos[lugar].1 + valor) as u32)))
            }
        },
    }
}

/// For each category of a product in an order shipped or received: the
/// category, the units of it sold over all such orders, and the sum of the
/// scores that buyers gave to those orders divided by the units.
pub open spec fn estadisticas(
    ordenes: Seq<OrdenVista>,
    productos: Seq<ProductoVista>,
) -> Result<Seq<(Seq<char>, u32, u8)>, ErrorMercado> {
    match Tablas::vacias().con_ordenes(productos, ordenes.filter(|o: OrdenVista| es_venta(o))) {
        Err(e) => Err(e),
        Ok(contadas) => contadas.con_promedios(),
    }
}

/// The failure of a prefix of the pairs to be counted is the failure of the whole list.
pub proof fn lema_lineas_prefijo(
    inicial: Tablas,
    productos: Seq<ProductoVista>,
    pares: Seq<(u32, u32)>,
    nota: Option<u8>,
    i: int,
)
    requires
        0 <= i <= pares.len(),
        inicial.con_lineas(productos, pares.take(i), nota).is_err(),
    ensures
        inicial.con_lineas(productos, pares, nota) == inicial.con_lineas(
            productos,
            pares.take(i),
            nota,
        ),
    decreases pares.len() - i,
{
    if i < pares.len() {
        assert(pares.take(i + 1).drop_last() =~= pares.take(i));
        lema_lineas_prefijo(inicial, productos, pares, nota, i + 1);
    } else {
        assert(pares.take(i) =~= pares);
    }
}

/// The failure of a prefix of the orders to be counted is the failure of the whole list.
pub proof fn lema_ordenes_prefijo(
    inicial: Tablas,
    productos: Seq<ProductoVista>,
    ordenes: Seq<OrdenVista>,
    i: int,
)
    requires
        0 <= i <= ordenes.len(),
        inicial.con_ordenes(productos, ordenes.take(i)).is_err(),
    ensures
        inicial.con_ordenes(productos, ordenes) == inicial.con_ordenes(productos, ordenes.take(i)),
    decreases ordenes.len() - i,
{
    if i < ordenes.len() {
        assert(ordenes.take(i + 1).drop_last() =~= ordenes.take(i));
        lema_ordenes_prefijo(inicial, productos, ordenes, i + 1);
    } else {
        assert(ordenes.take(i) =~= ordenes);
    }
}

/// A table of scores that has a category has a first entry for it.
pub proof fn lema_primer_lugar_en_puntos(
    puntos: Seq<(Seq<char>, u32)>,
    categoria: Seq<char>,
    k: int,
)
    requires
        0 <= k < puntos.len(),
        puntos[k].0 == categoria,
    ensures
        0 <= lugar_en_puntos(puntos, categoria) <= k,
        puntos[lugar_en_puntos(puntos, categoria)].0 == categoria,
    decreases k,
{
    if exists|j: int| 0 <= j < k && (#[trigger] puntos[j]).0 == categoria {
        let j = choose|j: int| 0 <= j < k && (#[trigger] puntos[j]).0 == categoria;
        lema_primer_lugar_en_puntos(puntos, categoria, j);
    } else {
        assert(forall|j: int| 0 <= j < k ==> (#[trigger] puntos[j]).0 != categoria);
        let elegido = lugar_en_puntos(puntos, categoria);
        if elegido > k {
            assert(puntos[k].0 != categoria);
        }
    }
}

/// Adding a score keeps the two tables in step.
pub proof fn lema_nota_en_sintonia(previas: Tablas, categoria: Seq<char>, nota: Option<u8>)
    requires
        previas.en_sintonia(),
        con_nota(previas.puntos, categoria, nota) is Ok,
    ensures
        (Tablas {
            puntos: con_nota(previas.puntos, categoria, nota).unwrap(),
            ..previas
        }).en_sintonia(),
{
    let nuevas = Tablas { puntos: con_nota(previas.puntos, categoria, nota).unwrap(), ..previas };
    if hay_puntos_de(previas.puntos, categoria) {
        let k = choose|k: int|
            0 <= k < previas.puntos.len() && (#[trigger] previas.puntos[k]).0 == categoria;
        lema_primer_lugar_en_puntos(previas.puntos, categoria, k);
    }
    assert forall|i: int| 0 <= i < nuevas.ventas.len() implies (#[trigger] nuevas.ventas[i]).0
        == nuevas.puntos[i].0 by {
        assert(previas.ventas[i].0 == previas.puntos[i].0);
    }
}

/// The place of the first entry for `categoria` in the table of sales, if any.
fn buscar_en_ventas(
    ventas: &Vec<(String, u32, u8)>,
    categoria: &String,
) -> (lugar: Option<usize>)
    ensures
        match lugar {
            Some(i) => hay_ventas_de(vista_de_ventas(ventas@), categoria@) && i
                == lugar_en_ventas(vista_de_ventas(ventas@), categoria@) && i < ventas@.len(),
            None => !hay_ventas_de(vista_de_ventas(ventas@), categoria@),
        },
{
    let ghost vista = vista_de_ventas(ventas@);
    let mut i: usize = 0;
    while i < ventas.len()
        invariant
            i <= ventas.len(),
            vista == vista_de_ventas(ventas@),
            forall|j: int| 0 <= j < i ==> (#[trigger] vista[j]).0 != categoria@,
        decreases ventas.len() - i,
    {
        if ventas[i].0 == *categoria {
            proof {
                assert(vista[i as int].0 == categoria@);
                let elegido = lugar_en_ventas(vista, categoria@);
                if elegido < i {
                    assert(vista[elegido].0 != categoria@);
                }
                if i < elegido {
                    assert(vista[i as int].0 != categoria@);
                }
            }
            return Some(i);
        }
        proof {
            assert(vista[i as int].0 == ventas@[i as int].0@);
        }
        i += 1;
    }
    None
}

/// The place of the first entry for `categoria` in the table of scores, if any.
fn buscar_en_puntos(puntos: &Vec<(String, u32)>, categoria: &String) -> (lugar: Option<usize>)
    ensures
        match lugar {
            Some(i) => hay_puntos_de(vista_de_puntos(puntos@), categoria@) && i
                == lugar_en_puntos(vista_de_puntos(puntos@), categoria@) && i < puntos@.len(),
            None => !hay_puntos_de(vista_de_puntos(puntos@), categoria@),
        },
{
    let ghost vista = vista_de_puntos(puntos@);
    let mut i: usize = 0;
    while i < puntos.len()
        invariant
            i <= puntos.len(),
            vista == vista_de_puntos(puntos@),
            forall|j: int| 0 <= j < i ==> (#[trigger] vista[j]).0 != categoria@,
        decreases puntos.len() - i,
    {
        if puntos[i].0 == *categoria {
            proof {
                assert(vista[i as int].0 == categoria@);
                let elegido = lugar_en_puntos(vista, categoria@);
                if elegido < i {
                    assert(vista[elegido].0 != categoria@);
                }
                if i < elegido {
                    assert(vista[i as int].0 != categoria@);
                }
            }
            return Some(i);
        }
        proof {
            assert(vista[i as int].0 == puntos@[i as int].0@);
        }
        i += 1;
    }
    None
}

/// The place of the first product with identifier `id` in the snapshot, if any.
fn buscar_producto(productos: &Vec<Producto>, id: u32) -> (lugar: Option<usize>)
    ensures
        match lugar {
            Some(i) => hay_producto(vistas_de_productos(productos@), id) && i == lugar_de_id(
                vistas_de_productos(productos@),
                id,
            ) && i < productos@.len(),
            None => !hay_producto(vistas_de_productos(productos@), id),
        },
{
    let ghost vista = vistas_de_productos(productos@);
    let mut i: usize = 0;
    while i < productos.len()
        invariant
            i <= productos.len(),
            vista == vistas_de_productos(productos@),
            forall|j: int| 0 <= j < i ==> (#[trigger] vista[j]).id != id,
        decreases productos.len() - i,
    {
        if productos[i].id == id {
            proof {
                assert(vista[i as int].id == id);
                let elegido = lugar_de_id(vista, id);
                if elegido < i {
                    assert(vista[elegido].id != id);
                }
                if i < elegido {
                    assert(vista[i as int].id != id);
                }
            }
            return Some(i);
        }
        proof {
            assert(vista[i as int].id == productos@[i as int].id);
        }
        i += 1;
    }
    None
}

/// A copy of a table of sales.
fn copiar_ventas(ventas: &Vec<(String, u32, u8)>) -> (copia: Vec<(String, u32, u8)>)
    ensures
        copia@ == ventas@,
{
    let mut copia: Vec<(String, u32, u8)> = Vec::new();
    let mut i: usize = 0;
    while i < ventas.len()
        invariant
            i <= ventas.len(),
            copia@ == ventas@.take(i as int),
        decreases ventas.len() - i,
    {
        let entrada = (ventas[i].0.clone(), ventas[i].1, ventas[i].2);
        copia.push(entrada);
        proof {
            assert(copia@ =~= ventas@.take(i + 1));
        }
        i += 1;
    }
    proof {
        assert(ventas@.take(i as int) =~= ventas@);
    }
    copia
}

/// A copy of a table of scores.
fn copiar_puntos(puntos: &Vec<(String, u32)>) -> (copia: Vec<(String, u32)>)
    ensures
        copia@ == puntos@,
{
    let mut copia: Vec<(String, u32)> = Vec::new();
    let mut i: usize = 0;
    while i < puntos.len()
        invariant
            i <= puntos.len(),
            copia@ == puntos@.take(i as int),
        decreases puntos.len() - i,
    {
        let entrada = (puntos[i].0.clone(), puntos[i].1);
        copia.push(entrada);
        proof {
            assert(copia@ =~= puntos@.take(i + 1));
        }
        i += 1;
    }
    proof {
        assert(puntos@.take(i as int) =~= puntos@);
    }
    copia
}

impl SegundoContrato {
    /// Counts `cantidad` more units sold in `categoria`. On failure both
    /// tables are left as they were.
    pub fn contar_categoria(
        &self,
        categoria: String,
        cantidad: u32,
        vector_categorias: &mut Vec<(String, u32, u8)>,
        vector_puntuacion_total: &mut Vec<(String, u32)>,
    ) -> (resultado: Result<(), ErrorMercado>)
        requires
            tablas(old(vector_categorias)@, old(vector_puntuacion_total)@).en_sintonia(),
        ensures
            tablas(final(vector_categorias)@, final(vector_puntuacion_total)@).en_sintonia(),
            match resultado {
                Ok(()) => Ok::<Tablas, ErrorMercado>(
                    tablas(final(vector_categorias)@, final(vector_puntuacion_total)@),
                ),
                Err(e) => Err(e),
            } == tablas(old(vector_categorias)@, old(vector_puntuacion_total)@).con_venta(
                categoria@,
                cantidad,
            ),
            resultado is Err ==> final(vector_categorias)@ == old(vector_categorias)@
                && final(vector_puntuacion_total)@ == old(vector_puntuacion_total)@,
    {
        let ghost previas = tablas(vector_categorias@, vector_puntuacion_total@);
        match buscar_en_ventas(vector_categorias, &categoria) {
            Some(pos) => {
                let cuenta = vector_categorias[pos].1;
                if cantidad > u32::MAX - cuenta {
                    return Err(ErrorMercado::DesbordeAlSumar);
                }
                vector_categorias[pos].1 = cuenta + cantidad;
                proof {
                    let nuevas = tablas(vector_categorias@, vector_puntuacion_total@);
                    assert(nuevas.ventas =~= previas.ventas.update(
                        pos as int,
                        (
                            previas.ventas[pos as int].0,
                            (cuenta + cantidad) as u32,
                            previas.ventas[pos as int].2,
                        ),
                    ));
                }
            },
            None => {
                vector_categorias.push((categoria.clone(), cantidad, 0));
                vector_puntuacion_total.push((categoria, 0));
                proof {
                    let nuevas = tablas(vector_categorias@, vector_puntuacion_total@);
                    assert(nuevas.ventas =~= previas.ventas.push((categoria@, cantidad, 0u8)));
                    assert(nuevas.puntos =~= previas.puntos.push((categoria@, 0u32)));
                }
            },
        }
        Ok(())
    }

    /// Adds the buyer's rating of an order, if there is one, to the scores of
    /// `categoria`. On failure the table is left as it was.
    pub fn contar_puntuacion(
        &self,
        categoria: String,
        vector_puntuacion_total: &mut Vec<(String, u32)>,
        puntuacion: Option<u8>,
    ) -> (resultado: Result<(), ErrorMercado>)
        ensures
            match resultado {
                Ok(()) => Ok::<Seq<(Seq<char>, u32)>, ErrorMercado>(
                    vista_de_puntos(final(vector_puntuacion_total)@),
                ),
                Err(e) => Err(e),
            } == con_nota(vista_de_puntos(old(vector_puntuacion_total)@), categoria@, puntuacion),
            resultado is Err ==> final(vector_puntuacion_total)@ == old(vector_puntuacion_total)@,
    {
        let ghost previos = vista_de_puntos(vector_puntuacion_total@);
        match puntuacion {
            Some(nota) => {
                let pos = match buscar_en_puntos(vector_puntuacion_total, &categoria) {
                    Some(pos) => pos,
                    None => {
                        return Ok(());
                    },
                };
                let total = vector_puntuacion_total[pos].1;
                if nota as u32 > u32::MAX - total {
                    return Err(ErrorMercado::DesbordeAlSumar);
                }
                vector_puntuacion_total[pos].1 = total + nota as u32;
                proof {
                    assert(vista_de_puntos(vector_puntuacion_total@) =~= previos.update(
                        pos as int,
                        (previos[pos as int].0, (total + nota) as u32),
                    ));
                }
                Ok(())
            },
            None => Ok(()),
        }
    }

    /// Counts the (product, quantity) pairs of one order: each pair whose
    /// product is in the snapshot adds its quantity to the units of the
    /// category of the product and, if the buyer rated the order, adds the
    /// score to that category. On failure both tables are left as they were.
    pub fn procesar_categorias(
        &self,
        productos: &Vec<Producto>,
        vector_categorias: &mut Vec<(String, u32, u8)>,
        orden: OrdenCompra,
        vector_puntuacion_total: &mut Vec<(String, u32)>,
    ) -> (resultado: Result<(), ErrorMercado>)
        requires
            tablas(old(vector_categorias)@, old(vector_puntuacion_total)@).en_sintonia(),
        ensures
            tablas(final(vector_categorias)@, final(vector_puntuacion_total)@).en_sintonia(),
            match resultado {
                Ok(()) => Ok::<Tablas, ErrorMercado>(
                    tablas(final(vector_categorias)@, final(vector_puntuacion_total)@),
                ),
                Err(e) => Err(e),
            } == tablas(old(vector_categorias)@, old(vector_puntuacion_total)@).con_lineas(
                vistas_de_productos(productos@),
                orden@.info_publicacion.1,
                orden@.puntuacion_del_comprador,
            ),
            resultado is Err ==> final(vector_categorias)@ == old(vector_categorias)@
                && final(vector_puntuacion_total)@ == old(vector_puntuacion_total)@,
    {
        let ghost inicial = tablas(vector_categorias@, vector_puntuacion_total@);
        let ghost catalogo = vistas_de_productos(productos@);
        let pares = &orden.info_publicacion.1;
        let nota = orden.puntuacion_del_comprador;
        let mut categorias = copiar_ventas(vector_categorias);
        let mut puntuaciones = copiar_puntos(vector_puntuacion_total);
        let mut i: usize = 0;
        while i < pares.len()
            invariant
                i <= pares.len(),
                pares@ == orden@.info_publicacion.1,
                nota == orden@.puntuacion_del_comprador,
                catalogo == vistas_de_productos(productos@),
                inicial == tablas(vector_categorias@, vector_puntuacion_total@),
                inicial.en_sintonia(),
                vector_categorias@ == old(vector_categorias)@,
                vector_puntuacion_total@ == old(vector_puntuacion_total)@,
                tablas(categorias@, puntuaciones@).en_sintonia(),
                inicial.con_lineas(catalogo, pares@.take(i as int), nota) == Ok::<
                    Tablas,
                    ErrorMercado,
                >(tablas(categorias@, puntuaciones@)),
            decreases pares.len() - i,
        {
            let par = pares[i];
            let ghost previas = tablas(categorias@, puntuaciones@);
            proof {
                assert(pares@.take(i + 1).drop_last() =~= pares@.take(i as int));
                assert(pares@.take(i + 1).last() == par);
                assert(inicial.con_lineas(catalogo, pares@.take(i + 1), nota)
                    == previas.con_linea(catalogo, par, nota));
            }
            match self.contar_linea(productos, categorias, puntuaciones, par, nota) {
                Ok((contadas, puntuadas)) => {
                    categorias = contadas;
                    puntuaciones = puntuadas;
                },
                Err(e) => {
                    proof {
                        lema_lineas_prefijo(inicial, catalogo, pares@, nota, i + 1);
                    }
                    return Err(e);
                },
            }
            i += 1;
        }
        proof {
            assert(pares@.take(i as int) =~= pares@);
        }
        *vector_categorias = categorias;
        *vector_puntuacion_total = puntuaciones;
        Ok(())
    }

    /// Counts one (product, quantity) pair: the quantity for the category of
    /// the product and, if the buyer rated the order, the score for that
    /// category.
    fn contar_linea(
        &self,
        productos: &Vec<Producto>,
        vector_categorias: Vec<(String, u32, u8)>,
        vector_puntuacion_total: Vec<(String, u32)>,
        par: (u32, u32),
        nota: Option<u8>,
    ) -> (resultado: Result<(Vec<(String, u32, u8)>, Vec<(String, u32)>), ErrorMercado>)
        requires
            tablas(vector_categorias@, vector_puntuacion_total@).en_sintonia(),
        ensures
            match resultado {
                Ok(nuevas) => Ok::<Tablas, ErrorMercado>(tablas(nuevas.0@, nuevas.1@)),
                Err(e) => Err(e),
            } == tablas(vector_categorias@, vector_puntuacion_total@).con_linea(
                vistas_de_productos(productos@),
                par,
                nota,
            ),
            resultado is Ok ==> tablas(resultado.unwrap().0@, resultado.unwrap().1@).en_sintonia(),
    {
        let mut categorias = vector_categorias;
        let mut puntuaciones = vector_puntuacion_total;
        match buscar_producto(productos, par.0) {
            Some(pos) => {
                let categoria = productos[pos].categoria.clone();
                proof {
                    assert(vistas_de_productos(productos@)[pos as int].categoria == categoria@);
                }
                match self.contar_categoria(
                    categoria.clone(),
                    par.1,
                    &mut categorias,
                    &mut puntuaciones,
                ) {
                    Ok(()) => {},
                    Err(e) => {
                        return Err(e);
                    },
                }
                let ghost contadas = tablas(categorias@, puntuaciones@);
                match self.contar_puntuacion(categoria, &mut puntuaciones, nota) {
                    Ok(()) => {},
                    Err(e) => {
                        return Err(e);
                    },
                }
                proof {
                    let nuevas = tablas(categorias@, puntuaciones@);
                    assert(nuevas.ventas == contadas.ventas);
                    assert(nuevas.puntos == con_nota(contadas.puntos, categoria@, nota).unwrap());
                    assert(nuevas == (Tablas { puntos: nuevas.puntos, ..contadas }));
                    lema_nota_en_sintonia(contadas, categoria@, nota);
                }
                Ok((categorias, puntuaciones))
            },
            None => Ok((categorias, puntuaciones)),
        }
    }

    /// Counts the pairs of every order in turn. On failure both tables
    /// are left as they were.
    pub fn total_de_ventas_categorias(
        &self,
        ordenes: Vec<OrdenCompra>,
        productos: Vec<Producto>,
        vector_categorias: &mut Vec<(String, u32, u8)>,
        vector_puntuacion_total: &mut Vec<(String, u32)>,
    ) -> (resultado: Result<(), ErrorMercado>)
        requires
            tablas(old(vector_categorias)@, old(vector_puntuacion_total)@).en_sintonia(),
        ensures
            tablas(final(vector_categorias)@, final(vector_puntuacion_total)@).en_sintonia(),
            match resultado {
                Ok(()) => Ok::<Tablas, ErrorMercado>(
                    tablas(final(vector_categorias)@, final(vector_puntuacion_total)@),
                ),
                Err(e) => Err(e),
            } == tablas(old(vector_categorias)@, old(vector_puntuacion_total)@).con_ordenes(
                vistas_de_productos(productos@),
                vistas_de_ordenes(ordenes@),
            ),
            resultado is Err ==> final(vector_categorias)@ == old(vector_categorias)@
                && final(vector_puntuacion_total)@ == old(vector_puntuacion_total)@,
    {
        let ghost inicial = tablas(vector_categorias@, vector_puntuacion_total@);
        let ghost catalogo = vistas_de_productos(productos@);
        let ghost todas = vistas_de_ordenes(ordenes@);
        let mut categorias = copiar_ventas(vector_categorias);
        let mut puntuaciones = copiar_puntos(vector_puntuacion_total);
        let mut i: usize = 0;
        while i < ordenes.len()
            invariant
                i <= ordenes.len(),
                catalogo == vistas_de_productos(productos@),
                todas == vistas_de_ordenes(ordenes@),
                inicial == tablas(vector_categorias@, vector_puntuacion_total@),
                inicial.en_sintonia(),
                vector_categorias@ == old(vector_categorias)@,
                vector_puntuacion_total@ == old(vector_puntuacion_total)@,
                tablas(categorias@, puntuaciones@).en_sintonia(),
                inicial.con_ordenes(catalogo, todas.take(i as int)) == Ok::<Tablas, ErrorMercado>(
                    tablas(categorias@, puntuaciones@),
                ),
            decreases ordenes.len() - i,
        {
            proof {
                assert(todas.take(i + 1).drop_last() =~= todas.take(i as int));
                assert(todas.take(i + 1).last() == ordenes@[i as int]@);
            }
            let orden = ordenes[i].copiar();
            match self.procesar_categorias(&productos, &mut categorias, orden, &mut puntuaciones) {
                Ok(()) => {},
                Err(e) => {
                    proof {
                        assert(inicial.con_ordenes(catalogo, todas.take(i + 1)).is_err());
                        lema_ordenes_prefijo(inicial, catalogo, todas, i + 1);
                    }
                    return Err(e);
                },
            }
            i += 1;
        }
        proof {
            assert(todas.take(i as int) =~= todas);
        }
        *vector_categorias = categorias;
        *vector_puntuacion_total = puntuaciones;
        Ok(())
    }

    /// Fills in the mean score of each category: its sum of scores divided
    /// by its units sold. Fails, changing nothing, when a category has no
    /// unit sold.
    pub fn calificacion_promedio_categorias(
        &self,
        vector_categorias: &mut Vec<(String, u32, u8)>,
        vector_puntuacion_total: Vec<(String, u32)>,
    ) -> (resultado: Result<(), ErrorMercado>)
        requires
            tablas(old(vector_categorias)@, vector_puntuacion_total@).en_sintonia(),
        ensures
            match resultado {
                Ok(()) => Ok::<Seq<(Seq<char>, u32, u8)>, ErrorMercado>(
                    vista_de_ventas(final(vector_categorias)@),
                ),
                Err(e) => Err(e),
            } == tablas(old(vector_categorias)@, vector_puntuacion_total@).con_promedios(),
            resultado is Err ==> final(vector_categorias)@ == old(vector_categorias)@,
    {
        let ghost inicial = tablas(vector_categorias@, vector_puntuacion_total@);
        let n = vector_categorias.len();
        proof {
            assert(inicial.ventas.len() == n);
            assert(inicial.puntos.len() == vector_puntuacion_total@.len());
        }
        let mut i: usize = 0;
        while i < n
            invariant
                i <= n,
                n == vector_categorias@.len(),
                inicial == tablas(vector_categorias@, vector_puntuacion_total@),
                vector_categorias@ == old(vector_categorias)@,
                forall|j: int| 0 <= j < i ==> (#[trigger] inicial.ventas[j]).1 != 0,
            decreases n - i,
        {
            if vector_categorias[i].1 == 0 {
                proof {
                    assert(inicial.ventas[i as int].1 == 0);
                }
                return Err(ErrorMercado::ErrorAlDividir);
            }
            proof {
                assert(inicial.ventas[i as int].1 == vector_categorias@[i as int].1);
            }
            i += 1;
        }
        proof {
            assert(!inicial.hay_categoria_sin_ventas());
        }
        let ghost promediadas = inicial.con_promedios().unwrap();
        let mut k: usize = 0;
        while k < n
            invariant
                k <= n,
                n == vector_categorias@.len(),
                n == vector_puntuacion_total@.len(),
                n == old(vector_categorias)@.len(),
                inicial == tablas(old(vector_categorias)@, vector_puntuacion_total@),
                !inicial.hay_categoria_sin_ventas(),
                promediadas == inicial.con_promedios().unwrap(),
                forall|j: int|
                    0 <= j < k ==> vista_de_ventas(vector_categorias@)[j]
                        == #[trigger] promediadas[j],
                forall|j: int|
                    k <= j < n ==> #[trigger] vector_categorias@[j] == old(vector_categorias)@[j],
            decreases n - k,
        {
            let cantidad = vector_categorias[k].1;
            let total = vector_puntuacion_total[k].1;
            let ghost previas = vector_categorias@;
            proof {
                assert(previas[k as int] == old(vector_categorias)@[k as int]);
                assert(inicial.ventas[k as int] == (
                    old(vector_categorias)@[k as int].0@,
                    old(vector_categorias)@[k as int].1,
                    old(vector_categorias)@[k as int].2,
                ));
                assert(inicial.puntos[k as int].1 == total);
                assert(inicial.ventas[k as int].1 != 0);
            }
            let promedio = total / cantidad;
            vector_categorias[k].2 = (promedio % 256) as u8;
            proof {
                assert forall|j: int| 0 <= j < k + 1 implies vista_de_ventas(
                    vector_categorias@,
                )[j] == #[trigger] promediadas[j] by {
                    if j < k {
                        assert(vector_categorias@[j] == previas[j]);
                        assert(vista_de_ventas(previas)[j] == promediadas[j]);
                    }
                }
                assert forall|j: int| k + 1 <= j < n implies #[trigger] vector_categorias@[j]
                    == old(vector_categorias)@[j] by {
                    assert(vector_categorias@[j] == previas[j]);
                }
            }
            k += 1;
        }
        proof {
            assert(vista_de_ventas(vector_categorias@) =~= promediadas);
        }
        Ok(())
    }

    /// For each category of a product in an order shipped or received: the
    /// category, the units of it sold over all such orders, and the sum of
    /// the scores that buyers gave to those orders divided by the units.
    pub fn procesar_estadisticas_por_categoria(
        &self,
        ordenes: Vec<OrdenCompra>,
        productos: Vec<Producto>,
    ) -> (resultado: Result<Vec<(String, u32, u8)>, ErrorMercado>)
        ensures
            match resultado {
                Ok(categorias) => Ok::<Seq<(Seq<char>, u32, u8)>, ErrorMercado>(
                    vista_de_ventas(categorias@),
                ),
                Err(e) => Err(e),
            } == estadisticas(vistas_de_ordenes(ordenes@), vistas_de_productos(productos@)),
    {
        let ordenes = self.filtrar_validas(ordenes);
        let mut vector_categorias: Vec<(String, u32, u8)> = Vec::new();
        let mut vector_puntuacion_total: Vec<(String, u32)> = Vec::new();
        proof {
            assert(tablas(vector_categorias@, vector_puntuacion_total@).ventas =~= Seq::empty());
            assert(tablas(vector_categorias@, vector_puntuacion_total@).puntos =~= Seq::empty());
        }
        match self.total_de_ventas_categorias(
            ordenes,
            productos,
            &mut vector_categorias,
            &mut vector_puntuacion_total,
        ) {
            Ok(()) => {},
            Err(e) => {
                return Err(e);
            },
        }
        match self.calificacion_promedio_categorias(
            &mut vector_categorias,
            vector_puntuacion_total,
        ) {
            Ok(()) => {},
            Err(e) => {
                return Err(e);
            },
        }
        Ok(vector_categorias)
    }

    /// The sales per category of a snapshot of orders and products.
    pub fn estadisticas_por_categoria(
        &self,
        ordenes: Vec<OrdenCompra>,
        productos: Vec<Producto>,
    ) -> (resultado: Result<Vec<(String, u32, u8)>, ErrorMercado>)
        ensures
            match resultado {
                Ok(categorias) => Ok::<Seq<(Seq<char>, u32, u8)>, ErrorMercado>(
                    vista_de_ventas(categorias@),
                ),
                Err(e) => Err(e),
            } == estadisticas(vistas_de_ordenes(ordenes@), vistas_de_productos(productos@)),
    {
        self.procesar_estadisticas_por_categoria(ordenes, productos)
    }
}

} // verus!
