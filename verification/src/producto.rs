//! Products offered in the marketplace.

use vstd::prelude::*;

verus! {

/// A product as loaded by its seller. Its stock is kept beside it by the
/// marketplace, not inside it.
#[derive(Debug)]
pub struct Producto {
    /// Identifier, assigned in sequence from 1.
    pub id: u32,
    pub nombre: String,
    pub descripcion: String,
    /// Unit price.
    pub precio: u32,
    pub categoria: String,
}

/// What a product is, as plain values.
pub struct ProductoVista {
    pub id: u32,
    pub nombre: Seq<char>,
    pub descripcion: Seq<char>,
    pub precio: u32,
    pub categoria: Seq<char>,
}

impl View for Producto {
    type V = ProductoVista;

    open spec fn view(&self) -> ProductoVista {
        ProductoVista {
            id: self.id,
            nombre: self.nombre@,
            descripcion: self.descripcion@,
            precio: self.precio,
            categoria: self.categoria@,
        }
    }
}

impl Producto {
    /// Builds a product that holds exactly the fields submitted.
    pub fn cargar_producto(
        id: u32,
        nombre: String,
        descripcion: String,
        precio: u32,
        categoria: String,
    ) -> (producto: Producto)
        ensures
            producto@ == (ProductoVista {
                id,
                nombre: nombre@,
                descripcion: descripcion@,
                precio,
                categoria: categoria@,
            }),
    {
        Producto { id, nombre, descripcion, precio, categoria }
    }

    /// A copy of this product.
    pub fn copiar(&self) -> (copia: Producto)
        ensures
            copia@ == self@,
    {
        Producto {
            id: self.id,
            nombre: self.nombre.clone(),
            descripcion: self.descripcion.clone(),
            precio: self.precio,
            categoria: self.categoria.clone(),
        }
    }
}

} // verus!
