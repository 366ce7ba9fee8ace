//! The transactional core of a marketplace, and the statistics computed over
//! its history.
//!
//! Users register as buyers, sellers or both. Sellers load products with a
//! stock and offer them in listings; buyers place orders against listings;
//! orders are shipped and received, or cancelled by agreement of both
//! parties; once an order is received each party rates the other.
//!
//! * [`estado`] says what the marketplace holds and what each call makes of
//!   it; [`maquina`], [`invariante`], [`conservacion`] and [`leyes`] prove
//!   what always holds of that.
//! * [`primer_contrato`] is the marketplace itself, proved to do what
//!   [`estado`] says.
//! * [`segundo_contrato`] and [`categorias`] compute rankings and statistics
//!   over snapshots of the marketplace; [`ranking`] and [`ventas`] hold what
//!   is proved of them.
//! * [`usuario`], [`producto`], [`publicacion`] and [`orden`] are the records
//!   kept; [`existencias`] and [`inventario`] the arithmetic of stock.
//! * [`cuenta`] holds the few facts taken on trust from code outside this
//!   crate.

pub mod categorias;
pub mod conservacion;
pub mod cuenta;
pub mod error;
pub mod estado;
pub mod existencias;
pub mod invariante;
pub mod inventario;
pub mod leyes;
pub mod listas;
pub mod maquina;
pub mod orden;
pub mod primer_contrato;
pub mod producto;
pub mod publicacion;
pub mod ranking;
pub mod rol;
pub mod segundo_contrato;
pub mod usuario;
pub mod ventas;
