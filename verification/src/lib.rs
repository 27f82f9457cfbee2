//! Extraction of healthcare-related points of interest from an OSM XML
//! document: a single forward pass classifies `node` and `way` elements,
//! keeps a side table of plain node coordinates, and afterwards resolves each
//! medical way to the first referenced coordinate that the table knows.

pub mod eventos;
pub mod funcoes;
pub mod leis;
pub mod modelo;
pub mod numero;
pub mod texto;
pub mod tipos;
