//! The feature model of a camera: the nodes of its description, as far as
//! integers go, and the elements of the document that they are read from.

pub mod elem_type;
pub mod formula;
pub mod int_converter;
pub mod integer;
pub mod node_base;
pub mod xml;
