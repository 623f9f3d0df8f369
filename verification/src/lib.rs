//! Literals for containers.
//!
//! A container type becomes the target of a literal by implementing a
//! capability of three operations: create it empty, create it empty with a
//! capacity hint, insert one element. `MapLiteral` is the capability of
//! map-like containers, `SetLiteral` that of set-like ones. The functions
//! of this crate turn the clauses of a literal into the calls that populate
//! the container, and their contracts say what the container then holds.
pub mod coercion;
pub mod laws;
pub mod map_expand;
pub mod map_literal;
pub mod model;
pub mod sequence;
pub mod set_expand;
pub mod set_literal;
pub mod std_specs;

pub use crate::coercion::coerce;
pub use crate::map_expand::{build_map, build_map_with, extend_map, extend_map_with, insert_coerced};
pub use crate::map_literal::MapLiteral;
pub use crate::sequence::{array_from, list, list_from, vec_from};
pub use crate::set_expand::{add_coerced, build_set, build_set_with, extend_set, extend_set_with};
pub use crate::set_literal::SetLiteral;
