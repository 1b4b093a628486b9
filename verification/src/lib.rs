//! Atoms and periodic unit cells of a molecular simulation frame.

pub mod atom;
pub mod cell;
pub mod double;
pub mod errors;

pub use atom::{Atom, Element, ElementTable};
pub use cell::{Basis, CellShape, Image, UnitCell, UnitCellMut, UnitCellRef, Volume};
pub use double::Double;
pub use errors::{check, Error, ErrorKind, Status};
