//! Reader for oriented-bounding-box annotation files: each line holds the
//! four corners of a quadrilateral, a category alias and a difficulty flag.
pub mod annotation;
pub mod category;
pub mod error;
pub mod loader;
pub mod text;
pub mod zero_one_bool;

pub use annotation::{assemble_annotation, parse_annotation, Annotation, Coordinate};
pub use category::Category;
pub use error::ParseError;
pub use loader::{parse_annotation_lines, LineError};
