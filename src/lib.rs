//! Flattens a tree of JSON-like values into gron statements: one assignment
//! per node, each naming the full access path from a root identifier.

mod format;
mod laws;
mod path;
mod ser;
mod text;
mod value;

pub use path::{is_ident, write_key_object, write_path, write_segment, NamespaceKey};
pub use text::push_decimal;
pub use value::{push_number, Number, Value};
pub use format::{line_text, ColorFormatter, FormatType, RegularFormatter};
pub use ser::{
    gron_text, render, statements, to_colored_string, to_string, to_string_with, Error, Serializer,
    Statement,
};
pub use laws::{
    array_of_scalars_lines, empty_containers_are_one_line, key_quoting, object_of_scalars_lines,
    path_rendering_is_stepwise, scalar_is_one_line,
};
