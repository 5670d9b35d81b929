use vstd::prelude::*;

use crate::path::{path_text, write_path, NamespaceKey};
use crate::value::{number_text, push_number, value_text, Number, Value};

verus! {

/// Which statement writer to use.
#[derive(Debug, Clone, Copy)]
pub enum FormatType {
    /// Non colored output
    Regular,
    /// Colored output: the path and the assigned value are wrapped in ANSI
    /// styling, the rest is as in the regular output.
    Color,
}

/// Styling that opens a colored path.
pub const PATH_STYLE: &'static str = "\x1b[34m";

/// Styling that opens a colored value.
pub const VALUE_STYLE: &'static str = "\x1b[32m";

/// Styling that ends a colored span.
pub const STYLE_RESET: &'static str = "\x1b[0m";

/// The line that one statement becomes: `<path> = <value>;` and a newline.
pub open spec fn line_text(fmt: FormatType, path: Seq<char>, value: Seq<char>) -> Seq<char> {
    match fmt {
        FormatType::Regular => path + " = "@ + value + ";\n"@,
        FormatType::Color => PATH_STYLE@ + path + STYLE_RESET@ + " = "@ + VALUE_STYLE@ + value
            + STYLE_RESET@ + ";\n"@,
    }
}

/// Writes statements without styling.
#[derive(Debug, Default)]
pub struct RegularFormatter;

impl RegularFormatter {
    pub fn write_key(&self, writer: &mut String, ns_root: &str, nss: &[NamespaceKey])
        ensures
            final(writer)@ == old(writer)@ + path_text(ns_root@, nss@),
    {
        write_path(writer, ns_root, nss);
    }

    pub fn write_key_value_delimiter(&self, writer: &mut String)
        ensures
            final(writer)@ == old(writer)@ + " = "@,
    {
        writer.append(" = ");
    }

    pub fn write_end_of_line(&self, writer: &mut String)
        ensures
            final(writer)@ == old(writer)@ + ";\n"@,
    {
        writer.append(";\n");
    }

    pub fn write_null(&self, writer: &mut String)
        ensures
            final(writer)@ == old(writer)@ + "null"@,
    {
        writer.append("null");
    }

    pub fn write_bool(&self, writer: &mut String, value: bool)
        ensures
            final(writer)@ == old(writer)@ + (if value { "true"@ } else { "false"@ }),
    {
        if value {
            writer.append("true");
        } else {
            writer.append("false");
        }
    }

    pub fn write_number(&self, writer: &mut String, value: &Number)
        ensures
            final(writer)@ == old(writer)@ + number_text(*value),
    {
        push_number(writer, value);
    }

    pub fn write_string(&self, writer: &mut String, value: &str)
        ensures
            final(writer)@ == old(writer)@ + ("\""@ + value@ + "\""@),
    {
        writer.append("\"");
        writer.append(value);
        writer.append("\"");
        assert(writer@ =~= old(writer)@ + ("\""@ + value@ + "\""@));
    }

    pub fn write_init_array(&self, writer: &mut String)
        ensures
            final(writer)@ == old(writer)@ + "[]"@,
    {
        writer.append("[]");
    }

    pub fn write_init_object(&self, writer: &mut String)
        ensures
            final(writer)@ == old(writer)@ + "{}"@,
    {
        writer.append("{}");
    }

    /// Writes what a statement for `value` assigns.
    pub fn write_value(&self, writer: &mut String, value: &Value)
        ensures
            final(writer)@ == old(writer)@ + value_text(*value),
    {
        match value {
            Value::Null => self.write_null(writer),
            Value::Bool(b) => self.write_bool(writer, *b),
            Value::Number(n) => self.write_number(writer, n),
            Value::String(s) => self.write_string(writer, s.as_str()),
            Value::Array(_) => self.write_init_array(writer),
            Value::Object(_) => self.write_init_object(writer),
        }
    }

    /// Writes one whole statement.
    pub fn write_statement(
        &self,
        writer: &mut String,
        ns_root: &str,
        nss: &[NamespaceKey],
        value: &Value,
    )
        ensures
            final(writer)@ == old(writer)@ + line_text(
                FormatType::Regular,
                path_text(ns_root@, nss@),
                value_text(*value),
            ),
    {
        self.write_key(writer, ns_root, nss);
        self.write_key_value_delimiter(writer);
        self.write_value(writer, value);
        self.write_end_of_line(writer);
        assert(writer@ =~= old(writer)@ + line_text(
            FormatType::Regular,
            path_text(ns_root@, nss@),
            value_text(*value),
        ));
    }
}

/// Writes statements with the path and the value in ANSI colors.
#[derive(Debug, Default)]
pub struct ColorFormatter;

impl ColorFormatter {
    pub fn write_key(&self, writer: &mut String, ns_root: &str, nss: &[NamespaceKey])
        ensures
            final(writer)@ == old(writer)@ + (PATH_STYLE@ + path_text(ns_root@, nss@)
                + STYLE_RESET@),
    {
        writer.append(PATH_STYLE);
        write_path(writer, ns_root, nss);
        writer.append(STYLE_RESET);
        assert(writer@ =~= old(writer)@ + (PATH_STYLE@ + path_text(ns_root@, nss@)
            + STYLE_RESET@));
    }

    pub fn write_key_value_delimiter(&self, writer: &mut String)
        ensures
            final(writer)@ == old(writer)@ + " = "@,
    {
        RegularFormatter.write_key_value_delimiter(writer);
    }

    pub fn write_end_of_line(&self, writer: &mut String)
        ensures
            final(writer)@ == old(writer)@ + ";\n"@,
    {
        RegularFormatter.write_end_of_line(writer);
    }

    pub fn write_null(&self, writer: &mut String)
        ensures
            final(writer)@ == old(writer)@ + (VALUE_STYLE@ + "null"@ + STYLE_RESET@),
    {
        writer.append(VALUE_STYLE);
        RegularFormatter.write_null(writer);
        writer.append(STYLE_RESET);
        assert(writer@ =~= old(writer)@ + (VALUE_STYLE@ + "null"@ + STYLE_RESET@));
    }

    pub fn write_bool(&self, writer: &mut String, value: bool)
        ensures
            final(writer)@ == old(writer)@ + (VALUE_STYLE@ + (if value {
                "true"@
            } else {
                "false"@
            }) + STYLE_RESET@),
    {
        writer.append(VALUE_STYLE);
        RegularFormatter.write_bool(writer, value);
        writer.append(STYLE_RESET);
        assert(writer@ =~= old(writer)@ + (VALUE_STYLE@ + (if value {
            "true"@
        } else {
            "false"@
        }) + STYLE_RESET@));
    }

    pub fn write_number(&self, writer: &mut String, value: &Number)
        ensures
            final(writer)@ == old(writer)@ + (VALUE_STYLE@ + number_text(*value) + STYLE_RESET@),
    {
        writer.append(VALUE_STYLE);
        RegularFormatter.write_number(writer, value);
        writer.append(STYLE_RESET);
        assert(writer@ =~= old(writer)@ + (VALUE_STYLE@ + number_text(*value) + STYLE_RESET@));
    }

    pub fn write_string(&self, writer: &mut String, value: &str)
        ensures
            final(writer)@ == old(writer)@ + (VALUE_STYLE@ + ("\""@ + value@ + "\""@)
                + STYLE_RESET@),
    {
        writer.append(VALUE_STYLE);
        RegularFormatter.write_string(writer, value);
        writer.append(STYLE_RESET);
        assert(writer@ =~= old(writer)@ + (VALUE_STYLE@ + ("\""@ + value@ + "\""@)
            + STYLE_RESET@));
    }

    pub fn write_init_array(&self, writer: &mut String)
        ensures
            final(writer)@ == old(writer)@ + (VALUE_STYLE@ + "[]"@ + STYLE_RESET@),
    {
        writer.append(VALUE_STYLE);
        RegularFormatter.write_init_array(writer);
        writer.append(STYLE_RESET);
        assert(writer@ =~= old(writer)@ + (VALUE_STYLE@ + "[]"@ + STYLE_RESET@));
    }

    pub fn write_init_object(&self, writer: &mut String)
        ensures
            final(writer)@ == old(writer)@ + (VALUE_STYLE@ + "{}"@ + STYLE_RESET@),
    {
        writer.append(VALUE_STYLE);
        RegularFormatter.write_init_object(writer);
        writer.append(STYLE_RESET);
        assert(writer@ =~= old(writer)@ + (VALUE_STYLE@ + "{}"@ + STYLE_RESET@));
    }

    /// Writes what a statement for `value` assigns, styled.
    pub fn write_value(&self, writer: &mut String, value: &Value)
        ensures
            final(writer)@ == old(writer)@ + (VALUE_STYLE@ + value_text(*value) + STYLE_RESET@),
    {
        match value {
            Value::Null => self.write_null(writer),
            Value::Bool(b) => self.write_bool(writer, *b),
            Value::Number(n) => self.write_number(writer, n),
            Value::String(s) => self.write_string(writer, s.as_str()),
            Value::Array(_) => self.write_init_array(writer),
            Value::Object(_) => self.write_init_object(writer),
        }
    }

    /// Writes one whole statement.
    pub fn write_statement(
        &self,
        writer: &mut String,
        ns_root: &str,
        nss: &[NamespaceKey],
        value: &Value,
    )
        ensures
            final(writer)@ == old(writer)@ + line_text(
                FormatType::Color,
                path_text(ns_root@, nss@),
                value_text(*value),
            ),
    {
        self.write_key(writer, ns_root, nss);
        self.write_key_value_delimiter(writer);
        self.write_value(writer, value);
        self.write_end_of_line(writer);
        assert(writer@ =~= old(writer)@ + line_text(
            FormatType::Color,
            path_text(ns_root@, nss@),
            value_text(*value),
        ));
    }
}

} // verus!
