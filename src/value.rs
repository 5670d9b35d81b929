use vstd::prelude::*;

use crate::text::{decimal_text, push_decimal};

verus! {

/// A number as it appears in a value tree.
#[derive(Debug, Clone)]
pub enum Number {
    /// A signed integer.
    Int(i64),
    /// An unsigned integer.
    UInt(u64),
    /// A floating-point number, held as its canonical decimal text
    /// (`1.5`, `-0.25`), which is written out unchanged.
    Float(String),
}

/// A node of the tree to flatten. Object entries keep their insertion order,
/// and repeated keys are kept as they are.
#[derive(Debug)]
pub enum Value {
    Null,
    Bool(bool),
    Number(Number),
    String(String),
    Array(Vec<Value>),
    Object(Vec<(String, Value)>),
}

/// Canonical decimal text of a number.
pub open spec fn number_text(n: Number) -> Seq<char> {
    match n {
        Number::Int(i) => if i < 0 {
            "-"@ + decimal_text((-i) as nat)
        } else {
            decimal_text(i as nat)
        },
        Number::UInt(u) => decimal_text(u as nat),
        Number::Float(t) => t@,
    }
}

/// Whether the node is a leaf (not an array or an object).
pub open spec fn is_scalar(v: Value) -> bool {
    !(v is Array) && !(v is Object)
}

/// What a statement for `v` assigns: the scalar itself, or the marker that
/// opens a container (`[]` or `{}`) ahead of its children's statements.
/// Strings are quoted and otherwise passed through verbatim.
pub open spec fn value_text(v: Value) -> Seq<char> {
    match v {
        Value::Null => "null"@,
        Value::Bool(b) => if b { "true"@ } else { "false"@ },
        Value::Number(n) => number_text(n),
        Value::String(s) => "\""@ + s@ + "\""@,
        Value::Array(_) => "[]"@,
        Value::Object(_) => "{}"@,
    }
}

/// Appends the canonical decimal text of `n` to `out`.
pub fn push_number(out: &mut String, n: &Number)
    ensures
        final(out)@ == old(out)@ + number_text(*n),
{
    match n {
        Number::Int(i) => {
            if *i < 0 {
                out.append("-");
                let magnitude: u64 = (0i128 - (*i as i128)) as u64;
                push_decimal(out, magnitude);
                assert(out@ =~= old(out)@ + number_text(*n));
            } else {
                push_decimal(out, *i as u64);
            }
        },
        Number::UInt(u) => push_decimal(out, *u),
        Number::Float(t) => out.append(t.as_str()),
    }
}

} // verus!
