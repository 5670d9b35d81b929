use vstd::prelude::*;

use crate::format::{line_text, ColorFormatter, FormatType, RegularFormatter};
use crate::path::{path_text, NamespaceKey};
use crate::value::{value_text, Value};

verus! {

broadcast use vstd::std_specs::vec::group_vec_axioms;

/// Why a serialization failed.
#[derive(Debug)]
pub enum Error {
    /// The root name was refused.
    InvalidRootName,
    /// The serializer already finished a whole value and cannot be reused.
    Eof,
    /// A caller-supplied message.
    Custom(String),
}

impl Error {
    /// An error that carries `msg`.
    pub fn custom(msg: String) -> (r: Error)
        ensures
            r == Error::Custom(msg),
    {
        Error::Custom(msg)
    }
}

/// One statement before it is written: the rendered path and what it assigns.
pub type Statement = (Seq<char>, Seq<char>);

/// The statements for `v` found at `path` below `root`, in traversal order:
/// first the node's own statement (a scalar, or the marker that opens a
/// container), then those of each child in index or insertion order.
pub open spec fn statements(root: Seq<char>, path: Seq<NamespaceKey>, v: Value) -> Seq<Statement>
    decreases v, 0nat,
{
    let head = seq![(path_text(root, path), value_text(v))];
    match v {
        Value::Array(items) => head + element_statements(root, path, items@, items@.len()),
        Value::Object(entries) => head + field_statements(root, path, entries@, entries@.len()),
        _ => head,
    }
}

/// The statements of the first `n` elements of an array found at `path`.
pub open spec fn element_statements(
    root: Seq<char>,
    path: Seq<NamespaceKey>,
    items: Seq<Value>,
    n: nat,
) -> Seq<Statement>
    decreases items, n,
{
    if n == 0 || n > items.len() {
        seq![]
    } else {
        element_statements(root, path, items, (n - 1) as nat) + statements(
            root,
            path.push(NamespaceKey::Array((n - 1) as usize)),
            items[n - 1],
        )
    }
}

/// The statements of the first `n` entries of an object found at `path`.
pub open spec fn field_statements(
    root: Seq<char>,
    path: Seq<NamespaceKey>,
    entries: Seq<(String, Value)>,
    n: nat,
) -> Seq<Statement>
    decreases entries, n,
{
    if n == 0 || n > entries.len() {
        seq![]
    } else {
        field_statements(root, path, entries, (n - 1) as nat) + statements(
            root,
            path.push(NamespaceKey::Object(entries[n - 1].0)),
            entries[n - 1].1,
        )
    }
}

/// The text of a run of statements: one line each, in order.
pub open spec fn render(fmt: FormatType, stmts: Seq<Statement>) -> Seq<char>
    decreases stmts.len(),
{
    if stmts.len() == 0 {
        seq![]
    } else {
        render(fmt, stmts.drop_last()) + line_text(fmt, stmts.last().0, stmts.last().1)
    }
}

/// The whole output for `v` under the root name `root`.
pub open spec fn gron_text(fmt: FormatType, root: Seq<char>, v: Value) -> Seq<char> {
    render(fmt, statements(root, seq![], v))
}

/// Rendering a concatenation renders each part in turn.
pub proof fn lemma_render_concat(fmt: FormatType, a: Seq<Statement>, b: Seq<Statement>)
    ensures
        render(fmt, a + b) == render(fmt, a) + render(fmt, b),
    decreases b.len(),
{
    if b.len() == 0 {
        assert(a + b =~= a);
        assert(render(fmt, a) + render(fmt, b) =~= render(fmt, a));
    } else {
        assert((a + b).drop_last() =~= a + b.drop_last());
        assert((a + b).last() == b.last());
        lemma_render_concat(fmt, a, b.drop_last());
        let l = line_text(fmt, b.last().0, b.last().1);
        assert(render(fmt, a) + render(fmt, b.drop_last()) + l =~= render(fmt, a) + (render(
            fmt,
            b.drop_last(),
        ) + l));
    }
}

/// The path state of one serialization.
#[derive(Debug)]
pub(crate) struct Context {
    pub(crate) ns_root: String,
    pub(crate) ns: Vec<NamespaceKey>,
    pub(crate) finish: bool,
}

impl Context {
    pub(crate) fn new() -> (r: Context)
        ensures
            r.ns_root@ == "json"@,
            r.ns@.len() == 0,
            !r.finish,
    {
        Context::new_with_root_name("json")
    }

    pub(crate) fn new_with_root_name(name: &str) -> (r: Context)
        ensures
            r.ns_root@ == name@,
            r.ns@.len() == 0,
            !r.finish,
    {
        Context { ns_root: String::from_str(name), ns: Vec::new(), finish: false }
    }

    /// Whether the current node is the root value itself.
    pub(crate) fn is_root(&self) -> (r: bool)
        ensures
            r == (self.ns@.len() == 0),
    {
        self.ns.len() == 0
    }

    /// Fails with `Eof` once a whole value was serialized.
    pub(crate) fn error_if_finished(&self) -> (r: Result<(), Error>)
        ensures
            self.finish ==> r == Err::<(), Error>(Error::Eof),
            !self.finish ==> r == Ok::<(), Error>(()),
    {
        if self.finish {
            Err(Error::Eof)
        } else {
            Ok(())
        }
    }
}

/// Turns one value into gron statements, written to an in-memory buffer.
/// A serializer is single-shot: once a whole value was written, further
/// attempts fail with `Error::Eof`.
#[derive(Debug)]
pub struct Serializer {
    writer: String,
    format: FormatType,
    ctx: Context,
}

impl Serializer {
    /// Everything written so far.
    pub closed spec fn output(&self) -> Seq<char> {
        self.writer@
    }

    /// The name that starts every path.
    pub closed spec fn root_name(&self) -> Seq<char> {
        self.ctx.ns_root@
    }

    pub closed spec fn format_type(&self) -> FormatType {
        self.format
    }

    /// Whether a whole value was serialized already.
    pub closed spec fn is_finished(&self) -> bool {
        self.ctx.finish
    }

    /// Between calls the path is back at the root.
    pub closed spec fn wf(&self) -> bool {
        self.ctx.ns@.len() == 0
    }

    pub fn new() -> (r: Serializer)
        ensures
            r.wf(),
            r.output() == Seq::<char>::empty(),
            r.root_name() == "json"@,
            r.format_type() == FormatType::Regular,
            !r.is_finished(),
    {
        Serializer::new_with_root_name("json")
    }

    pub fn new_with_root_name(root_name: &str) -> (r: Serializer)
        ensures
            r.wf(),
            r.output() == Seq::<char>::empty(),
            r.root_name() == root_name@,
            r.format_type() == FormatType::Regular,
            !r.is_finished(),
    {
        Serializer::new_with_format(root_name, FormatType::Regular)
    }

    pub fn new_with_format(root_name: &str, format_type: FormatType) -> (r: Serializer)
        ensures
            r.wf(),
            r.output() == Seq::<char>::empty(),
            r.root_name() == root_name@,
            r.format_type() == format_type,
            !r.is_finished(),
    {
        Serializer {
            writer: String::new(),
            format: format_type,
            ctx: Context::new_with_root_name(root_name),
        }
    }

    /// Hands out what was written.
    pub fn into_output(self) -> (r: String)
        ensures
            r@ == self.output(),
    {
        self.writer
    }

    /// Writes the statement of `value` at the current path.
    fn write_statement(&mut self, value: &Value)
        ensures
            final(self).writer@ == old(self).writer@ + line_text(
                old(self).format,
                path_text(old(self).ctx.ns_root@, old(self).ctx.ns@),
                value_text(*value),
            ),
            final(self).format == old(self).format,
            final(self).ctx == old(self).ctx,
    {
        match self.format {
            FormatType::Regular => RegularFormatter.write_statement(
                &mut self.writer,
                self.ctx.ns_root.as_str(),
                self.ctx.ns.as_slice(),
                value,
            ),
            FormatType::Color => ColorFormatter.write_statement(
                &mut self.writer,
                self.ctx.ns_root.as_str(),
                self.ctx.ns.as_slice(),
                value,
            ),
        }
    }

    /// Writes the statements of `value` and of everything below it, at the
    /// current path, which is the same again afterwards.
    fn serialize_value(&mut self, value: &Value)
        ensures
            final(self).writer@ == old(self).writer@ + render(
                old(self).format,
                statements(old(self).ctx.ns_root@, old(self).ctx.ns@, *value),
            ),
            final(self).format == old(self).format,
            final(self).ctx.ns_root == old(self).ctx.ns_root,
            final(self).ctx.ns@ == old(self).ctx.ns@,
            final(self).ctx.finish == old(self).ctx.finish,
        decreases value,
    {
        let ghost fmt = self.format;
        let ghost root = self.ctx.ns_root@;
        let ghost path = self.ctx.ns@;
        let ghost w0 = self.writer@;
        let ghost head = seq![(path_text(root, path), value_text(*value))];
        self.write_statement(value);
        proof {
            assert(render(fmt, head) =~= line_text(fmt, head[0].0, head[0].1)) by {
                assert(head.drop_last() =~= Seq::<Statement>::empty());
                assert(render(fmt, head.drop_last()) == Seq::<char>::empty());
            }
        }
        match value {
            Value::Array(items) => {
                let mut i: usize = 0;
                while i < items.len()
                    invariant
                        *value == Value::Array(*items),
                        i <= items@.len(),
                        self.format == fmt,
                        self.ctx.ns_root@ == root,
                        self.ctx.ns@ == path,
                        self.ctx.finish == old(self).ctx.finish,
                        self.ctx.ns_root == old(self).ctx.ns_root,
                        self.writer@ == w0 + render(
                            fmt,
                            head + element_statements(root, path, items@, i as nat),
                        ),
                    decreases items@.len() - i,
                {
                    self.ctx.ns.push(NamespaceKey::Array(i));
                    proof {
                        assert(decreases_to!(*value => (*value)->Array_0));
                        assert(decreases_to!(*items => items[i as int]));
                    }
                    self.serialize_value(&items[i]);
                    self.ctx.ns.pop();
                    proof {
                        assert(self.ctx.ns@ =~= path);
                        let child = statements(root, path.push(NamespaceKey::Array(i)), items@[i as int]);
                        let prev = head + element_statements(root, path, items@, i as nat);
                        assert(head + element_statements(root, path, items@, (i + 1) as nat) =~= prev + child);
                        lemma_render_concat(fmt, prev, child);
                        assert(self.writer@ =~= w0 + render(fmt, prev + child));
                    }
                    i += 1;
                }
            },
            Value::Object(entries) => {
                let mut i: usize = 0;
                while i < entries.len()
                    invariant
                        *value == Value::Object(*entries),
                        i <= entries@.len(),
                        self.format == fmt,
                        self.ctx.ns_root@ == root,
                        self.ctx.ns@ == path,
                        self.ctx.finish == old(self).ctx.finish,
                        self.ctx.ns_root == old(self).ctx.ns_root,
                        self.writer@ == w0 + render(
                            fmt,
                            head + field_statements(root, path, entries@, i as nat),
                        ),
                    decreases entries@.len() - i,
                {
                    let key = entries[i].0.clone();
                    self.ctx.ns.push(NamespaceKey::Object(key));
                    proof {
                        assert(decreases_to!(*value => (*value)->Object_0));
                        assert(decreases_to!(*entries => entries[i as int]));
                        assert(decreases_to!(entries[i as int] => entries[i as int].1));
                    }
                    self.serialize_value(&entries[i].1);
                    self.ctx.ns.pop();
                    proof {
                        assert(self.ctx.ns@ =~= path);
                        let child = statements(
                            root,
                            path.push(NamespaceKey::Object(entries@[i as int].0)),
                            entries@[i as int].1,
                        );
                        let prev = head + field_statements(root, path, entries@, i as nat);
                        assert(head + field_statements(root, path, entries@, (i + 1) as nat) =~= prev + child);
                        lemma_render_concat(fmt, prev, child);
                        assert(self.writer@ =~= w0 + render(fmt, prev + child));
                    }
                    i += 1;
                }
            },
            _ => {},
        }
    }

    /// Serializes one whole value, unless this serializer already did.
    pub fn serialize(&mut self, value: &Value) -> (r: Result<(), Error>)
        requires
            old(self).wf(),
        ensures
            final(self).wf(),
            final(self).root_name() == old(self).root_name(),
            final(self).format_type() == old(self).format_type(),
            final(self).is_finished(),
            old(self).is_finished() ==> r == Err::<(), Error>(Error::Eof) && final(self).output()
                == old(self).output(),
            !old(self).is_finished() ==> r == Ok::<(), Error>(()) && final(self).output()
                == old(self).output() + gron_text(
                old(self).format_type(),
                old(self).root_name(),
                *value,
            ),
    {
        if let Err(e) = self.ctx.error_if_finished() {
            return Err(e);
        }
        proof {
            assert(self.ctx.ns@ =~= Seq::<NamespaceKey>::empty());
        }
        self.serialize_value(value);
        if self.ctx.is_root() {
            self.ctx.finish = true;
        }
        Ok(())
    }
}

/// gron text of `value` under the root name `json`.
pub fn to_string(value: &Value) -> (r: Result<String, Error>)
    ensures
        match r {
            Ok(text) => text@ == gron_text(FormatType::Regular, "json"@, *value),
            Err(_) => false,
        },
{
    to_string_with(value, "json", FormatType::Regular)
}

/// Colored gron text of `value` under the root name `json`.
pub fn to_colored_string(value: &Value) -> (r: Result<String, Error>)
    ensures
        match r {
            Ok(text) => text@ == gron_text(FormatType::Color, "json"@, *value),
            Err(_) => false,
        },
{
    to_string_with(value, "json", FormatType::Color)
}

/// gron text of `value` under `root_name`, in the chosen format.
pub fn to_string_with(value: &Value, root_name: &str, format_type: FormatType) -> (r: Result<
    String,
    Error,
>)
    ensures
        match r {
            Ok(text) => text@ == gron_text(format_type, root_name@, *value),
            Err(_) => false,
        },
{
    let mut ser = Serializer::new_with_format(root_name, format_type);
    match ser.serialize(value) {
        Ok(()) => {},
        Err(e) => return Err(e),
    }
    let text = ser.into_output();
    assert(text@ =~= gron_text(format_type, root_name@, *value));
    Ok(text)
}

} // verus!
