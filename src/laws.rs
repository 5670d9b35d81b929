use vstd::prelude::*;

use crate::format::{line_text, FormatType};
use crate::path::{
    is_ascii_letter, is_ident_char, is_ident_key, key_text, path_text, segment_text, NamespaceKey,
};
use crate::ser::{element_statements, field_statements, gron_text, render, statements, Statement};
use crate::text::decimal_text;
use crate::value::{is_scalar, value_text, Value};

verus! {

proof fn lemma_render_one(fmt: FormatType, s: Statement)
    ensures
        render(fmt, seq![s]) == line_text(fmt, s.0, s.1),
{
    assert(seq![s].drop_last() =~= Seq::<Statement>::empty());
    assert(render(fmt, seq![s].drop_last()) == Seq::<char>::empty());
    assert(render(fmt, seq![s]) =~= line_text(fmt, s.0, s.1));
}

proof fn lemma_path_one(root: Seq<char>, seg: NamespaceKey)
    ensures
        path_text(root, Seq::<NamespaceKey>::empty().push(seg)) == root + segment_text(seg),
{
    let p = Seq::<NamespaceKey>::empty().push(seg);
    assert(p.drop_last() =~= Seq::<NamespaceKey>::empty());
    assert(path_text(root, p.drop_last()) == root);
}

/// A leaf value is one statement: `<root> = <value>;` on a line of its own.
pub proof fn scalar_is_one_line(root: Seq<char>, v: Value)
    requires
        is_scalar(v),
    ensures
        statements(root, seq![], v) == seq![(root, value_text(v))],
        gron_text(FormatType::Regular, root, v) == root + " = "@ + value_text(v) + ";\n"@,
{
    assert(path_text(root, seq![]) == root);
    lemma_render_one(FormatType::Regular, (root, value_text(v)));
}

/// An empty array is the single line `<root> = [];`, an empty object the
/// single line `<root> = {};`.
pub proof fn empty_containers_are_one_line(
    root: Seq<char>,
    items: Vec<Value>,
    entries: Vec<(String, Value)>,
)
    requires
        items@.len() == 0,
        entries@.len() == 0,
    ensures
        gron_text(FormatType::Regular, root, Value::Array(items)) == root + " = "@ + "[]"@
            + ";\n"@,
        gron_text(FormatType::Regular, root, Value::Object(entries)) == root + " = "@ + "{}"@
            + ";\n"@,
{
    assert(path_text(root, seq![]) == root);
    let a = statements(root, seq![], Value::Array(items));
    assert(a =~= seq![(root, "[]"@)]);
    lemma_render_one(FormatType::Regular, (root, "[]"@));
    let o = statements(root, seq![], Value::Object(entries));
    assert(o =~= seq![(root, "{}"@)]);
    lemma_render_one(FormatType::Regular, (root, "{}"@));
}

proof fn lemma_scalar_elements(root: Seq<char>, items: Seq<Value>, n: nat)
    requires
        n <= items.len() <= usize::MAX,
        forall|i: int| 0 <= i < items.len() ==> is_scalar(#[trigger] items[i]),
    ensures
        element_statements(root, seq![], items, n).len() == n,
        forall|j: int|
            0 <= j < n ==> #[trigger] element_statements(root, seq![], items, n)[j] == (root
                + "["@ + decimal_text(j as nat) + "]"@, value_text(items[j])),
    decreases n,
{
    if n > 0 {
        let k = (n - 1) as nat;
        lemma_scalar_elements(root, items, k);
        let seg = NamespaceKey::Array(k as usize);
        lemma_path_one(root, seg);
        let p = Seq::<NamespaceKey>::empty().push(seg);
        assert(p =~= seq![].push(seg));
        assert(root + segment_text(seg) =~= root + "["@ + decimal_text(k) + "]"@);
        assert(statements(root, p, items[k as int]) == seq![
            (path_text(root, p), value_text(items[k as int])),
        ]);
    }
}

/// An array of leaves yields n + 1 statements: the `[]` line for the array,
/// then one per element at `<root>[i]`, in index order.
pub proof fn array_of_scalars_lines(root: Seq<char>, items: Vec<Value>)
    requires
        forall|i: int| 0 <= i < items@.len() ==> is_scalar(#[trigger] items@[i]),
    ensures
        statements(root, seq![], Value::Array(items)).len() == items@.len() + 1,
        statements(root, seq![], Value::Array(items))[0] == (root, "[]"@),
        forall|i: int|
            0 <= i < items@.len() ==> #[trigger] statements(root, seq![], Value::Array(items))[i
                + 1] == (root + "["@ + decimal_text(i as nat) + "]"@, value_text(items@[i])),
{
    broadcast use vstd::std_specs::vec::group_vec_axioms;
    assert(items@.len() == items.len());
    lemma_scalar_elements(root, items@, items@.len());
    assert(path_text(root, seq![]) == root);
    let es = element_statements(root, seq![], items@, items@.len());
    let all = statements(root, seq![], Value::Array(items));
    assert(all == seq![(root, "[]"@)] + es);
    assert forall|i: int| 0 <= i < items@.len() implies #[trigger] all[i + 1] == (root + "["@
        + decimal_text(i as nat) + "]"@, value_text(items@[i])) by {
        assert(all[i + 1] == es[i]);
    }
}

proof fn lemma_scalar_fields(root: Seq<char>, entries: Seq<(String, Value)>, n: nat)
    requires
        n <= entries.len(),
        forall|i: int| 0 <= i < entries.len() ==> is_scalar(#[trigger] entries[i].1),
    ensures
        field_statements(root, seq![], entries, n).len() == n,
        forall|j: int|
            0 <= j < n ==> #[trigger] field_statements(root, seq![], entries, n)[j] == (root
                + key_text(entries[j].0@), value_text(entries[j].1)),
    decreases n,
{
    if n > 0 {
        let k = (n - 1) as int;
        lemma_scalar_fields(root, entries, k as nat);
        let seg = NamespaceKey::Object(entries[k].0);
        lemma_path_one(root, seg);
        let p = Seq::<NamespaceKey>::empty().push(seg);
        assert(p =~= seq![].push(seg));
        assert(is_scalar(entries[k].1));
        assert(statements(root, p, entries[k].1) == seq![
            (path_text(root, p), value_text(entries[k].1)),
        ]);
    }
}

/// An object whose values are leaves yields 1 + |keys| statements: the `{}`
/// line for the object, then one per entry, in insertion order, each at the
/// root followed by the key's path step.
pub proof fn object_of_scalars_lines(root: Seq<char>, entries: Vec<(String, Value)>)
    requires
        forall|i: int| 0 <= i < entries@.len() ==> is_scalar(#[trigger] entries@[i].1),
    ensures
        statements(root, seq![], Value::Object(entries)).len() == entries@.len() + 1,
        statements(root, seq![], Value::Object(entries))[0] == (root, "{}"@),
        forall|i: int|
            0 <= i < entries@.len() ==> #[trigger] statements(
                root,
                seq![],
                Value::Object(entries),
            )[i + 1] == (root + key_text(entries@[i].0@), value_text(entries@[i].1)),
{
    lemma_scalar_fields(root, entries@, entries@.len());
    assert(path_text(root, seq![]) == root);
    let fs = field_statements(root, seq![], entries@, entries@.len());
    let all = statements(root, seq![], Value::Object(entries));
    assert(all == seq![(root, "{}"@)] + fs);
    assert forall|i: int| 0 <= i < entries@.len() implies #[trigger] all[i + 1] == (root
        + key_text(entries@[i].0@), value_text(entries@[i].1)) by {
        assert(all[i + 1] == fs[i]);
    }
}

/// A key made of an ASCII letter followed by ASCII letters, digits and
/// underscores follows a dot; any other key, such as one holding a `-`, is
/// written in brackets and double quotes.
pub proof fn key_quoting(root: Seq<char>, key: String)
    ensures
        is_ident_key(key@) ==> path_text(root, seq![NamespaceKey::Object(key)]) == root + "."@
            + key@,
        !is_ident_key(key@) ==> path_text(root, seq![NamespaceKey::Object(key)]) == root
            + "[\""@ + key@ + "\"]"@,
        (exists|i: int| 0 <= i < key@.len() && key@[i] == '-') ==> path_text(
            root,
            seq![NamespaceKey::Object(key)],
        ) == root + "[\""@ + key@ + "\"]"@,
{
    let seg = NamespaceKey::Object(key);
    lemma_path_one(root, seg);
    assert(seq![seg] =~= Seq::<NamespaceKey>::empty().push(seg));
    assert(root + ("."@ + key@) =~= root + "."@ + key@);
    assert(root + ("[\""@ + key@ + "\"]"@) =~= root + "[\""@ + key@ + "\"]"@);
    if exists|i: int| 0 <= i < key@.len() && key@[i] == '-' {
        let i = choose|i: int| 0 <= i < key@.len() && key@[i] == '-';
        if i == 0 {
            assert(!is_ascii_letter(key@[0]));
        } else {
            assert(!is_ident_char(key@[i]));
        }
    }
}

/// Rendering a path is a function of the root and the steps alone, built
/// one step at a time: the later steps extend the rendering of the earlier
/// ones, so the same root and steps always give the same text.
pub proof fn path_rendering_is_stepwise(
    root: Seq<char>,
    a: Seq<NamespaceKey>,
    b: Seq<NamespaceKey>,
)
    ensures
        path_text(root, a + b) == path_text(path_text(root, a), b),
    decreases b.len(),
{
    if b.len() == 0 {
        assert(a + b =~= a);
    } else {
        assert((a + b).drop_last() =~= a + b.drop_last());
        assert((a + b).last() == b.last());
        path_rendering_is_stepwise(root, a, b.drop_last());
    }
}

} // verus!
