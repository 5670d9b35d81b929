use vstd::prelude::*;

use crate::text::{decimal_text, push_decimal};

verus! {

/// One step of the access path from the root to a node.
#[derive(Debug, Clone)]
pub enum NamespaceKey {
    /// Position in an array.
    Array(usize),
    /// Field name in an object.
    Object(String),
}

pub open spec fn is_ascii_letter(c: char) -> bool {
    ('a' <= c && c <= 'z') || ('A' <= c && c <= 'Z')
}

pub open spec fn is_ident_char(c: char) -> bool {
    is_ascii_letter(c) || ('0' <= c && c <= '9') || c == '_'
}

/// A key that may follow a dot: an ASCII letter, then ASCII letters,
/// digits or underscores.
pub open spec fn is_ident_key(k: Seq<char>) -> bool {
    &&& k.len() > 0
    &&& is_ascii_letter(k[0])
    &&& forall|i: int| 1 <= i < k.len() ==> is_ident_char(#[trigger] k[i])
}

/// Text of an object key as a path step: `.key` or `["key"]`.
pub open spec fn key_text(k: Seq<char>) -> Seq<char> {
    if is_ident_key(k) {
        "."@ + k
    } else {
        "[\""@ + k + "\"]"@
    }
}

/// Text of one path step; it depends on that step alone.
pub open spec fn segment_text(s: NamespaceKey) -> Seq<char> {
    match s {
        NamespaceKey::Array(n) => "["@ + decimal_text(n as nat) + "]"@,
        NamespaceKey::Object(k) => key_text(k@),
    }
}

/// The rendered path: the root name, then each step's text in order.
pub open spec fn path_text(root: Seq<char>, segs: Seq<NamespaceKey>) -> Seq<char>
    decreases segs.len(),
{
    if segs.len() == 0 {
        root
    } else {
        path_text(root, segs.drop_last()) + segment_text(segs.last())
    }
}

/// Regular expression for the keys that may follow a dot.
pub const IDENT_KEY_PATTERN: &'static str = "^[a-zA-Z][a-zA-Z0-9_]*$";

/// Relies on regex::Regex::new and Regex::is_match. `^` and `$` anchor at the
/// start and the end of the haystack (multi-line mode is off), and the
/// classes are the listed ASCII ranges, so for IDENT_KEY_PATTERN the match
/// says whether the whole text is an ASCII letter followed by ASCII letters,
/// digits or underscores. The pattern is valid, so `new` does not fail.
#[verifier::external_body]
fn regex_is_match(pattern: &str, haystack: &str) -> (r: bool)
    requires
        pattern@ == IDENT_KEY_PATTERN@,
    ensures
        r == is_ident_key(haystack@),
{
    regex::Regex::new(pattern).unwrap().is_match(haystack)
}

/// Whether `key` can be written after a dot.
pub fn is_ident(key: &str) -> (r: bool)
    ensures
        r == is_ident_key(key@),
{
    regex_is_match(IDENT_KEY_PATTERN, key)
}

/// Appends an object key as a path step: `.key` when the key is
/// identifier-like, `["key"]` otherwise.
pub fn write_key_object(writer: &mut String, key: &str)
    ensures
        final(writer)@ == old(writer)@ + key_text(key@),
{
    if is_ident(key) {
        writer.append(".");
        writer.append(key);
        assert(writer@ =~= old(writer)@ + key_text(key@));
    } else {
        writer.append("[\"");
        writer.append(key);
        writer.append("\"]");
        assert(writer@ =~= old(writer)@ + key_text(key@));
    }
}

/// Appends one path step.
pub fn write_segment(writer: &mut String, seg: &NamespaceKey)
    ensures
        final(writer)@ == old(writer)@ + segment_text(*seg),
{
    match seg {
        NamespaceKey::Array(n) => {
            writer.append("[");
            push_decimal(writer, *n as u64);
            writer.append("]");
            assert(writer@ =~= old(writer)@ + segment_text(*seg));
        },
        NamespaceKey::Object(k) => write_key_object(writer, k.as_str()),
    }
}

/// Appends the path made of `root` and the steps `nss`.
pub fn write_path(writer: &mut String, root: &str, nss: &[NamespaceKey])
    ensures
        final(writer)@ == old(writer)@ + path_text(root@, nss@),
{
    writer.append(root);
    let mut i: usize = 0;
    while i < nss.len()
        invariant
            i <= nss@.len(),
            writer@ == old(writer)@ + path_text(root@, nss@.take(i as int)),
        decreases nss@.len() - i,
    {
        write_segment(writer, &nss[i]);
        proof {
            let t = nss@.take(i as int + 1);
            assert(t.drop_last() =~= nss@.take(i as int));
            assert(t.last() == nss@[i as int]);
            assert(writer@ =~= old(writer)@ + path_text(root@, t));
        }
        i += 1;
    }
    proof {
        assert(nss@.take(nss@.len() as int) =~= nss@);
    }
    assert(path_text(root@, nss@.take(0)) == root@) by {
        assert(nss@.take(0).len() == 0);
    }
}

} // verus!
