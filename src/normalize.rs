//! Markup normalization: rich text to lightweight markup, with the
//! over-escaping of the conversion undone.
use vstd::prelude::*;
use vstd::string::*;
use crate::text::push_char;

verus! {

/// The characters whose backslash escape is removed.
pub open spec fn is_escapable(c: char) -> bool {
    c == '#' || c == '[' || c == ']' || c == '*' || c == '_' || c == '>' || c == '`'
}

/// `s` with every backslash that precedes an escapable character removed,
/// read from left to right; every other backslash is kept.
pub open spec fn unescaped(s: Seq<char>) -> Seq<char>
    decreases s.len(),
{
    if s.len() < 2 {
        s
    } else if s[0] == '\\' && is_escapable(s[1]) {
        seq![s[1]] + unescaped(s.subrange(2, s.len() as int))
    } else {
        seq![s[0]] + unescaped(s.subrange(1, s.len() as int))
    }
}

/// `s` with a backslash inserted before each escapable character: the
/// over-escaping that the conversion to Markdown may introduce.
pub open spec fn escaped(s: Seq<char>) -> Seq<char>
    decreases s.len(),
{
    if s.len() == 0 {
        s
    } else if is_escapable(s[0]) {
        seq!['\\', s[0]] + escaped(s.subrange(1, s.len() as int))
    } else {
        seq![s[0]] + escaped(s.subrange(1, s.len() as int))
    }
}

proof fn lemma_escaped_shape(s: Seq<char>)
    ensures
        escaped(s).len() >= s.len(),
        s.len() > 0 ==> !is_escapable(escaped(s)[0]),
    decreases s.len(),
{
    if s.len() > 0 {
        lemma_escaped_shape(s.subrange(1, s.len() as int));
    }
}

/// Unescaping undoes over-escaping: removing the escapes from a text in which
/// each escapable character was escaped gives the text back, whatever other
/// backslashes it holds.
pub proof fn lemma_unescape_inverts_escape(x: Seq<char>)
    ensures
        unescaped(escaped(x)) == x,
    decreases x.len(),
{
    if x.len() > 0 {
        let rest = x.subrange(1, x.len() as int);
        lemma_unescape_inverts_escape(rest);
        lemma_escaped_shape(rest);
        let e = escaped(x);
        if is_escapable(x[0]) {
            assert(e.subrange(2, e.len() as int) =~= escaped(rest));
            assert(unescaped(e) =~= x);
        } else {
            if e.len() < 2 {
                assert(rest.len() == 0);
                assert(x =~= seq![x[0]]);
            } else {
                assert(e.subrange(1, e.len() as int) =~= escaped(rest));
                assert(e[1] == escaped(rest)[0]);
                assert(unescaped(e) =~= x);
            }
        }
    }
}

/// A text in which no backslash precedes an escapable character is left as it
/// is: every other backslash sequence is untouched.
pub proof fn lemma_unescape_keeps_other_backslashes(s: Seq<char>)
    requires
        forall|i: int| 0 <= i && i + 1 < s.len() && s[i] == '\\' ==> !is_escapable(#[trigger] s[i + 1]),
    ensures
        unescaped(s) == s,
    decreases s.len(),
{
    if s.len() >= 2 {
        let rest = s.subrange(1, s.len() as int);
        assert forall|i: int| 0 <= i && i + 1 < rest.len() && rest[i] == '\\'
            implies !is_escapable(#[trigger] rest[i + 1]) by {
            assert(s[i + 1] == rest[i] && s[i + 2] == rest[i + 1]);
        }
        lemma_unescape_keeps_other_backslashes(rest);
        assert(s =~= seq![s[0]] + rest);
    }
}

/// An escaped character loses its backslash exactly when it is one of the
/// escapable characters.
pub proof fn lemma_unescape_pair(c: char)
    ensures
        unescaped(seq!['\\', c]) == if is_escapable(c) { seq![c] } else { seq!['\\', c] },
{
    let s = seq!['\\', c];
    assert(s.subrange(2, 2) =~= Seq::<char>::empty());
    assert(unescaped(s.subrange(2, 2)) == Seq::<char>::empty());
    assert(s.subrange(1, 2) =~= seq![c]);
    assert(unescaped(s.subrange(1, 2)) == seq![c]);
    if is_escapable(c) {
        assert(unescaped(s) =~= seq![c]);
    } else {
        assert(unescaped(s) =~= seq!['\\', c]);
    }
}

/// What `html2md::parse_html` returns for a document.
pub uninterp spec fn markdown_of(html: Seq<char>) -> Seq<char>;

/// Relies on `html2md::parse_html`: converts an HTML fragment to Markdown.
#[verifier::external_body]
fn html_to_markdown(html: &str) -> (r: String)
    ensures
        r@ == markdown_of(html@),
{
    html2md::parse_html(html)
}

/// Removes the backslash from each escaped `# [ ] * _ > `` ` `` in `md`.
pub fn unescape_markup(md: &str) -> (r: String)
    ensures
        r@ == unescaped(md@),
{
    let n = md.unicode_len();
    let mut out = String::new();
    let mut i: usize = 0;
    proof {
        assert(md@.subrange(0, n as int) =~= md@);
        assert(out@ + unescaped(md@) =~= unescaped(md@));
    }
    while i < n
        invariant
            n == md@.len(),
            i <= n,
            out@ + unescaped(md@.subrange(i as int, n as int)) == unescaped(md@),
        decreases n - i,
    {
        let rest = Ghost(md@.subrange(i as int, n as int));
        let before = Ghost(out@);
        let c = md.get_char(i);
        if i + 1 < n && c == '\\' && is_escapable_char(md.get_char(i + 1)) {
            let d = md.get_char(i + 1);
            push_char(&mut out, d);
            proof {
                assert(rest@.subrange(2, rest@.len() as int) =~= md@.subrange(i + 2, n as int));
                assert(out@ + unescaped(md@.subrange(i + 2, n as int)) =~= before@ + unescaped(rest@));
            }
            i = i + 2;
        } else {
            push_char(&mut out, c);
            proof {
                if rest@.len() >= 2 {
                    assert(rest@.subrange(1, rest@.len() as int) =~= md@.subrange(i + 1, n as int));
                } else {
                    assert(md@.subrange(i + 1, n as int) =~= Seq::<char>::empty());
                    assert(unescaped(md@.subrange(i + 1, n as int)) =~= Seq::<char>::empty());
                }
                assert(out@ + unescaped(md@.subrange(i + 1, n as int)) =~= before@ + unescaped(rest@));
            }
            i = i + 1;
        }
    }
    proof {
        assert(md@.subrange(n as int, n as int) =~= Seq::<char>::empty());
        assert(out@ + Seq::<char>::empty() =~= out@);
    }
    out
}

/// Normalizes a rich-text body: converts it to Markdown, then unescapes it.
pub fn normalize(html: &str) -> (r: String)
    ensures
        r@ == unescaped(markdown_of(html@)),
{
    let md = html_to_markdown(html);
    unescape_markup(md.as_str())
}

/// Whether `c` is one of the escapable characters.
pub fn is_escapable_char(c: char) -> (r: bool)
    ensures
        r == is_escapable(c),
{
    c == '#' || c == '[' || c == ']' || c == '*' || c == '_' || c == '>' || c == '`'
}

} // verus!
