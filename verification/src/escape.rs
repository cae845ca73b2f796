//! Escaping of attribute values for the bracketed markup, its inverse, and the
//! proof that unescaping undoes escaping.

use vstd::prelude::*;
use crate::text::{replace, replace_all};

verus! {

/// What `escape` returns: `&` becomes `&amp;` first, so that the ampersands
/// of the sequences written afterwards are left alone; then `[` becomes
/// `&#91;` and `]` becomes `&#93;`; and, when `comma` is set, `,` becomes
/// `&#44;`.
pub open spec fn escaped(s: Seq<char>, comma: bool) -> Seq<char> {
    let brackets = replace_all(
        replace_all(replace_all(s, "&"@, "&amp;"@), "["@, "&#91;"@),
        "]"@,
        "&#93;"@,
    );
    if comma {
        replace_all(brackets, ","@, "&#44;"@)
    } else {
        brackets
    }
}

/// What `unescape` returns: `&#44;`, `&#91;` and `&#93;` are decoded, in that
/// order, before `&amp;` is, so that an ampersand which decoding produces is
/// never read as the start of another sequence.
pub open spec fn unescaped(s: Seq<char>) -> Seq<char> {
    replace_all(
        replace_all(replace_all(replace_all(s, "&#44;"@, ","@), "&#91;"@, "["@), "&#93;"@, "]"@),
        "&amp;"@,
        "&"@,
    )
}

/// Escapes a string for use as an attribute value in markup. `comma` says
/// whether commas are escaped too.
pub fn escape(s: &str, comma: bool) -> (r: String)
    ensures
        r@ == escaped(s@, comma),
{
    let a = replace(s, "&", "&amp;");
    let b = replace(a.as_str(), "[", "&#91;");
    let c = replace(b.as_str(), "]", "&#93;");
    if comma {
        replace(c.as_str(), ",", "&#44;")
    } else {
        c
    }
}

/// Decodes the escape sequences of markup.
pub fn unescape(s: &str) -> (r: String)
    ensures
        r@ == unescaped(s@),
{
    let a = replace(s, "&#44;", ",");
    let b = replace(a.as_str(), "&#91;", "[");
    let c = replace(b.as_str(), "&#93;", "]");
    replace(c.as_str(), "&amp;", "&")
}

/// The concatenation of `f(c)` over the characters `c` of `s`, in order.
pub open spec fn expand(s: Seq<char>, f: spec_fn(char) -> Seq<char>) -> Seq<char>
    decreases s.len(),
{
    if s.len() == 0 {
        Seq::empty()
    } else {
        f(s[0]) + expand(s.subrange(1, s.len() as int), f)
    }
}

/// What escaping writes for one character.
pub open spec fn escaped_char(c: char, comma: bool) -> Seq<char> {
    if c == '&' {
        "&amp;"@
    } else if c == '[' {
        "&#91;"@
    } else if c == ']' {
        "&#93;"@
    } else if c == ',' && comma {
        "&#44;"@
    } else {
        seq![c]
    }
}

proof fn lemma_expand_concat(a: Seq<char>, b: Seq<char>, f: spec_fn(char) -> Seq<char>)
    ensures
        expand(a + b, f) == expand(a, f) + expand(b, f),
    decreases a.len(),
{
    if a.len() == 0 {
        assert(a + b =~= b);
    } else {
        let rest = a.subrange(1, a.len() as int);
        assert((a + b).subrange(1, (a + b).len() as int) =~= rest + b);
        lemma_expand_concat(rest, b, f);
    }
}

proof fn lemma_expand_pointwise(
    s: Seq<char>,
    f: spec_fn(char) -> Seq<char>,
    g: spec_fn(char) -> Seq<char>,
)
    requires
        forall|i: int| 0 <= i < s.len() ==> f(#[trigger] s[i]) == g(s[i]),
    ensures
        expand(s, f) == expand(s, g),
    decreases s.len(),
{
    if s.len() > 0 {
        let rest = s.subrange(1, s.len() as int);
        assert(forall|i: int| 0 <= i < rest.len() ==> #[trigger] rest[i] == s[i + 1]);
        assert(f(s[0]) == g(s[0]));
        lemma_expand_pointwise(rest, f, g);
    }
}

proof fn lemma_expand_single(s: Seq<char>)
    ensures
        expand(s, |c: char| seq![c]) == s,
    decreases s.len(),
{
    if s.len() > 0 {
        lemma_expand_single(s.subrange(1, s.len() as int));
        assert(seq![s[0]] + s.subrange(1, s.len() as int) =~= s);
    }
}

/// The function that rewrites the character `p` to `to` and leaves every
/// other character as it is.
spec fn swap_char(p: char, to: Seq<char>) -> spec_fn(char) -> Seq<char> {
    |c: char|
        if c == p {
            to
        } else {
            seq![c]
        }
}

/// Replacing a one-character pattern rewrites each character on its own.
proof fn lemma_replace_char(s: Seq<char>, p: char, to: Seq<char>)
    ensures
        replace_all(s, seq![p], to) == expand(s, swap_char(p, to)),
    decreases s.len(),
{
    if s.len() > 0 {
        let rest = s.subrange(1, s.len() as int);
        lemma_replace_char(rest, p, to);
        if s[0] == p {
            assert(s.subrange(0, 1) =~= seq![p]);
        } else {
            assert(s.subrange(0, 1)[0] == s[0]);
        }
    }
}

proof fn lemma_replace_char_concat(a: Seq<char>, b: Seq<char>, p: char, to: Seq<char>)
    ensures
        replace_all(a + b, seq![p], to) == replace_all(a, seq![p], to) + replace_all(
            b,
            seq![p],
            to,
        ),
{
    lemma_replace_char(a + b, p, to);
    lemma_replace_char(a, p, to);
    lemma_replace_char(b, p, to);
    lemma_expand_concat(a, b, swap_char(p, to));
}

proof fn lemma_replace_char_absent(w: Seq<char>, p: char, to: Seq<char>)
    requires
        forall|i: int| 0 <= i < w.len() ==> w[i] != p,
    ensures
        replace_all(w, seq![p], to) == w,
{
    lemma_replace_char(w, p, to);
    lemma_expand_pointwise(w, swap_char(p, to), |c: char| seq![c]);
    lemma_expand_single(w);
}

proof fn lemma_replace_char_hit(p: char, to: Seq<char>)
    ensures
        replace_all(seq![p], seq![p], to) == to,
{
    let s = seq![p];
    assert(s.subrange(0, 1) =~= s);
    assert(replace_all(s.subrange(1, 1), s, to) =~= Seq::<char>::empty());
    assert(to + Seq::<char>::empty() =~= to);
}

proof fn lemma_literals()
    ensures
        "&"@ == seq!['&'],
        "["@ == seq!['['],
        "]"@ == seq![']'],
        ","@ == seq![','],
        "&amp;"@ == seq!['&', 'a', 'm', 'p', ';'],
        "&#91;"@ == seq!['&', '#', '9', '1', ';'],
        "&#93;"@ == seq!['&', '#', '9', '3', ';'],
        "&#44;"@ == seq!['&', '#', '4', '4', ';'],
{
    reveal_strlit("&");
    reveal_strlit("[");
    reveal_strlit("]");
    reveal_strlit(",");
    reveal_strlit("&amp;");
    reveal_strlit("&#91;");
    reveal_strlit("&#93;");
    reveal_strlit("&#44;");
    assert("&"@ =~= seq!['&']);
    assert("["@ =~= seq!['[']);
    assert("]"@ =~= seq![']']);
    assert(","@ =~= seq![',']);
    assert("&amp;"@ =~= seq!['&', 'a', 'm', 'p', ';']);
    assert("&#91;"@ =~= seq!['&', '#', '9', '1', ';']);
    assert("&#93;"@ =~= seq!['&', '#', '9', '3', ';']);
    assert("&#44;"@ =~= seq!['&', '#', '4', '4', ';']);
}

proof fn lemma_escaped_one(c: char, comma: bool)
    ensures
        escaped(seq![c], comma) == escaped_char(c, comma),
{
    lemma_literals();
    let s = seq![c];
    let a = replace_all(s, "&"@, "&amp;"@);
    let b = replace_all(a, "["@, "&#91;"@);
    let d = replace_all(b, "]"@, "&#93;"@);
    if c == '&' {
        lemma_replace_char_hit('&', "&amp;"@);
    } else {
        lemma_replace_char_absent(s, '&', "&amp;"@);
    }
    if c == '[' {
        lemma_replace_char_hit('[', "&#91;"@);
    } else {
        lemma_replace_char_absent(a, '[', "&#91;"@);
    }
    if c == ']' {
        lemma_replace_char_hit(']', "&#93;"@);
    } else {
        lemma_replace_char_absent(b, ']', "&#93;"@);
    }
    if comma {
        if c == ',' {
            lemma_replace_char_hit(',', "&#44;"@);
        } else {
            lemma_replace_char_absent(d, ',', "&#44;"@);
        }
    }
}

proof fn lemma_escaped_concat(a: Seq<char>, b: Seq<char>, comma: bool)
    ensures
        escaped(a + b, comma) == escaped(a, comma) + escaped(b, comma),
{
    lemma_literals();
    lemma_replace_char_concat(a, b, '&', "&amp;"@);
    let a1 = replace_all(a, "&"@, "&amp;"@);
    let b1 = replace_all(b, "&"@, "&amp;"@);
    lemma_replace_char_concat(a1, b1, '[', "&#91;"@);
    let a2 = replace_all(a1, "["@, "&#91;"@);
    let b2 = replace_all(b1, "["@, "&#91;"@);
    lemma_replace_char_concat(a2, b2, ']', "&#93;"@);
    let a3 = replace_all(a2, "]"@, "&#93;"@);
    let b3 = replace_all(b2, "]"@, "&#93;"@);
    lemma_replace_char_concat(a3, b3, ',', "&#44;"@);
}

/// Escaping rewrites each character on its own: the result is the
/// concatenation of what `escaped_char` gives for the characters of `s`.
pub proof fn lemma_escaped_per_char(s: Seq<char>, comma: bool)
    ensures
        escaped(s, comma) == expand(s, |c: char| escaped_char(c, comma)),
    decreases s.len(),
{
    lemma_literals();
    if s.len() == 0 {
        assert(escaped(s, comma) =~= s);
    } else {
        let rest = s.subrange(1, s.len() as int);
        assert(seq![s[0]] + rest =~= s);
        lemma_escaped_concat(seq![s[0]], rest, comma);
        lemma_escaped_one(s[0], comma);
        lemma_escaped_per_char(rest, comma);
    }
}

/// Whether the markup gives `c` a meaning of its own.
pub open spec fn reserved(c: char, comma: bool) -> bool {
    c == '&' || c == '[' || c == ']' || (c == ',' && comma)
}

proof fn lemma_expand_all(s: Seq<char>, f: spec_fn(char) -> Seq<char>, ok: spec_fn(char) -> bool)
    requires
        forall|c: char, i: int| 0 <= i < f(c).len() ==> ok(#[trigger] f(c)[i]),
    ensures
        forall|i: int| 0 <= i < expand(s, f).len() ==> ok(#[trigger] expand(s, f)[i]),
    decreases s.len(),
{
    if s.len() > 0 {
        let head = f(s[0]);
        let tail = expand(s.subrange(1, s.len() as int), f);
        lemma_expand_all(s.subrange(1, s.len() as int), f, ok);
        assert forall|i: int| 0 <= i < expand(s, f).len() implies ok(#[trigger] expand(s, f)[i]) by {
            if i < head.len() {
                assert(expand(s, f)[i] == head[i]);
            } else {
                assert(expand(s, f)[i] == tail[i - head.len()]);
            }
        }
    }
}

/// An escaped string holds no bracket and, where commas were escaped, no
/// comma: whatever the value, it cannot end the markup that it stands in
/// nor start an attribute of its own.
pub proof fn lemma_escaped_is_inert(s: Seq<char>, comma: bool)
    ensures
        forall|i: int|
            0 <= i < escaped(s, comma).len() ==> {
                let c = #[trigger] escaped(s, comma)[i];
                c != '[' && c != ']' && (comma ==> c != ',')
            },
{
    lemma_literals();
    lemma_escaped_per_char(s, comma);
    let f = |c: char| escaped_char(c, comma);
    let ok = |c: char| c != '[' && c != ']' && (comma ==> c != ',');
    assert forall|c: char, i: int| 0 <= i < f(c).len() implies ok(#[trigger] f(c)[i]) by {}
    lemma_expand_all(s, f, ok);
}

/// Escaping leaves a string without reserved characters as it is.
pub proof fn lemma_escaped_plain(s: Seq<char>, comma: bool)
    requires
        forall|i: int| 0 <= i < s.len() ==> !reserved(#[trigger] s[i], comma),
    ensures
        escaped(s, comma) == s,
{
    lemma_literals();
    lemma_escaped_per_char(s, comma);
    lemma_expand_pointwise(s, |c: char| escaped_char(c, comma), |c: char| seq![c]);
    lemma_expand_single(s);
}

/// No ampersand occurs in `u`.
spec fn plain(u: Seq<char>) -> bool {
    forall|i: int| 0 <= i < u.len() ==> u[i] != '&'
}

/// `u` has the shape of an escape sequence: five characters, of which the
/// first, and only the first, is an ampersand.
spec fn entity(u: Seq<char>) -> bool {
    &&& u.len() == 5
    &&& u[0] == '&'
    &&& forall|i: int| 1 <= i < 5 ==> u[i] != '&'
}

/// The encoding `f` with the block `pat` decoded to `to`.
spec fn decoded(f: spec_fn(char) -> Seq<char>, pat: Seq<char>, to: Seq<char>) -> spec_fn(
    char,
) -> Seq<char> {
    |c: char|
        if f(c) == pat {
            to
        } else {
            f(c)
        }
}

proof fn lemma_replace_skips_plain(u: Seq<char>, t: Seq<char>, pat: Seq<char>, to: Seq<char>)
    requires
        plain(u),
        pat.len() > 0,
        pat[0] == '&',
    ensures
        replace_all(u + t, pat, to) == u + replace_all(t, pat, to),
    decreases u.len(),
{
    let x = u + t;
    if u.len() == 0 {
        assert(x =~= t);
        assert(u + replace_all(t, pat, to) =~= replace_all(t, pat, to));
    } else if x.len() < pat.len() {
        assert(replace_all(t, pat, to) == t);
    } else {
        let rest = u.subrange(1, u.len() as int);
        assert(x.subrange(0, pat.len() as int)[0] == u[0]);
        assert(x.subrange(1, x.len() as int) =~= rest + t);
        lemma_replace_skips_plain(rest, t, pat, to);
        assert(seq![u[0]] + (rest + replace_all(t, pat, to)) =~= u + replace_all(t, pat, to));
    }
}

proof fn lemma_replace_entity(w: Seq<char>, t: Seq<char>, pat: Seq<char>, to: Seq<char>)
    requires
        entity(w),
        entity(pat),
    ensures
        replace_all(w + t, pat, to) == (if w == pat {
            to
        } else {
            w
        }) + replace_all(t, pat, to),
{
    let x = w + t;
    assert(x.subrange(0, 5) =~= w);
    if w == pat {
        assert(x.subrange(5, x.len() as int) =~= t);
    } else {
        let body = w.subrange(1, 5);
        assert(x.subrange(1, x.len() as int) =~= body + t);
        lemma_replace_skips_plain(body, t, pat, to);
        assert(seq![w[0]] + (body + replace_all(t, pat, to)) =~= w + replace_all(t, pat, to));
    }
}

/// Replacing one escape sequence in a text made of whole blocks, each plain
/// or shaped like an escape sequence, decodes exactly the blocks equal to it.
proof fn lemma_replace_blocks(
    s: Seq<char>,
    f: spec_fn(char) -> Seq<char>,
    pat: Seq<char>,
    to: Seq<char>,
)
    requires
        entity(pat),
        forall|c: char| plain(#[trigger] f(c)) || entity(f(c)),
    ensures
        replace_all(expand(s, f), pat, to) == expand(s, decoded(f, pat, to)),
    decreases s.len(),
{
    if s.len() == 0 {
    } else {
        let rest = s.subrange(1, s.len() as int);
        let w = f(s[0]);
        let t = expand(rest, f);
        lemma_replace_blocks(rest, f, pat, to);
        if plain(w) {
            lemma_replace_skips_plain(w, t, pat, to);
            assert(w != pat) by {
                if w == pat {
                    assert(w[0] == '&');
                }
            }
        } else {
            lemma_replace_entity(w, t, pat, to);
        }
    }
}

/// Unescaping undoes escaping, for every string and whether or not commas
/// were escaped.
pub proof fn lemma_unescape_escape(s: Seq<char>, comma: bool)
    ensures
        unescaped(escaped(s, comma)) == s,
{
    lemma_literals();
    lemma_escaped_per_char(s, comma);
    let e0 = |c: char| escaped_char(c, comma);
    let e1 = decoded(e0, "&#44;"@, ","@);
    let e2 = decoded(e1, "&#91;"@, "["@);
    let e3 = decoded(e2, "&#93;"@, "]"@);
    let e4 = decoded(e3, "&amp;"@, "&"@);
    assert forall|c: char| plain(#[trigger] e0(c)) || entity(e0(c)) by {}
    lemma_replace_blocks(s, e0, "&#44;"@, ","@);
    assert forall|c: char| plain(#[trigger] e1(c)) || entity(e1(c)) by {
        assert(plain(e0(c)) || entity(e0(c)));
    }
    lemma_replace_blocks(s, e1, "&#91;"@, "["@);
    assert forall|c: char| plain(#[trigger] e2(c)) || entity(e2(c)) by {
        assert(plain(e1(c)) || entity(e1(c)));
    }
    lemma_replace_blocks(s, e2, "&#93;"@, "]"@);
    assert forall|c: char| plain(#[trigger] e3(c)) || entity(e3(c)) by {
        assert(plain(e2(c)) || entity(e2(c)));
    }
    lemma_replace_blocks(s, e3, "&amp;"@, "&"@);
    assert forall|i: int| 0 <= i < s.len() implies e4(#[trigger] s[i]) == seq![s[i]] by {
        let c = s[i];
        assert(e0(c) == escaped_char(c, comma));
    }
    lemma_expand_pointwise(s, e4, |c: char| seq![c]);
    lemma_expand_single(s);
}

} // verus!
