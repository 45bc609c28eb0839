//! Filling of request templates: every `${{name}}` placeholder is replaced.
use vstd::prelude::*;
use vstd::string::*;

verus! {

/// The placeholder written in a template for the parameter `param`: `${{param}}`.
pub open spec fn placeholder(param: Seq<char>) -> Seq<char> {
    "${{"@ + param + "}}"@
}

/// `text` with every occurrence of `pat` replaced by `with`, occurrences
/// taken from left to right without overlap (an empty `pat` matches nothing).
pub open spec fn replace_all(text: Seq<char>, pat: Seq<char>, with: Seq<char>) -> Seq<char>
    decreases text.len(),
{
    if text.len() == 0 {
        Seq::empty()
    } else if 0 < pat.len() <= text.len() && text.take(pat.len() as int) == pat {
        with + replace_all(text.skip(pat.len() as int), pat, with)
    } else {
        seq![text[0]] + replace_all(text.skip(1), pat, with)
    }
}

/// Appends one character to a string (`String::push`).
#[verifier::external_body]
fn push_char(s: &mut String, c: char)
    ensures
        final(s)@ == old(s)@.push(c),
{
    s.push(c);
}

/// The characters of a string slice, in order.
fn chars_of(s: &str) -> (r: Vec<char>)
    ensures
        r@ == s@,
{
    let mut r: Vec<char> = Vec::new();
    for c in it: s.chars()
        invariant
            r@ == it.seq().take(it.index() as int),
            it.seq() == s@,
    {
        r.push(c);
    }
    r
}


/// Whether `pat` occurs in `t` at position `i`.
fn matches_at(t: &Vec<char>, i: usize, pat: &Vec<char>) -> (r: bool)
    requires
        i <= t@.len(),
    ensures
        r == (0 < pat@.len() && i + pat@.len() <= t@.len()
            && t@.subrange(i as int, i + pat@.len()) == pat@),
{
    if pat.len() == 0 || pat.len() > t.len() - i {
        return false;
    }
    let mut j: usize = 0;
    while j < pat.len()
        invariant
            0 < pat@.len(),
            i + pat@.len() <= t@.len(),
            j <= pat@.len(),
            i + pat.len() <= t.len(),
            forall|k: int| 0 <= k < j ==> t@[i + k] == #[trigger] pat@[k],
        decreases pat@.len() - j,
    {
        if t[i + j] != pat[j] {
            assert(t@.subrange(i as int, i + pat@.len())[j as int] != pat@[j as int]);
            return false;
        }
        j = j + 1;
    }
    assert(t@.subrange(i as int, i + pat@.len()) =~= pat@);
    true
}

/// Replaces every `${{param}}` placeholder of `text` by `value`.
pub fn replace_param(text: &String, param: &str, value: String) -> (r: String)
    ensures
        r@ == replace_all(text@, placeholder(param@), value@),
{
    let mut pattern = String::from_str("${{");
    pattern.append(param);
    pattern.append("}}");
    let t = chars_of(text.as_str());
    let pat = chars_of(pattern.as_str());
    let ghost p = placeholder(param@);
    assert(pat@ == p);
    let mut out = String::new();
    let mut i: usize = 0;
    assert(t@.skip(0) =~= t@);
    while i < t.len()
        invariant
            i <= t@.len(),
            t@ == text@,
            pat@ == p,
            out@ + replace_all(t@.skip(i as int), p, value@) == replace_all(t@, p, value@),
        decreases t@.len() - i,
    {
        let ghost rest = t@.skip(i as int);
        if matches_at(&t, i, &pat) {
            assert(rest.take(p.len() as int) =~= t@.subrange(i as int, i + p.len()));
            assert(rest.skip(p.len() as int) =~= t@.skip(i + p.len()));
            let ghost before = out@;
            out.append(value.as_str());
            assert(out@ + replace_all(t@.skip(i + p.len()), p, value@)
                =~= before + (value@ + replace_all(rest.skip(p.len() as int), p, value@)));
            i = i + pat.len();
        } else {
            assert(0 < p.len() <= rest.len() ==> rest.take(p.len() as int)
                =~= t@.subrange(i as int, i + p.len()));
            assert(rest.skip(1) =~= t@.skip(i + 1));
            let ghost before = out@;
            push_char(&mut out, t[i]);
            assert(out@ + replace_all(t@.skip(i + 1), p, value@)
                =~= before + (seq![rest[0]] + replace_all(rest.skip(1), p, value@)));
            i = i + 1;
        }
    }
    assert(t@.skip(i as int) =~= Seq::<char>::empty());
    assert(out@ =~= replace_all(t@, p, value@));
    out
}


/// Whether `pat` occurs in `text` at position `i`.
pub open spec fn occurs_at(text: Seq<char>, pat: Seq<char>, i: int) -> bool {
    0 <= i && i + pat.len() <= text.len() && text.subrange(i, i + pat.len()) == pat
}

/// Whether `pat` occurs anywhere in `text`.
pub open spec fn occurs_in(text: Seq<char>, pat: Seq<char>) -> bool {
    exists|i: int| occurs_at(text, pat, i)
}

/// Whether `text` holds no `$`, the character that opens every placeholder.
pub open spec fn no_dollar(text: Seq<char>) -> bool {
    forall|i: int| 0 <= i < text.len() ==> text[i] != '$'
}

/// A text in which the placeholder does not occur comes back unchanged.
pub proof fn lemma_fill_without_placeholder(text: Seq<char>, pat: Seq<char>, with: Seq<char>)
    requires
        !occurs_in(text, pat),
    ensures
        replace_all(text, pat, with) == text,
    decreases text.len(),
{
    if text.len() > 0 {
        if 0 < pat.len() <= text.len() && text.take(pat.len() as int) == pat {
            assert(text.subrange(0, pat.len() as int) =~= text.take(pat.len() as int));
            assert(occurs_at(text, pat, 0));
        }
        let rest = text.skip(1);
        assert forall|i: int| !occurs_at(rest, pat, i) by {
            if occurs_at(rest, pat, i) {
                assert(rest.subrange(i, i + pat.len()) =~= text.subrange(i + 1, i + 1 + pat.len()));
                assert(occurs_at(text, pat, i + 1));
            }
        }
        lemma_fill_without_placeholder(rest, pat, with);
        assert(text =~= seq![text[0]] + rest);
    }
}

/// Putting the placeholder itself in its place changes nothing.
pub proof fn lemma_fill_with_itself(text: Seq<char>, pat: Seq<char>)
    ensures
        replace_all(text, pat, pat) == text,
    decreases text.len(),
{
    if text.len() > 0 {
        if 0 < pat.len() <= text.len() && text.take(pat.len() as int) == pat {
            lemma_fill_with_itself(text.skip(pat.len() as int), pat);
            assert(text =~= text.take(pat.len() as int) + text.skip(pat.len() as int));
        } else {
            lemma_fill_with_itself(text.skip(1), pat);
            assert(text =~= seq![text[0]] + text.skip(1));
        }
    }
}

/// A prefix that holds no first character of the placeholder is kept as it is.
proof fn lemma_fill_keeps_prefix(a: Seq<char>, t: Seq<char>, pat: Seq<char>, with: Seq<char>)
    requires
        pat.len() > 0,
        forall|i: int| 0 <= i < a.len() ==> a[i] != pat[0],
    ensures
        replace_all(a + t, pat, with) == a + replace_all(t, pat, with),
    decreases a.len(),
{
    if a.len() > 0 {
        let at = a + t;
        if pat.len() <= at.len() && at.take(pat.len() as int) == pat {
            assert(at.take(pat.len() as int)[0] == a[0]);
        }
        assert(at.skip(1) =~= a.skip(1) + t);
        lemma_fill_keeps_prefix(a.skip(1), t, pat, with);
        assert(a =~= seq![a[0]] + a.skip(1));
        assert(a + replace_all(t, pat, with) =~= seq![a[0]] + (a.skip(1) + replace_all(t, pat, with)));
    }
}

/// A template made of a text, one placeholder and a text, neither text
/// holding a `$`, is filled to the first text, the value and the second text.
pub proof fn lemma_fill_single_placeholder(a: Seq<char>, param: Seq<char>, b: Seq<char>, value: Seq<char>)
    requires
        no_dollar(a),
        no_dollar(b),
    ensures
        replace_all(a + placeholder(param) + b, placeholder(param), value) == a + value + b,
{
    reveal_strlit("${{");
    reveal_strlit("}}");
    let p = placeholder(param);
    assert(p[0] == '$');
    assert(a + p + b =~= a + (p + b));
    lemma_fill_keeps_prefix(a, p + b, p, value);
    assert((p + b).take(p.len() as int) =~= p);
    assert((p + b).skip(p.len() as int) =~= b);
    assert forall|i: int| !occurs_at(b, p, i) by {
        if occurs_at(b, p, i) {
            assert(b.subrange(i, i + p.len())[0] == b[i]);
        }
    }
    lemma_fill_without_placeholder(b, p, value);
    assert(a + value + b =~= a + (value + b));
}

} // verus!
