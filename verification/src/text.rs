//! Small verified helpers for building and inspecting strings.

use vstd::prelude::*;

verus! {

/// Relies on String::push: appends exactly one character to the string.
#[verifier::external_body]
pub(crate) fn push_char(s: &mut String, c: char)
    ensures
        final(s)@ == old(s)@.push(c),
{
    s.push(c);
}

/// `n` copies of one character.
pub open spec fn seq_repeat(c: char, n: int) -> Seq<char> {
    Seq::new(
        if n >= 0 {
            n as nat
        } else {
            0
        },
        |i: int| c,
    )
}

/// Append `n` copies of a character.
pub fn push_repeat(s: &mut String, c: char, n: usize)
    ensures
        final(s)@ == old(s)@ + seq_repeat(c, n as int),
{
    let mut i: usize = 0;
    proof {
        assert(s@ + seq_repeat(c, 0) =~= s@);
    }
    while i < n
        invariant
            0 <= i <= n,
            s@ == old(s)@ + seq_repeat(c, i as int),
        decreases n - i,
    {
        push_char(s, c);
        proof {
            assert(old(s)@ + seq_repeat(c, i + 1) =~= (old(s)@ + seq_repeat(c, i as int)).push(c));
        }
        i = i + 1;
    }
}

/// Whether `p` is a prefix of `s`.
pub open spec fn is_prefix(p: Seq<char>, s: Seq<char>) -> bool {
    p.len() <= s.len() && s.subrange(0, p.len() as int) == p
}

/// Whether one string starts with another, proved against the views.
pub fn starts_with(s: &str, p: &str) -> (r: bool)
    ensures
        r <==> is_prefix(p@, s@),
{
    let plen = p.unicode_len();
    let slen = s.unicode_len();
    if plen > slen {
        return false;
    }
    let mut i: usize = 0;
    while i < plen
        invariant
            0 <= i <= plen,
            plen == p@.len(),
            slen == s@.len(),
            plen <= slen,
            forall|j: int| 0 <= j < i ==> s@[j] == p@[j],
        decreases plen - i,
    {
        if s.get_char(i) != p.get_char(i) {
            assert(s@.subrange(0, plen as int)[i as int] != p@[i as int]);
            return false;
        }
        i = i + 1;
    }
    assert(s@.subrange(0, plen as int) =~= p@);
    true
}

/// Character-by-character string equality, proved against the views.
pub fn eq_str(a: &str, b: &str) -> (r: bool)
    ensures
        r <==> a@ == b@,
{
    let alen = a.unicode_len();
    let blen = b.unicode_len();
    if alen != blen {
        assert(a@.len() != b@.len());
        assert(a@ != b@);
        return false;
    }
    let mut i: usize = 0;
    while i < alen
        invariant
            0 <= i <= alen,
            alen == a@.len(),
            alen == b@.len(),
            forall|j: int| 0 <= j < i ==> a@[j] == b@[j],
        decreases alen - i,
    {
        if a.get_char(i) != b.get_char(i) {
            assert(a@[i as int] != b@[i as int]);
            assert(a@ != b@);
            return false;
        }
        i = i + 1;
    }
    assert(a@ =~= b@);
    true
}

/// The decimal digit character of a value below ten.
pub open spec fn digit_char(d: int) -> char {
    if d == 0 {
        '0'
    } else if d == 1 {
        '1'
    } else if d == 2 {
        '2'
    } else if d == 3 {
        '3'
    } else if d == 4 {
        '4'
    } else if d == 5 {
        '5'
    } else if d == 6 {
        '6'
    } else if d == 7 {
        '7'
    } else if d == 8 {
        '8'
    } else {
        '9'
    }
}

/// The decimal spelling of a number.
pub open spec fn dec_str(n: int) -> Seq<char>
    decreases n,
{
    if n < 10 {
        seq![digit_char(n)]
    } else {
        dec_str(n / 10).push(digit_char(n % 10))
    }
}

/// Append the decimal spelling of a number.
pub fn push_u32(s: &mut String, n: u32)
    ensures
        final(s)@ == old(s)@ + dec_str(n as int),
    decreases n,
{
    if n >= 10 {
        push_u32(s, n / 10);
    }
    let c: char = match n % 10 {
        0 => '0',
        1 => '1',
        2 => '2',
        3 => '3',
        4 => '4',
        5 => '5',
        6 => '6',
        7 => '7',
        8 => '8',
        _ => '9',
    };
    assert(c == digit_char(n as int % 10));
    push_char(s, c);
    proof {
        if n < 10 {
            assert(old(s)@ + dec_str(n as int) =~= old(s)@.push(c));
        } else {
            assert(old(s)@ + dec_str(n as int) =~= (old(s)@ + dec_str(n as int / 10)).push(c));
        }
    }
}

/// The HTML spelling of one character: the four markup-significant
/// characters become entities, every other character stands as itself.
pub open spec fn esc_char(c: char) -> Seq<char> {
    if c == '&' {
        "&amp;"@
    } else if c == '<' {
        "&lt;"@
    } else if c == '>' {
        "&gt;"@
    } else if c == '"' {
        "&quot;"@
    } else {
        seq![c]
    }
}

/// A string with its markup-significant characters escaped.
pub open spec fn esc(s: Seq<char>) -> Seq<char>
    decreases s.len(),
{
    if s.len() == 0 {
        Seq::empty()
    } else {
        esc(s.drop_last()) + esc_char(s.last())
    }
}

/// Escape a string for embedding in HTML text or attribute values.
pub fn escape_html(s: &str) -> (r: String)
    ensures
        r@ == esc(s@),
{
    let len = s.unicode_len();
    let mut out = String::new();
    let mut i: usize = 0;
    proof {
        assert(out@ =~= esc(s@.take(0)));
    }
    while i < len
        invariant
            0 <= i <= len,
            len == s@.len(),
            out@ == esc(s@.take(i as int)),
        decreases len - i,
    {
        let c = s.get_char(i);
        proof {
            assert(s@.take(i + 1).drop_last() =~= s@.take(i as int));
            assert(s@.take(i + 1).last() == s@[i as int]);
        }
        if c == '&' {
            out.append("&amp;");
        } else if c == '<' {
            out.append("&lt;");
        } else if c == '>' {
            out.append("&gt;");
        } else if c == '"' {
            out.append("&quot;");
        } else {
            push_char(&mut out, c);
            proof {
                assert(esc_char(c) =~= seq![c]);
                assert(out@ =~= esc(s@.take(i as int)) + esc_char(c));
            }
        }
        i = i + 1;
    }
    proof {
        assert(s@.take(len as int) =~= s@);
    }
    out
}

/// A string with every occurrence of one pattern replaced by another,
/// scanning left to right without overlap.
pub open spec fn spec_replace(s: Seq<char>, from: Seq<char>, to: Seq<char>) -> Seq<char>
    decreases s.len(),
    when from.len() >= 1
{
    if s.len() == 0 {
        Seq::empty()
    } else if is_prefix(from, s) {
        to + spec_replace(s.skip(from.len() as int), from, to)
    } else {
        seq![s[0]] + spec_replace(s.drop_first(), from, to)
    }
}

/// Whether `from` occurs in `s` at position `i`.
fn matches_at(s: &str, i: usize, from: &str) -> (r: bool)
    requires
        i <= s@.len(),
    ensures
        r <==> is_prefix(from@, s@.skip(i as int)),
{
    let slen = s.unicode_len();
    let flen = from.unicode_len();
    if flen > slen - i {
        assert(!is_prefix(from@, s@.skip(i as int)));
        return false;
    }
    let mut j: usize = 0;
    while j < flen
        invariant
            0 <= j <= flen,
            i <= s@.len(),
            flen == from@.len(),
            slen == s@.len(),
            flen <= slen - i,
            forall|k: int| 0 <= k < j ==> s@[i + k] == from@[k],
        decreases flen - j,
    {
        if s.get_char(i + j) != from.get_char(j) {
            assert(s@.skip(i as int).subrange(0, flen as int)[j as int] != from@[j as int]);
            return false;
        }
        j = j + 1;
    }
    assert(s@.skip(i as int).subrange(0, flen as int) =~= from@);
    true
}

/// Replace every occurrence of `from` in `s` by `to`, scanning left to
/// right without overlap.
pub fn replace(s: &str, from: &str, to: &str) -> (r: String)
    requires
        from@.len() >= 1,
    ensures
        r@ == spec_replace(s@, from@, to@),
{
    let len = s.unicode_len();
    let flen = from.unicode_len();
    let mut out = String::new();
    let mut i: usize = 0;
    proof {
        assert(s@.skip(0) =~= s@);
        assert(out@ + spec_replace(s@, from@, to@) =~= spec_replace(s@, from@, to@));
    }
    while i < len
        invariant
            0 <= i <= len,
            len == s@.len(),
            flen == from@.len(),
            flen >= 1,
            spec_replace(s@, from@, to@) == out@ + spec_replace(s@.skip(i as int), from@, to@),
        decreases len - i,
    {
        if matches_at(s, i, from) {
            out.append(to);
            proof {
                assert(s@.skip(i as int).skip(flen as int) =~= s@.skip(i + flen));
            }
            i = i + flen;
        } else {
            proof {
                assert(s@.skip(i as int)[0] == s@[i as int]);
                assert(s@.skip(i as int).drop_first() =~= s@.skip(i + 1));
            }
            push_char(&mut out, s.get_char(i));
            i = i + 1;
        }
    }
    proof {
        assert(s@.skip(len as int) =~= Seq::<char>::empty());
        assert(out@ + Seq::<char>::empty() =~= out@);
    }
    out
}

/// The view of an optional owned string.
pub open spec fn opt_view(v: Option<String>) -> Option<Seq<char>> {
    match v {
        Some(s) => Some(s@),
        None => None,
    }
}

/// An optional HTML attribute: nothing when absent, a leading space, the
/// name, and the escaped value in quotes when present.
pub open spec fn opt_attr(name: Seq<char>, v: Option<Seq<char>>) -> Seq<char> {
    match v {
        Some(x) => " "@ + name + "=\""@ + esc(x) + "\""@,
        None => Seq::empty(),
    }
}

/// A required HTML attribute: a leading space, the name, and the escaped
/// value in quotes.
pub open spec fn attr(name: Seq<char>, v: Seq<char>) -> Seq<char> {
    " "@ + name + "=\""@ + esc(v) + "\""@
}

/// Append an optional attribute.
pub fn push_opt_attr(out: &mut String, name: &str, v: &Option<String>)
    ensures
        final(out)@ == old(out)@ + opt_attr(name@, opt_view(*v)),
{
    match v {
        Some(x) => {
            out.append(" ");
            out.append(name);
            out.append("=\"");
            out.append(escape_html(x.as_str()).as_str());
            out.append("\"");
            proof {
                assert(out@ =~= old(out)@ + opt_attr(name@, opt_view(*v)));
            }
        },
        None => {
            proof {
                assert(out@ =~= old(out)@ + opt_attr(name@, opt_view(*v)));
            }
        },
    }
}

/// Append a required attribute.
pub fn push_attr(out: &mut String, name: &str, v: &str)
    ensures
        final(out)@ == old(out)@ + attr(name@, v@),
{
    out.append(" ");
    out.append(name);
    out.append("=\"");
    out.append(escape_html(v).as_str());
    out.append("\"");
    proof {
        assert(out@ =~= old(out)@ + attr(name@, v@));
    }
}

} // verus!
