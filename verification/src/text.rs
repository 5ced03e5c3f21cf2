//! Small verified operations on strings, stated over their characters.

use vstd::prelude::*;

verus! {

/// Whether `prefix` is the beginning of `s`.
pub open spec fn has_prefix(s: Seq<char>, prefix: Seq<char>) -> bool {
    prefix.len() <= s.len() && s.subrange(0, prefix.len() as int) == prefix
}

/// Whether `suffix` is the end of `s`.
pub open spec fn has_suffix(s: Seq<char>, suffix: Seq<char>) -> bool {
    suffix.len() <= s.len() && s.subrange(s.len() - suffix.len(), s.len() as int) == suffix
}

/// The texts of a sequence of strings.
pub open spec fn texts(v: Seq<String>) -> Seq<Seq<char>> {
    Seq::new(v.len(), |i: int| v[i]@)
}

/// The parts written one after another, with `sep` between neighbours.
pub open spec fn joined(parts: Seq<Seq<char>>, sep: Seq<char>) -> Seq<char>
    decreases parts.len(),
{
    if parts.len() == 0 {
        Seq::empty()
    } else if parts.len() == 1 {
        parts[0]
    } else {
        joined(parts.drop_last(), sep) + sep + parts.last()
    }
}

/// The character that writes the decimal digit `d`.
pub open spec fn digit_char(d: nat) -> char {
    if d == 0 {
        '0'
    } else if d == 1 {
        '1'
    } else if d == 2 {
        '2'
    } else if d == 3 {
        '3'
    } else if d == 4 {
        '4'
    } else if d == 5 {
        '5'
    } else if d == 6 {
        '6'
    } else if d == 7 {
        '7'
    } else if d == 8 {
        '8'
    } else {
        '9'
    }
}

/// The decimal numeral of `n`, without leading zeros; `0` is written "0".
pub open spec fn decimal(n: nat) -> Seq<char>
    decreases n,
{
    if n < 10 {
        seq![digit_char(n)]
    } else {
        decimal(n / 10).push(digit_char(n % 10))
    }
}

/// The characters of a string, in order.
pub fn chars_of(s: &str) -> (v: Vec<char>)
    ensures
        v@ == s@,
{
    let mut v: Vec<char> = Vec::new();
    for c in it: s.chars()
        invariant
            v@ == it.seq().take(it.index() as int),
            it.seq() == s@,
    {
        v.push(c);
    }
    v
}

/// Tests whether `s` begins with `prefix`.
pub fn starts_with(s: &str, prefix: &str) -> (r: bool)
    ensures
        r == has_prefix(s@, prefix@),
{
    let a = chars_of(s);
    let p = chars_of(prefix);
    if p.len() > a.len() {
        return false;
    }
    let mut i: usize = 0;
    while i < p.len()
        invariant
            a@ == s@,
            p@ == prefix@,
            i <= p.len() <= a.len(),
            a@.subrange(0, i as int) == p@.subrange(0, i as int),
        decreases p.len() - i,
    {
        if a[i] != p[i] {
            assert(a@.subrange(0, p.len() as int)[i as int] != p@[i as int]);
            return false;
        }
        assert(a@.subrange(0, i + 1) == a@.subrange(0, i as int).push(a@[i as int]));
        assert(p@.subrange(0, i + 1) == p@.subrange(0, i as int).push(p@[i as int]));
        i = i + 1;
    }
    assert(p@.subrange(0, p.len() as int) == p@);
    true
}

/// Tests whether two strings hold the same text.
pub fn same_text(a: &str, b: &str) -> (r: bool)
    ensures
        r == (a@ == b@),
{
    let r = starts_with(a, b) && a.unicode_len() == b.unicode_len();
    assert(a@.subrange(0, a@.len() as int) =~= a@);
    r
}

/// Tests whether `s` ends with `suffix`.
pub fn ends_with(s: &str, suffix: &str) -> (r: bool)
    ensures
        r == has_suffix(s@, suffix@),
{
    let a = chars_of(s);
    let p = chars_of(suffix);
    if p.len() > a.len() {
        return false;
    }
    let off: usize = a.len() - p.len();
    let mut i: usize = 0;
    while i < p.len()
        invariant
            a@ == s@,
            p@ == suffix@,
            i <= p.len() <= a.len(),
            off == a.len() - p.len(),
            a@.subrange(off as int, off + i) == p@.subrange(0, i as int),
        decreases p.len() - i,
    {
        if a[off + i] != p[i] {
            assert(a@.subrange(off as int, a.len() as int)[i as int] != p@[i as int]);
            return false;
        }
        assert(a@.subrange(off as int, off + i + 1) == a@.subrange(off as int, off + i).push(
            a@[off + i],
        ));
        assert(p@.subrange(0, i + 1) == p@.subrange(0, i as int).push(p@[i as int]));
        i = i + 1;
    }
    assert(p@.subrange(0, p.len() as int) == p@);
    true
}

/// What is left of `s` after `prefix`, if `s` begins with it.
pub fn strip_prefix(s: &str, prefix: &str) -> (r: Option<String>)
    ensures
        has_prefix(s@, prefix@) ==> r is Some && r->0@ == s@.skip(prefix@.len() as int),
        !has_prefix(s@, prefix@) ==> r is None,
{
    if starts_with(s, prefix) {
        let from: usize = prefix.unicode_len();
        let to: usize = s.unicode_len();
        Some(s.substring_char(from, to).to_owned())
    } else {
        None
    }
}

/// Writes the strings one after another, with `sep` between neighbours.
pub fn join(parts: &Vec<String>, sep: &str) -> (r: String)
    ensures
        r@ == joined(texts(parts@), sep@),
{
    let mut out = String::new();
    let mut i: usize = 0;
    while i < parts.len()
        invariant
            i <= parts.len(),
            out@ == joined(texts(parts@).take(i as int), sep@),
        decreases parts.len() - i,
    {
        let ghost before = texts(parts@).take(i as int);
        let ghost after = texts(parts@).take(i + 1);
        assert(after.drop_last() == before);
        assert(after.last() == parts@[i as int]@);
        if i > 0 {
            out.append(sep);
        } else {
            assert(out@ + parts@[i as int]@ == parts@[i as int]@);
        }
        out.append(parts[i].as_str());
        i = i + 1;
    }
    assert(texts(parts@).take(parts.len() as int) == texts(parts@));
    out
}

/// The one-character text of a decimal digit.
fn digit_text(d: u32) -> (r: &'static str)
    requires
        d < 10,
    ensures
        r@ == seq![digit_char(d as nat)],
{
    proof {
        reveal_strlit("0");
        reveal_strlit("1");
        reveal_strlit("2");
        reveal_strlit("3");
        reveal_strlit("4");
        reveal_strlit("5");
        reveal_strlit("6");
        reveal_strlit("7");
        reveal_strlit("8");
        reveal_strlit("9");
    }
    let r = if d == 0 {
        "0"
    } else if d == 1 {
        "1"
    } else if d == 2 {
        "2"
    } else if d == 3 {
        "3"
    } else if d == 4 {
        "4"
    } else if d == 5 {
        "5"
    } else if d == 6 {
        "6"
    } else if d == 7 {
        "7"
    } else if d == 8 {
        "8"
    } else {
        "9"
    };
    assert(r@ =~= seq![digit_char(d as nat)]);
    r
}

/// Appends the decimal numeral of `n` to `out`.
pub fn push_decimal(out: &mut String, n: u32)
    ensures
        final(out)@ == old(out)@ + decimal(n as nat),
    decreases n,
{
    if n >= 10 {
        push_decimal(out, n / 10);
    }
    out.append(digit_text(n % 10));
    assert(final(out)@ =~= old(out)@ + decimal(n as nat));
}

/// The decimal numeral of `n`.
pub fn to_decimal(n: u32) -> (r: String)
    ensures
        r@ == decimal(n as nat),
{
    let mut out = String::new();
    push_decimal(&mut out, n);
    out
}

} // verus!
