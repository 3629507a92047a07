//! Character-level string helpers shared by the other modules.

use vstd::prelude::*;
use substring::Substring;

verus! {

/// Appends one character to a string (std `String::push`).
#[verifier::external_body]
pub(crate) fn push_char(s: &mut String, c: char)
    ensures
        final(s)@ == old(s)@.push(c),
{
    s.push(c);
}

/// What `Substring::substring` of the `substring` crate returns: the characters
/// from `start` up to `end`, both clamped to the length, and nothing when
/// `end <= start`.
pub open spec fn substring_spec(s: Seq<char>, start: int, end: int) -> Seq<char> {
    if end <= start {
        Seq::empty()
    } else {
        let lo = if start < s.len() { start } else { s.len() as int };
        let hi = if end < s.len() { end } else { s.len() as int };
        s.subrange(lo, hi)
    }
}

/// `Substring::substring` of the `substring` crate: the character range
/// `start..end`, clamped to the string; empty when `end <= start`.
#[verifier::external_body]
pub(crate) fn substring(s: &str, start: usize, end: usize) -> (r: String)
    ensures
        r@ == substring_spec(s@, start as int, end as int),
{
    s.substring(start, end).to_string()
}

/// The characters of a string slice, in order.
pub fn chars_of(s: &str) -> (r: Vec<char>)
    ensures
        r@ == s@,
{
    let n = s.unicode_len();
    let mut r: Vec<char> = Vec::new();
    let mut i: usize = 0;
    while i < n
        invariant
            n == s@.len(),
            i <= n,
            r@ == s@.subrange(0, i as int),
        decreases n - i,
    {
        let c = s.get_char(i);
        r.push(c);
        i = i + 1;
        assert(r@ =~= s@.subrange(0, i as int));
    }
    assert(r@ =~= s@);
    r
}

/// Appends the characters `cs[from..to]` to `out`.
pub fn append_chars(out: &mut String, cs: &Vec<char>, from: usize, to: usize)
    requires
        from <= to <= cs@.len(),
    ensures
        final(out)@ == old(out)@ + cs@.subrange(from as int, to as int),
{
    let mut i = from;
    while i < to
        invariant
            from <= i <= to,
            to <= cs@.len(),
            out@ == old(out)@ + cs@.subrange(from as int, i as int),
        decreases to - i,
    {
        push_char(out, cs[i]);
        assert(cs@.subrange(from as int, i + 1) =~= cs@.subrange(from as int, i as int).push(cs@[i as int]));
        i = i + 1;
    }
}

/// A string holding exactly the given characters.
pub fn string_of(cs: &Vec<char>) -> (r: String)
    ensures
        r@ == cs@,
{
    let mut r = String::new();
    append_chars(&mut r, cs, 0, cs.len());
    assert(cs@.subrange(0, cs@.len() as int) =~= cs@);
    r
}

/// Whether two string slices hold the same characters.
pub fn str_eq(a: &str, b: &str) -> (r: bool)
    ensures
        r == (a@ == b@),
{
    let n = a.unicode_len();
    let m = b.unicode_len();
    if n != m {
        return false;
    }
    let mut i: usize = 0;
    while i < n
        invariant
            n == a@.len(),
            m == b@.len(),
            n == m,
            i <= n,
            a@.subrange(0, i as int) == b@.subrange(0, i as int),
        decreases n - i,
    {
        if a.get_char(i) != b.get_char(i) {
            assert(a@[i as int] != b@[i as int]);
            return false;
        }
        assert(a@.subrange(0, i + 1) =~= a@.subrange(0, i as int).push(a@[i as int]));
        assert(b@.subrange(0, i + 1) =~= b@.subrange(0, i as int).push(b@[i as int]));
        i = i + 1;
    }
    assert(a@ =~= a@.subrange(0, n as int));
    assert(b@ =~= b@.subrange(0, n as int));
    true
}

/// Whether `prefix` is a prefix of `s`.
pub open spec fn is_prefix(prefix: Seq<char>, s: Seq<char>) -> bool {
    prefix.len() <= s.len() && s.subrange(0, prefix.len() as int) == prefix
}

/// Whether `s` starts with `prefix` (as `str::starts_with` with a string pattern).
pub fn starts_with(s: &str, prefix: &str) -> (r: bool)
    ensures
        r == is_prefix(prefix@, s@),
{
    let n = s.unicode_len();
    let m = prefix.unicode_len();
    if m > n {
        return false;
    }
    let mut i: usize = 0;
    while i < m
        invariant
            n == s@.len(),
            m == prefix@.len(),
            m <= n,
            i <= m,
            s@.subrange(0, i as int) == prefix@.subrange(0, i as int),
        decreases m - i,
    {
        if s.get_char(i) != prefix.get_char(i) {
            assert(s@.subrange(0, m as int)[i as int] != prefix@[i as int]);
            return false;
        }
        assert(s@.subrange(0, i + 1) =~= s@.subrange(0, i as int).push(s@[i as int]));
        assert(prefix@.subrange(0, i + 1) =~= prefix@.subrange(0, i as int).push(prefix@[i as int]));
        i = i + 1;
    }
    assert(prefix@ =~= prefix@.subrange(0, m as int));
    true
}

/// The concatenation of two strings.
pub fn concat(a: &str, b: &str) -> (r: String)
    ensures
        r@ == a@ + b@,
{
    let mut r = a.to_string();
    r.append(b);
    r
}

/// The views of a list of strings.
pub open spec fn views(v: Seq<String>) -> Seq<Seq<char>> {
    v.map_values(|x: String| x@)
}

/// Two lists of strings with the same characters element by element have the same views.
pub proof fn lemma_views_ext(a: Seq<String>, b: Seq<String>)
    requires
        a.len() == b.len(),
        forall|j: int| 0 <= j < a.len() ==> #[trigger] a[j]@ == b[j]@,
    ensures
        views(a) == views(b),
{
    assert(views(a) =~= views(b));
}

/// Whether `c` has the Unicode property White_Space (what `str::trim` removes).
pub open spec fn is_white_space(c: char) -> bool {
    let u = c as u32;
    (0x09 <= u && u <= 0x0d) || u == 0x20 || u == 0x85 || u == 0xa0 || u == 0x1680 || (0x2000 <= u && u
        <= 0x200a) || u == 0x2028 || u == 0x2029 || u == 0x202f || u == 0x205f || u == 0x3000
}

/// `s` without its leading white space.
pub open spec fn trim_start_spec(s: Seq<char>) -> Seq<char>
    decreases s.len(),
{
    if s.len() > 0 && is_white_space(s[0]) {
        trim_start_spec(s.subrange(1, s.len() as int))
    } else {
        s
    }
}

/// `s` without its trailing white space.
pub open spec fn trim_end_spec(s: Seq<char>) -> Seq<char>
    decreases s.len(),
{
    if s.len() > 0 && is_white_space(s.last()) {
        trim_end_spec(s.drop_last())
    } else {
        s
    }
}

/// `s` without leading and trailing white space.
pub open spec fn trim_spec(s: Seq<char>) -> Seq<char> {
    trim_end_spec(trim_start_spec(s))
}

/// `str::trim`: the string without leading and trailing white space (the
/// Unicode White_Space property, as std documents).
#[verifier::external_body]
pub(crate) fn trim(s: &str) -> (r: String)
    ensures
        r@ == trim_spec(s@),
{
    s.trim().to_string()
}

/// The decimal digit for `d` in `0..10`.
pub open spec fn digit_char(d: int) -> char {
    (('0' as u32) + d) as char
}

/// The decimal digits of a natural number, most significant first; `0` is "0".
pub open spec fn decimal_digits(n: nat) -> Seq<char>
    decreases n,
{
    if n < 10 {
        seq![digit_char(n as int)]
    } else {
        decimal_digits(n / 10).push(digit_char((n % 10) as int))
    }
}

/// The decimal text of an integer, with a leading `-` when negative.
pub open spec fn decimal(i: int) -> Seq<char> {
    if i < 0 {
        seq!['-'] + decimal_digits((-i) as nat)
    } else {
        decimal_digits(i as nat)
    }
}

fn digit(d: u128) -> (r: char)
    requires
        d < 10,
    ensures
        r == digit_char(d as int),
{
    let u: u32 = 48 + d as u32;
    assert(u < 128);
    (u as u8) as char
}

/// The decimal text of `i` (as `i64::to_string` writes it).
pub fn int_to_string(i: i64) -> (r: String)
    ensures
        r@ == decimal(i as int),
{
    let negative = i < 0;
    let mut n: u128 = if negative { (0i128 - (i as i128)) as u128 } else { i as u128 };
    let ghost magnitude: nat = n as nat;
    let mut digits: Vec<char> = Vec::new();
    digits.push(digit(n % 10));
    n = n / 10;
    proof {
        assert(decimal_digits(magnitude) == decimal_digits(n as nat) + digits@ || n == 0) by {
            if magnitude >= 10 {
                assert(decimal_digits(magnitude) == decimal_digits(magnitude / 10).push(digit_char((magnitude % 10) as int)));
                assert(decimal_digits(magnitude / 10) + digits@ =~= decimal_digits(magnitude / 10).push(digit_char((magnitude % 10) as int)));
            }
        }
    }
    while n > 0
        invariant
            n == 0 ==> digits@ == decimal_digits(magnitude),
            n > 0 ==> decimal_digits(magnitude) == decimal_digits(n as nat) + digits@,
        decreases n,
    {
        let ghost before = digits@;
        let ghost m: nat = n as nat;
        let d = digit(n % 10);
        let mut next: Vec<char> = Vec::new();
        next.push(d);
        let mut k: usize = 0;
        while k < digits.len()
            invariant
                k <= digits@.len(),
                next@ == seq![d] + digits@.subrange(0, k as int),
            decreases digits@.len() - k,
        {
            next.push(digits[k]);
            assert(seq![d] + digits@.subrange(0, k + 1) =~= (seq![d] + digits@.subrange(0, k as int)).push(digits@[k as int]));
            k = k + 1;
        }
        assert(digits@.subrange(0, digits@.len() as int) =~= digits@);
        digits = next;
        n = n / 10;
        proof {
            if m >= 10 {
                assert(decimal_digits(m) == decimal_digits(m / 10).push(digit_char((m % 10) as int)));
                assert(decimal_digits(m) + before =~= decimal_digits(m / 10) + digits@);
            } else {
                assert(decimal_digits(m) =~= seq![digit_char(m as int)]);
                assert(digits@ =~= decimal_digits(m) + before);
            }
        }
    }
    let mut r = String::new();
    if negative {
        push_char(&mut r, '-');
    }
    append_chars(&mut r, &digits, 0, digits.len());
    assert(digits@.subrange(0, digits@.len() as int) =~= digits@);
    r
}


/// The items joined with `sep` between neighbours (as `[String]::join`).
pub open spec fn join(items: Seq<Seq<char>>, sep: Seq<char>) -> Seq<char>
    decreases items.len(),
{
    if items.len() == 0 {
        Seq::empty()
    } else if items.len() == 1 {
        items[0]
    } else {
        join(items.drop_last(), sep) + sep + items.last()
    }
}

/// The strings of `items` joined with `sep` between neighbours.
pub fn join_strings(items: &Vec<String>, sep: &str) -> (r: String)
    ensures
        r@ == join(views(items@), sep@),
{
    let mut r = String::new();
    let mut i: usize = 0;
    while i < items.len()
        invariant
            i <= items@.len(),
            r@ == join(views(items@).take(i as int), sep@),
        decreases items@.len() - i,
    {
        let ghost before = views(items@).take(i as int);
        if i > 0 {
            r.append(sep);
        }
        r.append(items[i].as_str());
        proof {
            let next = views(items@).take(i + 1);
            assert(next.drop_last() =~= before);
            assert(next.last() == items@[i as int]@);
            if i == 0 {
                assert(before.len() == 0);
                assert(r@ =~= next[0]);
            }
        }
        i = i + 1;
    }
    assert(views(items@).take(items@.len() as int) =~= views(items@));
    r
}

/// `s` with every occurrence of `p` taken out, scanning from the left (as
/// `str::replace(p, "")` does for a non-empty `p`).
pub open spec fn remove_all_spec(s: Seq<char>, p: Seq<char>) -> Seq<char>
    decreases s.len(),
{
    if s.len() == 0 || p.len() == 0 {
        s
    } else if is_prefix(p, s) {
        remove_all_spec(s.skip(p.len() as int), p)
    } else {
        seq![s[0]] + remove_all_spec(s.skip(1), p)
    }
}

/// Whether `p` occurs in `cs` at position `at`.
fn occurs_at(cs: &Vec<char>, at: usize, p: &Vec<char>) -> (r: bool)
    requires
        at <= cs@.len(),
    ensures
        r == is_prefix(p@, cs@.skip(at as int)),
{
    if p.len() > cs.len() - at {
        return false;
    }
    let n = cs.len();
    let mut k: usize = 0;
    while k < p.len()
        invariant
            n == cs@.len(),
            at + p@.len() <= cs@.len(),
            k <= p@.len(),
            forall|j: int| 0 <= j < k ==> cs@[at + j] == p@[j],
        decreases p@.len() - k,
    {
        if cs[at + k] != p[k] {
            assert(cs@.skip(at as int).subrange(0, p@.len() as int)[k as int] != p@[k as int]);
            return false;
        }
        k = k + 1;
    }
    assert(cs@.skip(at as int).subrange(0, p@.len() as int) =~= p@);
    true
}

/// `s` with every occurrence of `p` removed (`str::replace(p, "")`).
pub fn remove_all(s: &str, p: &str) -> (r: String)
    ensures
        r@ == remove_all_spec(s@, p@),
{
    let cs = chars_of(s);
    let ps = chars_of(p);
    if ps.len() == 0 {
        return s.to_string();
    }
    let mut r = String::new();
    let mut i: usize = 0;
    assert(cs@.skip(0) =~= s@);
    assert(r@ + remove_all_spec(s@, p@) =~= remove_all_spec(s@, p@));
    while i < cs.len()
        invariant
            cs@ == s@,
            ps@ == p@,
            ps@.len() > 0,
            i <= cs@.len(),
            r@ + remove_all_spec(cs@.skip(i as int), ps@) == remove_all_spec(s@, p@),
        decreases cs@.len() - i,
    {
        let ghost rest = cs@.skip(i as int);
        if occurs_at(&cs, i, &ps) {
            assert(rest.skip(ps@.len() as int) =~= cs@.skip(i + ps@.len()));
            assert(remove_all_spec(rest, ps@) == remove_all_spec(rest.skip(ps@.len() as int), ps@));
            i = i + ps.len();
        } else {
            let ghost r_old = r@;
            push_char(&mut r, cs[i]);
            assert(rest.skip(1) =~= cs@.skip(i + 1));
            assert(rest[0] == cs@[i as int]);
            assert(remove_all_spec(rest, ps@) == seq![rest[0]] + remove_all_spec(rest.skip(1), ps@));
            assert(r@ + remove_all_spec(cs@.skip(i + 1), ps@) =~= r_old + remove_all_spec(rest, ps@));
            i = i + 1;
        }
    }
    assert(cs@.skip(cs@.len() as int) =~= Seq::<char>::empty());
    assert(r@ + Seq::<char>::empty() =~= r@);
    r
}


/// Whether `suffix` is a suffix of `s`.
pub open spec fn is_suffix(suffix: Seq<char>, s: Seq<char>) -> bool {
    suffix.len() <= s.len() && s.subrange(s.len() - suffix.len(), s.len() as int) == suffix
}

/// Whether `s` ends with `suffix` (as `str::ends_with` with a string pattern).
pub fn ends_with(s: &str, suffix: &str) -> (r: bool)
    ensures
        r == is_suffix(suffix@, s@),
{
    let n = s.unicode_len();
    let m = suffix.unicode_len();
    if m > n {
        return false;
    }
    let d = n - m;
    let mut i: usize = 0;
    while i < m
        invariant
            n == s@.len(),
            m == suffix@.len(),
            d == n - m,
            i <= m,
            forall|j: int| 0 <= j < i ==> s@[d + j] == suffix@[j],
        decreases m - i,
    {
        if s.get_char(d + i) != suffix.get_char(i) {
            assert(s@.subrange(d as int, n as int)[i as int] != suffix@[i as int]);
            return false;
        }
        i = i + 1;
    }
    assert(s@.subrange(d as int, n as int) =~= suffix@);
    true
}

} // verus!
