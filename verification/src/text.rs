//! Text primitives: comparing, searching, trimming, splitting and printing
//! numbers, each stated over the sequence of characters that a string holds.
use vstd::prelude::*;
use vstd::string::*;

verus! {

/// The view of what an option holds.
pub open spec fn opt_view<T: View>(o: Option<T>) -> Option<T::V> {
    match o {
        Some(v) => Some(v@),
        None => None,
    }
}

/// The view of what a result holds.
pub open spec fn result_view<T: View, E: View>(r: Result<T, E>) -> Result<T::V, E::V> {
    match r {
        Ok(v) => Ok(v@),
        Err(e) => Err(e@),
    }
}

/// Whether `needle` occurs in `text` at some position.
pub open spec fn contains_text(text: Seq<char>, needle: Seq<char>) -> bool {
    exists|at: int| #[trigger] occurs_at(text, needle, at)
}

/// Whether `needle` occurs in `text` starting at position `at`.
pub open spec fn occurs_at(text: Seq<char>, needle: Seq<char>, at: int) -> bool {
    0 <= at && at + needle.len() <= text.len() && text.subrange(at, at + needle.len()) == needle
}

/// `text` without the copies of `suffix` at its end.
pub open spec fn without_suffixes(text: Seq<char>, suffix: Seq<char>) -> Seq<char>
    decreases text.len(),
{
    if 0 < suffix.len() && suffix.is_suffix_of(text) {
        without_suffixes(text.take(text.len() - suffix.len()), suffix)
    } else {
        text
    }
}

/// `text` without the copies of `prefix` at its start.
pub open spec fn without_prefixes(text: Seq<char>, prefix: Seq<char>) -> Seq<char>
    decreases text.len(),
{
    if 0 < prefix.len() && prefix.is_prefix_of(text) {
        without_prefixes(text.skip(prefix.len() as int), prefix)
    } else {
        text
    }
}

/// The digit of value `d` in lower case, for a base of at most sixteen.
pub open spec fn digit_char(d: int) -> char {
    if d < 10 {
        (('0' as int) + d) as char
    } else {
        (('a' as int) + (d - 10)) as char
    }
}

/// `n` written in the given base, without leading zeros.
pub open spec fn number_text(n: nat, base: nat) -> Seq<char>
    decreases n,
    when base >= 2
{
    if n < base {
        seq![digit_char(n as int)]
    } else {
        proof {
            assert(n / base < n) by (nonlinear_arith)
                requires
                    2 <= base <= n,
            ;
        }
        number_text(n / base, base).push(digit_char((n % base) as int))
    }
}

/// `n` written in decimal.
pub open spec fn decimal_text(n: nat) -> Seq<char> {
    number_text(n, 10)
}

/// `n` written in lower-case hexadecimal.
pub open spec fn hex_text(n: nat) -> Seq<char> {
    number_text(n, 16)
}

/// Whether a character has the Unicode property `White_Space`.
pub open spec fn is_white_space(c: char) -> bool {
    let code = c as int;
    ||| 0x9 <= code <= 0xd
    ||| code == 0x20
    ||| code == 0x85
    ||| code == 0xa0
    ||| code == 0x1680
    ||| 0x2000 <= code <= 0x200a
    ||| code == 0x2028
    ||| code == 0x2029
    ||| code == 0x202f
    ||| code == 0x205f
    ||| code == 0x3000
}

/// Whether a character has the Unicode property `White_Space`.
pub fn is_whitespace(c: char) -> (r: bool)
    ensures
        r == is_white_space(c),
{
    let code: u32 = c as u32;
    (0x9 <= code && code <= 0xd) || code == 0x20 || code == 0x85 || code == 0xa0 || code == 0x1680
        || (0x2000 <= code && code <= 0x200a) || code == 0x2028 || code == 0x2029 || code == 0x202f
        || code == 0x205f || code == 0x3000
}

/// `String::push` appends one character.
pub assume_specification[ String::push ](s: &mut String, c: char)
    ensures
        final(s)@ == old(s)@.push(c),
;

/// The characters of `s`, in order.
pub fn chars_of(s: &str) -> (r: Vec<char>)
    ensures
        r@ == s@,
{
    let mut v: Vec<char> = Vec::new();
    for c in it: s.chars()
        invariant
            v@ == it.seq().take(it.index() as int),
    {
        v.push(c);
    }
    v
}

/// The characters `v[from..to]` as a string.
pub fn string_of(v: &Vec<char>, from: usize, to: usize) -> (r: String)
    requires
        from <= to <= v@.len(),
    ensures
        r@ == v@.subrange(from as int, to as int),
{
    let mut s: String = String::new();
    let mut i: usize = from;
    while i < to
        invariant
            from <= i <= to <= v@.len(),
            s@ == v@.subrange(from as int, i as int),
        decreases to - i,
    {
        s.push(v[i]);
        i = i + 1;
        assert(v@.subrange(from as int, i as int) == v@.subrange(from as int, i - 1).push(v@[i - 1]));
    }
    s
}

/// Whether `needle` stands at position `at` of `v`.
fn matches_at(v: &Vec<char>, needle: &Vec<char>, at: usize) -> (r: bool)
    requires
        at <= v@.len(),
    ensures
        r == occurs_at(v@, needle@, at as int),
{
    if needle.len() > v.len() - at {
        return false;
    }
    let size: usize = v.len();
    let mut i: usize = 0;
    while i < needle.len()
        invariant
            size == v@.len(),
            at + needle@.len() <= v@.len(),
            i <= needle@.len(),
            forall|k: int| 0 <= k < i ==> v@[at + k] == needle@[k],
        decreases needle@.len() - i,
    {
        if v[at + i] != needle[i] {
            assert(v@.subrange(at as int, at + needle@.len())[i as int] != needle@[i as int]);
            return false;
        }
        i = i + 1;
    }
    assert(v@.subrange(at as int, at + needle@.len()) =~= needle@);
    true
}

/// Whether two strings hold the same text.
pub fn same_text(a: &str, b: &str) -> (r: bool)
    ensures
        r == (a@ == b@),
{
    let x = chars_of(a);
    let y = chars_of(b);
    if x.len() != y.len() {
        return false;
    }
    let r = matches_at(&x, &y, 0);
    assert(a@.subrange(0, b@.len() as int) =~= a@);
    r
}

/// Whether `text` begins with `prefix`.
pub fn has_prefix(text: &str, prefix: &str) -> (r: bool)
    ensures
        r == prefix@.is_prefix_of(text@),
{
    let x = chars_of(text);
    let y = chars_of(prefix);
    matches_at(&x, &y, 0)
}

/// Whether `needle` occurs in `text`.
pub fn has_text(text: &str, needle: &str) -> (r: bool)
    ensures
        r == contains_text(text@, needle@),
{
    let x = chars_of(text);
    let y = chars_of(needle);
    if y.len() > x.len() {
        return false;
    }
    let tries: usize = x.len() - y.len();
    let mut i: usize = 0;
    while i < tries
        invariant
            x@ == text@,
            y@ == needle@,
            tries == x@.len() - y@.len(),
            i <= tries,
            forall|k: int| 0 <= k < i ==> !occurs_at(text@, needle@, k),
        decreases tries - i,
    {
        if matches_at(&x, &y, i) {
            assert(occurs_at(text@, needle@, i as int));
            return true;
        }
        i = i + 1;
    }
    matches_at(&x, &y, tries)
}

/// `text` without the copies of `suffix` at its end.
pub fn trim_suffixes(text: &str, suffix: &str) -> (r: String)
    ensures
        r@ == without_suffixes(text@, suffix@),
{
    let x = chars_of(text);
    let y = chars_of(suffix);
    let mut n: usize = x.len();
    assert(text@.take(n as int) =~= text@);
    while 0 < y.len() && y.len() <= n && matches_at(&x, &y, n - y.len())
        invariant
            x@ == text@,
            y@ == suffix@,
            n <= x@.len(),
            without_suffixes(text@.take(n as int), suffix@) == without_suffixes(text@, suffix@),
        decreases n,
    {
        let ghost m = n;
        n = n - y.len();
        proof {
            let t = text@.take(m as int);
            assert(t.subrange(t.len() - suffix@.len(), t.len() as int) =~= text@.subrange(
                n as int,
                n + suffix@.len(),
            ));
            assert(t.take(t.len() - suffix@.len()) =~= text@.take(n as int));
        }
    }
    proof {
        let t = text@.take(n as int);
        if 0 < suffix@.len() && suffix@.is_suffix_of(t) {
            assert(t.subrange(t.len() - suffix@.len(), t.len() as int) =~= text@.subrange(
                n - suffix@.len(),
                n as int,
            ));
        }
        assert(x@.subrange(0, n as int) =~= t);
    }
    string_of(&x, 0, n)
}

/// `text` without the copies of `prefix` at its start.
pub fn trim_prefixes(text: &str, prefix: &str) -> (r: String)
    ensures
        r@ == without_prefixes(text@, prefix@),
{
    let x = chars_of(text);
    let y = chars_of(prefix);
    let end: usize = x.len();
    let mut n: usize = 0;
    assert(text@.skip(0) =~= text@);
    while 0 < y.len() && matches_at(&x, &y, n)
        invariant
            x@ == text@,
            y@ == prefix@,
            end == x@.len(),
            n <= end,
            without_prefixes(text@.skip(n as int), prefix@) == without_prefixes(text@, prefix@),
        decreases end - n,
    {
        proof {
            let t = text@.skip(n as int);
            assert(t.subrange(0, prefix@.len() as int) =~= text@.subrange(
                n as int,
                n + prefix@.len(),
            ));
            assert(t.skip(prefix@.len() as int) =~= text@.skip(n + prefix@.len()));
        }
        n = n + y.len();
    }
    proof {
        let t = text@.skip(n as int);
        if 0 < prefix@.len() && prefix@.is_prefix_of(t) {
            assert(t.subrange(0, prefix@.len() as int) =~= text@.subrange(
                n as int,
                n + prefix@.len(),
            ));
        }
        assert(x@.subrange(n as int, x@.len() as int) =~= t);
    }
    string_of(&x, n, end)
}

/// The digit of value `d` in lower case.
fn digit(d: u64) -> (c: char)
    requires
        d < 16,
    ensures
        c == digit_char(d as int),
{
    if d < 10 {
        (48 + d as u8) as char
    } else {
        (97 + (d - 10) as u8) as char
    }
}

/// `n` written in the given base.
fn number(n: u64, base: u64) -> (r: String)
    requires
        2 <= base <= 16,
    ensures
        r@ == number_text(n as nat, base as nat),
    decreases n,
{
    if n < base {
        let mut s: String = String::new();
        s.push(digit(n));
        assert(s@ =~= seq![digit_char(n as int)]);
        s
    } else {
        assert(n / base < n) by (nonlinear_arith)
            requires
                2 <= base <= n,
        ;
        let mut s: String = number(n / base, base);
        s.push(digit(n % base));
        s
    }
}

/// `n` in decimal.
pub fn decimal(n: u64) -> (r: String)
    ensures
        r@ == decimal_text(n as nat),
{
    number(n, 10)
}

/// `n` in lower-case hexadecimal.
pub fn hex(n: u64) -> (r: String)
    ensures
        r@ == hex_text(n as nat),
{
    number(n, 16)
}

} // verus!
