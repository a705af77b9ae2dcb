//! What holds of texts, of numbers written in them, and of times.
use std::collections::hash_map::DefaultHasher;
use vstd::prelude::*;
use vstd::std_specs::hash::*;
use vstd::string::*;

use crate::outside::{pairs_size, text_hash_writes, url_size, Clock};
use crate::text::{contains_text, decimal_text, digit_char, hex_text, number_text, occurs_at};
use crate::text::{without_prefixes, without_suffixes};
use crate::utils::{lock_expired, seconds_of, signed_nanos, url_hash};
use vstd::utf8::*;

verus! {

// ---------------------------------------------------------------- numbers

/// What a digit counts.
pub open spec fn digit_value(c: char) -> int {
    if '0' <= c && c <= '9' {
        c as int - '0' as int
    } else if 'a' <= c && c <= 'f' {
        c as int - 'a' as int + 10
    } else {
        -1
    }
}

/// Whether all characters are digits of a base.
pub open spec fn are_digits(text: Seq<char>, base: nat) -> bool {
    forall|i: int| 0 <= i < text.len() ==> 0 <= digit_value(#[trigger] text[i]) < base
}

/// What digits count together: every place counts as often as the base says as the place
/// behind it.
pub open spec fn numeral_value(digits: Seq<char>, base: nat) -> int
    decreases digits.len(),
{
    if digits.len() == 0 {
        0
    } else {
        numeral_value(digits.drop_last(), base) * base + digit_value(digits.last())
    }
}

proof fn lemma_digit(d: int)
    requires
        0 <= d < 16,
    ensures
        digit_value(digit_char(d)) == d,
        digit_char(d) == '0' <==> d == 0,
{
}

/// A number is written in digits of the base that count exactly the number, without a zero
/// before them.
pub proof fn number_is_written_out(n: nat, base: nat)
    requires
        2 <= base <= 16,
    ensures
        number_text(n, base).len() > 0,
        are_digits(number_text(n, base), base),
        numeral_value(number_text(n, base), base) == n,
        number_text(n, base).len() > 1 ==> number_text(n, base)[0] != '0',
        n > 0 ==> number_text(n, base)[0] != '0',
    decreases n,
{
    let text = number_text(n, base);
    if n < base {
        lemma_digit(n as int);
        assert(text.drop_last() =~= Seq::empty());
        assert(numeral_value(text.drop_last(), base) == 0);
        assert(text.last() == digit_char(n as int));
        assert(0 * base == 0);
    } else {
        assert(0 < n / base < n && n == (n / base) * base + n % base && 0 <= n % base < base)
            by (nonlinear_arith)
            requires
                2 <= base <= n,
        ;
        let before = number_text(n / base, base);
        number_is_written_out(n / base, base);
        lemma_digit((n % base) as int);
        assert(text == before.push(digit_char((n % base) as int)));
        assert(text.drop_last() =~= before);
        assert forall|i: int| 0 <= i < text.len() implies 0 <= digit_value(#[trigger] text[i])
            < base by {
            if i < before.len() {
                assert(text[i] == before[i]);
            }
        }
        assert(text[0] == before[0]);
    }
}

/// A number is written in decimal and in hexadecimal digits that count exactly the number;
/// so different numbers are written differently.
pub proof fn different_numbers_are_written_differently(m: nat, n: nat)
    ensures
        numeral_value(decimal_text(n), 10) == n,
        are_digits(decimal_text(n), 10),
        decimal_text(n).len() > 0,
        n > 0 ==> decimal_text(n)[0] != '0',
        numeral_value(hex_text(n), 16) == n,
        are_digits(hex_text(n), 16),
        hex_text(n).len() > 0,
        n > 0 ==> hex_text(n)[0] != '0',
        decimal_text(m) == decimal_text(n) ==> m == n,
        hex_text(m) == hex_text(n) ==> m == n,
{
    number_is_written_out(m, 10);
    number_is_written_out(n, 10);
    number_is_written_out(m, 16);
    number_is_written_out(n, 16);
}

/// The hash of a URL is what the default hasher makes of it, in hexadecimal digits.
pub proof fn hash_is_that_of_the_default_hasher(server_url: Seq<char>)
    ensures
        numeral_value(url_hash(server_url), 16) == DefaultHasher::spec_finish(
            text_hash_writes(server_url),
        ),
        are_digits(url_hash(server_url), 16),
        url_hash(server_url).len() > 1 ==> url_hash(server_url)[0] != '0',
{
    number_is_written_out(DefaultHasher::spec_finish(text_hash_writes(server_url)) as nat, 16);
}

// ---------------------------------------------------------------- parts of texts

/// A text is found if and only if the other one is made of it and of what stands before and
/// behind it.
pub proof fn text_is_found_where_it_stands(
    text: Seq<char>,
    needle: Seq<char>,
    before: Seq<char>,
    after: Seq<char>,
)
    ensures
        contains_text(before + needle + after, needle),
        contains_text(text, needle) ==> exists|a: Seq<char>, b: Seq<char>|
            text == #[trigger] (a + needle + b),
{
    let whole = before + needle + after;
    assert(whole.subrange(before.len() as int, (before.len() + needle.len()) as int) =~= needle);
    assert(occurs_at(whole, needle, before.len() as int));
    if contains_text(text, needle) {
        let at = choose|at: int| #[trigger] occurs_at(text, needle, at);
        let (a, b) = (text.take(at), text.skip(at + needle.len()));
        assert(text =~= a + needle + b);
    }
}

/// The copies of a suffix go one by one, until none is left; nothing else goes.
pub proof fn only_copies_of_the_suffix_go(text: Seq<char>, suffix: Seq<char>)
    requires
        suffix.len() > 0,
    ensures
        without_suffixes(text + suffix, suffix) == without_suffixes(text, suffix),
        !suffix.is_suffix_of(text) ==> without_suffixes(text, suffix) == text,
        !suffix.is_suffix_of(without_suffixes(text, suffix)),
    decreases text.len(),
{
    let whole = text + suffix;
    assert(whole.subrange(whole.len() - suffix.len(), whole.len() as int) =~= suffix);
    assert(whole.take(whole.len() - suffix.len()) =~= text);
    if suffix.is_suffix_of(text) {
        only_copies_of_the_suffix_go(text.take(text.len() - suffix.len()), suffix);
    }
}

/// The copies of a prefix go one by one, until none is left; nothing else goes.
pub proof fn only_copies_of_the_prefix_go(text: Seq<char>, prefix: Seq<char>)
    requires
        prefix.len() > 0,
    ensures
        without_prefixes(prefix + text, prefix) == without_prefixes(text, prefix),
        !prefix.is_prefix_of(text) ==> without_prefixes(text, prefix) == text,
        !prefix.is_prefix_of(without_prefixes(text, prefix)),
    decreases text.len(),
{
    let whole = prefix + text;
    assert(whole.subrange(0, prefix.len() as int) =~= prefix);
    assert(whole.skip(prefix.len() as int) =~= text);
    if prefix.is_prefix_of(text) {
        only_copies_of_the_prefix_go(text.skip(prefix.len() as int), prefix);
    }
}

// ---------------------------------------------------------------- times

/// A time after the epoch lies within its second; before the epoch no second has passed.
pub proof fn second_has_begun(nanos: i128)
    requires
        nanos < 18_446_744_073_709_551_616_000_000_000,
    ensures
        nanos >= 0 ==> seconds_of(nanos) * 1_000_000_000 <= nanos < (seconds_of(nanos) + 1)
            * 1_000_000_000,
        nanos < 0 ==> seconds_of(nanos) == 0,
{
}

/// Times before and after the epoch lie as far apart as their distances from it together.
pub proof fn epoch_lies_between(after: u128, before: u128)
    ensures
        signed_nanos(Ok(after)) - signed_nanos(Err(before)) == after + before,
        signed_nanos(Ok(0)) == 0,
        signed_nanos(Err(0)) == 0,
{
}

/// The time that a clock tells is the one that was read from it last.
pub proof fn clock_tells_its_last_reading(clock: Clock, before: Clock)
    requires
        clock.read_once(before),
        match clock.log().last() {
            Ok(after) => after < 18_446_744_073_709_551_616_000_000_000,
            Err(until) => until < 18_446_744_073_709_551_616_000_000_000,
        },
    ensures
        clock.log().len() == before.log().len() + 1,
        clock.log() == before.log().push(clock.log().last()),
        match clock.log().last() {
            Ok(after) => clock.nanos() == after && clock.seconds() * 1_000_000_000 <= after < (
            clock.seconds() + 1) * 1_000_000_000,
            Err(until) => clock.nanos() == -until && clock.seconds() == 0,
        },
{
    assert(clock.log() =~= before.log().push(clock.log().last()));
}

/// A lock holds through the ten minutes after it was taken, and not a second longer.
pub proof fn lock_lasts_ten_minutes(created_at: u64, now: u64)
    ensures
        lock_expired(created_at, now) <==> now - created_at > 600,
{
}

// ---------------------------------------------------------------- sizes

/// Every pair counts with three times its bytes and two more, and the URL with sixteen times
/// its bytes and sixteen more.
pub proof fn sizes_add_up(
    url: Seq<char>,
    pairs: Seq<(Seq<char>, Seq<char>)>,
    name: Seq<char>,
    value: Seq<char>,
)
    ensures
        pairs_size(pairs.push((name, value))) - pairs_size(pairs) == 3 * (encode_utf8(name).len()
            + encode_utf8(value).len()) + 2,
        url_size(url, pairs) - pairs_size(pairs) == 16 * encode_utf8(url).len() + 16,
        pairs_size(Seq::empty()) == 0,
{
    assert(pairs.push((name, value)).drop_last() =~= pairs);
}

} // verus!
