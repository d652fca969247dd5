//! The readiness handshake: the one line by which the backend announces the
//! port it listens on.
//!
//! A line announces a port when, once the white space around it is removed,
//! it is the prefix `BACKEND_READY:` followed by a decimal number that fits
//! in sixteen bits. Every other line is ordinary log output.

use vstd::prelude::*;
use vstd::std_specs::iter::IteratorSpec;
use vstd::utf8::{decode_utf8, valid_utf8};

verus! {

/// The number of characters in the handshake prefix.
pub const PREFIX_LEN: usize = 14;

/// The handshake prefix, `BACKEND_READY:`, character by character.
pub open spec fn handshake_prefix() -> Seq<char> {
    seq!['B', 'A', 'C', 'K', 'E', 'N', 'D', '_', 'R', 'E', 'A', 'D', 'Y', ':']
}

/// White space as Unicode defines it (the property `White_Space`): the
/// characters that trimming a line removes.
pub open spec fn is_space(c: char) -> bool {
    let n = c as u32;
    ||| 0x09 <= n <= 0x0D
    ||| n == 0x20
    ||| n == 0x85
    ||| n == 0xA0
    ||| n == 0x1680
    ||| 0x2000 <= n <= 0x200A
    ||| n == 0x2028
    ||| n == 0x2029
    ||| n == 0x202F
    ||| n == 0x205F
    ||| n == 0x3000
}

/// `s` without the white space at its start.
pub open spec fn trim_start(s: Seq<char>) -> Seq<char>
    decreases s.len(),
{
    if s.len() > 0 && is_space(s.first()) {
        trim_start(s.drop_first())
    } else {
        s
    }
}

/// `s` without the white space at its end.
pub open spec fn trim_end(s: Seq<char>) -> Seq<char>
    decreases s.len(),
{
    if s.len() > 0 && is_space(s.last()) {
        trim_end(s.drop_last())
    } else {
        s
    }
}

/// `s` without the white space at either end.
pub open spec fn trimmed(s: Seq<char>) -> Seq<char> {
    trim_end(trim_start(s))
}

/// One of the ten decimal digits of ASCII.
pub open spec fn is_digit(c: char) -> bool {
    '0' <= c <= '9'
}

/// The number that a decimal digit stands for.
pub open spec fn digit_value(c: char) -> nat {
    (c as u32 - '0' as u32) as nat
}

/// Every character of `s` is a decimal digit.
pub open spec fn all_digits(s: Seq<char>) -> bool {
    forall|i: int| 0 <= i < s.len() ==> is_digit(#[trigger] s[i])
}

/// The number that a string of decimal digits denotes, leading zeros
/// allowed; the empty string denotes zero.
pub open spec fn decimal_value(s: Seq<char>) -> nat
    decreases s.len(),
{
    if s.len() == 0 {
        0
    } else {
        decimal_value(s.drop_last()) * 10 + digit_value(s.last())
    }
}

/// `s` without the one plus sign that may stand before the digits.
pub open spec fn without_sign(s: Seq<char>) -> Seq<char> {
    if s.len() > 0 && s.first() == '+' {
        s.drop_first()
    } else {
        s
    }
}

/// The port that `s` denotes: an optional plus sign, then at least one
/// decimal digit and nothing else, with a value of at most 65535.
pub open spec fn port_of(s: Seq<char>) -> Option<u16> {
    let digits = without_sign(s);
    if digits.len() > 0 && all_digits(digits) && decimal_value(digits) <= u16::MAX {
        Some(decimal_value(digits) as u16)
    } else {
        None
    }
}

/// The port that a line of output announces, if it announces one.
pub open spec fn ready_port(line: Seq<char>) -> Option<u16> {
    let text = trimmed(line);
    if handshake_prefix().is_prefix_of(text) {
        port_of(text.skip(PREFIX_LEN as int))
    } else {
        None
    }
}

/// The text that a lossy decoding of `bytes` as UTF-8 gives: each maximal
/// invalid part of the input stands in it as U+FFFD.
pub uninterp spec fn lossy_utf8(bytes: Seq<u8>) -> Seq<char>;

/// The handshake prefix is the literal `BACKEND_READY:`.
pub proof fn prefix_is_literal()
    ensures
        handshake_prefix() == "BACKEND_READY:"@,
        handshake_prefix().len() == PREFIX_LEN,
{
    reveal_strlit("BACKEND_READY:");
    assert(handshake_prefix() =~= "BACKEND_READY:"@);
}

/// Once `k` leading characters are known to be white space and the next is
/// not, what is left after them is the text trimmed at its start.
proof fn trim_start_skips(s: Seq<char>, k: int)
    requires
        0 <= k <= s.len(),
        forall|i: int| 0 <= i < k ==> is_space(#[trigger] s[i]),
        k == s.len() || !is_space(s[k]),
    ensures
        trim_start(s) == s.skip(k),
    decreases k,
{
    if k == 0 {
        assert(s.skip(0) =~= s);
    } else {
        let rest = s.drop_first();
        assert forall|i: int| 0 <= i < k - 1 implies is_space(#[trigger] rest[i]) by {
            assert(rest[i] == s[i + 1]);
        }
        trim_start_skips(rest, k - 1);
        assert(rest.skip(k - 1) =~= s.skip(k));
    }
}

/// Once the characters from `k` on are known to be white space and the one
/// before them is not, what stands before them is the text trimmed at its
/// end.
proof fn trim_end_takes(s: Seq<char>, k: int)
    requires
        0 <= k <= s.len(),
        forall|i: int| k <= i < s.len() ==> is_space(#[trigger] s[i]),
        k == 0 || !is_space(s[k - 1]),
    ensures
        trim_end(s) == s.take(k),
    decreases s.len() - k,
{
    if k == s.len() {
        assert(s.take(k) =~= s);
    } else {
        let rest = s.drop_last();
        trim_end_takes(rest, k);
        assert(rest.take(k) =~= s.take(k));
    }
}

/// A string of digits is worth at least as much as any of its prefixes.
proof fn decimal_value_grows(s: Seq<char>, k: int)
    requires
        0 <= k <= s.len(),
    ensures
        decimal_value(s.take(k)) <= decimal_value(s),
    decreases s.len() - k,
{
    if k == s.len() {
        assert(s.take(k) =~= s);
    } else {
        decimal_value_grows(s.drop_last(), k);
        assert(s.drop_last().take(k) =~= s.take(k));
    }
}

/// The decimal digit that stands for `d`, for `d` below ten.
pub open spec fn digit_char(d: nat) -> char {
    (d + 0x30) as char
}

/// The digits by which `n` is written in decimal, without leading zeros.
pub open spec fn decimal_digits(n: nat) -> Seq<char>
    decreases n,
{
    if n < 10 {
        seq![digit_char(n)]
    } else {
        decimal_digits(n / 10).push(digit_char(n % 10))
    }
}

/// Every character of `s` is white space.
pub open spec fn all_spaces(s: Seq<char>) -> bool {
    forall|i: int| 0 <= i < s.len() ==> is_space(#[trigger] s[i])
}

/// A number written in decimal is read back as itself: its digits are
/// digits, there is at least one, and their value is the number.
pub proof fn decimal_digits_denote(n: nat)
    ensures
        decimal_digits(n).len() > 0,
        all_digits(decimal_digits(n)),
        decimal_value(decimal_digits(n)) == n,
    decreases n,
{
    if n < 10 {
        let only = seq![digit_char(n)];
        assert(only.drop_last() =~= Seq::<char>::empty());
        assert(decimal_value(only.drop_last()) == 0);
        assert(decimal_value(only) == n);
    } else {
        decimal_digits_denote(n / 10);
        let shorter = decimal_digits(n / 10);
        let whole = shorter.push(digit_char(n % 10));
        assert(whole.drop_last() =~= shorter);
        assert(whole.last() == digit_char(n % 10));
        assert forall|i: int| 0 <= i < whole.len() implies is_digit(#[trigger] whole[i]) by {
            if i < shorter.len() {
                assert(whole[i] == shorter[i]);
            }
        }
    }
}

/// Readiness round trip: the line that announces `port` is read as
/// announcing `port`, whatever white space stands before and after it. In
/// particular the prefix, the port in decimal and a line feed give the
/// port.
pub proof fn announcement_is_read_back(port: u16, before: Seq<char>, after: Seq<char>)
    requires
        all_spaces(before),
        all_spaces(after),
    ensures
        ready_port(before + handshake_prefix() + decimal_digits(port as nat) + after) == Some(
            port,
        ),
        ready_port(handshake_prefix() + decimal_digits(port as nat) + seq!['\n']) == Some(port),
{
    let digits = decimal_digits(port as nat);
    let core = handshake_prefix() + digits;
    decimal_digits_denote(port as nat);
    assert(is_digit(digits.last()));
    assert(is_digit(digits.first()));
    assert(core.skip(PREFIX_LEN as int) =~= digits);
    assert(core.subrange(0, PREFIX_LEN as int) =~= handshake_prefix());
    assert(without_sign(digits) == digits);
    assert(port_of(digits) == Some(port));

    assert forall|lead: Seq<char>, trail: Seq<char>| all_spaces(lead) && all_spaces(trail) implies
        trimmed(#[trigger] (lead + core + trail)) == core by {
        let line = lead + core + trail;
        let k = lead.len() as int;
        assert forall|i: int| 0 <= i < k implies is_space(#[trigger] line[i]) by {
            assert(line[i] == lead[i]);
        }
        assert(line[k] == core[0]);
        trim_start_skips(line, k);
        let rest = line.skip(k);
        assert(rest =~= core + trail);
        assert forall|i: int| core.len() <= i < rest.len() implies is_space(#[trigger] rest[i]) by {
            assert(rest[i] == trail[i - core.len()]);
        }
        assert(rest[core.len() - 1] == digits.last());
        trim_end_takes(rest, core.len() as int);
        assert(rest.take(core.len() as int) =~= core);
    }
    assert(before + handshake_prefix() + digits + after =~= before + core + after);
    assert(trimmed(before + core + after) == core);
    let none = Seq::<char>::empty();
    let feed = seq!['\n'];
    assert(is_space(feed[0]));
    assert(handshake_prefix() + digits + feed =~= none + core + feed);
    assert(trimmed(none + core + feed) == core);
}

/// Whether `c` is white space.
pub fn is_whitespace(c: char) -> (b: bool)
    ensures
        b == is_space(c),
{
    let n: u32 = c as u32;
    (0x09 <= n && n <= 0x0D) || n == 0x20 || n == 0x85 || n == 0xA0 || n == 0x1680 || (0x2000 <= n
        && n <= 0x200A) || n == 0x2028 || n == 0x2029 || n == 0x202F || n == 0x205F || n == 0x3000
}

/// The character of the handshake prefix at position `i`.
fn prefix_char(i: usize) -> (c: char)
    requires
        i < PREFIX_LEN,
    ensures
        c == handshake_prefix()[i as int],
{
    let prefix: [char; 14] = ['B', 'A', 'C', 'K', 'E', 'N', 'D', '_', 'R', 'E', 'A', 'D', 'Y', ':'];
    prefix[i]
}

/// The characters of `text`, in order.
fn chars_of(text: &str) -> (chars: Vec<char>)
    ensures
        chars@ == text@,
{
    broadcast use vstd::string::group_string_axioms;

    let mut chars: Vec<char> = Vec::new();
    for c in it: text.chars()
        invariant
            it.seq() == text@,
            chars@ == it.seq().take(it.index() as int),
    {
        chars.push(c);
    }
    chars
}

/// The bounds of `chars` once trimmed: `chars[start..end]` is the text
/// without the white space around it.
fn trim_bounds(chars: &Vec<char>) -> (bounds: (usize, usize))
    ensures
        bounds.0 <= bounds.1 <= chars.len(),
        trimmed(chars@) == chars@.subrange(bounds.0 as int, bounds.1 as int),
{
    let len: usize = chars.len();
    let mut start: usize = 0;
    while start < len && is_whitespace(chars[start])
        invariant
            start <= len == chars.len(),
            forall|i: int| 0 <= i < start ==> is_space(#[trigger] chars@[i]),
        decreases len - start,
    {
        start += 1;
    }
    let mut end: usize = len;
    while end > start && is_whitespace(chars[end - 1])
        invariant
            start <= end <= len == chars.len(),
            forall|i: int| end <= i < len ==> is_space(#[trigger] chars@[i]),
        decreases end,
    {
        end -= 1;
    }
    proof {
        let rest = chars@.skip(start as int);
        trim_start_skips(chars@, start as int);
        assert forall|i: int| end - start <= i < rest.len() implies is_space(#[trigger] rest[i]) by {
            assert(rest[i] == chars@[i + start]);
        }
        trim_end_takes(rest, end - start);
        assert(rest.take(end - start) =~= chars@.subrange(start as int, end as int));
    }
    (start, end)
}

/// Whether `chars[start..end]` begins with the handshake prefix.
fn has_prefix(chars: &Vec<char>, start: usize, end: usize) -> (found: bool)
    requires
        start <= end <= chars.len(),
    ensures
        found == handshake_prefix().is_prefix_of(chars@.subrange(start as int, end as int)),
{
    let ghost text = chars@.subrange(start as int, end as int);
    if end - start < PREFIX_LEN {
        return false;
    }
    let mut i: usize = 0;
    while i < PREFIX_LEN
        invariant
            i <= PREFIX_LEN <= end - start,
            end <= chars.len(),
            text == chars@.subrange(start as int, end as int),
            forall|j: int| 0 <= j < i ==> text[j] == #[trigger] handshake_prefix()[j],
        decreases PREFIX_LEN - i,
    {
        if chars[start + i] != prefix_char(i) {
            assert(text[i as int] != handshake_prefix()[i as int]);
            assert(text.subrange(0, PREFIX_LEN as int)[i as int] == text[i as int]);
            return false;
        }
        i += 1;
    }
    assert(text.subrange(0, PREFIX_LEN as int) =~= handshake_prefix());
    true
}

/// The port that `chars[start..end]` denotes.
fn parse_port(chars: &Vec<char>, start: usize, end: usize) -> (port: Option<u16>)
    requires
        start <= end <= chars.len(),
    ensures
        port == port_of(chars@.subrange(start as int, end as int)),
{
    let ghost text = chars@.subrange(start as int, end as int);
    let first: usize = if start < end && chars[start] == '+' {
        start + 1
    } else {
        start
    };
    let ghost digits = chars@.subrange(first as int, end as int);
    assert(digits =~= without_sign(text));
    if first == end {
        return None;
    }
    let mut value: u32 = 0;
    let mut i: usize = first;
    while i < end
        invariant
            start <= first <= i <= end <= chars.len(),
            text == chars@.subrange(start as int, end as int),
            digits == chars@.subrange(first as int, end as int),
            digits == without_sign(text),
            all_digits(digits.take(i - first)),
            value == decimal_value(digits.take(i - first)),
            value <= u16::MAX,
        decreases end - i,
    {
        let c: char = chars[i];
        assert(c == digits[i - first]);
        if !('0' <= c && c <= '9') {
            return None;
        }
        let digit: u32 = c as u32 - '0' as u32;
        let next: u32 = value * 10 + digit;
        proof {
            let longer = digits.take(i - first + 1);
            assert(longer.drop_last() =~= digits.take(i - first));
            assert(longer.last() == c);
            assert(next == decimal_value(longer));
            assert forall|j: int| 0 <= j < longer.len() implies is_digit(#[trigger] longer[j]) by {
                if j < i - first {
                    assert(digits.take(i - first)[j] == longer[j]);
                }
            }
        }
        if next > 65535 {
            proof {
                decimal_value_grows(digits, i - first + 1);
            }
            return None;
        }
        value = next;
        i += 1;
    }
    assert(digits.take(end - first) =~= digits);
    Some(value as u16)
}

/// The port that a line of decoded output announces: `Some` exactly when
/// the line, with the white space around it removed, is the handshake prefix
/// followed by a port number.
pub fn parse_ready_text(text: &str) -> (port: Option<u16>)
    ensures
        port == ready_port(text@),
{
    let chars = chars_of(text);
    let (start, end) = trim_bounds(&chars);
    if has_prefix(&chars, start, end) {
        let ghost line = chars@.subrange(start as int, end as int);
        assert(line.skip(PREFIX_LEN as int) =~= chars@.subrange(
            start + PREFIX_LEN as int,
            end as int,
        ));
        parse_port(&chars, start + PREFIX_LEN, end)
    } else {
        None
    }
}

/// Decodes `bytes` as UTF-8 with `String::from_utf8_lossy`, which puts
/// U+FFFD in the place of whatever is not valid UTF-8. The text that comes
/// out is taken on trust under the name `lossy_utf8`; of valid UTF-8 it is
/// the text that the bytes encode.
#[verifier::external_body]
fn decode_lossy(bytes: &[u8]) -> (text: String)
    ensures
        text@ == lossy_utf8(bytes@),
        valid_utf8(bytes@) ==> text@ == decode_utf8(bytes@),
{
    String::from_utf8_lossy(bytes).into_owned()
}

/// The port that a raw line of the backend's output announces: the line is
/// decoded as UTF-8, what is invalid being replaced, and then read as
/// [`parse_ready_text`] reads it.
pub fn parse_ready_line(line: &[u8]) -> (port: Option<u16>)
    ensures
        port == ready_port(lossy_utf8(line@)),
        valid_utf8(line@) ==> port == ready_port(decode_utf8(line@)),
{
    let text = decode_lossy(line);
    parse_ready_text(text.as_str())
}

} // verus!
