//! FIX checksums and field escaping, instrument names, and identifiers for
//! requests and orders.
use vstd::prelude::*;
use vstd::string::StringSliceAdditionalSpecFns;
use crate::model::order::OrderSide;
use crate::text::{decimal_text, push_decimal};
use base64::Engine;

verus! {

/// The sum of a sequence of bytes.
pub open spec fn byte_sum(b: Seq<u8>) -> nat
    decreases b.len(),
{
    if b.len() == 0 {
        0
    } else {
        byte_sum(b.drop_last()) + b.last() as nat
    }
}

/// The FIX checksum of a message: the sum of its bytes modulo 256.
pub open spec fn checksum_of(b: Seq<u8>) -> u8 {
    (byte_sum(b) % 256) as u8
}

/// Calculate FIX message checksum
pub fn calculate_checksum(message: &str) -> (r: u8)
    ensures
        r == checksum_of(message.spec_bytes()),
{
    let b = message.as_bytes();
    let r = checksum_of_bytes(b, b.len());
    assert(b@.subrange(0, b@.len() as int) =~= b@);
    r
}

fn checksum_of_bytes(b: &[u8], n: usize) -> (r: u8)
    requires
        n <= b@.len(),
    ensures
        r == checksum_of(b@.subrange(0, n as int)),
{
    let mut acc: u32 = 0;
    let mut i: usize = 0;
    while i < n
        invariant
            n <= b@.len(),
            i <= n,
            acc < 256,
            acc == byte_sum(b@.subrange(0, i as int)) % 256,
        decreases n - i,
    {
        proof {
            assert(b@.subrange(0, i + 1).drop_last() =~= b@.subrange(0, i as int));
        }
        acc = (acc + b[i] as u32) % 256;
        i = i + 1;
    }
    acc as u8
}

/// Whether the three bytes `10=` start at position `i`.
pub open spec fn tag_at(b: Seq<u8>, i: int) -> bool {
    0 <= i && i + 3 <= b.len() && b[i] == 49u8 && b[i + 1] == 48u8 && b[i + 2] == 61u8
}

/// The last position at or before `i` where `10=` starts, or -1.
pub open spec fn last_tag_from(b: Seq<u8>, i: int) -> int
    decreases i + 1,
{
    if i < 0 {
        -1
    } else if tag_at(b, i) {
        i
    } else {
        last_tag_from(b, i - 1)
    }
}

/// The last position where `10=` starts in a message, or -1.
pub open spec fn last_tag(b: Seq<u8>) -> int {
    last_tag_from(b, b.len() - 3)
}

/// The end of the field that starts at `i`: the first SOH byte from there,
/// or the end of the message.
pub open spec fn field_end(b: Seq<u8>, i: int) -> int
    decreases b.len() - i,
{
    if i >= b.len() {
        b.len() as int
    } else if b[i] == 1u8 {
        i
    } else {
        field_end(b, i + 1)
    }
}

/// Whether a byte is an ASCII decimal digit.
pub open spec fn is_digit(c: u8) -> bool {
    48u8 <= c <= 57u8
}

/// The value of a sequence of decimal digits.
pub open spec fn digits_value(d: Seq<u8>) -> nat
    decreases d.len(),
{
    if d.len() == 0 {
        0
    } else {
        digits_value(d.drop_last()) * 10 + (d.last() - 48) as nat
    }
}

/// Whether every byte of a sequence is a decimal digit.
pub open spec fn all_digits(d: Seq<u8>) -> bool {
    forall|i: int| 0 <= i < d.len() ==> is_digit(#[trigger] d[i])
}

/// Text without its leading `+`, if it has one.
pub open spec fn unsigned_part(t: Seq<u8>) -> Seq<u8> {
    if t.len() > 0 && t[0] == 43u8 {
        t.subrange(1, t.len() as int)
    } else {
        t
    }
}

/// What parsing text as a `u8` gives: an optional `+`, then at least one
/// decimal digit, with a value of at most 255.
pub open spec fn parse_u8(t: Seq<u8>) -> Option<u8> {
    let d = unsigned_part(t);
    if d.len() > 0 && all_digits(d) && digits_value(d) <= 255 {
        Some(digits_value(d) as u8)
    } else {
        None
    }
}

/// Whether a FIX message carries the right checksum: the field after the last
/// `10=` parses as a `u8` equal to the checksum of everything before that tag.
pub open spec fn checksum_valid(b: Seq<u8>) -> bool {
    let p = last_tag(b);
    p >= 0 && parse_u8(b.subrange(p + 3, field_end(b, p + 3))) == Some(
        checksum_of(b.subrange(0, p)),
    )
}

proof fn lemma_digits_value_grows(d: Seq<u8>, k: int)
    requires
        0 <= k <= d.len(),
        all_digits(d),
    ensures
        digits_value(d.subrange(0, k)) <= digits_value(d),
    decreases d.len(),
{
    if k < d.len() {
        assert(d.drop_last().subrange(0, k) =~= d.subrange(0, k));
        lemma_digits_value_grows(d.drop_last(), k);
    } else {
        assert(d.subrange(0, k) =~= d);
    }
}

fn parse_u8_field(b: &[u8], start: usize, end: usize) -> (r: Option<u8>)
    requires
        start <= end <= b@.len(),
    ensures
        r == parse_u8(b@.subrange(start as int, end as int)),
{
    let ghost t = b@.subrange(start as int, end as int);
    let mut i = start;
    if start < end && b[start] == 43u8 {
        i = start + 1;
    }
    let ghost d = b@.subrange(i as int, end as int);
    assert(unsigned_part(t) =~= d);
    if i == end {
        return None;
    }
    let first = i;
    let mut v: u32 = 0;
    while i < end
        invariant
            first <= i <= end <= b@.len(),
            d == b@.subrange(first as int, end as int),
            t == b@.subrange(start as int, end as int),
            unsigned_part(t) == d,
            v <= 255,
            forall|j: int| first <= j < i ==> is_digit(#[trigger] b@[j]),
            v == digits_value(b@.subrange(first as int, i as int)),
        decreases end - i,
    {
        let c = b[i];
        if c < 48u8 || c > 57u8 {
            proof {
                assert(d[i - first] == c);
                assert(!all_digits(d));
            }
            return None;
        }
        proof {
            assert(b@.subrange(first as int, i + 1).drop_last() =~= b@.subrange(
                first as int,
                i as int,
            ));
        }
        v = v * 10 + (c - 48u8) as u32;
        i = i + 1;
        if v > 255 {
            proof {
                if all_digits(d) {
                    assert(d.subrange(0, i - first) =~= b@.subrange(first as int, i as int));
                    lemma_digits_value_grows(d, i - first);
                }
            }
            return None;
        }
    }
    assert(d =~= b@.subrange(first as int, i as int));
    assert(all_digits(d));
    Some(v as u8)
}

/// Validate FIX checksum
pub fn validate_checksum(message: &str) -> (r: bool)
    ensures
        r == checksum_valid(message.spec_bytes()),
{
    let b = message.as_bytes();
    let n = b.len();
    if n < 3 {
        assert(last_tag(b@) == -1);
        return false;
    }
    let mut p: usize = n - 3;
    loop
        invariant
            b@ == message.spec_bytes(),
            n == b@.len(),
            n >= 3,
            p <= n - 3,
            last_tag(b@) == last_tag_from(b@, p as int),
        ensures
            p <= n - 3,
            last_tag(b@) == last_tag_from(b@, p as int),
            tag_at(b@, p as int),
        decreases p,
    {
        if b[p] == 49u8 && b[p + 1] == 48u8 && b[p + 2] == 61u8 {
            break;
        }
        if p == 0 {
            assert(!tag_at(b@, 0));
            assert(last_tag_from(b@, 0) == last_tag_from(b@, -1));
            assert(last_tag(b@) == -1);
            return false;
        }
        p = p - 1;
    }
    assert(tag_at(b@, p as int));
    assert(last_tag(b@) == p);
    let start = p + 3;
    let mut e = start;
    while e < n && b[e] != 1u8
        invariant
            n == b@.len(),
            start <= e <= n,
            field_end(b@, start as int) == field_end(b@, e as int),
        decreases n - e,
    {
        e = e + 1;
    }
    assert(field_end(b@, e as int) == e);
    let expected = checksum_of_bytes(b, p);
    match parse_u8_field(b, start, e) {
        Some(actual) => actual == expected,
        None => false,
    }
}


/// Whether `p` is a prefix of `s`.
pub open spec fn has_prefix(s: Seq<char>, p: Seq<char>) -> bool {
    p.len() <= s.len() && s.subrange(0, p.len() as int) == p
}

fn starts_with(s: &str, p: &str) -> (r: bool)
    ensures
        r == has_prefix(s@, p@),
{
    let n = p.unicode_len();
    if n > s.unicode_len() {
        return false;
    }
    let mut i: usize = 0;
    while i < n
        invariant
            n == p@.len(),
            n <= s@.len(),
            i <= n,
            forall|j: int| 0 <= j < i ==> s@[j] == p@[j],
        decreases n - i,
    {
        if s.get_char(i) != p.get_char(i) {
            assert(s@.subrange(0, n as int)[i as int] != p@[i as int]);
            return false;
        }
        i = i + 1;
    }
    assert(s@.subrange(0, n as int) =~= p@);
    true
}

/// The first position of `c` in `s` at or after `i`, or -1.
pub open spec fn index_of_from(s: Seq<char>, c: char, i: int) -> int
    decreases s.len() - i,
{
    if i < 0 || i >= s.len() {
        -1
    } else if s[i] == c {
        i
    } else {
        index_of_from(s, c, i + 1)
    }
}

/// The first position of `c` in `s`, or -1.
pub open spec fn index_of(s: Seq<char>, c: char) -> int {
    index_of_from(s, c, 0)
}

proof fn lemma_index_of_from(s: Seq<char>, c: char, i: int)
    requires
        0 <= i <= s.len(),
    ensures
        index_of_from(s, c, i) == -1 <==> (forall|j: int| i <= j < s.len() ==> s[j] != c),
        index_of_from(s, c, i) != -1 ==> (i <= index_of_from(s, c, i) < s.len() && s[index_of_from(
            s,
            c,
            i,
        )] == c),
    decreases s.len() - i,
{
    if i < s.len() {
        lemma_index_of_from(s, c, i + 1);
    }
}

fn find_char(s: &str, c: char) -> (r: Option<usize>)
    ensures
        r matches Some(k) ==> k == index_of(s@, c),
        r is None ==> index_of(s@, c) == -1,
{
    let n = s.unicode_len();
    let mut i: usize = 0;
    while i < n
        invariant
            n == s@.len(),
            i <= n,
            index_of(s@, c) == index_of_from(s@, c, i as int),
        decreases n - i,
    {
        if s.get_char(i) == c {
            return Some(i);
        }
        i = i + 1;
    }
    None
}

/// Whether a name follows the venue's instrument naming: it holds a dash and
/// starts with BTC, ETH, USD or USDC.
pub open spec fn valid_instrument_name(s: Seq<char>) -> bool {
    &&& s.len() > 0
    &&& s.contains('-')
    &&& (has_prefix(s, "BTC"@) || has_prefix(s, "ETH"@) || has_prefix(s, "USD"@) || has_prefix(
        s,
        "USDC"@,
    ))
}

/// Validate Deribit instrument name format
pub fn validate_instrument_name(instrument: &str) -> (r: bool)
    ensures
        r == valid_instrument_name(instrument@),
{
    if instrument.unicode_len() == 0 {
        return false;
    }
    let dash = find_char(instrument, '-');
    proof {
        lemma_index_of_from(instrument@, '-', 0);
    }
    if dash.is_none() {
        assert(!instrument@.contains('-'));
        return false;
    }
    proof {
        let k = index_of(instrument@, '-');
        assert(instrument@[k] == '-');
    }
    starts_with(instrument, "BTC") || starts_with(instrument, "ETH") || starts_with(
        instrument,
        "USD",
    ) || starts_with(instrument, "USDC")
}

/// Extract currency from Deribit instrument name
pub fn extract_currency_from_instrument(instrument: &str) -> (r: Option<&str>)
    ensures
        r is None <==> !instrument@.contains('-'),
        r matches Some(t) ==> t@ == instrument@.subrange(0, index_of(instrument@, '-')),
{
    proof {
        lemma_index_of_from(instrument@, '-', 0);
    }
    match find_char(instrument, '-') {
        Some(k) => {
            proof {
                assert(instrument@[k as int] == '-');
            }
            Some(instrument.substring_char(0, k))
        },
        None => None,
    }
}

/// The escaped form of a FIX value: each SOH becomes the four characters `\001`.
pub open spec fn escaped(s: Seq<char>) -> Seq<char>
    decreases s.len(),
{
    if s.len() == 0 {
        Seq::empty()
    } else if s[0] == '\x01' {
        "\\001"@ + escaped(s.drop_first())
    } else {
        seq![s[0]] + escaped(s.drop_first())
    }
}

/// The unescaped form of a FIX value: each `\001`, read from the left, becomes
/// an SOH.
pub open spec fn unescaped(s: Seq<char>) -> Seq<char>
    decreases s.len(),
{
    if s.len() >= 4 && s.subrange(0, 4) == "\\001"@ {
        seq!['\x01'] + unescaped(s.subrange(4, s.len() as int))
    } else if s.len() == 0 {
        Seq::empty()
    } else {
        seq![s[0]] + unescaped(s.drop_first())
    }
}

/// Escape FIX field value (replace SOH with readable representation)
pub fn escape_fix_value(value: &str) -> (r: String)
    ensures
        r@ == escaped(value@),
{
    let n = value.unicode_len();
    let mut out = String::new();
    let mut i: usize = 0;
    assert(value@.subrange(0, n as int) =~= value@);
    assert(out@ + escaped(value@) =~= escaped(value@));
    while i < n
        invariant
            n == value@.len(),
            i <= n,
            out@ + escaped(value@.subrange(i as int, n as int)) == escaped(value@),
        decreases n - i,
    {
        let ghost rest = value@.subrange(i as int, n as int);
        assert(rest.drop_first() =~= value@.subrange(i + 1, n as int));
        if value.get_char(i) == '\x01' {
            out.append("\\001");
        } else {
            out.append(value.substring_char(i, i + 1));
            assert(value@.subrange(i as int, i + 1) =~= seq![rest[0]]);
        }
        assert(out@ + escaped(value@.subrange(i + 1, n as int)) =~= escaped(value@));
        i = i + 1;
    }
    assert(escaped(value@.subrange(n as int, n as int)) =~= Seq::<char>::empty());
    assert(out@ =~= escaped(value@));
    out
}

/// Unescape FIX field value (restore SOH characters)
pub fn unescape_fix_value(value: &str) -> (r: String)
    ensures
        r@ == unescaped(value@),
{
    let n = value.unicode_len();
    let mut out = String::new();
    let mut i: usize = 0;
    assert(value@.subrange(0, n as int) =~= value@);
    assert(out@ + unescaped(value@) =~= unescaped(value@));
    while i < n
        invariant
            n == value@.len(),
            i <= n,
            out@ + unescaped(value@.subrange(i as int, n as int)) == unescaped(value@),
        decreases n - i,
    {
        let ghost rest = value@.subrange(i as int, n as int);
        proof {
            reveal_strlit("\\001");
            reveal_strlit("\x01");
        }
        if n - i >= 4 && starts_with(value.substring_char(i, n), "\\001") {
            assert(rest.subrange(4, rest.len() as int) =~= value@.subrange(i + 4, n as int));
            out.append("\x01");
            assert(out@ + unescaped(value@.subrange(i + 4, n as int)) =~= unescaped(value@));
            i = i + 4;
        } else {
            assert(rest.drop_first() =~= value@.subrange(i + 1, n as int));
            out.append(value.substring_char(i, i + 1));
            assert(value@.subrange(i as int, i + 1) =~= seq![rest[0]]);
            assert(out@ + unescaped(value@.subrange(i + 1, n as int)) =~= unescaped(value@));
            i = i + 1;
        }
    }
    assert(unescaped(value@.subrange(n as int, n as int)) =~= Seq::<char>::empty());
    assert(out@ =~= unescaped(value@));
    out
}


/// Convert OrderSide to FIX Side field
pub fn side_to_fix(side: OrderSide) -> (r: &'static str)
    ensures
        r@ == (match side {
            OrderSide::Buy => "1"@,
            OrderSide::Sell => "2"@,
        }),
{
    match side {
        OrderSide::Buy => "1",
        OrderSide::Sell => "2",
    }
}

/// An identifier made of a prefix, an underscore and a number.
pub open spec fn tagged_id(prefix: Seq<char>, n: nat) -> Seq<char> {
    prefix + "_"@ + decimal_text(n)
}

/// The client order identifier for a prefix and a timestamp in milliseconds.
pub fn client_order_id(prefix: &str, timestamp: u64) -> (r: String)
    ensures
        r@ == tagged_id(prefix@, timestamp as nat),
{
    let mut s = String::from_str(prefix);
    s.append("_");
    push_decimal(&mut s, timestamp);
    s
}

/// The JSON-RPC request identifier for a prefix and a random number.
pub fn request_id(prefix: &str, random_part: u32) -> (r: String)
    ensures
        r@ == tagged_id(prefix@, random_part as nat),
{
    let mut s = String::from_str(prefix);
    s.append("_");
    push_decimal(&mut s, random_part as u64);
    s
}

/// Relies on `rand::random` for a `u32`: a number drawn from the thread's
/// generator; nothing is claimed of its value.
#[verifier::external_body]
fn random_u32() -> u32 {
    rand::random::<u32>()
}

/// Relies on `rand::random` for a `u8`: a byte drawn from the thread's
/// generator; nothing is claimed of its value.
#[verifier::external_body]
fn random_u8() -> u8 {
    rand::random::<u8>()
}

/// Generate a unique request ID for JSON-RPC calls
pub fn generate_request_id(prefix: &str) -> (r: String)
    ensures
        exists|n: u32| r@ == tagged_id(prefix@, n as nat),
{
    let n = random_u32();
    request_id(prefix, n)
}

/// The standard, padded base64 text of some bytes.
pub uninterp spec fn base64_of(b: Seq<u8>) -> Seq<char>;

/// Relies on base64's `STANDARD` engine `encode`: the padded base64 text of
/// the bytes, four characters for every started group of three bytes.
#[verifier::external_body]
fn base64_standard(b: &Vec<u8>) -> (r: String)
    requires
        b@.len() <= usize::MAX / 2,
    ensures
        r@ == base64_of(b@),
        r@.len() == 4 * ((b@.len() + 2) / 3),
{
    base64::prelude::BASE64_STANDARD.encode(b)
}

/// The base64 text of `length` random bytes.
pub fn generate_nonce(length: usize) -> (r: String)
    requires
        length <= usize::MAX / 2,
    ensures
        exists|b: Seq<u8>| b.len() == length && r@ == base64_of(b),
        r@.len() == 4 * ((length + 2) / 3),
{
    let mut bytes: Vec<u8> = Vec::new();
    let mut i: usize = 0;
    while i < length
        invariant
            i <= length,
            bytes@.len() == i,
        decreases length - i,
    {
        bytes.push(random_u8());
        i = i + 1;
    }
    base64_standard(&bytes)
}

/// The venue's name for an instrument: `CUR-PERPETUAL` without an expiry,
/// else the currency, expiry, strike and option type that are given, joined
/// by dashes; an option type counts only after a strike.
pub open spec fn instrument_name(
    currency: Seq<char>,
    expiry: Option<Seq<char>>,
    strike: Option<Seq<char>>,
    option_type: Option<Seq<char>>,
) -> Seq<char> {
    match expiry {
        None => currency + "-PERPETUAL"@,
        Some(e) => match strike {
            None => currency + "-"@ + e,
            Some(k) => match option_type {
                None => currency + "-"@ + e + "-"@ + k,
                Some(o) => currency + "-"@ + e + "-"@ + k + "-"@ + o,
            },
        },
    }
}

/// The view of an optional text.
pub open spec fn opt_view(t: Option<&str>) -> Option<Seq<char>> {
    match t {
        Some(s) => Some(s@),
        None => None,
    }
}

/// Builds an instrument name from its parts, with the strike already written
/// as text.
pub fn format_instrument_name(
    currency: &str,
    expiry: Option<&str>,
    strike: Option<&str>,
    option_type: Option<&str>,
) -> (r: String)
    ensures
        r@ == instrument_name(currency@, opt_view(expiry), opt_view(strike), opt_view(option_type)),
{
    let mut name = String::from_str(currency);
    match expiry {
        Some(e) => {
            name.append("-");
            name.append(e);
            match strike {
                Some(k) => {
                    name.append("-");
                    name.append(k);
                    match option_type {
                        Some(o) => {
                            name.append("-");
                            name.append(o);
                        },
                        None => {},
                    }
                },
                None => {},
            }
        },
        None => {
            name.append("-PERPETUAL");
        },
    }
    name
}

} // verus!
