//! Identifiers that the library generates: decimal text, local ids of
//! enrolled persons and request ids of verifications.

use vstd::prelude::*;
use vstd::string::StringExecFns;

verus! {

/// Least suffix that is drawn for a generated identifier.
pub const SUFFIX_LOW: u32 = 1000;

/// Bound above every suffix that is drawn for a generated identifier: 9999
/// itself is never drawn.
pub const SUFFIX_HIGH: u32 = 9999;

/// Bound above every suffix that four digits can write.
pub const SUFFIX_LIMIT: u32 = 10000;

/// The character of one decimal digit.
pub open spec fn digit_char(d: nat) -> char {
    if d == 0 {
        '0'
    } else if d == 1 {
        '1'
    } else if d == 2 {
        '2'
    } else if d == 3 {
        '3'
    } else if d == 4 {
        '4'
    } else if d == 5 {
        '5'
    } else if d == 6 {
        '6'
    } else if d == 7 {
        '7'
    } else if d == 8 {
        '8'
    } else {
        '9'
    }
}

/// The decimal digits of a natural number, most significant first, without
/// leading zeros.
pub open spec fn digits(n: nat) -> Seq<char>
    decreases n,
{
    if n < 10 {
        seq![digit_char(n)]
    } else {
        digits(n / 10).push(digit_char(n % 10))
    }
}

/// The decimal text of an integer: a minus sign before the digits of a
/// negative one.
pub open spec fn decimal(v: int) -> Seq<char> {
    if v < 0 {
        seq!['-'] + digits((-v) as nat)
    } else {
        digits(v as nat)
    }
}

/// A suffix in four decimal digits, thousands first, with zeros in front of
/// a suffix below one thousand.
pub open spec fn four_digits(n: nat) -> Seq<char> {
    seq![
        digit_char(n / 1000 % 10),
        digit_char(n / 100 % 10),
        digit_char(n / 10 % 10),
        digit_char(n % 10),
    ]
}

/// The text of a local id: tenant, millisecond timestamp and the suffix in
/// four digits, joined by underscores.
pub open spec fn local_id_text(company_id: Seq<char>, millis: i64, suffix: u32) -> Seq<char> {
    company_id + seq!['_'] + decimal(millis as int) + seq!['_'] + four_digits(suffix as nat)
}

/// The text of a request id: the letters `req`, millisecond timestamp and
/// suffix, each in decimal, joined by underscores.
pub open spec fn request_id_text(millis: i64, suffix: u32) -> Seq<char> {
    seq!['r', 'e', 'q', '_'] + decimal(millis as int) + seq!['_'] + digits(suffix as nat)
}

fn digit_str(d: u64) -> (s: &'static str)
    requires
        d < 10,
    ensures
        s@ == seq![digit_char(d as nat)],
{
    proof {
        reveal_strlit("0");
        reveal_strlit("1");
        reveal_strlit("2");
        reveal_strlit("3");
        reveal_strlit("4");
        reveal_strlit("5");
        reveal_strlit("6");
        reveal_strlit("7");
        reveal_strlit("8");
        reveal_strlit("9");
    }
    if d == 0 {
        "0"
    } else if d == 1 {
        "1"
    } else if d == 2 {
        "2"
    } else if d == 3 {
        "3"
    } else if d == 4 {
        "4"
    } else if d == 5 {
        "5"
    } else if d == 6 {
        "6"
    } else if d == 7 {
        "7"
    } else if d == 8 {
        "8"
    } else {
        "9"
    }
}

/// Appends the decimal digits of `n` to `out`.
pub fn append_digits(out: &mut String, n: u64)
    ensures
        final(out)@ == old(out)@ + digits(n as nat),
    decreases n,
{
    if n >= 10 {
        append_digits(out, n / 10);
    }
    out.append(digit_str(n % 10));
}

/// Appends `n` in four digits to `out`, with zeros in front where `n` is
/// below one thousand. Four digits cannot write ten thousand or more.
pub fn append_four_digits(out: &mut String, n: u32)
    requires
        n < SUFFIX_LIMIT,
    ensures
        final(out)@ == old(out)@ + four_digits(n as nat),
{
    let thousands: u64 = (n / 1000) as u64;
    let hundreds: u64 = (n / 100 % 10) as u64;
    let tens: u64 = (n / 10 % 10) as u64;
    let ones: u64 = (n % 10) as u64;
    out.append(digit_str(thousands));
    out.append(digit_str(hundreds));
    out.append(digit_str(tens));
    out.append(digit_str(ones));
    assert(out@ =~= old(out)@ + four_digits(n as nat));
}

/// Appends the decimal text of `v` to `out`.
pub fn append_decimal(out: &mut String, v: i64)
    ensures
        final(out)@ == old(out)@ + decimal(v as int),
{
    if v < 0 {
        proof {
            reveal_strlit("-");
        }
        out.append("-");
        let magnitude: u64 = (-(v as i128)) as u64;
        append_digits(out, magnitude);
    } else {
        append_digits(out, v as u64);
    }
}

/// The decimal text of `v`.
pub fn decimal_string(v: i64) -> (s: String)
    ensures
        s@ == decimal(v as int),
{
    let mut s = String::new();
    append_decimal(&mut s, v);
    s
}

/// The local id of a person enrolled for `company_id` at `millis` with the
/// random `suffix`, which is written in four digits. Two enrollments of one
/// tenant within one millisecond that draw the same suffix get the same id;
/// nothing here prevents it.
pub fn make_local_id(company_id: &str, millis: i64, suffix: u32) -> (id: String)
    requires
        suffix < SUFFIX_LIMIT,
    ensures
        id@ == local_id_text(company_id@, millis, suffix),
{
    proof {
        reveal_strlit("_");
    }
    let mut id = String::from_str(company_id);
    id.append("_");
    append_decimal(&mut id, millis);
    id.append("_");
    append_four_digits(&mut id, suffix);
    id
}

/// The request id of a verification that came to its result at `millis`,
/// with the random `suffix`.
pub fn make_request_id(millis: i64, suffix: u32) -> (id: String)
    ensures
        id@ == request_id_text(millis, suffix),
{
    proof {
        reveal_strlit("req_");
        reveal_strlit("_");
    }
    let mut id = String::from_str("req_");
    append_decimal(&mut id, millis);
    id.append("_");
    append_digits(&mut id, suffix as u64);
    id
}

/// Decimal digits are told apart by their characters.
pub proof fn lemma_digit_chars_differ(a: nat, b: nat)
    requires
        a < 10,
        b < 10,
        digit_char(a) == digit_char(b),
    ensures
        a == b,
{
}

/// The suffix of a local id has four digits, whatever was drawn. A suffix
/// of a thousand or more, below ten thousand, is written as the number is
/// written in decimal; and two suffixes below ten thousand that are written
/// alike are the same.
pub proof fn lemma_suffix_has_four_digits(suffix: u32, other: u32)
    ensures
        four_digits(suffix as nat).len() == 4,
        1000 <= suffix < SUFFIX_LIMIT ==> four_digits(suffix as nat) == digits(suffix as nat),
        suffix < SUFFIX_LIMIT && other < SUFFIX_LIMIT && four_digits(suffix as nat) == four_digits(
            other as nat,
        ) ==> suffix == other,
{
    let n = suffix as nat;
    if 1000 <= suffix < SUFFIX_LIMIT {
        reveal_with_fuel(digits, 4);
        assert(digits(n) == digits(n / 10).push(digit_char(n % 10)));
        assert(digits(n / 10) == digits(n / 100).push(digit_char((n / 10) % 10)));
        assert(digits(n / 100) == digits(n / 1000).push(digit_char((n / 100) % 10)));
        assert(n / 1000 < 10);
        assert(n / 1000 % 10 == n / 1000);
        assert(n / 100 % 10 == (n / 100) % 10);
        assert(four_digits(n) =~= digits(n));
    }
    let m = other as nat;
    if suffix < SUFFIX_LIMIT && other < SUFFIX_LIMIT && four_digits(n) == four_digits(m) {
        assert(four_digits(n)[0] == four_digits(m)[0]);
        assert(four_digits(n)[1] == four_digits(m)[1]);
        assert(four_digits(n)[2] == four_digits(m)[2]);
        assert(four_digits(n)[3] == four_digits(m)[3]);
        lemma_digit_chars_differ(n / 1000 % 10, m / 1000 % 10);
        lemma_digit_chars_differ(n / 100 % 10, m / 100 % 10);
        lemma_digit_chars_differ(n / 10 % 10, m / 10 % 10);
        lemma_digit_chars_differ(n % 10, m % 10);
    }
}

/// A local id ends in an underscore and the four digits of its suffix.
pub proof fn lemma_local_id_ends_in_suffix(company_id: Seq<char>, millis: i64, suffix: u32)
    ensures
        ({
            let id = local_id_text(company_id, millis, suffix);
            &&& id.len() >= 5
            &&& id.subrange(id.len() - 4, id.len() as int) == four_digits(suffix as nat)
            &&& id[id.len() - 5] == '_'
        }),
{
    let id = local_id_text(company_id, millis, suffix);
    let front = company_id + seq!['_'] + decimal(millis as int) + seq!['_'];
    assert(id == front + four_digits(suffix as nat));
    assert(id.subrange(id.len() - 4, id.len() as int) =~= four_digits(suffix as nat));
}

} // verus!
