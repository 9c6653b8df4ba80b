//! The announcement encoding.
//!
//! The relay reports the addresses of its two listeners to the invoking
//! coordinator in a single message: a fixed seven-character prefix, then the
//! caller address with a two-digit zero-padded length in front of it, then
//! the literal `02`, then the callee address encoded the same way.  The
//! length field has room for two decimal digits only, so strings longer than
//! ninety-nine characters are rejected rather than encoded.

use vstd::prelude::*;

verus! {

/// The character for one decimal digit value.
pub open spec fn digit_char(d: int) -> char {
    if d == 0 {
        '0'
    } else if d == 1 {
        '1'
    } else if d == 2 {
        '2'
    } else if d == 3 {
        '3'
    } else if d == 4 {
        '4'
    } else if d == 5 {
        '5'
    } else if d == 6 {
        '6'
    } else if d == 7 {
        '7'
    } else if d == 8 {
        '8'
    } else {
        '9'
    }
}

/// The decimal digit value of a character, `-1` for a non-digit.
pub open spec fn digit_val(c: char) -> int {
    if c == '0' {
        0
    } else if c == '1' {
        1
    } else if c == '2' {
        2
    } else if c == '3' {
        3
    } else if c == '4' {
        4
    } else if c == '5' {
        5
    } else if c == '6' {
        6
    } else if c == '7' {
        7
    } else if c == '8' {
        8
    } else if c == '9' {
        9
    } else {
        -1
    }
}

/// The two-digit zero-padded decimal rendering of `n`, meaningful for
/// `0 <= n <= 99`.
pub open spec fn len_prefix(n: int) -> Seq<char> {
    seq![digit_char(n / 10), digit_char(n % 10)]
}

/// A string with its two-digit length in front of it.
pub open spec fn xenc_spec(s: Seq<char>) -> Seq<char> {
    len_prefix(s.len() as int) + s
}

fn digit_str(d: usize) -> (r: &'static str)
    requires
        d < 10,
    ensures
        r@ == seq![digit_char(d as int)],
{
    let r: &'static str = match d {
        0 => "0",
        1 => "1",
        2 => "2",
        3 => "3",
        4 => "4",
        5 => "5",
        6 => "6",
        7 => "7",
        8 => "8",
        _ => "9",
    };
    proof {
        reveal_strlit("0");
        reveal_strlit("1");
        reveal_strlit("2");
        reveal_strlit("3");
        reveal_strlit("4");
        reveal_strlit("5");
        reveal_strlit("6");
        reveal_strlit("7");
        reveal_strlit("8");
        reveal_strlit("9");
        assert(r@ =~= seq![digit_char(d as int)]);
    }
    r
}

/// Encode a string by putting its two-digit zero-padded length in front of
/// it.  Strings longer than ninety-nine characters do not fit the length
/// field and are rejected with `None`.
pub fn xenc(s: &str) -> (r: Option<String>)
    ensures
        s@.len() <= 99 ==> (r matches Some(t) && t@ == xenc_spec(s@)),
        s@.len() > 99 ==> r is None,
{
    let n = s.unicode_len();
    if n > 99 {
        return None;
    }
    let mut out = String::new();
    out.append(digit_str(n / 10));
    out.append(digit_str(n % 10));
    out.append(s);
    proof {
        assert(out@ =~= xenc_spec(s@));
    }
    Some(out)
}

/// The startup announcement: the fixed prefix, the encoded caller address,
/// the literal `02`, and the encoded callee address, with no trailing
/// delimiter.
pub open spec fn announcement_spec(caller: Seq<char>, callee: Seq<char>) -> Seq<char> {
    "0901202"@ + xenc_spec(caller) + "02"@ + xenc_spec(callee)
}

/// Build the startup announcement for the two listener addresses.  Either
/// address longer than ninety-nine characters is rejected with `None`.
pub fn announcement(caller: &str, callee: &str) -> (r: Option<String>)
    ensures
        caller@.len() <= 99 && callee@.len() <= 99 ==> (r matches Some(m) && m@
            == announcement_spec(caller@, callee@)),
        caller@.len() > 99 || callee@.len() > 99 ==> r is None,
{
    let enc_caller = match xenc(caller) {
        Some(e) => e,
        None => {
            return None;
        },
    };
    let enc_callee = match xenc(callee) {
        Some(e) => e,
        None => {
            return None;
        },
    };
    let mut m = String::from_str("0901202");
    m.append(enc_caller.as_str());
    m.append("02");
    m.append(enc_callee.as_str());
    proof {
        assert(m@ =~= announcement_spec(caller@, callee@));
    }
    Some(m)
}

/// Round-trip shape of the encoding: for a string of length `L` up to
/// ninety-nine, the result is exactly the two-digit zero-padded decimal
/// rendering of `L` followed by the string itself, and the two digits decode
/// back to `L`.
pub proof fn lemma_xenc_round_trip(s: Seq<char>)
    requires
        s.len() <= 99,
    ensures
        xenc_spec(s).len() == s.len() + 2,
        xenc_spec(s).subrange(2, xenc_spec(s).len() as int) == s,
        0 <= digit_val(xenc_spec(s)[0]) <= 9,
        0 <= digit_val(xenc_spec(s)[1]) <= 9,
        10 * digit_val(xenc_spec(s)[0]) + digit_val(xenc_spec(s)[1]) == s.len(),
{
    let n = s.len() as int;
    assert(xenc_spec(s).subrange(2, xenc_spec(s).len() as int) =~= s);
    assert(digit_val(digit_char(n / 10)) == n / 10);
    assert(digit_val(digit_char(n % 10)) == n % 10);
    assert(10 * (n / 10) + n % 10 == n);
}

} // verus!
