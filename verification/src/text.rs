//! Text the engine builds: decimal numbers, lower-case hex, and the
//! ASCII case-insensitive comparison used for fingerprints.
use vstd::prelude::*;

verus! {

/// The character that writes the digit `v` (0 to 15) in lower-case hex;
/// for `v` under 10 it is the decimal digit.
pub open spec fn hex_digit(v: int) -> char {
    seq!['0', '1', '2', '3', '4', '5', '6', '7', '8', '9', 'a', 'b', 'c', 'd', 'e', 'f'][v]
}

/// `n` written in decimal, without leading zeros.
pub open spec fn decimal(n: nat) -> Seq<char>
    decreases n,
{
    if n < 10 {
        seq![hex_digit(n as int)]
    } else {
        decimal(n / 10).push(hex_digit((n % 10) as int))
    }
}

/// The lower-case hex encoding of `bytes`: two characters per byte, the
/// high nibble first.
pub open spec fn hex_lower(bytes: Seq<u8>) -> Seq<char>
    decreases bytes.len(),
{
    if bytes.len() == 0 {
        Seq::empty()
    } else {
        hex_lower(bytes.drop_last()) + seq![
            hex_digit((bytes.last() / 16) as int),
            hex_digit((bytes.last() % 16) as int),
        ]
    }
}

/// `c` with an ASCII upper-case letter replaced by its lower-case letter.
pub open spec fn ascii_lower(c: char) -> char {
    if 'A' <= c && c <= 'Z' {
        ((c as int) + 32) as char
    } else {
        c
    }
}

/// Two texts that differ at most in the case of ASCII letters.
pub open spec fn eq_ignoring_ascii_case(a: Seq<char>, b: Seq<char>) -> bool {
    &&& a.len() == b.len()
    &&& forall|i: int| 0 <= i < a.len() ==> ascii_lower(#[trigger] a[i]) == ascii_lower(b[i])
}

/// The one-character text of the hex digit `v`.
pub fn digit_text(v: u8) -> (s: &'static str)
    requires
        v < 16,
    ensures
        s@ == seq![hex_digit(v as int)],
{
    if v < 8 {
        if v < 4 {
            if v == 0 {
                proof { reveal_strlit("0"); }
                "0"
            } else if v == 1 {
                proof { reveal_strlit("1"); }
                "1"
            } else if v == 2 {
                proof { reveal_strlit("2"); }
                "2"
            } else {
                proof { reveal_strlit("3"); }
                "3"
            }
        } else if v == 4 {
            proof { reveal_strlit("4"); }
            "4"
        } else if v == 5 {
            proof { reveal_strlit("5"); }
            "5"
        } else if v == 6 {
            proof { reveal_strlit("6"); }
            "6"
        } else {
            proof { reveal_strlit("7"); }
            "7"
        }
    } else if v < 12 {
        if v == 8 {
            proof { reveal_strlit("8"); }
            "8"
        } else if v == 9 {
            proof { reveal_strlit("9"); }
            "9"
        } else if v == 10 {
            proof { reveal_strlit("a"); }
            "a"
        } else {
            proof { reveal_strlit("b"); }
            "b"
        }
    } else if v == 12 {
        proof { reveal_strlit("c"); }
        "c"
    } else if v == 13 {
        proof { reveal_strlit("d"); }
        "d"
    } else if v == 14 {
        proof { reveal_strlit("e"); }
        "e"
    } else {
        proof { reveal_strlit("f"); }
        "f"
    }
}

/// `n` written in decimal.
pub fn decimal_text(n: u32) -> (s: String)
    ensures
        s@ == decimal(n as nat),
    decreases n,
{
    if n < 10 {
        String::from_str(digit_text(n as u8))
    } else {
        let mut s = decimal_text(n / 10);
        s.append(digit_text((n % 10) as u8));
        s
    }
}

/// The lower-case hex encoding of `bytes`.
pub fn hex_encode(bytes: &[u8]) -> (s: String)
    ensures
        s@ == hex_lower(bytes@),
{
    let mut s = String::new();
    let mut i: usize = 0;
    while i < bytes.len()
        invariant
            i <= bytes@.len(),
            s@ == hex_lower(bytes@.take(i as int)),
        decreases bytes@.len() - i,
    {
        let b = bytes[i];
        s.append(digit_text(b / 16));
        s.append(digit_text(b % 16));
        assert(bytes@.take(i as int + 1).drop_last() =~= bytes@.take(i as int));
        i = i + 1;
    }
    assert(bytes@.take(bytes@.len() as int) =~= bytes@);
    s
}

/// `c` with an ASCII upper-case letter replaced by its lower-case letter.
fn to_ascii_lower(c: char) -> (r: char)
    ensures
        r == ascii_lower(c),
{
    if 'A' <= c && c <= 'Z' {
        let v: u32 = c as u32;
        ((v + 32) as u8) as char
    } else {
        c
    }
}

/// Whether `a` and `b` differ at most in the case of ASCII letters.
pub fn equal_ignoring_ascii_case(a: &str, b: &str) -> (r: bool)
    ensures
        r == eq_ignoring_ascii_case(a@, b@),
{
    let n = a.unicode_len();
    if n != b.unicode_len() {
        return false;
    }
    let mut i: usize = 0;
    while i < n
        invariant
            n == a@.len(),
            n == b@.len(),
            i <= n,
            forall|j: int| 0 <= j < i ==> ascii_lower(#[trigger] a@[j]) == ascii_lower(b@[j]),
        decreases n - i,
    {
        if to_ascii_lower(a.get_char(i)) != to_ascii_lower(b.get_char(i)) {
            return false;
        }
        i = i + 1;
    }
    true
}

/// Comparing without regard to ASCII case is an equivalence: every text
/// matches itself, and matching is symmetric and transitive.
pub proof fn law_ascii_case_insensitive_match_is_an_equivalence(
    a: Seq<char>,
    b: Seq<char>,
    c: Seq<char>,
)
    ensures
        eq_ignoring_ascii_case(a, a),
        eq_ignoring_ascii_case(a, b) ==> eq_ignoring_ascii_case(b, a),
        eq_ignoring_ascii_case(a, b) && eq_ignoring_ascii_case(b, c) ==> eq_ignoring_ascii_case(
            a,
            c,
        ),
{
}

/// Two characters that are equal, or the upper- and lower-case forms of
/// one ASCII letter.
pub open spec fn same_ignoring_ascii_case(x: char, y: char) -> bool {
    ||| x == y
    ||| 'A' <= x <= 'Z' && y as int == x as int + 32
    ||| 'A' <= y <= 'Z' && x as int == y as int + 32
}

/// Two texts match without regard to ASCII case exactly when they have the
/// same length and, at every position, the same character or the two
/// cases of one ASCII letter; so texts that differ anywhere by more than
/// letter case do not match.
pub proof fn law_case_insensitive_match_compares_every_position(a: Seq<char>, b: Seq<char>)
    ensures
        eq_ignoring_ascii_case(a, b) <==> (a.len() == b.len() && forall|i: int|
            0 <= i < a.len() ==> same_ignoring_ascii_case(#[trigger] a[i], b[i])),
        eq_ignoring_ascii_case(a, b) ==> forall|i: int| 0 <= i < a.len() ==> ascii_lower(#[trigger] a[i]) == ascii_lower(b[i]),
{
    assert forall|x: char, y: char| #[trigger] same_ignoring_ascii_case(x, y) <==> ascii_lower(x) == ascii_lower(y) by {
        assert(ascii_lower(x) as int == if 'A' <= x <= 'Z' { x as int + 32 } else { x as int });
        assert(ascii_lower(y) as int == if 'A' <= y <= 'Z' { y as int + 32 } else { y as int });
    }
}

/// The hex digits are the ASCII characters '0' to '9' for 0 to 9 and the
/// lower-case letters 'a' to 'f' for 10 to 15.
pub proof fn law_hex_digits_are_lower_case_ascii(v: int)
    requires
        0 <= v < 16,
    ensures
        v < 10 ==> hex_digit(v) as int == 48 + v,
        v >= 10 ==> hex_digit(v) as int == 97 + (v - 10),
{
    if v == 0 { assert(hex_digit(v) == '0'); }
    else if v == 1 { assert(hex_digit(v) == '1'); }
    else if v == 2 { assert(hex_digit(v) == '2'); }
    else if v == 3 { assert(hex_digit(v) == '3'); }
    else if v == 4 { assert(hex_digit(v) == '4'); }
    else if v == 5 { assert(hex_digit(v) == '5'); }
    else if v == 6 { assert(hex_digit(v) == '6'); }
    else if v == 7 { assert(hex_digit(v) == '7'); }
    else if v == 8 { assert(hex_digit(v) == '8'); }
    else if v == 9 { assert(hex_digit(v) == '9'); }
    else if v == 10 { assert(hex_digit(v) == 'a'); }
    else if v == 11 { assert(hex_digit(v) == 'b'); }
    else if v == 12 { assert(hex_digit(v) == 'c'); }
    else if v == 13 { assert(hex_digit(v) == 'd'); }
    else if v == 14 { assert(hex_digit(v) == 'e'); }
    else { assert(hex_digit(v) == 'f'); }
}

/// Byte `i` of the input is written at positions `2i` (its high nibble)
/// and `2i + 1` (its low nibble) of the hex encoding.
pub proof fn law_hex_encoding_writes_each_byte_in_place(bytes: Seq<u8>)
    ensures
        hex_lower(bytes).len() == 2 * bytes.len(),
        forall|i: int|
            0 <= i < bytes.len() ==> hex_lower(bytes)[2 * i] == hex_digit(
                (#[trigger] bytes[i] / 16) as int,
            ) && hex_lower(bytes)[2 * i + 1] == hex_digit((bytes[i] % 16) as int),
    decreases bytes.len(),
{
    if bytes.len() > 0 {
        let rest = bytes.drop_last();
        law_hex_encoding_writes_each_byte_in_place(rest);
        assert forall|i: int| 0 <= i < bytes.len() implies hex_lower(bytes)[2 * i] == hex_digit(
            (#[trigger] bytes[i] / 16) as int,
        ) && hex_lower(bytes)[2 * i + 1] == hex_digit((bytes[i] % 16) as int) by {
            if i < rest.len() {
                assert(bytes[i] == rest[i]);
            }
        }
    }
}

/// The number that the decimal digits `s` write, most significant first.
pub open spec fn digits_value(s: Seq<char>) -> int
    decreases s.len(),
{
    if s.len() == 0 {
        0
    } else {
        digits_value(s.drop_last()) * 10 + (s.last() as int - 48)
    }
}

/// Decimal text reads back as the number it writes: it is made of the
/// ASCII digits '0' to '9', is not empty, and starts with '0' only when
/// the number is 0.
pub proof fn law_decimal_reads_back(n: nat)
    ensures
        digits_value(decimal(n)) == n,
        decimal(n).len() > 0,
        forall|i: int| 0 <= i < decimal(n).len() ==> 48 <= #[trigger] decimal(n)[i] as int <= 57,
        decimal(n)[0] as int == 48 ==> n == 0,
    decreases n,
{
    if n < 10 {
        law_hex_digits_are_lower_case_ascii(n as int);
        assert(decimal(n).drop_last() =~= Seq::<char>::empty());
        assert(digits_value(decimal(n)) == digits_value(Seq::<char>::empty()) * 10 + (hex_digit(
            n as int,
        ) as int - 48));
    } else {
        let q = n / 10;
        let d = (n % 10) as int;
        law_decimal_reads_back(q);
        law_hex_digits_are_lower_case_ascii(d);
        let s = decimal(n);
        assert(s.drop_last() =~= decimal(q));
        assert(s[0] == decimal(q)[0]);
        assert(s.last() == hex_digit(d));
        assert(digits_value(s) == digits_value(decimal(q)) * 10 + (hex_digit(d) as int - 48));
        assert(q * 10 + d == n) by (nonlinear_arith)
            requires
                q == n / 10,
                d == n % 10,
        ;
        assert forall|i: int| 0 <= i < s.len() implies 48 <= #[trigger] s[i] as int <= 57 by {
            if i < s.len() - 1 {
                assert(s[i] == decimal(q)[i]);
            }
        }
    }
}

/// The hex encoding has two characters per byte, each a lower-case hex
/// digit; so a SHA-256 fingerprint is 64 characters long.
pub proof fn law_hex_encoding_shape(bytes: Seq<u8>)
    ensures
        hex_lower(bytes).len() == 2 * bytes.len(),
        forall|i: int|
            0 <= i < hex_lower(bytes).len() ==> exists|v: int|
                0 <= v < 16 && #[trigger] hex_lower(bytes)[i] == hex_digit(v),
    decreases bytes.len(),
{
    if bytes.len() > 0 {
        let rest = bytes.drop_last();
        law_hex_encoding_shape(rest);
        let hi = (bytes.last() / 16) as int;
        let lo = (bytes.last() % 16) as int;
        assert forall|i: int| 0 <= i < hex_lower(bytes).len() implies exists|v: int|
            0 <= v < 16 && #[trigger] hex_lower(bytes)[i] == hex_digit(v) by {
            if i < hex_lower(rest).len() {
                assert(hex_lower(bytes)[i] == hex_lower(rest)[i]);
            } else if i == hex_lower(rest).len() {
                assert(hex_lower(bytes)[i] == hex_digit(hi));
            } else {
                assert(hex_lower(bytes)[i] == hex_digit(lo));
            }
        }
    }
}

} // verus!
