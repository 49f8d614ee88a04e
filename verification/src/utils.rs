//! Text helpers shared by the device and console layers: trailing-newline
//! stripping and decimal conversion between strings and `u64` values.

use vstd::prelude::*;

verus! {

/// The sequence `s` with one trailing `"\r\n"` or `"\n"` removed: `"\r\n"` is
/// preferred, at most one terminator is stripped, and a sequence with no
/// trailing newline (the empty sequence included) is left as it is.
pub open spec fn strip_spec(s: Seq<char>) -> Seq<char> {
    if s.len() >= 2 && s[s.len() - 2] == '\r' && s[s.len() - 1] == '\n' {
        s.take(s.len() - 2)
    } else if s.len() >= 1 && s[s.len() - 1] == '\n' {
        s.take(s.len() - 1)
    } else {
        s
    }
}

/// Whether `s` ends with a `'\n'` (the only case in which `strip_spec`
/// changes it).
pub open spec fn ends_with_newline(s: Seq<char>) -> bool {
    s.len() >= 1 && s[s.len() - 1] == '\n'
}

/// Removes a single trailing `"\r\n"` or `"\n"` from `input`, preferring the
/// two-character terminator; anything else, the empty string included, is
/// returned unchanged.
pub fn strip_trailing_newline(input: &str) -> (r: &str)
    ensures
        r@ == strip_spec(input@),
{
    let n = input.unicode_len();
    if n >= 2 && input.get_char(n - 2) == '\r' && input.get_char(n - 1) == '\n' {
        let r = input.substring_char(0, n - 2);
        proof {
            assert(r@ =~= strip_spec(input@));
        }
        r
    } else if n >= 1 && input.get_char(n - 1) == '\n' {
        let r = input.substring_char(0, n - 1);
        proof {
            assert(r@ =~= strip_spec(input@));
        }
        r
    } else {
        input
    }
}

/// A string that does not end in a newline is left untouched, so stripping is
/// idempotent on such strings; the empty string is one of them.
pub proof fn lemma_strip_no_newline(s: Seq<char>)
    requires
        !ends_with_newline(s),
    ensures
        strip_spec(s) == s,
{
}

/// Stripping never has to be done twice to reach a fixed point on a string
/// with no trailing newline: one application already returns it unchanged,
/// so a second application agrees with the first.
pub proof fn lemma_strip_idempotent_no_newline(s: Seq<char>)
    requires
        !ends_with_newline(s),
    ensures
        strip_spec(strip_spec(s)) == strip_spec(s),
{
}

/// Exactly one terminator is stripped: a string ending in `"\r\n"` loses
/// those two characters and no more, and a string ending in a bare `"\n"`
/// loses that one character.
pub proof fn lemma_strip_one_terminator(s: Seq<char>)
    requires
        ends_with_newline(s),
    ensures
        s.len() >= 2 && s[s.len() - 2] == '\r' ==> strip_spec(s) == s.take(s.len() - 2),
        !(s.len() >= 2 && s[s.len() - 2] == '\r') ==> strip_spec(s) == s.take(s.len() - 1),
{
}

/// Whether `c` is one of the whitespace characters the console trims from a
/// line of input: space, tab, carriage return, or newline.
pub open spec fn is_ws(c: char) -> bool {
    c == ' ' || c == '\t' || c == '\r' || c == '\n'
}

/// `s` with every leading whitespace character removed.
pub open spec fn trim_start_spec(s: Seq<char>) -> Seq<char>
    decreases s.len(),
{
    if s.len() > 0 && is_ws(s.first()) {
        trim_start_spec(s.drop_first())
    } else {
        s
    }
}

/// `s` with every trailing whitespace character removed.
pub open spec fn trim_end_spec(s: Seq<char>) -> Seq<char>
    decreases s.len(),
{
    if s.len() > 0 && is_ws(s.last()) {
        trim_end_spec(s.drop_last())
    } else {
        s
    }
}

/// `s` with all leading and trailing whitespace removed.
pub open spec fn trim_spec(s: Seq<char>) -> Seq<char> {
    trim_end_spec(trim_start_spec(s))
}

/// Whether the character of `s` at `i` is trimmable whitespace.
fn ws_at(s: &str, i: usize) -> (r: bool)
    requires
        i < s@.len(),
    ensures
        r == is_ws(s@[i as int]),
{
    let c = s.get_char(i);
    c == ' ' || c == '\t' || c == '\r' || c == '\n'
}

/// Removes leading and trailing spaces, tabs, carriage returns and newlines,
/// matching `trim_spec` exactly.
pub fn trim_whitespace(s: &str) -> (r: &str)
    ensures
        r@ == trim_spec(s@),
{
    let n = s.unicode_len();
    let mut a: usize = 0;
    proof {
        assert(s@.skip(0) =~= s@);
    }
    while a < n && ws_at(s, a)
        invariant
            0 <= a <= n,
            n == s@.len(),
            trim_start_spec(s@) == trim_start_spec(s@.skip(a as int)),
        decreases n - a,
    {
        proof {
            assert(s@.skip(a as int).first() == s@[a as int]);
            assert(s@.skip(a as int).drop_first() =~= s@.skip(a as int + 1));
        }
        a = a + 1;
    }
    proof {
        assert(trim_start_spec(s@.skip(a as int)) == s@.skip(a as int));
    }
    let mut b: usize = n;
    while b > a && ws_at(s, b - 1)
        invariant
            a <= b <= n,
            n == s@.len(),
            trim_start_spec(s@) == s@.skip(a as int),
            trim_end_spec(s@.skip(a as int)) == trim_end_spec(s@.subrange(a as int, b as int)),
        decreases b,
    {
        proof {
            assert(s@.subrange(a as int, b as int).last() == s@[b as int - 1]);
            assert(s@.subrange(a as int, b as int).drop_last() =~= s@.subrange(
                a as int,
                b as int - 1,
            ));
        }
        b = b - 1;
    }
    proof {
        assert(s@.skip(a as int) =~= s@.subrange(a as int, n as int));
        assert(trim_end_spec(s@.subrange(a as int, b as int)) == s@.subrange(a as int, b as int));
    }
    let r = s.substring_char(a, b);
    proof {
        assert(r@ =~= trim_spec(s@));
    }
    r
}

/// Whether `c` is an ASCII decimal digit.
pub open spec fn is_digit(c: char) -> bool {
    48 <= c as int && c as int <= 57
}

/// The numeric value of an ASCII decimal digit.
pub open spec fn digit_val(c: char) -> int {
    c as int - 48
}

/// Whether every character of `s` is an ASCII decimal digit.
pub open spec fn all_digits(s: Seq<char>) -> bool {
    forall|i: int| 0 <= i < s.len() ==> is_digit(#[trigger] s[i])
}

/// The value of `s` read as a base-10 numeral, most significant digit first.
pub open spec fn dec_val(s: Seq<char>) -> int
    decreases s.len(),
{
    if s.len() == 0 {
        0
    } else {
        dec_val(s.drop_last()) * 10 + digit_val(s.last())
    }
}

/// Whether `s` is a well-formed base-10 numeral whose value fits in a `u64`:
/// non-empty, digits only, and at most `u64::MAX`.
pub open spec fn parses_u64(s: Seq<char>) -> bool {
    s.len() > 0 && all_digits(s) && dec_val(s) <= u64::MAX
}

/// A digit string never reads as a negative value.
pub proof fn lemma_dec_val_nonneg(s: Seq<char>)
    requires
        all_digits(s),
    ensures
        dec_val(s) >= 0,
    decreases s.len(),
{
    if s.len() > 0 {
        assert(all_digits(s.drop_last()));
        lemma_dec_val_nonneg(s.drop_last());
    }
}

/// Reading more digits never shrinks the value: the numeral value of a
/// prefix is at most the value of the whole digit string.
pub proof fn lemma_dec_val_prefix_le(s: Seq<char>, i: int)
    requires
        all_digits(s),
        0 <= i <= s.len(),
    ensures
        dec_val(s.take(i)) <= dec_val(s),
    decreases s.len() - i,
{
    if i < s.len() {
        assert(s.take(i + 1).drop_last() =~= s.take(i));
        assert(s.take(i + 1).last() == s[i]);
        assert(all_digits(s.take(i)));
        lemma_dec_val_nonneg(s.take(i));
        assert(dec_val(s.take(i + 1)) == dec_val(s.take(i)) * 10 + digit_val(s[i]));
        lemma_dec_val_prefix_le(s, i + 1);
    } else {
        assert(s.take(i) =~= s);
    }
}

/// Parses `s` as a base-10 `u64`: returns the value exactly when `s` is
/// non-empty, all digits, and within range, and nothing otherwise.
pub fn parse_u64(s: &str) -> (r: Option<u64>)
    ensures
        match r {
            Some(v) => parses_u64(s@) && v == dec_val(s@),
            None => !parses_u64(s@),
        },
{
    let n = s.unicode_len();
    if n == 0 {
        return None;
    }
    let mut acc: u64 = 0;
    let mut i: usize = 0;
    while i < n
        invariant
            0 <= i <= n,
            n == s@.len(),
            all_digits(s@.take(i as int)),
            acc == dec_val(s@.take(i as int)),
        decreases n - i,
    {
        let c = s.get_char(i);
        let cv: u32 = c as u32;
        if cv < 48 || cv > 57 {
            assert(!is_digit(s@[i as int]));
            return None;
        }
        let d: u64 = (cv - 48) as u64;
        proof {
            assert(s@.take(i as int + 1).drop_last() =~= s@.take(i as int));
            assert(s@.take(i as int + 1).last() == s@[i as int]);
        }
        if acc > (u64::MAX - d) / 10 {
            proof {
                assert(acc * 10 + d > u64::MAX) by {
                    assert(acc >= (u64::MAX - d) / 10 + 1);
                    assert(10 * ((u64::MAX - d) / 10) + 10 > u64::MAX - d);
                    assert(acc * 10 >= ((u64::MAX - d) / 10 + 1) * 10) by (nonlinear_arith)
                        requires
                            acc >= (u64::MAX - d) / 10 + 1,
                    ;
                }
                assert(dec_val(s@.take(i as int + 1)) > u64::MAX);
                if all_digits(s@) {
                    lemma_dec_val_prefix_le(s@, i as int + 1);
                }
            }
            return None;
        }
        proof {
            assert(acc <= (u64::MAX - d) / 10);
            assert(acc * 10 <= ((u64::MAX - d) / 10) * 10) by (nonlinear_arith)
                requires
                    acc <= (u64::MAX - d) / 10,
            ;
            assert(((u64::MAX - d) / 10) * 10 <= u64::MAX - d);
        }
        acc = acc * 10 + d;
        i = i + 1;
    }
    proof {
        assert(s@.take(n as int) =~= s@);
    }
    Some(acc)
}

/// The character for the decimal digit `d`.
pub open spec fn digit_char(d: int) -> char {
    if d == 0 {
        '0'
    } else if d == 1 {
        '1'
    } else if d == 2 {
        '2'
    } else if d == 3 {
        '3'
    } else if d == 4 {
        '4'
    } else if d == 5 {
        '5'
    } else if d == 6 {
        '6'
    } else if d == 7 {
        '7'
    } else if d == 8 {
        '8'
    } else {
        '9'
    }
}

/// The base-10 numeral for `n`, most significant digit first, with no sign
/// and no leading zeros (a single `'0'` for zero).
pub open spec fn dec_str(n: nat) -> Seq<char>
    decreases n,
{
    if n < 10 {
        seq![digit_char(n as int)]
    } else {
        dec_str(n / 10).push(digit_char((n % 10) as int))
    }
}

/// A rendered numeral is made of digits and reads back as the number it was
/// made from.
pub proof fn lemma_dec_str_val(n: nat)
    ensures
        dec_str(n).len() > 0,
        all_digits(dec_str(n)),
        dec_val(dec_str(n)) == n,
    decreases n,
{
    if n < 10 {
        assert(dec_str(n) =~= seq![digit_char(n as int)]);
        assert(is_digit(digit_char(n as int)));
        assert(seq![digit_char(n as int)].drop_last() =~= Seq::<char>::empty());
        assert(dec_val(Seq::<char>::empty()) == 0);
        assert(seq![digit_char(n as int)].last() == digit_char(n as int));
        assert(dec_val(seq![digit_char(n as int)]) == digit_val(digit_char(n as int)));
    } else {
        lemma_dec_str_val(n / 10);
        let prefix = dec_str(n / 10);
        let d = digit_char((n % 10) as int);
        assert(prefix.push(d).drop_last() =~= prefix);
        assert(prefix.push(d).last() == d);
        assert(is_digit(d));
        assert(forall|i: int|
            0 <= i < prefix.push(d).len() ==> is_digit(#[trigger] prefix.push(d)[i]));
        assert(dec_val(prefix.push(d)) == dec_val(prefix) * 10 + digit_val(d));
    }
}

/// Writing a brightness value means writing its decimal string, with no
/// trailing newline, over the device file; reading that file back strips
/// nothing and parses to the very value that was written.
pub proof fn lemma_write_read_round_trip(n: u64)
    ensures
        strip_spec(dec_str(n as nat)) == dec_str(n as nat),
        parses_u64(strip_spec(dec_str(n as nat))),
        dec_val(strip_spec(dec_str(n as nat))) == n,
{
    lemma_dec_str_val(n as nat);
    let s = dec_str(n as nat);
    assert(is_digit(s[s.len() - 1]));
    assert(s[s.len() - 1] != '\n');
}

fn digit_to_str(d: u64) -> (r: &'static str)
    requires
        d < 10,
    ensures
        r@ == seq![digit_char(d as int)],
{
    let r: &'static str = if d == 0 {
        "0"
    } else if d == 1 {
        "1"
    } else if d == 2 {
        "2"
    } else if d == 3 {
        "3"
    } else if d == 4 {
        "4"
    } else if d == 5 {
        "5"
    } else if d == 6 {
        "6"
    } else if d == 7 {
        "7"
    } else if d == 8 {
        "8"
    } else {
        "9"
    };
    proof {
        reveal_strlit("0");
        reveal_strlit("1");
        reveal_strlit("2");
        reveal_strlit("3");
        reveal_strlit("4");
        reveal_strlit("5");
        reveal_strlit("6");
        reveal_strlit("7");
        reveal_strlit("8");
        reveal_strlit("9");
        assert(r@ =~= seq![digit_char(d as int)]);
    }
    r
}

/// Renders `n` in base 10, matching `dec_str` exactly.
pub fn u64_to_string(n: u64) -> (r: String)
    ensures
        r@ == dec_str(n as nat),
    decreases n,
{
    let d: u64 = n % 10;
    let ds = digit_to_str(d);
    if n < 10 {
        let r = String::from_str(ds);
        proof {
            assert(r@ =~= dec_str(n as nat));
        }
        r
    } else {
        let mut r = u64_to_string(n / 10);
        r.append(ds);
        proof {
            assert(r@ =~= dec_str(n as nat));
        }
        r
    }
}

} // verus!
