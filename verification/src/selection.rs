//! Parsing and printing of the persisted selection components.
//!
//! The last viewed grade and class are persisted in a string-valued
//! key-value store. These functions turn such strings back into grade and
//! class numbers (falling back to `1` on anything that is not a positive
//! decimal number, so a corrupt store can never abort startup) and render
//! a number as the canonical decimal string that is written back.

use vstd::prelude::*;
use vstd::string::StrSliceExecFns;
use vstd::string::StringExecFns;

verus! {

/// A decimal digit character, `'0'` through `'9'`.
pub open spec fn is_digit(c: char) -> bool {
    48 <= c as int <= 57
}

/// The numeric value of a digit character.
pub open spec fn digit_val(c: char) -> int {
    c as int - 48
}

/// A non-empty sequence of decimal digit characters.
pub open spec fn valid_dec(s: Seq<char>) -> bool {
    s.len() > 0 && (forall|i: int| 0 <= i < s.len() ==> is_digit(#[trigger] s[i]))
}

/// The number denoted by a sequence of digit characters.
pub open spec fn dec_val(s: Seq<char>) -> int
    decreases s.len(),
{
    if s.len() == 0 {
        0
    } else {
        dec_val(s.drop_last()) * 10 + digit_val(s.last())
    }
}

/// The digit character for a value between 0 and 9.
pub open spec fn digit_char(d: int) -> char {
    if d == 0 {
        '0'
    } else if d == 1 {
        '1'
    } else if d == 2 {
        '2'
    } else if d == 3 {
        '3'
    } else if d == 4 {
        '4'
    } else if d == 5 {
        '5'
    } else if d == 6 {
        '6'
    } else if d == 7 {
        '7'
    } else if d == 8 {
        '8'
    } else {
        '9'
    }
}

/// `s` is the canonical decimal string of `v`: digits only, denoting
/// `v`, with no leading zero.
pub open spec fn is_dec_of(s: Seq<char>, v: int) -> bool {
    &&& valid_dec(s)
    &&& dec_val(s) == v
    &&& s.len() > 1 ==> s[0] != '0'
}

/// The number denoted by a single digit character is its digit value.
proof fn lemma_dec_val_one(c: char)
    ensures
        dec_val(seq![c]) == digit_val(c),
{
    assert(seq![c].drop_last() =~= Seq::<char>::empty());
    assert(dec_val(Seq::<char>::empty()) == 0);
    assert(seq![c].last() == c);
}

/// Appending a digit multiplies the denoted number by ten and adds the
/// digit's value.
proof fn lemma_dec_val_snoc(s: Seq<char>, c: char)
    ensures
        dec_val(s.push(c)) == dec_val(s) * 10 + digit_val(c),
{
    assert(s.push(c).drop_last() =~= s);
    assert(s.push(c).last() == c);
}

/// Parses a string as a decimal number that fits in a `u8`.
///
/// Returns `Some` exactly when the string is non-empty, consists of digit
/// characters only, and denotes a value of at most 255.
pub fn parse_u8_dec(s: &String) -> (r: Option<u8>)
    ensures
        r is Some <==> valid_dec(s@) && dec_val(s@) <= 255,
        r matches Some(v) ==> v as int == dec_val(s@),
{
    let str_ref = s.as_str();
    let n = str_ref.unicode_len();
    if n == 0 {
        return None;
    }
    let mut val: u32 = 0;
    let mut i: usize = 0;
    while i < n
        invariant
            0 <= i <= n,
            n == s@.len(),
            str_ref@ == s@,
            forall|j: int| 0 <= j < i ==> is_digit(#[trigger] s@[j]),
            dec_val(s@.take(i as int)) <= 255 ==> val == dec_val(s@.take(i as int)),
            dec_val(s@.take(i as int)) > 255 ==> val == 256,
            val <= 256,
        decreases n - i,
    {
        let c = str_ref.get_char(i);
        let cv = c as u32;
        if cv < 48 || cv > 57 {
            assert(!is_digit(s@[i as int]));
            return None;
        }
        proof {
            assert(s@.take(i + 1).drop_last() =~= s@.take(i as int));
            assert(s@.take(i + 1).last() == s@[i as int]);
        }
        let new_val: u32 = val * 10 + (cv - 48);
        if new_val > 255 {
            val = 256;
        } else {
            val = new_val;
        }
        i = i + 1;
    }
    proof {
        assert(s@.take(n as int) =~= s@);
    }
    if val <= 255 {
        Some(val as u8)
    } else {
        None
    }
}

/// The grade or class restored from one persisted value: the denoted
/// number when the value is present and is a positive decimal number of
/// at most 255, and the default `1` otherwise.
pub open spec fn rehydrate_spec(v: Option<String>) -> int {
    match v {
        Some(s) => if valid_dec(s@) && 1 <= dec_val(s@) <= 255 {
            dec_val(s@)
        } else {
            1
        },
        None => 1,
    }
}

/// Restores one persisted selection component (grade or class).
///
/// A missing value, a value that is not a decimal number, zero, or a
/// number too large for a `u8` all fall back to `1`, so a corrupt store
/// never prevents the controller from starting.
pub fn rehydrate_component(v: &Option<String>) -> (r: u8)
    ensures
        r as int == rehydrate_spec(*v),
        r >= 1,
{
    match v {
        None => 1,
        Some(s) => {
            match parse_u8_dec(s) {
                Some(n) => if n >= 1 {
                    n
                } else {
                    1
                },
                None => 1,
            }
        },
    }
}

/// The one-character string for a decimal digit.
fn digit_to_str(d: u8) -> (r: &'static str)
    requires
        d < 10,
    ensures
        r@.len() == 1,
        r@[0] == digit_char(d as int),
{
    proof {
        reveal_strlit("0");
        reveal_strlit("1");
        reveal_strlit("2");
        reveal_strlit("3");
        reveal_strlit("4");
        reveal_strlit("5");
        reveal_strlit("6");
        reveal_strlit("7");
        reveal_strlit("8");
        reveal_strlit("9");
    }
    match d {
        0 => "0",
        1 => "1",
        2 => "2",
        3 => "3",
        4 => "4",
        5 => "5",
        6 => "6",
        7 => "7",
        8 => "8",
        _ => "9",
    }
}

/// Renders a value as the canonical decimal string that is persisted:
/// digits only, no leading zero.
pub fn u8_to_dec_string(v: u8) -> (r: String)
    ensures
        is_dec_of(r@, v as int),
{
    if v >= 100 {
        let h: u8 = v / 100;
        let rem: u8 = v % 100;
        let t: u8 = rem / 10;
        let o: u8 = rem % 10;
        let mut s = digit_to_str(h).to_owned();
        s.append(digit_to_str(t));
        s.append(digit_to_str(o));
        proof {
            let ghost ch = digit_char(h as int);
            let ghost ct = digit_char(t as int);
            let ghost co = digit_char(o as int);
            assert(s@ =~= seq![ch, ct].push(co));
            assert(seq![ch, ct] =~= seq![ch].push(ct));
            lemma_dec_val_one(ch);
            lemma_dec_val_snoc(seq![ch], ct);
            lemma_dec_val_snoc(seq![ch, ct], co);
            assert(dec_val(s@) == (digit_val(ch) * 10 + digit_val(ct)) * 10 + digit_val(co));
            assert(v == h * 100 + t * 10 + o);
            assert(ch != '0');
        }
        s
    } else if v >= 10 {
        let t: u8 = v / 10;
        let o: u8 = v % 10;
        let mut s = digit_to_str(t).to_owned();
        s.append(digit_to_str(o));
        proof {
            let ghost ct = digit_char(t as int);
            let ghost co = digit_char(o as int);
            assert(s@ =~= seq![ct].push(co));
            lemma_dec_val_one(ct);
            lemma_dec_val_snoc(seq![ct], co);
            assert(dec_val(s@) == digit_val(ct) * 10 + digit_val(co));
            assert(v == t * 10 + o);
            assert(ct != '0');
        }
        s
    } else {
        let s = digit_to_str(v).to_owned();
        proof {
            assert(s@ =~= seq![digit_char(v as int)]);
            lemma_dec_val_one(digit_char(v as int));
        }
        s
    }
}

/// Persisting a selection component and rehydrating it restores the same
/// value: any string that denotes a positive value `v` of at most 255
/// (as the canonical string written by `u8_to_dec_string` does)
/// rehydrates to exactly `v`.
pub proof fn lemma_selection_round_trip(st: String, v: u8)
    requires
        v >= 1,
        valid_dec(st@),
        dec_val(st@) == v as int,
    ensures
        rehydrate_spec(Some(st)) == v as int,
{
}

} // verus!
