//! Verified text helpers: decimal and hexadecimal rendering of integers
//! (with the padding the kernel-panic report uses), digit parsing, and
//! splitting on a separator character — the pieces the settings and user
//! records are written and read with.

use vstd::prelude::*;
use vstd::string::StrSliceExecFns;
use vstd::string::StringExecFns;

verus! {

/// The character for one digit value below 16.
pub open spec fn spec_digit_char(d: int) -> char {
    if d == 0 {
        '0'
    } else if d == 1 {
        '1'
    } else if d == 2 {
        '2'
    } else if d == 3 {
        '3'
    } else if d == 4 {
        '4'
    } else if d == 5 {
        '5'
    } else if d == 6 {
        '6'
    } else if d == 7 {
        '7'
    } else if d == 8 {
        '8'
    } else if d == 9 {
        '9'
    } else if d == 10 {
        'a'
    } else if d == 11 {
        'b'
    } else if d == 12 {
        'c'
    } else if d == 13 {
        'd'
    } else if d == 14 {
        'e'
    } else {
        'f'
    }
}

/// The decimal digits of `n`, most significant first.
pub open spec fn spec_decimal(n: nat) -> Seq<char>
    decreases n,
{
    if n < 10 {
        seq![spec_digit_char(n as int)]
    } else {
        spec_decimal(n / 10).push(spec_digit_char((n % 10) as int))
    }
}

/// The hexadecimal digits of `n`, most significant first, without a prefix.
pub open spec fn spec_hex(n: nat) -> Seq<char>
    decreases n,
{
    if n < 16 {
        seq![spec_digit_char(n as int)]
    } else {
        spec_hex(n / 16).push(spec_digit_char((n % 16) as int))
    }
}

/// `digits`, left-padded with `fill` up to `width` characters.
pub open spec fn spec_padded(digits: Seq<char>, width: int, fill: char) -> Seq<char> {
    if digits.len() >= width {
        digits
    } else {
        Seq::new((width - digits.len()) as nat, |i: int| fill) + digits
    }
}

/// The one-character string for a digit value below 16.
fn digit_str(d: u8) -> (s: &'static str)
    requires
        d < 16,
    ensures
        s@ == seq![spec_digit_char(d as int)],
{
    let s: &'static str = match d {
        0 => "0",
        1 => "1",
        2 => "2",
        3 => "3",
        4 => "4",
        5 => "5",
        6 => "6",
        7 => "7",
        8 => "8",
        9 => "9",
        10 => "a",
        11 => "b",
        12 => "c",
        13 => "d",
        14 => "e",
        _ => "f",
    };
    proof {
        reveal_strlit("0");
        reveal_strlit("1");
        reveal_strlit("2");
        reveal_strlit("3");
        reveal_strlit("4");
        reveal_strlit("5");
        reveal_strlit("6");
        reveal_strlit("7");
        reveal_strlit("8");
        reveal_strlit("9");
        reveal_strlit("a");
        reveal_strlit("b");
        reveal_strlit("c");
        reveal_strlit("d");
        reveal_strlit("e");
        reveal_strlit("f");
        assert(s@ =~= seq![spec_digit_char(d as int)]);
    }
    s
}

/// Renders `n` in decimal.
pub fn decimal_u64(n: u64) -> (s: String)
    ensures
        s@ == spec_decimal(n as nat),
    decreases n,
{
    if n < 10 {
        digit_str(n as u8).to_owned()
    } else {
        let mut s = decimal_u64(n / 10);
        s.append(digit_str((n % 10) as u8));
        assert(s@ =~= spec_decimal(n as nat));
        s
    }
}

/// Renders `n` in hexadecimal, lower case, without a prefix.
pub fn hex_u64(n: u64) -> (s: String)
    ensures
        s@ == spec_hex(n as nat),
    decreases n,
{
    if n < 16 {
        digit_str(n as u8).to_owned()
    } else {
        let mut s = hex_u64(n / 16);
        s.append(digit_str((n % 16) as u8));
        assert(s@ =~= spec_hex(n as nat));
        s
    }
}

/// Renders `n` in decimal, left-padded to `width` with zeros or spaces.
pub fn decimal_u64_padded(n: u64, width: usize, zero_fill: bool) -> (s: String)
    ensures
        s@ == spec_padded(
            spec_decimal(n as nat),
            width as int,
            if zero_fill {
                '0'
            } else {
                ' '
            },
        ),
{
    let ghost fill: char = if zero_fill { '0' } else { ' ' };
    let digits = decimal_u64(n);
    let len: usize = digits.as_str().unicode_len();
    if len >= width {
        digits
    } else {
        let mut s = String::new();
        let mut have: usize = 0;
        proof {
            reveal_strlit("0");
            reveal_strlit(" ");
        }
        while have < width - len
            invariant
                len < width,
                have <= width - len,
                s@ =~= Seq::new(have as nat, |i: int| fill),
                fill == (if zero_fill {
                    '0'
                } else {
                    ' '
                }),
            decreases width - len - have,
        {
            if zero_fill {
                s.append("0");
            } else {
                s.append(" ");
            }
            proof {
                reveal_strlit("0");
                reveal_strlit(" ");
                assert(s@ =~= Seq::new((have + 1) as nat, |i: int| fill));
            }
            have = have + 1;
        }
        s.append(digits.as_str());
        assert(s@ =~= spec_padded(spec_decimal(n as nat), width as int, fill));
        s
    }
}

/// Whether `c` is a decimal digit.
pub open spec fn spec_is_digit(c: char) -> bool {
    48 <= c as u32 <= 57
}

/// The value of one decimal digit character.
pub open spec fn spec_digit_val(c: char) -> int {
    c as u32 - 48
}

/// Whether the whole sequence consists of decimal digits.
pub open spec fn spec_all_digits(s: Seq<char>) -> bool {
    forall|i: int| 0 <= i < s.len() ==> spec_is_digit(#[trigger] s[i])
}

/// The value of a sequence of decimal digits, most significant first.
pub open spec fn spec_digits_val(s: Seq<char>) -> int
    decreases s.len(),
{
    if s.len() == 0 {
        0
    } else {
        spec_digits_val(s.drop_last()) * 10 + spec_digit_val(s.last())
    }
}

/// What parsing a string as a `u32` gives: a value exactly when the string
/// is nonempty, all digits, and the value fits.
pub open spec fn spec_parse_u32(s: Seq<char>) -> Option<u32> {
    if s.len() > 0 && spec_all_digits(s) && 0 <= spec_digits_val(s) <= u32::MAX {
        Some(spec_digits_val(s) as u32)
    } else {
        None
    }
}

/// A digit string's value never shrinks as digits are appended.
proof fn lemma_digits_val_mono(s: Seq<char>, i: int, j: int)
    requires
        spec_all_digits(s),
        0 <= i <= j <= s.len(),
    ensures
        0 <= spec_digits_val(s.subrange(0, i)) <= spec_digits_val(s.subrange(0, j)),
    decreases j - i,
{
    if i == j {
        lemma_digits_val_nonneg(s.subrange(0, i));
    } else {
        lemma_digits_val_mono(s, i, j - 1);
        assert(s.subrange(0, j).drop_last() =~= s.subrange(0, j - 1));
        assert(spec_is_digit(s[j - 1]));
        let prev = spec_digits_val(s.subrange(0, j - 1));
        assert(spec_digits_val(s.subrange(0, j)) == prev * 10 + spec_digit_val(s[j - 1]));
        assert(prev <= prev * 10) by (nonlinear_arith)
            requires
                prev >= 0,
        ;
    }
}

/// A digit string's value is never negative.
proof fn lemma_digits_val_nonneg(s: Seq<char>)
    requires
        spec_all_digits(s),
    ensures
        spec_digits_val(s) >= 0,
    decreases s.len(),
{
    if s.len() > 0 {
        assert(spec_all_digits(s.drop_last()));
        lemma_digits_val_nonneg(s.drop_last());
        let prev = spec_digits_val(s.drop_last());
        assert(prev * 10 >= 0) by (nonlinear_arith)
            requires
                prev >= 0,
        ;
    }
}

/// Parses a nonempty all-digit string as a `u32`; anything else is `None`.
pub fn parse_u32(s: &str) -> (r: Option<u32>)
    ensures
        r == spec_parse_u32(s@),
{
    let len: usize = s.unicode_len();
    if len == 0 {
        return None;
    }
    let mut value: u64 = 0;
    let mut i: usize = 0;
    while i < len
        invariant
            len == s@.len(),
            0 <= i <= len,
            forall|j: int| 0 <= j < i ==> spec_is_digit(#[trigger] s@[j]),
            value == spec_digits_val(s@.subrange(0, i as int)),
            value <= u32::MAX,
        decreases len - i,
    {
        let c = s.get_char(i);
        let code: u32 = c as u32;
        if code < 48 || code > 57 {
            return None;
        }
        let d: u64 = (code - 48) as u64;
        let next: u64 = value * 10 + d;
        proof {
            assert(s@.subrange(0, i + 1).drop_last() =~= s@.subrange(0, i as int));
        }
        if next > u32::MAX as u64 {
            proof {
                if spec_all_digits(s@) {
                    lemma_digits_val_mono(s@, i + 1, s@.len() as int);
                    assert(s@.subrange(0, s@.len() as int) =~= s@);
                }
            }
            return None;
        }
        value = next;
        i = i + 1;
    }
    proof {
        assert(s@.subrange(0, s@.len() as int) =~= s@);
    }
    Some(value as u32)
}

/// The first position of `c` in `s` at or after `from`, or -1 if there is
/// none.
pub open spec fn spec_index_of(s: Seq<char>, c: char, from: int) -> int
    decreases s.len() - from,
{
    if from < 0 || from >= s.len() {
        -1
    } else if s[from] == c {
        from
    } else {
        spec_index_of(s, c, from + 1)
    }
}

/// A found position is a real occurrence, and the first one.
pub proof fn lemma_index_of_props(s: Seq<char>, c: char, from: int)
    requires
        0 <= from <= s.len(),
    ensures
        ({
            let r = spec_index_of(s, c, from);
            &&& (r == -1 ==> forall|j: int| from <= j < s.len() ==> s[j] != c)
            &&& (r != -1 ==> from <= r < s.len() && s[r] == c && (forall|j: int|
                from <= j < r ==> s[j] != c))
        }),
    decreases s.len() - from,
{
    if from < s.len() && s[from] != c {
        lemma_index_of_props(s, c, from + 1);
    }
}

/// Finds the first occurrence of `sep` in `s` at or after `from`.
pub fn find_char(s: &str, sep: char, from: usize) -> (r: Option<usize>)
    requires
        from <= s@.len(),
    ensures
        r == (if spec_index_of(s@, sep, from as int) >= 0 {
            Some(spec_index_of(s@, sep, from as int) as usize)
        } else {
            None::<usize>
        }),
{
    let len: usize = s.unicode_len();
    let mut i: usize = from;
    while i < len
        invariant
            len == s@.len(),
            from <= i <= len,
            spec_index_of(s@, sep, from as int) == spec_index_of(s@, sep, i as int),
        decreases len - i,
    {
        if s.get_char(i) == sep {
            return Some(i);
        }
        i = i + 1;
    }
    None
}

/// The pieces of `s` between occurrences of `sep`: always at least one
/// piece, one more piece per separator, and no piece contains `sep`.
pub open spec fn spec_split(s: Seq<char>, sep: char) -> Seq<Seq<char>>
    decreases s.len(),
{
    let i = spec_index_of(s, sep, 0);
    if i < 0 || i >= s.len() {
        seq![s]
    } else {
        seq![s.subrange(0, i)] + spec_split(s.subrange(i + 1, s.len() as int), sep)
    }
}

/// Splits `s` at every occurrence of `sep`.
pub fn split_str(s: &str, sep: char) -> (parts: Vec<String>)
    ensures
        parts@.map_values(|p: String| p@) == spec_split(s@, sep),
    decreases s@.len(),
{
    proof {
        lemma_index_of_props(s@, sep, 0);
    }
    match find_char(s, sep, 0) {
        None => {
            let mut parts: Vec<String> = Vec::new();
            parts.push(s.to_owned());
            assert(parts@.map_values(|p: String| p@) =~= spec_split(s@, sep));
            parts
        },
        Some(i) => {
            let len: usize = s.unicode_len();
            let head = s.substring_char(0, i).to_owned();
            let tail = s.substring_char(i + 1, len);
            let mut parts = split_str(tail, sep);
            parts.insert(0, head);
            assert(parts@.map_values(|p: String| p@) =~= spec_split(s@, sep));
            parts
        },
    }
}

} // verus!
