//! Shared rendering helpers: comma-separated joining and decimal rendering
//! of integers, with specifications that pin the produced text down exactly.

use vstd::prelude::*;

verus! {

/// The pieces joined with `", "` between consecutive pieces: the text that a
/// comma-separated list renders to.
pub open spec fn comma_join(parts: Seq<Seq<char>>) -> Seq<char>
    decreases parts.len(),
{
    if parts.len() == 0 {
        Seq::empty()
    } else if parts.len() == 1 {
        parts.last()
    } else {
        comma_join(parts.drop_last()) + ", "@ + parts.last()
    }
}

/// The images of a sequence of strings.
pub open spec fn str_views(parts: Seq<String>) -> Seq<Seq<char>> {
    parts.map_values(|s: String| s@)
}

/// Converts a vector of strings into one string, with each element
/// separated from the next by a comma, ready to be spliced into a
/// statement.
pub fn cols_to_insert(columns: &Vec<String>) -> (result: String)
    ensures
        result@ == comma_join(str_views(columns@)),
{
    let ghost all_parts = str_views(columns@);
    let mut result = String::new();
    for idx in 0..columns.len()
        invariant
            all_parts == str_views(columns@),
            all_parts.len() == columns@.len(),
            result@ == comma_join(all_parts.take(idx as int)),
    {
        if idx != 0 {
            result.append(", ");
        }
        result.append(columns[idx].as_str());
        proof {
            assert(all_parts.take(idx + 1).drop_last() =~= all_parts.take(idx as int));
            assert(all_parts.take(idx + 1).last() == all_parts[idx as int]);
            if idx == 0 {
                assert(result@ =~= comma_join(all_parts.take(idx + 1)));
            }
        }
    }
    proof {
        assert(all_parts.take(columns@.len() as int) =~= all_parts);
    }
    result
}

/// The single decimal digit of `d`, for `0 <= d <= 9`.
pub open spec fn dec_digit(d: int) -> Seq<char> {
    if d == 0 {
        "0"@
    } else if d == 1 {
        "1"@
    } else if d == 2 {
        "2"@
    } else if d == 3 {
        "3"@
    } else if d == 4 {
        "4"@
    } else if d == 5 {
        "5"@
    } else if d == 6 {
        "6"@
    } else if d == 7 {
        "7"@
    } else if d == 8 {
        "8"@
    } else {
        "9"@
    }
}

/// The decimal text of a non-negative integer, without sign or leading
/// zeros.
pub open spec fn dec_nat(n: int) -> Seq<char>
    decreases n,
{
    if n < 10 {
        dec_digit(n)
    } else {
        dec_nat(n / 10) + dec_digit(n % 10)
    }
}

/// The decimal text of an integer: a `-` sign for negative numbers,
/// followed by the decimal digits of the magnitude.
pub open spec fn dec_int(n: int) -> Seq<char> {
    if n < 0 {
        "-"@ + dec_nat(-n)
    } else {
        dec_nat(n)
    }
}

/// The one-character string for a single decimal digit.
fn dec_digit_str(d: u64) -> (result: &'static str)
    requires
        d < 10,
    ensures
        result@ == dec_nat(d as int),
{
    match d {
        0 => "0",
        1 => "1",
        2 => "2",
        3 => "3",
        4 => "4",
        5 => "5",
        6 => "6",
        7 => "7",
        8 => "8",
        _ => "9",
    }
}

/// Renders an unsigned integer as its decimal text.
pub fn u64_to_dec(n: u64) -> (result: String)
    ensures
        result@ == dec_nat(n as int),
    decreases n,
{
    if n < 10 {
        String::from_str(dec_digit_str(n))
    } else {
        let mut result = u64_to_dec(n / 10);
        result.append(dec_digit_str(n % 10));
        result
    }
}

/// Renders a signed integer as its decimal text.
pub fn i64_to_dec(n: i64) -> (result: String)
    ensures
        result@ == dec_int(n as int),
{
    if n >= 0 {
        u64_to_dec(n as u64)
    } else {
        let magnitude: u64 = if n == i64::MIN {
            9223372036854775808u64
        } else {
            (-n) as u64
        };
        proof {
            assert(magnitude as int == -(n as int));
        }
        let mut result = String::from_str("-");
        let digits = u64_to_dec(magnitude);
        result.append(digits.as_str());
        result
    }
}

} // verus!
