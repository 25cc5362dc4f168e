//! Small helpers: a file size in words, the test for a spreadsheet file,
//! and a line for a log.

use vstd::prelude::*;
use crate::paths::{extension, file_extension};
use crate::text::{
    chars_of, decimal_text, eq_ignore_ascii_case, push_decimal, range_eq_ignore_ascii_case,
};

verus! {

/// `n / d` rounded to the nearest whole number; a quotient that lies half
/// way between two whole numbers goes to the even one.
pub open spec fn round_half_even(n: nat, d: nat) -> nat
    recommends
        d > 0,
{
    let q = n / d;
    let r = n % d;
    if 2 * r > d || (2 * r == d && q % 2 == 1) {
        q + 1
    } else {
        q
    }
}

/// The distance between neighbouring numbers of 53 significant bits around
/// `size`: 1 below 2^53, and twice as much for each further bit.
pub open spec fn spacing(size: u64) -> nat {
    if size < 0x20_0000_0000_0000 {
        1
    } else if size < 0x40_0000_0000_0000 {
        2
    } else if size < 0x80_0000_0000_0000 {
        4
    } else if size < 0x100_0000_0000_0000 {
        8
    } else if size < 0x200_0000_0000_0000 {
        16
    } else if size < 0x400_0000_0000_0000 {
        32
    } else if size < 0x800_0000_0000_0000 {
        64
    } else if size < 0x1000_0000_0000_0000 {
        128
    } else if size < 0x2000_0000_0000_0000 {
        256
    } else if size < 0x4000_0000_0000_0000 {
        512
    } else if size < 0x8000_0000_0000_0000 {
        1024
    } else {
        2048
    }
}

/// `size` as a number of 53 significant bits holds it: the nearest such
/// number, and the even one of two that are equally near. Sizes below 2^53
/// are held as they are.
pub open spec fn held_size(size: u64) -> nat {
    round_half_even(size as nat, spacing(size)) * spacing(size)
}

/// The unit in which a size is shown, from 0 for bytes to 4 for the largest:
/// the largest unit that is not greater than the size.
pub open spec fn size_unit(size: u64) -> nat {
    if size < 0x400 {
        0
    } else if size < 0x10_0000 {
        1
    } else if size < 0x4000_0000 {
        2
    } else if size < 0x100_0000_0000 {
        3
    } else {
        4
    }
}

/// The number of bytes in a unit: 1024 to the power of the unit's number.
pub open spec fn unit_bytes(unit: nat) -> nat {
    if unit == 0 {
        1
    } else if unit == 1 {
        0x400
    } else if unit == 2 {
        0x10_0000
    } else if unit == 3 {
        0x4000_0000
    } else {
        0x100_0000_0000
    }
}

/// The name of a unit.
pub open spec fn unit_name(unit: nat) -> Seq<char> {
    if unit == 0 {
        "B"@
    } else if unit == 1 {
        "KB"@
    } else if unit == 2 {
        "MB"@
    } else if unit == 3 {
        "GB"@
    } else {
        "TB"@
    }
}

/// A size in tenths of its unit, rounded to the nearest tenth, half way
/// cases to the even tenth.
pub open spec fn size_in_tenths(size: u64) -> nat {
    round_half_even(held_size(size) * 10, unit_bytes(size_unit(size)))
}

/// A size in words. Below 1024 it is the number of bytes and ` B`. From
/// there on it is the size in its unit with one digit behind the point, a
/// space and the unit's name. The size is taken as a number of double
/// precision holds it, so the text is the one that such a number gives when
/// it is divided by the unit and printed with one digit behind the point.
pub open spec fn file_size_text(size: u64) -> Seq<char> {
    if size < 0x400 {
        decimal_text(size as nat) + " B"@
    } else {
        let tenths = size_in_tenths(size);
        decimal_text(tenths / 10) + seq!['.'] + decimal_text(tenths % 10) + seq![' '] + unit_name(
            size_unit(size),
        )
    }
}

fn spacing_of(size: u64) -> (s: u64)
    ensures
        s == spacing(size),
        1 <= s <= 2048,
{
    if size < 0x20_0000_0000_0000 {
        1
    } else if size < 0x40_0000_0000_0000 {
        2
    } else if size < 0x80_0000_0000_0000 {
        4
    } else if size < 0x100_0000_0000_0000 {
        8
    } else if size < 0x200_0000_0000_0000 {
        16
    } else if size < 0x400_0000_0000_0000 {
        32
    } else if size < 0x800_0000_0000_0000 {
        64
    } else if size < 0x1000_0000_0000_0000 {
        128
    } else if size < 0x2000_0000_0000_0000 {
        256
    } else if size < 0x4000_0000_0000_0000 {
        512
    } else if size < 0x8000_0000_0000_0000 {
        1024
    } else {
        2048
    }
}

fn rounded_quotient(n: u128, d: u128) -> (q: u128)
    requires
        d > 0,
        n < 0x1_0000_0000_0000_0000_0000,
        d < 0x1_0000_0000_0000_0000_0000,
    ensures
        q == round_half_even(n as nat, d as nat),
        q <= n / d + 1,
{
    let q = n / d;
    let r = n % d;
    if 2 * r > d || (2 * r == d && q % 2 == 1) {
        q + 1
    } else {
        q
    }
}

/// Formats a size in bytes for display, in the unit that suits it.
pub fn format_file_size(size: u64) -> (text: String)
    ensures
        text@ == file_size_text(size),
{
    let mut text = String::new();
    if size < 0x400 {
        push_decimal(&mut text, size);
        text.append(" B");
        assert(Seq::<char>::empty() + decimal_text(size as nat) == decimal_text(size as nat));
        return text;
    }
    let step = spacing_of(size);
    let steps = rounded_quotient(size as u128, step as u128);
    proof {
        let s = size as int;
        let p = step as int;
        let k = steps as int;
        assert(k <= s / p + 1);
        assert((s / p) * p <= s) by (nonlinear_arith)
            requires
                s >= 0,
                p > 0,
        ;
        assert(0 <= k * p <= s + p) by (nonlinear_arith)
            requires
                0 <= k <= s / p + 1,
                (s / p) * p <= s,
                p > 0,
        ;
    }
    let held: u128 = steps * (step as u128);
    let (unit, name): (u128, &str) = if size < 0x10_0000 {
        (0x400, "KB")
    } else if size < 0x4000_0000 {
        (0x10_0000, "MB")
    } else if size < 0x100_0000_0000 {
        (0x4000_0000, "GB")
    } else {
        (0x100_0000_0000, "TB")
    };
    let tenths = rounded_quotient(held * 10, unit);
    proof {
        let x = (held * 10) as int;
        vstd::arithmetic::div_mod::lemma_div_is_ordered_by_denominator(x, 0x400, unit as int);
        assert(x / (unit as int) <= x / 0x400);
    }
    let whole: u64 = (tenths / 10) as u64;
    let fraction: u64 = (tenths % 10) as u64;
    push_decimal(&mut text, whole);
    text.push('.');
    push_decimal(&mut text, fraction);
    text.push(' ');
    text.append(name);
    assert(Seq::<char>::empty() + decimal_text(whole as nat) == decimal_text(whole as nat));
    text
}

/// Whether `path` names a spreadsheet file: its extension is `xlsx` or
/// `xls`, in capitals or small letters or any mixture of them.
pub open spec fn has_excel_extension(path: Seq<char>) -> bool {
    match extension(path) {
        Some(e) => eq_ignore_ascii_case(e, "xlsx"@) || eq_ignore_ascii_case(e, "xls"@),
        None => false,
    }
}

/// Tells whether `path` names a spreadsheet file.
pub fn is_excel_file(path: &str) -> (b: bool)
    ensures
        b == has_excel_extension(path@),
{
    match file_extension(path) {
        Some(e) => {
            let chars = chars_of(e.as_str());
            assert(chars@.skip(0) == e@);
            range_eq_ignore_ascii_case(&chars, 0, "xlsx") || range_eq_ignore_ascii_case(
                &chars,
                0,
                "xls",
            )
        },
        None => false,
    }
}

/// The upper-case form that `str::to_uppercase` gives to a text.
pub uninterp spec fn uppercase_text(s: Seq<char>) -> Seq<char>;

/// Calls `str::to_uppercase`, which returns the upper-case equivalent of
/// the text as a new string. The contract only names the result.
#[verifier::external_body]
fn to_uppercase(s: &str) -> (upper: String)
    ensures
        upper@ == uppercase_text(s@),
{
    s.to_uppercase()
}

/// Calls `chrono::Utc::now` and formats the moment as year, month, day,
/// hour, minute and second. Nothing is claimed of the text: it depends on
/// the clock. `Utc::now` gives up where the clock stands before 1970.
#[verifier::external_body]
fn utc_timestamp() -> (stamp: String) {
    chrono::Utc::now().format("%Y-%m-%d %H:%M:%S").to_string()
}

/// A line of a log: the time stamp and the level, each in square brackets,
/// and the message.
pub open spec fn log_entry_text(stamp: Seq<char>, level: Seq<char>, message: Seq<char>) -> Seq<
    char,
> {
    "["@ + stamp + "] ["@ + level + "] "@ + message
}

/// Puts a line of a log together from its parts.
pub fn format_log_entry(stamp: &str, level: &str, message: &str) -> (entry: String)
    ensures
        entry@ == log_entry_text(stamp@, level@, message@),
{
    let mut entry = String::from_str("[");
    entry.append(stamp);
    entry.append("] [");
    entry.append(level);
    entry.append("] ");
    entry.append(message);
    entry
}

/// A line of a log for `message`, stamped with the present time and with
/// the level in capitals.
pub fn create_log_entry(level: &str, message: &str) -> (entry: String)
    ensures
        exists|stamp: Seq<char>|
            entry@ == #[trigger] log_entry_text(stamp, uppercase_text(level@), message@),
{
    let stamp = utc_timestamp();
    let upper = to_uppercase(level);
    let entry = format_log_entry(stamp.as_str(), upper.as_str(), message);
    assert(entry@ == log_entry_text(stamp@, uppercase_text(level@), message@));
    entry
}

} // verus!
