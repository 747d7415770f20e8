//! Rendering a byte count as a human-readable string with binary
//! (base-1024) unit prefixes, in full (`KiB`, `MiB`, ...) or abbreviated
//! (`K`, `M`, ...) form.

use vstd::arithmetic::div_mod::lemma_fundamental_div_mod_converse;
use vstd::prelude::*;
use vstd::string::StringExecFns;

verus! {

pub const KIBIBYTE: u64 = 1024;

pub const MEBIBYTE: u64 = 1048576;

pub const GIBIBYTE: u64 = 1073741824;

pub const TEBIBYTE: u64 = 1099511627776;

pub const PEBIBYTE: u64 = 1125899906842624;

pub const EXBIBYTE: u64 = 1152921504606846976;

/// The character for a single decimal digit.
pub open spec fn digit_char(d: nat) -> char {
    if d == 0 {
        '0'
    } else if d == 1 {
        '1'
    } else if d == 2 {
        '2'
    } else if d == 3 {
        '3'
    } else if d == 4 {
        '4'
    } else if d == 5 {
        '5'
    } else if d == 6 {
        '6'
    } else if d == 7 {
        '7'
    } else if d == 8 {
        '8'
    } else {
        '9'
    }
}

/// The decimal rendering of a number: its digits in order, without
/// leading zeros (a lone zero for the number zero).
pub open spec fn spec_decimal(n: nat) -> Seq<char>
    decreases n,
{
    if n < 10 {
        seq![digit_char(n)]
    } else {
        spec_decimal(n / 10).push(digit_char(n % 10))
    }
}

/// Which of the seven units a size falls in: 0 for plain bytes up to
/// 6 for exbibytes. Sizes at or above one exbibyte all fall in the
/// last unit; there is no higher one.
pub open spec fn spec_unit_index(size: u64) -> int {
    if size < KIBIBYTE {
        0
    } else if size < MEBIBYTE {
        1
    } else if size < GIBIBYTE {
        2
    } else if size < TEBIBYTE {
        3
    } else if size < PEBIBYTE {
        4
    } else if size < EXBIBYTE {
        5
    } else {
        6
    }
}

/// The divisor of a unit: the lower bound of its range.
pub open spec fn spec_divisor(unit: int) -> u64 {
    if unit <= 0 {
        1
    } else if unit == 1 {
        KIBIBYTE
    } else if unit == 2 {
        MEBIBYTE
    } else if unit == 3 {
        GIBIBYTE
    } else if unit == 4 {
        TEBIBYTE
    } else if unit == 5 {
        PEBIBYTE
    } else {
        EXBIBYTE
    }
}

/// The label of a unit, abbreviated or in full.
pub open spec fn spec_label(unit: int, abbr: bool) -> Seq<char> {
    if abbr {
        if unit <= 0 {
            seq!['B']
        } else if unit == 1 {
            seq!['K']
        } else if unit == 2 {
            seq!['M']
        } else if unit == 3 {
            seq!['G']
        } else if unit == 4 {
            seq!['T']
        } else if unit == 5 {
            seq!['P']
        } else {
            seq!['E']
        }
    } else {
        if unit <= 0 {
            seq!['B', 'y', 't', 'e', 's']
        } else if unit == 1 {
            seq!['K', 'i', 'B']
        } else if unit == 2 {
            seq!['M', 'i', 'B']
        } else if unit == 3 {
            seq!['G', 'i', 'B']
        } else if unit == 4 {
            seq!['T', 'i', 'B']
        } else if unit == 5 {
            seq!['P', 'i', 'B']
        } else {
            seq!['E', 'i', 'B']
        }
    }
}

/// The size divided by its own unit's divisor, truncating toward zero.
pub open spec fn spec_quotient(size: u64) -> nat {
    (size as nat) / (spec_divisor(spec_unit_index(size)) as nat)
}

/// The human-readable form of a size: the truncated quotient, one space,
/// and the unit label.
pub open spec fn spec_human_bytes(size: u64, abbr: bool) -> Seq<char> {
    spec_decimal(spec_quotient(size)) + seq![' '] + spec_label(spec_unit_index(size), abbr)
}

/// The one-character string for a decimal digit.
fn digit_str(d: u64) -> (r: &'static str)
    requires
        d < 10,
    ensures
        r@ == seq![digit_char(d as nat)],
{
    proof {
        reveal_strlit("0");
        reveal_strlit("1");
        reveal_strlit("2");
        reveal_strlit("3");
        reveal_strlit("4");
        reveal_strlit("5");
        reveal_strlit("6");
        reveal_strlit("7");
        reveal_strlit("8");
        reveal_strlit("9");
    }
    let r: &'static str = if d == 0 {
        "0"
    } else if d == 1 {
        "1"
    } else if d == 2 {
        "2"
    } else if d == 3 {
        "3"
    } else if d == 4 {
        "4"
    } else if d == 5 {
        "5"
    } else if d == 6 {
        "6"
    } else if d == 7 {
        "7"
    } else if d == 8 {
        "8"
    } else {
        "9"
    };
    proof {
        assert(r@ =~= seq![digit_char(d as nat)]);
    }
    r
}

/// The decimal rendering of a number as a string.
fn decimal_string(n: u64) -> (r: String)
    ensures
        r@ == spec_decimal(n as nat),
    decreases n,
{
    if n < 10 {
        digit_str(n).to_owned()
    } else {
        let mut s = decimal_string(n / 10);
        s.append(digit_str(n % 10));
        proof {
            assert(s@ =~= spec_decimal(n as nat));
        }
        s
    }
}

/// Format a byte count with binary unit prefixes: the first unit whose
/// range holds the size gives the divisor and the label; at or above one
/// exbibyte the exbibyte unit is used unconditionally. The output is the
/// truncated quotient, a single space, and the label.
pub fn convert_to_human_bytes(size_in_bytes: u64, abbr: bool) -> (r: String)
    ensures
        r@ == spec_human_bytes(size_in_bytes, abbr),
{
    let (divisor, label): (u64, &'static str) = if size_in_bytes < KIBIBYTE {
        (1u64, if abbr { "B" } else { "Bytes" })
    } else if size_in_bytes < MEBIBYTE {
        (KIBIBYTE, if abbr { "K" } else { "KiB" })
    } else if size_in_bytes < GIBIBYTE {
        (MEBIBYTE, if abbr { "M" } else { "MiB" })
    } else if size_in_bytes < TEBIBYTE {
        (GIBIBYTE, if abbr { "G" } else { "GiB" })
    } else if size_in_bytes < PEBIBYTE {
        (TEBIBYTE, if abbr { "T" } else { "TiB" })
    } else if size_in_bytes < EXBIBYTE {
        (PEBIBYTE, if abbr { "P" } else { "PiB" })
    } else {
        (EXBIBYTE, if abbr { "E" } else { "EiB" })
    };
    proof {
        reveal_strlit("B");
        reveal_strlit("Bytes");
        reveal_strlit("K");
        reveal_strlit("KiB");
        reveal_strlit("M");
        reveal_strlit("MiB");
        reveal_strlit("G");
        reveal_strlit("GiB");
        reveal_strlit("T");
        reveal_strlit("TiB");
        reveal_strlit("P");
        reveal_strlit("PiB");
        reveal_strlit("E");
        reveal_strlit("EiB");
        assert(label@ =~= spec_label(spec_unit_index(size_in_bytes), abbr));
        assert(divisor == spec_divisor(spec_unit_index(size_in_bytes)));
    }
    let mut s = decimal_string(size_in_bytes / divisor);
    s.append(" ");
    s.append(label);
    proof {
        reveal_strlit(" ");
        assert(s@ =~= spec_human_bytes(size_in_bytes, abbr));
    }
    s
}

/// Below one kibibyte a size is rendered verbatim: the count itself,
/// a space, and the byte label.
pub proof fn lemma_bytes_verbatim(size: u64)
    requires
        size < KIBIBYTE,
    ensures
        spec_human_bytes(size, false) == spec_decimal(size as nat) + seq![' ', 'B', 'y', 't', 'e', 's'],
        spec_human_bytes(size, true) == spec_decimal(size as nat) + seq![' ', 'B'],
{
    lemma_fundamental_div_mod_converse(size as int, 1, size as int, 0);
    assert(spec_quotient(size) == size as nat);
    assert(spec_human_bytes(size, false) =~= spec_decimal(size as nat) + seq![' ', 'B', 'y', 't', 'e', 's']);
    assert(spec_human_bytes(size, true) =~= spec_decimal(size as nat) + seq![' ', 'B']);
}

/// Label transitions happen exactly at the powers of 1024: one byte below
/// a unit's lower bound still belongs to the unit beneath it with quotient
/// 1023, and the bound itself is 1 of its own unit.
pub proof fn lemma_unit_boundary(b: u64, abbr: bool)
    requires
        b == KIBIBYTE || b == MEBIBYTE || b == GIBIBYTE || b == TEBIBYTE || b == PEBIBYTE
            || b == EXBIBYTE,
    ensures
        spec_unit_index(b) == spec_unit_index((b - 1) as u64) + 1,
        spec_quotient((b - 1) as u64) == 1023,
        spec_quotient(b) == 1,
        spec_human_bytes((b - 1) as u64, abbr) == seq!['1', '0', '2', '3', ' ']
            + spec_label(spec_unit_index(b) - 1, abbr),
        spec_human_bytes(b, abbr) == seq!['1', ' '] + spec_label(spec_unit_index(b), abbr),
{
    reveal_with_fuel(spec_decimal, 5);
    assert(spec_decimal(1023) =~= seq!['1', '0', '2', '3']);
    assert(spec_decimal(1) =~= seq!['1']);
    if b == KIBIBYTE {
        lemma_fundamental_div_mod_converse(1023, 1, 1023, 0);
        lemma_fundamental_div_mod_converse(1024, 1024, 1, 0);
    } else if b == MEBIBYTE {
        lemma_fundamental_div_mod_converse(1048575, 1024, 1023, 1023);
        lemma_fundamental_div_mod_converse(1048576, 1048576, 1, 0);
    } else if b == GIBIBYTE {
        lemma_fundamental_div_mod_converse(1073741823, 1048576, 1023, 1048575);
        lemma_fundamental_div_mod_converse(1073741824, 1073741824, 1, 0);
    } else if b == TEBIBYTE {
        lemma_fundamental_div_mod_converse(1099511627775, 1073741824, 1023, 1073741823);
        lemma_fundamental_div_mod_converse(1099511627776, 1099511627776, 1, 0);
    } else if b == PEBIBYTE {
        lemma_fundamental_div_mod_converse(1125899906842623, 1099511627776, 1023, 1099511627775);
        lemma_fundamental_div_mod_converse(1125899906842624, 1125899906842624, 1, 0);
    } else {
        lemma_fundamental_div_mod_converse(
            1152921504606846975,
            1125899906842624,
            1023,
            1125899906842623,
        );
        lemma_fundamental_div_mod_converse(1152921504606846976, 1152921504606846976, 1, 0);
    }
    assert(spec_quotient((b - 1) as u64) == 1023);
    assert(spec_quotient(b) == 1);
    assert(spec_human_bytes((b - 1) as u64, abbr) =~= seq!['1', '0', '2', '3', ' ']
        + spec_label(spec_unit_index(b) - 1, abbr));
    assert(spec_human_bytes(b, abbr) =~= seq!['1', ' '] + spec_label(spec_unit_index(b), abbr));
}

} // verus!
