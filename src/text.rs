//! Text for the platform: UTF-16 with a terminating zero, the fixed tooltip
//! buffer, and the tooltip and clock strings.
use vstd::prelude::*;
use vstd::string::{StrSliceExecFns, StringExecFns};

verus! {

/// Tooltip buffer size in UTF-16 units; the last one always stays zero.
pub const TIP_CAPACITY: usize = 128;

/// UTF-16 code units of one character.
pub open spec fn utf16_char(c: char) -> Seq<u16> {
    let v = c as nat;
    if v < 0x10000 {
        seq![v as u16]
    } else {
        let w = (v - 0x10000) as nat;
        seq![(0xD800 + w / 0x400) as u16, (0xDC00 + w % 0x400) as u16]
    }
}

/// UTF-16 code units of a string.
pub open spec fn utf16_of(s: Seq<char>) -> Seq<u16>
    decreases s.len(),
{
    if s.len() == 0 {
        Seq::empty()
    } else {
        utf16_of(s.drop_last()) + utf16_char(s.last())
    }
}

/// UTF-16 code units of a string followed by a terminating zero.
pub open spec fn wide_null(s: Seq<char>) -> Seq<u16> {
    utf16_of(s).push(0)
}

/// The tooltip buffer for `wide`: its first 127 units at most, zeros after.
pub open spec fn tip_buffer(wide: Seq<u16>) -> Seq<u16> {
    Seq::new(
        TIP_CAPACITY as nat,
        |i: int|
            if i < TIP_CAPACITY - 1 && i < wide.len() {
                wide[i]
            } else {
                0u16
            },
    )
}

pub open spec fn digit_char(d: nat) -> char {
    seq!['0', '1', '2', '3', '4', '5', '6', '7', '8', '9'][(d % 10) as int]
}

/// Decimal digits of `n`, without leading zeros.
pub open spec fn decimal(n: nat) -> Seq<char>
    decreases n,
{
    if n < 10 {
        seq![digit_char(n)]
    } else {
        decimal(n / 10) + seq![digit_char(n % 10)]
    }
}

/// `CPU: <u>%` with `u` the utilization in percent, one decimal place.
pub open spec fn cpu_tooltip(tenths: nat) -> Seq<char> {
    seq!['C', 'P', 'U', ':', ' '] + decimal(tenths / 10) + seq!['.', digit_char(tenths % 10), '%']
}

/// Two digits, with a leading zero below ten.
pub open spec fn two_digits(n: nat) -> Seq<char> {
    seq![digit_char(n / 10), digit_char(n % 10)]
}

/// `HH:MM:SS`.
pub open spec fn clock_face(h: nat, m: nat, s: nat) -> Seq<char> {
    two_digits(h) + seq![':'] + two_digits(m) + seq![':'] + two_digits(s)
}

/// The UTF-16 units of `s` followed by a terminating zero.
pub fn to_wide_null(s: &str) -> (r: Vec<u16>)
    ensures
        r@ == wide_null(s@),
{
    let n = s.unicode_len();
    let mut out: Vec<u16> = Vec::new();
    let mut i: usize = 0;
    while i < n
        invariant
            n == s@.len(),
            i <= n,
            out@ == utf16_of(s@.subrange(0, i as int)),
        decreases n - i,
    {
        let c = s.get_char(i);
        let v = c as u32;
        proof {
            let pre = s@.subrange(0, i as int);
            let next = s@.subrange(0, i + 1);
            assert(next.drop_last() =~= pre);
            assert(next.last() == c);
        }
        if v < 0x10000 {
            out.push(v as u16);
        } else {
            let w: u32 = v - 0x10000;
            out.push((0xD800 + w / 0x400) as u16);
            out.push((0xDC00 + w % 0x400) as u16);
        }
        proof {
            assert(out@ =~= utf16_of(s@.subrange(0, i + 1)));
        }
        i = i + 1;
    }
    proof {
        assert(s@.subrange(0, n as int) =~= s@);
    }
    out.push(0);
    out
}

/// The fixed tooltip buffer for `s`: as many of its UTF-16 units (and
/// terminating zero) as fit in 127, padded with zeros to 128.
pub fn tooltip_buffer(s: &str) -> (r: Vec<u16>)
    ensures
        r@ == tip_buffer(wide_null(s@)),
        r@.len() == TIP_CAPACITY,
{
    let wide = to_wide_null(s);
    let mut out: Vec<u16> = Vec::new();
    let mut i: usize = 0;
    while i < TIP_CAPACITY
        invariant
            i <= TIP_CAPACITY,
            wide@ == wide_null(s@),
            out@ =~= tip_buffer(wide@).subrange(0, i as int),
        decreases TIP_CAPACITY - i,
    {
        if i < TIP_CAPACITY - 1 && i < wide.len() {
            out.push(wide[i]);
        } else {
            out.push(0);
        }
        i = i + 1;
    }
    out
}

fn digit_str(d: u32) -> (r: &'static str)
    requires
        d < 10,
    ensures
        r@ == seq![digit_char(d as nat)],
{
    proof {
        reveal_strlit("0");
        reveal_strlit("1");
        reveal_strlit("2");
        reveal_strlit("3");
        reveal_strlit("4");
        reveal_strlit("5");
        reveal_strlit("6");
        reveal_strlit("7");
        reveal_strlit("8");
        reveal_strlit("9");
    }
    let r = match d {
        0 => "0",
        1 => "1",
        2 => "2",
        3 => "3",
        4 => "4",
        5 => "5",
        6 => "6",
        7 => "7",
        8 => "8",
        _ => "9",
    };
    assert(r@ =~= seq![digit_char(d as nat)]);
    r
}

/// Appends the decimal digits of `n` to `out`.
pub fn push_decimal(out: &mut String, n: u32)
    ensures
        final(out)@ == old(out)@ + decimal(n as nat),
    decreases n,
{
    if n < 10 {
        out.append(digit_str(n));
    } else {
        push_decimal(out, n / 10);
        out.append(digit_str(n % 10));
        assert(final(out)@ =~= old(out)@ + decimal(n as nat));
    }
}

/// Tooltip for a utilization of `tenths` tenths of a percent: `CPU: 12.3%`.
pub fn tooltip_text(tenths: u32) -> (r: String)
    ensures
        r@ == cpu_tooltip(tenths as nat),
{
    proof {
        reveal_strlit("CPU: ");
        reveal_strlit(".");
        reveal_strlit("%");
    }
    let mut out = String::from_str("CPU: ");
    assert(out@ =~= seq!['C', 'P', 'U', ':', ' ']);
    push_decimal(&mut out, tenths / 10);
    out.append(".");
    out.append(digit_str(tenths % 10));
    out.append("%");
    assert(out@ =~= cpu_tooltip(tenths as nat));
    out
}

/// Clock overlay text `HH:MM:SS`.
pub fn clock_text(hour: u16, minute: u16, second: u16) -> (r: String)
    requires
        hour < 100,
        minute < 100,
        second < 100,
    ensures
        r@ == clock_face(hour as nat, minute as nat, second as nat),
{
    proof {
        reveal_strlit(":");
    }
    let mut out = String::new();
    out.append(digit_str((hour / 10) as u32));
    out.append(digit_str((hour % 10) as u32));
    out.append(":");
    out.append(digit_str((minute / 10) as u32));
    out.append(digit_str((minute % 10) as u32));
    out.append(":");
    out.append(digit_str((second / 10) as u32));
    out.append(digit_str((second % 10) as u32));
    assert(out@ =~= clock_face(hour as nat, minute as nat, second as nat));
    out
}

/// The executable path between double quotes, as the OS launch list stores it.
pub fn quoted_path(path: &str) -> (r: String)
    ensures
        r@ == seq!['"'] + path@ + seq!['"'],
{
    proof {
        reveal_strlit("\"");
    }
    let mut out = String::from_str("\"");
    out.append(path);
    out.append("\"");
    assert(out@ =~= seq!['"'] + path@ + seq!['"']);
    out
}

} // verus!
