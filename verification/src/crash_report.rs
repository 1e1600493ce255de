//! The words for a hard crash.
use vstd::prelude::*;
use crate::text::owned;

verus! {

/// The code of a crash that is reported: memory was touched that must not be.
pub const EXCEPTION_ACCESS_VIOLATION: u32 = 0xC000_0005;

/// The sixteen digits, in order.
pub open spec fn hex_digit(n: int) -> char {
    if n < 10 {
        (n + '0' as int) as char
    } else {
        (n - 10 + 'A' as int) as char
    }
}

/// The last `width` digits of a number, in base sixteen.
pub open spec fn hex_text(n: int, width: nat) -> Seq<char>
    decreases width,
{
    if width == 0 {
        Seq::empty()
    } else {
        hex_text(n / 16, (width - 1) as nat).push(hex_digit(n % 16))
    }
}

/// What is done with the memory, by the first detail of the crash.
pub open spec fn access_text(details: Seq<u64>) -> Seq<char> {
    if details.len() == 0 {
        "?"@
    } else if details[0] == 0 {
        "READ"@
    } else if details[0] == 1 {
        "WRITE"@
    } else if details[0] == 8 {
        "DEP"@
    } else {
        "UNKNOWN"@
    }
}

/// Which memory was touched, by the second detail of the crash.
pub open spec fn crash_target(details: Seq<u64>) -> u64 {
    if details.len() >= 2 {
        details[1]
    } else {
        0
    }
}

/// The report of a crash.
pub open spec fn crash_text(address: u64, details: Seq<u64>, backtrace: Seq<char>) -> Seq<char> {
    "CRASH: ACCESS_VIOLATION at 0x"@ + hex_text(address as int, 16) + "\nType: "@ + access_text(
        details,
    ) + "\nTarget address: 0x"@ + hex_text(crash_target(details) as int, 16)
        + "\n\nThis is a hardware exception (not a Rust panic).\nCheck this run's session log for the buffered trace leading up to this crash.\n\nBacktrace:\n"@
        + backtrace + "\n"@
}

fn hex_char(n: u64) -> (r: char)
    requires
        n < 16,
    ensures
        r == hex_digit(n as int),
{
    if n < 10 {
        (n as u8 + 48) as char
    } else {
        (n as u8 + 55) as char
    }
}

/// Appends the last `width` digits of a number, in base sixteen.
fn push_hex(out: &mut String, n: u64, width: u32)
    ensures
        final(out)@ == old(out)@ + hex_text(n as int, width as nat),
    decreases width,
{
    let ghost before = out@;
    if width > 0 {
        push_hex(out, n / 16, width - 1);
        out.push(hex_char(n % 16));
    }
    proof {
        assert(out@ =~= before + hex_text(n as int, width as nat));
    }
}

fn access_word(details: &Vec<u64>) -> (r: &'static str)
    ensures
        r@ == access_text(details@),
{
    if details.len() == 0 {
        return "?";
    }
    match details[0] {
        0 => "READ",
        1 => "WRITE",
        8 => "DEP",
        _ => "UNKNOWN",
    }
}

/// The report of a crash: where it happened, what was done with which memory,
/// and how the program got there. Other exceptions are not reported.
pub fn crash_report(code: u32, address: u64, details: &Vec<u64>, backtrace: &str) -> (r: Option<
    String,
>)
    ensures
        match r {
            Some(text) => code == EXCEPTION_ACCESS_VIOLATION && text@ == crash_text(
                address,
                details@,
                backtrace@,
            ),
            None => code != EXCEPTION_ACCESS_VIOLATION,
        },
{
    if code != EXCEPTION_ACCESS_VIOLATION {
        return None;
    }
    let target: u64 = if details.len() >= 2 {
        details[1]
    } else {
        0
    };
    let mut out = owned("CRASH: ACCESS_VIOLATION at 0x");
    push_hex(&mut out, address, 16);
    out.append("\nType: ");
    out.append(access_word(details));
    out.append("\nTarget address: 0x");
    push_hex(&mut out, target, 16);
    out.append(
        "\n\nThis is a hardware exception (not a Rust panic).\nCheck this run's session log for the buffered trace leading up to this crash.\n\nBacktrace:\n",
    );
    out.append(backtrace);
    out.append("\n");
    Some(out)
}

/// What follows the trace in the session log.
pub fn crash_marker(report: &str) -> (r: String)
    ensures
        r@ == "\n=== CRASH ===\n"@ + report@ + "\n"@,
{
    let mut out = owned("\n=== CRASH ===\n");
    out.append(report);
    out.append("\n");
    out
}

/// An address is written with sixteen digits.
pub proof fn hex_text_length(n: int, width: nat)
    ensures
        hex_text(n, width).len() == width,
    decreases width,
{
    if width > 0 {
        hex_text_length(n / 16, (width - 1) as nat);
    }
}

/// A report names what was done with the memory by its first detail, and the
/// memory by its second.
pub proof fn report_names_access_and_target(kind: u64, target: u64)
    ensures
        access_text(seq![]) == "?"@,
        access_text(seq![0u64, target]) == "READ"@,
        access_text(seq![1u64, target]) == "WRITE"@,
        access_text(seq![8u64, target]) == "DEP"@,
        kind != 0 && kind != 1 && kind != 8 ==> access_text(seq![kind, target]) == "UNKNOWN"@,
        crash_target(seq![kind, target]) == target,
        crash_target(seq![kind]) == 0,
{
}

/// A number in base sixteen has the asked for digits, of which the last is that
/// of the remainder by sixteen, and the others are those of the quotient.
pub proof fn hex_digits_make_up_the_number(high: int, low: int, width: nat)
    requires
        0 <= high,
        0 <= low < 16,
        width > 0,
    ensures
        hex_text(16 * high + low, width).len() == width,
        hex_text(16 * high + low, width).drop_last() == hex_text(high, (width - 1) as nat),
        low < 10 ==> hex_text(16 * high + low, width).last() as int == '0' as int + low,
        low >= 10 ==> hex_text(16 * high + low, width).last() as int == 'A' as int + (low - 10),
{
    assert((16 * high + low) / 16 == high);
    assert((16 * high + low) % 16 == low);
    hex_text_length(high, (width - 1) as nat);
    let front = hex_text(high, (width - 1) as nat);
    assert(front.push(hex_digit(low)).drop_last() =~= front);
}

} // verus!
