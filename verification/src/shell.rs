//! Opening links with the system's own program.
use vstd::prelude::*;
use crate::interrupt::signed_text;
use crate::text::{owned, trim, trim_seq};
use crate::decimal::push_decimal;

verus! {

/// The link to open, without white space at its ends; an error if nothing is
/// left.
pub fn url_to_open(url: &str) -> (r: Result<String, String>)
    ensures
        match r {
            Ok(u) => trim_seq(url@).len() > 0 && u@ == trim_seq(url@),
            Err(e) => trim_seq(url@).len() == 0 && e@ == "URL required"@,
        },
{
    let u = trim(url);
    if u.as_str().unicode_len() == 0 {
        return Err(owned("URL required"));
    }
    Ok(u)
}

/// What the answer of the system means: up to 32 it is an error.
pub fn open_result(code: i64) -> (r: Result<(), String>)
    ensures
        match r {
            Ok(_) => code > 32,
            Err(e) => code <= 32 && e@ == "ShellExecuteW failed with code "@ + signed_text(
                code as int,
            ),
        },
{
    if code > 32 {
        return Ok(());
    }
    let mut out = owned("ShellExecuteW failed with code ");
    let ghost before = out@;
    if code < 0 {
        out.push('-');
        push_decimal(&mut out, (-(code + 1)) as u64 + 1);
    } else {
        push_decimal(&mut out, code as u64);
    }
    proof {
        assert(out@ =~= before + signed_text(code as int));
    }
    Err(out)
}

} // verus!
