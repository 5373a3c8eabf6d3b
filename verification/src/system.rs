use vstd::prelude::*;
use crate::textutil::{dec_digits, u64_to_dec};

verus! {

/// The file the machine's stable identity is kept in.
pub const MACHINE_ID_FILE: &'static str = "/etc/artisan_id";

/// Renders a kilobyte count as whole megabytes, as the telemetry report
/// shows memory figures.
pub fn format_megabytes(kilobytes: u64) -> (r: String)
    ensures
        r@ == dec_digits((kilobytes / 1024) as int) + " MB"@,
{
    let mut out = u64_to_dec(kilobytes / 1024);
    out.append(" MB");
    proof {
        assert(out@ =~= dec_digits((kilobytes / 1024) as int) + " MB"@);
    }
    out
}

/// Picks the machine identity: the stored one when the identity file could
/// be read, else the freshly generated one.
pub fn select_machine_id(stored: Option<String>, generated: String) -> (r: String)
    ensures
        (stored matches Some(s) ==> r@ == s@),
        (stored is None ==> r@ == generated@),
{
    match stored {
        Some(s) => s,
        None => generated,
    }
}

} // verus!
