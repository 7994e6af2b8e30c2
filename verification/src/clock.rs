//! Time stamps.
use vstd::prelude::*;

use crate::text::{decimal, decimal_text, decimal_value, law_decimal};

verus! {

/// The clock of the machine, `SystemTime::elapsed` of the start of 1970, in
/// whole seconds; `None` where the clock is set to an earlier time. The clock may
/// show any time, so nothing is claimed of it.
#[verifier::external_body]
fn seconds_since_epoch() -> (seconds: Option<u64>) {
    match std::time::UNIX_EPOCH.elapsed() {
        Ok(time) => Some(time.as_secs()),
        Err(_) => None,
    }
}

/// The time stamp of what the clock shows: the decimal numeral of the seconds
/// since the start of 1970, which are 0 where the clock is set to an earlier
/// time.
pub open spec fn stamp_of(seconds: Option<u64>) -> Seq<char> {
    match seconds {
        Some(seconds) => decimal(seconds as nat),
        None => decimal(0),
    }
}

/// The time stamp of what the clock shows.
pub fn timestamp(seconds: Option<u64>) -> (stamp: String)
    ensures
        stamp@ == stamp_of(seconds),
{
    match seconds {
        Some(seconds) => decimal_text(seconds),
        None => decimal_text(0),
    }
}

/// The time stamp of the present time, whatever that is.
pub fn iso_now() -> (stamp: String)
    ensures
        exists|seconds: Option<u64>| stamp@ == #[trigger] stamp_of(seconds),
{
    let seconds: Option<u64> = seconds_since_epoch();
    timestamp(seconds)
}

/// Different times have different time stamps.
pub proof fn law_timestamps_differ(a: u64, b: u64)
    ensures
        stamp_of(Some(a)) == stamp_of(Some(b)) ==> a == b,
{
    law_decimal(a as nat);
    law_decimal(b as nat);
}

/// A time stamp is a numeral that denotes the seconds that the clock shows, and 0
/// where the clock is set to an earlier time than the start of 1970.
pub proof fn law_stamp_denotes_the_time(seconds: u64)
    ensures
        decimal_value(stamp_of(Some(seconds))) == seconds,
        forall|i: int|
            0 <= i < stamp_of(Some(seconds)).len() ==> '0' <= #[trigger] stamp_of(Some(seconds))[i]
                <= '9',
        stamp_of(None) == seq!['0'],
{
    law_decimal(seconds as nat);
}

} // verus!
