//! The backoff schedule: how long to wait before each retry.
use vstd::arithmetic::power2::{lemma2_to64, lemma_pow2_strictly_increases, pow2};
use vstd::prelude::*;

verus! {

/// The longest wait between two attempts, in seconds.
pub const MAX_DELAY_SECS: u64 = 10;

/// The wait, in seconds, before the retry that follows a failure seen when
/// `retries` retries have already been made: `2^retries`, capped at
/// `MAX_DELAY_SECS`.
pub open spec fn delay_secs(retries: nat) -> nat {
    if pow2(retries) < MAX_DELAY_SECS {
        pow2(retries)
    } else {
        MAX_DELAY_SECS as nat
    }
}

/// Computes `delay_secs(retries)`: 1, 2, 4 and 8 seconds for the first four
/// retries, and `MAX_DELAY_SECS` from then on.
pub fn backoff_delay_secs(retries: u32) -> (r: u64)
    ensures
        r == delay_secs(retries as nat),
{
    proof {
        lemma2_to64();
    }
    match retries {
        0 => 1,
        1 => 2,
        2 => 4,
        3 => 8,
        _ => {
            proof {
                if retries > 4 {
                    lemma_pow2_strictly_increases(4, retries as nat);
                }
            }
            MAX_DELAY_SECS
        },
    }
}

/// The wait doubles with each retry until it reaches `MAX_DELAY_SECS`, and
/// stays there: it is never longer, and from the fifth retry on (four
/// retries already made) it is exactly that cap.
pub proof fn lemma_delay_capped(retries: nat)
    ensures
        1 <= delay_secs(retries) <= MAX_DELAY_SECS,
        retries < 4 ==> delay_secs(retries) == pow2(retries),
        retries < 3 ==> delay_secs(retries + 1) == 2 * delay_secs(retries),
        retries >= 4 ==> delay_secs(retries) == MAX_DELAY_SECS,
{
    lemma2_to64();
    if retries > 4 {
        lemma_pow2_strictly_increases(4, retries);
    }
}

/// The first waits of the schedule, in seconds: 1, 2, 4, 8, then the cap.
pub proof fn lemma_delay_values()
    ensures
        delay_secs(0) == 1,
        delay_secs(1) == 2,
        delay_secs(2) == 4,
        delay_secs(3) == 8,
        delay_secs(4) == MAX_DELAY_SECS,
{
    lemma2_to64();
}

} // verus!
