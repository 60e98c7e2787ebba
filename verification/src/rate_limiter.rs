//! Upload speed limiting: counting the bytes sent and deciding how long to
//! wait before sending more.

use vstd::prelude::*;

verus! {

#[verifier::external_type_specification]
#[verifier::external_body]
pub struct ExInstant(std::time::Instant);

/// Reads the monotonic clock.
///
/// Calls `std::time::Instant::now`. Nothing is claimed of the reading.
#[verifier::external_body]
fn instant_now() -> std::time::Instant {
    std::time::Instant::now()
}

/// Bytes counted as sent after `bytes` more are offered to a limiter with
/// rate `rate` that had counted `sent`: nothing is counted without a limit
/// or without bytes.
pub open spec fn account_step(rate: u64, sent: int, bytes: u64) -> int {
    if rate == 0 || bytes == 0 {
        sent
    } else {
        sent + bytes
    }
}

/// Bytes counted by a limiter with rate `rate` that had counted `start`,
/// after `offers`, in order.
pub open spec fn counted_after(rate: u64, start: int, offers: Seq<u64>) -> int
    decreases offers.len(),
{
    if offers.len() == 0 {
        start
    } else {
        account_step(rate, counted_after(rate, start, offers.drop_last()), offers.last())
    }
}

/// The sum of `offers`.
pub open spec fn sum_of(offers: Seq<u64>) -> int
    decreases offers.len(),
{
    if offers.len() == 0 {
        0
    } else {
        sum_of(offers.drop_last()) + offers.last()
    }
}

/// A limiter with a rate counts every byte offered to it, whatever it had
/// counted before: what it reports after a run of offers is the earlier
/// count plus all bytes offered (so a fresh limiter reports all bytes sent
/// since it started); one without a rate counts none.
pub proof fn lemma_counts_every_byte(rate: u64, start: int, offers: Seq<u64>)
    ensures
        rate != 0 ==> counted_after(rate, start, offers) == start + sum_of(offers),
        rate == 0 ==> counted_after(rate, start, offers) == start,
    decreases offers.len(),
{
    if offers.len() > 0 {
        lemma_counts_every_byte(rate, start, offers.drop_last());
    }
}

/// Keeps the bytes sent since it started below a given rate.
pub struct RateLimiter {
    bytes_per_sec: u64,
    start: std::time::Instant,
    sent: u64,
}

impl RateLimiter {
    /// The allowed rate in bytes per second; 0 means no limit.
    pub closed spec fn rate(&self) -> u64 {
        self.bytes_per_sec
    }

    /// The instant at which the limiter started counting.
    pub closed spec fn start_instant(&self) -> std::time::Instant {
        self.start
    }

    /// Bytes counted as sent so far.
    pub closed spec fn sent_bytes(&self) -> u64 {
        self.sent
    }

    /// A limiter to `bytes_per_sec` (0 for none), starting now with nothing sent.
    pub fn new(bytes_per_sec: u64) -> (r: RateLimiter)
        ensures
            r.rate() == bytes_per_sec,
            r.sent_bytes() == 0,
    {
        RateLimiter { bytes_per_sec, start: instant_now(), sent: 0 }
    }

    /// The allowed rate in bytes per second; 0 means no limit.
    pub fn bytes_per_sec(&self) -> (r: u64)
        ensures
            r == self.rate(),
    {
        self.bytes_per_sec
    }

    /// When the limiter started counting.
    pub fn started_at(&self) -> (start: &std::time::Instant)
        ensures
            *start == self.start_instant(),
    {
        &self.start
    }

    /// Bytes counted as sent so far.
    pub fn sent(&self) -> (r: u64)
        ensures
            r == self.sent_bytes(),
    {
        self.sent
    }

    /// Counts `bytes` more as sent and returns the total sent so far, which
    /// the caller must not exceed at the limiter's rate. Nothing is counted,
    /// and no total returned, when there is no limit or nothing to send.
    pub fn account_bytes(&mut self, bytes: u64) -> (total: Option<u64>)
        requires
            old(self).rate() != 0 && bytes != 0 ==> old(self).sent_bytes() + bytes <= u64::MAX,
        ensures
            final(self).rate() == old(self).rate(),
            final(self).start_instant() == old(self).start_instant(),
            final(self).sent_bytes() == account_step(old(self).rate(), old(self).sent_bytes() as int, bytes),
            old(self).rate() == 0 || bytes == 0 ==> total is None && final(self).sent_bytes()
                == old(self).sent_bytes(),
            old(self).rate() != 0 && bytes != 0 ==> total == Some(
                (old(self).sent_bytes() + bytes) as u64,
            ) && final(self).sent_bytes() == old(self).sent_bytes() + bytes,
    {
        if self.bytes_per_sec == 0 || bytes == 0 {
            return None;
        }
        self.sent = self.sent + bytes;
        Some(self.sent)
    }

    /// How long still to wait, when sending should have taken
    /// `expected_nanos` and `elapsed_nanos` have passed: the difference when
    /// the sending ran ahead, nothing otherwise.
    pub fn pending_wait(expected_nanos: u128, elapsed_nanos: u128) -> (wait: Option<u128>)
        ensures
            expected_nanos > elapsed_nanos ==> wait == Some((expected_nanos - elapsed_nanos) as u128),
            expected_nanos <= elapsed_nanos ==> wait is None,
    {
        if expected_nanos > elapsed_nanos {
            Some(expected_nanos - elapsed_nanos)
        } else {
            None
        }
    }
}

} // verus!
