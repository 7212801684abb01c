//! The provider capability: the hosting environment's lifecycle signals.

use crate::address::HostAddress;
use vstd::prelude::*;

verus! {

/// Nanoseconds in one second.
pub const NANOS_PER_SEC: u32 = 1_000_000_000;

/// The time left between a termination signal and the forced termination of
/// the host: whole seconds and the nanoseconds beyond them. A lead time is
/// never zero, and its nanoseconds never fill a second.
#[derive(Clone, Copy, Debug, PartialEq, Eq)]
pub struct LeadTime {
    secs: u64,
    subsec_nanos: u32,
}

impl View for LeadTime {
    type V = nat;

    /// The lead time in nanoseconds.
    closed spec fn view(&self) -> nat {
        (self.secs * NANOS_PER_SEC + self.subsec_nanos) as nat
    }
}

impl LeadTime {
    #[verifier::type_invariant]
    spec fn well_formed(self) -> bool {
        self.subsec_nanos < NANOS_PER_SEC && (self.secs > 0 || self.subsec_nanos > 0)
    }

    /// The lead time of `secs` seconds and `subsec_nanos` nanoseconds; none
    /// where that is no time at all, or where the nanoseconds fill a second.
    pub fn new(secs: u64, subsec_nanos: u32) -> (lead: Option<LeadTime>)
        ensures
            lead is Some <==> subsec_nanos < NANOS_PER_SEC && secs * NANOS_PER_SEC + subsec_nanos
                > 0,
            lead matches Some(time) ==> time@ == secs * NANOS_PER_SEC + subsec_nanos,
    {
        if subsec_nanos < NANOS_PER_SEC && (secs > 0 || subsec_nanos > 0) {
            assert(secs > 0 ==> secs * NANOS_PER_SEC > 0) by (nonlinear_arith);
            Some(LeadTime { secs, subsec_nanos })
        } else {
            assert(secs == 0 ==> secs * NANOS_PER_SEC == 0);
            None
        }
    }

    /// The whole seconds of the lead time.
    pub fn as_secs(&self) -> (secs: u64)
        ensures
            secs == self@ / (NANOS_PER_SEC as nat),
    {
        proof {
            use_type_invariant(self);
            let s = self.secs as int;
            let n = self.subsec_nanos as int;
            assert((s * 1_000_000_000 + n) / 1_000_000_000 == s) by (nonlinear_arith)
                requires
                    0 <= n < 1_000_000_000,
            ;
        }
        self.secs
    }

    /// The nanoseconds of the lead time beyond its whole seconds.
    pub fn subsec_nanos(&self) -> (nanos: u32)
        ensures
            nanos == self@ % (NANOS_PER_SEC as nat),
    {
        proof {
            use_type_invariant(self);
            let s = self.secs as int;
            let n = self.subsec_nanos as int;
            assert((s * 1_000_000_000 + n) % 1_000_000_000 == n) by (nonlinear_arith)
                requires
                    0 <= n < 1_000_000_000,
            ;
        }
        self.subsec_nanos
    }

    /// The lead time in nanoseconds: never zero.
    pub fn as_nanos(&self) -> (nanos: u128)
        ensures
            nanos == self@,
            nanos > 0,
    {
        proof {
            use_type_invariant(self);
            let s = self.secs as int;
            assert(s > 0 ==> s * 1_000_000_000 > 0) by (nonlinear_arith);
            assert(s * 1_000_000_000 <= 0xffff_ffff_ffff_ffff * 1_000_000_000) by (nonlinear_arith)
                requires
                    s <= 0xffff_ffff_ffff_ffff,
            ;
        }
        (self.secs as u128) * (NANOS_PER_SEC as u128) + (self.subsec_nanos as u128)
    }

    /// What is left of the lead time once `spent` nanoseconds of it are
    /// gone; nothing where they use it up.
    pub fn remaining_after(&self, spent: u128) -> (left: Option<LeadTime>)
        ensures
            left is Some <==> spent < self@,
            left matches Some(time) ==> time@ == self@ - spent,
    {
        let total: u128 = self.as_nanos();
        if spent >= total {
            return None;
        }
        let rest: u128 = total - spent;
        let per_sec: u128 = NANOS_PER_SEC as u128;
        let secs: u128 = rest / per_sec;
        let nanos: u128 = rest % per_sec;
        proof {
            use_type_invariant(self);
            let s = self.secs as int;
            let n = self.subsec_nanos as int;
            let r = rest as int;
            assert(r / 1_000_000_000 <= s) by (nonlinear_arith)
                requires
                    0 <= r <= s * 1_000_000_000 + n,
                    0 <= n < 1_000_000_000,
            ;
            assert(r == (r / 1_000_000_000) * 1_000_000_000 + r % 1_000_000_000) by (nonlinear_arith)
                requires
                    0 <= r,
            ;
            assert(r / 1_000_000_000 > 0 || r % 1_000_000_000 > 0) by (nonlinear_arith)
                requires
                    r > 0,
                    r == (r / 1_000_000_000) * 1_000_000_000 + r % 1_000_000_000,
            ;
        }
        Some(LeadTime { secs: secs as u64, subsec_nanos: nanos as u32 })
    }
}

/// The hosting environment: it boots instances and announces when the
/// current host is about to be reclaimed.
pub trait Provider {
    /// Why the environment could not do what was asked.
    type Error;

    /// Provisions or boots the instance `id`, returns once it can be
    /// reached, and gives its address.
    fn start_instance(&self, id: String) -> Result<HostAddress, Self::Error>;

    /// Returns once the environment has announced that the current host
    /// will be reclaimed, and gives the lead time: what is left before the
    /// forced termination, and never nothing. The caller has that long to
    /// checkpoint and to migrate.
    fn wait_until_termination_signal(&self) -> (signal: Result<LeadTime, Self::Error>)
        ensures
            signal matches Ok(lead) ==> lead@ > 0,
    ;
}

} // verus!
