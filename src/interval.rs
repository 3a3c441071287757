use vstd::prelude::*;

verus! {

/// Number of nanoseconds in one second.
pub const NANOS_PER_SEC: u32 = 1_000_000_000;

/// A span of time, held as whole seconds and the nanoseconds beyond them.
///
/// Its view is the whole span in nanoseconds.
#[derive(Clone, Copy, Debug, PartialEq, Eq)]
pub struct Interval {
    secs: u64,
    nanos: u32,
}

impl View for Interval {
    type V = nat;

    closed spec fn view(&self) -> nat {
        self.secs as nat * NANOS_PER_SEC as nat + self.nanos as nat
    }
}

impl Interval {
    #[verifier::type_invariant]
    spec fn nanos_in_range(self) -> bool {
        self.nanos < NANOS_PER_SEC
    }

    /// An interval of `secs` whole seconds.
    pub fn from_secs(secs: u64) -> (r: Interval)
        ensures
            r@ == secs as nat * NANOS_PER_SEC as nat,
    {
        Interval { secs, nanos: 0 }
    }

    /// An interval of `secs` seconds and `nanos` nanoseconds; `nanos` must
    /// stay below one second.
    pub fn new(secs: u64, nanos: u32) -> (r: Interval)
        requires
            nanos < NANOS_PER_SEC,
        ensures
            r@ == secs as nat * NANOS_PER_SEC as nat + nanos as nat,
    {
        Interval { secs, nanos }
    }

    /// The whole seconds of the interval.
    pub fn as_secs(&self) -> (r: u64)
        ensures
            r as nat == self@ / NANOS_PER_SEC as nat,
    {
        proof {
            use_type_invariant(self);
            self.lemma_split();
        }
        self.secs
    }

    /// The nanoseconds beyond the whole seconds.
    pub fn subsec_nanos(&self) -> (r: u32)
        ensures
            r as nat == self@ % NANOS_PER_SEC as nat,
            r < NANOS_PER_SEC,
    {
        proof {
            use_type_invariant(self);
            self.lemma_split();
        }
        self.nanos
    }

    proof fn lemma_split(&self)
        requires
            self.nanos < NANOS_PER_SEC,
        ensures
            self@ / NANOS_PER_SEC as nat == self.secs as nat,
            self@ % NANOS_PER_SEC as nat == self.nanos as nat,
    {
        let s = self.secs as int;
        let n = self.nanos as int;
        let d = NANOS_PER_SEC as int;
        assert((s * d + n) / d == s && (s * d + n) % d == n) by (nonlinear_arith)
            requires
                0 <= n < d,
                d > 0,
                s >= 0,
        {
            vstd::arithmetic::div_mod::lemma_fundamental_div_mod_converse(s * d + n, d, s, n);
        }
    }

    /// Half of the interval, rounded down to the nanosecond.
    pub fn half(&self) -> (r: Interval)
        ensures
            r@ == self@ / 2,
    {
        proof {
            use_type_invariant(self);
        }
        let secs = self.secs / 2;
        let carry = self.secs - secs * 2;
        let extra: u32 = if carry == 1 { NANOS_PER_SEC / 2 } else { 0 };
        let nanos = self.nanos / 2 + extra;
        proof {
            let s = self.secs as int;
            let n = self.nanos as int;
            let q = secs as int;
            let c = carry as int;
            assert(s == 2 * q + c);
            assert(s * 1_000_000_000 + n == 2 * (q * 1_000_000_000 + c * 500_000_000 + n / 2) + n % 2)
                by (nonlinear_arith)
                requires
                    s == 2 * q + c,
                    n >= 0,
            ;
        }
        Interval { secs, nanos }
    }
}

} // verus!
