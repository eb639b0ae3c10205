//! Lengths of time, as the clocks outside measure them.

use vstd::prelude::*;

verus! {

/// How many nanoseconds make a second.
pub const NANOS_PER_SEC: u32 = 1_000_000_000;

/// What Rust's `Debug` formatting of a `std::time::Duration` reads, given its
/// whole seconds and the nanoseconds beyond them.
pub uninterp spec fn duration_text(secs: u64, nanos: u32) -> Seq<char>;

/// Formats a `std::time::Duration` with its `Debug` implementation. The text is
/// a function of the duration alone; which unit and how many digits it shows is
/// not spelled out.
#[verifier::external_body]
fn duration_debug(secs: u64, nanos: u32) -> (text: String)
    requires
        nanos < NANOS_PER_SEC,
    ensures
        text@ == duration_text(secs, nanos),
{
    format!("{:?}", std::time::Duration::new(secs, nanos))
}

/// How a length of so many nanoseconds reads.
pub open spec fn span_text(total: int) -> Seq<char> {
    duration_text((total / 1_000_000_000) as u64, (total % 1_000_000_000) as u32)
}

/// A length of time, to the nanosecond.
#[derive(Debug, Clone, Copy, PartialEq, Eq)]
pub struct Span {
    secs: u64,
    nanos: u32,
}

impl Span {
    /// The nanoseconds beyond the whole seconds are less than one second.
    #[verifier::type_invariant]
    spec fn split(self) -> bool {
        self.nanos < NANOS_PER_SEC
    }

    /// The whole seconds.
    pub closed spec fn secs(self) -> u64 {
        self.secs
    }

    /// The nanoseconds beyond the whole seconds.
    pub closed spec fn nanos(self) -> u32 {
        self.nanos
    }

    /// The whole length, in nanoseconds.
    pub open spec fn total(self) -> int {
        self.secs() * NANOS_PER_SEC + self.nanos()
    }

    /// How the length reads.
    pub open spec fn reads(self) -> Seq<char> {
        span_text(self.total())
    }

    pub fn new(secs: u64, nanos: u32) -> (span: Self)
        requires
            nanos < NANOS_PER_SEC,
        ensures
            span.secs() == secs,
            span.nanos() == nanos,
    {
        Span { secs, nanos }
    }

    pub fn from_secs(secs: u64) -> (span: Self)
        ensures
            span.secs() == secs,
            span.nanos() == 0,
    {
        Span { secs, nanos: 0 }
    }

    pub fn as_secs(&self) -> (secs: u64)
        ensures
            secs == self.secs(),
    {
        self.secs
    }

    pub fn subsec_nanos(&self) -> (nanos: u32)
        ensures
            nanos == self.nanos(),
            nanos < NANOS_PER_SEC,
    {
        proof {
            use_type_invariant(self);
        }
        self.nanos
    }

    /// Whether this length is strictly longer than `other`.
    pub fn exceeds(&self, other: &Span) -> (longer: bool)
        ensures
            longer == (self.total() > other.total()),
            self.secs() > other.secs() ==> longer,
            self.secs() < other.secs() ==> !longer,
            self.secs() == other.secs() ==> longer == (self.nanos() > other.nanos()),
    {
        proof {
            use_type_invariant(self);
            use_type_invariant(other);
        }
        self.secs > other.secs || (self.secs == other.secs && self.nanos > other.nanos)
    }

    /// What is left of this length after `other`, or nothing if `other` is longer.
    pub fn saturating_sub(&self, other: &Span) -> (left: Span)
        ensures
            left.total() == if self.total() < other.total() {
                0
            } else {
                self.total() - other.total()
            },
    {
        proof {
            use_type_invariant(self);
            use_type_invariant(other);
        }
        if other.exceeds(self) {
            Span { secs: 0, nanos: 0 }
        } else if self.nanos >= other.nanos {
            Span { secs: self.secs - other.secs, nanos: self.nanos - other.nanos }
        } else {
            Span {
                secs: self.secs - other.secs - 1,
                nanos: self.nanos + (NANOS_PER_SEC - other.nanos),
            }
        }
    }

    /// This length `factor` times over.
    pub fn times(&self, factor: u32) -> (product: Span)
        requires
            self.total() * factor < (u64::MAX + 1) * NANOS_PER_SEC,
        ensures
            product.total() == self.total() * factor,
    {
        proof {
            use_type_invariant(self);
        }
        proof {
            let (s, n, f) = (self.secs as int, self.nanos as int, factor as int);
            assert(0 <= n * f <= 1_000_000_000 * 0x1_0000_0000) by (nonlinear_arith)
                requires
                    0 <= n < 1_000_000_000,
                    0 <= f < 0x1_0000_0000,
            ;
            assert((s * 1_000_000_000 + n) * f == (s * f) * 1_000_000_000 + n * f)
                by (nonlinear_arith);
            assert(0 <= s * f) by (nonlinear_arith)
                requires
                    0 <= s,
                    0 <= f,
            ;
        }
        let nanos: u64 = self.nanos as u64 * factor as u64;
        let carry: u64 = nanos / 1_000_000_000;
        assert(carry * 1_000_000_000 <= nanos);
        assert((self.secs * factor + carry) * 1_000_000_000 < (u64::MAX + 1) * 1_000_000_000);
        let rest: u32 = (nanos % 1_000_000_000) as u32;
        Span { secs: self.secs * factor as u64 + carry, nanos: rest }
    }

    /// A second more counts for a thousand million nanoseconds more, and a
    /// nanosecond more for one.
    pub proof fn seconds_and_nanoseconds_add_up(self, other: Span)
        ensures
            self.total() - other.total() == (self.secs() - other.secs()) * 1_000_000_000
                + self.nanos() - other.nanos(),
            self.secs() == 0 ==> self.total() == self.nanos(),
    {
    }

    /// A length reads as the clock that measured it has it: by its whole seconds
    /// and the nanoseconds beyond them.
    pub proof fn reads_by_its_parts(self)
        requires
            self.nanos() < 1_000_000_000,
        ensures
            self.reads() == duration_text(self.secs(), self.nanos()),
            span_text(self.secs() * 1_000_000_000 + self.nanos()) == duration_text(
                self.secs(),
                self.nanos(),
            ),
    {
    }

    /// The length as an operator reads it, such as `8s` or `1.5ms`.
    pub fn text(&self) -> (text: String)
        ensures
            text@ == self.reads(),
            text@ == duration_text(self.secs(), self.nanos()),
    {
        proof {
            use_type_invariant(self);
        }
        duration_debug(self.secs, self.nanos)
    }
}

} // verus!
