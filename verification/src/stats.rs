//! Running sums over the frames of one bucket.

use crate::frame::Frame;
use std::ops::Add;
use vstd::prelude::*;
use vstd::std_specs::ops::AddSpecImpl;

verus! {

/// What an accumulator stands for: how many frames it has taken, and the sums
/// of their two standard mass concentrations. Sums of these are taken without
/// bound, so that they form a commutative monoid with `zero` as its identity.
pub struct Totals {
    pub samples: nat,
    pub pm10_standard_sum: nat,
    pub pm25_standard_sum: nat,
}

impl Totals {
    /// The totals of no frame.
    pub open spec fn zero() -> Totals {
        Totals { samples: 0, pm10_standard_sum: 0, pm25_standard_sum: 0 }
    }

    /// The totals of one frame.
    pub open spec fn of_frame(frame: Frame) -> Totals {
        Totals {
            samples: 1,
            pm10_standard_sum: frame.pm10_standard as nat,
            pm25_standard_sum: frame.pm25_standard as nat,
        }
    }

    /// The totals of the frames of both.
    pub open spec fn plus(self, other: Totals) -> Totals {
        Totals {
            samples: self.samples + other.samples,
            pm10_standard_sum: self.pm10_standard_sum + other.pm10_standard_sum,
            pm25_standard_sum: self.pm25_standard_sum + other.pm25_standard_sum,
        }
    }

    /// Each of the three fits the 32 bits of an accumulator's field.
    pub open spec fn fits(self) -> bool {
        &&& self.samples <= u32::MAX
        &&& self.pm10_standard_sum <= u32::MAX
        &&& self.pm25_standard_sum <= u32::MAX
    }
}

/// The accumulator of one bucket.
#[derive(Clone, Copy, Debug, PartialEq, Eq, Structural)]
pub struct FrameStats {
    pub samples: u32,
    pub pm10_standard_sum: u32,
    pub pm25_standard_sum: u32,
}

impl View for FrameStats {
    type V = Totals;

    open spec fn view(&self) -> Totals {
        Totals {
            samples: self.samples as nat,
            pm10_standard_sum: self.pm10_standard_sum as nat,
            pm25_standard_sum: self.pm25_standard_sum as nat,
        }
    }
}

impl FrameStats {
    /// The accumulator with each field the sum of the two, cut to 32 bits.
    pub open spec fn joined(self, other: FrameStats) -> FrameStats {
        FrameStats {
            samples: (self.samples + other.samples) as u32,
            pm10_standard_sum: (self.pm10_standard_sum + other.pm10_standard_sum) as u32,
            pm25_standard_sum: (self.pm25_standard_sum + other.pm25_standard_sum) as u32,
        }
    }

    /// The accumulator that has taken no frame.
    pub fn new() -> (stats: FrameStats)
        ensures
            stats@ == Totals::zero(),
    {
        FrameStats { samples: 0, pm10_standard_sum: 0, pm25_standard_sum: 0 }
    }

    /// The accumulator with one more frame taken in. The new totals must fit.
    pub fn add_frame(self, frame: &Frame) -> (stats: FrameStats)
        requires
            self@.plus(Totals::of_frame(*frame)).fits(),
        ensures
            stats@ == self@.plus(Totals::of_frame(*frame)),
    {
        FrameStats {
            samples: self.samples + 1,
            pm10_standard_sum: self.pm10_standard_sum + frame.pm10_standard as u32,
            pm25_standard_sum: self.pm25_standard_sum + frame.pm25_standard as u32,
        }
    }

    /// The accumulator that has taken `frame` and nothing else.
    pub fn from_frame(frame: &Frame) -> (stats: FrameStats)
        ensures
            stats@ == Totals::of_frame(*frame),
    {
        FrameStats {
            samples: 1,
            pm10_standard_sum: frame.pm10_standard as u32,
            pm25_standard_sum: frame.pm25_standard as u32,
        }
    }

    /// Whether `frame` can be taken in with the totals still fitting.
    pub fn has_room(&self, frame: &Frame) -> (room: bool)
        ensures
            room == self@.plus(Totals::of_frame(*frame)).fits(),
    {
        self.samples < u32::MAX && self.pm10_standard_sum <= u32::MAX - frame.pm10_standard as u32
            && self.pm25_standard_sum <= u32::MAX - frame.pm25_standard as u32
    }
}

impl AddSpecImpl for FrameStats {
    open spec fn obeys_add_spec() -> bool {
        true
    }

    open spec fn add_req(self, other: FrameStats) -> bool {
        self@.plus(other@).fits()
    }

    open spec fn add_spec(self, other: FrameStats) -> FrameStats {
        self.joined(other)
    }
}

impl Add for FrameStats {
    type Output = FrameStats;

    /// The accumulator of the frames of both. The new totals must fit.
    fn add(self, other: FrameStats) -> (stats: FrameStats) {
        FrameStats {
            samples: self.samples + other.samples,
            pm10_standard_sum: self.pm10_standard_sum + other.pm10_standard_sum,
            pm25_standard_sum: self.pm25_standard_sum + other.pm25_standard_sum,
        }
    }
}

/// The sum of two accumulators stands for the sum of their totals, where that
/// fits.
pub proof fn lemma_add_is_plus(a: FrameStats, b: FrameStats)
    requires
        a@.plus(b@).fits(),
    ensures
        a.joined(b)@ == a@.plus(b@),
{
}

/// Totals add up in any grouping.
pub proof fn lemma_plus_associative(a: Totals, b: Totals, c: Totals)
    ensures
        a.plus(b).plus(c) == a.plus(b.plus(c)),
{
}

/// Totals add up in any order.
pub proof fn lemma_plus_commutative(a: Totals, b: Totals)
    ensures
        a.plus(b) == b.plus(a),
{
}

/// Adding the totals of no frame changes nothing.
pub proof fn lemma_plus_zero(a: Totals)
    ensures
        a.plus(Totals::zero()) == a,
        Totals::zero().plus(a) == a,
{
}

/// Two accumulators that stand for the same totals are the same.
pub proof fn lemma_view_is_injective(a: FrameStats, b: FrameStats)
    requires
        a@ == b@,
    ensures
        a == b,
{
}

} // verus!
