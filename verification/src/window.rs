//! The sliding window: a fixed number of samples over a fixed x-axis, and
//! the points that a chart plots for them.

use crate::sample::{
    encodes_whole, in_range, lemma_range_by_pattern, lemma_whole_patterns, Sample, ONE_BITS,
    THREE_BITS, TWO_BITS, ZERO_BITS,
};
use std::collections::VecDeque;
use vstd::prelude::*;

verus! {

/// The number of samples in a window.
pub const WINDOW_LEN: usize = 10;

/// The number of points that a new window holds before its first advance.
pub const PLACEHOLDER_LEN: usize = 3;

/// The x-coordinates of every window: 0, 1, ..., 9.
pub open spec fn x_axis() -> Seq<u32> {
    Seq::new(WINDOW_LEN as nat, |i: int| i as u32)
}

/// The y-values of a new window, as bit patterns: 1, 2, 3, then zeros.
pub open spec fn seed() -> Seq<u64> {
    seq![
        ONE_BITS,
        TWO_BITS,
        THREE_BITS,
        ZERO_BITS,
        ZERO_BITS,
        ZERO_BITS,
        ZERO_BITS,
        ZERO_BITS,
        ZERO_BITS,
        ZERO_BITS,
    ]
}

/// The points of a new window: three times the origin.
pub open spec fn placeholder() -> Seq<(u32, u64)> {
    Seq::new(PLACEHOLDER_LEN as nat, |i: int| (0u32, ZERO_BITS))
}

/// The points that pair each x-coordinate with the y-value at its index.
pub open spec fn zip(x: Seq<u32>, y: Seq<u64>) -> Seq<(u32, u64)> {
    Seq::new(x.len(), |i: int| (x[i], y[i]))
}

/// What a window holds: x-coordinates, y-values as bit patterns, and the
/// points derived from them.
pub struct WindowModel {
    pub x: Seq<u32>,
    pub y: Seq<u64>,
    pub points: Seq<(u32, u64)>,
}

impl WindowModel {
    /// The window at start-up. Its points are still the placeholder, not the
    /// pairing of `x` and `y`.
    pub open spec fn initial() -> WindowModel {
        WindowModel { x: x_axis(), y: seed(), points: placeholder() }
    }

    /// The window after one advance: the oldest y-value leaves, `sample`
    /// enters at the end, the x-coordinates stay, and the points are paired
    /// anew.
    pub open spec fn advance(self, sample: u64) -> WindowModel {
        let y = self.y.drop_first().push(sample);
        WindowModel { x: self.x, y, points: zip(self.x, y) }
    }

    /// The window after one advance for each of `samples`, in order, from
    /// start-up.
    pub open spec fn after(samples: Seq<u64>) -> WindowModel
        decreases samples.len(),
    {
        if samples.len() == 0 {
            Self::initial()
        } else {
            Self::after(samples.drop_last()).advance(samples.last())
        }
    }

    /// The invariant of a window: the fixed x-axis, as many y-values, each
    /// from `0.0` up to, not including, `10.0`, and points that are either
    /// the placeholder or the pairing of `x` and `y`.
    pub open spec fn wf(self) -> bool {
        &&& self.x == x_axis()
        &&& self.y.len() == WINDOW_LEN
        &&& forall|i: int| 0 <= i < self.y.len() ==> in_range(#[trigger] self.y[i])
        &&& self.points == placeholder() || self.points == zip(self.x, self.y)
    }
}

/// The seed holds the numbers 1, 2 and 3 and then seven zeros, and the
/// placeholder points lie at the origin.
pub proof fn lemma_seed_values()
    ensures
        seed().len() == WINDOW_LEN,
        encodes_whole(seed()[0], 1),
        encodes_whole(seed()[1], 2),
        encodes_whole(seed()[2], 3),
        forall|i: int| 3 <= i < WINDOW_LEN ==> encodes_whole(#[trigger] seed()[i], 0),
        placeholder().len() == PLACEHOLDER_LEN,
        forall|i: int|
            0 <= i < PLACEHOLDER_LEN ==> (#[trigger] placeholder()[i]).0 == 0 && encodes_whole(
                placeholder()[i].1,
                0,
            ),
{
    lemma_whole_patterns();
}

/// A new window satisfies the invariant.
pub proof fn lemma_initial_wf()
    ensures
        WindowModel::initial().wf(),
{
    lemma_range_by_pattern(ONE_BITS);
    lemma_range_by_pattern(TWO_BITS);
    lemma_range_by_pattern(THREE_BITS);
}

/// An advance by a sample in range keeps the invariant, and leaves the
/// points as the pairing of `x` and `y`.
pub proof fn lemma_advance_wf(w: WindowModel, sample: u64)
    requires
        w.wf(),
        in_range(sample),
    ensures
        w.advance(sample).wf(),
        w.advance(sample).x == w.x,
        w.advance(sample).points == zip(w.advance(sample).x, w.advance(sample).y),
        w.advance(sample).points.len() == WINDOW_LEN,
{
}

/// Whatever the samples are, a window keeps its shape through any number
/// of advances: ten y-values over the x-axis 0 to 9. Its points are the
/// three placeholders before the first advance and ten pairs after it. With
/// samples in range the whole invariant holds.
pub proof fn lemma_shape_after_advances(samples: Seq<u64>)
    ensures
        WindowModel::after(samples).x == x_axis(),
        WindowModel::after(samples).y.len() == WINDOW_LEN,
        WindowModel::after(samples).points.len() == (if samples.len() == 0 {
            PLACEHOLDER_LEN
        } else {
            WINDOW_LEN
        }),
        (forall|i: int| 0 <= i < samples.len() ==> in_range(#[trigger] samples[i]))
            ==> WindowModel::after(samples).wf(),
    decreases samples.len(),
{
    if samples.len() == 0 {
        lemma_initial_wf();
    } else {
        lemma_shape_after_advances(samples.drop_last());
    }
}

/// The window slides: after any number of advances its y-values are the last
/// ten of the seed followed by the samples, and once it has advanced its
/// points pair them with the x-axis.
pub proof fn lemma_contents_after_advances(samples: Seq<u64>)
    ensures
        WindowModel::after(samples).y == (seed() + samples).skip(samples.len() as int),
        samples.len() > 0 ==> WindowModel::after(samples).points == zip(
            x_axis(),
            WindowModel::after(samples).y,
        ),
    decreases samples.len(),
{
    if samples.len() > 0 {
        let shorter = samples.drop_last();
        lemma_contents_after_advances(shorter);
        lemma_shape_after_advances(shorter);
    }
}

/// The sliding window of a chart.
///
/// The y-values sit in a double-ended queue: an advance takes one from the
/// front and puts one at the back, and the x-coordinates never move.
#[derive(Debug)]
pub struct SampleWindow {
    x_val: Vec<u32>,
    val: VecDeque<Sample>,
    data: Vec<(u32, Sample)>,
}

impl View for SampleWindow {
    type V = WindowModel;

    closed spec fn view(&self) -> WindowModel {
        WindowModel {
            x: self.x_val@,
            y: Seq::new(self.val@.len(), |i: int| self.val@[i]@),
            points: Seq::new(self.data@.len(), |i: int| (self.data@[i].0, self.data@[i].1@)),
        }
    }
}

impl SampleWindow {
    /// The invariant that `new` establishes and `advance` keeps.
    pub open spec fn wf(&self) -> bool {
        self@.wf()
    }

    /// The window at start-up: y-values 1, 2, 3 and seven zeros over the
    /// x-axis 0 to 9, and three placeholder points at the origin.
    pub fn new() -> (window: SampleWindow)
        ensures
            window.wf(),
            window@ == WindowModel::initial(),
    {
        proof {
            lemma_range_by_pattern(ONE_BITS);
            lemma_range_by_pattern(TWO_BITS);
            lemma_range_by_pattern(THREE_BITS);
        }
        let zero = Sample::from_valid_bits(ZERO_BITS);
        let mut x_val: Vec<u32> = Vec::with_capacity(WINDOW_LEN);
        let mut next_x: u32 = 0;
        while x_val.len() < WINDOW_LEN
            invariant
                x_val@.len() == next_x <= WINDOW_LEN,
                forall|j: int| 0 <= j < x_val@.len() ==> x_val@[j] == j,
            decreases WINDOW_LEN - x_val@.len(),
        {
            x_val.push(next_x);
            next_x += 1;
        }
        let mut val: VecDeque<Sample> = VecDeque::with_capacity(WINDOW_LEN);
        val.push_back(Sample::from_valid_bits(ONE_BITS));
        val.push_back(Sample::from_valid_bits(TWO_BITS));
        val.push_back(Sample::from_valid_bits(THREE_BITS));
        while val.len() < WINDOW_LEN
            invariant
                3 <= val@.len() <= WINDOW_LEN,
                zero@ == ZERO_BITS,
                val@[0]@ == ONE_BITS,
                val@[1]@ == TWO_BITS,
                val@[2]@ == THREE_BITS,
                forall|j: int| 3 <= j < val@.len() ==> (#[trigger] val@[j])@ == ZERO_BITS,
            decreases WINDOW_LEN - val@.len(),
        {
            val.push_back(zero);
        }
        let mut data: Vec<(u32, Sample)> = Vec::with_capacity(PLACEHOLDER_LEN);
        while data.len() < PLACEHOLDER_LEN
            invariant
                data@.len() <= PLACEHOLDER_LEN,
                zero@ == ZERO_BITS,
                forall|j: int| 0 <= j < data@.len() ==> #[trigger] data@[j] == (0u32, zero),
            decreases PLACEHOLDER_LEN - data@.len(),
        {
            data.push((0, zero));
        }
        let window = SampleWindow { x_val, val, data };
        assert(window@.x =~= x_axis());
        assert(window@.y =~= seed());
        assert(window@.points =~= placeholder());
        window
    }

    /// Drops the oldest y-value, appends `sample`, and pairs the
    /// x-coordinates with the y-values anew.
    pub fn advance(&mut self, sample: Sample)
        requires
            old(self).wf(),
        ensures
            final(self).wf(),
            final(self)@ == old(self)@.advance(sample@),
    {
        let bits: u64 = sample.to_bits();
        proof {
        }
        self.val.pop_front();
        self.val.push_back(sample);
        assert(self@.y =~= old(self)@.y.drop_first().push(bits));
        let mut data: Vec<(u32, Sample)> = Vec::with_capacity(WINDOW_LEN);
        let mut i: usize = 0;
        while i < WINDOW_LEN
            invariant
                i <= WINDOW_LEN,
                self.x_val@.len() == WINDOW_LEN,
                self.val@.len() == WINDOW_LEN,
                data@.len() == i,
                forall|j: int|
                    0 <= j < i ==> #[trigger] data@[j] == (self.x_val@[j], self.val@[j]),
            decreases WINDOW_LEN - i,
        {
            data.push((self.x_val[i], self.val[i]));
            i += 1;
        }
        self.data = data;
        assert(self@.points =~= zip(self@.x, self@.y));
    }

    /// The x-coordinates.
    pub fn x_values(&self) -> (x: &Vec<u32>)
        ensures
            x@ == self@.x,
    {
        &self.x_val
    }

    /// The y-values, oldest first.
    pub fn y_values(&self) -> (y: Vec<Sample>)
        ensures
            y@.len() == self@.y.len(),
            forall|i: int| 0 <= i < y@.len() ==> (#[trigger] y@[i])@ == self@.y[i],
    {
        let mut y: Vec<Sample> = Vec::with_capacity(self.val.len());
        let mut i: usize = 0;
        while i < self.val.len()
            invariant
                i <= self.val@.len(),
                y@.len() == i,
                forall|j: int| 0 <= j < i ==> #[trigger] y@[j] == self.val@[j],
            decreases self.val@.len() - i,
        {
            y.push(self.val[i]);
            i += 1;
        }
        y
    }

    /// The points that the chart plots.
    pub fn points(&self) -> (points: &Vec<(u32, Sample)>)
        ensures
            points@.len() == self@.points.len(),
            forall|i: int|
                0 <= i < points@.len() ==> {
                    &&& (#[trigger] points@[i]).0 == self@.points[i].0
                    &&& points@[i].1@ == self@.points[i].1
                },
    {
        &self.data
    }
}

} // verus!

