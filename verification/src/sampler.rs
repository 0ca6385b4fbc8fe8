//! Sampling an expression over a domain, one integer at a time.
//!
//! Evaluating the expression is left to the caller. A [`Sampler`] names
//! the next integer at which a value is wanted, takes the value that the
//! caller computed there, and refuses it unless it is finite. The integers
//! come in ascending order and each is asked for once.

use vstd::prelude::*;
use crate::binary64::{is_finite, is_finite_bits};
use crate::error::PipelineError;
use crate::interval::{DomainInterval, MAX_SAMPLES};

verus! {

/// One sample: the integer `x`, and the bit pattern of the value at `x`.
pub type SamplePoint = (i64, u64);

/// Whether `points` are the first samples of `interval`: the `i`-th point
/// lies at `interval.start + i`, none lies beyond `interval.end`, and every
/// value is finite.
pub open spec fn samples_of(points: Seq<SamplePoint>, interval: DomainInterval) -> bool {
    &&& points.len() <= interval.count()
    &&& forall|i: int|
        0 <= i < points.len() ==> (#[trigger] points[i]).0 == interval.start + i && is_finite_bits(
            points[i].1,
        )
}

/// The samples of a domain collected so far.
pub struct Sampler {
    interval: DomainInterval,
    points: Vec<SamplePoint>,
}

impl Sampler {
    #[verifier::type_invariant]
    spec fn well_formed(self) -> bool {
        &&& self.interval.count() <= MAX_SAMPLES
        &&& samples_of(self.points@, self.interval)
    }

    /// The domain that is sampled.
    pub closed spec fn interval(&self) -> DomainInterval {
        self.interval
    }

    /// The points collected so far, in ascending order of `x`.
    pub closed spec fn collected(&self) -> Seq<SamplePoint> {
        self.points@
    }

    /// The integer at which the next value is wanted; `None` once every
    /// integer of the domain has its value.
    pub open spec fn wanted(&self) -> Option<i64> {
        if self.collected().len() < self.interval().count() {
            Some((self.interval().start + self.collected().len()) as i64)
        } else {
            None
        }
    }

    /// Starts sampling `interval`. A domain of more than `MAX_SAMPLES`
    /// integers is refused.
    pub fn new(interval: DomainInterval) -> (r: Result<Sampler, PipelineError>)
        ensures
            match r {
                Ok(sampler) => {
                    &&& interval.count() <= MAX_SAMPLES
                    &&& sampler.interval() == interval
                    &&& sampler.collected() == Seq::<SamplePoint>::empty()
                },
                Err(e) => e == PipelineError::DomainTooLargeError && interval.count()
                    > MAX_SAMPLES,
            },
    {
        match interval.sample_count() {
            Some(_) => Ok(Sampler { interval, points: Vec::new() }),
            None => Err(PipelineError::DomainTooLargeError),
        }
    }

    /// The integer at which the next value is wanted.
    pub fn next_x(&self) -> (r: Option<i64>)
        ensures
            r == self.wanted(),
            samples_of(self.collected(), self.interval()),
            self.interval().count() <= MAX_SAMPLES,
    {
        proof {
            use_type_invariant(self);
        }
        let done: usize = self.points.len();
        match self.interval.sample_count() {
            Some(n) => {
                if done < n {
                    Some((self.interval.start as i128 + done as i128) as i64)
                } else {
                    None
                }
            },
            None => None,
        }
    }

    /// Takes `y` as the value at the wanted integer.
    ///
    /// A finite `y` becomes the next point. A `y` that is not finite is an
    /// `EvaluationError`, and the sampler is gone: sampling does not
    /// restart. Once no value is wanted, `y` is ignored.
    pub fn accept(self, y: u64) -> (r: Result<Sampler, PipelineError>)
        ensures
            match self.wanted() {
                Some(x) => if is_finite_bits(y) {
                    &&& r matches Ok(next)
                    &&& next.interval() == self.interval()
                    &&& next.collected() == self.collected().push((x, y))
                } else {
                    r matches Err(e) && e == PipelineError::EvaluationError
                },
                None => {
                    &&& r matches Ok(next)
                    &&& next.interval() == self.interval()
                    &&& next.collected() == self.collected()
                },
            },
    {
        match self.next_x() {
            None => Ok(self),
            Some(x) => {
                if is_finite(y) {
                    let Sampler { interval, mut points } = self;
                    points.push((x, y));
                    Ok(Sampler { interval, points })
                } else {
                    Err(PipelineError::EvaluationError)
                }
            },
        }
    }

    /// Ends sampling and hands out the points collected.
    ///
    /// They are the first samples of the domain; when no value was wanted
    /// any more there is one for every integer of the domain, so that over
    /// `start <= end` their number is `end - start + 1`.
    pub fn finish(self) -> (r: (DomainInterval, Vec<SamplePoint>))
        ensures
            r.0 == self.interval(),
            r.1@ == self.collected(),
            samples_of(r.1@, r.0),
            r.0.count() <= MAX_SAMPLES,
            self.wanted() is None ==> r.1@.len() == r.0.count(),
    {
        proof {
            use_type_invariant(&self);
        }
        (self.interval, self.points)
    }
}

/// The samples of a whole domain that is not empty are as many as the
/// domain has integers, `end - start + 1`, and lie at strictly ascending
/// integers, from `start` to `end`.
pub proof fn lemma_samples_cover_domain(points: Seq<SamplePoint>, interval: DomainInterval)
    requires
        samples_of(points, interval),
        points.len() == interval.count(),
        interval.start <= interval.end,
    ensures
        points.len() == interval.end - interval.start + 1,
        points[0].0 == interval.start,
        points[points.len() - 1].0 == interval.end,
        forall|i: int, j: int|
            0 <= i < j < points.len() ==> (#[trigger] points[i]).0 < (#[trigger] points[j]).0,
{
}

} // verus!
