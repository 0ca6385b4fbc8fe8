//! The graph: the dataset that is plotted, and the evaluation that fills it.
//!
//! A run starts with [`Graph::eval_expr`], which compiles the expression
//! and reads the domain. It then asks for the value of the expression at
//! one integer after the other; the caller computes each value and hands
//! it to [`Graph::supply`]. When the last value has come the dataset is
//! replaced as a whole. A run that fails leaves the dataset as it was.

use vstd::prelude::*;
use crate::binary64::{is_finite_bits, order_key, ZERO};
use crate::bounds::{axis_bounds, bounds_of, lemma_bounds_enclose, ordinates, AxisBounds};
use crate::error::PipelineError;
use crate::expression::{compile, compiled, CompiledExpression};
use crate::interval::{admitted_domain, parse_domain, DomainInterval};
use crate::key::Key;
use crate::sampler::{samples_of, SamplePoint, Sampler};

verus! {

/// What a run needs next.
#[derive(Clone, Copy, Debug, PartialEq, Eq, Structural)]
pub enum Progress {
    /// The value of the expression at this integer.
    Wanted(i64),
    /// Nothing: the dataset is complete.
    Done,
}

/// A run that waits for values.
pub struct Evaluation {
    /// The expression that is being sampled.
    pub expression: CompiledExpression,
    /// The points that have come in.
    pub sampler: Sampler,
}

/// The dataset of the plot, and the run in progress if there is one.
pub struct Graph {
    /// The points, in ascending order of `x`.
    pub coordinate_vector: Vec<SamplePoint>,
    pub x_min: i64,
    pub x_max: i64,
    /// Bit pattern of the least value.
    pub y_min: u64,
    /// Bit pattern of the greatest value.
    pub y_max: u64,
    /// The run that waits for values, if any.
    pub pending: Option<Evaluation>,
}

impl Graph {
    /// The points of the dataset.
    pub open spec fn points(&self) -> Seq<SamplePoint> {
        self.coordinate_vector@
    }

    /// The bounds of the dataset.
    pub open spec fn bounds(&self) -> AxisBounds {
        AxisBounds { x_min: self.x_min, x_max: self.x_max, y_min: self.y_min, y_max: self.y_max }
    }

    /// The state of a new graph: no points, all bounds zero, no run.
    pub open spec fn is_default(&self) -> bool {
        &&& self.points() == Seq::<SamplePoint>::empty()
        &&& self.bounds() == AxisBounds { x_min: 0, x_max: 0, y_min: 0, y_max: 0 }
        &&& self.pending is None
    }

    /// Whether both graphs hold the same dataset.
    pub open spec fn same_dataset(&self, other: &Graph) -> bool {
        self.points() == other.points() && self.bounds() == other.bounds()
    }

    /// Whether the dataset is `points` with the bounds they have over
    /// `interval`.
    pub open spec fn shows(&self, points: Seq<SamplePoint>, interval: DomainInterval) -> bool {
        self.points() == points && self.bounds() == bounds_of(points, interval)
    }

    /// Whether the dataset is what an evaluation over `interval` leaves: a
    /// point with a finite value at every integer of the interval, in
    /// ascending order, and the bounds of these points.
    pub open spec fn covers(&self, interval: DomainInterval) -> bool {
        &&& samples_of(self.points(), interval)
        &&& self.points().len() == interval.count()
        &&& self.bounds() == bounds_of(self.points(), interval)
    }

    /// What holds of the dataset at all times, unless its fields are
    /// written from outside: it is empty with all bounds zero, as at
    /// startup, or it covers an interval.
    pub open spec fn is_sound(&self) -> bool {
        ||| self.points().len() == 0 && self.bounds() == AxisBounds {
            x_min: 0,
            x_max: 0,
            y_min: 0,
            y_max: 0,
        }
        ||| exists|interval: DomainInterval| #[trigger] self.covers(interval)
    }

    /// Whether a run over `interval` waits with the points `collected`.
    pub open spec fn waits_with(
        &self,
        expression: CompiledExpression,
        interval: DomainInterval,
        collected: Seq<SamplePoint>,
    ) -> bool {
        &&& self.pending matches Some(run)
        &&& run.expression == expression
        &&& run.sampler.interval() == interval
        &&& run.sampler.collected() == collected
    }

    /// The answer when a run is to start, given what compiling the
    /// expression gave and the domain text.
    ///
    /// An error of the compiler comes first, then one of the domain. Over
    /// an empty domain the run is complete at once. Otherwise the value
    /// at the start of the domain is wanted.
    pub open spec fn begin_result(
        compiled: Result<CompiledExpression, PipelineError>,
        domain: Seq<char>,
    ) -> Result<Progress, PipelineError> {
        match compiled {
            Err(e) => Err(e),
            Ok(_) => match admitted_domain(domain) {
                Err(e) => Err(e),
                Ok(interval) => if interval.count() == 0 {
                    Ok(Progress::Done)
                } else {
                    Ok(Progress::Wanted(interval.start))
                },
            },
        }
    }

    /// How a run starts from the graph `before`, given what compiling the
    /// expression gave and the domain text.
    ///
    /// An error ends the run at once and leaves the dataset alone. Over an
    /// empty domain the dataset is replaced by one with no points. Else a
    /// run waits for its first value, and the dataset stays until the last
    /// has come.
    pub open spec fn begin_outcome(
        before: Graph,
        compiled: Result<CompiledExpression, PipelineError>,
        domain: Seq<char>,
        after: Graph,
        r: Result<Progress, PipelineError>,
    ) -> bool {
        &&& r == Graph::begin_result(compiled, domain)
        &&& match (compiled, admitted_domain(domain)) {
            (Ok(expression), Ok(interval)) => if interval.count() == 0 {
                after.shows(Seq::empty(), interval) && after.pending is None
            } else {
                after.same_dataset(&before) && after.waits_with(
                    expression,
                    interval,
                    Seq::empty(),
                )
            },
            _ => after.same_dataset(&before) && after.pending is None,
        }
    }

    /// The answer to the value `y`, given the graph `before`.
    ///
    /// With no run waiting nothing is wanted. A value that is not finite
    /// is an `EvaluationError`. After a finite value the next integer of
    /// the domain is wanted, until there is none left.
    pub open spec fn supply_result(before: Graph, y: u64) -> Result<Progress, PipelineError> {
        match before.pending {
            None => Ok(Progress::Done),
            Some(run) => match run.sampler.wanted() {
                None => Ok(Progress::Done),
                Some(x) => if !is_finite_bits(y) {
                    Err(PipelineError::EvaluationError)
                } else if run.sampler.collected().len() + 1 < run.sampler.interval().count() {
                    Ok(Progress::Wanted((x + 1) as i64))
                } else {
                    Ok(Progress::Done)
                },
            },
        }
    }

    /// How the value `y` moves the graph `before` on.
    ///
    /// With no run waiting, nothing happens. A value that is not finite
    /// ends the run and leaves the dataset alone. A finite value becomes
    /// the next point; if it was the last one wanted the points replace
    /// the dataset, else the run waits on.
    pub open spec fn supply_outcome(
        before: Graph,
        y: u64,
        after: Graph,
        r: Result<Progress, PipelineError>,
    ) -> bool {
        &&& r == Graph::supply_result(before, y)
        &&& match before.pending {
            None => after.same_dataset(&before) && after.pending is None,
            Some(run) => {
                let interval = run.sampler.interval();
                let had = run.sampler.collected();
                if run.sampler.wanted() is Some && !is_finite_bits(y) {
                    after.same_dataset(&before) && after.pending is None
                } else {
                    let now = match run.sampler.wanted() {
                        Some(x) => had.push((x, y)),
                        None => had,
                    };
                    if now.len() < interval.count() {
                        after.same_dataset(&before) && after.waits_with(
                            run.expression,
                            interval,
                            now,
                        )
                    } else {
                        &&& after.shows(now, interval)
                        &&& after.pending is None
                        &&& samples_of(now, interval)
                        &&& now.len() == interval.count()
                    }
                }
            },
        }
    }

    /// The answer when the expression text `expr` is to be evaluated over
    /// the domain text `domain`.
    pub open spec fn eval_result(expr: Seq<char>, domain: Seq<char>) -> Result<
        Progress,
        PipelineError,
    > {
        Graph::begin_result(compiled(expr), domain)
    }

    /// What evaluating the expression text `expr` over the domain text
    /// `domain` does to the graph `before`: a run starts as
    /// [`Graph::begin_outcome`] says, from what `expr` compiles to.
    pub open spec fn eval_outcome(
        before: Graph,
        expr: Seq<char>,
        domain: Seq<char>,
        after: Graph,
        r: Result<Progress, PipelineError>,
    ) -> bool {
        Graph::begin_outcome(before, compiled(expr), domain, after, r)
    }

    /// A graph with no points, all bounds zero, and no run.
    pub fn new() -> (graph: Self)
        ensures
            graph.is_default(),
            graph.is_sound(),
    {
        Self { coordinate_vector: Vec::new(), x_min: 0, x_max: 0, y_min: 0, y_max: 0, pending: None }
    }

    /// Empties the graph: whatever it held, it is as new afterwards.
    pub fn reset(&mut self)
        ensures
            final(self).is_default(),
            final(self).is_sound(),
    {
        self.coordinate_vector = Vec::new();
        self.x_min = 0;
        self.x_max = 0;
        self.y_min = 0;
        self.y_max = 0;
        self.pending = None;
    }

    /// The integer at which the run in progress wants a value.
    pub fn wanted(&self) -> (r: Option<i64>)
        ensures
            r == match self.pending {
                Some(run) => run.sampler.wanted(),
                None => None,
            },
    {
        match &self.pending {
            Some(run) => run.sampler.next_x(),
            None => None,
        }
    }

    /// The expression of the run in progress, for whoever computes the
    /// values.
    pub fn expression(&self) -> (r: Option<&meval::Expr>)
        ensures
            r == match self.pending {
                Some(run) => Some(&run.expression.expr),
                None => None,
            },
    {
        match &self.pending {
            Some(run) => Some(&run.expression.expr),
            None => None,
        }
    }

    /// Replaces the dataset by the points of `sampler`.
    fn install(&mut self, sampler: Sampler)
        ensures
            final(self).shows(sampler.collected(), sampler.interval()),
            final(self).pending == old(self).pending,
            samples_of(sampler.collected(), sampler.interval()),
            sampler.wanted() is None ==> sampler.collected().len() == sampler.interval().count(),
    {
        let (interval, points) = sampler.finish();
        let b = axis_bounds(&points, interval);
        self.coordinate_vector = points;
        self.x_min = b.x_min;
        self.x_max = b.x_max;
        self.y_min = b.y_min;
        self.y_max = b.y_max;
    }

    /// Starts a run from an expression that the compiler has seen.
    ///
    /// A run that was waiting is abandoned.
    pub fn begin(&mut self, compiled: Result<CompiledExpression, PipelineError>, domain: &str) -> (r:
        Result<Progress, PipelineError>)
        ensures
            Graph::begin_outcome(*old(self), compiled, domain@, *final(self), r),
    {
        self.pending = None;
        let expression = match compiled {
            Ok(expression) => expression,
            Err(e) => {
                return Err(e);
            },
        };
        let interval = match parse_domain(domain) {
            Ok(interval) => interval,
            Err(e) => {
                return Err(e);
            },
        };
        let sampler = match Sampler::new(interval) {
            Ok(sampler) => sampler,
            Err(e) => {
                return Err(e);
            },
        };
        match sampler.next_x() {
            Some(x) => {
                self.pending = Some(Evaluation { expression, sampler });
                Ok(Progress::Wanted(x))
            },
            None => {
                self.install(sampler);
                Ok(Progress::Done)
            },
        }
    }

    /// Compiles `expr`, reads `domain`, and starts a run.
    pub fn eval_expr(&mut self, expr: &String, domain: &String) -> (r: Result<
        Progress,
        PipelineError,
    >)
        ensures
            Graph::eval_outcome(*old(self), expr@, domain@, *final(self), r),
    {
        self.begin(compile(expr.as_str()), domain.as_str())
    }

    /// Hands the run the value that it wanted.
    pub fn supply(&mut self, y: u64) -> (r: Result<Progress, PipelineError>)
        ensures
            Graph::supply_outcome(*old(self), y, *final(self), r),
    {
        match self.pending.take() {
            None => Ok(Progress::Done),
            Some(run) => {
                let Evaluation { expression, sampler } = run;
                match sampler.accept(y) {
                    Err(e) => Err(e),
                    Ok(next) => match next.next_x() {
                        Some(x) => {
                            self.pending = Some(Evaluation { expression, sampler: next });
                            Ok(Progress::Wanted(x))
                        },
                        None => {
                            self.install(next);
                            Ok(Progress::Done)
                        },
                    },
                }
            },
        }
    }

    /// Reacts to a key: Enter evaluates `expr` over `domain`, and any other
    /// key does nothing. Says whether a run started: whether the key was
    /// Enter, the expression compiled, and the domain was admitted.
    pub fn event(&mut self, key: Key, expr: &String, domain: &String) -> (started: bool)
        ensures
            key != Key::Enter ==> !started && *final(self) == *old(self),
            key == Key::Enter ==> started == Graph::eval_result(expr@, domain@) is Ok
                && Graph::eval_outcome(
                *old(self),
                expr@,
                domain@,
                *final(self),
                Graph::eval_result(expr@, domain@),
            ),
    {
        match key {
            Key::Enter => self.eval_expr(expr, domain).is_ok(),
            _ => false,
        }
    }
}

/// A graph with the same dataset as a sound one is sound.
proof fn lemma_same_dataset_is_sound(before: Graph, after: Graph)
    requires
        before.is_sound(),
        after.same_dataset(&before),
    ensures
        after.is_sound(),
{
    if !(before.points().len() == 0 && before.bounds() == (AxisBounds {
        x_min: 0,
        x_max: 0,
        y_min: 0,
        y_max: 0,
    })) {
        let interval = choose|interval: DomainInterval| #[trigger] before.covers(interval);
        assert(after.covers(interval));
    }
}

/// Starting a run keeps the dataset sound.
pub proof fn lemma_begin_keeps_dataset_sound(
    before: Graph,
    compiled: Result<CompiledExpression, PipelineError>,
    domain: Seq<char>,
    after: Graph,
    r: Result<Progress, PipelineError>,
)
    requires
        before.is_sound(),
        Graph::begin_outcome(before, compiled, domain, after, r),
    ensures
        after.is_sound(),
{
    if after.same_dataset(&before) {
        lemma_same_dataset_is_sound(before, after);
    } else {
        let interval = admitted_domain(domain)->Ok_0;
        assert(after.covers(interval));
    }
}

/// Evaluating keeps the dataset sound, whatever the texts.
pub proof fn lemma_eval_keeps_dataset_sound(
    before: Graph,
    expr: Seq<char>,
    domain: Seq<char>,
    after: Graph,
    r: Result<Progress, PipelineError>,
)
    requires
        before.is_sound(),
        Graph::eval_outcome(before, expr, domain, after, r),
    ensures
        after.is_sound(),
{
    lemma_begin_keeps_dataset_sound(before, compiled(expr), domain, after, r);
}

/// A value keeps the dataset sound, whatever the value.
pub proof fn lemma_supply_keeps_dataset_sound(
    before: Graph,
    y: u64,
    after: Graph,
    r: Result<Progress, PipelineError>,
)
    requires
        before.is_sound(),
        Graph::supply_outcome(before, y, after, r),
    ensures
        after.is_sound(),
{
    if after.same_dataset(&before) {
        lemma_same_dataset_is_sound(before, after);
    } else {
        let interval = before.pending->0.sampler.interval();
        assert(after.covers(interval));
    }
}

/// The points that the values `ys` make over a domain that starts at
/// `start`: the `i`-th value lies at `start + i`.
pub open spec fn points_over(start: i64, ys: Seq<u64>) -> Seq<SamplePoint> {
    Seq::new(ys.len(), |i: int| ((start + i) as i64, ys[i]))
}

/// Whether every value of `ys` is finite.
pub open spec fn all_finite(ys: Seq<u64>) -> bool {
    forall|i: int| 0 <= i < ys.len() ==> is_finite_bits(#[trigger] ys[i])
}

/// A whole run, step by step. From the graph `before` the expression text
/// `expr` is evaluated over the domain text `domain`, which leaves
/// `graphs[0]` and is answered with `answers[0]`; then one value of `ys`
/// after the other is handed in, and the `i`-th leaves `graphs[i + 1]` and
/// is answered with `answers[i + 1]`.
pub open spec fn is_run(
    before: Graph,
    expr: Seq<char>,
    domain: Seq<char>,
    ys: Seq<u64>,
    graphs: Seq<Graph>,
    answers: Seq<Result<Progress, PipelineError>>,
) -> bool {
    &&& graphs.len() == ys.len() + 1
    &&& answers.len() == ys.len() + 1
    &&& Graph::eval_outcome(before, expr, domain, graphs[0], answers[0])
    &&& forall|i: int|
        0 <= i < ys.len() ==> Graph::supply_outcome(
            graphs[i],
            #[trigger] ys[i],
            graphs[i + 1],
            answers[i + 1],
        )
}

/// While values are still to come, the run waits with the points of the
/// values that have come.
proof fn lemma_run_waits(
    before: Graph,
    expr: Seq<char>,
    domain: Seq<char>,
    interval: DomainInterval,
    ys: Seq<u64>,
    graphs: Seq<Graph>,
    answers: Seq<Result<Progress, PipelineError>>,
    k: int,
)
    requires
        compiled(expr) is Ok,
        admitted_domain(domain) == Ok::<DomainInterval, PipelineError>(interval),
        ys.len() == interval.count(),
        all_finite(ys),
        is_run(before, expr, domain, ys, graphs, answers),
        0 <= k < ys.len(),
    ensures
        graphs[k].waits_with(
            compiled(expr)->Ok_0,
            interval,
            points_over(interval.start, ys.subrange(0, k)),
        ),
    decreases k,
{
    if k == 0 {
        assert(points_over(interval.start, ys.subrange(0, 0)) =~= Seq::<SamplePoint>::empty());
    } else {
        lemma_run_waits(before, expr, domain, interval, ys, graphs, answers, k - 1);
        let i = k - 1;
        assert(Graph::supply_outcome(graphs[i], ys[i], graphs[i + 1], answers[i + 1]));
        let had = points_over(interval.start, ys.subrange(0, i));
        assert(had.push(((interval.start + i) as i64, ys[i])) =~= points_over(
            interval.start,
            ys.subrange(0, k),
        ));
    }
}

/// A run over a whole domain leaves the dataset of that domain.
///
/// Let the expression compile, let the domain text denote the interval
/// from `a` to `b` with no more integers than a run may sample, and let a
/// finite value be handed in for each of them. Then the last answer is
/// `Done` and no run waits any more. The dataset holds one point for each
/// integer, `b - a + 1` of them where `a <= b`, the `i`-th at `a + i` with
/// the `i`-th value, so that `x` ascends strictly. Its horizontal bounds
/// are `a` and `b`, also where `a > b`. Its vertical bounds are values
/// that were handed in, no value lies below the one or above the other,
/// and with no value both are positive zero.
pub proof fn lemma_run_fills_dataset(
    before: Graph,
    expr: Seq<char>,
    domain: Seq<char>,
    interval: DomainInterval,
    ys: Seq<u64>,
    graphs: Seq<Graph>,
    answers: Seq<Result<Progress, PipelineError>>,
)
    requires
        compiled(expr) is Ok,
        admitted_domain(domain) == Ok::<DomainInterval, PipelineError>(interval),
        ys.len() == interval.count(),
        all_finite(ys),
        is_run(before, expr, domain, ys, graphs, answers),
    ensures
        answers.last() == Ok::<Progress, PipelineError>(Progress::Done),
        graphs.last().pending is None,
        graphs.last().points() == points_over(interval.start, ys),
        interval.start <= interval.end ==> graphs.last().points().len() == interval.end
            - interval.start + 1,
        forall|i: int, j: int|
            0 <= i < j < ys.len() ==> (#[trigger] graphs.last().points()[i]).0 < (
            #[trigger] graphs.last().points()[j]).0,
        graphs.last().x_min == interval.start,
        graphs.last().x_max == interval.end,
        forall|i: int|
            0 <= i < ys.len() ==> order_key(graphs.last().y_min) <= order_key(#[trigger] ys[i])
                <= order_key(graphs.last().y_max),
        ys.len() > 0 ==> ys.contains(graphs.last().y_min) && ys.contains(graphs.last().y_max),
        ys.len() == 0 ==> graphs.last().y_min == ZERO && graphs.last().y_max == ZERO,
        graphs.last().covers(interval),
{
    let n = ys.len() as int;
    let whole = points_over(interval.start, ys);
    if n == 0 {
        assert(whole =~= Seq::<SamplePoint>::empty());
    } else {
        let i = n - 1;
        lemma_run_waits(before, expr, domain, interval, ys, graphs, answers, i);
        assert(Graph::supply_outcome(graphs[i], ys[i], graphs[i + 1], answers[i + 1]));
        let had = points_over(interval.start, ys.subrange(0, i));
        assert(had.push(((interval.start + i) as i64, ys[i])) =~= whole);
    }
    assert(graphs.last().shows(whole, interval));
    assert(ordinates(whole) =~= ys);
    lemma_bounds_enclose(ys);
}

} // verus!
