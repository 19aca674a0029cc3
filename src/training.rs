//! Decisions of the batch Perceptron Learning Algorithm: which passes run,
//! when a run stops, and which training inputs are refused up front. The
//! arithmetic of each pass is done by the caller, which reports back whether
//! every accumulated delta of the pass was exactly zero.
use vstd::prelude::*;

verus! {

/// The iteration at which a training run stopped.
#[derive(Debug, Clone, Copy, PartialEq, Eq, Structural)]
pub struct FitResult {
    pub iteration: usize,
}

/// Why a training run was refused before its first pass.
#[derive(Debug, Clone, Copy, PartialEq, Eq, Structural)]
pub enum TrainingError {
    /// No sample was given: the averaged update would divide by zero.
    EmptySampleSet,
    /// Sample `sample` has `len` features where the model has `expected` weights.
    InputLength { sample: usize, expected: usize, len: usize },
}

/// Checks the inputs of a training run, given the model's weight count and
/// the feature count of each sample in order: the sample set must not be
/// empty, and the first sample whose feature count differs from the weight
/// count is reported.
pub fn check_training_input(weight_count: usize, input_lengths: &Vec<usize>) -> (r: Result<(), TrainingError>)
    ensures
        input_lengths@.len() == 0 ==> r == Err::<(), TrainingError>(TrainingError::EmptySampleSet),
        input_lengths@.len() > 0 ==> !(r matches Err(TrainingError::EmptySampleSet)),
        input_lengths@.len() > 0 ==> (r is Ok <==> forall|i: int|
            0 <= i < input_lengths@.len() ==> #[trigger] input_lengths@[i] == weight_count),
        r matches Err(TrainingError::InputLength { sample, expected, len }) ==> {
            &&& sample < input_lengths@.len()
            &&& expected == weight_count
            &&& len == input_lengths@[sample as int]
            &&& len != weight_count
            &&& forall|j: int| 0 <= j < sample ==> #[trigger] input_lengths@[j] == weight_count
        },
{
    if input_lengths.len() == 0 {
        return Err(TrainingError::EmptySampleSet);
    }
    let mut i: usize = 0;
    while i < input_lengths.len()
        invariant
            0 <= i <= input_lengths@.len(),
            forall|j: int| 0 <= j < i ==> #[trigger] input_lengths@[j] == weight_count,
        decreases input_lengths@.len() - i,
    {
        if input_lengths[i] != weight_count {
            return Err(TrainingError::InputLength { sample: i, expected: weight_count, len: input_lengths[i] });
        }
        i += 1;
    }
    Ok(())
}

/// A history of passes is one that a run bounded by `max_iteration` can have
/// gone through: pass `i + 1` ran only while `i + 1 < max_iteration`, and only
/// the last pass may have converged.
pub open spec fn valid_history(max_iteration: nat, converged: Seq<bool>) -> bool {
    &&& converged.len() == 0 || converged.len() < max_iteration
    &&& forall|i: int| 0 <= i < converged.len() - 1 ==> !#[trigger] converged[i]
}

/// A run is over once its last pass converged or no further pass is allowed.
pub open spec fn run_over(max_iteration: nat, converged: Seq<bool>) -> bool {
    (converged.len() > 0 && converged.last()) || converged.len() + 1 >= max_iteration
}

/// The iteration reported by a finished run: the index of the pass that
/// converged, or `max_iteration` when none did.
pub open spec fn stop_iteration(max_iteration: nat, converged: Seq<bool>) -> nat {
    if converged.len() > 0 && converged.last() {
        converged.len()
    } else {
        max_iteration
    }
}

/// Keeps count of the passes of one training run.
pub struct PlaSchedule {
    max_iteration: usize,
    passes: usize,
    converged: bool,
    history: Ghost<Seq<bool>>,
}

impl PlaSchedule {
    /// The bound the run was started with.
    pub closed spec fn max_iteration_spec(&self) -> nat {
        self.max_iteration as nat
    }

    /// Whether each completed pass converged, in order.
    pub closed spec fn history(&self) -> Seq<bool> {
        self.history@
    }

    pub closed spec fn wf(&self) -> bool {
        &&& self.passes == self.history@.len()
        &&& self.converged == (self.history@.len() > 0 && self.history@.last())
        &&& valid_history(self.max_iteration as nat, self.history@)
    }

    /// A run that will make at most `max_iteration - 1` passes.
    pub fn new(max_iteration: usize) -> (r: PlaSchedule)
        ensures
            r.wf(),
            r.max_iteration_spec() == max_iteration,
            r.history() == Seq::<bool>::empty(),
    {
        PlaSchedule { max_iteration, passes: 0, converged: false, history: Ghost(Seq::empty()) }
    }

    /// The iteration index of the next pass to run, or `None` when the run
    /// is over.
    pub fn next_pass(&self) -> (r: Option<usize>)
        requires
            self.wf(),
        ensures
            r is None <==> run_over(self.max_iteration_spec(), self.history()),
            r matches Some(it) ==> it == self.history().len() + 1,
    {
        if self.converged || self.max_iteration == 0 || self.passes + 1 >= self.max_iteration {
            None
        } else {
            Some(self.passes + 1)
        }
    }

    /// Records the outcome of the pass that `next_pass` announced: whether
    /// every accumulated delta was exactly zero.
    pub fn end_pass(&mut self, all_deltas_zero: bool)
        requires
            old(self).wf(),
            !run_over(old(self).max_iteration_spec(), old(self).history()),
        ensures
            final(self).wf(),
            final(self).max_iteration_spec() == old(self).max_iteration_spec(),
            final(self).history() == old(self).history().push(all_deltas_zero),
    {
        self.passes = self.passes + 1;
        self.converged = all_deltas_zero;
        self.history = Ghost(self.history@.push(all_deltas_zero));
    }

    /// The result of a finished run.
    pub fn result(&self) -> (r: FitResult)
        requires
            self.wf(),
            run_over(self.max_iteration_spec(), self.history()),
        ensures
            r.iteration == stop_iteration(self.max_iteration_spec(), self.history()),
            r.iteration <= self.max_iteration_spec(),
    {
        if self.converged {
            FitResult { iteration: self.passes }
        } else {
            FitResult { iteration: self.max_iteration }
        }
    }
}

/// Whatever the outcome of each pass, a run bounded by `max_iteration` never
/// reports an iteration greater than `max_iteration`, and one that converged
/// reports an iteration below it.
pub proof fn lemma_stop_within_bound(max_iteration: nat, converged: Seq<bool>)
    requires
        valid_history(max_iteration, converged),
    ensures
        stop_iteration(max_iteration, converged) <= max_iteration,
        converged.len() > 0 && converged.last() ==> stop_iteration(max_iteration, converged) < max_iteration,
{
}


/// Two finished runs with the same bound whose passes had the same outcomes
/// stop at the same iteration: the schedule adds nothing of its own.
pub proof fn lemma_same_outcomes_same_stop(a: PlaSchedule, b: PlaSchedule)
    requires
        a.wf(),
        b.wf(),
        run_over(a.max_iteration_spec(), a.history()),
        a.max_iteration_spec() == b.max_iteration_spec(),
        a.history() == b.history(),
    ensures
        run_over(b.max_iteration_spec(), b.history()),
        stop_iteration(a.max_iteration_spec(), a.history())
            == stop_iteration(b.max_iteration_spec(), b.history()),
{
}

} // verus!
