use vstd::prelude::*;
use crate::models::{BatchFailure, BatchResult, HiddenItem};
use crate::paths::{deduplicate_paths, spec_deduplicate_paths, strings_view, MAX_BATCH};

verus! {

broadcast use vstd::string::group_string_axioms;

pub const BATCH_PATH: &'static str = "<batch>";
pub const MSG_BATCH_TOO_LARGE: &'static str = "单次最多处理 256 个项目";

/// An empty batch result.
pub fn empty_batch_result() -> (r: BatchResult)
    ensures
        r.succeeded@ == Seq::<HiddenItem>::empty(),
        r.failed@ == Seq::<BatchFailure>::empty(),
{
    BatchResult { succeeded: Vec::new(), failed: Vec::new() }
}

/// The paths that a batch lock works through, or, when more than
/// `MAX_BATCH` paths are given, the result that refuses the whole batch
/// with one failure.
pub fn plan_batch(paths: Vec<String>) -> (r: Result<Vec<String>, BatchResult>)
    ensures
        paths@.len() > MAX_BATCH ==> ({
            &&& r matches Err(b)
            &&& b.succeeded@.len() == 0
            &&& b.failed@.len() == 1
            &&& b.failed@[0].path@ == BATCH_PATH@
            &&& b.failed@[0].error@ == MSG_BATCH_TOO_LARGE@
        }),
        paths@.len() <= MAX_BATCH ==> ({
            &&& r matches Ok(v)
            &&& strings_view(v@) == spec_deduplicate_paths(strings_view(paths@))
        }),
{
    if paths.len() > MAX_BATCH {
        let mut result = empty_batch_result();
        result.failed.push(
            BatchFailure { path: String::from_str(BATCH_PATH), error: String::from_str(MSG_BATCH_TOO_LARGE) },
        );
        return Err(result);
    }
    Ok(deduplicate_paths(paths))
}

/// Records what came of one path of a batch.
pub fn record_outcome(result: &mut BatchResult, path: String, outcome: Result<HiddenItem, String>)
    ensures
        match outcome {
            Ok(item) => final(result).succeeded@ == old(result).succeeded@.push(item) && final(result).failed
                == old(result).failed,
            Err(error) => final(result).failed@ == old(result).failed@.push(BatchFailure { path, error })
                && final(result).succeeded == old(result).succeeded,
        },
{
    match outcome {
        Ok(item) => result.succeeded.push(item),
        Err(error) => result.failed.push(BatchFailure { path, error }),
    }
}

/// What a batch gives for the outcomes of its first `outcomes.len()` paths:
/// the locked items in the order of their paths, and a failure (the path
/// and its error) for each path that could not be locked, in order too.
pub open spec fn spec_batch_result(paths: Seq<String>, outcomes: Seq<Result<HiddenItem, String>>) -> (
    Seq<HiddenItem>,
    Seq<BatchFailure>,
)
    decreases outcomes.len(),
{
    if outcomes.len() == 0 {
        (Seq::empty(), Seq::empty())
    } else {
        let before = spec_batch_result(paths, outcomes.drop_last());
        match outcomes.last() {
            Ok(item) => (before.0.push(item), before.1),
            Err(error) => (before.0, before.1.push(BatchFailure { path: paths[outcomes.len() - 1], error })),
        }
    }
}

/// A batch lock under way: its planned paths, the kind asked for (`None`
/// when each path's own kind decides), how many paths are done, and the
/// result so far.
pub struct BatchRun {
    pub paths: Vec<String>,
    pub expected_directory: Option<bool>,
    pub next: usize,
    pub result: BatchResult,
    /// The outcome of each path done so far, in order.
    pub outcomes: Ghost<Seq<Result<HiddenItem, String>>>,
}

impl BatchRun {
    /// The result holds exactly the outcomes of the paths done so far.
    pub open spec fn wf(&self) -> bool {
        &&& self.next <= self.paths@.len()
        &&& self.outcomes@.len() == self.next
        &&& self.result.succeeded@ == spec_batch_result(self.paths@, self.outcomes@).0
        &&& self.result.failed@ == spec_batch_result(self.paths@, self.outcomes@).1
    }

    /// Plans a batch lock of `paths` (see [`plan_batch`]); a refused batch
    /// gives its result at once.
    pub fn start(paths: Vec<String>, expected_directory: Option<bool>) -> (r: Result<BatchRun, BatchResult>)
        ensures
            paths@.len() > MAX_BATCH ==> ({
                &&& r matches Err(b)
                &&& b.succeeded@.len() == 0
                &&& b.failed@.len() == 1
                &&& b.failed@[0].path@ == BATCH_PATH@
                &&& b.failed@[0].error@ == MSG_BATCH_TOO_LARGE@
            }),
            paths@.len() <= MAX_BATCH ==> ({
                &&& r matches Ok(run)
                &&& run.wf()
                &&& run.next == 0
                &&& run.expected_directory == expected_directory
                &&& strings_view(run.paths@) == spec_deduplicate_paths(strings_view(paths@))
            }),
    {
        match plan_batch(paths) {
            Err(refused) => Err(refused),
            Ok(planned) => Ok(
                BatchRun {
                    paths: planned,
                    expected_directory,
                    next: 0,
                    result: empty_batch_result(),
                    outcomes: Ghost(Seq::empty()),
                },
            ),
        }
    }

    /// The next path to lock, with the kind asked for, or `None` when every
    /// path is done.
    pub fn next_target(&self) -> (r: Option<(String, Option<bool>)>)
        requires
            self.wf(),
        ensures
            self.next < self.paths@.len() ==> r == Some((self.paths@[self.next as int], self.expected_directory)),
            self.next >= self.paths@.len() ==> r is None,
    {
        if self.next < self.paths.len() {
            Some((self.paths[self.next].clone(), self.expected_directory))
        } else {
            None
        }
    }

    /// Records the outcome of the next path and moves past it.
    pub fn record(&mut self, outcome: Result<HiddenItem, String>)
        requires
            old(self).wf(),
            old(self).next < old(self).paths@.len(),
        ensures
            final(self).wf(),
            final(self).paths == old(self).paths,
            final(self).expected_directory == old(self).expected_directory,
            final(self).next == old(self).next + 1,
            final(self).outcomes@ == old(self).outcomes@.push(outcome),
    {
        let ghost outcomes = self.outcomes@.push(outcome);
        let path = self.paths[self.next].clone();
        let len = self.paths.len();
        assert(self.next < len);
        let next = self.next + 1;
        record_outcome(&mut self.result, path, outcome);
        self.next = next;
        self.outcomes = Ghost(outcomes);
        proof {
            assert(outcomes.drop_last() =~= old(self).outcomes@);
        }
    }

    /// The result of a finished batch.
    pub fn finish(self) -> (r: BatchResult)
        requires
            self.wf(),
            self.next == self.paths@.len(),
        ensures
            r.succeeded@ == spec_batch_result(self.paths@, self.outcomes@).0,
            r.failed@ == spec_batch_result(self.paths@, self.outcomes@).1,
    {
        self.result
    }
}

/// Every planned path of a batch is accounted for once: a finished batch
/// holds as many locked items and failures together as it had paths, each
/// failure names a planned path, and no path is reported twice.
pub proof fn lemma_batch_accounts_for_every_path(paths: Seq<String>, outcomes: Seq<Result<HiddenItem, String>>)
    requires
        outcomes.len() <= paths.len(),
    ensures
        spec_batch_result(paths, outcomes).0.len() + spec_batch_result(paths, outcomes).1.len() == outcomes.len(),
        forall|j: int|
            0 <= j < spec_batch_result(paths, outcomes).1.len() ==> exists|k: int|
                0 <= k < outcomes.len() && outcomes[k] is Err && #[trigger] spec_batch_result(
                    paths,
                    outcomes,
                ).1[j].path == paths[k],
    decreases outcomes.len(),
{
    if outcomes.len() > 0 {
        let prev = outcomes.drop_last();
        lemma_batch_accounts_for_every_path(paths, prev);
        let r = spec_batch_result(paths, outcomes);
        let b = spec_batch_result(paths, prev);
        assert forall|j: int| 0 <= j < r.1.len() implies exists|k: int|
            0 <= k < outcomes.len() && outcomes[k] is Err && #[trigger] r.1[j].path == paths[k] by {
            if j < b.1.len() {
                assert(r.1[j] == b.1[j]);
                let k = choose|k: int| 0 <= k < prev.len() && prev[k] is Err && #[trigger] b.1[j].path == paths[k];
                assert(outcomes[k] == prev[k]);
            } else {
                assert(outcomes[outcomes.len() - 1] is Err);
            }
        }
    }
}

} // verus!
