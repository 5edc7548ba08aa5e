//! Fan-out engine: one request sent to several backends concurrently, all
//! responses collected.
//!
//! The caller runs the calls (at most `permits(concurrency)` at a time) and
//! hands their outcomes to `gather` in the order they completed. Individual
//! failures are skipped; the run fails only when every backend failed.

use crate::backends::ChatResponse;
use crate::error::{Result, WeirError};
use crate::text::{join, join_strings, lemma_views_push, views};
use vstd::prelude::*;
use vstd::string::*;

verus! {

/// How one concurrent call ended.
pub enum BranchOutcome {
    /// The call to `backend` returned `result`.
    Completed { backend: String, result: Result<ChatResponse> },
    /// The task running the call panicked; the text describes the panic.
    Panicked(String),
}

/// The responses among `outs`, in order.
pub open spec fn successes(outs: Seq<BranchOutcome>) -> Seq<ChatResponse>
    decreases outs.len(),
{
    if outs.len() == 0 {
        Seq::empty()
    } else {
        let rest = successes(outs.drop_last());
        match outs.last() {
            BranchOutcome::Completed { result: Ok(r), .. } => rest.push(r),
            _ => rest,
        }
    }
}

/// The failure descriptions among `outs`, in order: "<backend>: <error>" for
/// a failed call, "task panic: <detail>" for a panicked task.
pub open spec fn failures(outs: Seq<BranchOutcome>) -> Seq<Seq<char>>
    decreases outs.len(),
{
    if outs.len() == 0 {
        Seq::empty()
    } else {
        let rest = failures(outs.drop_last());
        match outs.last() {
            BranchOutcome::Completed { backend, result: Err(e) } => rest.push(
                backend@ + ": "@ + e.message_spec(),
            ),
            BranchOutcome::Panicked(d) => rest.push("task panic: "@ + d@),
            _ => rest,
        }
    }
}

/// Refuses a fan-out over no backends.
pub fn check_backends(count: usize) -> (r: Result<()>)
    ensures
        count == 0 ==> (r matches Err(WeirError::Backend(m)) && m@
            == "fan-out: no backends provided"@),
        count > 0 ==> r is Ok,
{
    if count == 0 {
        return Err(WeirError::Backend(String::from_str("fan-out: no backends provided")));
    }
    Ok(())
}

/// The number of calls allowed in flight: `concurrency`, and at least one.
pub fn permits(concurrency: usize) -> (n: usize)
    ensures
        n == if concurrency == 0 { 1 } else { concurrency },
{
    if concurrency == 0 {
        1
    } else {
        concurrency
    }
}

/// Collects the outcomes of the calls: the responses in the order given, or,
/// when there is none, a backend error listing every failure.
pub fn gather(outcomes: Vec<BranchOutcome>) -> (r: Result<Vec<ChatResponse>>)
    ensures
        successes(outcomes@).len() > 0 ==> (r matches Ok(v) && v@ == successes(outcomes@)),
        successes(outcomes@).len() == 0 ==> (r matches Err(WeirError::Backend(m)) && m@
            == "fan-out: all backends failed — "@ + join(failures(outcomes@), "; "@)),
{
    let ghost all = outcomes@;
    let mut responses: Vec<ChatResponse> = Vec::new();
    let mut errors: Vec<String> = Vec::new();
    for o in it: outcomes
        invariant
            it.seq() == all,
            responses@ == successes(all.take(it.index() as int)),
            views(errors@) == failures(all.take(it.index() as int)),
    {
        let ghost k = it.index() as int;
        assert(all.take(k + 1).drop_last() =~= all.take(k));
        assert(all.take(k + 1).last() == o);
        match o {
            BranchOutcome::Completed { backend, result } => match result {
                Ok(resp) => {
                    responses.push(resp);
                },
                Err(e) => {
                    let mut t = backend;
                    t.append(": ");
                    let d = e.message();
                    t.append(d.as_str());
                    let ghost before = errors@;
                    errors.push(t);
                    proof {
                        lemma_views_push(before, t);
                    }
                },
            },
            BranchOutcome::Panicked(d) => {
                let mut t = String::from_str("task panic: ");
                t.append(d.as_str());
                let ghost before = errors@;
                errors.push(t);
                proof {
                    lemma_views_push(before, t);
                }
            },
        }
    }
    assert(all.take(all.len() as int) =~= all);
    if responses.len() == 0 {
        let mut m = String::from_str("fan-out: all backends failed — ");
        let joined = join_strings(&errors, "; ");
        m.append(joined.as_str());
        return Err(WeirError::Backend(m));
    }
    Ok(responses)
}

} // verus!
