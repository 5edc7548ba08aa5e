//! Eval-loop engine: a generator produces a candidate, an evaluator judges it
//! against caller-supplied criteria, until the evaluator says `PASS` or the
//! iteration budget runs out.
//!
//! The evaluator's reply, trimmed and upper-cased, passes when it begins with
//! `PASS`. Otherwise the text after its first four bytes, trimmed, is the
//! reason, and the next generator prompt is the original prompt followed by
//! that feedback.

use crate::backends::{ChatRequest, ChatResponse};
use crate::error::{Result, WeirError};
use crate::text::{decimal, decimal_string, matches_at, skip_bytes, skip_bytes_str, starts_with_str, trim, trim_str};
use vstd::prelude::*;
use vstd::string::*;

verus! {

/// What `str::to_uppercase` maps a text to.
pub uninterp spec fn upper_case(s: Seq<char>) -> Seq<char>;

/// `str::to_uppercase`: the Unicode upper-case mapping of each character.
/// Of its result this states only the name above.
#[verifier::external_body]
fn to_uppercase(s: &str) -> (r: String)
    ensures
        r@ == upper_case(s@),
{
    s.to_uppercase()
}

/// The outcome of a finished eval-loop run.
#[derive(Debug, Clone)]
pub struct EvalResult {
    /// The last response the generator produced.
    pub response: ChatResponse,
    /// Generator and evaluator round trips that took place.
    pub iterations: u32,
    /// Whether the evaluator said `PASS` within the budget.
    pub passed: bool,
}

/// The evaluator's prompt for a candidate response.
pub open spec fn evaluation_prompt_spec(criteria: Seq<char>, response: Seq<char>) -> Seq<char> {
    "Evaluate this response against criteria.\nCriteria: "@ + criteria + "\nResponse: "@ + response
        + "\nReply with PASS or FAIL followed by brief reason."@
}

/// The generator's prompt after a rejection.
pub open spec fn feedback_prompt_spec(prompt: Seq<char>, reason: Seq<char>) -> Seq<char> {
    prompt + "\n\n[Previous attempt was rejected. Evaluator feedback: "@ + reason
        + ". Please revise your response accordingly.]"@
}

/// Whether an upper-cased verdict passes.
pub open spec fn passes(upper: Seq<char>) -> bool {
    matches_at(upper, "PASS"@, 0)
}

/// Whether an evaluator reply passes: its trimmed, upper-cased text begins with `PASS`.
pub open spec fn reply_passes(reply: Seq<char>) -> bool {
    passes(upper_case(trim(reply)))
}

/// Why a failing verdict failed: the text after its first four bytes,
/// trimmed, with a stock phrase when that is empty or absent.
pub open spec fn reason_spec(verdict: Seq<char>) -> Seq<char> {
    match skip_bytes(verdict, 4) {
        Some(rest) => if trim(rest).len() > 0 {
            trim(rest)
        } else {
            "no reason given"@
        },
        None => "no reason given"@,
    }
}

/// The evaluator's prompt for a candidate response.
pub fn evaluation_prompt(criteria: &str, response: &str) -> (r: String)
    ensures
        r@ == evaluation_prompt_spec(criteria@, response@),
{
    let mut r = String::from_str("Evaluate this response against criteria.\nCriteria: ");
    r.append(criteria);
    r.append("\nResponse: ");
    r.append(response);
    r.append("\nReply with PASS or FAIL followed by brief reason.");
    r
}

/// The generator's prompt after a rejection with `reason`.
pub fn feedback_prompt(prompt: &str, reason: &str) -> (r: String)
    ensures
        r@ == feedback_prompt_spec(prompt@, reason@),
{
    let mut r = String::from_str(prompt);
    r.append("\n\n[Previous attempt was rejected. Evaluator feedback: ");
    r.append(reason);
    r.append(". Please revise your response accordingly.]");
    r
}

/// Whether an upper-cased verdict passes: it begins with `PASS`.
pub fn verdict_passes(upper: &str) -> (b: bool)
    ensures
        b == passes(upper@),
{
    starts_with_str(upper, "PASS")
}

/// The reason a rejecting verdict gives.
pub fn rejection_reason(verdict: &str) -> (r: String)
    ensures
        r@ == reason_spec(verdict@),
{
    match skip_bytes_str(verdict, 4) {
        Some(rest) => {
            let t = trim_str(rest.as_str());
            if t.as_str().is_empty() {
                String::from_str("no reason given")
            } else {
                t
            }
        },
        None => String::from_str("no reason given"),
    }
}

/// What an eval loop asks of its caller next.
pub enum EvalAction {
    /// Send the request to the generator; hand the outcome to `on_generated`.
    Generate(ChatRequest),
    /// Send the request to the evaluator; hand the outcome to `on_evaluated`.
    Evaluate(ChatRequest),
    /// The run is over with this result.
    Finished(Result<EvalResult>),
}

/// An eval-loop run in progress.
pub struct EvalLoop {
    generator: String,
    evaluator: String,
    prompt: String,
    criteria: String,
    max_iterations: u32,
    /// The current round, counted from 1.
    iteration: u32,
    /// The generator's response awaiting a verdict.
    candidate: Option<ChatResponse>,
}

impl EvalLoop {
    pub closed spec fn generator_spec(&self) -> Seq<char> {
        self.generator@
    }

    pub closed spec fn evaluator_spec(&self) -> Seq<char> {
        self.evaluator@
    }

    pub closed spec fn prompt_spec(&self) -> Seq<char> {
        self.prompt@
    }

    pub closed spec fn criteria_spec(&self) -> Seq<char> {
        self.criteria@
    }

    pub closed spec fn max_spec(&self) -> nat {
        self.max_iterations as nat
    }

    /// The current round, counted from 1.
    pub closed spec fn round(&self) -> nat {
        self.iteration as nat
    }

    /// The candidate awaiting a verdict, if the evaluator's call is outstanding.
    pub closed spec fn candidate_spec(&self) -> Option<ChatResponse> {
        self.candidate
    }

    /// The generator's call is outstanding.
    pub open spec fn generating(&self) -> bool {
        1 <= self.round() <= self.max_spec() && self.candidate_spec() is None
    }

    /// The evaluator's call is outstanding.
    pub open spec fn evaluating(&self) -> bool {
        1 <= self.round() <= self.max_spec() && self.candidate_spec() is Some
    }

    /// Backend calls left at most before the run must end.
    pub open spec fn calls_left(&self) -> nat {
        let rest = (2 * (self.max_spec() - self.round())) as nat;
        if self.candidate_spec() is Some {
            rest + 1
        } else {
            rest + 2
        }
    }

    /// Starts an eval loop. The first generator request is the prompt itself.
    /// A budget of zero iterations ends the run at once with a backend error.
    pub fn start(generator: &str, evaluator: &str, prompt: &str, criteria: &str, max_iterations: u32) -> (r: (
        EvalLoop,
        EvalAction,
    ))
        ensures
            r.0.generator_spec() == generator@,
            r.0.evaluator_spec() == evaluator@,
            r.0.prompt_spec() == prompt@,
            r.0.criteria_spec() == criteria@,
            r.0.max_spec() == max_iterations,
            max_iterations == 0 ==> (r.1 matches EvalAction::Finished(Err(WeirError::Backend(m)))
                && m@ == "eval-loop: max_iterations must be at least 1"@),
            max_iterations > 0 ==> {
                &&& r.0.generating()
                &&& r.0.round() == 1
                &&& r.0.calls_left() == 2 * max_iterations
                &&& r.1 matches EvalAction::Generate(req) && req.is_single("user"@, prompt@)
            },
    {
        let run = EvalLoop {
            generator: String::from_str(generator),
            evaluator: String::from_str(evaluator),
            prompt: String::from_str(prompt),
            criteria: String::from_str(criteria),
            max_iterations,
            iteration: 1,
            candidate: None,
        };
        if max_iterations == 0 {
            let m = String::from_str("eval-loop: max_iterations must be at least 1");
            return (run, EvalAction::Finished(Err(WeirError::Backend(m))));
        }
        let req = ChatRequest::user(prompt);
        (run, EvalAction::Generate(req))
    }

    /// "eval-loop iter <i>: <role> (<name>): <error>"
    pub open spec fn failure_text(i: nat, role: Seq<char>, name: Seq<char>, e: WeirError) -> Seq<char> {
        "eval-loop iter "@ + decimal(i) + ": "@ + role + " ("@ + name + "): "@ + e.message_spec()
    }

    fn failure(&self, role: &str, name: &str, e: &WeirError) -> (r: WeirError)
        ensures
            r matches WeirError::Backend(m) && m@ == Self::failure_text(self.round(), role@, name@, *e),
    {
        let mut m = String::from_str("eval-loop iter ");
        let i = decimal_string(self.iteration as u64);
        m.append(i.as_str());
        m.append(": ");
        m.append(role);
        m.append(" (");
        m.append(name);
        m.append("): ");
        let detail = e.message();
        m.append(detail.as_str());
        WeirError::Backend(m)
    }

    /// Takes the generator's outcome. A failure ends the run; a response is
    /// sent to the evaluator with the criteria.
    pub fn on_generated(&mut self, outcome: Result<ChatResponse>) -> (a: EvalAction)
        requires
            old(self).generating(),
        ensures
            final(self).generator_spec() == old(self).generator_spec(),
            final(self).evaluator_spec() == old(self).evaluator_spec(),
            final(self).prompt_spec() == old(self).prompt_spec(),
            final(self).criteria_spec() == old(self).criteria_spec(),
            final(self).max_spec() == old(self).max_spec(),
            final(self).round() == old(self).round(),
            match outcome {
                Err(e) => a matches EvalAction::Finished(Err(WeirError::Backend(m)))
                    && m@ == Self::failure_text(old(self).round(), "generator"@, old(self).generator_spec(), e),
                Ok(resp) => {
                    &&& final(self).evaluating()
                    &&& final(self).candidate_spec() == Some(resp)
                    &&& final(self).calls_left() < old(self).calls_left()
                    &&& a matches EvalAction::Evaluate(req) && req.is_single(
                        "user"@,
                        evaluation_prompt_spec(old(self).criteria_spec(), resp.content@),
                    )
                },
            },
    {
        match outcome {
            Err(e) => {
                let err = self.failure("generator", self.generator.as_str(), &e);
                EvalAction::Finished(Err(err))
            },
            Ok(resp) => {
                let p = evaluation_prompt(self.criteria.as_str(), resp.content.as_str());
                self.candidate = Some(resp);
                EvalAction::Evaluate(ChatRequest::user(p.as_str()))
            },
        }
    }

    /// Takes the evaluator's outcome. A failure ends the run. A passing
    /// verdict ends it with the candidate, passed. A rejection in the last
    /// round ends it with the candidate, not passed; in an earlier one the
    /// generator is asked again with the original prompt and the reason.
    pub fn on_evaluated(&mut self, outcome: Result<ChatResponse>) -> (a: EvalAction)
        requires
            old(self).evaluating(),
        ensures
            final(self).generator_spec() == old(self).generator_spec(),
            final(self).evaluator_spec() == old(self).evaluator_spec(),
            final(self).prompt_spec() == old(self).prompt_spec(),
            final(self).criteria_spec() == old(self).criteria_spec(),
            final(self).max_spec() == old(self).max_spec(),
            match outcome {
                Err(e) => a matches EvalAction::Finished(Err(WeirError::Backend(m)))
                    && m@ == Self::failure_text(old(self).round(), "evaluator"@, old(self).evaluator_spec(), e),
                Ok(v) => if reply_passes(v.content@) {
                    a == EvalAction::Finished(Ok(EvalResult {
                        response: old(self).candidate_spec()->0,
                        iterations: old(self).round() as u32,
                        passed: true,
                    }))
                } else if old(self).round() == old(self).max_spec() {
                    a == EvalAction::Finished(Ok(EvalResult {
                        response: old(self).candidate_spec()->0,
                        iterations: old(self).max_spec() as u32,
                        passed: false,
                    }))
                } else {
                    &&& final(self).generating()
                    &&& final(self).round() == old(self).round() + 1
                    &&& final(self).calls_left() < old(self).calls_left()
                    &&& a matches EvalAction::Generate(req) && req.is_single(
                        "user"@,
                        feedback_prompt_spec(old(self).prompt_spec(), reason_spec(trim(v.content@))),
                    )
                },
            },
    {
        match outcome {
            Err(e) => {
                let err = self.failure("evaluator", self.evaluator.as_str(), &e);
                EvalAction::Finished(Err(err))
            },
            Ok(v) => {
                let verdict = trim_str(v.content.as_str());
                let upper = to_uppercase(verdict.as_str());
                let candidate = self.candidate.take();
                let response = match candidate {
                    Some(c) => c,
                    None => {
                        assert(false);
                        v
                    },
                };
                if verdict_passes(upper.as_str()) {
                    return EvalAction::Finished(
                        Ok(EvalResult { response, iterations: self.iteration, passed: true }),
                    );
                }
                let reason = rejection_reason(verdict.as_str());
                if self.iteration == self.max_iterations {
                    return EvalAction::Finished(
                        Ok(EvalResult { response, iterations: self.max_iterations, passed: false }),
                    );
                }
                let next = feedback_prompt(self.prompt.as_str(), reason.as_str());
                self.iteration = self.iteration + 1;
                EvalAction::Generate(ChatRequest::user(next.as_str()))
            },
        }
    }
}

/// After a rejection the generator is given the task again: its next prompt
/// begins with the original prompt unchanged, followed by a feedback block
/// that quotes the evaluator's reason.
pub proof fn law_feedback_keeps_prompt(prompt: Seq<char>, reason: Seq<char>)
    ensures
        feedback_prompt_spec(prompt, reason).len() > prompt.len(),
        feedback_prompt_spec(prompt, reason).take(prompt.len() as int) == prompt,
        feedback_prompt_spec(prompt, reason).skip(prompt.len() as int) == "\n\n[Previous attempt was rejected. Evaluator feedback: "@
            + reason + ". Please revise your response accordingly.]"@,
{
    let block = "\n\n[Previous attempt was rejected. Evaluator feedback: "@ + reason
        + ". Please revise your response accordingly.]"@;
    reveal_strlit("\n\n[Previous attempt was rejected. Evaluator feedback: ");
    assert(feedback_prompt_spec(prompt, reason) =~= prompt + block);
    assert((prompt + block).take(prompt.len() as int) =~= prompt);
    assert((prompt + block).skip(prompt.len() as int) =~= block);
}

} // verus!
