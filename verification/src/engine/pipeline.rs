//! Pipeline engine: a prompt passed through a chain of backends in order.
//!
//! Each step receives the previous step's output (the initial prompt for the
//! first step). A step's `prompt_template`, when present, reshapes that input:
//! every `{{step.output}}` in it is replaced by the input. The message is sent
//! with the step's role (`user` by default). The last step's response is the
//! pipeline's result.

use crate::backends::{ChatRequest, ChatResponse};
use crate::config::PipelineStep;
use crate::error::{Result, WeirError};
use crate::text::{decimal, decimal_string, find_first, lemma_find_first_at, lemma_find_first_none, replace_all, replace_str, str_eq, views};
use vstd::prelude::*;
use vstd::string::*;

verus! {

/// The message content a step sends, given its input.
pub open spec fn step_content(step: PipelineStep, input: Seq<char>) -> Seq<char> {
    match step.prompt_template {
        Some(t) => replace_all(t@, "{{step.output}}"@, input),
        None => input,
    }
}

/// The role of the message a step sends.
pub open spec fn step_role(step: PipelineStep) -> Seq<char> {
    match step.role {
        Some(r) => r@,
        None => "user"@,
    }
}

/// The request a step sends, given its input.
pub open spec fn step_request(req: ChatRequest, step: PipelineStep, input: Seq<char>) -> bool {
    req.is_single(step_role(step), step_content(step, input))
}

/// What a pipeline asks of its caller next.
pub enum PipelineAction {
    /// Send `request` to the backend at index `backend` of the list the run
    /// was started with, and hand the outcome to `on_response`.
    Call { backend: usize, request: ChatRequest },
    /// The run is over with this result.
    Finished(Result<ChatResponse>),
}

/// A pipeline run in progress.
pub struct PipelineRun {
    backend_names: Vec<String>,
    steps: Vec<PipelineStep>,
    /// The step whose call is outstanding.
    current: usize,
}

impl PipelineRun {
    pub closed spec fn names(&self) -> Seq<Seq<char>> {
        views(self.backend_names@)
    }

    pub closed spec fn steps_spec(&self) -> Seq<PipelineStep> {
        self.steps@
    }

    /// Index of the step whose call is outstanding.
    pub closed spec fn current_spec(&self) -> int {
        self.current as int
    }

    /// A call is outstanding.
    pub open spec fn awaiting(&self) -> bool {
        0 <= self.current_spec() < self.steps_spec().len()
    }

    /// The action that runs step `i` on `input`, or the error when its
    /// backend is not among `names`.
    pub open spec fn plans_step(
        names: Seq<Seq<char>>,
        steps: Seq<PipelineStep>,
        i: int,
        input: Seq<char>,
        a: PipelineAction,
    ) -> bool {
        match find_first(names, steps[i].backend@) {
            Some(k) => a matches PipelineAction::Call { backend, request } && backend == k
                && step_request(request, steps[i], input),
            None => a matches PipelineAction::Finished(Err(WeirError::BackendNotFound(n)))
                && n@ == steps[i].backend@,
        }
    }

    fn plan(&self, input: &str) -> (a: PipelineAction)
        requires
            self.awaiting(),
        ensures
            Self::plans_step(self.names(), self.steps_spec(), self.current_spec(), input@, a),
    {
        let step = &self.steps[self.current];
        let mut k: usize = 0;
        while k < self.backend_names.len()
            invariant
                k <= self.backend_names.len(),
                self.current < self.steps.len(),
                *step == self.steps@[self.current as int],
                forall|j: int| 0 <= j < k ==> self.names()[j] != step.backend@,
            decreases self.backend_names.len() - k,
        {
            assert(self.names()[k as int] == self.backend_names@[k as int]@);
            if str_eq(self.backend_names[k].as_str(), step.backend.as_str()) {
                proof {
                    lemma_find_first_at(self.names(), step.backend@, k as int);
                }
                let content = match &step.prompt_template {
                    Some(t) => {
                        proof {
                            reveal_strlit("{{step.output}}");
                        }
                        replace_str(t.as_str(), "{{step.output}}", input)
                    },
                    None => String::from_str(input),
                };
                let role: &str = match &step.role {
                    Some(r) => r.as_str(),
                    None => "user",
                };
                let request = ChatRequest::single(role, content.as_str());
                return PipelineAction::Call { backend: k, request };
            }
            k = k + 1;
        }
        proof {
            lemma_find_first_none(self.names(), step.backend@);
        }
        PipelineAction::Finished(Err(WeirError::BackendNotFound(step.backend.clone())))
    }

    /// Starts a pipeline over `steps` fed with `initial_prompt`; the backends
    /// are identified by the names in `backend_names`, and each step calls
    /// the first one bearing its backend's name. With no steps, the run ends
    /// at once with a backend error.
    pub fn start(backend_names: Vec<String>, steps: Vec<PipelineStep>, initial_prompt: &str) -> (r: (
        PipelineRun,
        PipelineAction,
    ))
        ensures
            r.0.names() == views(backend_names@),
            r.0.steps_spec() == steps@,
            steps@.len() == 0 ==> (r.1 matches PipelineAction::Finished(Err(WeirError::Backend(m)))
                && m@ == "pipeline: no steps defined"@),
            steps@.len() > 0 ==> r.0.current_spec() == 0 && Self::plans_step(
                views(backend_names@),
                steps@,
                0,
                initial_prompt@,
                r.1,
            ),
    {
        let run = PipelineRun { backend_names, steps, current: 0 };
        if run.steps.len() == 0 {
            let a = PipelineAction::Finished(
                Err(WeirError::Backend(String::from_str("pipeline: no steps defined"))),
            );
            return (run, a);
        }
        let a = run.plan(initial_prompt);
        (run, a)
    }

    /// The error a failed step is reported as.
    pub open spec fn step_error_text(i: int, backend: Seq<char>, e: WeirError) -> Seq<char> {
        "pipeline step "@ + decimal(i as nat) + " ("@ + backend + "): "@ + e.message_spec()
    }

    /// Takes the outcome of the outstanding call. A failure ends the run
    /// with a backend error naming the step; the last step's response ends
    /// it with that response; otherwise the next step is called with this
    /// step's output as its input.
    pub fn on_response(&mut self, outcome: Result<ChatResponse>) -> (a: PipelineAction)
        requires
            old(self).awaiting(),
        ensures
            final(self).names() == old(self).names(),
            final(self).steps_spec() == old(self).steps_spec(),
            match outcome {
                Err(e) => a matches PipelineAction::Finished(Err(WeirError::Backend(m)))
                    && m@ == Self::step_error_text(
                    old(self).current_spec(),
                    old(self).steps_spec()[old(self).current_spec()].backend@,
                    e,
                ),
                Ok(resp) => if old(self).current_spec() + 1 == old(self).steps_spec().len() {
                    a == PipelineAction::Finished(Ok(resp))
                } else {
                    final(self).current_spec() == old(self).current_spec() + 1 && Self::plans_step(
                        old(self).names(),
                        old(self).steps_spec(),
                        old(self).current_spec() + 1,
                        resp.content@,
                        a,
                    )
                },
            },
    {
        match outcome {
            Err(e) => {
                let mut m = String::from_str("pipeline step ");
                let idx = decimal_string(self.current as u64);
                m.append(idx.as_str());
                m.append(" (");
                m.append(self.steps[self.current].backend.as_str());
                m.append("): ");
                let detail = e.message();
                m.append(detail.as_str());
                PipelineAction::Finished(Err(WeirError::Backend(m)))
            },
            Ok(resp) => {
                assert(self.current < self.steps.len());
                if self.current + 1 == self.steps.len() {
                    PipelineAction::Finished(Ok(resp))
                } else {
                    self.current = self.current + 1;
                    self.plan(resp.content.as_str())
                }
            },
        }
    }
}

} // verus!
