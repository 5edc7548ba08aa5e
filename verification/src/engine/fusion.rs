//! Fusion engine: a panel of backends answers the prompt (a fan-out), a judge
//! analyses their answers, and a synthesizer (often the judge itself) writes
//! the final answer from that analysis.

use crate::backends::{ChatRequest, ChatResponse};
use crate::engine::fan_out::{check_backends, failures, gather, successes, BranchOutcome};
use crate::error::{Result, WeirError};
use crate::text::{join, join_strings, lemma_views_push, trim_end, trim_end_str, views};
use vstd::prelude::*;
use vstd::string::*;

verus! {

/// The outcome of a finished fusion run.
#[derive(Debug, Clone)]
pub struct FusionResult {
    /// The panel's responses, one per backend that answered.
    pub panel_responses: Vec<ChatResponse>,
    /// The judge's analysis, as it answered.
    pub judge_analysis: String,
    /// The synthesizer's final answer.
    pub synthesis: ChatResponse,
}

/// One panel answer as the judge sees it.
pub open spec fn panel_entry(r: ChatResponse) -> Seq<char> {
    "=== "@ + r.backend_name@ + " ===\n"@ + trim_end(r.content@)
}

/// The panel's answers as the judge sees them, separated by blank lines.
pub open spec fn panel_text_spec(rs: Seq<ChatResponse>) -> Seq<char> {
    join(rs.map_values(|r: ChatResponse| panel_entry(r)), "\n\n"@)
}

/// The judge's prompt.
pub open spec fn judge_prompt_spec(prompt: Seq<char>, rs: Seq<ChatResponse>) -> Seq<char> {
    "You are analyzing responses from multiple AI models to the same question.\n\nOriginal question: "@
        + prompt + "\n\nPanel responses:\n"@ + panel_text_spec(rs)
        + "\n\nAnalyse these responses and identify:\n- consensus: points where all or most models agree\n- contradictions: significant disagreements between models\n- unique_insights: valuable points raised by only one model\n- blind_spots: important aspects that no model addressed\n\nRespond ONLY with valid JSON in this exact format (no markdown fences, no explanation):\n{\"consensus\":[\"...\"],\"contradictions\":[\"...\"],\"unique_insights\":[\"...\"],\"blind_spots\":[\"...\"]}"@
}

/// The synthesizer's prompt.
pub open spec fn synthesis_prompt_spec(prompt: Seq<char>, analysis: Seq<char>) -> Seq<char> {
    "You are synthesizing insights from a multi-model deliberation.\n\nOriginal question: "@
        + prompt + "\n\nMulti-model analysis:\n"@ + analysis
        + "\n\nUsing this analysis, write a comprehensive final answer that:\n1. Builds on the consensus points\n2. Resolves contradictions with the best available reasoning\n3. Incorporates unique insights\n4. Addresses any identified blind spots\n\nProvide a direct, well-structured response to the original question."@
}

/// The panel's answers as the judge sees them.
pub fn panel_text(rs: &Vec<ChatResponse>) -> (r: String)
    ensures
        r@ == panel_text_spec(rs@),
{
    let mut entries: Vec<String> = Vec::new();
    let mut i: usize = 0;
    while i < rs.len()
        invariant
            i <= rs.len(),
            views(entries@) == rs@.take(i as int).map_values(|r: ChatResponse| panel_entry(r)),
        decreases rs.len() - i,
    {
        let mut e = String::from_str("=== ");
        e.append(rs[i].backend_name.as_str());
        e.append(" ===\n");
        let body = trim_end_str(rs[i].content.as_str());
        e.append(body.as_str());
        let ghost before = entries@;
        entries.push(e);
        proof {
            lemma_views_push(before, e);
        }
        assert(rs@.take(i + 1).map_values(|r: ChatResponse| panel_entry(r)) =~= rs@.take(
            i as int,
        ).map_values(|r: ChatResponse| panel_entry(r)).push(panel_entry(rs@[i as int])));
        i = i + 1;
    }
    assert(rs@.take(rs.len() as int) =~= rs@);
    join_strings(&entries, "\n\n")
}

/// The judge's prompt for the panel's answers to `prompt`.
pub fn judge_prompt(prompt: &str, rs: &Vec<ChatResponse>) -> (r: String)
    ensures
        r@ == judge_prompt_spec(prompt@, rs@),
{
    let mut r = String::from_str(
        "You are analyzing responses from multiple AI models to the same question.\n\nOriginal question: ",
    );
    r.append(prompt);
    r.append("\n\nPanel responses:\n");
    let t = panel_text(rs);
    r.append(t.as_str());
    r.append(
        "\n\nAnalyse these responses and identify:\n- consensus: points where all or most models agree\n- contradictions: significant disagreements between models\n- unique_insights: valuable points raised by only one model\n- blind_spots: important aspects that no model addressed\n\nRespond ONLY with valid JSON in this exact format (no markdown fences, no explanation):\n{\"consensus\":[\"...\"],\"contradictions\":[\"...\"],\"unique_insights\":[\"...\"],\"blind_spots\":[\"...\"]}",
    );
    r
}

/// The synthesizer's prompt for `prompt` given the judge's analysis.
pub fn synthesis_prompt(prompt: &str, analysis: &str) -> (r: String)
    ensures
        r@ == synthesis_prompt_spec(prompt@, analysis@),
{
    let mut r = String::from_str(
        "You are synthesizing insights from a multi-model deliberation.\n\nOriginal question: ",
    );
    r.append(prompt);
    r.append("\n\nMulti-model analysis:\n");
    r.append(analysis);
    r.append(
        "\n\nUsing this analysis, write a comprehensive final answer that:\n1. Builds on the consensus points\n2. Resolves contradictions with the best available reasoning\n3. Incorporates unique insights\n4. Addresses any identified blind spots\n\nProvide a direct, well-structured response to the original question.",
    );
    r
}

/// What a fusion run asks of its caller next.
pub enum FusionAction {
    /// Fan the request out to the panel; hand the outcomes to `on_panel`.
    Panel(ChatRequest),
    /// Send the request to the judge; hand the outcome to `on_judged`.
    Judge(ChatRequest),
    /// Send the request to the synthesizer; hand the outcome to `on_synthesized`.
    Synthesize(ChatRequest),
    /// The run is over with this result.
    Finished(Result<FusionResult>),
}

/// Where a fusion run stands.
pub enum FusionPhase {
    Panel,
    Judge { panel: Vec<ChatResponse> },
    Synthesize { panel: Vec<ChatResponse>, analysis: String },
    Done,
}

/// A fusion run in progress.
pub struct FusionRun {
    judge: String,
    synthesizer: String,
    prompt: String,
    phase: FusionPhase,
}

impl FusionRun {
    pub closed spec fn judge_spec(&self) -> Seq<char> {
        self.judge@
    }

    pub closed spec fn synthesizer_spec(&self) -> Seq<char> {
        self.synthesizer@
    }

    pub closed spec fn prompt_spec(&self) -> Seq<char> {
        self.prompt@
    }

    pub closed spec fn phase_spec(&self) -> FusionPhase {
        self.phase
    }

    /// Starts a fusion run over a panel of `panel_size` backends, with the
    /// named judge and synthesizer. The panel is asked the prompt as it is;
    /// an empty panel ends the run at once with a backend error.
    pub fn start(panel_size: usize, judge: &str, synthesizer: &str, prompt: &str) -> (r: (FusionRun, FusionAction))
        ensures
            r.0.judge_spec() == judge@,
            r.0.synthesizer_spec() == synthesizer@,
            r.0.prompt_spec() == prompt@,
            panel_size == 0 ==> (r.1 matches FusionAction::Finished(Err(WeirError::Backend(m)))
                && m@ == "fan-out: no backends provided"@),
            panel_size > 0 ==> {
                &&& r.0.phase_spec() is Panel
                &&& r.1 matches FusionAction::Panel(req) && req.is_single("user"@, prompt@)
            },
    {
        let mut run = FusionRun {
            judge: String::from_str(judge),
            synthesizer: String::from_str(synthesizer),
            prompt: String::from_str(prompt),
            phase: FusionPhase::Panel,
        };
        match check_backends(panel_size) {
            Err(e) => {
                run.phase = FusionPhase::Done;
                (run, FusionAction::Finished(Err(e)))
            },
            Ok(()) => (run, FusionAction::Panel(ChatRequest::user(prompt))),
        }
    }

    /// Takes the panel's outcomes, in completion order. When no panel
    /// backend answered, the run ends with the fan-out's error; otherwise the
    /// judge is asked to analyse the answers.
    pub fn on_panel(&mut self, outcomes: Vec<BranchOutcome>) -> (a: FusionAction)
        requires
            old(self).phase_spec() is Panel,
        ensures
            final(self).judge_spec() == old(self).judge_spec(),
            final(self).synthesizer_spec() == old(self).synthesizer_spec(),
            final(self).prompt_spec() == old(self).prompt_spec(),
            successes(outcomes@).len() == 0 ==> (a matches FusionAction::Finished(Err(WeirError::Backend(m)))
                && m@ == "fan-out: all backends failed — "@ + join(failures(outcomes@), "; "@)),
            successes(outcomes@).len() > 0 ==> {
                &&& final(self).phase_spec() matches FusionPhase::Judge { panel }
                    && panel@ == successes(outcomes@)
                &&& a matches FusionAction::Judge(req) && req.is_single(
                    "user"@,
                    judge_prompt_spec(old(self).prompt_spec(), successes(outcomes@)),
                )
            },
    {
        match gather(outcomes) {
            Err(e) => {
                self.phase = FusionPhase::Done;
                FusionAction::Finished(Err(e))
            },
            Ok(panel) => {
                let p = judge_prompt(self.prompt.as_str(), &panel);
                self.phase = FusionPhase::Judge { panel };
                FusionAction::Judge(ChatRequest::user(p.as_str()))
            },
        }
    }

    /// "fusion: <role> (<name>): <error>"
    pub open spec fn failure_text(role: Seq<char>, name: Seq<char>, e: WeirError) -> Seq<char> {
        "fusion: "@ + role + " ("@ + name + "): "@ + e.message_spec()
    }

    fn failure(role: &str, name: &str, e: &WeirError) -> (r: WeirError)
        ensures
            r matches WeirError::Backend(m) && m@ == Self::failure_text(role@, name@, *e),
    {
        let mut m = String::from_str("fusion: ");
        m.append(role);
        m.append(" (");
        m.append(name);
        m.append("): ");
        let d = e.message();
        m.append(d.as_str());
        WeirError::Backend(m)
    }

    /// Takes the judge's outcome. A failure ends the run; an analysis is
    /// handed to the synthesizer.
    pub fn on_judged(&mut self, outcome: Result<ChatResponse>) -> (a: FusionAction)
        requires
            old(self).phase_spec() is Judge,
        ensures
            final(self).judge_spec() == old(self).judge_spec(),
            final(self).synthesizer_spec() == old(self).synthesizer_spec(),
            final(self).prompt_spec() == old(self).prompt_spec(),
            match outcome {
                Err(e) => a matches FusionAction::Finished(Err(WeirError::Backend(m)))
                    && m@ == Self::failure_text("judge"@, old(self).judge_spec(), e),
                Ok(j) => {
                    &&& final(self).phase_spec() matches FusionPhase::Synthesize { panel, analysis }
                        && panel@ == old(self).phase_spec()->Judge_panel@ && analysis@ == j.content@
                    &&& a matches FusionAction::Synthesize(req) && req.is_single(
                        "user"@,
                        synthesis_prompt_spec(old(self).prompt_spec(), j.content@),
                    )
                },
            },
    {
        let mut phase = FusionPhase::Done;
        core::mem::swap(&mut phase, &mut self.phase);
        let panel = match phase {
            FusionPhase::Judge { panel } => panel,
            _ => {
                assert(false);
                Vec::new()
            },
        };
        match outcome {
            Err(e) => FusionAction::Finished(Err(Self::failure("judge", self.judge.as_str(), &e))),
            Ok(j) => {
                let p = synthesis_prompt(self.prompt.as_str(), j.content.as_str());
                self.phase = FusionPhase::Synthesize { panel, analysis: j.content };
                FusionAction::Synthesize(ChatRequest::user(p.as_str()))
            },
        }
    }

    /// Takes the synthesizer's outcome. A failure ends the run with an error;
    /// an answer ends it with the panel's answers, the analysis and the answer.
    pub fn on_synthesized(&mut self, outcome: Result<ChatResponse>) -> (a: FusionAction)
        requires
            old(self).phase_spec() is Synthesize,
        ensures
            final(self).phase_spec() is Done,
            match outcome {
                Err(e) => a matches FusionAction::Finished(Err(WeirError::Backend(m)))
                    && m@ == Self::failure_text("synthesizer"@, old(self).synthesizer_spec(), e),
                Ok(s) => a matches FusionAction::Finished(Ok(res))
                    && res.panel_responses@ == old(self).phase_spec()->Synthesize_panel@
                    && res.judge_analysis@ == old(self).phase_spec()->Synthesize_analysis@
                    && res.synthesis == s,
            },
    {
        let mut phase = FusionPhase::Done;
        core::mem::swap(&mut phase, &mut self.phase);
        let (panel, analysis) = match phase {
            FusionPhase::Synthesize { panel, analysis } => (panel, analysis),
            _ => {
                assert(false);
                (Vec::new(), String::new())
            },
        };
        match outcome {
            Err(e) => FusionAction::Finished(
                Err(Self::failure("synthesizer", self.synthesizer.as_str(), &e)),
            ),
            Ok(s) => FusionAction::Finished(
                Ok(FusionResult { panel_responses: panel, judge_analysis: analysis, synthesis: s }),
            ),
        }
    }
}

} // verus!
