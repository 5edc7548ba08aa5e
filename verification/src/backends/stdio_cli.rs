//! The stdio-cli backend: a local command run once per request, whose
//! standard output is the response.
//!
//! Argument templates: in each argument `{prompt}` is replaced by the prompt
//! and then `{model}` by the model name. When no model is given, an argument
//! whose template holds `{model}` and that expands to nothing is dropped
//! together with the argument just before it (typically its flag, `-m`).
//!
//! Running the command is the caller's part; this module decides what to run
//! and what the run's outcome means.

use crate::backends::{ChatMessage, ChatRequest, ChatResponse};
use crate::config::{BackendConfig, BackendKind};
use crate::error::{Result, WeirError};
use crate::text::{
    byte_len, contains_seq, contains_str, decimal, decimal_string, lemma_views_push, lemma_views_take, replace_all,
    replace_str, prefix_within, prefix_within_str, trim, trim_str, utf8_len, views,
};
use vstd::prelude::*;
use vstd::string::*;
use vstd::utf8::{decode_utf8, valid_utf8};

verus! {

/// What `String::from_utf8_lossy` decodes `bytes` to.
pub uninterp spec fn lossy_utf8(bytes: Seq<u8>) -> Seq<char>;

/// `String::from_utf8_lossy`: decodes UTF-8, replacing each invalid sequence
/// by U+FFFD. Of its result this states the name above, and that valid UTF-8
/// is decoded as is.
#[verifier::external_body]
fn utf8_lossy(bytes: &[u8]) -> (s: String)
    ensures
        s@ == lossy_utf8(bytes@),
        valid_utf8(bytes@) ==> s@ == decode_utf8(bytes@),
{
    String::from_utf8_lossy(bytes).into_owned()
}

/// The prompt as it is logged: one over 200 bytes is cut at the last
/// character boundary at or before byte 200, followed by "…[", its length in
/// bytes and " chars]".
pub open spec fn display_prompt(p: Seq<char>) -> Seq<char> {
    if utf8_len(p) > 200 {
        prefix_within(p, 200) + "…["@ + decimal(utf8_len(p)) + " chars]"@
    } else {
        p
    }
}

/// One argument template with `{prompt}` and then `{model}` substituted.
pub open spec fn expand(tmpl: Seq<char>, prompt: Seq<char>, model: Seq<char>) -> Seq<char> {
    replace_all(replace_all(tmpl, "{prompt}"@, prompt), "{model}"@, model)
}

/// The argument list built from `tmpls`: each template expanded in order; an
/// expansion that is empty while its template holds `{model}` is dropped and
/// removes the argument before it.
pub open spec fn build_args_spec(tmpls: Seq<Seq<char>>, prompt: Seq<char>, model: Seq<char>) -> Seq<
    Seq<char>,
>
    decreases tmpls.len(),
{
    if tmpls.len() == 0 {
        Seq::empty()
    } else {
        let acc = build_args_spec(tmpls.drop_last(), prompt, model);
        let t = tmpls.last();
        let e = expand(t, prompt, model);
        if e.len() == 0 && contains_seq(t, "{model}"@) {
            if acc.len() > 0 {
                acc.drop_last()
            } else {
                acc
            }
        } else {
            acc.push(e)
        }
    }
}

/// The content of the last `user` message, or the empty text.
pub open spec fn last_user_content(msgs: Seq<ChatMessage>) -> Seq<char>
    decreases msgs.len(),
{
    if msgs.len() == 0 {
        Seq::empty()
    } else if msgs.last().role@ == "user"@ {
        msgs.last().content@
    } else {
        last_user_content(msgs.drop_last())
    }
}

/// A backend that runs a local CLI agent once per request.
#[derive(Debug)]
pub struct StdioCliBackend {
    name: String,
    command: String,
    /// Argument template list.
    args_template: Vec<String>,
    /// Model used when the request names none.
    default_model: Option<String>,
}

impl StdioCliBackend {
    pub closed spec fn name_spec(&self) -> Seq<char> {
        self.name@
    }

    pub closed spec fn command_spec(&self) -> Seq<char> {
        self.command@
    }

    pub closed spec fn template_spec(&self) -> Seq<Seq<char>> {
        views(self.args_template@)
    }

    pub closed spec fn default_model_spec(&self) -> Option<Seq<char>> {
        match self.default_model {
            Some(m) => Some(m@),
            None => None,
        }
    }

    /// Whether this backend is the one `cfg` describes.
    pub open spec fn built_from(&self, cfg: BackendConfig) -> bool {
        match cfg.kind {
            BackendKind::StdioCli { command, args } => {
                &&& self.name_spec() == cfg.name@
                &&& self.command_spec() == command@
                &&& self.template_spec() == views(args@)
                &&& self.default_model_spec() == match cfg.default_model {
                    Some(m) => Some(m@),
                    None => None::<Seq<char>>,
                }
            },
        }
    }

    /// The backend `cfg` describes. Every backend kind is a stdio-cli one,
    /// so this always succeeds.
    pub fn new(cfg: &BackendConfig) -> (r: Result<StdioCliBackend>)
        ensures
            r matches Ok(b) && b.built_from(*cfg),
    {
        match &cfg.kind {
            BackendKind::StdioCli { command, args } => {
                let mut copied: Vec<String> = Vec::new();
                let mut i: usize = 0;
                while i < args.len()
                    invariant
                        i <= args.len(),
                        views(copied@) == views(args@).take(i as int),
                    decreases args.len() - i,
                {
                    let ghost before = copied@;
                    let item = args[i].clone();
                    copied.push(item);
                    proof {
                        lemma_views_push(before, item);
                        lemma_views_take(args@, i as int);
                        lemma_views_take(args@, i + 1);
                        assert(args@.take(i + 1) =~= args@.take(i as int).push(args@[i as int]));
                        lemma_views_push(args@.take(i as int), args@[i as int]);
                    }
                    i = i + 1;
                }
                assert(views(args@).take(args.len() as int) =~= views(args@));
                let default_model = match &cfg.default_model {
                    Some(m) => Some(m.clone()),
                    None => None,
                };
                Ok(
                    StdioCliBackend {
                        name: cfg.name.clone(),
                        command: command.clone(),
                        args_template: copied,
                        default_model,
                    },
                )
            },
        }
    }

    /// The backend's name.
    pub fn name(&self) -> (r: &str)
        ensures
            r@ == self.name_spec(),
    {
        self.name.as_str()
    }

    /// The command this backend runs.
    pub fn command(&self) -> (r: &str)
        ensures
            r@ == self.command_spec(),
    {
        self.command.as_str()
    }

    /// The model a request runs with: its own, else the backend's default.
    pub open spec fn model_for(&self, req: ChatRequest) -> Option<Seq<char>> {
        match req.model {
            Some(m) => Some(m@),
            None => self.default_model_spec(),
        }
    }

    /// The arguments for a request.
    pub open spec fn args_for(&self, req: ChatRequest) -> Seq<Seq<char>> {
        build_args_spec(
            self.template_spec(),
            last_user_content(req.messages@),
            match self.model_for(req) {
                Some(m) => m,
                None => Seq::empty(),
            },
        )
    }

    /// Substitutes `{prompt}` and `{model}` in the argument templates; with no
    /// model, a `{model}` argument that expands to nothing is dropped along
    /// with the one before it.
    pub fn build_args(&self, prompt_text: &str, model: Option<&str>) -> (r: Vec<String>)
        ensures
            views(r@) == build_args_spec(
                self.template_spec(),
                prompt_text@,
                match model {
                    Some(m) => m@,
                    None => Seq::empty(),
                },
            ),
    {
        let model_str: &str = match model {
            Some(m) => m,
            None => "",
        };
        proof {
            reveal_strlit("{prompt}");
            reveal_strlit("{model}");
            reveal_strlit("");
            assert(model_str@ =~= match model {
                Some(m) => m@,
                None => Seq::<char>::empty(),
            });
        }
        let ghost tmpls = self.template_spec();
        let mut result: Vec<String> = Vec::new();
        let mut i: usize = 0;
        while i < self.args_template.len()
            invariant
                i <= self.args_template.len(),
                tmpls == views(self.args_template@),
                "{prompt}"@.len() > 0,
                "{model}"@.len() > 0,
                views(result@) == build_args_spec(tmpls.take(i as int), prompt_text@, model_str@),
            decreases self.args_template.len() - i,
        {
            let tmpl = self.args_template[i].as_str();
            let step1 = replace_str(tmpl, "{prompt}", prompt_text);
            let expanded = replace_str(step1.as_str(), "{model}", model_str);
            assert(tmpls.take(i + 1).drop_last() =~= tmpls.take(i as int));
            assert(tmpls.take(i + 1).last() == tmpl@);
            if expanded.as_str().is_empty() && contains_str(tmpl, "{model}") {
                let ghost before = result@;
                result.pop();
                assert(views(result@) =~= if views(before).len() > 0 {
                    views(before).drop_last()
                } else {
                    views(before)
                });
            } else {
                let ghost before = result@;
                result.push(expanded);
                proof {
                    lemma_views_push(before, expanded);
                }
                assert(views(result@) =~= build_args_spec(
                    tmpls.take(i as int),
                    prompt_text@,
                    model_str@,
                ).push(expand(tmpl@, prompt_text@, model_str@)));
            }
            i = i + 1;
        }
        assert(tmpls.take(self.args_template.len() as int) =~= tmpls);
        result
    }

    /// Substitutes the arguments as `build_args` does, with the prompt as it
    /// is logged (see `display_prompt`).
    pub fn debug_args(&self, prompt_text: &str, model: Option<&str>) -> (r: Vec<String>)
        requires
            utf8_len(prompt_text@) <= usize::MAX,
        ensures
            views(r@) == build_args_spec(
                self.template_spec(),
                display_prompt(prompt_text@),
                match model {
                    Some(m) => m@,
                    None => Seq::empty(),
                },
            ),
    {
        let n = byte_len(prompt_text);
        let display = if n > 200 {
            let mut d = prefix_within_str(prompt_text, 200);
            d.append("…[");
            let count = decimal_string(n as u64);
            d.append(count.as_str());
            d.append(" chars]");
            d
        } else {
            String::from_str(prompt_text)
        };
        self.build_args(display.as_str(), model)
    }

    /// The prompt of a request: the content of its last `user` message.
    pub fn prompt_of(req: &ChatRequest) -> (r: &str)
        ensures
            r@ == last_user_content(req.messages@),
    {
        let mut i: usize = req.messages.len();
        assert(req.messages@.take(i as int) =~= req.messages@);
        while i > 0
            invariant
                i <= req.messages.len(),
                last_user_content(req.messages@) == last_user_content(
                    req.messages@.take(i as int),
                ),
            decreases i,
        {
            let m = &req.messages[i - 1];
            assert(req.messages@.take(i as int).last() == req.messages@[i - 1]);
            assert(req.messages@.take(i as int).drop_last() =~= req.messages@.take(i - 1));
            if crate::text::str_eq(m.role.as_str(), "user") {
                return m.content.as_str();
            }
            i = i - 1;
        }
        proof {
            reveal_strlit("");
        }
        ""
    }

    /// The model `req` runs with: its own, else the backend's default.
    pub fn model_of<'a>(&'a self, req: &'a ChatRequest) -> (r: Option<&'a str>)
        ensures
            match self.model_for(*req) {
                Some(m) => r matches Some(x) && x@ == m,
                None => r is None,
            },
    {
        match &req.model {
            Some(m) => Some(m.as_str()),
            None => match &self.default_model {
                Some(m) => Some(m.as_str()),
                None => None,
            },
        }
    }

    /// The command line to run for `req`: the command and its arguments.
    pub fn invocation(&self, req: &ChatRequest) -> (r: (String, Vec<String>))
        ensures
            r.0@ == self.command_spec(),
            views(r.1@) == self.args_for(*req),
    {
        let prompt = StdioCliBackend::prompt_of(req);
        let model = self.model_of(req);
        (self.command.clone(), self.build_args(prompt, model))
    }

    /// "backend '<name>': "
    pub open spec fn prefix(&self) -> Seq<char> {
        "backend '"@ + self.name_spec() + "': "@
    }

    fn prefixed(&self, rest: &str) -> (r: String)
        ensures
            r@ == self.prefix() + rest@,
    {
        let mut r = String::from_str("backend '");
        r.append(self.name.as_str());
        r.append("': ");
        r.append(rest);
        r
    }

    /// The error for a command that could not be started; `detail` is the
    /// operating system's reason.
    pub fn spawn_error(&self, detail: &str) -> (e: WeirError)
        ensures
            e matches WeirError::Backend(m) && m@ == self.prefix() + "failed to spawn '"@
                + self.command_spec() + "': "@ + detail@,
    {
        let mut rest = String::from_str("failed to spawn '");
        rest.append(self.command.as_str());
        rest.append("': ");
        rest.append(detail);
        WeirError::Backend(self.prefixed(rest.as_str()))
    }

    /// The meaning of a finished run: on success, a response whose content is
    /// standard output; otherwise a backend error quoting the exit `status`
    /// and the trimmed standard error.
    pub fn outcome(&self, success: bool, status: &str, stdout: &[u8], stderr: &[u8]) -> (r: Result<
        ChatResponse,
    >)
        ensures
            success ==> (r matches Ok(resp) && resp.content@ == lossy_utf8(stdout@)
                && resp.backend_name@ == self.name_spec() && resp.model is None
                && resp.usage is None),
            !success ==> (r matches Err(WeirError::Backend(m)) && m@ == self.prefix() + "'"@
                + self.command_spec() + "' exited with "@ + status@ + ": "@ + trim(
                lossy_utf8(stderr@),
            )),
    {
        if !success {
            let err_text = utf8_lossy(stderr);
            let trimmed = trim_str(err_text.as_str());
            let mut rest = String::from_str("'");
            rest.append(self.command.as_str());
            rest.append("' exited with ");
            rest.append(status);
            rest.append(": ");
            rest.append(trimmed.as_str());
            return Err(WeirError::Backend(self.prefixed(rest.as_str())));
        }
        let content = utf8_lossy(stdout);
        Ok(ChatResponse { content, backend_name: self.name.clone(), model: None, usage: None })
    }

    /// The argument the liveness probe runs the command with.
    pub fn health_probe_arg() -> (r: &'static str)
        ensures
            r@ == "--version"@,
    {
        "--version"
    }

    /// The verdict of the liveness probe: healthy when the command could be
    /// started at all, whatever its exit status; `spawn_failure` holds the
    /// reason it could not.
    pub fn health_verdict(&self, spawn_failure: Option<&str>) -> (r: Result<()>)
        ensures
            spawn_failure is None ==> r is Ok,
            spawn_failure matches Some(d) ==> (r matches Err(WeirError::Backend(m)) && m@
                == self.prefix() + "health check failed — could not spawn '"@
                + self.command_spec() + "': "@ + d@),
    {
        match spawn_failure {
            None => Ok(()),
            Some(d) => {
                let mut rest = String::from_str("health check failed — could not spawn '");
                rest.append(self.command.as_str());
                rest.append("': ");
                rest.append(d);
                Err(WeirError::Backend(self.prefixed(rest.as_str())))
            },
        }
    }
}

/// The request's model wins over the backend's default, which is only a
/// fallback: with a model `m` in the request, every `{model}` expands to `m`
/// whatever the default; without one, to the default (or to nothing).
pub proof fn law_request_model_wins(b: StdioCliBackend, req: ChatRequest)
    ensures
        req.model matches Some(m) ==> b.model_for(req) == Some(m@) && b.args_for(req) == build_args_spec(
            b.template_spec(),
            last_user_content(req.messages@),
            m@,
        ),
        req.model is None ==> b.model_for(req) == b.default_model_spec() && b.args_for(req) == build_args_spec(
            b.template_spec(),
            last_user_content(req.messages@),
            match b.default_model_spec() {
                Some(d) => d,
                None => Seq::empty(),
            },
        ),
{
}

} // verus!
