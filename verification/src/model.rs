//! Switching a VM between cloud and local models.
use vstd::prelude::*;

use crate::config::{CoopConfig, LocalModel};
use crate::failure::{failure_view, refused, Failure, FailureText};
use crate::text::{chars_of, pad_right, padded};
use crate::url_check::{parse_url, parsed_text, url_parse, UrlParts, UrlText};

verus! {

/// Where the models of a VM are served.
#[derive(Debug, Clone, Copy, PartialEq, Eq, Structural)]
pub enum ModelMode {
    Local,
    Remote,
}

impl ModelMode {
    /// The name of the mode.
    pub open spec fn name(self) -> Seq<char> {
        match self {
            ModelMode::Local => "local"@,
            ModelMode::Remote => "remote"@,
        }
    }

    /// The name of the mode.
    pub fn as_str(&self) -> (r: &'static str)
        ensures
            r@ == self.name(),
    {
        match self {
            ModelMode::Local => "local",
            ModelMode::Remote => "remote",
        }
    }
}

/// What is kept of the models of a VM.
#[derive(Debug)]
pub struct ModelState {
    pub mode: ModelMode,
    /// The endpoint that was entered for the one agent.
    pub claude_endpoint: Option<LocalModel>,
    /// The endpoint that was entered for the other agent.
    pub codex_endpoint: Option<LocalModel>,
    /// Whether the other agent's configuration in the guest is managed.
    pub codex_materialized: bool,
}

/// What is done about the models of a VM.
#[derive(Debug, Clone, Copy, PartialEq, Eq, Structural)]
pub enum ModelCommand {
    ShowStatus,
    SetLocal,
    SetRemote,
}

/// Decides what is done about the models of a VM.
pub fn cmd_model(action: Option<ModelMode>) -> (r: ModelCommand)
    ensures
        r == match action {
            None => ModelCommand::ShowStatus,
            Some(ModelMode::Local) => ModelCommand::SetLocal,
            Some(ModelMode::Remote) => ModelCommand::SetRemote,
        },
{
    match action {
        None => ModelCommand::ShowStatus,
        Some(ModelMode::Local) => ModelCommand::SetLocal,
        Some(ModelMode::Remote) => ModelCommand::SetRemote,
    }
}

/// The line of an agent in the status: where its model is served.
pub open spec fn tool_line(
    label: Seq<char>,
    mode: ModelMode,
    endpoint: Option<(Seq<char>, Seq<char>)>,
) -> Seq<char> {
    padded(label, 9) + match (mode, endpoint) {
        (ModelMode::Local, Some((model, url))) => " local — "@ + model + " @ "@ + url + "\n"@,
        (ModelMode::Local, None) => " cloud (no local endpoint configured)\n"@,
        (ModelMode::Remote, _) => " cloud\n"@,
    }
}

/// The name and the guest's URL of a served model.
#[derive(Debug, Clone, Copy)]
pub struct ServedModel<'a> {
    pub model: &'a str,
    pub guest_url: &'a str,
}

/// The view of a served model.
pub open spec fn served_view(endpoint: Option<ServedModel>) -> Option<(Seq<char>, Seq<char>)> {
    match endpoint {
        Some(served) => Some((served.model@, served.guest_url@)),
        None => None,
    }
}

/// The line of an agent in the status.
pub fn write_tool_line(label: &str, mode: ModelMode, endpoint: Option<ServedModel>) -> (r: String)
    ensures
        r@ == tool_line(label@, mode, served_view(endpoint)),
{
    let start = pad_right(label, 9);
    let r = match (mode, endpoint) {
        (ModelMode::Local, Some(served)) => start.concat(" local — ").concat(
            served.model,
        ).concat(" @ ").concat(served.guest_url).concat("\n"),
        (ModelMode::Local, None) => start.concat(" cloud (no local endpoint configured)\n"),
        (ModelMode::Remote, _) => start.concat(" cloud\n"),
    };
    proof {
        assert(r@ =~= tool_line(label@, mode, served_view(endpoint)));
    }
    r
}

/// The view of a served model, or of why its URL cannot be told.
pub open spec fn lookup_view(endpoint: Result<Option<ServedModel>, Failure>) -> Result<
    Option<(Seq<char>, Seq<char>)>,
    FailureText,
> {
    match endpoint {
        Ok(served) => Ok(served_view(served)),
        Err(failure) => Err(failure@),
    }
}

/// The head of the status of a VM.
pub open spec fn status_head(instance: Seq<char>, mode: ModelMode) -> Seq<char> {
    "Instance: "@ + instance + "\nMode:     "@ + mode.name() + "\n"@
}

/// The status of the models of a VM, and what kept it from being complete. It ends
/// before the first agent whose URL cannot be told.
pub open spec fn status_text(
    instance: Seq<char>,
    mode: ModelMode,
    first: (Seq<char>, Result<Option<(Seq<char>, Seq<char>)>, FailureText>),
    second: (Seq<char>, Result<Option<(Seq<char>, Seq<char>)>, FailureText>),
) -> (Seq<char>, Option<FailureText>) {
    let head = status_head(instance, mode);
    match (first.1, second.1) {
        (Err(failure), _) => (head, Some(failure)),
        (Ok(served), Err(failure)) => (head + tool_line(first.0, mode, served), Some(failure)),
        (Ok(served), Ok(other)) => (
            head + tool_line(first.0, mode, served) + tool_line(second.0, mode, other),
            None,
        ),
    }
}

/// The status of the models of a VM: the mode, and for each agent the endpoint
/// that it resolves to. Where a URL cannot be told, what comes before it is still
/// shown.
pub fn render_status(
    instance: &str,
    mode: ModelMode,
    first: (&str, Result<Option<ServedModel>, Failure>),
    second: (&str, Result<Option<ServedModel>, Failure>),
) -> (r: (String, Option<Failure>))
    ensures
        (r.0@, failure_view(r.1)) == status_text(
            instance@,
            mode,
            (first.0@, lookup_view(first.1)),
            (second.0@, lookup_view(second.1)),
        ),
{
    let mut out = "Instance: ".to_owned().concat(instance).concat("\nMode:     ").concat(
        mode.as_str(),
    ).concat("\n");
    match first.1 {
        Ok(served) => out.append(write_tool_line(first.0, mode, served).as_str()),
        Err(failure) => {
            return (out, Some(failure));
        },
    }
    match second.1 {
        Ok(served) => out.append(write_tool_line(second.0, mode, served).as_str()),
        Err(failure) => {
            return (out, Some(failure));
        },
    }
    (out, None)
}

/// Whether the one agent resolves an endpoint: one that was entered, or one
/// that is configured.
pub open spec fn claude_resolves(state: ModelState, cfg: CoopConfig) -> bool {
    state.claude_endpoint is Some || cfg.claude_local_model is Some
}

/// Whether the other agent resolves an endpoint.
pub open spec fn codex_resolves(state: ModelState, cfg: CoopConfig) -> bool {
    state.codex_endpoint is Some || cfg.codex_local_model is Some
}

/// Whether any agent resolves an endpoint.
pub open spec fn any_resolves(state: ModelState, cfg: CoopConfig) -> bool {
    claude_resolves(state, cfg) || codex_resolves(state, cfg)
}

/// Whether any agent resolves an endpoint.
fn has_endpoint(state: &ModelState, cfg: &CoopConfig) -> (r: bool)
    ensures
        r == any_resolves(*state, *cfg),
{
    state.claude_endpoint.is_some() || cfg.claude_local_model.is_some()
        || state.codex_endpoint.is_some() || cfg.codex_local_model.is_some()
}

/// How far a VM is switched to local models.
#[derive(Debug)]
pub enum LocalSwitch {
    /// An endpoint for the one agent is asked for.
    AskFirst { state: ModelState },
    /// An endpoint for the other agent is asked for.
    AskSecond { state: ModelState },
    /// The new state is saved.
    Save { state: ModelState },
    /// The new state is applied to the VM, where it runs.
    Apply,
    /// The VM is switched.
    Switched,
    /// The VM could not be switched.
    Failed(Failure),
}

/// What the outside replies while a VM is switched.
#[derive(Debug)]
pub enum SwitchReply {
    /// This endpoint was entered, or none.
    Endpoint(Option<LocalModel>),
    /// It was done.
    Done,
    /// It could not be done.
    Stopped(Failure),
}

/// A letter in lower case, where it is one of the twenty-six.
pub open spec fn lower_char(c: char) -> char {
    if 'A' <= c <= 'Z' {
        (c as u32 + 32) as char
    } else {
        c
    }
}

/// A text in lower case.
pub open spec fn lower(s: Seq<char>) -> Seq<char> {
    Seq::new(s.len(), |i: int| lower_char(s[i]))
}

/// A text in lower case.
fn to_lower(s: &str) -> (r: String)
    ensures
        r@ == lower(s@),
{
    let chars = chars_of(s);
    let mut out = String::new();
    for i in 0..chars.len()
        invariant
            chars@ == s@,
            out@ == lower(s@).take(i as int),
    {
        let c = chars[i];
        if 'A' <= c && c <= 'Z' {
            out.push((c as u8 + 32) as char);
        } else {
            out.push(c);
        }
        proof {
            assert(out@ =~= lower(s@).take(i + 1));
        }
    }
    proof {
        assert(lower(s@).take(s@.len() as int) =~= lower(s@));
    }
    out
}

/// The failure to switch a VM for which no endpoint is known.
pub open spec fn no_endpoint(
    instance: Seq<char>,
    first: Seq<char>,
    second: Seq<char>,
) -> FailureText {
    refused(
        "No local model endpoint configured for '"@ + instance + "'.\nSet ["@ + lower(first)
            + ".local_model] or ["@ + lower(second)
            + ".local_model] in config.toml, or run `coop model "@ + instance
            + " local` in an interactive terminal to enter one."@,
    )
}

/// The names under which a VM and its agents are spoken of.
#[derive(Debug, Clone, Copy)]
pub struct SwitchNames<'a> {
    pub instance: &'a str,
    pub first: &'a str,
    pub second: &'a str,
}

impl<'a> SwitchNames<'a> {
    /// The failure to switch a VM for which no endpoint is known.
    pub open spec fn unresolved(self) -> FailureText {
        no_endpoint(self.instance@, self.first@, self.second@)
    }
}

/// A state, switched to local models.
pub open spec fn made_local(state: ModelState) -> ModelState {
    ModelState { mode: ModelMode::Local, ..state }
}

/// What a state with local models leads to when nothing more is asked for: it
/// is saved where an agent resolves an endpoint, and remembers from then on
/// that the other agent's configuration is managed, where that one resolves
/// one.
pub open spec fn settles(
    state: ModelState,
    cfg: CoopConfig,
    names: SwitchNames,
    next: LocalSwitch,
) -> bool {
    if any_resolves(state, cfg) {
        next == (LocalSwitch::Save {
            state: ModelState {
                codex_materialized: state.codex_materialized || codex_resolves(state, cfg),
                ..state
            },
        })
    } else {
        next matches LocalSwitch::Failed(failure) && failure@ == names.unresolved()
    }
}

/// Settles a state with local models.
fn settle(state: ModelState, cfg: &CoopConfig, names: SwitchNames) -> (r: LocalSwitch)
    ensures
        settles(state, *cfg, names, r),
{
    let mut state = state;
    if !has_endpoint(&state, cfg) {
        return LocalSwitch::Failed(
            Failure::refused(
                "No local model endpoint configured for '".to_owned().concat(
                    names.instance,
                ).concat("'.\nSet [").concat(to_lower(names.first).as_str()).concat(
                    ".local_model] or [",
                ).concat(to_lower(names.second).as_str()).concat(
                    ".local_model] in config.toml, or run `coop model ",
                ).concat(names.instance).concat(
                    " local` in an interactive terminal to enter one.",
                ).as_str(),
            ),
        );
    }
    if state.codex_endpoint.is_some() || cfg.codex_local_model.is_some() {
        state.codex_materialized = true;
    }
    LocalSwitch::Save { state }
}

/// Begins to switch a VM to local models. Endpoints are asked for only where no
/// agent resolves one.
pub fn set_local(state: ModelState, cfg: &CoopConfig, names: SwitchNames) -> (r: LocalSwitch)
    ensures
        any_resolves(state, *cfg) ==> settles(made_local(state), *cfg, names, r),
        !any_resolves(state, *cfg) ==> r == (LocalSwitch::AskFirst { state: made_local(state) }),
{
    let mut state = state;
    state.mode = ModelMode::Local;
    if has_endpoint(&state, cfg) {
        settle(state, cfg, names)
    } else {
        LocalSwitch::AskFirst { state }
    }
}

impl LocalSwitch {
    /// Whether a reply answers what is asked for.
    pub open spec fn takes(self, reply: SwitchReply) -> bool {
        match self {
            LocalSwitch::AskFirst { .. } | LocalSwitch::AskSecond { .. } => reply is Endpoint
                || reply is Stopped,
            LocalSwitch::Save { .. } | LocalSwitch::Apply => reply is Done || reply is Stopped,
            LocalSwitch::Switched | LocalSwitch::Failed(_) => false,
        }
    }

    /// Whether a reply answers what is asked for.
    pub fn accepts(&self, reply: &SwitchReply) -> (r: bool)
        ensures
            r == self.takes(*reply),
    {
        match self {
            LocalSwitch::AskFirst { .. } | LocalSwitch::AskSecond { .. } => matches!(
                reply,
                SwitchReply::Endpoint(_) | SwitchReply::Stopped(_)
            ),
            LocalSwitch::Save { .. } | LocalSwitch::Apply => matches!(
                reply,
                SwitchReply::Done | SwitchReply::Stopped(_)
            ),
            LocalSwitch::Switched | LocalSwitch::Failed(_) => false,
        }
    }

    /// What a reply leads to.
    pub open spec fn leads_to(
        self,
        reply: SwitchReply,
        cfg: CoopConfig,
        names: SwitchNames,
        next: LocalSwitch,
    ) -> bool {
        match (self, reply) {
            (LocalSwitch::AskFirst { state }, SwitchReply::Endpoint(entered)) => next == (
            LocalSwitch::AskSecond {
                state: ModelState {
                    claude_endpoint: if entered is Some {
                        entered
                    } else {
                        state.claude_endpoint
                    },
                    ..state
                },
            }),
            (LocalSwitch::AskSecond { state }, SwitchReply::Endpoint(entered)) => settles(
                ModelState {
                    codex_endpoint: if entered is Some {
                        entered
                    } else {
                        state.codex_endpoint
                    },
                    ..state
                },
                cfg,
                names,
                next,
            ),
            (LocalSwitch::Save { .. }, SwitchReply::Done) => next == LocalSwitch::Apply,
            (LocalSwitch::Apply, SwitchReply::Done) => next == LocalSwitch::Switched,
            (_, SwitchReply::Stopped(failure)) => next == LocalSwitch::Failed(failure),
            _ => next == self,
        }
    }

    /// Goes on with a reply.
    pub fn next(self, reply: SwitchReply, cfg: &CoopConfig, names: SwitchNames) -> (r: LocalSwitch)
        requires
            self.takes(reply),
        ensures
            self.leads_to(reply, *cfg, names, r),
    {
        match (self, reply) {
            (LocalSwitch::AskFirst { state }, SwitchReply::Endpoint(entered)) => {
                let mut state = state;
                if entered.is_some() {
                    state.claude_endpoint = entered;
                }
                LocalSwitch::AskSecond { state }
            },
            (LocalSwitch::AskSecond { state }, SwitchReply::Endpoint(entered)) => {
                let mut state = state;
                if entered.is_some() {
                    state.codex_endpoint = entered;
                }
                settle(state, cfg, names)
            },
            (LocalSwitch::Save { .. }, SwitchReply::Done) => LocalSwitch::Apply,
            (LocalSwitch::Apply, SwitchReply::Done) => LocalSwitch::Switched,
            (_, SwitchReply::Stopped(failure)) => LocalSwitch::Failed(failure),
            (state, _) => state,
        }
    }
}

/// A state, switched to remote models.
pub open spec fn made_remote(state: ModelState) -> ModelState {
    ModelState { mode: ModelMode::Remote, ..state }
}

/// Switches a state to remote models. The endpoints are kept, so that a later
/// switch back need not ask for them.
pub fn set_remote(state: ModelState) -> (r: ModelState)
    ensures
        r == made_remote(state),
{
    let mut state = state;
    state.mode = ModelMode::Remote;
    state
}

/// How a new state reaches a VM.
#[derive(Debug, Clone, Copy, PartialEq, Eq, Structural)]
pub enum ApplyPlan {
    /// With its next start.
    OnNextStart,
    /// Now: its agents are set up again, as after a restart.
    Bootstrap,
}

/// Decides how a new state reaches a VM.
pub fn apply_to_running(running: bool) -> (r: ApplyPlan)
    ensures
        r == if running {
            ApplyPlan::Bootstrap
        } else {
            ApplyPlan::OnNextStart
        },
{
    if running {
        ApplyPlan::Bootstrap
    } else {
        ApplyPlan::OnNextStart
    }
}

/// What holds of every state of a switch: it is in local mode, and what is
/// saved has an endpoint for some agent, and remembers that the other agent's
/// configuration is managed where that one has an endpoint.
pub open spec fn is_sound(switch: LocalSwitch, cfg: CoopConfig) -> bool {
    match switch {
        LocalSwitch::AskFirst { state } | LocalSwitch::AskSecond { state } => state.mode
            == ModelMode::Local,
        LocalSwitch::Save { state } => {
            &&& state.mode == ModelMode::Local
            &&& any_resolves(state, cfg)
            &&& codex_resolves(state, cfg) ==> state.codex_materialized
        },
        _ => true,
    }
}

/// A switch begins sound.
pub proof fn switch_begins_sound(
    state: ModelState,
    cfg: CoopConfig,
    names: SwitchNames,
    first: LocalSwitch,
)
    requires
        any_resolves(state, cfg) ==> settles(made_local(state), cfg, names, first),
        !any_resolves(state, cfg) ==> first == (LocalSwitch::AskFirst {
            state: made_local(state),
        }),
    ensures
        is_sound(first, cfg),
{
}

/// A switch stays sound, whatever is replied: a VM is never saved in local mode
/// without an endpoint.
pub proof fn switch_stays_sound(
    switch: LocalSwitch,
    reply: SwitchReply,
    cfg: CoopConfig,
    names: SwitchNames,
    next: LocalSwitch,
)
    requires
        is_sound(switch, cfg),
        switch.takes(reply),
        switch.leads_to(reply, cfg, names, next),
    ensures
        is_sound(next, cfg),
{
}

/// After a switch to remote models, a switch back asks for nothing where
/// anything was known before: it settles on the endpoints that were kept.
pub proof fn switching_back_asks_nothing(state: ModelState, cfg: CoopConfig)
    requires
        any_resolves(state, cfg),
    ensures
        any_resolves(made_remote(state), cfg),
        made_local(made_remote(state)) == made_local(state),
        made_remote(state).claude_endpoint == state.claude_endpoint,
        made_remote(state).codex_endpoint == state.codex_endpoint,
        made_remote(state).codex_materialized == state.codex_materialized,
{
}

/// How far an endpoint is asked for.
#[derive(Debug)]
pub enum EndpointPrompt {
    /// Whether there is one at all.
    Confirm,
    /// Its URL.
    AskUrl,
    /// The name of its model.
    AskModel { url: String },
    /// Its token.
    AskToken { url: String, model: String },
    /// The endpoint is judged as a whole.
    Check { endpoint: LocalModel },
    /// This endpoint was entered, or none.
    Answered(Option<LocalModel>),
    /// No endpoint could be entered.
    Failed(Failure),
}

/// What the user is asked.
#[derive(Debug)]
pub enum Question {
    /// Yes or no.
    Confirm(String),
    /// A line of text.
    ReadLine(String),
    /// Nothing of the user: whether the endpoint can be used.
    Check,
    /// Nothing more.
    Nothing,
}

/// What a [`Question`] asks.
pub ghost enum QuestionText {
    Confirm(Seq<char>),
    ReadLine(Seq<char>),
    Check,
    Nothing,
}

impl View for Question {
    type V = QuestionText;

    open spec fn view(&self) -> QuestionText {
        match self {
            Question::Confirm(text) => QuestionText::Confirm(text@),
            Question::ReadLine(text) => QuestionText::ReadLine(text@),
            Question::Check => QuestionText::Check,
            Question::Nothing => QuestionText::Nothing,
        }
    }
}

/// What the user answers.
#[derive(Debug)]
pub enum Answer {
    /// Yes, or no.
    Confirmed(bool),
    /// A line of text, or none.
    Line(Option<String>),
    /// The endpoint can be used.
    Accepted,
    /// There is no answer, for this reason.
    Failed(String),
}

/// Begins to ask for an endpoint.
pub fn prompt_endpoint() -> (r: EndpointPrompt)
    ensures
        r == EndpointPrompt::Confirm,
{
    EndpointPrompt::Confirm
}

/// The text of the failure to read a URL that was entered.
pub open spec fn invalid_url(tool: Seq<char>, line: Seq<char>, reason: Seq<char>) -> FailureText {
    refused("invalid "@ + tool + " host URL '"@ + line + "': "@ + reason)
}

/// What a URL that was entered leads to, given what the parser made of it.
pub open spec fn url_leads_to(
    tool: Seq<char>,
    line: Seq<char>,
    parsed: Result<UrlText, Seq<char>>,
    next: EndpointPrompt,
) -> bool {
    match parsed {
        Ok(parts) => next matches EndpointPrompt::AskModel { url } && url@ == parts.text,
        Err(reason) => next.is_failure(invalid_url(tool, line, reason)),
    }
}

/// Goes on with a URL that was entered, given what the parser made of it.
pub fn take_url(tool: &str, line: &str, parsed: Result<UrlParts, String>) -> (r: EndpointPrompt)
    ensures
        url_leads_to(tool@, line@, parsed_text(parsed), r),
{
    match parsed {
        Ok(parts) => EndpointPrompt::AskModel { url: parts.text },
        Err(reason) => EndpointPrompt::Failed(
            Failure::refused(
                "invalid ".to_owned().concat(tool).concat(" host URL '").concat(line).concat(
                    "': ",
                ).concat(reason.as_str()).as_str(),
            ),
        ),
    }
}

impl EndpointPrompt {
    /// What is asked.
    pub open spec fn asks(self, tool: Seq<char>) -> QuestionText {
        match self {
            EndpointPrompt::Confirm => QuestionText::Confirm(
                "Configure a local model for "@ + tool + "?"@,
            ),
            EndpointPrompt::AskUrl => QuestionText::ReadLine(
                tool + " host URL (e.g. http://localhost:11434)"@,
            ),
            EndpointPrompt::AskModel { .. } => QuestionText::ReadLine(tool + " model name"@),
            EndpointPrompt::AskToken { .. } => QuestionText::ReadLine(
                tool + " auth token (optional — press enter to skip)"@,
            ),
            EndpointPrompt::Check { .. } => QuestionText::Check,
            EndpointPrompt::Answered(_) | EndpointPrompt::Failed(_) => QuestionText::Nothing,
        }
    }

    /// What is asked.
    pub fn question(&self, tool: &str) -> (r: Question)
        ensures
            r@ == self.asks(tool@),
    {
        match self {
            EndpointPrompt::Confirm => Question::Confirm(
                "Configure a local model for ".to_owned().concat(tool).concat("?"),
            ),
            EndpointPrompt::AskUrl => Question::ReadLine(
                tool.to_owned().concat(" host URL (e.g. http://localhost:11434)"),
            ),
            EndpointPrompt::AskModel { .. } => Question::ReadLine(
                tool.to_owned().concat(" model name"),
            ),
            EndpointPrompt::AskToken { .. } => Question::ReadLine(
                tool.to_owned().concat(" auth token (optional — press enter to skip)"),
            ),
            EndpointPrompt::Check { .. } => Question::Check,
            EndpointPrompt::Answered(_) | EndpointPrompt::Failed(_) => Question::Nothing,
        }
    }

    /// Whether an answer fits what is asked.
    pub open spec fn takes(self, answer: Answer) -> bool {
        match self {
            EndpointPrompt::Confirm => answer is Confirmed || answer is Failed,
            EndpointPrompt::AskUrl
            | EndpointPrompt::AskModel { .. }
            | EndpointPrompt::AskToken { .. } => answer is Line || answer is Failed,
            EndpointPrompt::Check { .. } => answer is Accepted || answer is Failed,
            EndpointPrompt::Answered(_) | EndpointPrompt::Failed(_) => false,
        }
    }

    /// Whether an answer fits what is asked.
    pub fn accepts(&self, answer: &Answer) -> (r: bool)
        ensures
            r == self.takes(*answer),
    {
        match self {
            EndpointPrompt::Confirm => matches!(answer, Answer::Confirmed(_) | Answer::Failed(_)),
            EndpointPrompt::AskUrl
            | EndpointPrompt::AskModel { .. }
            | EndpointPrompt::AskToken { .. } => matches!(
                answer,
                Answer::Line(_) | Answer::Failed(_)
            ),
            EndpointPrompt::Check { .. } => matches!(answer, Answer::Accepted | Answer::Failed(_)),
            EndpointPrompt::Answered(_) | EndpointPrompt::Failed(_) => false,
        }
    }

    /// Whether this is the given failure.
    pub open spec fn is_failure(self, failure: FailureText) -> bool {
        self matches EndpointPrompt::Failed(held) && held@ == failure
    }

    /// What an answer leads to.
    pub open spec fn leads_to(
        self,
        answer: Answer,
        tool: Seq<char>,
        next: EndpointPrompt,
    ) -> bool {
        match (self, answer) {
            (_, Answer::Failed(reason)) => next.is_failure(refused(reason@)),
            (EndpointPrompt::Confirm, Answer::Confirmed(wanted)) => next == if wanted {
                EndpointPrompt::AskUrl
            } else {
                EndpointPrompt::Answered(None)
            },
            (EndpointPrompt::AskUrl, Answer::Line(Some(line))) => url_leads_to(
                tool,
                line@,
                url_parse(line@),
                next,
            ),
            (EndpointPrompt::AskUrl, Answer::Line(None)) => next.is_failure(
                refused(tool + " host URL is required"@),
            ),
            (EndpointPrompt::AskModel { url }, Answer::Line(Some(model))) => next == (
            EndpointPrompt::AskToken { url, model }),
            (EndpointPrompt::AskModel { .. }, Answer::Line(None)) => next.is_failure(
                refused(tool + " model name is required"@),
            ),
            (EndpointPrompt::AskToken { url, model }, Answer::Line(token)) => next == (
            EndpointPrompt::Check { endpoint: LocalModel { host_url: url, model, token } }),
            (EndpointPrompt::Check { endpoint }, Answer::Accepted) => next
                == EndpointPrompt::Answered(Some(endpoint)),
            _ => next == self,
        }
    }

    /// Goes on with an answer.
    pub fn next(self, answer: Answer, tool: &str) -> (r: EndpointPrompt)
        requires
            self.takes(answer),
        ensures
            self.leads_to(answer, tool@, r),
    {
        match (self, answer) {
            (_, Answer::Failed(reason)) => EndpointPrompt::Failed(
                Failure::refused(reason.as_str()),
            ),
            (EndpointPrompt::Confirm, Answer::Confirmed(wanted)) => if wanted {
                EndpointPrompt::AskUrl
            } else {
                EndpointPrompt::Answered(None)
            },
            (EndpointPrompt::AskUrl, Answer::Line(Some(line))) => take_url(
                tool,
                line.as_str(),
                parse_url(line.as_str()),
            ),
            (EndpointPrompt::AskUrl, Answer::Line(None)) => EndpointPrompt::Failed(
                Failure::refused(tool.to_owned().concat(" host URL is required").as_str()),
            ),
            (EndpointPrompt::AskModel { url }, Answer::Line(Some(model))) =>
            EndpointPrompt::AskToken { url, model },
            (EndpointPrompt::AskModel { .. }, Answer::Line(None)) => EndpointPrompt::Failed(
                Failure::refused(tool.to_owned().concat(" model name is required").as_str()),
            ),
            (EndpointPrompt::AskToken { url, model }, Answer::Line(token)) =>
            EndpointPrompt::Check { endpoint: LocalModel { host_url: url, model, token } },
            (EndpointPrompt::Check { endpoint }, Answer::Accepted) => EndpointPrompt::Answered(
                Some(endpoint),
            ),
            (state, _) => state,
        }
    }
}

} // verus!
