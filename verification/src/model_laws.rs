//! What holds of every switch between cloud and local models.
use vstd::prelude::*;

use crate::config::{CoopConfig, LocalModel};
use crate::failure::Failure;
use crate::model::{
    apply_to_running, cmd_model, lower, prompt_endpoint, render_status, set_local, set_remote,
    take_url, write_tool_line, Answer, ApplyPlan, EndpointPrompt, LocalSwitch, ModelCommand, ModelMode,
    ModelState, Question, ServedModel, SwitchNames, SwitchReply,
};
use crate::url_check::{url_parse, UrlParts};

verus! {

/// Without an argument the status is shown; with a mode the VM is switched to it.
pub proof fn commands_follow_the_argument(action: Option<ModelMode>, command: ModelCommand)
    requires
        call_ensures(cmd_model, (action,), command),
    ensures
        command is ShowStatus <==> action is None,
        command is SetLocal <==> action == Some(ModelMode::Local),
        command is SetRemote <==> action == Some(ModelMode::Remote),
{
}

/// A VM for which any agent has an endpoint, entered or configured, is switched
/// without a question. What is saved is what was known, now in local mode; that
/// Codex is managed is remembered where it has an endpoint, and never forgotten.
pub proof fn known_endpoints_are_saved_at_once(
    state: ModelState,
    cfg: &CoopConfig,
    names: SwitchNames,
    first: LocalSwitch,
)
    requires
        call_ensures(set_local, (state, cfg, names), first),
        state.claude_endpoint is Some || state.codex_endpoint is Some
            || cfg.claude_local_model is Some || cfg.codex_local_model is Some,
    ensures
        first matches LocalSwitch::Save { state: saved } && {
            &&& saved.mode is Local
            &&& saved.claude_endpoint == state.claude_endpoint
            &&& saved.codex_endpoint == state.codex_endpoint
            &&& saved.codex_materialized == (state.codex_materialized
                || state.codex_endpoint is Some || cfg.codex_local_model is Some)
        },
{
}

/// Where nothing is known, both agents' endpoints are asked for, the one after the
/// other. Whatever was entered for an agent is what is saved for it; where either
/// was entered the switch goes on, and where none was it is refused, with a text
/// that names the VM and says what to do.
pub proof fn entered_endpoints_are_saved(
    state: ModelState,
    cfg: &CoopConfig,
    names: SwitchNames,
    first: LocalSwitch,
    for_claude: Option<LocalModel>,
    second: LocalSwitch,
    for_codex: Option<LocalModel>,
    third: LocalSwitch,
)
    requires
        call_ensures(set_local, (state, cfg, names), first),
        state.claude_endpoint is None,
        state.codex_endpoint is None,
        cfg.claude_local_model is None,
        cfg.codex_local_model is None,
        call_ensures(
            LocalSwitch::next,
            (first, SwitchReply::Endpoint(for_claude), cfg, names),
            second,
        ),
        call_ensures(
            LocalSwitch::next,
            (second, SwitchReply::Endpoint(for_codex), cfg, names),
            third,
        ),
    ensures
        first is AskFirst,
        second is AskSecond,
        for_claude is Some || for_codex is Some ==> (third matches LocalSwitch::Save {
            state: saved,
        } && {
            &&& saved.mode is Local
            &&& saved.claude_endpoint == for_claude
            &&& saved.codex_endpoint == for_codex
            &&& saved.codex_materialized == (state.codex_materialized || for_codex is Some)
        }),
        for_claude is None && for_codex is None ==> (third matches LocalSwitch::Failed(failure)
            && failure.cause is Nothing && failure.message@
            == "No local model endpoint configured for '"@ + names.instance@ + "'.\nSet ["@ + lower(
            names.first@,
        ) + ".local_model] or ["@ + lower(names.second@)
            + ".local_model] in config.toml, or run `coop model "@ + names.instance@
            + " local` in an interactive terminal to enter one."@),
{
}

/// From whatever state, the first answer is about the one agent and the second about
/// the other: an endpoint that was entered takes the place of the agent's own, and
/// without one that stays. Nothing else changes but that Codex is managed once it has
/// an endpoint.
pub proof fn each_answer_is_about_its_agent(
    state: ModelState,
    entered: Option<LocalModel>,
    cfg: &CoopConfig,
    names: SwitchNames,
    second: LocalSwitch,
    third: LocalSwitch,
)
    requires
        call_ensures(
            LocalSwitch::next,
            (LocalSwitch::AskFirst { state }, SwitchReply::Endpoint(entered), cfg, names),
            second,
        ),
        call_ensures(
            LocalSwitch::next,
            (LocalSwitch::AskSecond { state }, SwitchReply::Endpoint(entered), cfg, names),
            third,
        ),
    ensures
        second matches LocalSwitch::AskSecond { state: kept } && {
            &&& entered is Some ==> kept.claude_endpoint == entered
            &&& entered is None ==> kept.claude_endpoint == state.claude_endpoint
            &&& kept.codex_endpoint == state.codex_endpoint
            &&& kept.mode == state.mode
            &&& kept.codex_materialized == state.codex_materialized
        },
        third matches LocalSwitch::Save { state: saved } ==> {
            &&& entered is Some ==> saved.codex_endpoint == entered
            &&& entered is None ==> saved.codex_endpoint == state.codex_endpoint
            &&& saved.claude_endpoint == state.claude_endpoint
            &&& saved.mode == state.mode
            &&& saved.codex_materialized == (state.codex_materialized || saved.codex_endpoint
                is Some || cfg.codex_local_model is Some)
        },
        third is Save <==> entered is Some || state.codex_endpoint is Some
            || state.claude_endpoint is Some || cfg.claude_local_model is Some
            || cfg.codex_local_model is Some,
        third is Save || third is Failed,
{
}

/// Lower case changes the twenty-six letters alone, each by the same distance.
pub proof fn lower_case_changes_letters_alone(s: Seq<char>, i: int)
    requires
        0 <= i < s.len(),
    ensures
        lower(s).len() == s.len(),
        'A' <= s[i] <= 'Z' ==> lower(s)[i] as u32 == s[i] as u32 + 32,
        !('A' <= s[i] <= 'Z') ==> lower(s)[i] == s[i],
{
}

/// Once the state is saved it is applied, and then the VM is switched; whatever
/// stops a switch is what it fails with.
pub proof fn switches_save_then_apply(
    switch: LocalSwitch,
    reply: SwitchReply,
    cfg: &CoopConfig,
    names: SwitchNames,
    next: LocalSwitch,
)
    requires
        switch.takes(reply),
        call_ensures(LocalSwitch::next, (switch, reply, cfg, names), next),
    ensures
        switch is Save && reply is Done ==> next is Apply,
        switch is Apply && reply is Done ==> next is Switched,
        next is Apply ==> switch is Save,
        next is Switched ==> switch is Apply,
        reply matches SwitchReply::Stopped(failure) ==> next == LocalSwitch::Failed(failure),
{
}

/// Each state of a switch takes exactly the replies to what it asks for.
pub proof fn switches_take_what_they_ask_for(
    switch: &LocalSwitch,
    reply: &SwitchReply,
    accepted: bool,
)
    requires
        call_ensures(LocalSwitch::accepts, (switch, reply), accepted),
    ensures
        accepted <==> match *switch {
            LocalSwitch::AskFirst { .. } | LocalSwitch::AskSecond { .. } => !(reply is Done),
            LocalSwitch::Save { .. } | LocalSwitch::Apply => !(reply is Endpoint),
            LocalSwitch::Switched | LocalSwitch::Failed(_) => false,
        },
{
}

/// A switch to remote models changes the mode alone.
pub proof fn remote_mode_keeps_everything_else(before: ModelState, after: ModelState)
    requires
        call_ensures(set_remote, (before,), after),
    ensures
        after.mode is Remote,
        after.claude_endpoint == before.claude_endpoint,
        after.codex_endpoint == before.codex_endpoint,
        after.codex_materialized == before.codex_materialized,
{
}

/// There and back: a VM that is switched to remote models and then to local ones is
/// asked nothing where anything was known, and has the endpoints it had.
pub proof fn endpoints_survive_the_way_back(
    state: ModelState,
    away: ModelState,
    cfg: &CoopConfig,
    names: SwitchNames,
    back: LocalSwitch,
)
    requires
        call_ensures(set_remote, (state,), away),
        call_ensures(set_local, (away, cfg, names), back),
        state.claude_endpoint is Some || state.codex_endpoint is Some,
    ensures
        back matches LocalSwitch::Save { state: saved } && {
            &&& saved.mode is Local
            &&& saved.claude_endpoint == state.claude_endpoint
            &&& saved.codex_endpoint == state.codex_endpoint
            &&& state.codex_materialized ==> saved.codex_materialized
        },
{
}

/// A new state reaches a running VM now, and a stopped one with its next start.
pub proof fn running_vms_are_set_up_now(running: bool, plan: ApplyPlan)
    requires
        call_ensures(apply_to_running, (running,), plan),
    ensures
        plan is Bootstrap <==> running,
        plan is OnNextStart <==> !running,
{
}

/// What the user enters, step by step, is the endpoint: the URL as the parser wrote
/// it, the model's name, and the token, where one was entered.
pub proof fn entered_parts_are_the_endpoint(
    tool: &str,
    s0: EndpointPrompt,
    s1: EndpointPrompt,
    url: String,
    s2: EndpointPrompt,
    model: String,
    s3: EndpointPrompt,
    token: Option<String>,
    s4: EndpointPrompt,
    s5: EndpointPrompt,
)
    requires
        call_ensures(prompt_endpoint, (), s0),
        call_ensures(EndpointPrompt::next, (s0, Answer::Confirmed(true), tool), s1),
        call_ensures(EndpointPrompt::next, (s1, Answer::Line(Some(url)), tool), s2),
        url_parse(url@) is Ok,
        call_ensures(EndpointPrompt::next, (s2, Answer::Line(Some(model)), tool), s3),
        call_ensures(EndpointPrompt::next, (s3, Answer::Line(token), tool), s4),
        call_ensures(EndpointPrompt::next, (s4, Answer::Accepted, tool), s5),
    ensures
        s5 matches EndpointPrompt::Answered(Some(endpoint)) && {
            &&& endpoint.host_url@ == url_parse(url@)->Ok_0.text
            &&& endpoint.model == model
            &&& endpoint.token == token
        },
{
}

/// A user who wants no endpoint is asked no more. Without a URL, with one that
/// cannot be read, or without a model's name, there is no endpoint, and the text
/// says which of these it is; what keeps an answer from coming is passed on.
pub proof fn questions_end_where_an_answer_is_missing(
    prompt: EndpointPrompt,
    answer: Answer,
    tool: &str,
    next: EndpointPrompt,
)
    requires
        prompt.takes(answer),
        call_ensures(EndpointPrompt::next, (prompt, answer, tool), next),
    ensures
        prompt is Confirm && answer == Answer::Confirmed(false) ==> next
            == EndpointPrompt::Answered(None),
        prompt is AskUrl && answer == Answer::Line(None) ==> (
        next matches EndpointPrompt::Failed(failure)
            && failure.cause is Nothing && failure.message@ == tool@
            + " host URL is required"@),
        prompt is AskUrl ==> (answer matches Answer::Line(Some(line)) ==> (url_parse(
            line@,
        ) matches Err(reason) ==> (next matches EndpointPrompt::Failed(failure)
                && failure.cause is Nothing && failure.message@
                == "invalid "@ + tool@ + " host URL '"@ + line@ + "': "@ + reason))),
        prompt is AskModel && answer == Answer::Line(None) ==> (
        next matches EndpointPrompt::Failed(failure)
            && failure.cause is Nothing && failure.message@ == tool@
            + " model name is required"@),
        answer matches Answer::Failed(reason) ==> (next matches EndpointPrompt::Failed(failure)
            && failure.cause is Nothing && failure.message@ == reason@),
        next matches EndpointPrompt::Answered(Some(endpoint)) ==> prompt == (
        EndpointPrompt::Check { endpoint }) && answer is Accepted,
{
}

/// A URL that was entered is taken as the parser wrote it; where it could not be
/// parsed, the text names the agent, the line and the reason.
pub proof fn entered_urls_are_taken_as_parsed(
    tool: &str,
    line: &str,
    parsed: Result<UrlParts, String>,
    next: EndpointPrompt,
)
    requires
        call_ensures(take_url, (tool, line, parsed), next),
    ensures
        match parsed {
            Ok(parts) => next matches EndpointPrompt::AskModel { url } && url@ == parts.text@,
            Err(reason) => next matches EndpointPrompt::Failed(failure) && failure.cause is Nothing
                && failure.message@ == "invalid "@ + tool@ + " host URL '"@ + line@ + "': "@
                + reason@,
        },
{
}

/// The modes are named by what they are.
pub proof fn modes_have_names(mode: &ModelMode, name: &'static str)
    requires
        call_ensures(ModelMode::as_str, (mode,), name),
    ensures
        name@ == if *mode == ModelMode::Local {
            "local"@
        } else {
            "remote"@
        },
{
}

/// Each question names the agent and what is wanted.
pub proof fn questions_say_what_is_wanted(prompt: &EndpointPrompt, tool: &str, asked: Question)
    requires
        call_ensures(EndpointPrompt::question, (prompt, tool), asked),
    ensures
        match *prompt {
            EndpointPrompt::Confirm => asked matches Question::Confirm(text) && text@
                == "Configure a local model for "@ + tool@ + "?"@,
            EndpointPrompt::AskUrl => asked matches Question::ReadLine(text) && text@ == tool@
                + " host URL (e.g. http://localhost:11434)"@,
            EndpointPrompt::AskModel { .. } => asked matches Question::ReadLine(text) && text@
                == tool@ + " model name"@,
            EndpointPrompt::AskToken { .. } => asked matches Question::ReadLine(text) && text@
                == tool@ + " auth token (optional — press enter to skip)"@,
            EndpointPrompt::Check { .. } => asked is Check,
            EndpointPrompt::Answered(_) | EndpointPrompt::Failed(_) => asked is Nothing,
        },
{
}

/// Each question takes exactly the answers to it, and a failure to answer.
pub proof fn questions_take_their_answers(prompt: &EndpointPrompt, answer: &Answer, accepted: bool)
    requires
        call_ensures(EndpointPrompt::accepts, (prompt, answer), accepted),
    ensures
        accepted <==> match *prompt {
            EndpointPrompt::Confirm => answer is Confirmed || answer is Failed,
            EndpointPrompt::AskUrl => answer is Line || answer is Failed,
            EndpointPrompt::AskModel { .. } => answer is Line || answer is Failed,
            EndpointPrompt::AskToken { .. } => answer is Line || answer is Failed,
            EndpointPrompt::Check { .. } => answer is Accepted || answer is Failed,
            _ => false,
        },
{
}

/// Whether a text is a label, filled up with spaces to nine characters.
pub open spec fn is_label(text: Seq<char>, label: Seq<char>) -> bool {
    &&& label.is_prefix_of(text)
    &&& text.len() == if label.len() < 9 {
        9
    } else {
        label.len()
    }
    &&& forall|i: int| label.len() <= i < text.len() ==> #[trigger] text[i] == ' '
}

/// The line of an agent shows the model and the guest's URL of its endpoint exactly
/// in local mode; else it says that the agent uses the cloud.
pub proof fn lines_show_where_a_model_is_served(
    label: &str,
    mode: ModelMode,
    endpoint: Option<ServedModel>,
    line: String,
)
    requires
        call_ensures(write_tool_line, (label, mode, endpoint), line),
    ensures
        exists|start: Seq<char>| #[trigger]
            is_label(start, label@) && line@ == start + match endpoint {
                Some(served) if mode is Local => " local — "@ + served.model@ + " @ "@
                    + served.guest_url@ + "\n"@,
                _ => if mode is Local {
                    " cloud (no local endpoint configured)\n"@
                } else {
                    " cloud\n"@
                },
            },
{
    let start = crate::text::padded(label@, 9);
    assert(start.subrange(0, label@.len() as int) =~= label@);
    assert(is_label(start, label@));
}

/// The status shows the VM and its mode first. It then has a line for each agent, in
/// order, up to the first whose URL cannot be told; that is what it fails with.
pub proof fn status_shows_the_vm_and_its_agents(
    instance: &str,
    mode: ModelMode,
    first: (&str, Result<Option<ServedModel>, Failure>),
    second: (&str, Result<Option<ServedModel>, Failure>),
    status: (String, Option<Failure>),
    first_line: String,
    second_line: String,
)
    requires
        call_ensures(render_status, (instance, mode, first, second), status),
        first.1 is Ok ==> call_ensures(write_tool_line, (first.0, mode, first.1->Ok_0), first_line),
        second.1 is Ok ==> call_ensures(
            write_tool_line,
            (second.0, mode, second.1->Ok_0),
            second_line,
        ),
    ensures
        ({
            let head = "Instance: "@ + instance@ + "\nMode:     "@ + (if mode is Local {
                "local"@
            } else {
                "remote"@
            }) + "\n"@;
            &&& first.1 matches Err(failure) ==> status.0@ == head && (
            status.1 matches Some(held) && held@ == failure@)
            &&& first.1 is Ok ==> (second.1 matches Err(failure) ==> status.0@ == head
                + first_line@ && (status.1 matches Some(held) && held@ == failure@))
            &&& first.1 is Ok && second.1 is Ok ==> status.0@ == head + first_line@ + second_line@
                && status.1 is None
        }),
{
}

} // verus!
