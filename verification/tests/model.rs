use coop_egress::config::{CoopConfig, LocalModel};
use coop_egress::failure::Failure;
use coop_egress::model::{
    apply_to_running, cmd_model, prompt_endpoint, render_status, set_local, set_remote, Answer,
    ApplyPlan, EndpointPrompt, LocalSwitch, ModelCommand, ModelMode, ModelState, Question,
    ServedModel, SwitchNames, SwitchReply,
};
use coop_egress::private_egress::RestrictedAgent;

fn endpoint(model: &str) -> LocalModel {
    LocalModel {
        host_url: "http://localhost:11434/".to_string(),
        model: model.to_string(),
        token: None,
    }
}

fn fresh() -> ModelState {
    ModelState {
        mode: ModelMode::Remote,
        claude_endpoint: None,
        codex_endpoint: None,
        codex_materialized: false,
    }
}

fn names() -> SwitchNames<'static> {
    SwitchNames { instance: "box", first: "First", second: "Codex" }
}

#[test]
fn model_commands_are_told_apart() {
    assert_eq!(cmd_model(None), ModelCommand::ShowStatus);
    assert_eq!(cmd_model(Some(ModelMode::Local)), ModelCommand::SetLocal);
    assert_eq!(cmd_model(Some(ModelMode::Remote)), ModelCommand::SetRemote);
}

#[test]
fn status_shows_each_tool() {
    let label = format!("{:?}", RestrictedAgent::Claude);
    let served = ServedModel { model: "qwen", guest_url: "http://10.0.0.1:11434/" };
    let (text, failure) =
        render_status("box", ModelMode::Local, (&label, Ok(Some(served))), ("Codex", Ok(None)));
    assert_eq!(
        text,
        format!(
            "Instance: box\nMode:     local\n{label:<9} local — qwen @ http://10.0.0.1:11434/\nCodex     cloud (no local endpoint configured)\n"
        )
    );
    assert!(failure.is_none());
    let (text, failure) =
        render_status("box", ModelMode::Remote, (&label, Ok(Some(served))), ("Codex", Ok(None)));
    assert_eq!(text, format!("Instance: box\nMode:     remote\n{label:<9} cloud\nCodex     cloud\n"));
    assert!(failure.is_none());
}

#[test]
fn status_ends_before_a_url_that_cannot_be_told() {
    let head = "Instance: box\nMode:     local\n";
    let (text, failure) = render_status(
        "box",
        ModelMode::Local,
        ("First", Err(Failure::refused("bad"))),
        ("Codex", Ok(None)),
    );
    assert_eq!(text, head);
    assert_eq!(failure.expect("failure").message, "bad");
    let (text, failure) = render_status(
        "box",
        ModelMode::Local,
        ("First", Ok(None)),
        ("Codex", Err(Failure::refused("bad"))),
    );
    assert_eq!(text, format!("{head}First     cloud (no local endpoint configured)\n"));
    assert_eq!(failure.expect("failure").message, "bad");
}

#[test]
fn configured_endpoints_are_not_asked_for() {
    let mut cfg = CoopConfig::default();
    cfg.codex_local_model = Some(endpoint("m"));
    match set_local(fresh(), &cfg, names()) {
        LocalSwitch::Save { state } => {
            assert_eq!(state.mode, ModelMode::Local);
            assert!(state.codex_materialized);
            assert!(state.codex_endpoint.is_none());
        }
        other => panic!("{other:?}"),
    }
    let mut state = fresh();
    state.claude_endpoint = Some(endpoint("m"));
    match set_local(state, &CoopConfig::default(), names()) {
        LocalSwitch::Save { state } => assert!(!state.codex_materialized),
        other => panic!("{other:?}"),
    }
}

#[test]
fn entered_endpoints_are_kept_and_applied() {
    let cfg = CoopConfig::default();
    let switch = set_local(fresh(), &cfg, names());
    assert!(matches!(switch, LocalSwitch::AskFirst { .. }));
    assert!(!switch.accepts(&SwitchReply::Done));
    let switch = switch.next(SwitchReply::Endpoint(None), &cfg, names());
    let switch = switch.next(SwitchReply::Endpoint(Some(endpoint("m"))), &cfg, names());
    match &switch {
        LocalSwitch::Save { state } => {
            assert!(state.claude_endpoint.is_none());
            assert_eq!(state.codex_endpoint.as_ref().map(|e| e.model.as_str()), Some("m"));
            assert!(state.codex_materialized);
        }
        other => panic!("{other:?}"),
    }
    let switch = switch.next(SwitchReply::Done, &cfg, names());
    assert!(matches!(switch, LocalSwitch::Apply));
    let switch = switch.next(SwitchReply::Done, &cfg, names());
    assert!(matches!(switch, LocalSwitch::Switched));
}

#[test]
fn local_mode_without_any_endpoint_is_refused() {
    let cfg = CoopConfig::default();
    let switch = set_local(fresh(), &cfg, names())
        .next(SwitchReply::Endpoint(None), &cfg, names())
        .next(SwitchReply::Endpoint(None), &cfg, names());
    match switch {
        LocalSwitch::Failed(failure) => assert_eq!(
            failure.message,
            "No local model endpoint configured for 'box'.\nSet [first.local_model] or [codex.local_model] in config.toml, or run `coop model box local` in an interactive terminal to enter one."
        ),
        other => panic!("{other:?}"),
    }
    let stopped = set_local(fresh(), &cfg, names()).next(
        SwitchReply::Stopped(Failure::refused("cancelled")),
        &cfg,
        names(),
    );
    assert!(matches!(stopped, LocalSwitch::Failed(failure) if failure.message == "cancelled"));
}

#[test]
fn remote_mode_keeps_endpoints_for_the_way_back() {
    let mut state = fresh();
    state.mode = ModelMode::Local;
    state.claude_endpoint = Some(endpoint("m"));
    state.codex_materialized = true;
    let state = set_remote(state);
    assert_eq!(state.mode, ModelMode::Remote);
    assert!(state.claude_endpoint.is_some());
    assert!(state.codex_materialized);
    match set_local(state, &CoopConfig::default(), names()) {
        LocalSwitch::Save { state } => assert!(state.codex_materialized),
        other => panic!("{other:?}"),
    }
}

#[test]
fn settings_reach_a_stopped_vm_with_its_next_start() {
    assert_eq!(apply_to_running(true), ApplyPlan::Bootstrap);
    assert_eq!(apply_to_running(false), ApplyPlan::OnNextStart);
}

fn ask(answers: Vec<Answer>) -> (Vec<Question>, EndpointPrompt) {
    let mut prompt = prompt_endpoint();
    let mut asked = Vec::new();
    for answer in answers {
        assert!(prompt.accepts(&answer));
        asked.push(prompt.question("Codex"));
        prompt = prompt.next(answer, "Codex");
    }
    (asked, prompt)
}

fn line(text: &str) -> Answer {
    Answer::Line(Some(text.to_string()))
}

#[test]
fn endpoint_is_asked_for_step_by_step() {
    let (asked, end) = ask(vec![
        Answer::Confirmed(true),
        line("HTTP://LocalHost:11434"),
        line("qwen"),
        Answer::Line(None),
        Answer::Accepted,
    ]);
    match end {
        EndpointPrompt::Answered(Some(model)) => {
            assert_eq!(model.host_url, "http://localhost:11434/");
            assert_eq!(model.model, "qwen");
            assert_eq!(model.token, None);
        }
        other => panic!("{other:?}"),
    }
    assert!(matches!(&asked[0], Question::Confirm(text) if text == "Configure a local model for Codex?"));
    assert!(matches!(&asked[1], Question::ReadLine(text)
        if text == "Codex host URL (e.g. http://localhost:11434)"));
    assert!(matches!(&asked[2], Question::ReadLine(text) if text == "Codex model name"));
    assert!(matches!(&asked[3], Question::ReadLine(text)
        if text == "Codex auth token (optional — press enter to skip)"));
    assert!(matches!(&asked[4], Question::Check));
    assert!(matches!(ask(vec![Answer::Confirmed(false)]).1, EndpointPrompt::Answered(None)));
}

#[test]
fn each_failure_of_the_questions_has_its_message() {
    let cases: Vec<(Vec<Answer>, &str)> = vec![
        (vec![Answer::Failed("no terminal".to_string())], "no terminal"),
        (vec![Answer::Confirmed(true), Answer::Line(None)], "Codex host URL is required"),
        (
            vec![Answer::Confirmed(true), line("nowhere")],
            "invalid Codex host URL 'nowhere': relative URL without a base",
        ),
        (
            vec![Answer::Confirmed(true), line("http://h"), Answer::Line(None)],
            "Codex model name is required",
        ),
        (
            vec![
                Answer::Confirmed(true),
                line("http://h"),
                line("m"),
                line("t"),
                Answer::Failed("unusable".to_string()),
            ],
            "unusable",
        ),
    ];
    for (answers, message) in cases {
        match ask(answers).1 {
            EndpointPrompt::Failed(failure) => assert_eq!(failure.message, message),
            other => panic!("{other:?}"),
        }
    }
}
