use coop_egress::effects::Reply;
use coop_egress::failure::Failure;
use coop_egress::rootfs::{
    build, build_rootfs, fetch_kernel, is_answer, project_root, Artifact, BuildAction, ImageBuild,
    Provision, RootSearch,
};
use coop_egress::signal::{
    check_shutdown, handle_signal, install_handlers, shutdown_requested, EndSignal, ShutdownState,
    SignalGuard,
};

fn text(s: &str) -> Reply {
    Reply::Text(s.to_string())
}

fn why() -> Reply {
    Reply::Failed("why".to_string())
}

#[test]
fn image_is_built_of_kernel_and_rootfs() {
    let mut state = build();
    let mut asked = Vec::new();
    for reply in [Reply::Done, Reply::Done, Reply::Done] {
        let action = state.action("/data");
        assert!(is_answer(&reply, &action));
        asked.push(action);
        state = state.next(reply, "/data");
    }
    assert!(matches!(state, ImageBuild::Built));
    assert!(matches!(&asked[0], BuildAction::MakeDirectory(path) if path == "/data"));
    assert!(matches!(&asked[1], BuildAction::Provision(Artifact::Kernel)));
    assert!(matches!(&asked[2], BuildAction::Provision(Artifact::Rootfs)));
    assert!(matches!(build().next(why(), "/data"), ImageBuild::Failed(failure)
        if failure.message == "Failed to create data directory"));
    let stopped = build()
        .next(Reply::Done, "/data")
        .next(Reply::Stopped(Failure::refused("no kernel")), "/data");
    assert!(matches!(stopped, ImageBuild::Failed(failure) if failure.message == "no kernel"));
}

#[test]
fn artifacts_are_made_by_their_scripts() {
    assert!(matches!(
        fetch_kernel().next(Reply::Holds(true), Artifact::Kernel, "/k"),
        Provision::Present
    ));
    let script = build_rootfs()
        .next(Reply::Holds(false), Artifact::Rootfs, "/t")
        .next(text("/src"), Artifact::Rootfs, "/t");
    assert!(matches!(script.action("/t"), BuildAction::Exists(path)
        if path == "/src/scripts/build-rootfs.sh"));
    let run = script.next(Reply::Holds(true), Artifact::Rootfs, "/t");
    match run.action("/t") {
        BuildAction::Script(cmd) => {
            assert_eq!(cmd.program, "bash");
            assert_eq!(cmd.args, ["/src/scripts/build-rootfs.sh", "/t"]);
            assert!(cmd.env_removed.is_empty());
        }
        other => panic!("{other:?}"),
    }
    assert!(matches!(run.next(Reply::Holds(true), Artifact::Rootfs, "/t"), Provision::Present));
}

#[test]
fn each_failure_of_an_artifact_has_its_message() {
    let cases: Vec<(Artifact, Vec<Reply>, &str)> = vec![
        (
            Artifact::Kernel,
            vec![Reply::Holds(false), text("/s"), Reply::Holds(false)],
            "Kernel fetch script not found at /s/scripts/fetch-kernel.sh",
        ),
        (
            Artifact::Rootfs,
            vec![Reply::Holds(false), text("/s"), Reply::Holds(false)],
            "Rootfs build script not found at /s/scripts/build-rootfs.sh",
        ),
        (
            Artifact::Kernel,
            vec![Reply::Holds(false), text("/s"), Reply::Holds(true), why()],
            "Failed to run kernel fetch script",
        ),
        (
            Artifact::Rootfs,
            vec![Reply::Holds(false), text("/s"), Reply::Holds(true), why()],
            "Failed to run rootfs build script",
        ),
        (
            Artifact::Kernel,
            vec![Reply::Holds(false), text("/s"), Reply::Holds(true), Reply::Holds(false)],
            "Kernel fetch script failed",
        ),
        (
            Artifact::Rootfs,
            vec![Reply::Holds(false), text("/s"), Reply::Holds(true), Reply::Holds(false)],
            "Rootfs build script failed",
        ),
        (
            Artifact::Kernel,
            vec![Reply::Holds(false), Reply::Stopped(Failure::refused("no root"))],
            "no root",
        ),
    ];
    for (artifact, replies, message) in cases {
        let mut state = Provision::Look;
        for reply in replies {
            assert!(is_answer(&reply, &state.action("/t")));
            state = state.next(reply, artifact, "/t");
        }
        match state {
            Provision::Failed(failure) => assert_eq!(failure.message, message),
            other => panic!("{other:?}"),
        }
    }
}

#[test]
fn root_is_searched_above_the_program_and_then_here() {
    let mut state = project_root().next(text("/p/target/debug/deps/x/y/coop"));
    let mut tried = Vec::new();
    for _ in 0..5 {
        match state.action() {
            BuildAction::Exists(path) => tried.push(path),
            other => panic!("{other:?}"),
        }
        state = state.next(Reply::Holds(false));
    }
    assert_eq!(
        tried,
        [
            "/p/target/debug/deps/x/y/Cargo.toml",
            "/p/target/debug/deps/x/Cargo.toml",
            "/p/target/debug/deps/Cargo.toml",
            "/p/target/debug/Cargo.toml",
            "/p/target/Cargo.toml"
        ]
    );
    assert!(matches!(state, RootSearch::AskDirectory));
    let here = state.next(text("/work"));
    assert!(matches!(here.action(), BuildAction::Exists(path) if path == "/work/Cargo.toml"));
    assert!(matches!(here.next(Reply::Holds(true)), RootSearch::Found(dir) if dir == "/work"));
    let near = project_root().next(text("/p/target/coop")).next(Reply::Holds(false));
    assert!(matches!(near.next(Reply::Holds(true)), RootSearch::Found(dir) if dir == "/p"));
}

#[test]
fn each_failure_of_the_search_has_its_message() {
    assert!(matches!(project_root().next(why()), RootSearch::Failed(failure)
        if failure.message == "Failed to get executable path"));
    assert!(matches!(RootSearch::AskDirectory.next(why()), RootSearch::Failed(failure)
        if failure.message == "Failed to get current directory"));
    let lost = RootSearch::AskDirectory.next(text("/")).next(Reply::Holds(false));
    assert!(matches!(lost, RootSearch::Failed(failure)
        if failure.message == "Could not locate project root (directory containing Cargo.toml)"));
}

#[test]
fn signal_asks_the_program_to_end() {
    let state = ShutdownState { requested: false };
    assert!(!shutdown_requested(state));
    assert!(check_shutdown(state).is_ok());
    let state = handle_signal(handle_signal(state));
    assert!(shutdown_requested(state));
    let failure = check_shutdown(state).expect_err("asked to end");
    assert_eq!(failure.message, "Interrupted by signal — cleaning up");
}

#[test]
fn handlers_are_restored_as_they_were() {
    assert_eq!(install_handlers(), [EndSignal::Interrupt, EndSignal::Terminate]);
    let guard = SignalGuard::new(3, 4);
    assert_eq!(
        guard.restore_handlers(),
        [(EndSignal::Interrupt, 3), (EndSignal::Terminate, 4)]
    );
}

/// A system with a table of handlers, and the program's own handler.
struct System {
    handlers: [usize; 2],
    state: ShutdownState,
}

const OURS: usize = 7;

impl System {
    fn tell(&mut self, signal: EndSignal, handler: usize) -> usize {
        std::mem::replace(&mut self.handlers[signal as usize], handler)
    }

    fn install(&mut self) -> SignalGuard {
        let [interrupt, terminate] = install_handlers().map(|signal| self.tell(signal, OURS));
        SignalGuard::new(interrupt, terminate)
    }

    fn restore(&mut self, guard: &SignalGuard) {
        for (signal, handler) in guard.restore_handlers() {
            self.tell(signal, handler);
        }
    }

    fn deliver(&mut self, signal: EndSignal) {
        if self.handlers[signal as usize] == OURS {
            self.state = handle_signal(self.state);
        }
    }
}

#[test]
fn only_signals_that_find_the_handlers_ask_the_program_to_end() {
    for signal in [EndSignal::Interrupt, EndSignal::Terminate] {
        let mut system =
            System { handlers: [3, 4], state: ShutdownState { requested: false } };
        system.deliver(signal);
        assert!(!shutdown_requested(system.state));
        let outer = system.install();
        let inner = system.install();
        system.restore(&inner);
        assert_eq!(system.handlers, [OURS, OURS]);
        system.restore(&outer);
        assert_eq!(system.handlers, [3, 4]);
        system.deliver(signal);
        assert!(!shutdown_requested(system.state));
        let guard = system.install();
        assert!(check_shutdown(system.state).is_ok());
        system.deliver(signal);
        assert!(shutdown_requested(system.state));
        assert!(check_shutdown(system.state).is_err());
        system.restore(&guard);
        system.install();
        assert!(shutdown_requested(system.state));
    }
}
