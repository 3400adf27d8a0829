//! Commands for the host, and the environment they must not inherit.
use vstd::prelude::*;

use crate::text::{same_text, str_texts, strings, texts};

verus! {

/// The name of the gateway VM.
pub const GATEWAY_NAME: &'static str = "coop-egress";

/// A command for the host.
#[derive(Debug)]
pub struct Cmd {
    /// The program, looked up by the host.
    pub program: String,
    /// Its arguments.
    pub args: Vec<String>,
    /// The variables that it does not inherit.
    pub env_removed: Vec<String>,
    /// What it reads from its standard input, where it is given any.
    pub stdin: Option<Vec<u8>>,
}

/// What a [`Cmd`] holds.
#[verifier::ext_equal]
pub ghost struct CmdText {
    pub program: Seq<char>,
    pub args: Seq<Seq<char>>,
    pub env_removed: Seq<Seq<char>>,
    pub stdin: Option<Seq<u8>>,
}

impl View for Cmd {
    type V = CmdText;

    open spec fn view(&self) -> CmdText {
        CmdText {
            program: self.program@,
            args: texts(self.args@),
            env_removed: texts(self.env_removed@),
            stdin: match self.stdin {
                Some(bytes) => Some(bytes@),
                None => None,
            },
        }
    }
}

/// The variables that configure a proxy.
pub open spec fn proxy_names() -> Seq<Seq<char>> {
    seq![
        "HTTP_PROXY"@,
        "HTTPS_PROXY"@,
        "ALL_PROXY"@,
        "NO_PROXY"@,
        "http_proxy"@,
        "https_proxy"@,
        "all_proxy"@,
        "no_proxy"@,
    ]
}

/// The variables that configure a proxy.
pub fn proxy_env_names() -> (r: [&'static str; 8])
    ensures
        str_texts(r@) == proxy_names(),
{
    let names: [&'static str; 8] = [
        "HTTP_PROXY",
        "HTTPS_PROXY",
        "ALL_PROXY",
        "NO_PROXY",
        "http_proxy",
        "https_proxy",
        "all_proxy",
        "no_proxy",
    ];
    proof {
        assert(str_texts(names@) =~= proxy_names());
    }
    names
}

/// Whether a variable configures a proxy.
pub fn is_proxy_env_name(name: &str) -> (r: bool)
    ensures
        r == proxy_names().contains(name@),
{
    let names = proxy_env_names();
    for i in 0..8
        invariant
            str_texts(names@) == proxy_names(),
            names@.len() == 8,
            forall|j: int| 0 <= j < i ==> name@ != #[trigger] proxy_names()[j],
    {
        proof {
            assert(str_texts(names@)[i as int] == names@[i as int]@);
        }
        if same_text(names[i], name) {
            return true;
        }
    }
    false
}

/// A command without the variables that configure a proxy.
pub open spec fn direct(program: Seq<char>, args: Seq<Seq<char>>, stdin: Option<Seq<u8>>) -> CmdText {
    CmdText { program, args, env_removed: proxy_names(), stdin }
}

/// Whether a command inherits no variable that configures a proxy.
pub open spec fn inherits_no_proxy(cmd: CmdText) -> bool {
    forall|name: Seq<char>| proxy_names().contains(name) ==> #[trigger] cmd.env_removed.contains(name)
}

impl Cmd {
    /// A command that inherits no variable that configures a proxy.
    fn without_proxies(program: &str) -> (r: Self)
        ensures
            r@ == direct(program@, seq![], None),
    {
        let names = proxy_env_names();
        let r = Cmd {
            program: program.to_owned(),
            args: Vec::new(),
            env_removed: strings(&names),
            stdin: None,
        };
        proof {
            assert(r@ =~= direct(program@, seq![], None));
        }
        r
    }

    /// With one more argument.
    pub fn arg(self, arg: &str) -> (r: Self)
        ensures
            r@ == (CmdText { args: self@.args.push(arg@), ..self@ }),
    {
        let mut r = self;
        r.args.push(arg.to_owned());
        proof {
            assert(texts(r.args@) =~= texts(self.args@).push(arg@));
        }
        r
    }

    /// With more arguments.
    pub fn args(self, args: &[&str]) -> (r: Self)
        ensures
            r@ == (CmdText { args: self@.args + str_texts(args@), ..self@ }),
    {
        let mut r = self;
        let mut more = strings(args);
        let ghost added = texts(more@);
        r.args.append(&mut more);
        proof {
            assert(texts(r.args@) =~= texts(self.args@) + added);
        }
        r
    }

    /// With these bytes on its standard input.
    pub fn stdin_input(self, bytes: Vec<u8>) -> (r: Self)
        ensures
            r@ == (CmdText { stdin: Some(bytes@), ..self@ }),
    {
        let mut r = self;
        r.stdin = Some(bytes);
        r
    }
}

/// The arguments that keep a download on HTTPS, and retry it.
pub open spec fn https_args() -> Seq<Seq<char>> {
    seq![
        "--proto"@,
        "=https"@,
        "--proto-redir"@,
        "=https"@,
        "--retry"@,
        "3"@,
        "--retry-all-errors"@,
        "--retry-delay"@,
        "1"@,
    ]
}

/// Lima on the host, reached directly.
pub fn lima_cmd() -> (r: Cmd)
    ensures
        r@ == direct("limactl"@, seq![], None),
{
    Cmd::without_proxies("limactl")
}

/// curl on the host, reaching out directly.
pub fn host_curl_cmd() -> (r: Cmd)
    ensures
        r@ == direct("curl"@, seq![], None),
{
    Cmd::without_proxies("curl")
}

/// curl on the host, reaching out directly, over HTTPS alone, even where it is
/// redirected, and with retries.
pub fn host_https_curl_cmd() -> (r: Cmd)
    ensures
        r@ == direct("curl"@, https_args(), None),
{
    let args: [&str; 9] = [
        "--proto",
        "=https",
        "--proto-redir",
        "=https",
        "--retry",
        "3",
        "--retry-all-errors",
        "--retry-delay",
        "1",
    ];
    let r = host_curl_cmd().args(&args);
    proof {
        assert(r@.args =~= https_args());
    }
    r
}

/// Whatever is added to a command for the host, it inherits no variable that
/// configures a proxy.
pub proof fn commands_inherit_no_proxy(
    program: Seq<char>,
    args: Seq<Seq<char>>,
    stdin: Option<Seq<u8>>,
)
    ensures
        inherits_no_proxy(direct(program, args, stdin)),
{
}

/// A command inside the gateway VM.
pub open spec fn gateway_args(args: Seq<Seq<char>>) -> Seq<Seq<char>> {
    seq!["shell"@, GATEWAY_NAME@, "--"@] + args
}

/// A command inside the gateway VM, run through Lima.
pub open spec fn in_gateway(args: Seq<Seq<char>>, stdin: Option<Seq<u8>>) -> CmdText {
    direct("limactl"@, gateway_args(args), stdin)
}

/// Lima, with a command for the gateway VM.
pub fn gateway_cmd(args: &[&str]) -> (r: Cmd)
    ensures
        r@ == in_gateway(str_texts(args@), None),
{
    let r = lima_cmd().arg("shell").arg(GATEWAY_NAME).arg("--").args(args);
    proof {
        assert(r@.args =~= gateway_args(str_texts(args@)));
    }
    r
}

} // verus!
