//! The commands with which the gateway VM is created, filled and asked.
use vstd::prelude::*;
use vstd::utf8::encode_utf8;

use crate::command::{
    direct, gateway_cmd, host_curl_cmd, host_https_curl_cmd, https_args, in_gateway, lima_cmd, Cmd,
    CmdText, GATEWAY_NAME,
};
use crate::ipv4::Ipv4Address;
use crate::scripts::GATEWAY_SETUP_SCRIPT;

verus! {

/// Succeeds where the tunnel runs and forwarding is open.
pub open spec fn health_cmd_text() -> CmdText {
    in_gateway(
        seq![
            "sudo"@,
            "sh"@,
            "-c"@,
            "systemctl is-active --quiet mihomo.service && ip link show coop-egress >/dev/null && nft list chain inet coop_gateway_killswitch forward | grep -q 'oifname \\\"coop-egress\\\" accept'"@,
        ],
        None,
    )
}

/// Succeeds where the tunnel runs and forwarding is open.
pub fn health_cmd() -> (r: Cmd)
    ensures
        r@ == health_cmd_text(),
{
    let args: [&str; 4] = [
        "sudo",
        "sh",
        "-c",
        "systemctl is-active --quiet mihomo.service && ip link show coop-egress >/dev/null && nft list chain inet coop_gateway_killswitch forward | grep -q 'oifname \\\"coop-egress\\\" accept'",
    ];
    let r = gateway_cmd(&args);
    proof {
        assert(r@ =~~= health_cmd_text());
    }
    r
}

/// Restarts the tunnel.
pub open spec fn restart_cmd_text() -> CmdText {
    in_gateway(
        seq![
            "sudo"@,
            "systemctl"@,
            "restart"@,
            "mihomo.service"@,
        ],
        None,
    )
}

/// Restarts the tunnel.
pub fn restart_cmd() -> (r: Cmd)
    ensures
        r@ == restart_cmd_text(),
{
    let args: [&str; 4] = [
        "sudo",
        "systemctl",
        "restart",
        "mihomo.service",
    ];
    let r = gateway_cmd(&args);
    proof {
        assert(r@ =~~= restart_cmd_text());
    }
    r
}

/// Succeeds where the gateway VM can be reached.
pub open spec fn shell_cmd_text() -> CmdText {
    in_gateway(
        seq![
            "true"@,
        ],
        None,
    )
}

/// Succeeds where the gateway VM can be reached.
pub fn shell_cmd() -> (r: Cmd)
    ensures
        r@ == shell_cmd_text(),
{
    let args: [&str; 1] = [
        "true",
    ];
    let r = gateway_cmd(&args);
    proof {
        assert(r@ =~~= shell_cmd_text());
    }
    r
}

/// Succeeds where the gateway VM has the tunnel program.
pub open spec fn has_mihomo_cmd_text() -> CmdText {
    in_gateway(
        seq![
            "test"@,
            "-x"@,
            "/usr/local/bin/mihomo"@,
        ],
        None,
    )
}

/// Succeeds where the gateway VM has the tunnel program.
pub fn has_mihomo_cmd() -> (r: Cmd)
    ensures
        r@ == has_mihomo_cmd_text(),
{
    let args: [&str; 3] = [
        "test",
        "-x",
        "/usr/local/bin/mihomo",
    ];
    let r = gateway_cmd(&args);
    proof {
        assert(r@ =~~= has_mihomo_cmd_text());
    }
    r
}

/// Prints the next hop of the default route of the gateway VM.
pub open spec fn resolver_cmd_text() -> CmdText {
    in_gateway(
        seq![
            "sh"@,
            "-c"@,
            "ip -4 route show default | awk 'NR == 1 { print $3; exit }'"@,
        ],
        None,
    )
}

/// Prints the next hop of the default route of the gateway VM.
pub fn resolver_cmd() -> (r: Cmd)
    ensures
        r@ == resolver_cmd_text(),
{
    let args: [&str; 3] = [
        "sh",
        "-c",
        "ip -4 route show default | awk 'NR == 1 { print $3; exit }'",
    ];
    let r = gateway_cmd(&args);
    proof {
        assert(r@ =~~= resolver_cmd_text());
    }
    r
}

/// Prints the public address from which the gateway VM is seen.
pub open spec fn exit_cmd_text() -> CmdText {
    in_gateway(
        seq![
            "curl"@,
            "--fail"@,
            "--silent"@,
            "--show-error"@,
            "--max-time"@,
            "15"@,
            "https://api.ipify.org"@,
        ],
        None,
    )
}

/// Prints the public address from which the gateway VM is seen.
pub fn exit_cmd() -> (r: Cmd)
    ensures
        r@ == exit_cmd_text(),
{
    let args: [&str; 7] = [
        "curl",
        "--fail",
        "--silent",
        "--show-error",
        "--max-time",
        "15",
        "https://api.ipify.org",
    ];
    let r = gateway_cmd(&args);
    proof {
        assert(r@ =~~= exit_cmd_text());
    }
    r
}

/// Prints the address of the gateway VM.
pub open spec fn address_cmd_text() -> CmdText {
    in_gateway(
        seq![
            "sh"@,
            "-c"@,
            "iface=$(ip -4 route show default | awk 'NR == 1 { for (i=1; i<=NF; i++) if ($i == \"dev\") { print $(i+1); exit } }'); test -n \"$iface\"; ip -4 -o address show dev \"$iface\" scope global | awk 'NR == 1 { split($4, addr, \"/\"); print addr[1]; exit }'"@,
        ],
        None,
    )
}

/// Prints the address of the gateway VM.
pub fn address_cmd() -> (r: Cmd)
    ensures
        r@ == address_cmd_text(),
{
    let args: [&str; 3] = [
        "sh",
        "-c",
        "iface=$(ip -4 route show default | awk 'NR == 1 { for (i=1; i<=NF; i++) if ($i == \"dev\") { print $(i+1); exit } }'); test -n \"$iface\"; ip -4 -o address show dev \"$iface\" scope global | awk 'NR == 1 { split($4, addr, \"/\"); print addr[1]; exit }'",
    ];
    let r = gateway_cmd(&args);
    proof {
        assert(r@ =~~= address_cmd_text());
    }
    r
}

/// Installs the tunnel program in the gateway VM.
pub open spec fn install_mihomo_cmd_text(binary: Seq<u8>) -> CmdText {
    in_gateway(
        seq![
            "sudo"@,
            "sh"@,
            "-c"@,
            "umask 022; cat > /usr/local/bin/mihomo && chmod 0755 /usr/local/bin/mihomo"@,
        ],
        Some(binary),
    )
}

/// Installs the tunnel program in the gateway VM.
pub fn install_mihomo_cmd(binary: Vec<u8>) -> (r: Cmd)
    ensures
        r@ == install_mihomo_cmd_text(binary@),
{
    let args: [&str; 4] = [
        "sudo",
        "sh",
        "-c",
        "umask 022; cat > /usr/local/bin/mihomo && chmod 0755 /usr/local/bin/mihomo",
    ];
    let r = gateway_cmd(&args).stdin_input(binary);
    proof {
        assert(r@ =~~= install_mihomo_cmd_text(binary@));
    }
    r
}

/// Hands the gateway VM its configuration.
pub open spec fn send_config_cmd_text(config: Seq<u8>) -> CmdText {
    in_gateway(
        seq![
            "sudo"@,
            "sh"@,
            "-c"@,
            "umask 077; install -d -m 0700 /etc/mihomo; cat > /etc/mihomo/config.yaml.tmp && mv /etc/mihomo/config.yaml.tmp /etc/mihomo/config.yaml"@,
        ],
        Some(config),
    )
}

/// Hands the gateway VM its configuration.
pub fn send_config_cmd(config: Vec<u8>) -> (r: Cmd)
    ensures
        r@ == send_config_cmd_text(config@),
{
    let args: [&str; 4] = [
        "sudo",
        "sh",
        "-c",
        "umask 077; install -d -m 0700 /etc/mihomo; cat > /etc/mihomo/config.yaml.tmp && mv /etc/mihomo/config.yaml.tmp /etc/mihomo/config.yaml",
    ];
    let r = gateway_cmd(&args).stdin_input(config);
    proof {
        assert(r@ =~~= send_config_cmd_text(config@));
    }
    r
}

/// Hands the gateway VM the state of its selectors.
pub open spec fn send_selectors_cmd_text(selectors: Seq<u8>) -> CmdText {
    in_gateway(
        seq![
            "sudo"@,
            "sh"@,
            "-c"@,
            "umask 077; cat > /etc/mihomo/selector-state.json.tmp && mv /etc/mihomo/selector-state.json.tmp /etc/mihomo/selector-state.json"@,
        ],
        Some(selectors),
    )
}

/// Hands the gateway VM the state of its selectors.
pub fn send_selectors_cmd(selectors: Vec<u8>) -> (r: Cmd)
    ensures
        r@ == send_selectors_cmd_text(selectors@),
{
    let args: [&str; 4] = [
        "sudo",
        "sh",
        "-c",
        "umask 077; cat > /etc/mihomo/selector-state.json.tmp && mv /etc/mihomo/selector-state.json.tmp /etc/mihomo/selector-state.json",
    ];
    let r = gateway_cmd(&args).stdin_input(selectors);
    proof {
        assert(r@ =~~= send_selectors_cmd_text(selectors@));
    }
    r
}

/// Sets up the tunnel in the gateway VM, with this resolver for its start.
pub open spec fn set_up_cmd_text(bootstrap_dns: Seq<char>) -> CmdText {
    in_gateway(
        seq!["sudo"@, "sh"@, "-s"@, "--"@, bootstrap_dns],
        Some(encode_utf8(GATEWAY_SETUP_SCRIPT@)),
    )
}

/// Sets up the tunnel in the gateway VM, with this resolver for its start.
pub fn set_up_cmd(bootstrap_dns: Ipv4Address) -> (r: Cmd)
    ensures
        r@ == set_up_cmd_text(bootstrap_dns.text()),
{
    let address = bootstrap_dns.to_text();
    let args: [&str; 4] = ["sudo", "sh", "-s", "--"];
    let r = gateway_cmd(&args).arg(address.as_str()).stdin_input(
        vstd::slice::slice_to_vec(GATEWAY_SETUP_SCRIPT.as_bytes()),
    );
    proof {
        assert(r@ =~~= set_up_cmd_text(bootstrap_dns.text()));
    }
    r
}

/// Prints the names of the VMs of Lima, one in each line.
pub open spec fn list_cmd_text() -> CmdText {
    direct("limactl"@, seq!["list"@, "--format"@, "{{.Name}}"@], None)
}

/// Prints the names of the VMs of Lima, one in each line.
pub fn list_cmd() -> (r: Cmd)
    ensures
        r@ == list_cmd_text(),
{
    let args: [&str; 3] = ["list", "--format", "{{.Name}}"];
    let r = lima_cmd().args(&args);
    proof {
        assert(r@ =~~= list_cmd_text());
    }
    r
}

/// Starts the gateway VM.
pub open spec fn start_cmd_text() -> CmdText {
    direct("limactl"@, seq!["start"@, GATEWAY_NAME@], None)
}

/// Starts the gateway VM.
pub fn start_cmd() -> (r: Cmd)
    ensures
        r@ == start_cmd_text(),
{
    let args: [&str; 2] = ["start", GATEWAY_NAME];
    let r = lima_cmd().args(&args);
    proof {
        assert(r@ =~~= start_cmd_text());
    }
    r
}

/// Creates the gateway VM from the template at this path.
pub open spec fn create_cmd_text(template: Seq<char>) -> CmdText {
    direct(
        "limactl"@,
        seq!["start"@, template, "--name="@ + GATEWAY_NAME@, "--tty=false"@],
        None,
    )
}

/// Creates the gateway VM from the template at this path.
pub fn create_cmd(template: &str) -> (r: Cmd)
    ensures
        r@ == create_cmd_text(template@),
{
    let r = lima_cmd().arg("start").arg(template).arg(
        "--name=".to_owned().concat(GATEWAY_NAME).as_str(),
    ).arg("--tty=false");
    proof {
        assert(r@ =~~= create_cmd_text(template@));
    }
    r
}

/// The arguments that make curl report a failed download, and follow redirects.
pub open spec fn download_args() -> Seq<Seq<char>> {
    seq!["--fail"@, "--silent"@, "--show-error"@, "--location"@]
}

/// Prints the latest release of the tunnel program.
pub open spec fn release_cmd_text() -> CmdText {
    direct(
        "curl"@,
        https_args() + download_args()
            + seq!["https://api.github.com/repos/MetaCubeX/mihomo/releases/latest"@],
        None,
    )
}

/// Prints the latest release of the tunnel program.
pub fn release_cmd() -> (r: Cmd)
    ensures
        r@ == release_cmd_text(),
{
    let args: [&str; 5] = [
        "--fail",
        "--silent",
        "--show-error",
        "--location",
        "https://api.github.com/repos/MetaCubeX/mihomo/releases/latest",
    ];
    let r = host_https_curl_cmd().args(&args);
    proof {
        assert(r@ =~~= release_cmd_text());
    }
    r
}

/// Downloads an asset of a release to this path.
pub open spec fn asset_cmd_text(url: Seq<char>, output: Seq<char>) -> CmdText {
    direct("curl"@, https_args() + download_args() + seq![url, "--output"@, output], None)
}

/// Downloads an asset of a release to this path.
pub fn asset_cmd(url: &str, output: &str) -> (r: Cmd)
    ensures
        r@ == asset_cmd_text(url@, output@),
{
    let args: [&str; 4] = ["--fail", "--silent", "--show-error", "--location"];
    let r = host_https_curl_cmd().args(&args).arg(url).arg("--output").arg(output);
    proof {
        assert(r@ =~~= asset_cmd_text(url@, output@));
    }
    r
}

/// Downloads what a curl configuration asks for.
pub open spec fn subscription_cmd_text(curl_config: Seq<char>) -> CmdText {
    direct("curl"@, seq!["--config"@, "-"@], Some(encode_utf8(curl_config)))
}

/// Downloads what a curl configuration asks for. The configuration, and with
/// it the URL, is no argument that other processes could see.
pub fn subscription_cmd(curl_config: &str) -> (r: Cmd)
    ensures
        r@ == subscription_cmd_text(curl_config@),
{
    let args: [&str; 2] = ["--config", "-"];
    let r = host_curl_cmd().args(&args).stdin_input(
        vstd::slice::slice_to_vec(curl_config.as_bytes()),
    );
    proof {
        assert(r@ =~~= subscription_cmd_text(curl_config@));
    }
    r
}

} // verus!
