# coop_egress

The decisions behind fail-closed, gateway-routed networking for agent VMs,
written and verified in Verus.

An agent VM never receives proxy settings. A separate gateway VM owns the
provider's subscription and the tunnel device; an agent VM gets only a next hop,
and is used only after it was seen leaving under the expected public address. One
whose gateway, route or exit address does not pass is taken offline.

## Layout

- `src/` is the verified library. It opens no file, runs no command and holds no
  connection: a procedure is a state with an `action` that says what it asks the
  outside to do, and a `next` that says what a reply leads to.
  - `gateway`, `gateway_vm`, `mihomo`, `gateway_commands`: deploying the gateway.
  - `harden`, `yaml`, `subscription`, `url_check`: turning a subscription into a
    configuration that tunnels everything and listens to nobody.
  - `guest`, `private_egress`, `instance_mode`, `session`, `remote_command`,
    `scripts`: restricting and checking an agent VM, and running agents in it.
  - `release`, `json`, `digest`: which program is installed, and when.
  - `profiles`, `rows`, `size`, `model`, `rootfs`, `signal`, `tilde`: the other
    commands of the program.
  - `text`, `lines`, `path_text`, `ipv4`, `shell`, `command`, `effects`,
    `failure`, `config`: what these are made of.
  - `harden_laws`, `gateway_laws`: what holds of every hardened configuration and
    of every deployment.
- `tests/` runs the library on concrete values.
- `app/` performs what the procedures ask for: processes, files, signals, the
  terminal.

## What is taken on trust

Parsing and writing YAML and JSON, parsing URLs, SHA-256, hexadecimal text and
the home directory come from other crates. Each such call stands in a small
function whose documentation says what is claimed of it.
