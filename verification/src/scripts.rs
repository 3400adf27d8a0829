//! The scripts that run in the guests, and the templates of the gateway VM.
use vstd::prelude::*;

use crate::text::chars_of;

verus! {

/// The template of the gateway VM on 64-bit Arm.
pub const GATEWAY_TEMPLATE_AARCH64: &'static str = r#"# Generated by coop. Contains no subscription credentials.
vmType: "vz"
propagateProxyEnv: false
images:
- location: "https://cloud-images.ubuntu.com/releases/24.04/release/ubuntu-24.04-server-cloudimg-arm64.img"
  arch: "aarch64"
cpus: 1
memory: "1GiB"
disk: "6GiB"
networks:
- lima: user-v2
mounts: []
containerd:
  system: false
  user: false
provision:
- mode: system
  script: |
    apt-get update
    DEBIAN_FRONTEND=noninteractive apt-get install -y ca-certificates curl nftables python3
"#;

/// The template of the gateway VM on x86-64.
pub const GATEWAY_TEMPLATE_X86_64: &'static str = r#"# Generated by coop. Contains no subscription credentials.
vmType: "vz"
propagateProxyEnv: false
images:
- location: "https://cloud-images.ubuntu.com/releases/24.04/release/ubuntu-24.04-server-cloudimg-amd64.img"
  arch: "x86_64"
cpus: 1
memory: "1GiB"
disk: "6GiB"
networks:
- lima: user-v2
mounts: []
containerd:
  system: false
  user: false
provision:
- mode: system
  script: |
    apt-get update
    DEBIAN_FRONTEND=noninteractive apt-get install -y ca-certificates curl nftables python3
"#;

/// Sets up the tunnel, its selectors and its killswitch in the gateway VM.
/// Forwarding opens only after the selectors are restored.
pub const GATEWAY_SETUP_SCRIPT: &'static str = r#"set -eu
BOOTSTRAP_DNS=$1
UPLINK=$(ip -4 route show default | awk 'NR == 1 { for (i=1; i<=NF; i++) if ($i == "dev") { print $(i+1); exit } }')
case "$UPLINK" in
  ''|*[!A-Za-z0-9_.:-]*) echo "invalid gateway uplink interface" >&2; exit 1 ;;
esac
install -d -o root -g root -m 0755 /usr/local/libexec
cat >/usr/local/libexec/mihomo-restore-selectors <<'PYTHON'
#!/usr/bin/python3
import json, pathlib, time, urllib.parse, urllib.request

state_path = pathlib.Path("/etc/mihomo/selector-state.json")
if not state_path.exists():
    raise SystemExit("selector state is missing; refusing to open forwarding")
payload = json.loads(state_path.read_text())
headers = {"Authorization": "Bearer " + payload["secret"], "Content-Type": "application/json"}
for group, choice in payload["selections"]:
    url = "http://127.0.0.1:9090/proxies/" + urllib.parse.quote(group, safe="")
    body = json.dumps({"name": choice}).encode()
    last = None
    for _ in range(30):
        try:
            request = urllib.request.Request(url, data=body, headers=headers, method="PUT")
            with urllib.request.urlopen(request, timeout=2) as response:
                if response.status in (200, 204):
                    last = None
                    break
        except Exception as exc:
            last = exc
            time.sleep(1)
    if last is not None:
        raise last
PYTHON
chmod 0755 /usr/local/libexec/mihomo-restore-selectors
cat >/etc/systemd/system/mihomo.service <<'UNIT'
[Unit]
Description=Coop private egress (Mihomo TUN)
After=network-online.target
Wants=network-online.target

[Service]
Type=simple
User=root
ExecStartPre=/usr/sbin/nft -f /etc/mihomo/killswitch-closed.nft
ExecStartPre=/usr/local/bin/mihomo -t -d /etc/mihomo
ExecStart=/usr/local/bin/mihomo -d /etc/mihomo
ExecStartPost=/usr/local/libexec/mihomo-restore-selectors
ExecStartPost=/usr/sbin/nft -f /etc/mihomo/killswitch-open.nft
ExecStopPost=/usr/sbin/nft -f /etc/mihomo/killswitch-closed.nft
Restart=always
RestartSec=2
NoNewPrivileges=true
ProtectSystem=strict
ProtectHome=true
ReadWritePaths=/etc/mihomo
PrivateTmp=true
RestrictAddressFamilies=AF_INET AF_NETLINK AF_UNIX
CapabilityBoundingSet=CAP_NET_ADMIN CAP_NET_BIND_SERVICE CAP_NET_RAW
AmbientCapabilities=CAP_NET_ADMIN CAP_NET_BIND_SERVICE CAP_NET_RAW

[Install]
WantedBy=multi-user.target
UNIT
cat >/etc/mihomo/killswitch-closed.nft <<'NFT'
destroy table inet coop_gateway_killswitch
table inet coop_gateway_killswitch {
  chain forward {
    type filter hook forward priority 100; policy drop;
  }
}
NFT
cat >/etc/mihomo/killswitch-open.nft <<NFT
destroy table inet coop_gateway_killswitch
table inet coop_gateway_killswitch {
  chain forward {
    type filter hook forward priority 100; policy drop;
    iifname "$UPLINK" oifname "coop-egress" accept
    iifname "coop-egress" oifname "$UPLINK" accept
  }
}
NFT
chmod 0600 /etc/mihomo/killswitch-closed.nft /etc/mihomo/killswitch-open.nft
cat >/etc/sysctl.d/90-coop-egress.conf <<'SYSCTL'
net.ipv4.ip_forward=1
net.ipv6.conf.all.disable_ipv6=1
net.ipv6.conf.default.disable_ipv6=1
SYSCTL
sysctl --system >/dev/null
systemctl disable --now systemd-resolved.service >/dev/null 2>&1 || true
rm -f /etc/resolv.conf
cat >/etc/resolv.conf <<RESOLV
nameserver $BOOTSTRAP_DNS
options timeout:2 attempts:3
RESOLV
grep -qE '^[^#]*[[:space:]]lima-coop-egress([[:space:]]|$)' /etc/hosts || \
  printf '%s\n' '127.0.1.1 lima-coop-egress' >>/etc/hosts
systemctl daemon-reload
systemctl enable mihomo.service >/dev/null
systemctl restart mihomo.service
for _ in $(seq 1 30); do
  systemctl is-active --quiet mihomo.service && exit 0
  sleep 1
done
systemctl --no-pager status mihomo.service >&2
exit 1
"#;

/// Installed into the base image before an agent VM is ever created. On every
/// boot it denies new outbound traffic before networking is configured; DHCP
/// and replies to inbound management SSH remain possible.
pub const BOOT_GUARD_INSTALL_SCRIPT: &'static str = r"set -eu
install -d -o root -g root -m 0755 /usr/local/sbin
cat >/usr/local/sbin/private-egress-boot-guard <<'SCRIPT'
#!/bin/sh
set -eu
sysctl -qw net.ipv6.conf.all.disable_ipv6=1
sysctl -qw net.ipv6.conf.default.disable_ipv6=1
iptables -w -N PRIVATE_EGRESS_BOOT 2>/dev/null || true
iptables -w -F PRIVATE_EGRESS_BOOT
iptables -w -A PRIVATE_EGRESS_BOOT -o lo -j ACCEPT
iptables -w -A PRIVATE_EGRESS_BOOT -m conntrack --ctstate ESTABLISHED,RELATED -j ACCEPT
iptables -w -A PRIVATE_EGRESS_BOOT -p udp --sport 68 --dport 67 -j ACCEPT
while iptables -w -D OUTPUT -j PRIVATE_EGRESS_BOOT 2>/dev/null; do :; done
iptables -w -I OUTPUT 1 -j PRIVATE_EGRESS_BOOT
iptables -w -P OUTPUT DROP
ip6tables -w -P OUTPUT DROP
SCRIPT
chmod 0755 /usr/local/sbin/private-egress-boot-guard
cat >/etc/systemd/system/private-egress-boot-guard.service <<'UNIT'
[Unit]
Description=Early boot fail-closed egress guard
DefaultDependencies=no
After=systemd-modules-load.service local-fs.target
Before=network-pre.target
Wants=network-pre.target

[Service]
Type=oneshot
ExecStart=/usr/local/sbin/private-egress-boot-guard
RemainAfterExit=yes

[Install]
WantedBy=sysinit.target
UNIT
systemctl daemon-reload
systemctl enable private-egress-boot-guard.service >/dev/null
";

/// Takes an agent VM offline, until it is restricted anew. Nothing reopens it: the
/// unit that keeps up the route through the gateway is disabled. The chains that
/// let traffic through are removed, and what was already connected loses its
/// route. Local processes, DHCP, and replies to inbound management SSH remain
/// possible.
pub const EGRESS_CLOSE_SCRIPT: &'static str = r"set -eu
systemctl disable --now network-guard.timer network-guard.service >/dev/null 2>&1 || true
iptables -w -P OUTPUT DROP
iptables -w -N PRIVATE_EGRESS_BOOT 2>/dev/null || true
iptables -w -F PRIVATE_EGRESS_BOOT
iptables -w -A PRIVATE_EGRESS_BOOT -o lo -j ACCEPT
iptables -w -A PRIVATE_EGRESS_BOOT -m conntrack --ctstate ESTABLISHED,RELATED -j ACCEPT
iptables -w -A PRIVATE_EGRESS_BOOT -p udp --sport 68 --dport 67 -j ACCEPT
while iptables -w -D OUTPUT -j PRIVATE_EGRESS_BOOT 2>/dev/null; do :; done
iptables -w -I OUTPUT 1 -j PRIVATE_EGRESS_BOOT
for chain in COOP_EGRESS_A COOP_EGRESS_B; do
  while iptables -w -D OUTPUT -j $chain 2>/dev/null; do :; done
  iptables -w -F $chain 2>/dev/null || true
  iptables -w -X $chain 2>/dev/null || true
done
if ip rule show priority 100 | grep -q 'lookup 100'; then
  ip -4 route replace table 100 unreachable default
fi
sysctl -qw net.ipv6.conf.all.disable_ipv6=1
sysctl -qw net.ipv6.conf.default.disable_ipv6=1
ip6tables -w -P OUTPUT DROP
";

/// Restricts an agent VM: the route through the gateway, the firewall, the
/// unprivileged account and the launcher of its view. Each backquote stands for
/// the name of the agent's tool.
pub const AGENT_LOCKDOWN_TEMPLATE: &'static str = r##"set -eu
GATEWAY=$1
MANAGER=$2
SSH_PEER=$3
AGENT_TZ=$4
DROP_CODEX_AUTH=$5
if [ -z "$AGENT_TZ" ]; then
  AGENT_TZ=$(cat /etc/timezone 2>/dev/null || printf '%s\n' UTC)
fi
printf '%s\n' "$AGENT_TZ" >/etc/dev-session-timezone
chmod 0644 /etc/dev-session-timezone
IFACE=$(ip -4 route get "$GATEWAY" | awk '{for(i=1;i<=NF;i++) if($i=="dev") {print $(i+1); exit}}')
test -n "$IFACE"
MANAGER_HOME=$(getent passwd "$MANAGER" | cut -d: -f6)
test -n "$MANAGER_HOME" && test -d "$MANAGER_HOME"

# Lima 2.2 may materialize macOS system-proxy settings in /etc/environment
# even when propagateProxyEnv is false. Remove both its managed block and any
# standalone proxy keys before any untrusted agent session can be launched.
ENV_TMP=$(mktemp)
awk '
  $0 == "#LIMA-START" { lima = 1; next }
  $0 == "#LIMA-END" { lima = 0; next }
  lima { next }
  /^[[:space:]]*(HTTP_PROXY|HTTPS_PROXY|ALL_PROXY|NO_PROXY|http_proxy|https_proxy|all_proxy|no_proxy)=/ { next }
  { print }
' /etc/environment >"$ENV_TMP"
install -o root -g root -m 0644 "$ENV_TMP" /etc/environment
rm -f "$ENV_TMP"

getent group developers >/dev/null || groupadd --system developers
id developer >/dev/null 2>&1 || useradd --create-home --shell /bin/bash --gid developers developer
usermod -g developers developer
usermod -G developers developer
passwd -l developer >/dev/null 2>&1 || true
usermod -aG developers "$MANAGER"
install -d -o developer -g developers -m 0750 /home/developer
CLAUDE_BINARY=$(readlink -f /usr/local/bin/` 2>/dev/null || true)
case "$CLAUDE_BINARY" in
  /home/*/.local/*) TOOL_HOME=${CLAUDE_BINARY%%/.local/*} ;;
  *) TOOL_HOME=/nonexistent ;;
esac
for item in .` .`.json .codex; do
  DEST="/home/developer/$item"
  MANAGER_ITEM="$MANAGER_HOME/$item"
  SOURCE=
  for source_home in "$MANAGER_HOME" "$TOOL_HOME"; do
    if [ -e "$source_home/$item" ] || [ -L "$source_home/$item" ]; then
      SOURCE="$source_home/$item"
      break
    fi
  done

  # Migrate pre-shared state once, then make bootstrap and restricted launches
  # use the same files. Directory copies merge so developer-owned histories
  # survive while current manager-side settings win on name collisions.
  if [ -n "$SOURCE" ] && [ "$(readlink -f "$SOURCE" 2>/dev/null || true)" != "$DEST" ]; then
    [ -L "$DEST" ] && rm -f "$DEST"
    if [ -d "$SOURCE" ] && [ -d "$DEST" ]; then
      cp -a "$SOURCE/." "$DEST/"
    elif [ ! -e "$DEST" ]; then
      cp -a "$SOURCE" "$DEST"
    fi
  fi

  if [ ! -e "$DEST" ]; then
    case "$item" in
      .`.json) printf '%s\n' '{}' >"$DEST" ;;
      *) install -d -o developer -g developers -m 2770 "$DEST" ;;
    esac
  fi
  chown -R developer:developers "$DEST"
  if [ -d "$DEST" ]; then
    chmod -R g+rwX "$DEST"
    find "$DEST" -type d -exec chmod g+s {} +
  else
    chmod 0660 "$DEST"
  fi

  if [ "$(readlink -f "$MANAGER_ITEM" 2>/dev/null || true)" != "$DEST" ]; then
    rm -rf "$MANAGER_ITEM"
    ln -s "$DEST" "$MANAGER_ITEM"
  fi
done
if [ "$DROP_CODEX_AUTH" = 1 ]; then
  rm -f /home/developer/.codex/auth.json
fi
chgrp -R developers /workspace
chmod -R g+rwX /workspace
find /workspace -type d -exec chmod g+s {} +
# Git rejects repositories owned by the management account even when the
# restricted account has intentional group write access. Trust only Coop's
# fixed workspace path in developer's protected global configuration.
if ! runuser -u developer -- env HOME=/home/developer \
  git config --global --get-all safe.directory 2>/dev/null | grep -Fxq /workspace; then
  runuser -u developer -- env HOME=/home/developer \
    git config --global --add safe.directory /workspace
fi

# Give agent processes an ordinary, privacy-normalized Linux view without
# adding PID, user, or network namespaces that would themselves look like a
# container. The real VM hardware view remains available only to root.
VIEW=/usr/local/share/dev-session
install -d -o root -g root -m 0755 "$VIEW/dmi" "$VIEW/empty" /usr/local/libexec
cat >"$VIEW/dmi/sys_vendor" <<'EOF'
GIGA-BYTE TECHNOLOGY CO., LTD.
EOF
cat >"$VIEW/dmi/product_name" <<'EOF'
Development Workstation
EOF
cat >"$VIEW/dmi/product_family" <<'EOF'
Workstation
EOF
cat >"$VIEW/dmi/product_version" <<'EOF'
1.0
EOF
cat >"$VIEW/dmi/bios_vendor" <<'EOF'
American Megatrends International, LLC.
EOF
cat >"$VIEW/dmi/bios_version" <<'EOF'
F31
EOF
cat >"$VIEW/dmi/bios_date" <<'EOF'
01/01/2024
EOF
cat >"$VIEW/dmi/chassis_vendor" <<'EOF'
GIGA-BYTE TECHNOLOGY CO., LTD.
EOF
cat >"$VIEW/dmi/chassis_type" <<'EOF'
3
EOF
cat >"$VIEW/dmi/modalias" <<'EOF'
dmi:bvnAmericanMegatrendsInternationalLLC.:bvrF31:bd01/01/2024:svnGIGA-BYTETECHNOLOGYCO.LTD.:pnDevelopmentWorkstation:pvr1.0:
EOF
cat >"$VIEW/dmi/uevent" <<'EOF'
MODALIAS=dmi:bvnAmericanMegatrendsInternationalLLC.:bvrF31:bd01/01/2024:svnGIGA-BYTETECHNOLOGYCO.LTD.:pnDevelopmentWorkstation:pvr1.0:
EOF
touch "$VIEW/dmi/product_serial" "$VIEW/dmi/product_sku" "$VIEW/dmi/product_uuid"
chmod 0444 "$VIEW"/dmi/*

# Preserve the real feature list and CPU count, but replace the Apple MIDR
# with ARM Neoverse N1 identifiers consistent with a generic ARM workstation.
awk '
  /^CPU implementer[[:space:]]*:/ { print "CPU implementer\t: 0x41"; next }
  /^CPU part[[:space:]]*:/ { print "CPU part\t: 0xd0c"; next }
  { print }
' /proc/cpuinfo >"$VIEW/cpuinfo"
printf '%s\n' 0x00000000410fd0c0 >"$VIEW/midr_el1"
chmod 0444 "$VIEW/cpuinfo" "$VIEW/midr_el1"

grep -vE 'lima|rosetta|cidata|virtiofs' /etc/fstab >"$VIEW/fstab"
grep -vE 'host\.lima\.internal|lima-' /etc/hosts >"$VIEW/hosts"
awk -F: '$1 != "coop-agent"' /etc/passwd >"$VIEW/passwd"
awk -F: '$1 != "coop-workspace"' /etc/group >"$VIEW/group"
printf '%s\n' devbox >"$VIEW/hostname"
cat >"$VIEW/resolv.conf" <<EOF
nameserver $GATEWAY
options timeout:2 attempts:3
EOF
chmod 0444 \
  "$VIEW/fstab" "$VIEW/hosts" "$VIEW/passwd" "$VIEW/group" \
  "$VIEW/hostname" "$VIEW/resolv.conf"

cat >/usr/local/libexec/dev-session-enter <<'SCRIPT'
#!/bin/bash
set -euo pipefail
RUNTIME=$1
TOOL_HOME=$2
AGENT_TZ=$3
shift 3
VIEW=/usr/local/share/dev-session
AGENT_UID=$(id -u developer)
AGENT_GID=$(getent group developers | cut -d: -f3)
CODEX_API_KEY=${COOP_LOCAL_API_KEY-}

mount --make-rprivate /
hostname devbox
mount -t proc proc /proc -o nosuid,nodev,noexec,hidepid=2

# Present a deliberately small sysfs rather than chasing every new transport
# path added by a kernel update. CPU and DMI data needed by common inspection
# tools are copied into the view; hardware control remains root-only outside it.
mount -t tmpfs sysfs-view /sys -o nosuid,nodev,noexec,mode=0755,size=2m
install -d -m 0755 \
  /sys/devices/virtual/dmi \
  /sys/class/dmi \
  /sys/devices/system/cpu \
  /sys/dev/block
cp -a "$VIEW/dmi" /sys/devices/virtual/dmi/id
ln -s ../../devices/virtual/dmi/id /sys/class/dmi/id
CPU_COUNT=$(grep -c '^processor[[:space:]]*:' "$VIEW/cpuinfo")
if [ "$CPU_COUNT" -gt 0 ]; then
  CPU_LAST=$((CPU_COUNT - 1))
  for state in online possible present; do
    printf '0-%s\n' "$CPU_LAST" >"/sys/devices/system/cpu/$state"
  done
  for cpu in $(seq 0 "$CPU_LAST"); do
    TOPOLOGY="/sys/devices/system/cpu/cpu$cpu/topology"
    install -d -m 0755 "$TOPOLOGY"
    CPU_BIT=$((1 << cpu))
    CPU_MASK=$(( (1 << CPU_COUNT) - 1 ))
    printf '%s\n' "$cpu" >"$TOPOLOGY/core_id"
    printf '%s\n' 0 >"$TOPOLOGY/physical_package_id"
    printf '%s\n' 0 >"$TOPOLOGY/cluster_id"
    printf '%x\n' "$CPU_BIT" >"$TOPOLOGY/thread_siblings"
    printf '%s\n' "$cpu" >"$TOPOLOGY/thread_siblings_list"
    printf '%x\n' "$CPU_BIT" >"$TOPOLOGY/core_cpus"
    printf '%s\n' "$cpu" >"$TOPOLOGY/core_cpus_list"
    printf '%x\n' "$CPU_MASK" >"$TOPOLOGY/core_siblings"
    printf '0-%s\n' "$CPU_LAST" >"$TOPOLOGY/core_siblings_list"
    printf '%x\n' "$CPU_MASK" >"$TOPOLOGY/cluster_cpus"
    printf '0-%s\n' "$CPU_LAST" >"$TOPOLOGY/cluster_cpus_list"
    printf '%x\n' "$CPU_MASK" >"$TOPOLOGY/package_cpus"
    printf '0-%s\n' "$CPU_LAST" >"$TOPOLOGY/package_cpus_list"
  done
fi

cp "$VIEW/cpuinfo" "$RUNTIME/cpuinfo"
chmod 0444 "$RUNTIME/cpuinfo"
mount --bind "$RUNTIME/cpuinfo" /proc/cpuinfo

grep -vE 'virtio|vsock' /proc/modules >"$RUNTIME/modules"
grep -vE '[[:space:]]vd[a-z][0-9]*$' /proc/partitions >"$RUNTIME/partitions"
grep -vE '[[:space:]]vd[a-z][0-9]*[[:space:]]' /proc/diskstats >"$RUNTIME/diskstats"
chmod 0444 "$RUNTIME/modules" "$RUNTIME/partitions" "$RUNTIME/diskstats"
mount --bind "$RUNTIME/modules" /proc/modules
mount --bind "$RUNTIME/partitions" /proc/partitions
mount --bind "$RUNTIME/diskstats" /proc/diskstats
[ -d /proc/bus/pci ] && mount -t tmpfs pci-view /proc/bus/pci -o nosuid,nodev,noexec,mode=0555,size=64k

umount -l /mnt/lima-rosetta 2>/dev/null || true
umount -l /mnt/lima-cidata 2>/dev/null || true
cp "$VIEW/fstab" "$RUNTIME/fstab"
cp "$VIEW/hosts" "$RUNTIME/hosts"
cp "$VIEW/hostname" "$RUNTIME/hostname"
cp "$VIEW/passwd" "$RUNTIME/passwd"
cp "$VIEW/group" "$RUNTIME/group"
chmod 0444 \
  "$RUNTIME/fstab" "$RUNTIME/hosts" "$RUNTIME/hostname" \
  "$RUNTIME/passwd" "$RUNTIME/group"
mount --bind "$RUNTIME/fstab" /etc/fstab
mount --bind "$RUNTIME/hosts" /etc/hosts
mount --bind "$RUNTIME/hostname" /etc/hostname
mount --bind "$RUNTIME/passwd" /etc/passwd
mount --bind "$RUNTIME/group" /etc/group
[ -d /run/cloud-init ] && mount -t tmpfs runtime-state /run/cloud-init -o nosuid,nodev,noexec,mode=0755,size=64k
[ -d /var/lib/cloud ] && mount -t tmpfs local-state /var/lib/cloud -o nosuid,nodev,noexec,mode=0755,size=64k
[ -e /run/dbus/system_bus_socket ] && mount --bind /dev/null /run/dbus/system_bus_socket

# Remap the persistent agent home and installed toolchain into neutral paths.
install -d -o root -g root -m 0700 "$RUNTIME/agent-home"
mount --bind /home/developer "$RUNTIME/agent-home"
if [ -d "$TOOL_HOME" ]; then
  install -d -o root -g root -m 0755 /opt/tooling
  mount --bind "$TOOL_HOME" /opt/tooling
fi
mount -t tmpfs home-view /home -o nosuid,nodev,mode=0755,size=64k
install -d -m 0750 /home/developer
mount --move "$RUNTIME/agent-home" /home/developer

# A private minimal /dev removes block/vsock device names while retaining the
# active PTY, cryptographic randomness, and shared memory expected by tools.
install -d -o root -g root -m 0700 "$RUNTIME/devpts"
mount --bind /dev/pts "$RUNTIME/devpts"
mount -t tmpfs tmpfs /dev -o nosuid,noexec,mode=0755,size=16m
install -d -m 0755 /dev/pts
install -d -m 1777 /dev/shm
mount --move "$RUNTIME/devpts" /dev/pts
mount -t tmpfs shm /dev/shm -o nosuid,nodev,noexec,mode=1777,size=64m
mknod -m 0666 /dev/null c 1 3
mknod -m 0666 /dev/zero c 1 5
mknod -m 0666 /dev/full c 1 7
mknod -m 0666 /dev/random c 1 8
mknod -m 0666 /dev/urandom c 1 9
mknod -m 0666 /dev/tty c 5 0
ln -s pts/ptmx /dev/ptmx
ln -s /proc/self/fd /dev/fd
ln -s /proc/self/fd/0 /dev/stdin
ln -s /proc/self/fd/1 /dev/stdout
ln -s /proc/self/fd/2 /dev/stderr
[ -e /usr/bin/sudo ] && mount --bind /dev/null /usr/bin/sudo

# The implementation itself is outside the unprivileged view as well.
install -d -o root -g root -m 0700 \
  "$RUNTIME/local-bin-lower" "$RUNTIME/local-bin-upper" "$RUNTIME/local-bin-work"
chmod 0755 "$RUNTIME/local-bin-upper"
mount --bind /usr/local/bin "$RUNTIME/local-bin-lower"
mount -t overlay local-bin-view /usr/local/bin \
  -o "lowerdir=$RUNTIME/local-bin-lower,upperdir=$RUNTIME/local-bin-upper,workdir=$RUNTIME/local-bin-work"
rm -f /usr/local/bin/lima-guestagent
CLAUDE_VERSION=$(basename "$(readlink /opt/tooling/.local/bin/` 2>/dev/null || true)")
if [ -n "$CLAUDE_VERSION" ] && [ -x "/opt/tooling/.local/share/`/versions/$CLAUDE_VERSION" ]; then
  ln -sfn "/opt/tooling/.local/share/`/versions/$CLAUDE_VERSION" /usr/local/bin/`
fi
[ -d /usr/local/share/lima ] && mount -t tmpfs local-data /usr/local/share/lima -o nosuid,nodev,noexec,mode=0755,size=64k
mount -t tmpfs service-config /etc/systemd -o nosuid,nodev,noexec,mode=0755,size=64k
mount -t tmpfs kernel-config /etc/sysctl.d -o nosuid,nodev,noexec,mode=0755,size=64k
[ -d /etc/apparmor.d ] && mount -t tmpfs security-config /etc/apparmor.d -o nosuid,nodev,noexec,mode=0755,size=64k
[ -d /etc/cdi ] && mount -t tmpfs device-config /etc/cdi -o nosuid,nodev,noexec,mode=0755,size=64k
mount -t tmpfs runtime-view /run -o nosuid,nodev,noexec,mode=0755,size=2m
install -d -m 0755 /run/systemd/resolve
cp "$VIEW/resolv.conf" /run/systemd/resolve/stub-resolv.conf
chmod 0444 /run/systemd/resolve/stub-resolv.conf
install -d -o "$AGENT_UID" -g "$AGENT_GID" -m 0700 "/run/user/$AGENT_UID"
mount -t tmpfs local-admin /usr/local/sbin -o nosuid,nodev,noexec,mode=0755,size=64k
mount -t tmpfs local-libexec /usr/local/libexec -o nosuid,nodev,noexec,mode=0755,size=64k
mount -t tmpfs local-share /usr/local/share -o nosuid,nodev,noexec,mode=0755,size=64k

if [[ "$TOOL_HOME" != /nonexistent && ${1-} == "$TOOL_HOME/"* ]]; then
  if [[ $1 == "$TOOL_HOME/.local/bin/`" ]]; then
    TOOL_BINARY=/usr/local/bin/`
  else
    TOOL_BINARY="/opt/tooling/${1#"$TOOL_HOME/"}"
  fi
  shift
  set -- "$TOOL_BINARY" "$@"
fi

exec setpriv --reuid="$AGENT_UID" --regid="$AGENT_GID" --init-groups \
  env -i \
    HOME=/home/developer USER=developer LOGNAME=developer \
    SHELL=/bin/bash HOSTNAME=devbox TZ="$AGENT_TZ" \
    TERM="${TERM:-xterm-256color}" COLORTERM="${COLORTERM:-truecolor}" \
    LANG="${LANG:-C.UTF-8}" \
    XDG_RUNTIME_DIR="/run/user/$AGENT_UID" \
    PATH="/opt/tooling/.local/bin:/usr/local/bin:/usr/bin:/bin" \
    COOP_LOCAL_API_KEY="$CODEX_API_KEY" \
    "$@"
SCRIPT
chmod 0755 /usr/local/libexec/dev-session-enter

cat >/usr/local/sbin/dev-session <<'SCRIPT'
#!/bin/bash
set -euo pipefail
RUNTIME=$(mktemp -d /run/.session.XXXXXX)
cleanup() { rm -rf "$RUNTIME"; }
trap cleanup EXIT HUP INT TERM
exec 3>&-
MANAGER=$1
shift
MANAGER_HOME=$(getent passwd "$MANAGER" | cut -d: -f6)
test -n "$MANAGER_HOME" && test -d "$MANAGER_HOME"
AGENT_TZ=$(cat /etc/dev-session-timezone)
CLAUDE_BINARY=$(readlink -f /usr/local/bin/` 2>/dev/null || true)
case "$CLAUDE_BINARY" in
  /home/*/.local/*) TOOL_HOME=${CLAUDE_BINARY%%/.local/*} ;;
  *) TOOL_HOME=/nonexistent ;;
esac
unshare --mount --uts --fork --kill-child=TERM \
  /usr/local/libexec/dev-session-enter "$RUNTIME" "$TOOL_HOME" "$AGENT_TZ" "$@"
SCRIPT
chmod 0755 /usr/local/sbin/dev-session

cat >/etc/network-guard.conf <<EOF
GATEWAY=$GATEWAY
SSH_PEER=$SSH_PEER
IFACE=$IFACE
EOF
chmod 0600 /etc/network-guard.conf
cat >/usr/local/sbin/network-guard <<'SCRIPT'
#!/bin/sh
set -eu
. /etc/network-guard.conf
sysctl -qw net.ipv6.conf.all.disable_ipv6=1
sysctl -qw net.ipv6.conf.default.disable_ipv6=1
ip -4 route replace table 100 "$GATEWAY/32" dev "$IFACE" scope link
if [ -n "$SSH_PEER" ]; then
  ip -4 route replace table 100 "$SSH_PEER/32" dev "$IFACE" scope link
fi
ip -4 route replace table 100 default via "$GATEWAY" dev "$IFACE"
ip rule show priority 100 | grep -q 'lookup 100' || ip rule add priority 100 lookup 100
if command -v resolvectl >/dev/null 2>&1; then
  resolvectl dns "$IFACE" "$GATEWAY"
  resolvectl domain "$IFACE" '~.'
fi
ACTIVE=$(iptables -w -S OUTPUT | awk '/^-A OUTPUT -j COOP_EGRESS_[AB]$/ {print $4; exit}')
if [ "$ACTIVE" = COOP_EGRESS_A ]; then
  NEXT=COOP_EGRESS_B
else
  NEXT=COOP_EGRESS_A
fi
iptables -w -N "$NEXT" 2>/dev/null || true
iptables -w -F "$NEXT"
iptables -w -A "$NEXT" -o lo -j ACCEPT
iptables -w -A "$NEXT" -m conntrack --ctstate ESTABLISHED,RELATED -j ACCEPT
iptables -w -A "$NEXT" -d "$GATEWAY" -p udp --dport 53 -j ACCEPT
iptables -w -A "$NEXT" -d "$GATEWAY" -p tcp --dport 53 -j ACCEPT
for cidr in 10.0.0.0/8 100.64.0.0/10 127.0.0.0/8 169.254.0.0/16 172.16.0.0/12 192.168.0.0/16 224.0.0.0/4; do
  iptables -w -A "$NEXT" -d "$cidr" -j REJECT
done
iptables -w -A "$NEXT" -j ACCEPT
iptables -w -I OUTPUT 1 -j "$NEXT"
if [ -n "$ACTIVE" ]; then
  while iptables -w -D OUTPUT -j "$ACTIVE" 2>/dev/null; do :; done
  iptables -w -F "$ACTIVE"
  iptables -w -X "$ACTIVE"
fi
while iptables -w -D OUTPUT -j PRIVATE_EGRESS_BOOT 2>/dev/null; do :; done
iptables -w -F PRIVATE_EGRESS_BOOT 2>/dev/null || true
iptables -w -X PRIVATE_EGRESS_BOOT 2>/dev/null || true
iptables -w -P OUTPUT DROP
ip6tables -w -P OUTPUT DROP
SCRIPT
chmod 0755 /usr/local/sbin/network-guard
cat >/etc/systemd/system/network-guard.service <<'UNIT'
[Unit]
Description=Fail-closed network policy
After=network-online.target
Wants=network-online.target

[Service]
Type=oneshot
ExecStart=/usr/local/sbin/network-guard

[Install]
WantedBy=multi-user.target
UNIT
cat >/etc/systemd/system/network-guard.timer <<'UNIT'
[Unit]
Description=Reassert fail-closed network policy

[Timer]
OnBootSec=5s
OnUnitActiveSec=10s
Unit=network-guard.service

[Install]
WantedBy=timers.target
UNIT
systemctl disable --now coop-egress-lock.timer coop-egress-lock.service >/dev/null 2>&1 || true
rm -f /etc/systemd/system/coop-egress-lock.timer /etc/systemd/system/coop-egress-lock.service
rm -f /etc/coop-egress-lock.conf /usr/local/sbin/coop-egress-lock
systemctl daemon-reload
systemctl enable network-guard.service network-guard.timer >/dev/null
if ! systemctl restart network-guard.service; then
  systemctl --no-pager --full status network-guard.service >&2 || true
  journalctl --no-pager -u network-guard.service -n 80 >&2 || true
  exit 1
fi
systemctl restart network-guard.timer
"##;

/// A template with `value` in place of each backquote.
pub open spec fn filled(template: Seq<char>, value: Seq<char>) -> Seq<char>
    decreases template.len(),
{
    if template.len() == 0 {
        seq![]
    } else {
        filled(template.drop_last(), value) + (if template.last() == '`' {
            value
        } else {
            seq![template.last()]
        })
    }
}

/// Puts `value` in place of each backquote of a template.
fn fill(template: &str, value: &str) -> (r: String)
    ensures
        r@ == filled(template@, value@),
{
    let chars = chars_of(template);
    let mut out = String::new();
    for i in 0..chars.len()
        invariant
            chars@ == template@,
            out@ == filled(template@.take(i as int), value@),
    {
        proof {
            assert(template@.take(i + 1).drop_last() == template@.take(i as int));
        }
        if chars[i] == '`' {
            out.append(value);
        } else {
            out.push(chars[i]);
        }
        proof {
            assert(out@ =~= filled(template@.take(i + 1), value@));
        }
    }
    proof {
        assert(template@.take(template@.len() as int) == template@);
    }
    out
}

/// The script that restricts an agent VM whose agent's tool has this name.
pub fn agent_lockdown_script(tool: &str) -> (r: String)
    ensures
        r@ == filled(AGENT_LOCKDOWN_TEMPLATE@, tool@),
{
    fill(AGENT_LOCKDOWN_TEMPLATE, tool)
}

/// The script that installs the early boot guard.
pub fn boot_guard_install_script() -> (r: &'static [u8])
    ensures
        r@ == vstd::utf8::encode_utf8(BOOT_GUARD_INSTALL_SCRIPT@),
{
    BOOT_GUARD_INSTALL_SCRIPT.as_bytes()
}

/// The script that takes an agent VM offline.
pub fn egress_close_script() -> (r: &'static [u8])
    ensures
        r@ == vstd::utf8::encode_utf8(EGRESS_CLOSE_SCRIPT@),
{
    EGRESS_CLOSE_SCRIPT.as_bytes()
}

/// The processors that the gateway VM runs on.
#[derive(Debug, Clone, Copy, PartialEq, Eq, Structural)]
pub enum Processor {
    Aarch64,
    X86_64,
}

/// The template of the gateway VM.
pub open spec fn gateway_template_text(processor: Processor) -> Seq<char> {
    match processor {
        Processor::Aarch64 => GATEWAY_TEMPLATE_AARCH64@,
        Processor::X86_64 => GATEWAY_TEMPLATE_X86_64@,
    }
}

/// The template of the gateway VM.
pub fn gateway_template(processor: Processor) -> (r: &'static str)
    ensures
        r@ == gateway_template_text(processor),
{
    match processor {
        Processor::Aarch64 => GATEWAY_TEMPLATE_AARCH64,
        Processor::X86_64 => GATEWAY_TEMPLATE_X86_64,
    }
}

} // verus!
