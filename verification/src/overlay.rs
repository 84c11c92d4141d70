//! The live overlays that sit on top of a read-only rootfs during a live
//! session: what an OpenRC overlay and a systemd overlay hold, step by step.

use vstd::prelude::*;
use crate::paths;
use crate::paths::path_join;
use crate::text;
use crate::text::append_str;

verus! {

/// Which consoles an OpenRC live inittab enables.
#[derive(Debug, Clone, Copy)]
pub enum InittabVariant {
    /// Six virtual terminals and a serial console with autologin.
    DesktopWithSerial,
    /// A serial console only (headless appliance).
    SerialOnly,
}

/// How to make an OpenRC live overlay.
#[derive(Debug)]
pub struct LiveOverlayConfig<'a> {
    /// The OS name shown to users.
    pub os_name: &'a str,
    /// Which inittab to write.
    pub inittab: InittabVariant,
    /// A profile overlay directory copied first, when it exists.
    pub profile_overlay: Option<&'a str>,
    /// What `/etc/issue` says instead of the default banner.
    pub issue_message: Option<&'a str>,
}

/// How to make a systemd live overlay.
#[derive(Debug)]
pub struct SystemdLiveOverlayConfig<'a> {
    /// The OS name shown to users.
    pub os_name: &'a str,
    /// What `/etc/issue` says instead of the default banner.
    pub issue_message: Option<&'a str>,
    /// Units masked by a link to `/dev/null`.
    pub masked_units: &'a [&'a str],
    /// Whether to write the serial-console test marker profile.
    pub write_serial_test_profile: bool,
    /// What `/etc/machine-id` holds, if it is written.
    pub machine_id: Option<&'a str>,
    /// Whether to install the live locale profile.
    pub enforce_utf8_locale_profile: bool,
}

/// One step of making an overlay.
#[derive(Debug)]
pub enum OverlayStep {
    /// Remove the directory if it exists.
    RemoveDirIfExists { path: String },
    /// Copy a directory tree into the overlay if the source exists.
    CopyTreeIfExists { src: String, dst: String },
    /// Create a directory and its parents.
    CreateDir { path: String },
    /// Write a file, then set its permission bits when `mode` is given.
    WriteFile { path: String, content: String, mode: Option<u32> },
    /// Make `link` a symlink to `target`.
    Symlink { target: String, link: String },
}

/// A step of making an overlay, with its strings as character sequences.
pub enum OverlayStepView {
    RemoveDirIfExists { path: Seq<char> },
    CopyTreeIfExists { src: Seq<char>, dst: Seq<char> },
    CreateDir { path: Seq<char> },
    WriteFile { path: Seq<char>, content: Seq<char>, mode: Option<u32> },
    Symlink { target: Seq<char>, link: Seq<char> },
}

impl OverlayStep {
    pub open spec fn view(self) -> OverlayStepView {
        match self {
            OverlayStep::RemoveDirIfExists { path } => OverlayStepView::RemoveDirIfExists { path: path@ },
            OverlayStep::CopyTreeIfExists { src, dst } => OverlayStepView::CopyTreeIfExists { src: src@, dst: dst@ },
            OverlayStep::CreateDir { path } => OverlayStepView::CreateDir { path: path@ },
            OverlayStep::WriteFile { path, content, mode } => OverlayStepView::WriteFile { path: path@, content: content@, mode },
            OverlayStep::Symlink { target, link } => OverlayStepView::Symlink { target: target@, link: link@ },
        }
    }
}

/// Views of a list of steps.
pub open spec fn step_views(v: Seq<OverlayStep>) -> Seq<OverlayStepView> {
    v.map_values(|s: OverlayStep| s.view())
}

/// An overlay made of its directory and its steps.
#[derive(Debug)]
pub struct OverlayPlan {
    pub live_overlay: String,
    pub steps: Vec<OverlayStep>,
}

pub const OPENRC_AUTOLOGIN: &'static str = r#"#!/bin/sh
# Autologin for serial console testing
# Called by agetty -l as the login program
# agetty has already set up stdin/stdout/stderr on the tty

echo "[autologin] Starting login shell..."
echo "___SHELL_READY___"
echo "[autologin] Starting login shell..." >/dev/console 2>/dev/null || true
echo "___SHELL_READY___" >/dev/console 2>/dev/null || true
echo "___SHELL_READY___" >/dev/kmsg 2>/dev/null || true

# Run sh as login shell (sources /etc/profile and /etc/profile.d/*)
# In Alpine, /bin/sh is busybox ash
exec /bin/sh -l
"#;

pub const INITTAB_DESKTOP_0: &'static str = r#"# /etc/inittab - "#;

pub const INITTAB_DESKTOP_1: &'static str = r#" Live

::sysinit:/sbin/openrc sysinit
::sysinit:/sbin/openrc boot

"#;

/// The getty lines of the six virtual terminals.
pub const INITTAB_VIRTUAL_TERMINALS: &'static str = "# Virtual terminals\ntty1::respawn:/sbin/getty 38400 tty1\ntty2::respawn:/sbin/getty 38400 tty2\ntty3::respawn:/sbin/getty 38400 tty3\ntty4::respawn:/sbin/getty 38400 tty4\ntty5::respawn:/sbin/getty 38400 tty5\ntty6::respawn:/sbin/getty 38400 tty6\n";

pub const INITTAB_DESKTOP_2: &'static str = r#"
# Serial console with autologin for test harness
# Uses wrapper script that spawns ash as login shell (sources /etc/profile.d/*)
ttyS0::respawn:/sbin/getty -L -n -l /usr/local/bin/serial-autologin 115200 ttyS0 vt100

# Continue remaining services after serial shell is available
::wait:/sbin/openrc default

# Ctrl+Alt+Del
::ctrlaltdel:/sbin/reboot

# Shutdown
::shutdown:/sbin/openrc shutdown
"#;

pub const INITTAB_SERIAL_0: &'static str = r#"# /etc/inittab - "#;

pub const INITTAB_SERIAL_1: &'static str = r#" Live (headless appliance)

::sysinit:/sbin/openrc sysinit
::sysinit:/sbin/openrc boot

# Serial console PRIMARY with autologin (ttyS0) - appliance has no display
# Uses wrapper script that spawns ash as login shell (sources /etc/profile.d/*)
ttyS0::respawn:/sbin/getty -L -n -l /usr/local/bin/serial-autologin 115200 ttyS0 vt100

# Continue remaining services after serial shell is available
::wait:/sbin/openrc default

# Ctrl+Alt+Del
::ctrlaltdel:/sbin/reboot

# Shutdown
::shutdown:/sbin/openrc shutdown
"#;

pub const VOLATILE_LOG_SCRIPT: &'static str = r#"#!/bin/sh
# Ensure volatile log storage for live session
# This runs early in boot to catch any logs before syslog starts

# Only mount if not already a tmpfs (idempotent)
if ! mountpoint -q /var/log 2>/dev/null; then
    # Preserve any existing logs created before mount
    if [ -d /var/log ]; then
        mkdir -p /tmp/log-backup
        cp -a /var/log/* /tmp/log-backup/ 2>/dev/null || true
    fi

    mount -t tmpfs -o nosuid,nodev,noexec,size=64M,mode=0755 tmpfs /var/log

    # Restore preserved logs
    if [ -d /tmp/log-backup ]; then
        cp -a /tmp/log-backup/* /var/log/ 2>/dev/null || true
        rm -rf /tmp/log-backup
    fi

    # Ensure log directories exist
    mkdir -p /var/log/chrony 2>/dev/null || true
fi
"#;

pub const EFIVARS_SCRIPT: &'static str = r#"#!/bin/sh
# Ensure efivarfs is mounted for UEFI support
# Needed for efibootmgr, bootctl, and install tests

if [ -d /sys/firmware/efi ]; then
    mkdir -p /sys/firmware/efi/efivars 2>/dev/null
    mount -t efivarfs efivarfs /sys/firmware/efi/efivars 2>/dev/null || true
fi
"#;

pub const ACPI_HANDLER_0: &'static str = r#"#!/bin/sh
# "#;

pub const ACPI_HANDLER_1: &'static str = r#" Live: Disable suspend actions
# Power button and lid close do nothing during live session

case "$1" in
    button/power)
        # Log but don't suspend - user is probably installing
        logger ""#;

pub const ACPI_HANDLER_2: &'static str = r#" Live: Power button pressed (suspend disabled)"
        ;;
    button/lid)
        # Lid close does nothing - prevent accidental suspend
        logger ""#;

pub const ACPI_HANDLER_3: &'static str = r#" Live: Lid event ignored (suspend disabled)"
        ;;
    *)
        # Let other events through to default handler
        ;;
esac
"#;

pub const SYSTEMD_SERIAL_AUTOLOGIN: &'static str = r#"#!/bin/sh
echo "___SHELL_READY___"
    # Stage live override: use portable C locale (always available in minimal rootfs).
    export LANG=C
unset LC_ALL LC_CTYPE LC_NUMERIC LC_TIME LC_COLLATE LC_MESSAGES \
      LC_MONETARY LC_PAPER LC_NAME LC_ADDRESS LC_TELEPHONE LC_MEASUREMENT \
      LC_IDENTIFICATION
exec /bin/bash -il
"#;

pub const LIVE_NET_SETUP_SCRIPT: &'static str = r#"#!/bin/sh
set -eu

NIC=""
for dev in /sys/class/net/*; do
    [ -e "$dev" ] || continue
    name="$(basename "$dev")"
    [ "$name" = "lo" ] && continue
    NIC="$name"
    break
done

[ -n "$NIC" ] || exit 1

/usr/sbin/ip link set "$NIC" up
/usr/sbin/ip addr add 10.0.2.15/24 dev "$NIC" 2>/dev/null || true
/usr/sbin/ip route replace default via 10.0.2.2 dev "$NIC"
"#;

pub const LIVE_NET_SETUP_UNIT: &'static str = r#"[Unit]
Description=Levitate live network setup (slirp SSH)
DefaultDependencies=no
After=basic.target local-fs.target
Before=network.target network-online.target sshd.service
Wants=network.target

[Service]
Type=oneshot
RemainAfterExit=yes
ExecStart=/usr/local/sbin/live-net-setup

[Install]
WantedBy=multi-user.target
"#;

pub const SHUTDOWN_CLEANUP_SCRIPT: &'static str = r#"#!/bin/sh
# Live ISO shutdown cleanup:
# release loop-backed live mounts before systemd reaches umount.target.
set +e

for mp in /live-overlay /rootfs /run/live-media; do
    if mountpoint -q "$mp"; then
        umount "$mp" >/dev/null 2>&1 || umount -l "$mp" >/dev/null 2>&1
    fi
done

if [ -d /run/live-media ]; then
    rmdir /run/live-media 2>/dev/null || true
fi

for loopdev in /dev/loop1 /dev/loop0; do
    if [ -b "$loopdev" ]; then
        losetup -d "$loopdev" >/dev/null 2>&1 || true
    fi
done

if mountpoint -q /media/cdrom; then
    umount /media/cdrom >/dev/null 2>&1 || umount -l /media/cdrom >/dev/null 2>&1
fi

exit 0
"#;

pub const SHUTDOWN_CLEANUP_UNIT: &'static str = r#"[Unit]
Description=Live ISO shutdown cleanup
DefaultDependencies=no
After=multi-user.target
Before=run-live-media.mount umount.target shutdown.target
Conflicts=shutdown.target umount.target

[Service]
Type=oneshot
RemainAfterExit=yes
ExecStart=/bin/true
ExecStop=/usr/local/sbin/live-shutdown-cleanup

[Install]
WantedBy=multi-user.target
"#;

pub const SERIAL_TEST_PROFILE: &'static str = r#"# Stage harness markers (serial console only)
case "$-" in
    *i*) ;;
    *) return 0 ;;
esac

if [ "$(tty 2>/dev/null)" = "/dev/ttyS0" ]; then
    echo "___SHELL_READY___"
fi
"#;

pub const LOCALE_PROFILE: &'static str = r#"#!/bin/sh
# Stage live override: use portable C locale (always available).
export LANG=C
unset LC_ALL LC_CTYPE LC_NUMERIC LC_TIME LC_COLLATE LC_MESSAGES \
      LC_MONETARY LC_PAPER LC_NAME LC_ADDRESS LC_TELEPHONE LC_MEASUREMENT \
      LC_IDENTIFICATION
"#;

pub const ISSUE_0: &'static str = "\n";
pub const ISSUE_1: &'static str = " Live - \\l\n\nLogin as 'root' (no password)\n\n";
pub const OPENRC_SHADOW: &'static str = "root::0:0:99999:7:::\nbin:!:0:0:99999:7:::\ndaemon:!:0:0:99999:7:::\nnobody:!:0:0:99999:7:::\n";
pub const FSTAB_0: &'static str = "# ";
pub const FSTAB_1: &'static str = " Live fstab\n# Volatile log storage - prevents logs from filling overlay tmpfs\ntmpfs   /var/log    tmpfs   nosuid,nodev,noexec,size=64M,mode=0755   0 0\n";
pub const SYSCTL_0: &'static str = "# ";
pub const SYSCTL_1: &'static str = " Live: Disable suspend\n# Prevent accidental suspend during installation\n\n# Disable suspend-to-RAM\nkernel.sysrq = 1\n\n# Note: Full suspend disable requires either:\n# - elogind HandleLidSwitch=ignore (if using elogind)\n# - acpid handler (provided above)\n# - Or simply not having any suspend triggers\n";
pub const LOGIND_0: &'static str = "# ";
pub const LOGIND_1: &'static str = " Live: Disable suspend triggers\n[Login]\nHandlePowerKey=ignore\nHandleSuspendKey=ignore\nHandleHibernateKey=ignore\nHandleLidSwitch=ignore\nHandleLidSwitchExternalPower=ignore\nHandleLidSwitchDocked=ignore\nIdleAction=ignore\n";
pub const TTY1_AUTOLOGIN: &'static str = "[Service]\nExecStart=\nExecStart=-/sbin/agetty --autologin root --noclear %I $TERM\n";
pub const SERIAL_AUTOLOGIN_CONF: &'static str = "[Service]\nExecStart=\nExecStart=-/sbin/agetty -n -l /usr/local/bin/serial-autologin 115200,57600,38400,9600 %I vt100\n";
pub const SYSTEMD_SHADOW: &'static str = "root::20000:0:99999:7:::\nbin:!:0:0:99999:7:::\ndaemon:!:0:0:99999:7:::\nnobody:!:0:0:99999:7:::\n";
pub const SSHD_TMPFILES: &'static str = "d /run/sshd 0755 root root -\n";
pub const PAYLOAD_ROLE: &'static str = "overlay\n";
pub const SERIAL_GETTY_UNIT: &'static str = "/usr/lib/systemd/system/serial-getty@.service";
pub const LIVE_NET_SETUP_LINK: &'static str = "/etc/systemd/system/live-net-setup.service";
pub const SHUTDOWN_CLEANUP_LINK: &'static str = "/etc/systemd/system/live-shutdown-cleanup.service";


/// The default `/etc/issue` banner of a live session.
pub open spec fn default_issue(os: Seq<char>) -> Seq<char> {
    ISSUE_0@ + os + ISSUE_1@
}

/// What `/etc/issue` says: the given message, or the default banner.
pub open spec fn issue_text(os: Seq<char>, message: Option<&str>) -> Seq<char> {
    match message {
        Some(m) => m@,
        None => default_issue(os),
    }
}

/// The OpenRC live inittab.
pub open spec fn inittab_text(variant: InittabVariant, os: Seq<char>) -> Seq<char> {
    match variant {
        InittabVariant::DesktopWithSerial => INITTAB_DESKTOP_0@ + os + INITTAB_DESKTOP_1@ + INITTAB_VIRTUAL_TERMINALS@ + INITTAB_DESKTOP_2@,
        InittabVariant::SerialOnly => INITTAB_SERIAL_0@ + os + INITTAB_SERIAL_1@,
    }
}

/// The ACPI handler that keeps a live session from suspending.
pub open spec fn acpi_text(os: Seq<char>) -> Seq<char> {
    ACPI_HANDLER_0@ + os + ACPI_HANDLER_1@ + os + ACPI_HANDLER_2@ + os + ACPI_HANDLER_3@
}

/// A directory of the overlay.
pub open spec fn dir_at(live: Seq<char>, rel: Seq<char>) -> OverlayStepView {
    OverlayStepView::CreateDir { path: paths::join(live, rel) }
}

/// A file of the overlay.
pub open spec fn file_at(live: Seq<char>, rel: Seq<char>, content: Seq<char>, mode: Option<u32>) -> OverlayStepView {
    OverlayStepView::WriteFile { path: paths::join(live, rel), content, mode }
}

/// A symlink of the overlay.
pub open spec fn link_at(live: Seq<char>, target: Seq<char>, rel: Seq<char>) -> OverlayStepView {
    OverlayStepView::Symlink { target, link: paths::join(live, rel) }
}

/// The steps of an OpenRC live overlay at `live`.
pub open spec fn openrc_overlay_steps(
    live: Seq<char>,
    os: Seq<char>,
    inittab: InittabVariant,
    profile: Option<&str>,
    issue: Option<&str>,
) -> Seq<OverlayStepView> {
    seq![OverlayStepView::RemoveDirIfExists { path: live }]
        + (match profile {
            Some(p) => seq![OverlayStepView::CopyTreeIfExists { src: p@, dst: live }],
            None => seq![],
        })
        + seq![
            dir_at(live, "etc"@),
            dir_at(live, "usr/local/bin"@),
            file_at(live, "usr/local/bin/serial-autologin"@, OPENRC_AUTOLOGIN@, Some(0o755u32)),
            file_at(live, "etc/issue"@, issue_text(os, issue), None),
            file_at(live, ".live-payload-role"@, PAYLOAD_ROLE@, None),
            file_at(live, "etc/shadow"@, OPENRC_SHADOW@, Some(0o640u32)),
            file_at(live, "etc/inittab"@, inittab_text(inittab, os), None),
            dir_at(live, "etc/runlevels/default"@),
            dir_at(live, "etc/conf.d"@),
            file_at(live, "etc/fstab"@, FSTAB_0@ + os + FSTAB_1@, None),
            dir_at(live, "etc/local.d"@),
            file_at(live, "etc/local.d/00-volatile-log.start"@, VOLATILE_LOG_SCRIPT@, Some(0o755u32)),
            file_at(live, "etc/local.d/01-efivarfs.start"@, EFIVARS_SCRIPT@, Some(0o755u32)),
            dir_at(live, "etc/acpi"@),
            file_at(live, "etc/acpi/handler.sh"@, acpi_text(os), Some(0o755u32)),
            dir_at(live, "etc/sysctl.d"@),
            file_at(live, "etc/sysctl.d/50-live-no-suspend.conf"@, SYSCTL_0@ + os + SYSCTL_1@, None),
            dir_at(live, "etc/elogind/logind.conf.d"@),
            file_at(live, "etc/elogind/logind.conf.d/00-live-no-suspend.conf"@, LOGIND_0@ + os + LOGIND_1@, None),
        ]
}

fn push_step(v: &mut Vec<OverlayStep>, s: OverlayStep)
    ensures
        step_views(final(v)@) == step_views(old(v)@).push(s.view()),
{
    v.push(s);
    assert(step_views(v@) =~= step_views(old(v)@).push(s.view()));
}

fn push_dir(v: &mut Vec<OverlayStep>, live: &str, rel: &str)
    ensures
        step_views(final(v)@) == step_views(old(v)@).push(dir_at(live@, rel@)),
{
    push_step(v, OverlayStep::CreateDir { path: path_join(live, rel) });
}

fn push_file(v: &mut Vec<OverlayStep>, live: &str, rel: &str, content: String, mode: Option<u32>)
    ensures
        step_views(final(v)@) == step_views(old(v)@).push(file_at(live@, rel@, content@, mode)),
{
    push_step(v, OverlayStep::WriteFile { path: path_join(live, rel), content, mode });
}

fn push_link(v: &mut Vec<OverlayStep>, live: &str, target: &str, rel: &str)
    ensures
        step_views(final(v)@) == step_views(old(v)@).push(link_at(live@, target@, rel@)),
{
    push_step(v, OverlayStep::Symlink { target: String::from_str(target), link: path_join(live, rel) });
}

fn around(a: &str, os: &str, b: &str) -> (r: String)
    ensures
        r@ == a@ + os@ + b@,
{
    let mut s = String::from_str(a);
    append_str(&mut s, os);
    append_str(&mut s, b);
    s
}

fn issue_of(os: &str, message: Option<&str>) -> (r: String)
    ensures
        r@ == issue_text(os@, message),
{
    match message {
        Some(m) => String::from_str(m),
        None => around(ISSUE_0, os, ISSUE_1),
    }
}

/// The OpenRC live overlay at `<output_dir>/live-overlay`: serial autologin,
/// the issue banner, an empty root password, the inittab, volatile logs,
/// efivarfs, and the settings that keep a live session from suspending.
pub fn create_openrc_live_overlay(output_dir: &str, config: &LiveOverlayConfig) -> (r: OverlayPlan)
    ensures
        r.live_overlay@ == paths::join(output_dir@, "live-overlay"@),
        step_views(r.steps@) == openrc_overlay_steps(r.live_overlay@, config.os_name@, config.inittab,
            config.profile_overlay, config.issue_message),
{
    let live_overlay = path_join(output_dir, "live-overlay");
    let live = live_overlay.as_str();
    let os = config.os_name;
    let mut v: Vec<OverlayStep> = Vec::new();
    push_step(&mut v, OverlayStep::RemoveDirIfExists { path: String::from_str(live) });
    match config.profile_overlay {
        Some(p) => {
            push_step(&mut v, OverlayStep::CopyTreeIfExists { src: String::from_str(p), dst: String::from_str(live) });
        },
        None => {},
    }
    let ghost prefix = step_views(v@);
    proof {
        assert(prefix =~= seq![OverlayStepView::RemoveDirIfExists { path: live@ }]
            + (match config.profile_overlay {
                Some(p) => seq![OverlayStepView::CopyTreeIfExists { src: p@, dst: live@ }],
                None => seq![],
            }));
    }
    push_dir(&mut v, live, "etc");
    push_dir(&mut v, live, "usr/local/bin");
    push_file(&mut v, live, "usr/local/bin/serial-autologin", String::from_str(OPENRC_AUTOLOGIN), Some(0o755u32));
    push_file(&mut v, live, "etc/issue", issue_of(os, config.issue_message), None);
    push_file(&mut v, live, ".live-payload-role", String::from_str(PAYLOAD_ROLE), None);
    push_file(&mut v, live, "etc/shadow", String::from_str(OPENRC_SHADOW), Some(0o640u32));
    let inittab = match config.inittab {
        InittabVariant::DesktopWithSerial => {
            let mut t = around(INITTAB_DESKTOP_0, os, INITTAB_DESKTOP_1);
            append_str(&mut t, INITTAB_VIRTUAL_TERMINALS);
            append_str(&mut t, INITTAB_DESKTOP_2);
            t
        },
        InittabVariant::SerialOnly => around(INITTAB_SERIAL_0, os, INITTAB_SERIAL_1),
    };
    push_file(&mut v, live, "etc/inittab", inittab, None);
    push_dir(&mut v, live, "etc/runlevels/default");
    push_dir(&mut v, live, "etc/conf.d");
    push_file(&mut v, live, "etc/fstab", around(FSTAB_0, os, FSTAB_1), None);
    push_dir(&mut v, live, "etc/local.d");
    push_file(&mut v, live, "etc/local.d/00-volatile-log.start", String::from_str(VOLATILE_LOG_SCRIPT), Some(0o755u32));
    push_file(&mut v, live, "etc/local.d/01-efivarfs.start", String::from_str(EFIVARS_SCRIPT), Some(0o755u32));
    push_dir(&mut v, live, "etc/acpi");
    let mut acpi = around(ACPI_HANDLER_0, os, ACPI_HANDLER_1);
    append_str(&mut acpi, os);
    append_str(&mut acpi, ACPI_HANDLER_2);
    append_str(&mut acpi, os);
    append_str(&mut acpi, ACPI_HANDLER_3);
    push_file(&mut v, live, "etc/acpi/handler.sh", acpi, Some(0o755u32));
    push_dir(&mut v, live, "etc/sysctl.d");
    push_file(&mut v, live, "etc/sysctl.d/50-live-no-suspend.conf", around(SYSCTL_0, os, SYSCTL_1), None);
    push_dir(&mut v, live, "etc/elogind/logind.conf.d");
    push_file(&mut v, live, "etc/elogind/logind.conf.d/00-live-no-suspend.conf", around(LOGIND_0, os, LOGIND_1), None);
    assert(step_views(v@) =~= openrc_overlay_steps(live_overlay@, config.os_name@, config.inittab,
        config.profile_overlay, config.issue_message));
    OverlayPlan { live_overlay, steps: v }
}

/// The masked units of a systemd overlay: each linked to `/dev/null`.
pub open spec fn masked_links(live: Seq<char>, units: Seq<&str>) -> Seq<OverlayStepView> {
    units.map_values(|u: &str| link_at(live, "/dev/null"@, "etc/systemd/system/"@ + u@))
}

/// The steps of a systemd live overlay at `live`.
pub open spec fn systemd_overlay_steps(live: Seq<char>, c: SystemdLiveOverlayConfig) -> Seq<OverlayStepView> {
    seq![
        OverlayStepView::RemoveDirIfExists { path: live },
        dir_at(live, "etc/systemd/system/getty@tty1.service.d"@),
        dir_at(live, "etc/systemd/system/getty@.service.d"@),
        dir_at(live, "etc/systemd/system/serial-getty@.service.d"@),
        dir_at(live, "etc/systemd/system/getty.target.wants"@),
        dir_at(live, "etc/systemd/system/basic.target.wants"@),
        dir_at(live, "etc/systemd/system/multi-user.target.wants"@),
        dir_at(live, "etc/systemd/network"@),
        dir_at(live, "etc/profile.d"@),
        dir_at(live, "etc/tmpfiles.d"@),
        dir_at(live, "usr/local/bin"@),
        dir_at(live, "usr/local/sbin"@),
        file_at(live, "etc/systemd/system/getty@tty1.service.d/autologin.conf"@, TTY1_AUTOLOGIN@, None),
        file_at(live, "usr/local/bin/serial-autologin"@, SYSTEMD_SERIAL_AUTOLOGIN@, Some(0o755u32)),
        file_at(live, "etc/systemd/system/serial-getty@.service.d/zz-autologin.conf"@, SERIAL_AUTOLOGIN_CONF@, None),
        file_at(live, "etc/systemd/system/getty@.service.d/zz-autologin.conf"@, SERIAL_AUTOLOGIN_CONF@, None),
        link_at(live, SERIAL_GETTY_UNIT@, "etc/systemd/system/basic.target.wants/serial-getty@ttyS0.service"@),
        link_at(live, SERIAL_GETTY_UNIT@, "etc/systemd/system/getty.target.wants/serial-getty@ttyS0.service"@),
        file_at(live, "usr/local/sbin/live-net-setup"@, LIVE_NET_SETUP_SCRIPT@, Some(0o755u32)),
        file_at(live, "etc/systemd/system/live-net-setup.service"@, LIVE_NET_SETUP_UNIT@, None),
        link_at(live, LIVE_NET_SETUP_LINK@, "etc/systemd/system/multi-user.target.wants/live-net-setup.service"@),
    ]
        + masked_links(live, c.masked_units@)
        + seq![
            file_at(live, "usr/local/sbin/live-shutdown-cleanup"@, SHUTDOWN_CLEANUP_SCRIPT@, Some(0o755u32)),
            file_at(live, "etc/systemd/system/live-shutdown-cleanup.service"@, SHUTDOWN_CLEANUP_UNIT@, None),
            link_at(live, SHUTDOWN_CLEANUP_LINK@, "etc/systemd/system/multi-user.target.wants/live-shutdown-cleanup.service"@),
            file_at(live, "etc/issue"@, issue_text(c.os_name@, c.issue_message), None),
        ]
        + (if c.write_serial_test_profile {
            seq![file_at(live, "etc/profile.d/00-live-test.sh"@, SERIAL_TEST_PROFILE@, None)]
        } else {
            seq![]
        })
        + (if c.enforce_utf8_locale_profile {
            seq![file_at(live, "etc/profile.d/lang.sh"@, LOCALE_PROFILE@, Some(0o755u32))]
        } else {
            seq![]
        })
        + seq![file_at(live, "etc/tmpfiles.d/sshd-local.conf"@, SSHD_TMPFILES@, None)]
        + (match c.machine_id {
            Some(m) => seq![file_at(live, "etc/machine-id"@, m@, None)],
            None => seq![],
        })
        + seq![
            file_at(live, "etc/shadow"@, SYSTEMD_SHADOW@, Some(0o600u32)),
            file_at(live, ".live-payload-role"@, PAYLOAD_ROLE@, None),
        ]
}

/// The systemd live overlay at `<output_dir>/live-overlay`: autologin on tty1
/// and the serial console, live networking and shutdown cleanup units, the
/// masked units, the issue banner, an empty root password and the optional
/// test profile, locale profile and machine id.
pub fn create_systemd_live_overlay(output_dir: &str, config: &SystemdLiveOverlayConfig) -> (r: OverlayPlan)
    ensures
        r.live_overlay@ == paths::join(output_dir@, "live-overlay"@),
        step_views(r.steps@) == systemd_overlay_steps(r.live_overlay@, *config),
{
    let live_overlay = path_join(output_dir, "live-overlay");
    let live = live_overlay.as_str();
    let mut v: Vec<OverlayStep> = Vec::new();
    push_step(&mut v, OverlayStep::RemoveDirIfExists { path: String::from_str(live) });
    push_dir(&mut v, live, "etc/systemd/system/getty@tty1.service.d");
    push_dir(&mut v, live, "etc/systemd/system/getty@.service.d");
    push_dir(&mut v, live, "etc/systemd/system/serial-getty@.service.d");
    push_dir(&mut v, live, "etc/systemd/system/getty.target.wants");
    push_dir(&mut v, live, "etc/systemd/system/basic.target.wants");
    push_dir(&mut v, live, "etc/systemd/system/multi-user.target.wants");
    push_dir(&mut v, live, "etc/systemd/network");
    push_dir(&mut v, live, "etc/profile.d");
    push_dir(&mut v, live, "etc/tmpfiles.d");
    push_dir(&mut v, live, "usr/local/bin");
    push_dir(&mut v, live, "usr/local/sbin");
    push_file(&mut v, live, "etc/systemd/system/getty@tty1.service.d/autologin.conf", String::from_str(TTY1_AUTOLOGIN), None);
    push_file(&mut v, live, "usr/local/bin/serial-autologin", String::from_str(SYSTEMD_SERIAL_AUTOLOGIN), Some(0o755u32));
    push_file(&mut v, live, "etc/systemd/system/serial-getty@.service.d/zz-autologin.conf", String::from_str(SERIAL_AUTOLOGIN_CONF), None);
    push_file(&mut v, live, "etc/systemd/system/getty@.service.d/zz-autologin.conf", String::from_str(SERIAL_AUTOLOGIN_CONF), None);
    push_link(&mut v, live, SERIAL_GETTY_UNIT, "etc/systemd/system/basic.target.wants/serial-getty@ttyS0.service");
    push_link(&mut v, live, SERIAL_GETTY_UNIT, "etc/systemd/system/getty.target.wants/serial-getty@ttyS0.service");
    push_file(&mut v, live, "usr/local/sbin/live-net-setup", String::from_str(LIVE_NET_SETUP_SCRIPT), Some(0o755u32));
    push_file(&mut v, live, "etc/systemd/system/live-net-setup.service", String::from_str(LIVE_NET_SETUP_UNIT), None);
    push_link(&mut v, live, LIVE_NET_SETUP_LINK, "etc/systemd/system/multi-user.target.wants/live-net-setup.service");
    let ghost part1 = step_views(v@);
    let mut i: usize = 0;
    while i < config.masked_units.len()
        invariant
            i <= config.masked_units@.len(),
            live@ == live_overlay@,
            step_views(v@) == part1 + masked_links(live@, config.masked_units@.take(i as int)),
        decreases config.masked_units.len() - i,
    {
        let unit: &str = config.masked_units[i];
        let mut rel = String::from_str("etc/systemd/system/");
        append_str(&mut rel, unit);
        push_link(&mut v, live, "/dev/null", rel.as_str());
        assert(masked_links(live@, config.masked_units@.take(i as int + 1)) =~= masked_links(live@, config.masked_units@.take(i as int)).push(
            link_at(live@, "/dev/null"@, "etc/systemd/system/"@ + unit@)));
        i = i + 1;
    }
    assert(config.masked_units@.take(config.masked_units@.len() as int) =~= config.masked_units@);
    let ghost part2 = step_views(v@);
    push_file(&mut v, live, "usr/local/sbin/live-shutdown-cleanup", String::from_str(SHUTDOWN_CLEANUP_SCRIPT), Some(0o755u32));
    push_file(&mut v, live, "etc/systemd/system/live-shutdown-cleanup.service", String::from_str(SHUTDOWN_CLEANUP_UNIT), None);
    push_link(&mut v, live, SHUTDOWN_CLEANUP_LINK, "etc/systemd/system/multi-user.target.wants/live-shutdown-cleanup.service");
    push_file(&mut v, live, "etc/issue", issue_of(config.os_name, config.issue_message), None);
    let ghost part3 = step_views(v@);
    if config.write_serial_test_profile {
        push_file(&mut v, live, "etc/profile.d/00-live-test.sh", String::from_str(SERIAL_TEST_PROFILE), None);
    }
    let ghost part4 = step_views(v@);
    if config.enforce_utf8_locale_profile {
        push_file(&mut v, live, "etc/profile.d/lang.sh", String::from_str(LOCALE_PROFILE), Some(0o755u32));
    }
    let ghost part5 = step_views(v@);
    push_file(&mut v, live, "etc/tmpfiles.d/sshd-local.conf", String::from_str(SSHD_TMPFILES), None);
    let ghost part6 = step_views(v@);
    match config.machine_id {
        Some(m) => {
            push_file(&mut v, live, "etc/machine-id", String::from_str(m), None);
        },
        None => {},
    }
    let ghost part7 = step_views(v@);
    push_file(&mut v, live, "etc/shadow", String::from_str(SYSTEMD_SHADOW), Some(0o600u32));
    push_file(&mut v, live, ".live-payload-role", String::from_str(PAYLOAD_ROLE), None);
    assert(step_views(v@) =~= systemd_overlay_steps(live_overlay@, *config));
    OverlayPlan { live_overlay, steps: v }
}

/// A desktop live session logs in on the virtual terminals: for every OS
/// name, the desktop inittab respawns a getty on each of `tty1` to `tty6`.
pub proof fn law_desktop_inittab_has_vt_logins(os: Seq<char>)
    ensures
        text::contains(inittab_text(InittabVariant::DesktopWithSerial, os), "tty1::respawn:/sbin/getty 38400 tty1"@),
        text::contains(inittab_text(InittabVariant::DesktopWithSerial, os), "tty2::respawn:/sbin/getty 38400 tty2"@),
        text::contains(inittab_text(InittabVariant::DesktopWithSerial, os), "tty3::respawn:/sbin/getty 38400 tty3"@),
        text::contains(inittab_text(InittabVariant::DesktopWithSerial, os), "tty4::respawn:/sbin/getty 38400 tty4"@),
        text::contains(inittab_text(InittabVariant::DesktopWithSerial, os), "tty5::respawn:/sbin/getty 38400 tty5"@),
        text::contains(inittab_text(InittabVariant::DesktopWithSerial, os), "tty6::respawn:/sbin/getty 38400 tty6"@),
{
    reveal_strlit("# Virtual terminals\ntty1::respawn:/sbin/getty 38400 tty1\ntty2::respawn:/sbin/getty 38400 tty2\ntty3::respawn:/sbin/getty 38400 tty3\ntty4::respawn:/sbin/getty 38400 tty4\ntty5::respawn:/sbin/getty 38400 tty5\ntty6::respawn:/sbin/getty 38400 tty6\n");
    let v = INITTAB_VIRTUAL_TERMINALS@;
    let c = inittab_text(InittabVariant::DesktopWithSerial, os);
    let base: int = INITTAB_DESKTOP_0@.len() as int + os.len() as int + INITTAB_DESKTOP_1@.len() as int;
    assert(v.len() == 242);
    reveal_strlit("tty1::respawn:/sbin/getty 38400 tty1");
    assert(v.subrange(20, 56) =~= "tty1::respawn:/sbin/getty 38400 tty1"@);
    assert(c.subrange(base + 20, base + 56) =~= v.subrange(20, 56));
    assert(text::occurs_at(c, "tty1::respawn:/sbin/getty 38400 tty1"@, base + 20));
    reveal_strlit("tty2::respawn:/sbin/getty 38400 tty2");
    assert(v.subrange(57, 93) =~= "tty2::respawn:/sbin/getty 38400 tty2"@);
    assert(c.subrange(base + 57, base + 93) =~= v.subrange(57, 93));
    assert(text::occurs_at(c, "tty2::respawn:/sbin/getty 38400 tty2"@, base + 57));
    reveal_strlit("tty3::respawn:/sbin/getty 38400 tty3");
    assert(v.subrange(94, 130) =~= "tty3::respawn:/sbin/getty 38400 tty3"@);
    assert(c.subrange(base + 94, base + 130) =~= v.subrange(94, 130));
    assert(text::occurs_at(c, "tty3::respawn:/sbin/getty 38400 tty3"@, base + 94));
    reveal_strlit("tty4::respawn:/sbin/getty 38400 tty4");
    assert(v.subrange(131, 167) =~= "tty4::respawn:/sbin/getty 38400 tty4"@);
    assert(c.subrange(base + 131, base + 167) =~= v.subrange(131, 167));
    assert(text::occurs_at(c, "tty4::respawn:/sbin/getty 38400 tty4"@, base + 131));
    reveal_strlit("tty5::respawn:/sbin/getty 38400 tty5");
    assert(v.subrange(168, 204) =~= "tty5::respawn:/sbin/getty 38400 tty5"@);
    assert(c.subrange(base + 168, base + 204) =~= v.subrange(168, 204));
    assert(text::occurs_at(c, "tty5::respawn:/sbin/getty 38400 tty5"@, base + 168));
    reveal_strlit("tty6::respawn:/sbin/getty 38400 tty6");
    assert(v.subrange(205, 241) =~= "tty6::respawn:/sbin/getty 38400 tty6"@);
    assert(c.subrange(base + 205, base + 241) =~= v.subrange(205, 241));
    assert(text::occurs_at(c, "tty6::respawn:/sbin/getty 38400 tty6"@, base + 205));
}

/// The OpenRC overlay of a desktop live session writes `etc/inittab` with a
/// getty on each of `tty1` to `tty6`, whatever the OS name, profile overlay
/// and issue message.
pub proof fn law_openrc_desktop_overlay_has_vt_logins(live: Seq<char>, os: Seq<char>, profile: Option<&str>, issue: Option<&str>)
    ensures
        exists|i: int| #![trigger openrc_overlay_steps(live, os, InittabVariant::DesktopWithSerial, profile, issue)[i]] {
            &&& 0 <= i < openrc_overlay_steps(live, os, InittabVariant::DesktopWithSerial, profile, issue).len()
            &&& openrc_overlay_steps(live, os, InittabVariant::DesktopWithSerial, profile, issue)[i]
                matches OverlayStepView::WriteFile { path, content, .. }
            &&& path == paths::join(live, "etc/inittab"@)
            &&& content == inittab_text(InittabVariant::DesktopWithSerial, os)
            &&& text::contains(content, "tty1::respawn:/sbin/getty 38400 tty1"@)
            &&& text::contains(content, "tty6::respawn:/sbin/getty 38400 tty6"@)
        },
{
    law_desktop_inittab_has_vt_logins(os);
    let steps = openrc_overlay_steps(live, os, InittabVariant::DesktopWithSerial, profile, issue);
    let k: int = match profile {
        Some(_) => 8,
        None => 7,
    };
    assert(steps[k] == file_at(live, "etc/inittab"@, inittab_text(InittabVariant::DesktopWithSerial, os), None));
}

} // verus!
