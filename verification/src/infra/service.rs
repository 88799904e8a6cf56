//! Service units that start the gateway at boot: systemd on Linux, launchd
//! on macOS, a scheduled task on Windows.

use vstd::prelude::*;
use crate::command::{texts, CommandSpec};
use crate::config::AppConfig;
use crate::text::{join_path, joined, PathStyle};

verus! {

/// Where the service keeps its own copy of the configuration.
pub fn managed_config_path(cfg: &AppConfig, style: PathStyle) -> (r: String)
    ensures
        r@ == joined(cfg.runtime.work_dir@, "omnilan.yaml"@, style),
{
    join_path(cfg.runtime.work_dir.as_str(), "omnilan.yaml", style)
}

/// The program the service starts: the running executable's path when it
/// is known, else `omnilan`.
pub fn service_program(current_exe: Option<String>) -> (r: String)
    ensures
        r@ == match current_exe { Some(p) => p@, None => "omnilan"@ },
{
    match current_exe {
        Some(p) => p,
        None => "omnilan".to_owned(),
    }
}

/// The systemd unit text.
pub open spec fn systemd_unit(program: Seq<char>, managed_config: Seq<char>) -> Seq<char> {
    "[Unit]\nDescription=OmniLAN Gateway Service\nAfter=network-online.target\nWants=network-online.target\n\n[Service]\nType=simple\nExecStart="@
        + program + " run -c "@ + managed_config
        + "\nRestart=always\nRestartSec=5\n\n[Install]\nWantedBy=multi-user.target\n"@
}

/// Renders the systemd unit that runs `program` on `managed_config`.
pub fn render_systemd_unit(program: &str, managed_config: &str) -> (r: String)
    ensures
        r@ == systemd_unit(program@, managed_config@),
{
    let mut r = "[Unit]\nDescription=OmniLAN Gateway Service\nAfter=network-online.target\nWants=network-online.target\n\n[Service]\nType=simple\nExecStart=".to_owned();
    r.append(program);
    r.append(" run -c ");
    r.append(managed_config);
    r.append("\nRestart=always\nRestartSec=5\n\n[Install]\nWantedBy=multi-user.target\n");
    r
}

/// The launchd property list text.
pub open spec fn launchd_plist(program: Seq<char>, managed_config: Seq<char>) -> Seq<char> {
    "<?xml version=\"1.0\" encoding=\"UTF-8\"?>\n<!DOCTYPE plist PUBLIC \"-//Apple//DTD PLIST 1.0//EN\" \"http://www.apple.com/DTDs/PropertyList-1.0.dtd\">\n<plist version=\"1.0\">\n<dict>\n  <key>Label</key><string>com.omnilan.agent</string>\n  <key>ProgramArguments</key>\n  <array>\n    <string>"@
        + program + "</string>\n    <string>run</string>\n    <string>-c</string>\n    <string>"@ + managed_config
        + "</string>\n  </array>\n  <key>RunAtLoad</key><true/>\n  <key>KeepAlive</key><true/>\n</dict>\n</plist>\n"@
}

/// Renders the launchd agent that runs `program` on `managed_config`.
pub fn render_launchd_plist(program: &str, managed_config: &str) -> (r: String)
    ensures
        r@ == launchd_plist(program@, managed_config@),
{
    let mut r = "<?xml version=\"1.0\" encoding=\"UTF-8\"?>\n<!DOCTYPE plist PUBLIC \"-//Apple//DTD PLIST 1.0//EN\" \"http://www.apple.com/DTDs/PropertyList-1.0.dtd\">\n<plist version=\"1.0\">\n<dict>\n  <key>Label</key><string>com.omnilan.agent</string>\n  <key>ProgramArguments</key>\n  <array>\n    <string>".to_owned();
    r.append(program);
    r.append("</string>\n    <string>run</string>\n    <string>-c</string>\n    <string>");
    r.append(managed_config);
    r.append("</string>\n  </array>\n  <key>RunAtLoad</key><true/>\n  <key>KeepAlive</key><true/>\n</dict>\n</plist>\n");
    r
}

/// Where the systemd unit is installed.
pub fn systemd_unit_path() -> (r: &'static str)
    ensures
        r@ == "/etc/systemd/system/omnilan.service"@,
{
    "/etc/systemd/system/omnilan.service"
}

/// Where the launchd agent is installed under a home directory (a macOS
/// path).
pub fn launchd_plist_path(home: &str) -> (r: String)
    ensures
        r@ == joined(home@, "Library/LaunchAgents/com.omnilan.agent.plist"@, PathStyle::Unix),
{
    join_path(home, "Library/LaunchAgents/com.omnilan.agent.plist", PathStyle::Unix)
}

/// The task command line of the Windows scheduled task.
pub open spec fn task_command_line(program: Seq<char>, managed_config: Seq<char>) -> Seq<char> {
    "\""@ + program + "\" run -c \""@ + managed_config + "\""@
}

/// The command that creates the Windows scheduled task.
pub fn schtasks_create_command(program: &str, managed_config: &str) -> (c: CommandSpec)
    ensures
        c.spec_parts() == ("schtasks"@, seq!["/Create"@, "/SC"@, "ONSTART"@, "/RL"@, "HIGHEST"@, "/TN"@, "OmniLAN"@,
            "/TR"@, task_command_line(program@, managed_config@), "/F"@]),
{
    let mut tr = "\"".to_owned();
    tr.append(program);
    tr.append("\" run -c \"");
    tr.append(managed_config);
    tr.append("\"");
    let mut args: Vec<String> = Vec::new();
    args.push("/Create".to_owned());
    args.push("/SC".to_owned());
    args.push("ONSTART".to_owned());
    args.push("/RL".to_owned());
    args.push("HIGHEST".to_owned());
    args.push("/TN".to_owned());
    args.push("OmniLAN".to_owned());
    args.push("/TR".to_owned());
    args.push(tr);
    args.push("/F".to_owned());
    let c = CommandSpec { program: "schtasks".to_owned(), args };
    assert(texts(c.args@) =~= seq!["/Create"@, "/SC"@, "ONSTART"@, "/RL"@, "HIGHEST"@, "/TN"@, "OmniLAN"@,
        "/TR"@, task_command_line(program@, managed_config@), "/F"@]);
    c
}

/// A command as data, from a program and argument texts.
fn command(program: &str, args: Vec<&str>) -> (c: CommandSpec)
    ensures
        c.spec_parts() == (program@, args@.map_values(|a: &str| a@)),
{
    let mut v: Vec<String> = Vec::new();
    let mut i: usize = 0;
    while i < args.len()
        invariant
            i <= args@.len(),
            v@.len() == i,
            forall|j: int| 0 <= j < i ==> v@[j]@ == args@[j]@,
        decreases args@.len() - i,
    {
        v.push(args[i].to_owned());
        i = i + 1;
    }
    let c = CommandSpec { program: program.to_owned(), args: v };
    assert(texts(c.args@) =~= args@.map_values(|a: &str| a@));
    c
}

/// The commands that register and start the systemd unit, in order.
pub fn systemd_enable_commands() -> (r: Vec<CommandSpec>)
    ensures
        r@.len() == 2,
        r@[0].spec_parts() == ("systemctl"@, seq!["daemon-reload"@]),
        r@[1].spec_parts() == ("systemctl"@, seq!["enable"@, "--now"@, "omnilan.service"@]),
{
    let a = command("systemctl", vec!["daemon-reload"]);
    let b = command("systemctl", vec!["enable", "--now", "omnilan.service"]);
    assert(seq!["daemon-reload"].map_values(|a: &str| a@) =~= seq!["daemon-reload"@]);
    assert(seq!["enable", "--now", "omnilan.service"].map_values(|a: &str| a@) =~= seq!["enable"@, "--now"@, "omnilan.service"@]);
    let mut r: Vec<CommandSpec> = Vec::new();
    r.push(a);
    r.push(b);
    r
}

/// The commands that stop, remove and forget the systemd unit, in order;
/// the first may fail without stopping the others.
pub fn systemd_remove_commands() -> (r: Vec<CommandSpec>)
    ensures
        r@.len() == 3,
        r@[0].spec_parts() == ("systemctl"@, seq!["disable"@, "--now"@, "omnilan.service"@]),
        r@[1].spec_parts() == ("rm"@, seq!["-f"@, "/etc/systemd/system/omnilan.service"@]),
        r@[2].spec_parts() == ("systemctl"@, seq!["daemon-reload"@]),
{
    let a = command("systemctl", vec!["disable", "--now", "omnilan.service"]);
    let b = command("rm", vec!["-f", "/etc/systemd/system/omnilan.service"]);
    let c = command("systemctl", vec!["daemon-reload"]);
    assert(seq!["disable", "--now", "omnilan.service"].map_values(|a: &str| a@) =~= seq!["disable"@, "--now"@, "omnilan.service"@]);
    assert(seq!["-f", "/etc/systemd/system/omnilan.service"].map_values(|a: &str| a@) =~= seq!["-f"@, "/etc/systemd/system/omnilan.service"@]);
    assert(seq!["daemon-reload"].map_values(|a: &str| a@) =~= seq!["daemon-reload"@]);
    let mut r: Vec<CommandSpec> = Vec::new();
    r.push(a);
    r.push(b);
    r.push(c);
    r
}

/// The command that unloads the launchd agent at `plist` (allowed to fail).
pub fn launchctl_unload_command(plist: &str) -> (c: CommandSpec)
    ensures
        c.spec_parts() == ("launchctl"@, seq!["unload"@, plist@]),
{
    let c = command("launchctl", vec!["unload", plist]);
    assert(seq!["unload", plist].map_values(|a: &str| a@) =~= seq!["unload"@, plist@]);
    c
}

/// The command that loads and enables the launchd agent at `plist`.
pub fn launchctl_load_command(plist: &str) -> (c: CommandSpec)
    ensures
        c.spec_parts() == ("launchctl"@, seq!["load"@, "-w"@, plist@]),
{
    let c = command("launchctl", vec!["load", "-w", plist]);
    assert(seq!["load", "-w", plist].map_values(|a: &str| a@) =~= seq!["load"@, "-w"@, plist@]);
    c
}

/// The command that deletes the Windows scheduled task (allowed to fail).
pub fn schtasks_delete_command() -> (c: CommandSpec)
    ensures
        c.spec_parts() == ("schtasks"@, seq!["/Delete"@, "/TN"@, "OmniLAN"@, "/F"@]),
{
    let c = command("schtasks", vec!["/Delete", "/TN", "OmniLAN", "/F"]);
    assert(seq!["/Delete", "/TN", "OmniLAN", "/F"].map_values(|a: &str| a@) =~= seq!["/Delete"@, "/TN"@, "OmniLAN"@, "/F"@]);
    c
}

} // verus!
