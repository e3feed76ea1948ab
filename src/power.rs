//! Power control: the operation a power invocation names, and the command
//! that issues it on each platform.
use vstd::prelude::*;
use crate::params::{json_accepts, text_field, text_member, ParamDoc, ParamError};
use crate::process::{command_line, command_of, CommandLine, CommandModel, Platform};
use crate::text::same_text;

verus! {

#[derive(Clone, Copy, Debug, PartialEq, Eq, Structural)]
pub enum PowerOperation {
    Shutdown,
    Restart,
    /// Turn the display off without suspending.
    ScreenOff,
    /// Suspend the system.
    Sleep,
}

/// The operation that a `power_action` text names.
pub open spec fn power_named(a: Seq<char>) -> Result<PowerOperation, ParamError> {
    if a == "shutdown"@ {
        Ok(PowerOperation::Shutdown)
    } else if a == "restart"@ {
        Ok(PowerOperation::Restart)
    } else if a == "screenoff"@ {
        Ok(PowerOperation::ScreenOff)
    } else if a == "sleep"@ {
        Ok(PowerOperation::Sleep)
    } else {
        Err(ParamError::UnknownPowerAction)
    }
}

/// `power_action` defaults to `shutdown` where it is absent or no string.
pub open spec fn power_of(text: Seq<char>) -> Result<PowerOperation, ParamError> {
    if !json_accepts(text) {
        Err(ParamError::MalformedJson)
    } else {
        match text_member(text, "power_action"@) {
            Some(a) => power_named(a),
            None => Ok(PowerOperation::Shutdown),
        }
    }
}

pub fn power_operation(name: &str) -> (r: Result<PowerOperation, ParamError>)
    ensures
        r == power_named(name@),
{
    if same_text(name, "shutdown") {
        Ok(PowerOperation::Shutdown)
    } else if same_text(name, "restart") {
        Ok(PowerOperation::Restart)
    } else if same_text(name, "screenoff") {
        Ok(PowerOperation::ScreenOff)
    } else if same_text(name, "sleep") {
        Ok(PowerOperation::Sleep)
    } else {
        Err(ParamError::UnknownPowerAction)
    }
}

pub fn decode_power(param: &str) -> (r: Result<PowerOperation, ParamError>)
    ensures
        r == power_of(param@),
{
    let doc = match ParamDoc::parse(param) {
        Some(d) => d,
        None => return Err(ParamError::MalformedJson),
    };
    match text_field(&doc, "power_action") {
        Some(a) => power_operation(a.as_str()),
        None => Ok(PowerOperation::Shutdown),
    }
}

/// A text that names none of the four operations is refused, so no command
/// is ever chosen for it.
pub proof fn lemma_unknown_power_action_refused(a: Seq<char>)
    requires
        a != "shutdown"@,
        a != "restart"@,
        a != "screenoff"@,
        a != "sleep"@,
    ensures
        power_named(a) == Err::<PowerOperation, ParamError>(ParamError::UnknownPowerAction),
{
}

/// How a power operation is issued.
#[derive(Debug)]
pub enum PowerCommand {
    /// Start this command and do not wait for it.
    Run(CommandLine),
    /// Broadcast the system command that powers the monitors off.
    MonitorOff,
}

pub enum PowerCommandModel {
    Run(CommandModel),
    MonitorOff,
}

pub open spec fn power_command_view(c: PowerCommand) -> PowerCommandModel {
    match c {
        PowerCommand::Run(l) => PowerCommandModel::Run(l@),
        PowerCommand::MonitorOff => PowerCommandModel::MonitorOff,
    }
}

pub open spec fn run_of(program: Seq<char>, args: Seq<Seq<char>>) -> PowerCommandModel {
    PowerCommandModel::Run(command_of(program, args))
}

/// The command for each operation and platform.
pub open spec fn power_command_of(op: PowerOperation, platform: Platform) -> PowerCommandModel {
    match platform {
        Platform::Windows => match op {
            PowerOperation::Shutdown => run_of("shutdown"@, seq!["/s"@, "/f"@, "/t"@, "0"@]),
            PowerOperation::Restart => run_of("shutdown"@, seq!["/r"@, "/f"@, "/t"@, "0"@]),
            PowerOperation::ScreenOff => PowerCommandModel::MonitorOff,
            PowerOperation::Sleep => run_of(
                "rundll32.exe"@,
                seq!["powrprof.dll,SetSuspendState"@, "0,1,0"@],
            ),
        },
        Platform::MacOs => match op {
            PowerOperation::Shutdown => run_of(
                "osascript"@,
                seq!["-e"@, "tell app \"System Events\" to shut down"@],
            ),
            PowerOperation::Restart => run_of(
                "osascript"@,
                seq!["-e"@, "tell app \"System Events\" to restart"@],
            ),
            PowerOperation::ScreenOff => run_of("pmset"@, seq!["displaysleepnow"@]),
            PowerOperation::Sleep => run_of("pmset"@, seq!["sleepnow"@]),
        },
        Platform::Unix => match op {
            PowerOperation::Shutdown => run_of("systemctl"@, seq!["poweroff"@]),
            PowerOperation::Restart => run_of("systemctl"@, seq!["reboot"@]),
            PowerOperation::ScreenOff => run_of("xset"@, seq!["dpms"@, "force"@, "off"@]),
            PowerOperation::Sleep => run_of("systemctl"@, seq!["suspend"@]),
        },
    }
}

pub fn power_command(op: PowerOperation, platform: Platform) -> (r: PowerCommand)
    ensures
        power_command_view(r) == power_command_of(op, platform),
{
    let line = match (platform, op) {
        (Platform::Windows, PowerOperation::ScreenOff) => return PowerCommand::MonitorOff,
        (Platform::Windows, PowerOperation::Shutdown) => command_line("shutdown", &["/s", "/f", "/t", "0"]),
        (Platform::Windows, PowerOperation::Restart) => command_line("shutdown", &["/r", "/f", "/t", "0"]),
        (Platform::Windows, PowerOperation::Sleep) => command_line(
            "rundll32.exe",
            &["powrprof.dll,SetSuspendState", "0,1,0"],
        ),
        (Platform::MacOs, PowerOperation::Shutdown) => command_line(
            "osascript",
            &["-e", "tell app \"System Events\" to shut down"],
        ),
        (Platform::MacOs, PowerOperation::Restart) => command_line(
            "osascript",
            &["-e", "tell app \"System Events\" to restart"],
        ),
        (Platform::MacOs, PowerOperation::ScreenOff) => command_line("pmset", &["displaysleepnow"]),
        (Platform::MacOs, PowerOperation::Sleep) => command_line("pmset", &["sleepnow"]),
        (Platform::Unix, PowerOperation::Shutdown) => command_line("systemctl", &["poweroff"]),
        (Platform::Unix, PowerOperation::Restart) => command_line("systemctl", &["reboot"]),
        (Platform::Unix, PowerOperation::ScreenOff) => command_line("xset", &["dpms", "force", "off"]),
        (Platform::Unix, PowerOperation::Sleep) => command_line("systemctl", &["suspend"]),
    };
    let ghost expected = power_command_of(op, platform);
    assert(expected matches PowerCommandModel::Run(m) && line@.program == m.program && line@.args =~= m.args);
    PowerCommand::Run(line)
}

} // verus!
