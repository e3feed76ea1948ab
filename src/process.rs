//! Ending processes by name: the parameters, the target, and the commands
//! that the platform's kill tools take.
use vstd::prelude::*;
use crate::params::{filled_field, filled_member, flag_field, flag_member, json_accepts, ParamDoc, ParamError};
use crate::text::views_of;

verus! {

/// The operating system family, which decides the tools to call.
#[derive(Clone, Copy, Debug, PartialEq, Eq, Structural)]
pub enum Platform {
    Windows,
    MacOs,
    /// Linux and the other Unix systems.
    Unix,
}

/// An external program and its arguments.
#[derive(Debug)]
pub struct CommandLine {
    pub program: String,
    pub args: Vec<String>,
}

pub struct CommandModel {
    pub program: Seq<char>,
    pub args: Seq<Seq<char>>,
}

impl View for CommandLine {
    type V = CommandModel;

    open spec fn view(&self) -> CommandModel {
        CommandModel { program: self.program@, args: views_of(self.args@) }
    }
}

pub open spec fn command_of(program: Seq<char>, args: Seq<Seq<char>>) -> CommandModel {
    CommandModel { program, args }
}

pub open spec fn str_views(v: Seq<&str>) -> Seq<Seq<char>> {
    v.map_values(|a: &str| a@)
}

pub fn command_line(program: &str, args: &[&str]) -> (r: CommandLine)
    ensures
        r@ == command_of(program@, str_views(args@)),
{
    let mut out: Vec<String> = Vec::new();
    let mut i: usize = 0;
    while i < args.len()
        invariant
            i <= args@.len(),
            views_of(out@) == str_views(args@.subrange(0, i as int)),
        decreases args@.len() - i,
    {
        let ghost before = out@;
        out.push(args[i].to_string());
        assert(views_of(out@) =~= views_of(before).push(args@[i as int]@));
        assert(args@.subrange(0, i + 1) =~= args@.subrange(0, i as int).push(args@[i as int]));
        assert(str_views(args@.subrange(0, i + 1)) =~= str_views(args@.subrange(0, i as int)).push(
            args@[i as int]@,
        ));
        i = i + 1;
    }
    assert(args@.subrange(0, args@.len() as int) == args@);
    CommandLine { program: program.to_string(), args: out }
}

/// How an external command went.
#[derive(Clone, Copy, Debug, PartialEq, Eq, Structural)]
pub enum CommandStatus {
    /// The program could not be started.
    NotStarted,
    /// The program ran and exited, successfully or not.
    Exited(bool),
}

/// Which process a kill invocation ends.
#[derive(Debug)]
pub enum KillTarget {
    /// The process running this library, by its executable's file name.
    OwnExecutable,
    /// Every process of this name.
    Named(String),
}

/// `kill_self` defaults to true; when it is false, `process_name` is
/// required and not blank. `Ok(None)` stands for the own executable.
pub open spec fn kill_target_of(text: Seq<char>) -> Result<Option<Seq<char>>, ParamError> {
    if !json_accepts(text) {
        Err(ParamError::MalformedJson)
    } else if flag_member(text, "kill_self"@, true) {
        Ok(None)
    } else {
        match filled_member(text, "process_name"@) {
            None => Err(ParamError::MissingProcessName),
            Some(p) => Ok(Some(p)),
        }
    }
}

pub open spec fn target_view(t: KillTarget) -> Option<Seq<char>> {
    match t {
        KillTarget::OwnExecutable => None,
        KillTarget::Named(p) => Some(p@),
    }
}

pub fn decode_kill(param: &str) -> (r: Result<KillTarget, ParamError>)
    ensures
        r matches Ok(t) ==> kill_target_of(param@) == Ok::<Option<Seq<char>>, ParamError>(
            target_view(t),
        ),
        r matches Err(e) ==> kill_target_of(param@) == Err::<Option<Seq<char>>, ParamError>(e),
{
    let doc = match ParamDoc::parse(param) {
        Some(d) => d,
        None => return Err(ParamError::MalformedJson),
    };
    if flag_field(&doc, "kill_self", true) {
        Ok(KillTarget::OwnExecutable)
    } else {
        match filled_field(&doc, "process_name") {
            None => Err(ParamError::MissingProcessName),
            Some(p) => Ok(KillTarget::Named(p)),
        }
    }
}

/// The name to kill by, or the process's own exit where its executable's
/// name cannot be found.
#[derive(Debug)]
pub enum KillResolution {
    ByName(String),
    ExitSelf,
}

/// Resolves the target, given the file name of this process's executable
/// where it could be found.
pub fn resolve_kill_target(target: KillTarget, own_name: Option<String>) -> (r: KillResolution)
    ensures
        target is OwnExecutable && own_name is Some ==> (r matches KillResolution::ByName(n) && n@
            == own_name->0@),
        target is OwnExecutable && own_name is None ==> r is ExitSelf,
        target matches KillTarget::Named(p) ==> (r matches KillResolution::ByName(n) && n@ == p@),
{
    match target {
        KillTarget::OwnExecutable => match own_name {
            Some(n) => KillResolution::ByName(n),
            None => KillResolution::ExitSelf,
        },
        KillTarget::Named(p) => KillResolution::ByName(p),
    }
}

/// The first tool that a kill by name runs.
pub open spec fn kill_primary_of(name: Seq<char>, platform: Platform) -> CommandModel {
    match platform {
        Platform::Windows => command_of("taskkill"@, seq!["/F"@, "/IM"@, name]),
        _ => command_of("killall"@, seq![name]),
    }
}

/// The tool that a kill by name falls back to on Unix systems: a match on
/// the whole command line.
pub open spec fn kill_fallback_of(name: Seq<char>) -> CommandModel {
    command_of("pkill"@, seq!["-f"@, name])
}

/// What a kill by name does next.
#[derive(Debug)]
pub enum KillStep {
    Run(CommandLine),
    Finish(bool),
}

pub fn kill_primary(name: &str, platform: Platform) -> (r: CommandLine)
    ensures
        r@ == kill_primary_of(name@, platform),
{
    let r = match platform {
        Platform::Windows => command_line("taskkill", &["/F", "/IM", name]),
        _ => command_line("killall", &[name]),
    };
    assert(r@.args =~= kill_primary_of(name@, platform).args);
    r
}

/// The step after the first tool: done on Windows and when it succeeded or
/// could not start; elsewhere a failed run falls back to the pattern match.
pub fn kill_after_primary(name: &str, platform: Platform, status: CommandStatus) -> (r: KillStep)
    ensures
        platform == Platform::Windows ==> r == KillStep::Finish(
            status == CommandStatus::Exited(true),
        ),
        platform != Platform::Windows && status == CommandStatus::Exited(false) ==> (r matches KillStep::Run(c) && c@ == kill_fallback_of(name@)),
        platform != Platform::Windows && status != CommandStatus::Exited(false) ==> r
            == KillStep::Finish(status == CommandStatus::Exited(true)),
{
    match (platform, status) {
        (Platform::Windows, _) => KillStep::Finish(status == CommandStatus::Exited(true)),
        (_, CommandStatus::Exited(false)) => {
            let c = command_line("pkill", &["-f", name]);
            assert(c@.args =~= kill_fallback_of(name@).args);
            KillStep::Run(c)
        },
        (_, CommandStatus::Exited(true)) => KillStep::Finish(true),
        (_, CommandStatus::NotStarted) => KillStep::Finish(false),
    }
}

/// A kill that reached the fallback succeeds exactly when the fallback ran
/// and succeeded.
pub fn kill_after_fallback(status: CommandStatus) -> (r: bool)
    ensures
        r == (status == CommandStatus::Exited(true)),
{
    match status {
        CommandStatus::Exited(ok) => ok,
        CommandStatus::NotStarted => false,
    }
}

} // verus!
