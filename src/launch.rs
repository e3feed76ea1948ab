//! Launching an external program: the parameters, the argument list and
//! whether a spawn is needed at all.
use vstd::prelude::*;
use crate::params::{
    filled_field, filled_member, flag_field, flag_member, json_accepts, text_field, text_member,
    ParamDoc, ParamError,
};
use crate::text::{blank, is_blank, space_words, split_on_space, views_of};

verus! {

/// The words that shell_words::split reads from `s`, or `None` where a
/// quote is left open.
pub uninterp spec fn shell_words_of(s: Seq<char>) -> Option<Seq<Seq<char>>>;

/// Relies on shell_words::split, which reads words as a POSIX shell does
/// (quotes group, backslashes escape) and fails only on an unclosed quote;
/// the result depends on the text alone.
#[verifier::external_body]
fn shell_split(s: &str) -> (r: Option<Vec<String>>)
    ensures
        r is None <==> shell_words_of(s@) is None,
        r matches Some(v) ==> shell_words_of(s@) == Some(views_of(v@)),
{
    shell_words::split(s).ok()
}

/// The argument list for an `args` text: nothing for a blank text, else
/// the shell words, else, where quoting fails, the white-space words.
pub open spec fn launch_args_of(s: Seq<char>) -> Seq<Seq<char>> {
    if is_blank(s) {
        seq![]
    } else {
        match shell_words_of(s) {
            Some(w) => w,
            None => space_words(s),
        }
    }
}

pub fn launch_arguments(args: &str) -> (r: Vec<String>)
    ensures
        views_of(r@) == launch_args_of(args@),
{
    if blank(args) {
        let r: Vec<String> = Vec::new();
        assert(views_of(r@) =~= seq![]);
        return r;
    }
    match shell_split(args) {
        Some(words) => words,
        None => split_on_space(args),
    }
}

/// Whether an `args` text is split at white space because its quoting
/// cannot be read.
pub fn args_need_fallback(args: &str) -> (r: bool)
    ensures
        r == (!is_blank(args@) && shell_words_of(args@) is None),
{
    !blank(args) && shell_split(args).is_none()
}

/// An empty or blank `args` text gives no arguments at all.
pub proof fn lemma_blank_args_give_none(s: Seq<char>)
    requires
        is_blank(s),
    ensures
        launch_args_of(s).len() == 0,
{
}

/// The decoded parameters of a launch invocation.
#[derive(Debug)]
pub struct LaunchSpec {
    pub program: String,
    pub args: String,
    pub wait_for_exit: bool,
    pub skip_if_running: bool,
}

pub struct LaunchModel {
    pub program: Seq<char>,
    pub args: Seq<char>,
    pub wait_for_exit: bool,
    pub skip_if_running: bool,
}

impl View for LaunchSpec {
    type V = LaunchModel;

    open spec fn view(&self) -> LaunchModel {
        LaunchModel {
            program: self.program@,
            args: self.args@,
            wait_for_exit: self.wait_for_exit,
            skip_if_running: self.skip_if_running,
        }
    }
}

/// `program` is required and not blank; `args` defaults to empty; the two
/// flags default to false.
pub open spec fn launch_of(text: Seq<char>) -> Result<LaunchModel, ParamError> {
    if !json_accepts(text) {
        Err(ParamError::MalformedJson)
    } else {
        match filled_member(text, "program"@) {
            None => Err(ParamError::MissingProgram),
            Some(p) => Ok(
                LaunchModel {
                    program: p,
                    args: match text_member(text, "args"@) {
                        Some(a) => a,
                        None => seq![],
                    },
                    wait_for_exit: flag_member(text, "wait_for_exit"@, false),
                    skip_if_running: flag_member(text, "skip_if_running"@, false),
                },
            ),
        }
    }
}

pub fn decode_launch(param: &str) -> (r: Result<LaunchSpec, ParamError>)
    ensures
        r matches Ok(s) ==> launch_of(param@) == Ok::<LaunchModel, ParamError>(s@),
        r matches Err(e) ==> launch_of(param@) == Err::<LaunchModel, ParamError>(e),
{
    let doc = match ParamDoc::parse(param) {
        Some(d) => d,
        None => return Err(ParamError::MalformedJson),
    };
    let program = match filled_field(&doc, "program") {
        Some(p) => p,
        None => return Err(ParamError::MissingProgram),
    };
    let args = match text_field(&doc, "args") {
        Some(a) => a,
        None => String::new(),
    };
    let wait_for_exit = flag_field(&doc, "wait_for_exit", false);
    let skip_if_running = flag_field(&doc, "skip_if_running", false);
    Ok(LaunchSpec { program, args, wait_for_exit, skip_if_running })
}

/// What a launch does once it knows whether the program already runs.
#[derive(Debug)]
pub enum LaunchDecision {
    /// The program runs already and the invocation asked to skip it: success
    /// without a spawn.
    AlreadyRunning,
    /// Spawn `program` with `args`, and wait for it to exit when asked.
    Spawn { program: String, args: Vec<String>, wait_for_exit: bool },
}

pub fn launch_decision(spec: &LaunchSpec, already_running: bool) -> (r: LaunchDecision)
    ensures
        r is AlreadyRunning <==> spec.skip_if_running && already_running,
        r matches LaunchDecision::Spawn { program, args, wait_for_exit } ==> program@
            == spec.program@ && views_of(args@) == launch_args_of(spec.args@) && wait_for_exit
            == spec.wait_for_exit,
{
    if spec.skip_if_running && already_running {
        LaunchDecision::AlreadyRunning
    } else {
        LaunchDecision::Spawn {
            program: spec.program.clone(),
            args: launch_arguments(spec.args.as_str()),
            wait_for_exit: spec.wait_for_exit,
        }
    }
}

} // verus!
