//! One invocation of a custom action: its parameters decoded into the
//! typed operation that the action performs.
use vstd::prelude::*;
use crate::clock::{decode_wait_until, wait_target_of, ClockTime};
use crate::launch::{decode_launch, launch_of, LaunchModel, LaunchSpec};
use crate::messages::{decode_notify, decode_webhook, notice_of, webhook_url_of, Notice};
use crate::params::{json_accepts, ParamError};
use crate::power::{decode_power, power_of, PowerOperation};
use crate::process::{decode_kill, kill_target_of, target_view, KillTarget};
use crate::registry::ActionName;
use crate::wait::{decode_sleep, sleep_seconds_of};

verus! {

/// A decoded invocation, one variant for each action.
#[derive(Debug)]
pub enum Invocation {
    Sleep(u64),
    WaitUntil(ClockTime),
    Launch(LaunchSpec),
    Webhook(String),
    Notify(Notice),
    KillProcess(KillTarget),
    Power(PowerOperation),
}

/// `r` is what the decoder of `action` gives for `text`.
pub open spec fn decoded_as(action: ActionName, text: Seq<char>, r: Result<Invocation, ParamError>) -> bool {
    match action {
        ActionName::Sleep => match r {
            Ok(Invocation::Sleep(n)) => sleep_seconds_of(text) == Ok::<u64, ParamError>(n),
            Ok(_) => false,
            Err(e) => sleep_seconds_of(text) == Err::<u64, ParamError>(e),
        },
        ActionName::WaitUntil => match r {
            Ok(Invocation::WaitUntil(t)) => wait_target_of(text) == Ok::<(nat, nat), ParamError>(
                (t.hour as nat, t.minute as nat),
            ),
            Ok(_) => false,
            Err(e) => wait_target_of(text) == Err::<(nat, nat), ParamError>(e),
        },
        ActionName::Launch => match r {
            Ok(Invocation::Launch(s)) => launch_of(text) == Ok::<LaunchModel, ParamError>(s@),
            Ok(_) => false,
            Err(e) => launch_of(text) == Err::<LaunchModel, ParamError>(e),
        },
        ActionName::Webhook => match r {
            Ok(Invocation::Webhook(u)) => webhook_url_of(text) == Ok::<Seq<char>, ParamError>(u@),
            Ok(_) => false,
            Err(e) => webhook_url_of(text) == Err::<Seq<char>, ParamError>(e),
        },
        ActionName::Notify => match r {
            Ok(Invocation::Notify(n)) => notice_of(text) == Ok::<(Seq<char>, Seq<char>), ParamError>((n.title@, n.body@)),
            Ok(_) => false,
            Err(e) => notice_of(text) == Err::<(Seq<char>, Seq<char>), ParamError>(e),
        },
        ActionName::KillProcess => match r {
            Ok(Invocation::KillProcess(t)) => kill_target_of(text) == Ok::<Option<Seq<char>>, ParamError>(
                target_view(t),
            ),
            Ok(_) => false,
            Err(e) => kill_target_of(text) == Err::<Option<Seq<char>>, ParamError>(e),
        },
        ActionName::Power => match r {
            Ok(Invocation::Power(op)) => power_of(text) == Ok::<PowerOperation, ParamError>(op),
            Ok(_) => false,
            Err(e) => power_of(text) == Err::<PowerOperation, ParamError>(e),
        },
    }
}

pub fn decode_invocation(action: ActionName, param: &str) -> (r: Result<Invocation, ParamError>)
    ensures
        decoded_as(action, param@, r),
{
    match action {
        ActionName::Sleep => match decode_sleep(param) {
            Ok(n) => Ok(Invocation::Sleep(n)),
            Err(e) => Err(e),
        },
        ActionName::WaitUntil => match decode_wait_until(param) {
            Ok(t) => Ok(Invocation::WaitUntil(t)),
            Err(e) => Err(e),
        },
        ActionName::Launch => match decode_launch(param) {
            Ok(s) => Ok(Invocation::Launch(s)),
            Err(e) => Err(e),
        },
        ActionName::Webhook => match decode_webhook(param) {
            Ok(u) => Ok(Invocation::Webhook(u)),
            Err(e) => Err(e),
        },
        ActionName::Notify => match decode_notify(param) {
            Ok(n) => Ok(Invocation::Notify(n)),
            Err(e) => Err(e),
        },
        ActionName::KillProcess => match decode_kill(param) {
            Ok(t) => Ok(Invocation::KillProcess(t)),
            Err(e) => Err(e),
        },
        ActionName::Power => match decode_power(param) {
            Ok(op) => Ok(Invocation::Power(op)),
            Err(e) => Err(e),
        },
    }
}

/// A text that is not JSON is refused as malformed by every action, before
/// anything is done.
pub proof fn lemma_malformed_text_refused(action: ActionName, text: Seq<char>, r: Result<
    Invocation,
    ParamError,
>)
    requires
        !json_accepts(text),
        decoded_as(action, text, r),
    ensures
        r == Err::<Invocation, ParamError>(ParamError::MalformedJson),
{
}

} // verus!
