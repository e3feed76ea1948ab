//! The closed set of custom actions and the names the engine calls them by.
use vstd::prelude::*;
use crate::text::same_text;

verus! {

#[derive(Clone, Copy, Debug, PartialEq, Eq, Structural)]
pub enum ActionName {
    Sleep,
    WaitUntil,
    Launch,
    Webhook,
    Notify,
    KillProcess,
    Power,
}

/// The identifier under which each action is registered with the engine.
pub open spec fn registered_name(a: ActionName) -> Seq<char> {
    match a {
        ActionName::Sleep => "MXU_SLEEP_ACTION"@,
        ActionName::WaitUntil => "MXU_WAITUNTIL_ACTION"@,
        ActionName::Launch => "MXU_LAUNCH_ACTION"@,
        ActionName::Webhook => "MXU_WEBHOOK_ACTION"@,
        ActionName::Notify => "MXU_NOTIFY_ACTION"@,
        ActionName::KillProcess => "MXU_KILLPROC_ACTION"@,
        ActionName::Power => "MXU_POWER_ACTION"@,
    }
}

/// Every action, in the order of registration.
pub open spec fn action_table() -> Seq<ActionName> {
    seq![
        ActionName::Sleep,
        ActionName::WaitUntil,
        ActionName::Launch,
        ActionName::Webhook,
        ActionName::Notify,
        ActionName::KillProcess,
        ActionName::Power,
    ]
}

impl ActionName {
    pub fn registration_name(self) -> (r: &'static str)
        ensures
            r@ == registered_name(self),
    {
        match self {
            ActionName::Sleep => "MXU_SLEEP_ACTION",
            ActionName::WaitUntil => "MXU_WAITUNTIL_ACTION",
            ActionName::Launch => "MXU_LAUNCH_ACTION",
            ActionName::Webhook => "MXU_WEBHOOK_ACTION",
            ActionName::Notify => "MXU_NOTIFY_ACTION",
            ActionName::KillProcess => "MXU_KILLPROC_ACTION",
            ActionName::Power => "MXU_POWER_ACTION",
        }
    }

    /// The action registered under `name`, if any.
    pub fn from_registration_name(name: &str) -> (r: Option<ActionName>)
        ensures
            r matches Some(a) ==> registered_name(a) == name@,
            r is None ==> forall|a: ActionName| registered_name(a) != name@,
    {
        let all = all_actions();
        let mut i: usize = 0;
        while i < all.len()
            invariant
                all@ == action_table(),
                i <= all@.len(),
                forall|j: int| 0 <= j < i ==> registered_name(#[trigger] all@[j]) != name@,
            decreases all@.len() - i,
        {
            if same_text(all[i].registration_name(), name) {
                return Some(all[i]);
            }
            i = i + 1;
        }
        proof {
            assert forall|a: ActionName| registered_name(a) != name@ by {
                lemma_table_complete(a);
            }
        }
        None
    }
}

proof fn lemma_table_complete(a: ActionName)
    ensures
        exists|j: int| 0 <= j < action_table().len() && #[trigger] action_table()[j] == a,
{
    let t = action_table();
    match a {
        ActionName::Sleep => assert(t[0] == a),
        ActionName::WaitUntil => assert(t[1] == a),
        ActionName::Launch => assert(t[2] == a),
        ActionName::Webhook => assert(t[3] == a),
        ActionName::Notify => assert(t[4] == a),
        ActionName::KillProcess => assert(t[5] == a),
        ActionName::Power => assert(t[6] == a),
    }
}

pub fn all_actions() -> (r: Vec<ActionName>)
    ensures
        r@ == action_table(),
{
    let r = vec![
        ActionName::Sleep,
        ActionName::WaitUntil,
        ActionName::Launch,
        ActionName::Webhook,
        ActionName::Notify,
        ActionName::KillProcess,
        ActionName::Power,
    ];
    assert(r@ =~= action_table());
    r
}

/// No two actions share a registration name, so each name calls exactly
/// one action.
pub proof fn lemma_registration_names_distinct(a: ActionName, b: ActionName)
    ensures
        registered_name(a) == registered_name(b) <==> a == b,
{
    reveal_strlit("MXU_SLEEP_ACTION");
    reveal_strlit("MXU_WAITUNTIL_ACTION");
    reveal_strlit("MXU_LAUNCH_ACTION");
    reveal_strlit("MXU_WEBHOOK_ACTION");
    reveal_strlit("MXU_NOTIFY_ACTION");
    reveal_strlit("MXU_KILLPROC_ACTION");
    reveal_strlit("MXU_POWER_ACTION");
    if registered_name(a) == registered_name(b) && a != b {
        let (x, y) = (registered_name(a), registered_name(b));
        assert(x.len() != y.len() || exists|i: int| 0 <= i < x.len() && x[i] != y[i]) by {
            assert(x[4] != y[4] || x.len() != y.len() || x[5] != y[5]);
        }
    }
}

/// The number of failed registrations in a registration pass.
pub open spec fn failures_in(outcomes: Seq<bool>) -> nat
    decreases outcomes.len(),
{
    if outcomes.len() == 0 {
        0
    } else {
        failures_in(outcomes.drop_last()) + if outcomes.last() {
            0nat
        } else {
            1nat
        }
    }
}

pub fn count_failures(outcomes: &[bool]) -> (r: usize)
    ensures
        r == failures_in(outcomes@),
{
    let mut n: usize = 0;
    let mut i: usize = 0;
    while i < outcomes.len()
        invariant
            i <= outcomes@.len(),
            n == failures_in(outcomes@.subrange(0, i as int)),
            n <= i,
        decreases outcomes@.len() - i,
    {
        assert(outcomes@.subrange(0, i + 1).drop_last() =~= outcomes@.subrange(0, i as int));
        if !outcomes[i] {
            n = n + 1;
        }
        i = i + 1;
    }
    assert(outcomes@.subrange(0, outcomes@.len() as int) =~= outcomes@);
    n
}

} // verus!
