//! The interception filter: what to do with one key event.
use vstd::prelude::*;
use crate::event::{
    classify, direction_of, Direction, KeyEvent, ModifierState, SyntheticKey, SOURCE_KEY,
    SYNTHETIC_TAG, TARGET_KEY,
};

verus! {

/// What the host should do with the event it delivered.
#[derive(Clone, Copy, Debug, PartialEq, Eq, Structural)]
pub enum Decision {
    /// Let the event continue to the rest of the system unchanged.
    PassThrough,
    /// Drop the event: its substitute was already delivered.
    Suppress,
}

/// What the filter intends before any key is injected.
#[derive(Clone, Copy, Debug, PartialEq, Eq, Structural)]
pub enum Plan {
    /// Leave the event alone.
    PassThrough,
    /// Inject this key and, if that succeeds, suppress the event.
    Inject(SyntheticKey),
}

/// The substitute for a press or release of the source key.
pub open spec fn substitute(direction: Direction) -> SyntheticKey {
    SyntheticKey { virtual_key: TARGET_KEY, direction, extra_info: SYNTHETIC_TAG }
}

/// The filter's plan for an event (`None` for an absent or malformed payload),
/// checked in order: validity, own output, modifiers, key, transition.
pub open spec fn plan_spec(event: Option<KeyEvent>, mods: ModifierState) -> Plan {
    match event {
        None => Plan::PassThrough,
        Some(e) => {
            if e.extra_info == SYNTHETIC_TAG {
                Plan::PassThrough
            } else if mods.any_held_spec() {
                Plan::PassThrough
            } else if e.vk_code != SOURCE_KEY {
                Plan::PassThrough
            } else {
                match direction_of(e.message) {
                    Some(d) => Plan::Inject(substitute(d)),
                    None => Plan::PassThrough,
                }
            }
        },
    }
}

/// The decision once the injector has reported how many events it accepted.
pub open spec fn resolve_spec(plan: Plan, accepted: u32) -> Decision {
    match plan {
        Plan::PassThrough => Decision::PassThrough,
        Plan::Inject(_) => if accepted == 0 {
            Decision::PassThrough
        } else {
            Decision::Suppress
        },
    }
}

/// Decides what an event calls for, before anything is injected.
pub fn plan(event: Option<KeyEvent>, mods: ModifierState) -> (r: Plan)
    ensures
        r == plan_spec(event, mods),
{
    match event {
        None => Plan::PassThrough,
        Some(e) => {
            if e.extra_info == SYNTHETIC_TAG {
                return Plan::PassThrough;
            }
            if mods.any_held() {
                return Plan::PassThrough;
            }
            if e.vk_code != SOURCE_KEY {
                return Plan::PassThrough;
            }
            match classify(e.message) {
                Some(d) => Plan::Inject(
                    SyntheticKey { virtual_key: TARGET_KEY, direction: d, extra_info: SYNTHETIC_TAG },
                ),
                None => Plan::PassThrough,
            }
        },
    }
}

/// Settles a plan given the number of events the injector accepted: an
/// injection that delivered nothing never suppresses the original event.
pub fn resolve(plan: Plan, accepted: u32) -> (r: Decision)
    ensures
        r == resolve_spec(plan, accepted),
{
    match plan {
        Plan::PassThrough => Decision::PassThrough,
        Plan::Inject(_) => if accepted == 0 {
            Decision::PassThrough
        } else {
            Decision::Suppress
        },
    }
}

/// Handles one key event. `event` is `None` when the payload is absent or
/// malformed; `mods` is the modifier state sampled for this event; `inject`
/// submits a batch of key events to the system and returns how many it
/// accepted. `inject` is called at most once, with exactly one tagged key,
/// and only when the plan asks for it: the precondition allows `inject` no
/// other call, so a verified body cannot make one.
pub fn handle<F: FnOnce(Vec<SyntheticKey>) -> u32>(
    event: Option<KeyEvent>,
    mods: ModifierState,
    inject: F,
) -> (r: Decision)
    requires
        plan_spec(event, mods) matches Plan::Inject(k) ==> forall|batch: Vec<SyntheticKey>|
            batch@ == seq![k] ==> call_requires(inject, (batch,)),
    ensures
        plan_spec(event, mods) == Plan::PassThrough ==> r == Decision::PassThrough,
        forall|k: SyntheticKey|
            plan_spec(event, mods) == Plan::Inject(k) ==> exists|batch: Vec<SyntheticKey>, n: u32|
                {
                    &&& batch@ == seq![k]
                    &&& call_ensures(inject, (batch,), n)
                    &&& r == resolve_spec(plan_spec(event, mods), n)
                },
{
    let p = plan(event, mods);
    match p {
        Plan::PassThrough => Decision::PassThrough,
        Plan::Inject(k) => {
            let mut batch: Vec<SyntheticKey> = Vec::new();
            batch.push(k);
            let ghost sent = batch;
            let n = inject(batch);
            proof {
                assert(sent@ =~= seq![k]);
            }
            resolve(p, n)
        },
    }
}

} // verus!
