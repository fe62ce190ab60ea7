//! Properties of the filter, stated over the specifications that
//! [`crate::filter::handle`] is verified against. `handle` may call its
//! injector only with the one-key batch of an `Inject` plan, so wherever a
//! property below gives `Plan::PassThrough`, nothing is injected.
use vstd::prelude::*;
use crate::event::{
    direction_of, Direction, KeyEvent, ModifierState, SyntheticKey, SOURCE_KEY, SYNTHETIC_TAG,
    TARGET_KEY,
};
use crate::filter::{plan_spec, resolve_spec, Decision, Plan};

verus! {

/// An event that carries the synthetic tag passes through untouched, whatever
/// its key and whatever modifiers are held: the library's own output is never
/// processed again, and nothing is injected for it.
pub proof fn tagged_event_passes_through(e: KeyEvent, mods: ModifierState, accepted: u32)
    requires
        e.extra_info == SYNTHETIC_TAG,
    ensures
        plan_spec(Some(e), mods) == Plan::PassThrough,
        resolve_spec(plan_spec(Some(e), mods), accepted) == Decision::PassThrough,
{
}

/// While Ctrl, Shift or Alt is held, every event passes through, the source
/// key included.
pub proof fn held_modifier_passes_through(e: KeyEvent, mods: ModifierState, accepted: u32)
    requires
        mods.any_held_spec(),
    ensures
        plan_spec(Some(e), mods) == Plan::PassThrough,
        resolve_spec(plan_spec(Some(e), mods), accepted) == Decision::PassThrough,
{
}

/// A press of the source key from the user, with no modifier held, calls for
/// exactly one tagged press of the target key, and is suppressed once the
/// injector accepts it.
pub proof fn source_press_becomes_target_press(e: KeyEvent, mods: ModifierState, accepted: u32)
    requires
        e.extra_info != SYNTHETIC_TAG,
        !mods.any_held_spec(),
        e.vk_code == SOURCE_KEY,
        direction_of(e.message) == Some(Direction::Down),
        accepted > 0,
    ensures
        plan_spec(Some(e), mods) == Plan::Inject(
            SyntheticKey {
                virtual_key: TARGET_KEY,
                direction: Direction::Down,
                extra_info: SYNTHETIC_TAG,
            },
        ),
        resolve_spec(plan_spec(Some(e), mods), accepted) == Decision::Suppress,
{
}

/// A release of the source key from the user, with no modifier held, calls
/// for exactly one tagged release of the target key, and is suppressed once
/// the injector accepts it.
pub proof fn source_release_becomes_target_release(
    e: KeyEvent,
    mods: ModifierState,
    accepted: u32,
)
    requires
        e.extra_info != SYNTHETIC_TAG,
        !mods.any_held_spec(),
        e.vk_code == SOURCE_KEY,
        direction_of(e.message) == Some(Direction::Up),
        accepted > 0,
    ensures
        plan_spec(Some(e), mods) == Plan::Inject(
            SyntheticKey {
                virtual_key: TARGET_KEY,
                direction: Direction::Up,
                extra_info: SYNTHETIC_TAG,
            },
        ),
        resolve_spec(plan_spec(Some(e), mods), accepted) == Decision::Suppress,
{
}

/// When the injector accepts nothing, the event passes through: no event is
/// suppressed without its substitute having been delivered.
pub proof fn failed_injection_passes_through(event: Option<KeyEvent>, mods: ModifierState)
    ensures
        resolve_spec(plan_spec(event, mods), 0) == Decision::PassThrough,
{
}

/// Every event whose key is not the source key passes through.
pub proof fn other_key_passes_through(e: KeyEvent, mods: ModifierState, accepted: u32)
    requires
        e.vk_code != SOURCE_KEY,
    ensures
        plan_spec(Some(e), mods) == Plan::PassThrough,
        resolve_spec(plan_spec(Some(e), mods), accepted) == Decision::PassThrough,
{
}

/// Every key the filter asks to inject is the target key and carries the
/// synthetic tag, so when it comes back through the host it passes through.
pub proof fn injected_keys_are_tagged(
    event: Option<KeyEvent>,
    mods: ModifierState,
    echo: KeyEvent,
    echo_mods: ModifierState,
)
    ensures
        plan_spec(event, mods) matches Plan::Inject(k) ==> {
            &&& k.virtual_key == TARGET_KEY
            &&& k.extra_info == SYNTHETIC_TAG
            &&& (echo.extra_info == k.extra_info ==> plan_spec(Some(echo), echo_mods)
                == Plan::PassThrough)
        },
{
}

/// An event is suppressed only when the filter planned an injection and the
/// injector accepted at least one event.
pub proof fn suppress_only_after_delivery(
    event: Option<KeyEvent>,
    mods: ModifierState,
    accepted: u32,
)
    ensures
        resolve_spec(plan_spec(event, mods), accepted) == Decision::Suppress ==> {
            &&& plan_spec(event, mods) is Inject
            &&& accepted > 0
        },
{
}

} // verus!
