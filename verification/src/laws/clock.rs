//! Pausing and resuming, condition by condition and field by field.

use vstd::prelude::*;

use crate::address::Address;
use crate::effect::{Effect, Event};
use crate::env::EnvView;
use crate::failure::{Abort, Failure};
use crate::passes::{pause_refusal, paused, resume_refusal, resumed};
use crate::storage::StorageView;
use crate::types::{DataKey, PassView};

verus! {

/// The owner of a pass that is on record, active, not paused and not expired can
/// always pause it, however often and however long it was paused before. Each
/// reason for a refusal comes exactly if its condition is the first that fails.
pub proof fn law_owner_can_pause_a_running_pass(env: EnvView, fan: Address, pass_id: u64)
    ensures
        ({
            let refusal = pause_refusal(env, fan, pass_id);
            let pass = env.state.passes[pass_id];
            let found = env.state.passes.contains_key(pass_id);
            let owned = found && pass.owner == fan;
            &&& refusal is None <==> owned && pass.active && !pass.paused && env.now
                < pass.expires_at
            &&& refusal == Some(Failure::Abort(Abort::PassNotFound)) <==> !found
            &&& refusal == Some(Failure::Abort(Abort::NotPassOwner)) <==> found && !owned
            &&& refusal == Some(Failure::Abort(Abort::PassNotActive)) <==> owned && !pass.active
            &&& refusal == Some(Failure::Abort(Abort::PassAlreadyPaused)) <==> owned && pass.active
                && pass.paused
            &&& refusal == Some(Failure::Abort(Abort::PassExpired)) <==> owned && pass.active
                && !pass.paused && env.now >= pass.expires_at
        }),
{
}

/// Pausing marks the pass as paused since now and changes nothing else. The owner
/// signs, and the pause is published.
pub proof fn law_pausing_marks_the_pass(env: EnvView, fan: Address, pass_id: u64)
    ensures
        ({
            let after = paused(env, fan, pass_id);
            let pass = after.state.passes[pass_id];
            &&& after.now == env.now && after.contract == env.contract
            &&& after.state == (StorageView {
                passes: after.state.passes,
                writes: after.state.writes,
                ..env.state
            })
            &&& after.state.passes == env.state.passes.insert(pass_id, pass)
            &&& pass.paused
            &&& pass.paused_at == env.now
            &&& pass == (PassView { paused: true, paused_at: env.now, ..env.state.passes[pass_id] })
            &&& after.state.writes == env.state.writes.push(DataKey::Pass(pass_id))
            &&& after.effects == env.effects.push(Effect::RequireAuth(fan)).push(
                Effect::Publish(Event::PassPaused { pass_id, fan, timestamp: env.now }),
            )
        }),
{
}

/// The owner of a pass that is on record, paused and active can always resume it,
/// expired or not, unless the clock stands before the pause.
pub proof fn law_owner_can_resume_a_paused_pass(env: EnvView, fan: Address, pass_id: u64)
    ensures
        ({
            let refusal = resume_refusal(env, fan, pass_id);
            let pass = env.state.passes[pass_id];
            let found = env.state.passes.contains_key(pass_id);
            let owned = found && pass.owner == fan;
            &&& refusal is None <==> owned && pass.paused && pass.active && env.now
                >= pass.paused_at
            &&& refusal == Some(Failure::Abort(Abort::PassNotFound)) <==> !found
            &&& refusal == Some(Failure::Abort(Abort::NotPassOwner)) <==> found && !owned
            &&& refusal == Some(Failure::Abort(Abort::PassNotPaused)) <==> owned && !pass.paused
            &&& refusal == Some(Failure::Abort(Abort::PassNotActive)) <==> owned && pass.paused
                && !pass.active
            &&& refusal == Some(Failure::Abort(Abort::ArithmeticOverflow)) <==> owned && pass.paused
                && pass.active && env.now < pass.paused_at
        }),
{
}

/// Resuming puts off the expiry by the seconds since the pause and adds them to the
/// total, both up to the last time there is, and ends the pause; it changes nothing
/// else. The owner signs, and the seconds are published.
pub proof fn law_resuming_gives_back_the_time(env: EnvView, fan: Address, pass_id: u64)
    requires
        env.now >= env.state.passes[pass_id].paused_at,
    ensures
        ({
            let before = env.state.passes[pass_id];
            let after = resumed(env, fan, pass_id);
            let pass = after.state.passes[pass_id];
            let waited = env.now - before.paused_at;
            &&& after.now == env.now && after.contract == env.contract
            &&& after.state == (StorageView {
                passes: after.state.passes,
                writes: after.state.writes,
                ..env.state
            })
            &&& after.state.passes == env.state.passes.insert(pass_id, pass)
            &&& !pass.paused
            &&& pass.paused_at == 0
            &&& before.expires_at + waited <= 0xffff_ffff_ffff_ffff ==> pass.expires_at
                == before.expires_at + waited
            &&& before.expires_at + waited > 0xffff_ffff_ffff_ffff ==> pass.expires_at
                == 0xffff_ffff_ffff_ffff
            &&& before.total_paused_seconds + waited <= 0xffff_ffff_ffff_ffff
                ==> pass.total_paused_seconds == before.total_paused_seconds + waited
            &&& before.total_paused_seconds + waited > 0xffff_ffff_ffff_ffff
                ==> pass.total_paused_seconds == 0xffff_ffff_ffff_ffff
            &&& pass == (PassView {
                paused: pass.paused,
                paused_at: pass.paused_at,
                expires_at: pass.expires_at,
                total_paused_seconds: pass.total_paused_seconds,
                ..before
            })
            &&& after.state.writes == env.state.writes.push(DataKey::Pass(pass_id))
            &&& after.effects.len() == env.effects.len() + 2
            &&& after.effects.take(env.effects.len() as int) == env.effects
            &&& after.effects[env.effects.len() as int] == Effect::RequireAuth(fan)
            &&& after.effects.last() matches Effect::Publish(
                Event::PassResumed { pass_id: id, fan: owner, timestamp, paused_duration },
            ) && id == pass_id && owner == fan && timestamp == env.now && paused_duration == waited
        }),
{
    assert(resumed(env, fan, pass_id).effects.take(env.effects.len() as int) == env.effects);
}

/// A pass can be paused as often as its owner likes: once it is resumed before it
/// expires, it can be paused again at once, and its time still does not run.
pub proof fn law_pass_can_be_paused_again(
    env: EnvView,
    fan: Address,
    pass_id: u64,
    resumed_at: u64,
    paused_again_at: u64,
)
    requires
        pause_refusal(env, fan, pass_id) is None,
        env.now <= resumed_at <= paused_again_at,
        env.state.passes[pass_id].expires_at + (resumed_at - env.now) <= u64::MAX,
    ensures
        ({
            let left = env.state.passes[pass_id].expires_at - env.now;
            let waiting = EnvView { now: resumed_at, ..paused(env, fan, pass_id) };
            let running = EnvView { now: paused_again_at, ..resumed(waiting, fan, pass_id) };
            &&& resume_refusal(waiting, fan, pass_id) is None
            &&& pause_refusal(running, fan, pass_id) is None <==> paused_again_at - resumed_at
                < left
            &&& running.state.passes[pass_id].expires_at == resumed_at + left
        }),
{
}

} // verus!
