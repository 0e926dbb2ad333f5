//! The policy engine: once per wake it decides exactly one LED action and
//! one next wake deadline.

use vstd::prelude::*;
use crate::config::Config;
use crate::errors::KbError;
use crate::led::Led;
use crate::led::RawRead;
use crate::state::State;

verus! {

/// One step of the policy's output: set the LED to a brightness, or sleep
/// for a duration (`None`: block until the next monitored event).
#[derive(Debug, Clone, Copy, PartialEq, Eq)]
pub enum PolicyAction {
    SetLed(u32),
    Sleep(Option<u64>),
}

/// Is a keep-override in force at `now`?
pub open spec fn keep_active(state: State, now: u64) -> bool {
    state.keep_until matches Some(t) && now <= t
}

/// The ordered action list the policy yields at `now`:
/// 1. an active keep-override holds the requested brightness until its
///    deadline;
/// 2. otherwise, idle for at least the timeout turns the LED off and blocks
///    indefinitely;
/// 3. otherwise the requested brightness stays on and the next wake is when
///    the timeout would expire.
pub open spec fn policy_actions(state: State, config: Config, now: u64) -> Seq<PolicyAction> {
    if keep_active(state, now) {
        seq![
            PolicyAction::SetLed(state.requested_brightness),
            PolicyAction::Sleep(Some((state.keep_until->Some_0 - now) as u64)),
        ]
    } else if now - state.last_input >= config.timeout {
        seq![PolicyAction::SetLed(0), PolicyAction::Sleep(None)]
    } else {
        seq![
            PolicyAction::SetLed(state.requested_brightness),
            PolicyAction::Sleep(Some((config.timeout - (now - state.last_input)) as u64)),
        ]
    }
}

/// The state after a policy pass: an expired keep-override is cleared,
/// nothing else moves.
pub open spec fn policy_state_after(state: State, now: u64) -> State {
    if state.keep_until is Some && !keep_active(state, now) {
        State { keep_until: None, ..state }
    } else {
        state
    }
}

/// Compute the policy's action list at `now` and clear an expired
/// keep-override.
pub fn policy(state: &mut State, settings: &Config, now: u64) -> (r: Vec<PolicyAction>)
    requires
        old(state).last_input <= now,
    ensures
        r@ == policy_actions(*old(state), *settings, now),
        *final(state) == policy_state_after(*old(state), now),
{
    let mut actions: Vec<PolicyAction> = Vec::new();

    match state.keep_until {
        Some(t) => {
            if now > t {
                state.keep_until = None;
            } else {
                actions.push(PolicyAction::SetLed(state.requested_brightness));
                actions.push(PolicyAction::Sleep(Some(t - now)));
                proof {
                    assert(actions@ =~= policy_actions(*old(state), *settings, now));
                }
                return actions;
            }
        },
        None => {},
    }

    if now - state.last_input >= settings.timeout {
        // Turn off the LED and sleep until the next monitored event.
        actions.push(PolicyAction::SetLed(0));
        actions.push(PolicyAction::Sleep(None));
    } else {
        actions.push(PolicyAction::SetLed(state.requested_brightness));
        actions.push(PolicyAction::Sleep(Some(settings.timeout - (now - state.last_input))));
    }
    proof {
        assert(actions@ =~= policy_actions(*old(state), *settings, now));
    }
    actions
}

/// Law: the policy always yields exactly one LED action followed by exactly
/// one sleep action.
pub proof fn lemma_policy_shape(state: State, config: Config, now: u64)
    ensures
        policy_actions(state, config, now).len() == 2,
        policy_actions(state, config, now)[0] is SetLed,
        policy_actions(state, config, now)[1] is Sleep,
{
}

/// Law: after idling for at least the timeout with no active override, the
/// policy turns the LED off and blocks indefinitely.
pub proof fn lemma_policy_idle_turns_off(state: State, config: Config, now: u64)
    requires
        !keep_active(state, now),
        state.last_input <= now,
        now - state.last_input >= config.timeout,
    ensures
        policy_actions(state, config, now) =~= seq![
            PolicyAction::SetLed(0),
            PolicyAction::Sleep(None),
        ],
{
}

/// Law: while input is younger than the timeout and no override is active,
/// the requested brightness stays on and the next wake is when the timeout
/// would expire.
pub proof fn lemma_policy_active_stays_on(state: State, config: Config, now: u64)
    requires
        !keep_active(state, now),
        state.last_input <= now,
        now - state.last_input < config.timeout,
    ensures
        policy_actions(state, config, now) =~= seq![
            PolicyAction::SetLed(state.requested_brightness),
            PolicyAction::Sleep(Some((config.timeout - (now - state.last_input)) as u64)),
        ],
{
}

/// Law: while a keep-override deadline lies ahead, the policy holds the
/// requested brightness and sleeps exactly until that deadline, regardless
/// of how long input has been idle.
pub proof fn lemma_policy_keep_override(state: State, config: Config, now: u64, deadline: u64)
    requires
        state.keep_until == Some(deadline),
        now < deadline,
    ensures
        policy_actions(state, config, now) =~= seq![
            PolicyAction::SetLed(state.requested_brightness),
            PolicyAction::Sleep(Some((deadline - now) as u64)),
        ],
{
}

/// What one policy pass asks the caller to do next.
#[derive(Debug, Clone, PartialEq, Eq)]
pub struct PolicyOutcome {
    /// Brightness to write to the LED.
    pub set_value: u32,
    /// Whether the write must be preceded by a read of the current value
    /// (see [`Led::set_brightness`]).
    pub needs_pre_read: bool,
    /// How long to wait before the next pass (`None`: until the next event).
    pub sleep: Option<u64>,
    /// A failure of the refreshing read, if any; transient, the pass still
    /// decides its actions.
    pub refresh_error: Option<KbError>,
}

/// One policy pass: refresh the observed brightness through the LED cache,
/// evaluate the policy, and return the LED write and the next wake deadline
/// for the caller to execute.
pub fn run_policy(
    state: &mut State,
    led: &mut Led,
    config: &Config,
    now: u64,
    fresh: Option<RawRead>,
) -> (r: PolicyOutcome)
    requires
        old(state).last_input <= now,
        old(led).stamps_le(now),
        (fresh is Some) == !old(led).can_use_cache(now),
    ensures
        ({
            let res = old(led).query_result(now, fresh);
            let refreshed = State {
                current_brightness: if res is Ok {
                    res->Ok_0
                } else {
                    old(state).current_brightness
                },
                ..*old(state)
            };
            &&& *final(led) == old(led).after_query(now, fresh)
            &&& *final(state) == policy_state_after(refreshed, now)
            &&& policy_actions(refreshed, *config, now) == seq![
                PolicyAction::SetLed(r.set_value),
                PolicyAction::Sleep(r.sleep),
            ]
            &&& r.needs_pre_read == old(led).needs_pre_read_spec(r.set_value, config.adaptive)
            &&& r.refresh_error == (if res is Err {
                Some(res->Err_0)
            } else {
                None::<KbError>
            })
        }),
{
    let mut refresh_error: Option<KbError> = None;
    match led.brightness_maybe_cached(now, fresh) {
        Ok(v) => {
            state.current_brightness = v;
        },
        Err(e) => {
            refresh_error = Some(e);
        },
    }

    let actions = policy(state, config, now);
    proof {
        let res = old(led).query_result(now, fresh);
        let refreshed = State {
            current_brightness: if res is Ok {
                res->Ok_0
            } else {
                old(state).current_brightness
            },
            ..*old(state)
        };
        lemma_policy_shape(refreshed, *config, now);
    }

    let set_value: u32 = match actions[0] {
        PolicyAction::SetLed(v) => v,
        PolicyAction::Sleep(_) => {
            proof {
                assert(false);
            }
            0
        },
    };
    let sleep: Option<u64> = match actions[1] {
        PolicyAction::Sleep(d) => d,
        PolicyAction::SetLed(_) => {
            proof {
                assert(false);
            }
            None
        },
    };
    let needs_pre_read = led.needs_pre_read(set_value, config.adaptive);
    proof {
        let res = old(led).query_result(now, fresh);
        let refreshed = State {
            current_brightness: if res is Ok {
                res->Ok_0
            } else {
                old(state).current_brightness
            },
            ..*old(state)
        };
        assert(policy_actions(refreshed, *config, now) =~= seq![
            PolicyAction::SetLed(set_value),
            PolicyAction::Sleep(sleep),
        ]);
    }
    PolicyOutcome { set_value, needs_pre_read, sleep, refresh_error }
}

} // verus!
