//! The bounded credential-retry protocol for authenticated transport.
//!
//! Every credential request from the transport is decided here, over an
//! explicit attempt counter.  Configured in-memory key material is
//! authoritative: when the transport allows it, it is used immediately and
//! never falls through to other methods.  Otherwise the helper chain (agent,
//! default key files, credential manager) is asked for its next candidate —
//! a distinct method each time, as far as the chain supports it — up to a
//! hard ceiling of attempts; one request past the ceiling is refused, so the
//! retry loop can never run unbounded.

use vstd::prelude::*;

verus! {

/// The ceiling on helper-chain credential attempts.
pub const MAX_CREDENTIAL_ATTEMPTS: u8 = 5;

/// The explicit state of the retry protocol: how many helper-chain attempts
/// were made, and how many are allowed.
#[derive(Clone, Copy, Debug, PartialEq, Eq, Structural)]
pub struct CredentialAttemptState {
    /// helper-chain attempts made so far
    pub count: u8,
    /// the attempt ceiling
    pub max: u8,
}

/// What the transport should do for one credential request.
#[derive(Clone, Copy, Debug, PartialEq, Eq, Structural)]
pub enum CredDecision {
    /// Authenticate with the configured in-memory key pair.  If that fails,
    /// the failure stands: no fall-through to other methods.
    UseMemoryKey,
    /// Ask the helper chain for its next candidate.
    TryHelper,
    /// The ceiling is reached: fail with an authentication-exhausted error.
    Exhausted,
}

impl CredentialAttemptState {
    /// A fresh state: no attempts made, the standard ceiling.
    pub fn new() -> (s: CredentialAttemptState)
        ensures
            s.count == 0,
            s.max == MAX_CREDENTIAL_ATTEMPTS,
    {
        CredentialAttemptState { count: 0, max: MAX_CREDENTIAL_ATTEMPTS }
    }
}

/// The decision for one credential request in state `s`; `memory_key_usable`
/// is whether key material is configured and the allowed-method set includes
/// in-memory key authentication.
pub open spec fn resolve_decision(s: CredentialAttemptState, memory_key_usable: bool) -> CredDecision {
    if memory_key_usable {
        CredDecision::UseMemoryKey
    } else if s.count < s.max {
        CredDecision::TryHelper
    } else {
        CredDecision::Exhausted
    }
}

/// The state after that request: only a helper-chain attempt costs one.
pub open spec fn resolve_next(s: CredentialAttemptState, memory_key_usable: bool) -> CredentialAttemptState {
    if memory_key_usable {
        s
    } else if s.count < s.max {
        CredentialAttemptState { count: (s.count + 1) as u8, max: s.max }
    } else {
        s
    }
}

/// Decides one credential request.  `memory_key_allowed` is whether the
/// transport's allowed-method set includes in-memory key authentication, and
/// `keys_configured` whether the configuration holds key material; the
/// in-memory key is used exactly when both hold, and costs no helper
/// attempt.
pub fn resolve(
    state: &mut CredentialAttemptState,
    memory_key_allowed: bool,
    keys_configured: bool,
) -> (d: CredDecision)
    ensures
        d == resolve_decision(*old(state), memory_key_allowed && keys_configured),
        *final(state) == resolve_next(*old(state), memory_key_allowed && keys_configured),
        d is UseMemoryKey <==> memory_key_allowed && keys_configured,
        d is Exhausted <==> !(memory_key_allowed && keys_configured) && old(state).count
            >= old(state).max,
{
    if memory_key_allowed && keys_configured {
        CredDecision::UseMemoryKey
    } else if state.count < state.max {
        state.count = state.count + 1;
        CredDecision::TryHelper
    } else {
        CredDecision::Exhausted
    }
}

/// The protocol state after `k` failed helper-chain attempts from a fresh
/// state with ceiling `max` and no usable in-memory key.
pub open spec fn state_after_failures(max: u8, k: nat) -> CredentialAttemptState
    decreases k,
{
    if k == 0 {
        CredentialAttemptState { count: 0, max }
    } else {
        resolve_next(state_after_failures(max, (k - 1) as nat), false)
    }
}

/// Credential exhaustion is bounded and exact: with no usable in-memory key
/// and a helper chain whose every candidate fails, each of the first `max`
/// requests asks the helper chain once more, and every request after that is
/// refused as exhausted — the retry loop terminates after exactly `max`
/// attempts.
pub proof fn lemma_credential_exhaustion(max: u8, k: nat)
    ensures
        state_after_failures(max, k).max == max,
        state_after_failures(max, k).count == (if k <= max {
            k as u8
        } else {
            max
        }),
        k < max ==> resolve_decision(state_after_failures(max, k), false)
            == CredDecision::TryHelper,
        k >= max ==> resolve_decision(state_after_failures(max, k), false)
            == CredDecision::Exhausted,
    decreases k,
{
    if k > 0 {
        lemma_credential_exhaustion(max, (k - 1) as nat);
    }
}

} // verus!
