//! The render-settings state exchanged across the ABI and the entry points
//! that update it through [`RenderSettingsPolicy`].

use vstd::prelude::*;
use vstd::arithmetic::power2::{lemma2_to64, pow2};
use crate::parser_ffi::{abi_bool, bool_from_abi, bool_to_abi, FfiStatus};
use crate::render_settings_policy::{bits_have_mode, RenderMode, RenderSettingsPolicy};

verus! {

/// Only bits 0 to 5 name modes.
pub const VALID_MODE_MASK: u32 = 63;

/// ABI form of a policy: the mode bits (bit `k` for ABI mode `k + 1`) and
/// the blink state as 0 or 1.
#[derive(Debug, Clone, Copy, Default, PartialEq, Eq, Structural)]
pub struct RenderSettingsState {
    pub modes: u32,
    pub blink_should_be_faint: u32,
}

/// The ABI numbering of modes: 1 to 6 in declaration order.
pub open spec fn spec_mode_from_abi(mode: u32) -> Option<RenderMode> {
    if mode == 1 {
        Some(RenderMode::IndexedDistinguishableColors)
    } else if mode == 2 {
        Some(RenderMode::AlwaysDistinguishableColors)
    } else if mode == 3 {
        Some(RenderMode::IntenseIsBold)
    } else if mode == 4 {
        Some(RenderMode::IntenseIsBright)
    } else if mode == 5 {
        Some(RenderMode::ScreenReversed)
    } else if mode == 6 {
        Some(RenderMode::SynchronizedOutput)
    } else {
        None
    }
}

/// The ABI numbers the modes 1 to 6: number `k` is the mode whose bit is
/// `2^(k-1)`, every number in that range names a mode, no other does, and
/// no two numbers name the same mode.
pub proof fn law_abi_mode_is_its_bit(k: u32, j: u32)
    ensures
        (1 <= k <= 6) <==> spec_mode_from_abi(k) is Some,
        spec_mode_from_abi(k) matches Some(m) ==> m.spec_mask() as int == pow2((k - 1) as nat),
        spec_mode_from_abi(k) is Some && spec_mode_from_abi(k) == spec_mode_from_abi(j) ==> k == j,
{
    lemma2_to64();
}

pub fn mode_from_abi(mode: u32) -> (r: Option<RenderMode>)
    ensures
        r == spec_mode_from_abi(mode),
{
    match mode {
        1 => Some(RenderMode::IndexedDistinguishableColors),
        2 => Some(RenderMode::AlwaysDistinguishableColors),
        3 => Some(RenderMode::IntenseIsBold),
        4 => Some(RenderMode::IntenseIsBright),
        5 => Some(RenderMode::ScreenReversed),
        6 => Some(RenderMode::SynchronizedOutput),
        _ => None,
    }
}

/// A state is valid when it sets no unknown mode bit and its blink state is
/// 0 or 1.
pub open spec fn is_valid_state(state: RenderSettingsState) -> bool {
    state.modes & !VALID_MODE_MASK == 0 && state.blink_should_be_faint <= 1
}

pub open spec fn spec_policy_from_state(state: RenderSettingsState) -> Option<RenderSettingsPolicy> {
    if is_valid_state(state) {
        Some(RenderSettingsPolicy::spec_from_parts(state.modes as u8, state.blink_should_be_faint != 0))
    } else {
        None
    }
}

pub open spec fn spec_state_from_policy(policy: RenderSettingsPolicy) -> RenderSettingsState {
    RenderSettingsState {
        modes: policy.spec_bits() as u32,
        blink_should_be_faint: abi_bool(policy.spec_blink_should_be_faint()),
    }
}

/// Decodes a state; invalid states are refused.
pub fn policy_from_state(state: RenderSettingsState) -> (r: Option<RenderSettingsPolicy>)
    ensures
        r == spec_policy_from_state(state),
{
    if state.modes & !VALID_MODE_MASK != 0 || state.blink_should_be_faint > 1 {
        return None;
    }
    let modes = state.modes;
    assert(modes & !63u32 == 0 ==> modes < 64) by (bit_vector);
    Some(RenderSettingsPolicy::from_parts(state.modes as u8, state.blink_should_be_faint != 0))
}

/// Encodes a policy.
pub fn state_from_policy(policy: RenderSettingsPolicy) -> (r: RenderSettingsState)
    ensures
        r == spec_state_from_policy(policy),
        is_valid_state(r),
{
    let bits = policy.bits();
    let modes = bits as u32;
    assert(modes < 64 ==> modes & !63u32 == 0) by (bit_vector);
    RenderSettingsState { modes, blink_should_be_faint: bool_to_abi(policy.blink_should_be_faint()) }
}

/// Decoding an encoded policy gives the policy back.
pub proof fn lemma_policy_roundtrip(policy: RenderSettingsPolicy)
    requires
        policy.well_formed(),
    ensures
        spec_policy_from_state(spec_state_from_policy(policy)) == Some(policy),
{
    let bits = policy.spec_bits();
    RenderSettingsPolicy::lemma_from_own_parts(policy);
    reveal_well_formed(policy);
    assert(bits < 64 ==> (bits as u32) & !63u32 == 0 && ((bits as u32) as u8) == bits) by (bit_vector);
}

/// Encoding a decoded valid state gives the state back.
pub proof fn lemma_state_roundtrip(state: RenderSettingsState)
    requires
        is_valid_state(state),
    ensures
        spec_policy_from_state(state) matches Some(policy) && spec_state_from_policy(policy) == state,
{
    let modes = state.modes;
    RenderSettingsPolicy::lemma_from_parts(modes as u8, state.blink_should_be_faint != 0);
    assert(modes & !63u32 == 0 ==> ((modes as u8) as u32) == modes) by (bit_vector);
}

proof fn reveal_well_formed(policy: RenderSettingsPolicy)
    requires
        policy.well_formed(),
    ensures
        policy.spec_bits() < 64,
{
    RenderSettingsPolicy::lemma_well_formed_bits(policy);
}

/// The default policy, encoded.
pub fn render_settings_default() -> (r: RenderSettingsState)
    ensures
        r == (RenderSettingsState { modes: 8, blink_should_be_faint: 0 }),
{
    state_from_policy(RenderSettingsPolicy::default())
}

/// Turns one ABI mode on or off in an encoded state. Invalid enable flags,
/// mode numbers and states are refused.
pub fn render_settings_set_mode(state: RenderSettingsState, mode: u32, enabled: u32) -> (r: Result<
    RenderSettingsState,
    FfiStatus,
>)
    ensures
        (enabled > 1 || spec_mode_from_abi(mode).is_none() || !is_valid_state(state)) ==> r == Err::<
            RenderSettingsState,
            FfiStatus,
        >(FfiStatus::InvalidArgument),
        (enabled <= 1 && spec_mode_from_abi(mode).is_some() && is_valid_state(state)) ==> (r matches Ok(
            next,
        ) && is_valid_state(next) && next.blink_should_be_faint == state.blink_should_be_faint
            && bits_have_mode(next.modes as u8, spec_mode_from_abi(mode).unwrap()) == (enabled == 1)
            && forall|other: RenderMode| other != spec_mode_from_abi(mode).unwrap()
                ==> #[trigger] bits_have_mode(next.modes as u8, other) == bits_have_mode(state.modes as u8, other)),
{
    if enabled > 1 {
        return Err(FfiStatus::InvalidArgument);
    }
    let mode = match mode_from_abi(mode) {
        Some(mode) => mode,
        None => return Err(FfiStatus::InvalidArgument),
    };
    let mut policy = match policy_from_state(state) {
        Some(policy) => policy,
        None => return Err(FfiStatus::InvalidArgument),
    };
    proof {
        RenderSettingsPolicy::lemma_from_parts(state.modes as u8, state.blink_should_be_faint != 0);
    }
    let ghost before = policy;
    policy.set_mode(mode, enabled != 0);
    let next = state_from_policy(policy);
    proof {
        let b = policy.spec_bits();
        assert(b < 64 ==> ((b as u32) as u8) == b) by (bit_vector);
        assert(next.modes as u8 == b);
        assert(before.spec_bits() == state.modes as u8);
        assert forall|other: RenderMode| other != mode implies #[trigger] bits_have_mode(next.modes as u8, other)
            == bits_have_mode(state.modes as u8, other) by {
            assert(policy.spec_mode(other) == before.spec_mode(other));
        }
    }
    Ok(next)
}

/// Reads one ABI mode from an encoded state as 0 or 1.
pub fn render_settings_get_mode(state: RenderSettingsState, mode: u32) -> (r: Result<u32, FfiStatus>)
    ensures
        (spec_mode_from_abi(mode).is_none() || !is_valid_state(state)) ==> r == Err::<u32, FfiStatus>(
            FfiStatus::InvalidArgument,
        ),
        (spec_mode_from_abi(mode).is_some() && is_valid_state(state)) ==> r == Ok::<u32, FfiStatus>(
            abi_bool(bits_have_mode(state.modes as u8, spec_mode_from_abi(mode).unwrap())),
        ),
{
    let mode = match mode_from_abi(mode) {
        Some(mode) => mode,
        None => return Err(FfiStatus::InvalidArgument),
    };
    let policy = match policy_from_state(state) {
        Some(policy) => policy,
        None => return Err(FfiStatus::InvalidArgument),
    };
    proof {
        RenderSettingsPolicy::lemma_from_parts(state.modes as u8, state.blink_should_be_faint != 0);
    }
    Ok(bool_to_abi(policy.mode(mode)))
}

/// Decides contrast adjustment for an encoded state; the two flags must be
/// 0 or 1.
pub fn render_settings_should_adjust_contrast(
    state: RenderSettingsState,
    candidate: u32,
    background: u32,
    candidate_is_default_or_legacy: u32,
    background_is_default_or_legacy: u32,
) -> (r: Result<u32, FfiStatus>)
    ensures
        (candidate_is_default_or_legacy > 1 || background_is_default_or_legacy > 1 || !is_valid_state(state))
            ==> r == Err::<u32, FfiStatus>(FfiStatus::InvalidArgument),
        (candidate_is_default_or_legacy <= 1 && background_is_default_or_legacy <= 1 && is_valid_state(state))
            ==> r == Ok::<u32, FfiStatus>(
            abi_bool(
                spec_policy_from_state(state).unwrap().spec_should_adjust_contrast(
                    candidate,
                    background,
                    candidate_is_default_or_legacy == 1,
                    background_is_default_or_legacy == 1,
                ),
            ),
        ),
{
    let candidate_flag = match bool_from_abi(candidate_is_default_or_legacy) {
        Some(flag) => flag,
        None => return Err(FfiStatus::InvalidArgument),
    };
    let background_flag = match bool_from_abi(background_is_default_or_legacy) {
        Some(flag) => flag,
        None => return Err(FfiStatus::InvalidArgument),
    };
    let policy = match policy_from_state(state) {
        Some(policy) => policy,
        None => return Err(FfiStatus::InvalidArgument),
    };
    Ok(bool_to_abi(policy.should_adjust_contrast(candidate, background, candidate_flag, background_flag)))
}

/// Applies the hard-reset subset to an encoded state.
pub fn render_settings_restore_programmable_defaults(state: RenderSettingsState) -> (r: Result<
    RenderSettingsState,
    FfiStatus,
>)
    ensures
        !is_valid_state(state) ==> r == Err::<RenderSettingsState, FfiStatus>(FfiStatus::InvalidArgument),
        is_valid_state(state) ==> (r matches Ok(next) && is_valid_state(next)
            && next.blink_should_be_faint == state.blink_should_be_faint
            && !bits_have_mode(next.modes as u8, RenderMode::ScreenReversed)
            && !bits_have_mode(next.modes as u8, RenderMode::SynchronizedOutput)
            && forall|other: RenderMode| other != RenderMode::ScreenReversed && other != RenderMode::SynchronizedOutput
                ==> #[trigger] bits_have_mode(next.modes as u8, other) == bits_have_mode(state.modes as u8, other)),
{
    let mut policy = match policy_from_state(state) {
        Some(policy) => policy,
        None => return Err(FfiStatus::InvalidArgument),
    };
    proof {
        RenderSettingsPolicy::lemma_from_parts(state.modes as u8, state.blink_should_be_faint != 0);
    }
    let ghost before = policy;
    policy.restore_programmable_defaults();
    let next = state_from_policy(policy);
    proof {
        let b = policy.spec_bits();
        assert(b < 64 ==> ((b as u32) as u8) == b) by (bit_vector);
        assert(next.modes as u8 == b);
        assert(before.spec_bits() == state.modes as u8);
        assert forall|other: RenderMode| other != RenderMode::ScreenReversed && other != RenderMode::SynchronizedOutput
            implies #[trigger] bits_have_mode(next.modes as u8, other) == bits_have_mode(state.modes as u8, other) by {
            assert(policy.spec_mode(other) == before.spec_mode(other));
        }
    }
    Ok(next)
}

/// Flips the blink state of an encoded state.
pub fn render_settings_toggle_blink(state: RenderSettingsState) -> (r: Result<RenderSettingsState, FfiStatus>)
    ensures
        !is_valid_state(state) ==> r == Err::<RenderSettingsState, FfiStatus>(FfiStatus::InvalidArgument),
        is_valid_state(state) ==> r == Ok::<RenderSettingsState, FfiStatus>(
            RenderSettingsState {
                modes: state.modes,
                blink_should_be_faint: (1 - state.blink_should_be_faint) as u32,
            },
        ),
{
    let mut policy = match policy_from_state(state) {
        Some(policy) => policy,
        None => return Err(FfiStatus::InvalidArgument),
    };
    proof {
        RenderSettingsPolicy::lemma_from_parts(state.modes as u8, state.blink_should_be_faint != 0);
        let modes = state.modes;
        assert(modes & !63u32 == 0 ==> ((modes as u8) as u32) == modes) by (bit_vector);
    }
    policy.toggle_blink_rendition();
    Ok(state_from_policy(policy))
}

} // verus!
