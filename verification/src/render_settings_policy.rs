//! Render modes and the blink rendition, with the contrast-adjustment rule.

use vstd::prelude::*;

verus! {

/// Independent render modes, each one bit of the policy.
#[derive(Debug, Clone, Copy, PartialEq, Eq, Structural)]
pub enum RenderMode {
    IndexedDistinguishableColors,
    AlwaysDistinguishableColors,
    IntenseIsBold,
    IntenseIsBright,
    ScreenReversed,
    SynchronizedOutput,
}

impl RenderMode {
    /// The bit of the mode.
    pub open spec fn spec_mask(self) -> u8 {
        match self {
            RenderMode::IndexedDistinguishableColors => 1,
            RenderMode::AlwaysDistinguishableColors => 2,
            RenderMode::IntenseIsBold => 4,
            RenderMode::IntenseIsBright => 8,
            RenderMode::ScreenReversed => 16,
            RenderMode::SynchronizedOutput => 32,
        }
    }

    pub fn mask(self) -> (r: u8)
        ensures
            r == self.spec_mask(),
    {
        match self {
            RenderMode::IndexedDistinguishableColors => 1,
            RenderMode::AlwaysDistinguishableColors => 2,
            RenderMode::IntenseIsBold => 4,
            RenderMode::IntenseIsBright => 8,
            RenderMode::ScreenReversed => 16,
            RenderMode::SynchronizedOutput => 32,
        }
    }
}

/// The enabled render modes and whether blinking text is currently faint.
#[derive(Debug, Clone, Copy, PartialEq, Eq, Structural)]
pub struct RenderSettingsPolicy {
    modes: u8,
    blink_should_be_faint: bool,
}

/// Whether `mode` is set in a mode word.
pub open spec fn bits_have_mode(bits: u8, mode: RenderMode) -> bool {
    bits & mode.spec_mask() != 0
}

impl RenderSettingsPolicy {
    /// Only the six known mode bits can be set.
    #[verifier::type_invariant]
    pub closed spec fn well_formed(self) -> bool {
        self.modes < 64
    }

    /// The policy with these mode bits and blink state.
    pub closed spec fn spec_from_parts(bits: u8, blink_should_be_faint: bool) -> Self {
        RenderSettingsPolicy { modes: bits, blink_should_be_faint }
    }

    /// What the two views say of a policy built from parts.
    pub proof fn lemma_from_parts(bits: u8, blink_should_be_faint: bool)
        ensures
            Self::spec_from_parts(bits, blink_should_be_faint).spec_bits() == bits,
            Self::spec_from_parts(bits, blink_should_be_faint).spec_blink_should_be_faint() == blink_should_be_faint,
            bits < 64 ==> Self::spec_from_parts(bits, blink_should_be_faint).well_formed(),
    {
    }

    /// A well-formed policy sets only the six mode bits.
    pub proof fn lemma_well_formed_bits(self)
        requires
            self.well_formed(),
        ensures
            self.spec_bits() < 64,
    {
    }

    /// A policy is determined by its mode bits and blink state.
    pub proof fn lemma_from_own_parts(self)
        ensures
            Self::spec_from_parts(self.spec_bits(), self.spec_blink_should_be_faint()) == self,
    {
    }

    /// The mode word: bit `k` set when the mode with mask `1 << k` is on.
    pub closed spec fn spec_bits(self) -> u8 {
        self.modes
    }

    pub closed spec fn spec_blink_should_be_faint(self) -> bool {
        self.blink_should_be_faint
    }

    pub open spec fn spec_mode(self, mode: RenderMode) -> bool {
        bits_have_mode(self.spec_bits(), mode)
    }

    /// The policy with exactly these mode bits and blink state.
    pub fn from_parts(bits: u8, blink_should_be_faint: bool) -> (r: Self)
        requires
            bits < 64,
        ensures
            r == Self::spec_from_parts(bits, blink_should_be_faint),
    {
        RenderSettingsPolicy { modes: bits, blink_should_be_faint }
    }

    /// The mode bits.
    pub fn bits(&self) -> (r: u8)
        ensures
            r == self.spec_bits(),
            r < 64,
            self.well_formed(),
    {
        proof {
            use_type_invariant(self);
        }
        self.modes
    }

    /// Turns one mode on or off, leaving every other mode and the blink
    /// state as they were.
    pub fn set_mode(&mut self, mode: RenderMode, enabled: bool)
        ensures
            final(self).spec_mode(mode) == enabled,
            forall|other: RenderMode| other != mode ==> #[trigger] final(self).spec_mode(other) == old(self).spec_mode(other),
            final(self).spec_blink_should_be_faint() == old(self).spec_blink_should_be_faint(),
    {
        proof {
            use_type_invariant(&*self);
        }
        let mask = mode.mask();
        let current = self.modes;
        let updated = if enabled { current | mask } else { current & !mask };
        assert(updated < 64) by (bit_vector)
            requires
                current < 64,
                mask == 1 || mask == 2 || mask == 4 || mask == 8 || mask == 16 || mask == 32,
                updated == (if enabled { current | mask } else { current & !mask }),
        ;
        assert forall|other: RenderMode| other != mode implies bits_have_mode(updated, other)
            == bits_have_mode(current, other) by {
            let o = other.spec_mask();
            assert(((current | mask) & o != 0) == (current & o != 0)) by (bit_vector)
                requires
                    o != mask,
                    o == 1 || o == 2 || o == 4 || o == 8 || o == 16 || o == 32,
                    mask == 1 || mask == 2 || mask == 4 || mask == 8 || mask == 16 || mask == 32,
            ;
            assert(((current & !mask) & o != 0) == (current & o != 0)) by (bit_vector)
                requires
                    o != mask,
                    o == 1 || o == 2 || o == 4 || o == 8 || o == 16 || o == 32,
                    mask == 1 || mask == 2 || mask == 4 || mask == 8 || mask == 16 || mask == 32,
            ;
        }
        assert(bits_have_mode(updated, mode) == enabled) by {
            assert(((current | mask) & mask != 0) && ((current & !mask) & mask == 0)) by (bit_vector)
                requires
                    mask == 1 || mask == 2 || mask == 4 || mask == 8 || mask == 16 || mask == 32,
            ;
        }
        self.modes = updated;
    }

    /// Whether `mode` is on.
    pub fn mode(&self, mode: RenderMode) -> (r: bool)
        ensures
            r == self.spec_mode(mode),
    {
        self.modes & mode.mask() != 0
    }

    /// The hard-reset subset: screen reversal and synchronized output turn
    /// off; every other mode and the blink state stay.
    pub fn restore_programmable_defaults(&mut self)
        ensures
            !final(self).spec_mode(RenderMode::ScreenReversed),
            !final(self).spec_mode(RenderMode::SynchronizedOutput),
            forall|other: RenderMode|
                other != RenderMode::ScreenReversed && other != RenderMode::SynchronizedOutput
                    ==> #[trigger] final(self).spec_mode(other) == old(self).spec_mode(other),
            final(self).spec_blink_should_be_faint() == old(self).spec_blink_should_be_faint(),
    {
        self.set_mode(RenderMode::ScreenReversed, false);
        self.set_mode(RenderMode::SynchronizedOutput, false);
    }

    /// Flips whether blinking text is faint; the modes stay.
    pub fn toggle_blink_rendition(&mut self)
        ensures
            final(self).spec_blink_should_be_faint() == !old(self).spec_blink_should_be_faint(),
            final(self).spec_bits() == old(self).spec_bits(),
    {
        proof {
            use_type_invariant(&*self);
        }
        self.blink_should_be_faint = !self.blink_should_be_faint;
    }

    pub fn blink_should_be_faint(&self) -> (r: bool)
        ensures
            r == self.spec_blink_should_be_faint(),
    {
        self.blink_should_be_faint
    }

    /// Contrast is adjusted only between different colors, and then when
    /// colors must always be distinguishable, or when indexed colors must be
    /// and both colors are default or legacy indexed colors.
    pub open spec fn spec_should_adjust_contrast(
        self,
        candidate: u32,
        background: u32,
        candidate_is_default_or_legacy: bool,
        background_is_default_or_legacy: bool,
    ) -> bool {
        candidate != background && (self.spec_mode(RenderMode::AlwaysDistinguishableColors) || (
        self.spec_mode(RenderMode::IndexedDistinguishableColors) && candidate_is_default_or_legacy
            && background_is_default_or_legacy))
    }

    pub fn should_adjust_contrast(
        &self,
        candidate: u32,
        background: u32,
        candidate_is_default_or_legacy: bool,
        background_is_default_or_legacy: bool,
    ) -> (r: bool)
        ensures
            r == self.spec_should_adjust_contrast(
                candidate,
                background,
                candidate_is_default_or_legacy,
                background_is_default_or_legacy,
            ),
    {
        candidate != background && (self.mode(RenderMode::AlwaysDistinguishableColors) || (self.mode(
            RenderMode::IndexedDistinguishableColors,
        ) && candidate_is_default_or_legacy && background_is_default_or_legacy))
    }
}

/// Contrast is never adjusted between equal colors; with colors that must
/// always be distinguishable it is adjusted between any two different ones;
/// otherwise only when indexed colors must be distinguishable and both the
/// candidate and the background are default or legacy colors. The two sides
/// play symmetric parts.
pub proof fn law_contrast_adjustment(
    policy: RenderSettingsPolicy,
    candidate: u32,
    background: u32,
    candidate_is_default_or_legacy: bool,
    background_is_default_or_legacy: bool,
)
    ensures
        ({
            let r = policy.spec_should_adjust_contrast(
                candidate,
                background,
                candidate_is_default_or_legacy,
                background_is_default_or_legacy,
            );
            &&& candidate == background ==> !r
            &&& policy.spec_mode(RenderMode::AlwaysDistinguishableColors) ==> (r <==> candidate
                != background)
            &&& !policy.spec_mode(RenderMode::AlwaysDistinguishableColors) ==> (r ==> (
            candidate_is_default_or_legacy && background_is_default_or_legacy && policy.spec_mode(
                RenderMode::IndexedDistinguishableColors,
            )))
            &&& r == policy.spec_should_adjust_contrast(
                background,
                candidate,
                background_is_default_or_legacy,
                candidate_is_default_or_legacy,
            )
        }),
{
}

impl Default for RenderSettingsPolicy {
    /// Only "intense is bright" is on, and blink is not faint.
    fn default() -> (r: Self)
        ensures
            r.spec_bits() == 8,
            !r.spec_blink_should_be_faint(),
    {
        RenderSettingsPolicy { modes: RenderMode::IntenseIsBright.mask(), blink_should_be_faint: false }
    }
}

/// The default policy has exactly "intense is bright" on.
pub proof fn lemma_default_modes(policy: RenderSettingsPolicy, mode: RenderMode)
    requires
        policy.spec_bits() == 8,
    ensures
        policy.spec_mode(mode) == (mode == RenderMode::IntenseIsBright),
{
    let m = mode.spec_mask();
    assert((8u8 & m != 0) == (m == 8)) by (bit_vector)
        requires
            m == 1 || m == 2 || m == 4 || m == 8 || m == 16 || m == 32,
    ;
}

} // verus!
