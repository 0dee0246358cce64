//! A scoped interrupt-masking primitive with correct nesting semantics.
//!
//! The processor's maskable-interrupt flag is core-local hardware state; this
//! crate models it explicitly as an [`InterruptState`] value, so that every
//! operation on the flag, and above all the scope guard [`HeldInterrupts`],
//! carries a proved contract. A thin unverified shim may read the hardware
//! flag into an [`InterruptState`], drive these operations, and write the
//! resulting flag back with the privileged instructions of the target.

use vstd::prelude::*;

verus! {

/// The maskable-interrupt flag of the calling core.
///
/// The hardware owns the real flag; a value of this type stands for what that
/// flag holds at one moment, and the operations below say exactly how each
/// primitive changes it.
pub struct InterruptState {
    enabled: bool,
}

impl InterruptState {
    /// Whether maskable interrupts are permitted to fire in this state.
    pub closed spec fn is_enabled(self) -> bool {
        self.enabled
    }

    /// Makes the state in which the interrupt-enable flag holds `enabled`.
    pub fn new(enabled: bool) -> (state: Self)
        ensures
            state.is_enabled() == enabled,
    {
        InterruptState { enabled }
    }
}

/// Queries whether maskable interrupts are currently enabled, without any
/// side effect on the flag.
pub fn interrupts_enabled(state: &InterruptState) -> (enabled: bool)
    ensures
        enabled == state.is_enabled(),
{
    state.enabled
}

/// The flag after the disable primitive runs: masked, whatever it held
/// before. That the prior state does not appear in the result is exactly the
/// primitive's idempotence.
pub open spec fn after_disable(prior: bool) -> bool {
    false
}

/// The flag after the enable primitive runs: unmasked, whatever it held
/// before; idempotent in the same sense as [`after_disable`].
pub open spec fn after_enable(prior: bool) -> bool {
    true
}

/// The flag after a guard that captured `was_enabled` discharges its restore
/// obligation while the flag holds `prior`: restored to enabled only if the
/// guard saw interrupts enabled at its creation, untouched otherwise.
pub open spec fn after_release(prior: bool, was_enabled: bool) -> bool {
    if was_enabled {
        true
    } else {
        prior
    }
}

/// Unconditionally masks interrupts for the calling core.
pub fn disable_interrupts(state: &mut InterruptState)
    ensures
        final(state).is_enabled() == after_disable(old(state).is_enabled()),
{
    state.enabled = false;
}

/// Unconditionally unmasks interrupts for the calling core.
pub fn enable_interrupts(state: &mut InterruptState)
    ensures
        final(state).is_enabled() == after_enable(old(state).is_enabled()),
{
    state.enabled = true;
}

/// A handle for frozen interrupts.
///
/// It captures, once and for all at its creation, whether interrupts were
/// enabled, and owns the obligation to restore that state. The only way out
/// of that obligation is [`HeldInterrupts::release`], which consumes the
/// guard: a discharged guard is gone, so no guard restores twice. The type is
/// deliberately neither `Clone` nor `Copy` — the obligation cannot be
/// duplicated, only moved.
pub struct HeldInterrupts {
    was_enabled: bool,
}

impl HeldInterrupts {
    /// The interrupt-enable state observed at the moment this guard was
    /// created.
    pub closed spec fn spec_was_enabled(self) -> bool {
        self.was_enabled
    }

    /// Reports the interrupt-enable state this guard captured at creation.
    pub fn was_enabled(&self) -> (enabled: bool)
        ensures
            enabled == self.spec_was_enabled(),
    {
        self.was_enabled
    }

    /// Discharges the guard's restore obligation: re-enables interrupts if
    /// and only if they were enabled when the guard was created, and never
    /// touches the flag otherwise — interrupts an outer scope still depends
    /// on staying masked are not blindly re-enabled.
    pub fn release(self, state: &mut InterruptState)
        ensures
            final(state).is_enabled() == after_release(
                old(state).is_enabled(),
                self.spec_was_enabled(),
            ),
    {
        if self.was_enabled {
            enable_interrupts(state);
        }
    }
}

impl Default for HeldInterrupts {
    /// A placeholder guard with nothing to restore: it masked nothing at its
    /// creation, and releasing it mutates no state.
    fn default() -> (guard: Self)
        ensures
            !guard.spec_was_enabled(),
    {
        HeldInterrupts { was_enabled: false }
    }
}

/// Prevents interrupts from firing until the returned guard is released.
///
/// Snapshots the current state into the guard, then unconditionally masks
/// interrupts: on return the flag is masked whatever it held before. Releasing
/// the guard returns interrupts to their prior state, not blindly re-enabled.
pub fn hold_interrupts(state: &mut InterruptState) -> (guard: HeldInterrupts)
    ensures
        guard.spec_was_enabled() == old(state).is_enabled(),
        final(state).is_enabled() == after_disable(old(state).is_enabled()),
        !final(state).is_enabled(),
{
    let enabled = interrupts_enabled(state);
    let retval = HeldInterrupts { was_enabled: enabled };
    disable_interrupts(state);
    retval
}

/// Restoration fidelity: from any prior state, holding interrupts (which
/// captures that state and masks the flag) and then releasing the guard with
/// no other mutation in between brings the flag back exactly to the prior
/// state.
pub proof fn lemma_restoration_fidelity(prior: bool)
    ensures
        after_release(after_disable(prior), prior) == prior,
{
}

/// Non-blind release: a guard that saw interrupts disabled at its creation
/// mutates nothing on release — in particular it never unmasks interrupts
/// that an outer scope had masked. This is also why a default guard, whose
/// captured state is disabled, is a no-op on release.
pub proof fn lemma_release_of_disabled_is_noop(prior: bool)
    ensures
        after_release(prior, false) == prior,
{
}

/// Nesting correctness: for two guards created in sequence from any prior
/// state, with no other mutation in between, releasing the inner guard leaves
/// interrupts masked (it captured the already-masked state), and releasing
/// the outer guard afterwards restores the true original state.
pub proof fn lemma_nesting(prior: bool)
    ensures
        after_release(after_disable(after_disable(prior)), after_disable(prior)) == false,
        after_release(
            after_release(after_disable(after_disable(prior)), after_disable(prior)),
            prior,
        ) == prior,
{
}

/// Idempotence of the disable primitive: a second disable in a row leaves the
/// flag exactly where a single one did.
pub proof fn lemma_disable_idempotent(prior: bool)
    ensures
        after_disable(after_disable(prior)) == after_disable(prior),
{
}

/// Idempotence of the enable primitive: a second enable in a row leaves the
/// flag exactly where a single one did.
pub proof fn lemma_enable_idempotent(prior: bool)
    ensures
        after_enable(after_enable(prior)) == after_enable(prior),
{
}

} // verus!
