//! The shared interrupt-line adapter and its guarded access.
//!
//! The adapter is shared between the polling context and an interrupt
//! context, so every access goes through a short critical section and
//! nothing else: no bus traffic is ever issued while the section is
//! held.

use vstd::prelude::*;

verus! {

/// Capability contract of the interrupt line adapter.  Implementations
/// must be safely callable from interrupt context.
pub trait InterruptInput {
    /// Whether an interrupt edge has been latched since the flag was
    /// last cleared.
    fn get_interrupt_flag(&self) -> bool;

    /// Resets the latched edge flag.
    fn clear_interrupt_flag(&mut self);

    /// The raw level of the interrupt line right now.
    fn get_interrupt_state(&self) -> bool;
}

#[verifier::external_type_specification]
#[verifier::external_body]
#[verifier::reject_recursive_types(T)]
pub struct ExMutex<T>(critical_section::Mutex<T>);

#[verifier::external_type_specification]
#[verifier::external_body]
#[verifier::reject_recursive_types(T)]
pub struct ExRefCell<T: ?Sized>(core::cell::RefCell<T>);

/// Relies on `critical_section::with` and `Mutex::borrow_ref`: reads the
/// adapter's latched edge flag inside a critical section.  The flag is
/// shared mutable state, so nothing is promised of the value.
#[verifier::external_body]
pub(crate) fn shared_get_flag<Ti: InterruptInput>(
    m: &critical_section::Mutex<core::cell::RefCell<Ti>>,
) -> bool {
    critical_section::with(|cs| m.borrow_ref(cs).get_interrupt_flag())
}

/// Relies on `critical_section::with` and `Mutex::borrow_ref_mut`:
/// resets the adapter's latched edge flag inside a critical section.
#[verifier::external_body]
pub(crate) fn shared_clear_flag<Ti: InterruptInput>(
    m: &critical_section::Mutex<core::cell::RefCell<Ti>>,
) {
    critical_section::with(|cs| m.borrow_ref_mut(cs).clear_interrupt_flag())
}

/// Relies on `critical_section::with` and `Mutex::borrow_ref`: samples
/// the raw interrupt line level inside a critical section.  The level is
/// set by the device, so nothing is promised of the value.
#[verifier::external_body]
pub(crate) fn shared_get_state<Ti: InterruptInput>(
    m: &critical_section::Mutex<core::cell::RefCell<Ti>>,
) -> bool {
    critical_section::with(|cs| m.borrow_ref(cs).get_interrupt_state())
}

} // verus!
