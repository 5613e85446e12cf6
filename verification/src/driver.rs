//! The touch controller driver: register access primitives and the
//! interrupt acknowledge-and-rearm handshake.

use vstd::prelude::*;

use crate::handshake::{spec_handshake_step, HandshakeEvent, HandshakeState};
use crate::interrupt::{shared_clear_flag, shared_get_flag, shared_get_state, InterruptInput};
use crate::regs::{encode_register_address, REG_INTERRUPT_CONTROL, SPD2010_ADDR};
use crate::transport::{DelayProvider, Error, RegisterTransport};

verus! {

/// Settling time after the acknowledge write, in microseconds.
pub const ACK_SETTLE_US: u32 = 200;

/// Time the controller needs to complete internal rearm processing,
/// in milliseconds.
pub const REARM_SETTLE_MS: u32 = 10;

/// Driver for the SPD2010 touch controller.
///
/// It owns its register transport and holds a long-lived shared
/// reference to the interrupt line adapter; the adapter is also touched
/// from interrupt context, so all access to it goes through a critical
/// section.
#[verifier::reject_recursive_types(Ti)]
pub struct SPD2010Touch<'a, B: RegisterTransport, Ti: InterruptInput> {
    transport: B,
    touch_interrupt: &'a critical_section::Mutex<core::cell::RefCell<Ti>>,
}

impl<'a, B: RegisterTransport, Ti: InterruptInput> SPD2010Touch<'a, B, Ti> {
    /// The register transport this driver owns.
    pub closed spec fn spec_transport(&self) -> B {
        self.transport
    }

    /// The shared interrupt-line adapter reference this driver holds.
    pub closed spec fn spec_interrupt(&self) -> &'a critical_section::Mutex<
        core::cell::RefCell<Ti>,
    > {
        self.touch_interrupt
    }

    /// Constructs the driver: the result owns the given transport and
    /// holds the given shared adapter reference.  Arming the interrupt
    /// line itself is the surrounding system's responsibility, done
    /// once at init.
    pub fn new(
        transport: B,
        touch_interrupt: &'a critical_section::Mutex<core::cell::RefCell<Ti>>,
    ) -> (r: Self)
        ensures
            r.spec_transport() == transport,
            r.spec_interrupt() == touch_interrupt,
    {
        SPD2010Touch { transport, touch_interrupt }
    }

    /// Reads `len` bytes from register `reg`: writes the register
    /// address as two bytes, low byte first, then issues the read.  Any
    /// bus fault surfaces immediately as `Transport`; there are no
    /// retries and no other error is ever returned.
    pub fn read_register(&mut self, reg: u16, len: usize) -> (r: Result<
        Vec<u8>,
        Error<B::BusError>,
    >)
        ensures
            r matches Err(e) ==> e is Transport,
    {
        let (low, high) = encode_register_address(reg);
        let mut reg_bytes: Vec<u8> = Vec::new();
        reg_bytes.push(low);
        reg_bytes.push(high);
        match self.transport.bus_write(SPD2010_ADDR, reg_bytes.as_slice()) {
            Ok(_) => {},
            Err(e) => {
                return Err(Error::Transport(e));
            },
        }
        match self.transport.bus_read(SPD2010_ADDR, len) {
            Ok(data) => Ok(data),
            Err(e) => Err(Error::Transport(e)),
        }
    }

    /// Writes `data` to register `reg` as one atomic bus transaction:
    /// the two address bytes, low byte first, followed by the payload,
    /// with nothing interleaved between them.  Any bus fault surfaces
    /// immediately as `Transport`; no other error is ever returned.
    pub fn write_command(&mut self, reg: u16, data: &[u8]) -> (r: Result<(), Error<B::BusError>>)
        ensures
            r matches Err(e) ==> e is Transport,
    {
        let (low, high) = encode_register_address(reg);
        let mut reg_bytes: Vec<u8> = Vec::new();
        reg_bytes.push(low);
        reg_bytes.push(high);
        match self.transport.bus_transaction(SPD2010_ADDR, reg_bytes.as_slice(), data) {
            Ok(_) => Ok(()),
            Err(e) => Err(Error::Transport(e)),
        }
    }

    /// Performs the controller's interrupt acknowledge-and-rearm
    /// handshake, in this exact order: write the acknowledge command
    /// (`0x01, 0x00` to the interrupt control register), wait 200 us,
    /// write the rearm command (`0x00, 0x00`), wait 10 ms, then check
    /// the raw interrupt line.
    ///
    /// A bus fault on either write aborts immediately — the remaining
    /// delays are not waited out — and surfaces as `Transport`.  If both
    /// writes succeed but the line does not report the armed state, the
    /// result is `ClearInterruptFailed`, and only then.  The latched
    /// edge flag of the adapter is not touched; clearing it is a
    /// separate operation.
    pub fn clear_interrupt<D: DelayProvider>(&mut self, delay: &mut D) -> (r: Result<
        (),
        Error<B::BusError>,
    >)
        ensures
            r matches Err(e) ==> (e is Transport || e is ClearInterruptFailed),
    {
        let mut ack: Vec<u8> = Vec::new();
        ack.push(0x01);
        ack.push(0x00);
        let mut rearm: Vec<u8> = Vec::new();
        rearm.push(0x00);
        rearm.push(0x00);

        // The handshake machine starts at Pending: the caller saw an
        // edge and is clearing it.  The ghost state checks the body's
        // branch structure against the machine's transitions.
        let ghost mut hs = HandshakeState::Pending;
        match self.write_command(REG_INTERRUPT_CONTROL, ack.as_slice()) {
            Ok(_) => {
                proof {
                    hs = spec_handshake_step(hs, HandshakeEvent::AckOk);
                }
            },
            Err(e) => {
                proof {
                    hs = spec_handshake_step(hs, HandshakeEvent::AckFault);
                }
                assert(hs is Failed);
                return Err(e);
            },
        }
        assert(hs is Acknowledging);
        delay.delay_us(ACK_SETTLE_US);
        match self.write_command(REG_INTERRUPT_CONTROL, rearm.as_slice()) {
            Ok(_) => {
                proof {
                    hs = spec_handshake_step(hs, HandshakeEvent::RearmOk);
                }
            },
            Err(e) => {
                proof {
                    hs = spec_handshake_step(hs, HandshakeEvent::RearmFault);
                }
                assert(hs is Failed);
                return Err(e);
            },
        }
        assert(hs is Rearming);
        delay.delay_ms(REARM_SETTLE_MS);

        let armed = self.get_interrupt_state();
        proof {
            hs = spec_handshake_step(
                hs,
                if armed {
                    HandshakeEvent::LineArmed
                } else {
                    HandshakeEvent::LineDead
                },
            );
        }
        assert(armed ==> hs is Idle);
        assert(!armed ==> hs is Failed);
        post_rearm_check(armed)
    }

    /// Reads the adapter's latched edge-pending flag, without side
    /// effect, inside a critical section.
    pub fn get_interrupt_flag(&self) -> bool {
        shared_get_flag::<Ti>(self.touch_interrupt)
    }

    /// Resets the adapter's latched edge-pending flag inside a critical
    /// section.
    pub fn clear_interrupt_flag(&self) {
        shared_clear_flag::<Ti>(self.touch_interrupt)
    }

    /// Samples the raw interrupt line level inside a critical section.
    pub fn get_interrupt_state(&self) -> bool {
        shared_get_state::<Ti>(self.touch_interrupt)
    }
}

/// The verdict of the handshake's final post-condition check: given the
/// raw line level observed after both writes and both delays, success
/// exactly when the line reports the armed state, and
/// `ClearInterruptFailed` — never `Transport` — otherwise.
pub fn post_rearm_check<E>(line_armed: bool) -> (r: Result<(), Error<E>>)
    ensures
        r == (if line_armed {
            Result::<(), Error<E>>::Ok(())
        } else {
            Result::<(), Error<E>>::Err(Error::ClearInterruptFailed)
        }),
{
    if line_armed {
        Ok(())
    } else {
        Err(Error::ClearInterruptFailed)
    }
}

} // verus!
