//! The Space Invaders port bus: the cabinet's 16-bit shift register and the
//! input-port latches, behind the narrow two-function capability the core
//! consumes.  Sound writes are discarded; a port the cabinet does not wire up
//! is refused up front (the reference host treats it as fatal).

use vstd::prelude::*;
use crate::model::{IoModel, io_input, io_output, in_port_ok, out_port_ok, pow2};

verus! {

/// `x` with bit `bit` set or cleared.
pub open spec fn set_bit(x: u8, bit: u8, on: bool) -> u8 {
    if on {
        x | (1u8 << bit)
    } else {
        x & !(1u8 << bit)
    }
}

/// The capability the core consumes for IN and OUT: a byte in from a port, a
/// byte out to a port.  An implementation says which ports it serves, what a
/// read returns, and which state a write leaves behind.
pub trait IO {
    spec fn input_allowed(&self, port: u8) -> bool;

    spec fn output_allowed(&self, port: u8) -> bool;

    spec fn spec_input(&self, port: u8) -> u8;

    spec fn spec_output(&self, port: u8, value: u8) -> Self where Self: Sized;

    fn input(&self, port: u8) -> (r: u8)
        requires
            self.input_allowed(port),
        ensures
            r == self.spec_input(port),
    ;

    fn output(&mut self, port: u8, value: u8) where Self: Sized
        requires
            old(self).output_allowed(port),
        ensures
            *final(self) == old(self).spec_output(port, value),
    ;
}

#[verifier::ext_equal]
pub struct SpaceInvadersIO {
    shift0: u8,
    shift1: u8,
    shift_amount: u8,
    port0: u8,
    port1: u8,
    port2: u8,
}

impl View for SpaceInvadersIO {
    type V = IoModel;

    closed spec fn view(&self) -> IoModel {
        IoModel {
            shift0: self.shift0,
            shift1: self.shift1,
            shift_amount: self.shift_amount,
            port0: self.port0,
            port1: self.port1,
            port2: self.port2,
        }
    }
}

impl SpaceInvadersIO {
    /// The shift offset only ever holds its low three bits.
    #[verifier::type_invariant]
    spec fn inv(&self) -> bool {
        self.shift_amount < 8
    }

    /// Power-up state: shift register clear, no key held; the port-1 latch
    /// starts with only its always-one bit 3.
    pub fn new() -> (io: SpaceInvadersIO)
        ensures
            io@ == (IoModel {
                shift0: 0,
                shift1: 0,
                shift_amount: 0,
                port0: 0x70,
                port1: 0x08,
                port2: 0,
            }),
    {
        SpaceInvadersIO {
            shift0: 0,
            shift1: 0,
            shift_amount: 0,
            port0: 0x70,
            port1: 0x08,
            port2: 0,
        }
    }

    /// Read a port: 1 and 2 are the input latches (port 1 with its constant
    /// lines forced: bit 3 one, bit 7 zero), 3 the shift-register window.
    pub fn read_port(&self, port: u8) -> (r: u8)
        requires
            in_port_ok(port),
        ensures
            r == io_input(self@, port),
    {
        proof {
            use_type_invariant(self);
        }
        if port == 1 {
            (self.port1 | 8) & 0x7F
        } else if port == 2 {
            self.port2
        } else {
            let reg: u16 = (self.shift1 as u16) * 256 + (self.shift0 as u16);
            let divisor: u16 = match self.shift_amount {
                0 => 256,
                1 => 128,
                2 => 64,
                3 => 32,
                4 => 16,
                5 => 8,
                6 => 4,
                _ => 2,
            };
            proof {
                reveal_with_fuel(pow2, 9);
                assert(divisor == pow2(8 - self@.shift_amount));
            }
            ((reg / divisor) % 256) as u8
        }
    }

    /// Set or clear one bit of an input latch (how the host feeds key state
    /// in): `latch` names port 0, 1 or 2, `bit` the line inside it.
    pub fn set_key(&mut self, latch: u8, bit: u8, on: bool)
        requires
            latch <= 2,
            bit < 8,
        ensures
            latch == 0 ==> final(self)@ == (IoModel {
                port0: set_bit(old(self)@.port0, bit, on),
                ..old(self)@
            }),
            latch == 1 ==> final(self)@ == (IoModel {
                port1: set_bit(old(self)@.port1, bit, on),
                ..old(self)@
            }),
            latch == 2 ==> final(self)@ == (IoModel {
                port2: set_bit(old(self)@.port2, bit, on),
                ..old(self)@
            }),
    {
        proof {
            use_type_invariant(&*self);
        }
        let mask: u8 = 1u8 << bit;
        if latch == 0 {
            self.port0 = if on { self.port0 | mask } else { self.port0 & !mask };
        } else if latch == 1 {
            self.port1 = if on { self.port1 | mask } else { self.port1 & !mask };
        } else {
            self.port2 = if on { self.port2 | mask } else { self.port2 & !mask };
        }
    }

    /// Write a port: 2 sets the shift offset, 4 shifts a byte in, 3, 5 and 6
    /// (sound banks, watchdog) are discarded.
    pub fn write_port(&mut self, port: u8, value: u8)
        requires
            out_port_ok(port),
        ensures
            final(self)@ == io_output(old(self)@, port, value),
    {
        proof {
            use_type_invariant(&*self);
        }
        if port == 2 {
            self.shift_amount = value % 8;
        } else if port == 4 {
            self.shift0 = self.shift1;
            self.shift1 = value;
        }
    }
}

impl IO for SpaceInvadersIO {
    open spec fn input_allowed(&self, port: u8) -> bool {
        in_port_ok(port)
    }

    open spec fn output_allowed(&self, port: u8) -> bool {
        out_port_ok(port)
    }

    open spec fn spec_input(&self, port: u8) -> u8 {
        io_input(self@, port)
    }

    closed spec fn spec_output(&self, port: u8, value: u8) -> SpaceInvadersIO {
        SpaceInvadersIO {
            shift_amount: if port == 2 { (value % 8) as u8 } else { self.shift_amount },
            shift0: if port == 4 { self.shift1 } else { self.shift0 },
            shift1: if port == 4 { value } else { self.shift1 },
            port0: self.port0,
            port1: self.port1,
            port2: self.port2,
        }
    }

    fn input(&self, port: u8) -> (r: u8) {
        self.read_port(port)
    }

    fn output(&mut self, port: u8, value: u8) {
        self.write_port(port, value);
        proof {
            assert(*self =~= old(self).spec_output(port, value));
        }
    }
}

} // verus!
