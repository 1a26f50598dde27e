//! A second implementation of the port capability that keeps both players'
//! controls in one 16-bit latch (low byte port 1, high byte port 2), with the
//! key-to-bit wiring of the cabinet.

use vstd::prelude::*;
use crate::model::pow2;
use crate::invaders::IO;

verus! {

/// Port bus state: the shift register and the packed input latch.
#[verifier::ext_equal]
pub ghost struct MachineModel {
    pub shift_offset: u8,
    pub shift0: u8,
    pub shift1: u8,
    pub port: u16,
}

#[verifier::ext_equal]
pub struct SpaceInvadersMachine {
    shift_offset: u8,
    shift0: u8,
    shift1: u8,
    port: u16,
}

/// The cabinet's buttons.
#[derive(Clone, Copy, PartialEq, Eq, Structural, Debug)]
pub enum Keys {
    Coin,
    Start1,
    Start2,
    Left1,
    Left2,
    Right1,
    Right2,
    Shoot1,
    Shoot2,
}

/// The latch bit wired to each key: player 1 in the low byte, player 2 in
/// the high byte.
pub open spec fn key_mask(key: Keys) -> u16 {
    match key {
        Keys::Coin => 1,
        Keys::Start2 => 2,
        Keys::Start1 => 4,
        Keys::Shoot1 => 16,
        Keys::Left1 => 32,
        Keys::Right1 => 64,
        Keys::Shoot2 => 4096,
        Keys::Left2 => 8192,
        Keys::Right2 => 16384,
    }
}

pub fn mask_for_key(key: Keys) -> (r: u16)
    ensures
        r == key_mask(key),
{
    match key {
        Keys::Coin => 1,
        Keys::Start2 => 2,
        Keys::Start1 => 4,
        Keys::Shoot1 => 16,
        Keys::Left1 => 32,
        Keys::Right1 => 64,
        Keys::Shoot2 => 4096,
        Keys::Left2 => 8192,
        Keys::Right2 => 16384,
    }
}

impl View for SpaceInvadersMachine {
    type V = MachineModel;

    closed spec fn view(&self) -> MachineModel {
        MachineModel {
            shift_offset: self.shift_offset,
            shift0: self.shift0,
            shift1: self.shift1,
            port: self.port,
        }
    }
}

/// What reading a port returns: the two latch bytes, or the shift window.
/// Port 1 reads with its constant lines forced: bit 3 one, bit 7 zero.
pub open spec fn machine_input(m: MachineModel, port: u8) -> u8 {
    if port == 1 {
        ((m.port % 256) as u8 | 8) & 0x7F
    } else if port == 2 {
        ((m.port as int) / 256) as u8
    } else {
        (((m.shift1 * 256 + m.shift0) / pow2(8 - m.shift_offset)) % 256) as u8
    }
}

/// What writing a port does: 2 sets the shift offset, 4 shifts a byte in,
/// 3, 5 and 6 are discarded.
pub open spec fn machine_output(m: MachineModel, port: u8, value: u8) -> MachineModel {
    if port == 2 {
        MachineModel { shift_offset: (value % 8) as u8, ..m }
    } else if port == 4 {
        MachineModel { shift0: m.shift1, shift1: value, ..m }
    } else {
        m
    }
}

impl SpaceInvadersMachine {
    /// The shift offset only ever holds its low three bits.
    #[verifier::type_invariant]
    spec fn inv(&self) -> bool {
        self.shift_offset < 8
    }

    /// Power-up state: everything clear, no key held.
    pub fn new() -> (m: SpaceInvadersMachine)
        ensures
            m@ == (MachineModel { shift_offset: 0, shift0: 0, shift1: 0, port: 0 }),
    {
        SpaceInvadersMachine { shift_offset: 0, shift0: 0, shift1: 0, port: 0 }
    }

    /// Hold a key: set its latch bit.
    pub fn press_key(&mut self, key: Keys)
        ensures
            final(self)@ == (MachineModel { port: old(self)@.port | key_mask(key), ..old(self)@ }),
    {
        proof {
            use_type_invariant(&*self);
        }
        self.port = self.port | mask_for_key(key);
    }

    /// Release a key: clear its latch bit.
    pub fn release_key(&mut self, key: Keys)
        ensures
            final(self)@ == (MachineModel { port: old(self)@.port & !key_mask(key), ..old(self)@ }),
    {
        proof {
            use_type_invariant(&*self);
        }
        self.port = self.port & !mask_for_key(key);
    }

    /// Read a port.
    pub fn read_port(&self, port: u8) -> (r: u8)
        requires
            port == 1 || port == 2 || port == 3,
        ensures
            r == machine_input(self@, port),
    {
        proof {
            use_type_invariant(self);
        }
        if port == 1 {
            ((self.port % 256) as u8 | 8) & 0x7F
        } else if port == 2 {
            (self.port / 256) as u8
        } else {
            let reg: u16 = (self.shift1 as u16) * 256 + (self.shift0 as u16);
            let divisor: u16 = match self.shift_offset {
                0 => 256,
                1 => 128,
                2 => 64,
                3 => 32,
                4 => 16,
                5 => 8,
                6 => 4,
                _ => 2,
            };
            proof {
                reveal_with_fuel(pow2, 9);
                assert(divisor == pow2(8 - self@.shift_offset));
            }
            ((reg / divisor) % 256) as u8
        }
    }

    /// Write a port.
    pub fn write_port(&mut self, port: u8, value: u8)
        requires
            2 <= port <= 6,
        ensures
            final(self)@ == machine_output(old(self)@, port, value),
    {
        proof {
            use_type_invariant(&*self);
        }
        if port == 2 {
            self.shift_offset = value % 8;
        } else if port == 4 {
            self.shift0 = self.shift1;
            self.shift1 = value;
        }
    }
}

impl IO for SpaceInvadersMachine {
    open spec fn input_allowed(&self, port: u8) -> bool {
        port == 1 || port == 2 || port == 3
    }

    open spec fn output_allowed(&self, port: u8) -> bool {
        2 <= port <= 6
    }

    open spec fn spec_input(&self, port: u8) -> u8 {
        machine_input(self@, port)
    }

    closed spec fn spec_output(&self, port: u8, value: u8) -> SpaceInvadersMachine {
        SpaceInvadersMachine {
            shift_offset: if port == 2 { (value % 8) as u8 } else { self.shift_offset },
            shift0: if port == 4 { self.shift1 } else { self.shift0 },
            shift1: if port == 4 { value } else { self.shift1 },
            port: self.port,
        }
    }

    fn input(&self, port: u8) -> (r: u8) {
        self.read_port(port)
    }

    fn output(&mut self, port: u8, value: u8) {
        self.write_port(port, value);
        proof {
            assert(*self =~= old(self).spec_output(port, value));
        }
    }
}

} // verus!
