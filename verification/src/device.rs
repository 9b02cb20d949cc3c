//! The two devices that shadow zero-page cells: a terminal that hands out
//! input bytes, and a pseudo-random number generator.

use vstd::prelude::*;
use std::collections::VecDeque;
use std::time::Duration;
use std::time::SystemTimeError;
use crate::memory::Memory;

verus! {

/// A device on the bus that can be built without arguments and can name itself.
pub trait Device: Memory + Sized {
    /// A fresh device.
    fn new() -> Self;

    /// The device's name.
    fn name() -> String;

    /// The device's condition.
    fn status() -> String;
}

/// What a terminal is, mathematically: the input that has not been read yet,
/// and whether the latest read of the data cell found a byte.
pub struct TerminalState {
    pub pending: Seq<u8>,
    pub answered: bool,
}

impl TerminalState {
    /// A terminal with no input waiting, before any read.
    pub open spec fn idle() -> TerminalState {
        TerminalState { pending: Seq::empty(), answered: false }
    }

    /// The byte a read of cell `address` returns. Cell 0 is the data cell:
    /// the next input byte, or 0 at end of input. Cell 1 is the count cell:
    /// the number of bytes, 1 or 0, that the latest read of the data cell
    /// found. Every other cell reads 0.
    pub open spec fn read_value(self, address: u16) -> u8 {
        if address == 0 {
            if self.pending.len() > 0 {
                self.pending[0]
            } else {
                0
            }
        } else if address == 1 {
            if self.answered {
                1
            } else {
                0
            }
        } else {
            0
        }
    }

    /// The terminal after a read of cell `address`: a read of the data cell
    /// consumes the byte it returned and records whether there was one.
    pub open spec fn after_read(self, address: u16) -> TerminalState {
        if address == 0 {
            if self.pending.len() > 0 {
                TerminalState {
                    pending: self.pending.subrange(1, self.pending.len() as int),
                    answered: true,
                }
            } else {
                TerminalState { pending: self.pending, answered: false }
            }
        } else {
            self
        }
    }
}

/// The terminal device. The host queues input bytes with [`Terminal::feed`];
/// the program takes them one at a time from the data cell. An empty queue
/// is the end of input.
pub struct Terminal {
    answered: bool,
    input: VecDeque<u8>,
}

impl View for Terminal {
    type V = TerminalState;

    closed spec fn view(&self) -> TerminalState {
        TerminalState { pending: self.input@, answered: self.answered }
    }
}

impl Terminal {
    /// Queues one more input byte behind those already waiting.
    pub fn feed(&mut self, byte: u8)
        ensures
            final(self)@.pending == old(self)@.pending.push(byte),
            final(self)@.answered == old(self)@.answered,
    {
        self.input.push_back(byte);
    }

    /// The number of input bytes waiting.
    pub fn pending(&self) -> (n: usize)
        ensures
            n == self@.pending.len(),
    {
        self.input.len()
    }
}

impl Memory for Terminal {
    fn get(&mut self, address: u16) -> (value: u8)
        ensures
            value == old(self)@.read_value(address),
            final(self)@ == old(self)@.after_read(address),
    {
        if address == 0 {
            match self.input.pop_front() {
                Some(byte) => {
                    self.answered = true;
                    byte
                },
                None => {
                    self.answered = false;
                    0
                },
            }
        } else if address == 1 {
            if self.answered {
                1
            } else {
                0
            }
        } else {
            0
        }
    }

    fn set(&mut self, address: u16, value: u8)
        ensures
            final(self)@ == old(self)@,
    {
    }
}

impl Device for Terminal {
    fn new() -> (terminal: Terminal)
        ensures
            terminal@ == TerminalState::idle(),
    {
        Terminal { answered: false, input: VecDeque::new() }
    }

    fn name() -> (name: String)
        ensures
            name@ == "Terminal"@,
    {
        "Terminal".to_owned()
    }

    fn status() -> (status: String)
        ensures
            status@ == "Normal"@,
    {
        "Normal".to_owned()
    }
}

/// The four words of an xorshift128 generator.
pub struct Xorshift {
    pub x: u32,
    pub y: u32,
    pub z: u32,
    pub w: u32,
}

impl Xorshift {
    /// The generator that `seed` starts.
    pub open spec fn seeded(seed: u32) -> Xorshift {
        Xorshift { x: 123456789u32 ^ seed, y: 362436069u32 ^ seed, z: 521288629, w: 88675123 }
    }

    /// The next number the generator gives.
    pub open spec fn output(self) -> u32 {
        let t = self.x ^ (self.x << 11u32);
        self.w ^ ((self.w >> 19u32) ^ t ^ (t >> 8u32))
    }

    /// The generator after it has given its next number.
    pub open spec fn advance(self) -> Xorshift {
        Xorshift { x: self.y, y: self.z, z: self.w, w: self.output() }
    }
}

/// The pseudo-random number generator device.
#[derive(Clone, Copy, Debug)]
pub struct Rand {
    w: u32,
    x: u32,
    y: u32,
    z: u32,
}

impl View for Rand {
    type V = Xorshift;

    closed spec fn view(&self) -> Xorshift {
        Xorshift { x: self.x, y: self.y, z: self.z, w: self.w }
    }
}

impl Rand {
    /// Gives the next number and steps the generator.
    pub fn rand(&mut self) -> (r: u32)
        ensures
            r == old(self)@.output(),
            final(self)@ == old(self)@.advance(),
    {
        let t = self.x ^ (self.x << 11u32);
        self.x = self.y;
        self.y = self.z;
        self.z = self.w;
        self.w = self.w ^ ((self.w >> 19u32) ^ t ^ (t >> 8u32));
        self.w
    }

    /// The generator that `seed` starts.
    pub fn from_seed(seed: u32) -> (rand: Rand)
        ensures
            rand@ == Xorshift::seeded(seed),
    {
        Rand { x: 123456789u32 ^ seed, y: 362436069u32 ^ seed, z: 521288629, w: 88675123 }
    }
}

#[verifier::external_type_specification]
#[verifier::external_body]
pub struct ExSystemTimeError(SystemTimeError);

/// `std::time::SystemTime::elapsed`, called on `std::time::UNIX_EPOCH`: the
/// time that has passed since the epoch by the system clock, or an error when
/// the clock reads earlier than the epoch. Nothing is claimed of the value.
#[verifier::external_body]
fn time_since_epoch() -> (elapsed: Result<Duration, SystemTimeError>) {
    std::time::UNIX_EPOCH.elapsed()
}

/// `Duration::as_millis`: the whole milliseconds in a duration. Nothing is
/// claimed of the value.
pub assume_specification[ Duration::as_millis ](duration: &Duration) -> (millis: u128);

impl Device for Rand {
    /// A generator seeded with the low 32 bits of the milliseconds since the
    /// epoch. A clock that reads earlier than the epoch counts as the epoch.
    fn new() -> (rand: Rand)
        ensures
            exists|seed: u32| rand@ == Xorshift::seeded(seed),
    {
        let seed: u32 = match time_since_epoch() {
            Ok(elapsed) => {
                let millis: u128 = elapsed.as_millis();
                #[verifier::truncate]
                (millis as u32)
            },
            Err(_) => 0,
        };
        Rand::from_seed(seed)
    }

    fn name() -> (name: String)
        ensures
            name@ == "Random Number Generator"@,
    {
        "Random Number Generator".to_owned()
    }

    fn status() -> (status: String)
        ensures
            status@ == "Normal"@,
    {
        "Normal".to_owned()
    }
}

impl Memory for Rand {
    fn get(&mut self, address: u16) -> (value: u8)
        ensures
            value == old(self)@.output() as u8,
            final(self)@ == old(self)@.advance(),
    {
        #[verifier::truncate]
        (self.rand() as u8)
    }

    fn set(&mut self, address: u16, value: u8)
        ensures
            final(self)@ == old(self)@,
    {
    }
}

} // verus!
