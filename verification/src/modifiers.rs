//! Modifier keys of a terminal event.

use vstd::prelude::*;

use crossterm::event::KeyModifiers as TerminalModifiers;

verus! {

/// A modifier key that the terminal can report.
#[derive(Clone, Copy, PartialEq, Eq, Debug, Structural)]
pub enum Modifier {
    /// Shift key.
    Shift,
    /// Control key.
    Control,
    /// Alt key.
    Alt,
    /// Super key.
    Super,
    /// Hyper key.
    Hyper,
    /// Meta key.
    Meta,
}

impl Modifier {
    /// The bit that stands for the modifier.
    pub open spec fn bit(self) -> u8 {
        match self {
            Modifier::Shift => 0b0000_0001,
            Modifier::Control => 0b0000_0010,
            Modifier::Alt => 0b0000_0100,
            Modifier::Super => 0b0000_1000,
            Modifier::Hyper => 0b0001_0000,
            Modifier::Meta => 0b0010_0000,
        }
    }
}

/// The set of modifiers held during an event, as the bits that the terminal library uses.
#[derive(Clone, Copy, PartialEq, Eq, Debug, Structural)]
pub struct KeyModifiers {
    /// One bit for each modifier.
    pub bits: u8,
}

impl KeyModifiers {
    /// Whether the modifier is in the set.
    pub open spec fn holds(self, modifier: Modifier) -> bool {
        self.bits & modifier.bit() == modifier.bit()
    }

    /// Tests whether the modifier is in the set.
    pub fn contains(&self, modifier: Modifier) -> (held: bool)
        ensures
            held == self.holds(modifier),
    {
        bits_contain(self.bits, modifier)
    }
}

/// Calls `contains` of crossterm's `KeyModifiers`, a set of bit flags.
///
/// Trusted: the flags have the bits that `Modifier::bit` gives, and a set contains a flag exactly
/// when it has all of the flag's bits.
#[verifier::external_body]
fn bits_contain(bits: u8, modifier: Modifier) -> (held: bool)
    ensures
        held == (bits & modifier.bit() == modifier.bit()),
{
    TerminalModifiers::from_bits_retain(bits).contains(match modifier {
        Modifier::Shift => TerminalModifiers::SHIFT,
        Modifier::Control => TerminalModifiers::CONTROL,
        Modifier::Alt => TerminalModifiers::ALT,
        Modifier::Super => TerminalModifiers::SUPER,
        Modifier::Hyper => TerminalModifiers::HYPER,
        Modifier::Meta => TerminalModifiers::META,
    })
}

/// Each modifier has a bit of its own, which tells whether it is held.
pub proof fn bits_tell_the_modifiers(mods: KeyModifiers)
    ensures
        mods.holds(Modifier::Shift) <==> mods.bits & 1 == 1,
        mods.holds(Modifier::Control) <==> mods.bits & 2 == 2,
        mods.holds(Modifier::Alt) <==> mods.bits & 4 == 4,
        mods.holds(Modifier::Super) <==> mods.bits & 8 == 8,
        mods.holds(Modifier::Hyper) <==> mods.bits & 16 == 16,
        mods.holds(Modifier::Meta) <==> mods.bits & 32 == 32,
{
}

/// Whether one modifier is held says nothing of another: adding one to a set makes it, and no other
/// modifier, held.
pub proof fn modifiers_are_independent(mods: KeyModifiers, added: Modifier, other: Modifier)
    ensures
        ({
            let more = KeyModifiers { bits: mods.bits | added.bit() };
            &&& more.holds(added)
            &&& other != added ==> more.holds(other) == mods.holds(other)
        }),
{
    let (b, x, y) = (mods.bits, added.bit(), other.bit());
    assert((b | x) & x == x) by (bit_vector);
    assert(x & y == 0 ==> (b | x) & y == b & y) by (bit_vector);
    if other != added {
        assert(1u8 & 2 == 0 && 1u8 & 4 == 0 && 1u8 & 8 == 0 && 1u8 & 16 == 0 && 1u8 & 32 == 0)
            by (bit_vector);
        assert(2u8 & 1 == 0 && 2u8 & 4 == 0 && 2u8 & 8 == 0 && 2u8 & 16 == 0 && 2u8 & 32 == 0)
            by (bit_vector);
        assert(4u8 & 1 == 0 && 4u8 & 2 == 0 && 4u8 & 8 == 0 && 4u8 & 16 == 0 && 4u8 & 32 == 0)
            by (bit_vector);
        assert(8u8 & 1 == 0 && 8u8 & 2 == 0 && 8u8 & 4 == 0 && 8u8 & 16 == 0 && 8u8 & 32 == 0)
            by (bit_vector);
        assert(16u8 & 1 == 0 && 16u8 & 2 == 0 && 16u8 & 4 == 0 && 16u8 & 8 == 0 && 16u8 & 32 == 0)
            by (bit_vector);
        assert(32u8 & 1 == 0 && 32u8 & 2 == 0 && 32u8 & 4 == 0 && 32u8 & 8 == 0 && 32u8 & 16 == 0)
            by (bit_vector);
    }
}

} // verus!
