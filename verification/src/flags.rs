//! Sets of mouse buttons and of key modifiers, kept as one bit per member.
use vstd::prelude::*;

verus! {

/// A button of the mouse.
#[derive(Clone, Copy, Debug, PartialEq, Eq, Structural)]
pub enum MouseButton {
    Left,
    Right,
    Middle,
    X1,
    X2,
}

impl MouseButton {
    /// The bit that stands for this button in [`MouseButtons`].
    pub open spec fn spec_index(self) -> u8 {
        match self {
            MouseButton::Left => 0,
            MouseButton::Right => 1,
            MouseButton::Middle => 2,
            MouseButton::X1 => 3,
            MouseButton::X2 => 4,
        }
    }

    /// The bit that stands for this button in [`MouseButtons`].
    pub fn index(self) -> (res: u8)
        ensures
            res == self.spec_index(),
            res < 5,
    {
        match self {
            MouseButton::Left => 0,
            MouseButton::Right => 1,
            MouseButton::Middle => 2,
            MouseButton::X1 => 3,
            MouseButton::X2 => 4,
        }
    }
}

/// The mouse buttons that are held down.
#[derive(Clone, Copy, Debug, PartialEq, Eq, Structural)]
pub struct MouseButtons {
    pub bits: u8,
}

impl MouseButtons {
    /// Whether `button` is a member of the set.
    pub open spec fn has(self, button: MouseButton) -> bool {
        self.bits & (1u8 << button.spec_index()) != 0
    }

    /// The set with no button in it.
    pub fn empty() -> (res: MouseButtons)
        ensures
            res.bits == 0,
            forall|b: MouseButton| !#[trigger] res.has(b),
    {
        let res = MouseButtons { bits: 0 };
        assert forall|b: MouseButton| !#[trigger] res.has(b) by {
            lemma_zero_u8(b.spec_index());
        }
        res
    }

    /// The set as a bit mask.
    pub fn bits(self) -> (res: u8)
        ensures
            res == self.bits,
    {
        self.bits
    }

    /// Whether no bit of the set is on.
    pub fn is_empty(self) -> (res: bool)
        ensures
            res == (self.bits == 0),
            res ==> forall|b: MouseButton| !#[trigger] self.has(b),
    {
        proof {
            if self.bits == 0 {
                assert forall|b: MouseButton| !#[trigger] self.has(b) by {
                    lemma_zero_u8(b.spec_index());
                }
            }
        }
        self.bits == 0
    }

    /// Whether `button` is a member of the set.
    pub fn contains(self, button: MouseButton) -> (res: bool)
        ensures
            res == self.has(button),
    {
        self.bits & (1u8 << button.index()) != 0
    }

    /// The set with `button` added.
    pub fn with(self, button: MouseButton) -> (res: MouseButtons)
        ensures
            res.bits == self.bits | (1u8 << button.spec_index()),
            forall|b: MouseButton| #[trigger] res.has(b) == (b == button || self.has(b)),
    {
        let res = MouseButtons { bits: self.bits | (1u8 << button.index()) };
        assert forall|b: MouseButton| #[trigger] res.has(b) == (b == button || self.has(b)) by {
            lemma_with_u8(self.bits, button.spec_index(), b.spec_index());
        }
        res
    }

    /// The set with `button` taken out.
    pub fn without(self, button: MouseButton) -> (res: MouseButtons)
        ensures
            res.bits == self.bits & !(1u8 << button.spec_index()),
            forall|b: MouseButton| #[trigger] res.has(b) == (b != button && self.has(b)),
    {
        let res = MouseButtons { bits: self.bits & !(1u8 << button.index()) };
        assert forall|b: MouseButton| #[trigger] res.has(b) == (b != button && self.has(b)) by {
            lemma_without_u8(self.bits, button.spec_index(), b.spec_index());
        }
        res
    }
}

/// A modifier or lock key, with the side of the keyboard where it matters.
#[derive(Clone, Copy, Debug, PartialEq, Eq, Structural)]
pub enum KeyModifier {
    Shift,
    ShiftLeft,
    ShiftRight,
    Control,
    ControlLeft,
    ControlRight,
    Alt,
    AltLeft,
    AltRight,
    WinLeft,
    WinRight,
    CapsLock,
    NumLock,
    ScrollLock,
}

impl KeyModifier {
    /// The bit that stands for this modifier in [`KeyModifiers`].
    pub open spec fn spec_index(self) -> u32 {
        match self {
            KeyModifier::Shift => 0,
            KeyModifier::ShiftLeft => 1,
            KeyModifier::ShiftRight => 2,
            KeyModifier::Control => 3,
            KeyModifier::ControlLeft => 4,
            KeyModifier::ControlRight => 5,
            KeyModifier::Alt => 6,
            KeyModifier::AltLeft => 7,
            KeyModifier::AltRight => 8,
            KeyModifier::WinLeft => 9,
            KeyModifier::WinRight => 10,
            KeyModifier::CapsLock => 11,
            KeyModifier::NumLock => 12,
            KeyModifier::ScrollLock => 13,
        }
    }

    /// The bit that stands for this modifier in [`KeyModifiers`].
    pub fn index(self) -> (res: u32)
        ensures
            res == self.spec_index(),
            res < 14,
    {
        match self {
            KeyModifier::Shift => 0,
            KeyModifier::ShiftLeft => 1,
            KeyModifier::ShiftRight => 2,
            KeyModifier::Control => 3,
            KeyModifier::ControlLeft => 4,
            KeyModifier::ControlRight => 5,
            KeyModifier::Alt => 6,
            KeyModifier::AltLeft => 7,
            KeyModifier::AltRight => 8,
            KeyModifier::WinLeft => 9,
            KeyModifier::WinRight => 10,
            KeyModifier::CapsLock => 11,
            KeyModifier::NumLock => 12,
            KeyModifier::ScrollLock => 13,
        }
    }
}

/// The modifiers that are on.
#[derive(Clone, Copy, Debug, PartialEq, Eq, Structural)]
pub struct KeyModifiers {
    pub bits: u32,
}

impl KeyModifiers {
    /// Whether `modifier` is a member of the set.
    pub open spec fn has(self, modifier: KeyModifier) -> bool {
        self.bits & (1u32 << modifier.spec_index()) != 0
    }

    /// The set after `modifier` was switched on or off.
    pub open spec fn updated(self, modifier: KeyModifier, on: bool) -> KeyModifiers {
        if on {
            KeyModifiers { bits: self.bits | (1u32 << modifier.spec_index()) }
        } else {
            KeyModifiers { bits: self.bits & !(1u32 << modifier.spec_index()) }
        }
    }

    /// The set with no modifier in it.
    pub fn empty() -> (res: KeyModifiers)
        ensures
            res.bits == 0,
            forall|m: KeyModifier| !#[trigger] res.has(m),
    {
        let res = KeyModifiers { bits: 0 };
        assert forall|m: KeyModifier| !#[trigger] res.has(m) by {
            lemma_zero_u32(m.spec_index());
        }
        res
    }

    /// The set as a bit mask.
    pub fn bits(self) -> (res: u32)
        ensures
            res == self.bits,
    {
        self.bits
    }

    /// Whether `modifier` is a member of the set.
    pub fn contains(self, modifier: KeyModifier) -> (res: bool)
        ensures
            res == self.has(modifier),
    {
        self.bits & (1u32 << modifier.index()) != 0
    }

    /// Adds `modifier` to the set when `on`, takes it out when not.
    pub fn set(&mut self, modifier: KeyModifier, on: bool)
        ensures
            *final(self) == old(self).updated(modifier, on),
            forall|m: KeyModifier| #[trigger]
                final(self).has(m) == (if m == modifier {
                    on
                } else {
                    old(self).has(m)
                }),
    {
        proof {
            lemma_updated(*self, modifier, on);
        }
        if on {
            self.bits = self.bits | (1u32 << modifier.index());
        } else {
            self.bits = self.bits & !(1u32 << modifier.index());
        }
    }
}

impl Default for KeyModifiers {
    fn default() -> (res: KeyModifiers)
        ensures
            res.bits == 0,
    {
        KeyModifiers::empty()
    }
}

/// Switching one modifier changes that modifier and no other.
pub proof fn lemma_updated(set: KeyModifiers, modifier: KeyModifier, on: bool)
    ensures
        forall|m: KeyModifier| #[trigger]
            set.updated(modifier, on).has(m) == (if m == modifier {
                on
            } else {
                set.has(m)
            }),
{
    assert forall|m: KeyModifier| #[trigger]
        set.updated(modifier, on).has(m) == (if m == modifier {
            on
        } else {
            set.has(m)
        }) by {
        lemma_with_u32(set.bits, modifier.spec_index(), m.spec_index());
        lemma_without_u32(set.bits, modifier.spec_index(), m.spec_index());
    }
}

proof fn lemma_zero_u8(j: u8)
    by (bit_vector)
    ensures
        0u8 & (1u8 << j) == 0,
{
}

proof fn lemma_with_u8(x: u8, i: u8, j: u8)
    by (bit_vector)
    requires
        i < 8,
        j < 8,
    ensures
        ((x | (1u8 << i)) & (1u8 << j) != 0) == (i == j || x & (1u8 << j) != 0),
{
}

proof fn lemma_without_u8(x: u8, i: u8, j: u8)
    by (bit_vector)
    requires
        i < 8,
        j < 8,
    ensures
        ((x & !(1u8 << i)) & (1u8 << j) != 0) == (i != j && x & (1u8 << j) != 0),
{
}

proof fn lemma_zero_u32(j: u32)
    by (bit_vector)
    ensures
        0u32 & (1u32 << j) == 0,
{
}

proof fn lemma_with_u32(x: u32, i: u32, j: u32)
    by (bit_vector)
    requires
        i < 32,
        j < 32,
    ensures
        ((x | (1u32 << i)) & (1u32 << j) != 0) == (i == j || x & (1u32 << j) != 0),
{
}

proof fn lemma_without_u32(x: u32, i: u32, j: u32)
    by (bit_vector)
    requires
        i < 32,
        j < 32,
    ensures
        ((x & !(1u32 << i)) & (1u32 << j) != 0) == (i != j && x & (1u32 << j) != 0),
{
}

/// What setting or clearing the bit of a button does to the set of held buttons. Clearing a bit
/// that was just set gives back a set that did not have it.
pub proof fn lemma_held_buttons(set: MouseButtons, button: MouseButton, other: MouseButton)
    ensures
        (MouseButtons { bits: set.bits | (1u8 << button.spec_index()) }).has(other) == (other
            == button || set.has(other)),
        (MouseButtons { bits: set.bits & !(1u8 << button.spec_index()) }).has(other) == (other
            != button && set.has(other)),
        !set.has(button) ==> (set.bits | (1u8 << button.spec_index())) & !(1u8
            << button.spec_index()) == set.bits,
{
    lemma_with_u8(set.bits, button.spec_index(), other.spec_index());
    lemma_without_u8(set.bits, button.spec_index(), other.spec_index());
    let bits = set.bits;
    let i = button.spec_index();
    assert(bits & (1u8 << i) == 0 ==> (bits | (1u8 << i)) & !(1u8 << i) == bits) by (bit_vector);
}

/// Each button has a bit of its own: the left one the lowest, then the right, the middle and the
/// two extra ones. Adding a button sets its bit, taking it out clears its bit, and no other bit
/// changes.
pub proof fn buttons_have_their_bits(
    set: MouseButtons,
    button: MouseButton,
    with: MouseButtons,
    without: MouseButtons,
    contains: bool,
)
    requires
        call_ensures(MouseButtons::with, (set, button), with),
        call_ensures(MouseButtons::without, (set, button), without),
        call_ensures(MouseButtons::contains, (set, button), contains),
    ensures
        ({
            let bit: u8 = match button {
                MouseButton::Left => 0x1,
                MouseButton::Right => 0x2,
                MouseButton::Middle => 0x4,
                MouseButton::X1 => 0x8,
                MouseButton::X2 => 0x10,
            };
            &&& with.bits == set.bits | bit
            &&& without.bits == set.bits & !bit
            &&& contains == (set.bits & bit != 0)
        }),
{
    lemma_button_bits();
}

pub proof fn lemma_button_bits()
    by (bit_vector)
    ensures
        1u8 << 0 == 0x1,
        1u8 << 1 == 0x2,
        1u8 << 2 == 0x4,
        1u8 << 3 == 0x8,
        1u8 << 4 == 0x10,
{
}

/// Each modifier has a bit of its own. Switching it on sets that bit, switching it off clears it,
/// and no other bit changes.
pub proof fn modifiers_have_their_bits(
    set: &mut KeyModifiers,
    modifier: KeyModifier,
    on: bool,
    contains: bool,
)
    requires
        call_ensures(KeyModifiers::set, (set, modifier, on), ()),
        call_ensures(KeyModifiers::contains, (*old(set), modifier), contains),
    ensures
        ({
            let bit: u32 = match modifier {
                KeyModifier::Shift => 0x1,
                KeyModifier::ShiftLeft => 0x2,
                KeyModifier::ShiftRight => 0x4,
                KeyModifier::Control => 0x8,
                KeyModifier::ControlLeft => 0x10,
                KeyModifier::ControlRight => 0x20,
                KeyModifier::Alt => 0x40,
                KeyModifier::AltLeft => 0x80,
                KeyModifier::AltRight => 0x100,
                KeyModifier::WinLeft => 0x200,
                KeyModifier::WinRight => 0x400,
                KeyModifier::CapsLock => 0x800,
                KeyModifier::NumLock => 0x1000,
                KeyModifier::ScrollLock => 0x2000,
            };
            &&& final(set).bits == if on {
                old(set).bits | bit
            } else {
                old(set).bits & !bit
            }
            &&& contains == (old(set).bits & bit != 0)
        }),
{
    lemma_modifier_bits();
}

pub proof fn lemma_modifier_bits()
    by (bit_vector)
    ensures
        1u32 << 0 == 0x1,
        1u32 << 1 == 0x2,
        1u32 << 2 == 0x4,
        1u32 << 3 == 0x8,
        1u32 << 4 == 0x10,
        1u32 << 5 == 0x20,
        1u32 << 6 == 0x40,
        1u32 << 7 == 0x80,
        1u32 << 8 == 0x100,
        1u32 << 9 == 0x200,
        1u32 << 10 == 0x400,
        1u32 << 11 == 0x800,
        1u32 << 12 == 0x1000,
        1u32 << 13 == 0x2000,
{
}

/// The empty set of buttons has no bit, a set is told by its bits, and it is empty exactly if it has
/// none. The buttons are counted from the left one: left, right, middle, and the two extra ones.
pub proof fn buttons_are_counted(
    none: MouseButtons,
    set: MouseButtons,
    bits: u8,
    is_empty: bool,
    button: MouseButton,
    index: u8,
)
    requires
        call_ensures(MouseButtons::empty, (), none),
        call_ensures(MouseButtons::bits, (set,), bits),
        call_ensures(MouseButtons::is_empty, (set,), is_empty),
        call_ensures(MouseButton::index, (button,), index),
    ensures
        none.bits == 0,
        bits == set.bits,
        is_empty <==> bits == 0,
        index == 0 <==> button is Left,
        index == 1 <==> button is Right,
        index == 2 <==> button is Middle,
        index == 3 <==> button is X1,
        index == 4 <==> button is X2,
{
}

/// The empty set of modifiers has no bit, and a set is told by its bits. For shift, control and alt
/// the two sides come right behind the modifier itself, and the locks come last.
pub proof fn modifiers_are_counted(
    none: KeyModifiers,
    set: KeyModifiers,
    bits: u32,
    modifier: KeyModifier,
    index: u32,
)
    requires
        call_ensures(KeyModifiers::empty, (), none),
        call_ensures(KeyModifiers::bits, (set,), bits),
        call_ensures(KeyModifier::index, (modifier,), index),
    ensures
        none.bits == 0,
        bits == set.bits,
        index == 0 <==> modifier is Shift,
        index == 1 <==> modifier is ShiftLeft,
        index == 2 <==> modifier is ShiftRight,
        index == 3 <==> modifier is Control,
        index == 4 <==> modifier is ControlLeft,
        index == 5 <==> modifier is ControlRight,
        index == 6 <==> modifier is Alt,
        index == 7 <==> modifier is AltLeft,
        index == 8 <==> modifier is AltRight,
        index == 9 <==> modifier is WinLeft,
        index == 10 <==> modifier is WinRight,
        index == 11 <==> modifier is CapsLock,
        index == 12 <==> modifier is NumLock,
        index == 13 <==> modifier is ScrollLock,
{
}

} // verus!
