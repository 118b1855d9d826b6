use vstd::prelude::*;

verus! {

/// Which buttons of the joypad are held down.
#[derive(Clone, Copy, Debug)]
pub struct JoypadState {
    pub start: bool,
    pub select: bool,
    pub b: bool,
    pub a: bool,
    pub down: bool,
    pub up: bool,
    pub left: bool,
    pub right: bool,
}

/// The joypad register (P1, 0xFF00) and the buttons that are held down.
pub struct Joypad {
    register: u8,
    pub start: bool,
    pub select: bool,
    pub b: bool,
    pub a: bool,
    pub down: bool,
    pub up: bool,
    pub left: bool,
    pub right: bool,
}

pub ghost struct JoypadView {
    /// The register's select bits as last written.
    pub register: u8,
    pub buttons: JoypadState,
}

/// Four buttons read as the low nibble of P1: bit `i` is 0 when button `i` is held down.
pub open spec fn button_nibble(b0: bool, b1: bool, b2: bool, b3: bool) -> u8 {
    ((if b0 { 0int } else { 1 }) + (if b1 { 0int } else { 2 }) + (if b2 { 0int } else { 4 }) + (
    if b3 {
        0int
    } else {
        8
    })) as u8
}

impl JoypadView {
    /// Bit 4 of P1 is 0 when the direction keys are selected.
    pub open spec fn directions_selected(self) -> bool {
        (self.register >> 4) & 1 == 0
    }

    /// Bit 5 of P1 is 0 when the action buttons are selected.
    pub open spec fn actions_selected(self) -> bool {
        (self.register >> 5) & 1 == 0
    }

    /// The value read from P1: the action buttons when they are selected, else the direction
    /// keys when they are selected, else 0.
    pub open spec fn read_spec(self) -> u8 {
        if self.actions_selected() {
            button_nibble(self.buttons.a, self.buttons.b, self.buttons.select, self.buttons.start)
        } else if self.directions_selected() {
            button_nibble(self.buttons.right, self.buttons.left, self.buttons.up, self.buttons.down)
        } else {
            0
        }
    }

    /// A write keeps the low nibble of the register and takes the high nibble from `value`.
    pub open spec fn write_spec(self, value: u8) -> JoypadView {
        JoypadView { register: (value & 0xF0) | (self.register & 0x0F), ..self }
    }
}

impl View for Joypad {
    type V = JoypadView;

    closed spec fn view(&self) -> JoypadView {
        JoypadView {
            register: self.register,
            buttons: JoypadState {
                start: self.start,
                select: self.select,
                b: self.b,
                a: self.a,
                down: self.down,
                up: self.up,
                left: self.left,
                right: self.right,
            },
        }
    }
}

proof fn lemma_button_bits(v: u8, p0: bool, p1: bool, p2: bool, p3: bool)
    by (bit_vector)
    requires
        v & 0xF0 == 0,
    ensures
        ({
            let v0: u8 = if p0 { v & !1u8 } else { v | 1u8 };
            let v1: u8 = if p1 { v0 & !(1u8 << 1u8) } else { v0 | (1u8 << 1u8) };
            let v2: u8 = if p2 { v1 & !(1u8 << 2u8) } else { v1 | (1u8 << 2u8) };
            let v3: u8 = if p3 { v2 & !(1u8 << 3u8) } else { v2 | (1u8 << 3u8) };
            v3 == (if p0 { 0u8 } else { 1u8 }) + (if p1 { 0u8 } else { 2u8 }) + (if p2 { 0u8 } else { 4u8 }) + (if p3 { 0u8 } else { 8u8 })
        }),
{
}

proof fn lemma_nibble_bits(b0: bool, b1: bool, b2: bool, b3: bool)
    by (bit_vector)
    ensures
        ({
            let v: u8 = ((if b0 { 0u8 } else { 1u8 }) + (if b1 { 0u8 } else { 2u8 }) + (if b2 {
                0u8
            } else {
                4u8
            }) + (if b3 { 0u8 } else { 8u8 })) as u8;
            &&& (v & 1 == 0) == b0
            &&& (v & 2 == 0) == b1
            &&& (v & 4 == 0) == b2
            &&& (v & 8 == 0) == b3
        }),
{
}

/// With the direction keys selected alone (P1 bit 4 clear, bit 5 set), bit 0 of P1 reads 0
/// exactly when Right is held, bit 1 when Left is, bit 2 when Up is and bit 3 when Down is.
/// With the action buttons selected (bit 5 clear), bit 0 reads 0 exactly when A is held, bit 1
/// when B is, bit 2 when Select is and bit 3 when Start is.
pub proof fn lemma_read_buttons(joypad: JoypadView)
    ensures
        joypad.directions_selected() && !joypad.actions_selected() ==> {
            let value = joypad.read_spec();
            &&& (value & 1 == 0) == joypad.buttons.right
            &&& (value & 2 == 0) == joypad.buttons.left
            &&& (value & 4 == 0) == joypad.buttons.up
            &&& (value & 8 == 0) == joypad.buttons.down
        },
        joypad.actions_selected() ==> {
            let value = joypad.read_spec();
            &&& (value & 1 == 0) == joypad.buttons.a
            &&& (value & 2 == 0) == joypad.buttons.b
            &&& (value & 4 == 0) == joypad.buttons.select
            &&& (value & 8 == 0) == joypad.buttons.start
        },
{
    let b = joypad.buttons;
    lemma_nibble_bits(b.right, b.left, b.up, b.down);
    lemma_nibble_bits(b.a, b.b, b.select, b.start);
}

/// P1 reads only its low nibble: the upper bits are always 0.
pub proof fn lemma_read_low_nibble(joypad: JoypadView)
    ensures
        joypad.read_spec() < 16,
{
}

/// A write selects the button groups from bits 4 and 5 of the value.
pub proof fn lemma_write_selects(joypad: JoypadView, value: u8)
    ensures
        joypad.write_spec(value).directions_selected() == ((value >> 4u8) & 1 == 0),
        joypad.write_spec(value).actions_selected() == ((value >> 5u8) & 1 == 0),
{
    let r = joypad.register;
    assert((((value & 0xF0) | (r & 0x0F)) >> 4u8) & 1 == (value >> 4u8) & 1) by (bit_vector);
    assert((((value & 0xF0) | (r & 0x0F)) >> 5u8) & 1 == (value >> 5u8) & 1) by (bit_vector);
}

impl Joypad {
    /// The buttons as the joypad holds them.
    pub open spec fn buttons(self) -> JoypadState {
        self@.buttons
    }

    pub fn new() -> (joypad: Self)
        ensures
            joypad@.register == 0,
            joypad@.buttons == (JoypadState {
                start: false,
                select: false,
                b: false,
                a: false,
                down: false,
                up: false,
                left: false,
                right: false,
            }),
    {
        Self {
            register: 0,
            start: false,
            select: false,
            b: false,
            a: false,
            down: false,
            up: false,
            left: false,
            right: false,
        }
    }

    /// Records which buttons are held down.
    pub(crate) fn set_state(&mut self, state: JoypadState)
        ensures
            final(self)@ == (JoypadView { buttons: state, ..old(self)@ }),
    {
        self.start = state.start;
        self.select = state.select;
        self.b = state.b;
        self.a = state.a;
        self.down = state.down;
        self.up = state.up;
        self.left = state.left;
        self.right = state.right;
    }

    pub fn cycle(&mut self)
        ensures
            *final(self) == *old(self),
    {
    }

    pub fn read(&self) -> (value: u8)
        ensures
            value == self@.read_spec(),
    {
        let mut value: u8 = 0;
        assert(0u8 & 0xF0 == 0) by (bit_vector);

        if (self.register >> 4) & 1 == 0 {
            proof { lemma_button_bits(value, self.right, self.left, self.up, self.down); }
            if self.right {
                value &= !(1);
            } else {
                value |= 1;
            }

            if self.left {
                value &= !(1 << 1);
            } else {
                value |= 1 << 1;
            }

            if self.up {
                value &= !(1 << 2);
            } else {
                value |= 1 << 2;
            }

            if self.down {
                value &= !(1 << 3);
            } else {
                value |= 1 << 3;
            }
        }

        let ghost before = value;
        assert(before < 16);
        assert(before < 16 ==> before & 0xF0 == 0) by (bit_vector);

        if (self.register >> 5) & 1 == 0 {
            proof { lemma_button_bits(value, self.a, self.b, self.select, self.start); }
            if self.a {
                value &= !(1);
            } else {
                value |= 1;
            }

            if self.b {
                value &= !(1 << 1);
            } else {
                value |= 1 << 1;
            }

            if self.select {
                value &= !(1 << 2);
            } else {
                value |= 1 << 2;
            }

            if self.start {
                value &= !(1 << 3);
            } else {
                value |= 1 << 3;
            }
        }

        value
    }

    pub fn write(&mut self, value: u8)
        ensures
            final(self)@ == old(self)@.write_spec(value),
    {
        self.register = (value & 0xF0) | (self.register & 0xF);
    }
}

} // verus!
