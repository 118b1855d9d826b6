use vstd::prelude::*;
use vstd::utf8::encode_utf8;
use crate::machine::debug::{disassembly, hex16_text, hex8_text, push_hex16, push_hex8};
use crate::control::Command;
use crate::machine::gameboy::CycleInfo;
use crate::machine::joypad::JoypadState;
use crate::machine::registers::Registers;

verus! {

/// `String::push`: appends the character at the end of the string.
#[verifier::external_body]
fn push_char(text: &mut String, c: char)
    ensures
        final(text)@ == old(text)@.push(c),
{
    text.push(c);
}

/// A character with the ASCII lowercase letters mapped to uppercase.
pub open spec fn upper_char(c: char) -> char {
    if 'a' <= c <= 'z' {
        ((c as u32) - 32) as char
    } else {
        c
    }
}

/// A text with the ASCII lowercase letters mapped to uppercase.
pub open spec fn upper_text(text: Seq<char>) -> Seq<char> {
    Seq::new(text.len(), |i: int| upper_char(text[i]))
}

fn uppercase_char(c: char) -> (upper: char)
    ensures
        upper == upper_char(c),
{
    if 'a' <= c && c <= 'z' {
        let code = c as u8;
        (code - 32) as char
    } else {
        c
    }
}

/// The text with its ASCII lowercase letters in uppercase.
pub fn uppercase(text: &str) -> (upper: String)
    ensures
        upper@ == upper_text(text@),
{
    let n = text.unicode_len();
    let mut upper = String::new();
    let mut i: usize = 0;
    while i < n
        invariant
            n == text@.len(),
            i <= n,
            upper@ == upper_text(text@.subrange(0, i as int)),
        decreases n - i,
    {
        let c = text.get_char(i);
        push_char(&mut upper, uppercase_char(c));
        assert(upper_text(text@.subrange(0, i + 1)) =~= upper_text(text@.subrange(0, i as int)).push(
            upper_char(c),
        ));
        i += 1;
    }
    assert(text@.subrange(0, n as int) =~= text@);
    upper
}

/// An ASCII decimal digit.
pub open spec fn is_digit(c: char) -> bool {
    '0' <= c <= '9'
}

/// The value of a sequence of decimal digits, most significant first.
pub open spec fn digits_value(digits: Seq<char>) -> nat
    decreases digits.len(),
{
    if digits.len() == 0 {
        0
    } else {
        digits_value(digits.drop_last()) * 10 + ((digits.last() as u32) - 48) as nat
    }
}

/// The digits of a count: the text after a leading `+`, if there is one.
pub open spec fn count_digits(text: Seq<char>) -> Seq<char> {
    if text.len() > 0 && text[0] == '+' {
        text.subrange(1, text.len() as int)
    } else {
        text
    }
}

/// The count that a text denotes: one or more decimal digits, after an optional `+`, whose
/// value fits in a `usize`; `None` for any other text.
pub open spec fn parsed_count(text: Seq<char>) -> Option<usize> {
    let digits = count_digits(text);
    if digits.len() > 0 && (forall|i: int| 0 <= i < digits.len() ==> is_digit(#[trigger] digits[i]))
        && digits_value(digits) <= usize::MAX {
        Some(digits_value(digits) as usize)
    } else {
        None
    }
}

/// A value of digits is at least the value of any of its prefixes.
proof fn lemma_digits_value_prefix(digits: Seq<char>, n: int)
    requires
        0 <= n <= digits.len(),
        forall|i: int| 0 <= i < digits.len() ==> is_digit(#[trigger] digits[i]),
    ensures
        digits_value(digits.subrange(0, n)) <= digits_value(digits),
    decreases digits.len() - n,
{
    if n < digits.len() {
        lemma_digits_value_prefix(digits, n + 1);
        let prefix = digits.subrange(0, n + 1);
        assert(prefix.drop_last() =~= digits.subrange(0, n));
        assert(is_digit(prefix.last()));
    } else {
        assert(digits.subrange(0, n) =~= digits);
    }
}

fn digit_value(c: char) -> (d: usize)
    requires
        is_digit(c),
    ensures
        d == (c as u32) - 48,
        d <= 9,
{
    ((c as u8) - 48) as usize
}

/// Ten to the power `n`.
pub open spec fn ten_to(n: nat) -> nat
    decreases n,
{
    if n == 0 {
        1
    } else {
        10 * ten_to((n - 1) as nat)
    }
}

/// Below ten to the power of the number of digits.
proof fn lemma_digits_value_bound(digits: Seq<char>)
    requires
        forall|i: int| 0 <= i < digits.len() ==> is_digit(#[trigger] digits[i]),
    ensures
        digits_value(digits) < ten_to(digits.len()),
    decreases digits.len(),
{
    if digits.len() > 0 {
        let rest = digits.drop_last();
        assert forall|i: int| 0 <= i < rest.len() implies is_digit(#[trigger] rest[i]) by {
            assert(rest[i] == digits[i]);
        }
        lemma_digits_value_bound(rest);
        assert(is_digit(digits[digits.len() - 1]));
        let p = ten_to(rest.len());
        let v = digits_value(rest);
        let d = ((digits.last() as u32) - 48) as nat;
        assert(v * 10 + d < p * 10) by (nonlinear_arith)
            requires
                v < p,
                d < 10,
        ;
    }
}

/// Ten to a power grows with the power.
proof fn lemma_ten_to_grows(m: nat, n: nat)
    requires
        m <= n,
    ensures
        ten_to(m) <= ten_to(n),
    decreases n - m,
{
    if m < n {
        lemma_ten_to_grows(m, (n - 1) as nat);
    }
}

/// A count of one to nine digits always reads as its value: the step count input holds no more.
pub proof fn lemma_short_counts_parse(text: Seq<char>)
    requires
        0 < text.len() <= 9,
        forall|i: int| 0 <= i < text.len() ==> is_digit(#[trigger] text[i]),
    ensures
        parsed_count(text) == Some(digits_value(text) as usize),
{
    assert(count_digits(text) == text);
    lemma_digits_value_bound(text);
    lemma_ten_to_grows(text.len(), 9);
    assert(ten_to(9) == 1000000000) by {
        reveal_with_fuel(ten_to, 10);
    }
}

/// Reads a count written in decimal, as `usize::from_str` does.
pub fn parse_count(text: &str) -> (count: Option<usize>)
    ensures
        count == parsed_count(text@),
{
    let n = text.unicode_len();
    let mut start: usize = 0;
    if n > 0 && text.get_char(0) == '+' {
        start = 1;
    }
    let ghost digits = count_digits(text@);
    assert(digits =~= text@.subrange(start as int, n as int));
    if start == n {
        return None;
    }
    let mut i: usize = start;
    let mut value: usize = 0;
    while i < n
        invariant
            n == text@.len(),
            start < n,
            start <= i <= n,
            digits == text@.subrange(start as int, n as int),
            digits == count_digits(text@),
            forall|j: int| 0 <= j < i - start ==> is_digit(#[trigger] digits[j]),
            value == digits_value(digits.subrange(0, i - start)),
        decreases n - i,
    {
        let c = text.get_char(i);
        assert(c == digits[i - start]);
        if !('0' <= c && c <= '9') {
            assert(!is_digit(digits[i - start]));
            return None;
        }
        let d = digit_value(c);
        let ghost prefix = digits.subrange(0, i - start + 1);
        assert(prefix.drop_last() =~= digits.subrange(0, i - start));
        assert(prefix.last() == c);
        assert(digits_value(prefix) == value * 10 + d);
        if value > (usize::MAX - d) / 10 {
            proof {
                assert(digits_value(digits.subrange(0, i - start + 1)) > usize::MAX) by (nonlinear_arith)
                    requires
                        value > (usize::MAX - d) / 10,
                        digits_value(digits.subrange(0, i - start + 1)) == value * 10 + d,
                        d <= 9,
                ;
                if forall|j: int| 0 <= j < digits.len() ==> is_digit(#[trigger] digits[j]) {
                    lemma_digits_value_prefix(digits, i - start + 1);
                }
            }
            return None;
        }
        assert(value * 10 + d <= usize::MAX) by (nonlinear_arith)
            requires
                value <= (usize::MAX - d) / 10,
                d <= 9,
        ;
        value = value * 10 + d;
        i += 1;
    }
    assert(digits.subrange(0, n - start) =~= digits);
    Some(value)
}

/// `String::pop`: removes the last character of the string and returns it, or returns `None`
/// when the string is empty.
#[verifier::external_body]
fn pop_char(text: &mut String) -> (last: Option<char>)
    ensures
        old(text)@.len() == 0 ==> last is None && final(text)@ == old(text)@,
        old(text)@.len() > 0 ==> last == Some(old(text)@.last()) && final(text)@
            == old(text)@.drop_last(),
{
    text.pop()
}

/// What `char::is_numeric` answers for a character: whether its Unicode general category is
/// one of those for numbers.
pub uninterp spec fn numeric_char(c: char) -> bool;

/// `char::is_numeric`, whose result is named `numeric_char`; the ASCII digits are numeric.
#[verifier::external_body]
fn is_numeric(c: char) -> (numeric: bool)
    ensures
        numeric == numeric_char(c),
        is_digit(c) ==> numeric,
{
    c.is_numeric()
}

/// The grey level (255 white to 0 black) shown for each of the four shades of a pixel.
pub open spec fn grey_level(shade: u8) -> u8 {
    if shade == 0 {
        255
    } else if shade == 1 {
        170
    } else if shade == 2 {
        85
    } else {
        0
    }
}

/// The grey level of a shade, which is below 4.
pub fn grey(shade: u8) -> (level: u8)
    requires
        shade < 4,
    ensures
        level == grey_level(shade),
{
    match shade {
        0 => 255,
        1 => 170,
        2 => 85,
        _ => 0,
    }
}

/// The text of one flag bit.
pub open spec fn bit_text(set: bool) -> Seq<char> {
    if set {
        "1"@
    } else {
        "0"@
    }
}

/// The line of a register pair: its name, then the two bytes in hexadecimal.
pub open spec fn pair_text(name: Seq<char>, high: u8, low: u8) -> Seq<char> {
    name + ": "@ + hex8_text(high) + " "@ + hex8_text(low)
}

/// The line of the flags: the bits Z, N, H and C of F, in binary.
pub open spec fn flags_text(f: u8) -> Seq<char> {
    "ZNHC: "@ + bit_text(f & 0x80 != 0) + bit_text(f & 0x40 != 0) + bit_text(f & 0x20 != 0)
        + bit_text(f & 0x10 != 0)
}

/// The line of an instruction: its address in hexadecimal, then its assembly text in
/// uppercase.
pub open spec fn opcode_line(bytes: Seq<u8>, address: u16) -> Seq<char> {
    hex16_text(address) + ": "@ + upper_text(disassembly(bytes))
}

fn push_bit(text: &mut String, set: bool)
    ensures
        final(text)@ == old(text)@ + bit_text(set),
{
    if set {
        text.append("1");
    } else {
        text.append("0");
    }
}

fn pair_line(name: &str, high: u8, low: u8) -> (line: String)
    ensures
        line@ == pair_text(name@, high, low),
{
    let mut line = String::from_str(name);
    line.append(": ");
    push_hex8(&mut line, high);
    line.append(" ");
    push_hex8(&mut line, low);
    line
}

fn word_line(label: &str, value: u16) -> (line: String)
    ensures
        line@ == label@ + hex16_text(value),
{
    let mut line = String::from_str(label);
    push_hex16(&mut line, value);
    line
}

fn flags_line(f: u8) -> (line: String)
    ensures
        line@ == flags_text(f),
{
    let mut line = String::from_str("ZNHC: ");
    push_bit(&mut line, f & 0x80 != 0);
    push_bit(&mut line, f & 0x40 != 0);
    push_bit(&mut line, f & 0x20 != 0);
    push_bit(&mut line, f & 0x10 != 0);
    line
}

/// The text line of the instruction with bytes `bytes` at `address`.
pub fn instruction_line(bytes: [u8; 3], address: u16) -> (line: String)
    ensures
        line@ == opcode_line(bytes@, address),
{
    let text = crate::machine::debug::Debug::opcode_to_string(bytes);
    let upper = uppercase(text.as_str());
    let mut line = String::new();
    push_hex16(&mut line, address);
    line.append(": ");
    line.append(upper.as_str());
    line
}

/// The most bytes that the step count input holds.
pub const STEP_COUNT_INPUT_MAX_LENGTH: usize = 9;

/// Where the pointer is, as the window sees it: whether its left button is down, and which of
/// the panel's controls it is over.
#[derive(Clone, Copy, Debug)]
pub struct Pointer {
    pub left_down: bool,
    pub over_pause_button: bool,
    pub over_restart_button: bool,
    pub over_step_button: bool,
    pub over_step_count_box: bool,
}

/// What the window shows, apart from the window itself: the screen as grey levels, the last and
/// the next instruction, the registers, and the step count being typed; and whether the left
/// button was down at the last update.
pub struct FrontendState {
    pub framebuffer: [u8; 23040],
    pub mouse_left_down: bool,
    pub opcode: String,
    pub next_opcode: String,
    pub af: String,
    pub bc: String,
    pub de: String,
    pub hl: String,
    pub sp: String,
    pub pc: String,
    pub flags: String,
    pub step_count_input: String,
}

pub ghost struct FrontendView {
    pub framebuffer: Seq<u8>,
    pub mouse_left_down: bool,
    pub opcode: Seq<char>,
    pub next_opcode: Seq<char>,
    pub af: Seq<char>,
    pub bc: Seq<char>,
    pub de: Seq<char>,
    pub hl: Seq<char>,
    pub sp: Seq<char>,
    pub pc: Seq<char>,
    pub flags: Seq<char>,
    pub step_count_input: Seq<char>,
}

impl View for FrontendState {
    type V = FrontendView;

    open spec fn view(&self) -> FrontendView {
        FrontendView {
            framebuffer: self.framebuffer@,
            mouse_left_down: self.mouse_left_down,
            opcode: self.opcode@,
            next_opcode: self.next_opcode@,
            af: self.af@,
            bc: self.bc@,
            de: self.de@,
            hl: self.hl@,
            sp: self.sp@,
            pc: self.pc@,
            flags: self.flags@,
            step_count_input: self.step_count_input@,
        }
    }
}

/// Every pixel is one of the four shades.
pub open spec fn all_shades(pixels: Seq<u8>) -> bool {
    forall|i: int| 0 <= i < 23040 ==> #[trigger] pixels[i] < 4
}

/// The grey levels of the pixels.
pub open spec fn grey_framebuffer(pixels: Seq<u8>) -> Seq<u8> {
    Seq::new(23040, |i: int| grey_level(pixels[i]))
}

/// The length in bytes of a text's UTF-8 encoding, as `str::len` gives it.
pub open spec fn byte_length(text: Seq<char>) -> usize {
    encode_utf8(text).len() as usize
}

/// The step count input after `c` is typed: the character is appended when it is numeric, the
/// input holds fewer than `STEP_COUNT_INPUT_MAX_LENGTH` bytes, and it is not a leading zero.
pub open spec fn typed_input(input: Seq<char>, c: char, numeric: bool) -> Seq<char> {
    if numeric && byte_length(input) < STEP_COUNT_INPUT_MAX_LENGTH && !(input.len() == 0 && c
        == '0') {
        input.push(c)
    } else {
        input
    }
}

/// The step count input after an update: while the pointer is over the box, a typed character
/// is taken as `typed_input` says, then a backspace removes the last character.
pub open spec fn edited_input(
    input: Seq<char>,
    pointer: Pointer,
    typed: Option<char>,
    backspace: bool,
) -> Seq<char> {
    if pointer.over_step_count_box {
        let after_typing = match typed {
            Some(c) => typed_input(input, c, numeric_char(c)),
            None => input,
        };
        if backspace && after_typing.len() > 0 {
            after_typing.drop_last()
        } else {
            after_typing
        }
    } else {
        input
    }
}

/// The command of a click: the left button goes down over the pause button (toggle pause),
/// else over the restart button (restart), else over the step button (step by the count typed,
/// when it reads as one).
pub open spec fn click_command(was_down: bool, pointer: Pointer, input: Seq<char>) -> Option<Command> {
    if !was_down && pointer.left_down {
        if pointer.over_pause_button {
            Some(Command::TogglePause)
        } else if pointer.over_restart_button {
            Some(Command::Restart)
        } else if pointer.over_step_button {
            match parsed_count(input) {
                Some(count) => Some(Command::Step(count)),
                None => None,
            }
        } else {
            None
        }
    } else {
        None
    }
}

/// The commands of an update: the joypad buttons first, then the command of a click, if any.
pub open spec fn update_commands(
    was_down: bool,
    joypad: JoypadState,
    pointer: Pointer,
    input: Seq<char>,
) -> Seq<Command> {
    match click_command(was_down, pointer, input) {
        Some(command) => seq![Command::UpdateJoypad(joypad), command],
        None => seq![Command::UpdateJoypad(joypad)],
    }
}

impl FrontendView {
    /// The register lines show `registers`.
    pub open spec fn with_registers(self, registers: Registers) -> FrontendView {
        FrontendView {
            af: pair_text("AF"@, registers.a, registers.f),
            bc: pair_text("BC"@, registers.b, registers.c),
            de: pair_text("DE"@, registers.d, registers.e),
            hl: pair_text("HL"@, registers.h, registers.l),
            sp: "SP: "@ + hex16_text(registers.sp),
            pc: "PC: "@ + hex16_text(registers.pc),
            flags: flags_text(registers.f),
            ..self
        }
    }

    /// The state right after power-on or a restart: the screen, no last instruction, the next
    /// instruction and the registers, and a step count of 1.
    pub open spec fn initialised(
        pixels: Seq<u8>,
        next_opcode_bytes: Seq<u8>,
        next_opcode_address: u16,
        registers: Registers,
    ) -> FrontendView {
        FrontendView {
            framebuffer: grey_framebuffer(pixels),
            mouse_left_down: false,
            opcode: Seq::empty(),
            next_opcode: opcode_line(next_opcode_bytes, next_opcode_address),
            af: Seq::empty(),
            bc: Seq::empty(),
            de: Seq::empty(),
            hl: Seq::empty(),
            sp: Seq::empty(),
            pc: Seq::empty(),
            flags: Seq::empty(),
            step_count_input: "1"@,
        }.with_registers(registers)
    }
}

/// Types `c` into the step count input, `numeric` telling whether `c` is numeric.
pub fn type_step_count_char(input: &mut String, c: char, numeric: bool)
    ensures
        final(input)@ == typed_input(old(input)@, c, numeric),
{
    if numeric && input.as_str().len() < STEP_COUNT_INPUT_MAX_LENGTH && !(input.as_str().is_empty()
        && c == '0') {
        push_char(input, c);
    }
}

impl FrontendState {
    /// The state shown at power-on.
    pub fn new(
        pixels: [u8; 23040],
        next_opcode_bytes: [u8; 3],
        next_opcode_address: u16,
        registers: &Registers,
    ) -> (state: Self)
        requires
            all_shades(pixels@),
        ensures
            state@ == FrontendView::initialised(
                pixels@,
                next_opcode_bytes@,
                next_opcode_address,
                *registers,
            ),
    {
        let mut state = Self {
            framebuffer: [0u8; 23040],
            mouse_left_down: false,
            opcode: String::new(),
            next_opcode: String::new(),
            af: String::new(),
            bc: String::new(),
            de: String::new(),
            hl: String::new(),
            sp: String::new(),
            pc: String::new(),
            flags: String::new(),
            step_count_input: String::new(),
        };
        state.initialise(pixels, next_opcode_bytes, next_opcode_address, registers);
        state
    }

    /// Resets the state to what is shown at power-on or after a restart.
    pub fn initialise(
        &mut self,
        pixels: [u8; 23040],
        next_opcode_bytes: [u8; 3],
        next_opcode_address: u16,
        registers: &Registers,
    )
        requires
            all_shades(pixels@),
        ensures
            final(self)@ == FrontendView::initialised(
                pixels@,
                next_opcode_bytes@,
                next_opcode_address,
                *registers,
            ),
    {
        self.framebuffer = [0u8; 23040];
        self.mouse_left_down = false;
        self.opcode = String::new();
        self.next_opcode = String::new();
        self.step_count_input = String::from_str("1");

        self.trace_registers(registers);
        self.set_pixels(pixels);

        self.next_opcode = instruction_line(next_opcode_bytes, next_opcode_address);
        proof {
            reveal_strlit("1");
        }
        assert(self@ =~= FrontendView::initialised(
            pixels@,
            next_opcode_bytes@,
            next_opcode_address,
            *registers,
        ));
    }

    /// Shows the pixels as grey levels.
    pub fn set_pixels(&mut self, pixels: [u8; 23040])
        requires
            all_shades(pixels@),
        ensures
            final(self)@ == (FrontendView { framebuffer: grey_framebuffer(pixels@), ..old(self)@ }),
    {
        let mut i: usize = 0;
        while i < 23040
            invariant
                i <= 23040,
                all_shades(pixels@),
                forall|j: int| 0 <= j < i ==> self.framebuffer[j] == grey_level(#[trigger] pixels@[j]),
                self@ == (FrontendView { framebuffer: self.framebuffer@, ..old(self)@ }),
            decreases 23040 - i,
        {
            assert(pixels@[i as int] < 4);
            self.framebuffer[i] = grey(pixels[i]);
            i += 1;
        }
        assert(self.framebuffer@ =~= grey_framebuffer(pixels@));
    }

    /// Shows the registers.
    pub fn trace_registers(&mut self, registers: &Registers)
        ensures
            final(self)@ == old(self)@.with_registers(*registers),
    {
        self.af = pair_line("AF", registers.a, registers.f);
        self.bc = pair_line("BC", registers.b, registers.c);
        self.de = pair_line("DE", registers.d, registers.e);
        self.hl = pair_line("HL", registers.h, registers.l);
        self.sp = word_line("SP: ", registers.sp);
        self.pc = word_line("PC: ", registers.pc);
        self.flags = flags_line(registers.f);
        assert(self@ =~= old(self)@.with_registers(*registers));
    }

    /// Shows the instruction that a step ran, the next one, and the registers after it; a step
    /// that ran no instruction changes nothing.
    pub fn trace_cycle_info(&mut self, cycle_info: CycleInfo)
        ensures
            match cycle_info.cpu_cycle_info {
                Some(info) => final(self)@ == (FrontendView {
                    opcode: opcode_line(info.opcode_bytes@, info.opcode_address),
                    next_opcode: opcode_line(info.next_opcode_bytes@, info.next_opcode_address),
                    ..old(self)@.with_registers(info.registers)
                }),
                None => final(self)@ == old(self)@,
            },
    {
        if let Some(cpu_cycle_info) = cycle_info.cpu_cycle_info {
            self.opcode = instruction_line(cpu_cycle_info.opcode_bytes, cpu_cycle_info.opcode_address);
            self.next_opcode = instruction_line(
                cpu_cycle_info.next_opcode_bytes,
                cpu_cycle_info.next_opcode_address,
            );
            self.trace_registers(&cpu_cycle_info.registers);
        }
    }

    /// Takes one frame of input: the joypad buttons held, the pointer, and, while the pointer
    /// is over the step count box, the character typed and whether backspace was pressed.
    /// Returns the commands for the console.
    pub fn update(
        &mut self,
        joypad: JoypadState,
        pointer: Pointer,
        typed: Option<char>,
        backspace: bool,
    ) -> (commands: Vec<Command>)
        ensures
            commands@ == update_commands(
                old(self).mouse_left_down,
                joypad,
                pointer,
                old(self)@.step_count_input,
            ),
            final(self)@ == (FrontendView {
                mouse_left_down: pointer.left_down,
                step_count_input: edited_input(
                    old(self)@.step_count_input,
                    pointer,
                    typed,
                    backspace,
                ),
                ..old(self)@
            }),
    {
        let mut commands: Vec<Command> = Vec::new();
        commands.push(Command::UpdateJoypad(joypad));

        let mouse_left_pressed = !self.mouse_left_down && pointer.left_down;

        if mouse_left_pressed {
            if pointer.over_pause_button {
                commands.push(Command::TogglePause);
            } else if pointer.over_restart_button {
                commands.push(Command::Restart);
            } else if pointer.over_step_button {
                if let Some(c) = parse_count(self.step_count_input.as_str()) {
                    commands.push(Command::Step(c));
                }
            }
        }

        if pointer.over_step_count_box {
            if let Some(c) = typed {
                let numeric = is_numeric(c);
                type_step_count_char(&mut self.step_count_input, c, numeric);
            }

            if backspace {
                pop_char(&mut self.step_count_input);
            }
        }

        self.mouse_left_down = pointer.left_down;

        assert(commands@ =~= update_commands(
            old(self).mouse_left_down,
            joypad,
            pointer,
            old(self)@.step_count_input,
        ));
        commands
    }
}

} // verus!
