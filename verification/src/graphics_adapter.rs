//! A 16x16 framebuffer driven by 16-bit instruction words.
//!
//! Layout of a word, most significant bit first: bit 15 draws (1) or clears
//! (0); bit 14 tells a clear to set the clear color (1) or to fill the screen
//! (0); bits 13-10 are the column, bits 9-6 the row; bits 5-4, 3-2 and 1-0
//! are red, green and blue, two bits each.

use vstd::prelude::*;
use crate::cpu::{Byte, Word};

verus! {

/// An RGBA color.
#[derive(Debug, Clone, Copy, PartialEq, Eq, Structural)]
pub struct Color {
    pub r: u8,
    pub g: u8,
    pub b: u8,
    pub a: u8,
}

/// Whether an instruction word draws or clears.
#[derive(Debug, Default, Clone, Copy, PartialEq, Eq, Structural)]
pub enum GraphicsInstructionType {
    #[default]
    Clear,
    Draw,
}

/// What a clearing instruction word does: fill the screen with the clear
/// color, or set the clear color.
#[derive(Debug, Default, Clone, Copy, PartialEq, Eq, Structural)]
pub enum GraphicsClearType {
    #[default]
    Screen,
    SetColor,
}

/// An unsigned number of `SIZE` bits, least significant bit first.
#[derive(Debug, Clone, Copy, PartialEq, Eq)]
pub struct UNum<const SIZE: usize>(pub [bool; SIZE]);

/// A decoded instruction word.
#[derive(Debug, Default, PartialEq, Eq)]
pub struct GraphicsInstruction {
    pub instruction_type: GraphicsInstructionType,
    pub clear_type: GraphicsClearType,
    /// Column, then row.
    pub coordinates: [UNum<4>; 2],
    /// Red, green, blue.
    pub color: [UNum<2>; 3],
}

/// The pixel grid and the color that a clear fills it with.
#[derive(Debug, Clone, Copy)]
pub struct GraphicsAdapter {
    pixels: [[Color; 16]; 16],
    clear_color: Color,
}

/// Whether bit `i` of `value` is set; bit 0 is the least significant.
pub open spec fn bit_at(value: nat, i: nat) -> bool
    decreases i,
{
    if i == 0 {
        value % 2 == 1
    } else {
        bit_at(value / 2, (i - 1) as nat)
    }
}

/// The number that a sequence of bits stands for, least significant first.
pub open spec fn number(bits: Seq<bool>) -> nat
    decreases bits.len(),
{
    if bits.len() == 0 {
        0
    } else {
        (if bits[0] {
            1nat
        } else {
            0nat
        }) + 2 * number(bits.skip(1))
    }
}

/// Whether a word draws a pixel; otherwise it clears.
pub open spec fn draws(word: u16) -> bool {
    word >= 0x8000
}

/// Whether a word that clears sets the clear color; otherwise it fills the
/// screen.
pub open spec fn sets_color(word: u16) -> bool {
    (word / 0x4000) % 2 == 1
}

/// The column that a word names.
pub open spec fn column_of(word: u16) -> int {
    (word as int / 1024) % 16
}

/// The row that a word names.
pub open spec fn row_of(word: u16) -> int {
    (word as int / 64) % 16
}

/// The color that a word names: each two-bit channel times 85, opaque.
pub open spec fn color_of(word: u16) -> Color {
    Color {
        r: (((word as int / 16) % 4) * 85) as u8,
        g: (((word as int / 4) % 4) * 85) as u8,
        b: ((word as int % 4) * 85) as u8,
        a: 255,
    }
}

impl<const SIZE: usize> UNum<SIZE> {
    /// Whether this number holds the low `SIZE` bits of `value`.
    pub open spec fn holds(self, value: u16) -> bool {
        forall|i: int| 0 <= i < SIZE ==> self.0@[i] == bit_at(value as nat, i as nat)
    }

    /// The number that the bits stand for.
    pub open spec fn value(self) -> nat {
        number(self.0@)
    }

    /// Only one number holds the low bits of a value.
    pub proof fn lemma_holds_unique(self, other: UNum<SIZE>, value: u16)
        requires
            self.holds(value),
            other.holds(value),
        ensures
            self == other,
    {
        assert(self.0@ =~= other.0@);
        assert(self.0 =~= other.0);
    }
}

/// Doubling a byte and adding a bit, with the carry dropped, doubles the
/// number it is the remainder of.
proof fn lemma_double_in_byte(n: nat, num: u8, bit: u8)
    requires
        num == n % 256,
        bit <= 1,
    ensures
        (num % 128) * 2 + bit == (bit + 2 * n) % 256,
{
}

/// The bits of the halved value are the bits of the value, one place down.
proof fn lemma_bit_at_half(value: nat, i: nat)
    ensures
        bit_at(value / 2, i) == bit_at(value, i + 1),
{
}

impl<const SIZE: usize> From<Word> for UNum<SIZE> {
    /// The low `SIZE` bits of `value`.
    fn from(value: Word) -> (num: UNum<SIZE>)
        ensures
            num.holds(value),
    {
        let mut bits = [false; SIZE];
        let mut rest = value;
        let mut i: usize = 0;
        while i < SIZE
            invariant
                0 <= i <= SIZE,
                forall|j: int| 0 <= j < i ==> bits@[j] == bit_at(value as nat, j as nat),
                forall|k: nat|
                    #[trigger] bit_at(rest as nat, k) == bit_at(value as nat, (i + k) as nat),
            decreases SIZE - i,
        {
            proof {
                assert(bit_at(rest as nat, 0) == bit_at(value as nat, (i + 0) as nat));
                assert forall|k: nat| #[trigger] bit_at((rest / 2) as nat, k) == bit_at(
                    value as nat,
                    (i + 1 + k) as nat,
                ) by {
                    lemma_bit_at_half(rest as nat, k);
                    assert(bit_at(rest as nat, k + 1) == bit_at(
                        value as nat,
                        (i + (k + 1)) as nat,
                    ));
                }
            }
            bits[i] = rest % 2 == 1;
            rest = rest / 2;
            i = i + 1;
        }
        let num = UNum(bits);
        proof {
            let chosen = choose|u: UNum<SIZE>| u.holds(value);
            assert(num.holds(value));
            num.lemma_holds_unique(chosen, value);
        }
        num
    }
}

impl<const SIZE: usize> vstd::std_specs::convert::FromSpecImpl<Word> for UNum<SIZE> {
    open spec fn obeys_from_spec() -> bool {
        true
    }

    open spec fn from_spec(value: Word) -> UNum<SIZE> {
        choose|u: UNum<SIZE>| u.holds(value)
    }
}

impl<const SIZE: usize> From<UNum<SIZE>> for Byte {
    /// The number that the bits stand for, reduced to a byte.
    fn from(val: UNum<SIZE>) -> (num: Byte) {
        let mut num: Byte = 0;
        let mut i: usize = SIZE;
        assert(val.0@.skip(SIZE as int).len() == 0);
        while i > 0
            invariant
                0 <= i <= SIZE,
                num as nat == number(val.0@.skip(i as int)) % 256,
            decreases i,
        {
            i = i - 1;
            let bit: Byte = if val.0[i] {
                1
            } else {
                0
            };
            proof {
                let tail = val.0@.skip(i as int);
                assert(tail.skip(1) =~= val.0@.skip(i + 1));
                assert(tail[0] == val.0@[i as int]);
                assert(number(tail) == bit + 2 * number(tail.skip(1)));
                lemma_double_in_byte(number(tail.skip(1)), num, bit);
            }
            num = (num % 128) * 2 + bit;
        }
        assert(val.0@.skip(0) =~= val.0@);
        num
    }
}

impl<const SIZE: usize> vstd::std_specs::convert::FromSpecImpl<UNum<SIZE>> for Byte {
    open spec fn obeys_from_spec() -> bool {
        true
    }

    open spec fn from_spec(val: UNum<SIZE>) -> Byte {
        (val.value() % 256) as u8
    }
}

impl<const SIZE: usize> Default for UNum<SIZE> {
    fn default() -> (num: UNum<SIZE>)
        ensures
            forall|i: int| 0 <= i < SIZE ==> !num.0@[i],
    {
        Self([false; SIZE])
    }
}

impl GraphicsInstruction {
    /// Whether this is what `word` decodes to.
    pub open spec fn decodes(self, word: u16) -> bool {
        &&& self.instruction_type == if draws(word) {
            GraphicsInstructionType::Draw
        } else {
            GraphicsInstructionType::Clear
        }
        &&& self.clear_type == if sets_color(word) {
            GraphicsClearType::SetColor
        } else {
            GraphicsClearType::Screen
        }
        &&& self.coordinates@[0].holds((word / 1024) as u16)
        &&& self.coordinates@[1].holds((word / 64) as u16)
        &&& self.color@[0].holds((word / 16) as u16)
        &&& self.color@[1].holds((word / 4) as u16)
        &&& self.color@[2].holds(word)
    }

    /// A word decodes to one instruction only.
    pub proof fn lemma_decodes_unique(self, other: GraphicsInstruction, word: u16)
        requires
            self.decodes(word),
            other.decodes(word),
        ensures
            self == other,
    {
        self.coordinates@[0].lemma_holds_unique(other.coordinates@[0], (word / 1024) as u16);
        self.coordinates@[1].lemma_holds_unique(other.coordinates@[1], (word / 64) as u16);
        self.color@[0].lemma_holds_unique(other.color@[0], (word / 16) as u16);
        self.color@[1].lemma_holds_unique(other.color@[1], (word / 4) as u16);
        self.color@[2].lemma_holds_unique(other.color@[2], word);
        assert(self.coordinates =~= other.coordinates);
        assert(self.color =~= other.color);
    }

    /// Whether the instruction draws a pixel.
    pub open spec fn draws(self) -> bool {
        self.instruction_type == GraphicsInstructionType::Draw
    }

    /// Whether the instruction, if it clears, sets the clear color.
    pub open spec fn sets_color(self) -> bool {
        self.clear_type == GraphicsClearType::SetColor
    }

    /// The column that the instruction names.
    pub open spec fn column(self) -> int {
        self.coordinates@[0].value() as int
    }

    /// The row that the instruction names.
    pub open spec fn row(self) -> int {
        self.coordinates@[1].value() as int
    }

    /// The color that the instruction names.
    pub open spec fn rgba(self) -> Color {
        Color {
            r: (self.color@[0].value() * 85) as u8,
            g: (self.color@[1].value() * 85) as u8,
            b: (self.color@[2].value() * 85) as u8,
            a: 255,
        }
    }
}

/// Four bits stand for a number below 16.
pub proof fn lemma_four_bits(num: UNum<4>)
    ensures
        num.value() < 16,
{
    reveal_with_fuel(number, 5);
    let s = num.0@;
    assert(s.skip(1).skip(1) =~= s.skip(2));
    assert(s.skip(2).skip(1) =~= s.skip(3));
    assert(s.skip(3).skip(1) =~= s.skip(4));
    assert(s.skip(4).len() == 0);
}

/// Two bits stand for a number below 4.
pub proof fn lemma_two_bits(num: UNum<2>)
    ensures
        num.value() < 4,
{
    reveal_with_fuel(number, 3);
    let s = num.0@;
    assert(s.skip(1).skip(1) =~= s.skip(2));
    assert(s.skip(2).len() == 0);
}

/// Four bits that hold a value stand for its remainder by 16.
pub proof fn lemma_value_of_four(num: UNum<4>, value: u16)
    requires
        num.holds(value),
    ensures
        num.value() == value % 16,
{
    reveal_with_fuel(number, 5);
    reveal_with_fuel(bit_at, 5);
    let s = num.0@;
    assert(s.skip(1).skip(1) =~= s.skip(2));
    assert(s.skip(2).skip(1) =~= s.skip(3));
    assert(s.skip(3).skip(1) =~= s.skip(4));
    assert(s.skip(1)[0] == s[1]);
    assert(s.skip(2)[0] == s[2]);
    assert(s.skip(3)[0] == s[3]);
    assert(s.skip(4).len() == 0);
    assert(s[0] == bit_at(value as nat, 0));
    assert(s[1] == bit_at(value as nat, 1));
    assert(s[2] == bit_at(value as nat, 2));
    assert(s[3] == bit_at(value as nat, 3));
}

/// Two bits that hold a value stand for its remainder by 4.
pub proof fn lemma_value_of_two(num: UNum<2>, value: u16)
    requires
        num.holds(value),
    ensures
        num.value() == value % 4,
{
    reveal_with_fuel(number, 3);
    reveal_with_fuel(bit_at, 3);
    let s = num.0@;
    assert(s.skip(1).skip(1) =~= s.skip(2));
    assert(s.skip(1)[0] == s[1]);
    assert(s.skip(2).len() == 0);
    assert(s[0] == bit_at(value as nat, 0));
    assert(s[1] == bit_at(value as nat, 1));
}

/// What a word decodes to names the column, row and color of the word.
pub proof fn lemma_decoded_fields(instruction: GraphicsInstruction, word: u16)
    requires
        instruction.decodes(word),
    ensures
        instruction.column() == column_of(word),
        instruction.row() == row_of(word),
        instruction.color@[0].value() == (word / 16) % 4,
        instruction.color@[1].value() == (word / 4) % 4,
        instruction.color@[2].value() == word % 4,
        instruction.rgba() == color_of(word),
{
    lemma_value_of_four(instruction.coordinates@[0], (word / 1024) as u16);
    lemma_value_of_four(instruction.coordinates@[1], (word / 64) as u16);
    lemma_value_of_two(instruction.color@[0], (word / 16) as u16);
    lemma_value_of_two(instruction.color@[1], (word / 4) as u16);
    lemma_value_of_two(instruction.color@[2], word);
}

impl From<Word> for GraphicsInstruction {
    fn from(value: Word) -> (instruction: GraphicsInstruction)
        ensures
            instruction.decodes(value),
    {
        let instruction_type = if value >= 0x8000 {
            GraphicsInstructionType::Draw
        } else {
            GraphicsInstructionType::Clear
        };
        let clear_type = if (value / 0x4000) % 2 == 1 {
            GraphicsClearType::SetColor
        } else {
            GraphicsClearType::Screen
        };
        let coordinates: [UNum<4>; 2] = [UNum::from(value / 1024), UNum::from(value / 64)];
        let color: [UNum<2>; 3] = [
            UNum::from(value / 16),
            UNum::from(value / 4),
            UNum::from(value),
        ];

        let instruction = GraphicsInstruction { instruction_type, clear_type, coordinates, color };
        proof {
            let chosen = choose|other: GraphicsInstruction| other.decodes(value);
            assert(instruction.decodes(value));
            instruction.lemma_decodes_unique(chosen, value);
        }
        instruction
    }
}

impl vstd::std_specs::convert::FromSpecImpl<Word> for GraphicsInstruction {
    open spec fn obeys_from_spec() -> bool {
        true
    }

    open spec fn from_spec(value: Word) -> GraphicsInstruction {
        choose|instruction: GraphicsInstruction| instruction.decodes(value)
    }
}

impl GraphicsAdapter {
    /// The color of the pixel in column `x` of row `y`.
    pub closed spec fn pixel(&self, x: int, y: int) -> Color {
        self.pixels@[y]@[x]
    }

    /// The color that a clear fills the screen with.
    pub closed spec fn background(&self) -> Color {
        self.clear_color
    }

    /// A grid filled with `clear_color`.
    pub fn new(clear_color: Color) -> (adapter: GraphicsAdapter)
        ensures
            adapter.background() == clear_color,
            forall|x: int, y: int|
                0 <= x < 16 && 0 <= y < 16 ==> adapter.pixel(x, y) == clear_color,
    {
        Self { pixels: [[clear_color; 16]; 16], clear_color }
    }

    /// The grid, row by row.
    pub fn get_pixels(&self) -> (pixels: &[[Color; 16]; 16])
        ensures
            forall|x: int, y: int|
                0 <= x < 16 && 0 <= y < 16 ==> pixels@[y]@[x] == self.pixel(x, y),
    {
        &self.pixels
    }

    /// Carries out an instruction word: draws one pixel, fills the screen
    /// with the clear color, or sets the clear color.
    pub fn get_data(&mut self, data: Word)
        ensures
            final(self).background() == if !draws(data) && sets_color(data) {
                color_of(data)
            } else {
                old(self).background()
            },
            forall|x: int, y: int|
                0 <= x < 16 && 0 <= y < 16 ==> final(self).pixel(x, y) == if draws(data) {
                    if x == column_of(data) && y == row_of(data) {
                        color_of(data)
                    } else {
                        old(self).pixel(x, y)
                    }
                } else if sets_color(data) {
                    old(self).pixel(x, y)
                } else {
                    old(self).background()
                },
    {
        let instruction = GraphicsInstruction::from(data);
        proof {
            lemma_decoded_fields(instruction, data);
        }
        self.execute_instruction(instruction);
    }

    /// Carries out a decoded instruction: draws one pixel, fills the screen
    /// with the clear color, or sets the clear color.
    pub fn execute_instruction(&mut self, instruction: GraphicsInstruction)
        ensures
            final(self).background() == if !instruction.draws() && instruction.sets_color() {
                instruction.rgba()
            } else {
                old(self).background()
            },
            forall|x: int, y: int|
                0 <= x < 16 && 0 <= y < 16 ==> final(self).pixel(x, y) == if instruction.draws() {
                    if x == instruction.column() && y == instruction.row() {
                        instruction.rgba()
                    } else {
                        old(self).pixel(x, y)
                    }
                } else if instruction.sets_color() {
                    old(self).pixel(x, y)
                } else {
                    old(self).background()
                },
    {
        proof {
            lemma_four_bits(instruction.coordinates@[0]);
            lemma_four_bits(instruction.coordinates@[1]);
            lemma_two_bits(instruction.color@[0]);
            lemma_two_bits(instruction.color@[1]);
            lemma_two_bits(instruction.color@[2]);
        }
        let parsed_coordinates: [Byte; 2] = [
            Byte::from(instruction.coordinates[0]),
            Byte::from(instruction.coordinates[1]),
        ];
        let parsed_color_arr: [Byte; 3] = [
            Byte::from(instruction.color[0]),
            Byte::from(instruction.color[1]),
            Byte::from(instruction.color[2]),
        ];
        let color = Color {
            r: parsed_color_arr[0] * 85,
            g: parsed_color_arr[1] * 85,
            b: parsed_color_arr[2] * 85,
            a: 255,
        };

        match instruction.instruction_type {
            GraphicsInstructionType::Clear => match instruction.clear_type {
                GraphicsClearType::Screen => {
                    self.pixels = [[self.clear_color; 16]; 16];
                },
                GraphicsClearType::SetColor => {
                    self.clear_color = color;
                },
            },
            GraphicsInstructionType::Draw => {
                let mut row = self.pixels[parsed_coordinates[1] as usize];
                row[parsed_coordinates[0] as usize] = color;
                self.pixels[parsed_coordinates[1] as usize] = row;
            },
        }
    }
}

} // verus!
