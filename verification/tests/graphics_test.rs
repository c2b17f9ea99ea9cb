use emu6502::cpu::{Byte, Word};
use emu6502::graphics_adapter::{
    Color, GraphicsAdapter, GraphicsClearType, GraphicsInstruction, GraphicsInstructionType, UNum,
};

#[test]
fn test_unum_4() {
    let num: UNum<4> = UNum::from(1);

    assert_eq!(num, UNum([true, false, false, false]));
}

#[test]
fn test_unum_2() {
    let num: UNum<2> = UNum::from(3);

    assert_eq!(num, UNum([true, true]));
}

#[test]
fn test_unum_to_regular() {
    let unum: UNum<4> = UNum([true, false, false, false]);
    let experimental: Byte = unum.into();

    let theoretical = 1;

    assert_eq!(experimental, theoretical);
}

#[test]
fn test_instruction_parse() {
    let instruction: Word = 0b1000100010000011;
    let experimental = GraphicsInstruction::from(instruction);

    let theoretical = GraphicsInstruction {
        instruction_type: GraphicsInstructionType::Draw,
        clear_type: GraphicsClearType::Screen,
        coordinates: [UNum::from(2), UNum::from(2)],
        color: [UNum::from(0), UNum::from(0), UNum::from(3)],
    };

    assert_eq!(experimental.instruction_type, theoretical.instruction_type);
    assert_eq!(experimental.clear_type, theoretical.clear_type);
    assert_eq!(experimental.coordinates, theoretical.coordinates);
    assert_eq!(experimental.color, theoretical.color);
}

const RED: Color = Color { r: 100, g: 0, b: 0, a: 255 };

#[test]
fn new_adapter_is_filled_with_clear_color() {
    let adapter = GraphicsAdapter::new(RED);

    for row in adapter.get_pixels().iter() {
        for pixel in row.iter() {
            assert_eq!(*pixel, RED);
        }
    }
}

#[test]
fn draw_word_sets_one_pixel_with_scaled_channels() {
    let mut adapter = GraphicsAdapter::new(RED);

    // draw, column 5, row 9, red 1, green 2, blue 3
    adapter.get_data(0b1_0_0101_1001_01_10_11);

    let expected = Color { r: 85, g: 170, b: 255, a: 255 };
    for (y, row) in adapter.get_pixels().iter().enumerate() {
        for (x, pixel) in row.iter().enumerate() {
            if x == 5 && y == 9 {
                assert_eq!(*pixel, expected);
            } else {
                assert_eq!(*pixel, RED);
            }
        }
    }
}

#[test]
fn set_color_then_clear_fills_the_screen() {
    let mut adapter = GraphicsAdapter::new(RED);
    adapter.get_data(0b1_0_0000_0000_11_11_11);

    // clear, set color: red 0, green 3, blue 0
    adapter.get_data(0b0_1_0000_0000_00_11_00);
    let green = Color { r: 0, g: 255, b: 0, a: 255 };
    assert_eq!(adapter.get_pixels()[0][0], Color { r: 255, g: 255, b: 255, a: 255 });
    assert_eq!(adapter.get_pixels()[3][3], RED);

    // clear, screen
    adapter.get_data(0b0_0_1111_1111_11_11_11);
    for row in adapter.get_pixels().iter() {
        for pixel in row.iter() {
            assert_eq!(*pixel, green);
        }
    }
}

#[test]
fn unum_wider_than_a_byte_keeps_the_low_eight_bits() {
    let num: UNum<10> = UNum::from(0b11_0000_0101);
    let byte: Byte = num.into();

    assert_eq!(byte, 0b0000_0101);
}

#[test]
fn unum_wider_than_a_word_has_clear_high_bits() {
    let num: UNum<18> = UNum::from(0xFFFF);

    assert_eq!(num.0[15], true);
    assert_eq!(num.0[16], false);
    assert_eq!(num.0[17], false);
}

#[test]
fn decoded_instruction_is_carried_out() {
    let mut adapter = GraphicsAdapter::new(RED);
    let draw = GraphicsInstruction {
        instruction_type: GraphicsInstructionType::Draw,
        clear_type: GraphicsClearType::SetColor,
        coordinates: [UNum([true, true, true, true]), UNum([false, false, false, false])],
        color: [UNum([true, true]), UNum([false, true]), UNum([false, false])],
    };

    adapter.execute_instruction(draw);

    assert_eq!(adapter.get_pixels()[0][15], Color { r: 255, g: 170, b: 0, a: 255 });
    assert_eq!(adapter.get_pixels()[15][0], RED);
    assert_eq!(adapter.get_pixels()[0][14], RED);

    // the default instruction clears the screen
    adapter.execute_instruction(GraphicsInstruction::default());
    assert_eq!(adapter.get_pixels()[0][15], RED);
}
