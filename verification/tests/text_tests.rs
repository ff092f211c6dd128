use mos6502::cpu::cpu6502;
use mos6502::text::StatusText;
use mos6502::text::color_from_bit;
use mos6502::text::draw_code;
use mos6502::text::draw_cpu;
use mos6502::text::draw_ram;

const WIDTH: usize = 800;
const HEIGHT: usize = 600;

#[test]
fn color_from_bit_values() {
    assert_eq!(color_from_bit(0), 0x00000000);
    assert_eq!(color_from_bit(1), 0xFFFFFFFF);
    assert_eq!(color_from_bit(7), 0xFFFFFFFF);
}

#[test]
fn status_text_dimensions() {
    let status = StatusText::new(WIDTH, HEIGHT, 1);
    assert_eq!(status.texture.len(), 128 * 128);
    assert_eq!(status.width, WIDTH);
    assert_eq!(status.scale, 1);
    assert!(status.texture.iter().all(|&t| t == 0 || t == 0xFFFFFFFF));
}

#[test]
fn draw_paints_only_inside_the_text_box() {
    let status = StatusText::new(WIDTH, HEIGHT, 1);
    let mut screen: Vec<u32> = vec![0x55555555; WIDTH * HEIGHT];
    status.draw(&mut screen, (16, 24), "A", 1);
    assert_eq!(screen.len(), WIDTH * HEIGHT);
    let mut painted = 0;
    for row in 0..HEIGHT {
        for col in 0..WIDTH {
            let p = row * WIDTH + col;
            let inside = (24..32).contains(&row) && (16..24).contains(&col);
            if !inside {
                assert_eq!(screen[p], 0x55555555, "pixel outside the box changed");
            } else if screen[p] != 0x55555555 {
                painted += 1;
                assert!(screen[p] == 0 || screen[p] == 0xFFFFFFFF);
            }
        }
    }
    assert!(painted > 0, "the glyph painted something");
}

#[test]
fn display_helpers_preserve_buffer_size() {
    let status = StatusText::new(WIDTH, HEIGHT, 1);
    let mut cpu = cpu6502::new();
    cpu.bus.write(0xFFFC, 0x00);
    cpu.bus.write(0xFFFD, 0x80);
    cpu.bus.write(0x8000, 0xA9);
    cpu.bus.write(0x8001, 0x14);
    cpu.reset();
    let map = cpu.disassemble(0x8000, 0x8001);
    let mut screen: Vec<u32> = vec![0; WIDTH * HEIGHT];
    draw_ram(&status, &cpu, &mut screen, 2, 2, 0x0000, 16, 16);
    draw_cpu(&status, &cpu, &mut screen, 448, 2);
    draw_code(&status, &cpu, &mut screen, 448, 72, 26, &map);
    assert_eq!(screen.len(), WIDTH * HEIGHT);
    assert!(screen.iter().any(|&p| p != 0), "the panel drew something");
}
