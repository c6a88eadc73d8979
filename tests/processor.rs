use chip8::cpu::{Chip8, LoadError};
use chip8::machine::{Fault, MEMORY_SIZE, PROGRAM_START};

fn image(words: &[u16]) -> Vec<u8> {
    let mut out = Vec::new();
    for w in words {
        out.push((w >> 8) as u8);
        out.push((w & 0xFF) as u8);
    }
    out
}

fn machine(words: &[u16]) -> Chip8 {
    Chip8::from_rom(&image(words)).unwrap()
}

fn run(c: &mut Chip8, steps: usize) {
    for _ in 0..steps {
        assert_eq!(c.step(0, 0), Ok(()));
    }
}

#[test]
fn add_registers_sets_carry_on_overflow() {
    let mut c = machine(&[0x60FF, 0x6101, 0x8014]);
    run(&mut c, 3);
    assert_eq!(c.register(0), 0x00);
    assert_eq!(c.register(0xF), 1);
}

#[test]
fn add_registers_clears_carry_without_overflow() {
    let mut c = machine(&[0x6001, 0x6101, 0x6F07, 0x8014]);
    run(&mut c, 4);
    assert_eq!(c.register(0), 0x02);
    assert_eq!(c.register(0xF), 0);
}

#[test]
fn subtract_with_borrow() {
    let mut c = machine(&[0x6005, 0x610A, 0x8015]);
    run(&mut c, 3);
    assert_eq!(c.register(0xF), 0);
    assert_eq!(c.register(0), 251);
}

#[test]
fn subtract_without_borrow() {
    let mut c = machine(&[0x600A, 0x6105, 0x8015]);
    run(&mut c, 3);
    assert_eq!(c.register(0xF), 1);
    assert_eq!(c.register(0), 5);
}

#[test]
fn reverse_subtract_sets_flag_from_operands() {
    let mut c = machine(&[0x600A, 0x6105, 0x8017]);
    run(&mut c, 3);
    assert_eq!(c.register(0xF), 0);
    assert_eq!(c.register(0), 251);
}

#[test]
fn shift_right_captures_low_bit() {
    let mut c = machine(&[0x6003, 0x8006]);
    run(&mut c, 2);
    assert_eq!(c.register(0xF), 1);
    assert_eq!(c.register(0), 0b0000_0001);
}

#[test]
fn shift_left_captures_high_bit() {
    let mut c = machine(&[0x6081, 0x800E]);
    run(&mut c, 2);
    assert_eq!(c.register(0xF), 1);
    assert_eq!(c.register(0), 0x02);
}

#[test]
fn bitwise_operations() {
    let mut c = machine(&[0x600C, 0x610A, 0x8011]);
    run(&mut c, 3);
    assert_eq!(c.register(0), 0x0E);
    let mut c = machine(&[0x600C, 0x610A, 0x8012]);
    run(&mut c, 3);
    assert_eq!(c.register(0), 0x08);
    let mut c = machine(&[0x600C, 0x610A, 0x8013]);
    run(&mut c, 3);
    assert_eq!(c.register(0), 0x06);
}

#[test]
fn add_immediate_wraps_without_flag() {
    let mut c = machine(&[0x60FF, 0x7002]);
    run(&mut c, 2);
    assert_eq!(c.register(0), 0x01);
    assert_eq!(c.register(0xF), 0);
}

fn padded(parts: &[(usize, u16)]) -> Chip8 {
    let mut rom = vec![0u8; 0x400];
    for (addr, w) in parts {
        rom[addr - PROGRAM_START] = (w >> 8) as u8;
        rom[addr - PROGRAM_START + 1] = (w & 0xFF) as u8;
    }
    Chip8::from_rom(&rom).unwrap()
}

#[test]
fn call_then_return_resumes_after_the_call() {
    let mut c = padded(&[(0x200, 0x1300), (0x300, 0x2400), (0x400, 0x00EE)]);
    run(&mut c, 1);
    assert_eq!(c.pc(), 0x300);
    run(&mut c, 1);
    assert_eq!(c.pc(), 0x400);
    assert_eq!(c.stack_depth(), 1);
    run(&mut c, 1);
    assert_eq!(c.pc(), 0x302);
    assert_eq!(c.stack_depth(), 0);
}

#[test]
fn seventeenth_nested_call_overflows() {
    let mut c = machine(&[0x2200]);
    run(&mut c, 16);
    assert_eq!(c.stack_depth(), 16);
    let before = c.snapshot();
    assert_eq!(c.step(0, 0), Err(Fault::StackOverflow));
    assert_eq!(c.stack_depth(), 16);
    assert_eq!(c.pc(), 0x200);
    assert_eq!(c.snapshot(), before);
}

#[test]
fn return_on_empty_stack_underflows() {
    let mut c = machine(&[0x00EE]);
    assert_eq!(c.step(0, 0), Err(Fault::StackUnderflow));
    assert_eq!(c.pc(), 0x200);
}

#[test]
fn skip_taken_advances_by_four() {
    for words in [
        [0x6000u16, 0x3000],
        [0x6001, 0x4000],
        [0x6100, 0x5010],
        [0x6101, 0x9010],
    ] {
        let mut c = machine(&words);
        run(&mut c, 2);
        assert_eq!(c.pc(), 0x206);
    }
}

#[test]
fn skip_not_taken_advances_by_two() {
    for words in [
        [0x6001u16, 0x3000],
        [0x6000, 0x4000],
        [0x6101, 0x5010],
        [0x6100, 0x9010],
    ] {
        let mut c = machine(&words);
        run(&mut c, 2);
        assert_eq!(c.pc(), 0x204);
    }
}

#[test]
fn key_skips_follow_the_key_bitmap() {
    let mut c = machine(&[0x6005, 0xE09E]);
    run(&mut c, 1);
    assert_eq!(c.step(0, 1 << 5), Ok(()));
    assert_eq!(c.pc(), 0x206);
    let mut c = machine(&[0x6005, 0xE09E]);
    run(&mut c, 1);
    assert_eq!(c.step(0, 1 << 4), Ok(()));
    assert_eq!(c.pc(), 0x204);
    let mut c = machine(&[0x6005, 0xE0A1]);
    run(&mut c, 1);
    assert_eq!(c.step(0, 0), Ok(()));
    assert_eq!(c.pc(), 0x206);
}

#[test]
fn delay_timer_decays_to_zero_and_stays() {
    let mut c = machine(&[0x6005, 0xF015, 0x6000, 0x6000, 0x6000, 0x6000, 0x6000, 0x6000, 0x6000]);
    run(&mut c, 2);
    assert_eq!(c.delay_timer(), 5);
    run(&mut c, 5);
    assert_eq!(c.delay_timer(), 0);
    run(&mut c, 2);
    assert_eq!(c.delay_timer(), 0);
}

#[test]
fn sound_timer_and_delay_read_back() {
    let mut c = machine(&[0x6003, 0xF018, 0xF015, 0xF107]);
    run(&mut c, 2);
    assert_eq!(c.sound_timer(), 3);
    run(&mut c, 2);
    assert_eq!(c.register(1), 2);
    assert_eq!(c.sound_timer(), 3);
}

#[test]
fn sound_timer_ticks_on_its_own() {
    let mut c = machine(&[0x6002, 0xF018]);
    run(&mut c, 2);
    assert_eq!(c.sound_timer(), 2);
    c.tick_sound_timer();
    assert_eq!(c.sound_timer(), 1);
    c.tick_sound_timer();
    c.tick_sound_timer();
    assert_eq!(c.sound_timer(), 0);
    assert_eq!(c.pc(), 0x204);
}

#[test]
fn unrecognized_word_keeps_sound_timer() {
    let mut c = machine(&[0x6005, 0xF018, 0xF015, 0x0123]);
    run(&mut c, 4);
    assert_eq!(c.sound_timer(), 5);
    assert_eq!(c.delay_timer(), 4);
    assert_eq!(c.pc(), 0x208);
}

#[test]
fn oversized_image_is_refused() {
    let rom = vec![0xAAu8; MEMORY_SIZE - PROGRAM_START + 1];
    assert!(matches!(Chip8::from_rom(&rom), Err(LoadError)));
    let mut c = machine(&[0x1234]);
    let before = c.snapshot();
    assert_eq!(c.load(&rom), Err(LoadError));
    assert_eq!(c.snapshot(), before);
}

#[test]
fn image_that_fills_memory_is_loaded() {
    let rom = vec![0x5Au8; MEMORY_SIZE - PROGRAM_START];
    let c = Chip8::from_rom(&rom).unwrap();
    let mem = c.snapshot();
    assert_eq!(mem.len(), MEMORY_SIZE);
    assert!(mem[..PROGRAM_START].iter().all(|b| *b == 0));
    assert!(mem[PROGRAM_START..].iter().all(|b| *b == 0x5A));
    assert_eq!(c.pc(), PROGRAM_START);
}

#[test]
fn fetch_past_the_end_of_memory_faults() {
    let mut c = machine(&[0x1FFF]);
    run(&mut c, 1);
    assert_eq!(c.step(0, 0), Err(Fault::MemoryOutOfBounds));
    assert_eq!(c.pc(), 0xFFF);
}

#[test]
fn random_byte_is_masked() {
    let mut c = machine(&[0xC00F]);
    assert_eq!(c.step(0xAB, 0), Ok(()));
    assert_eq!(c.register(0), 0x0B);
    let mut c = machine(&[0xC0F0]);
    assert_eq!(c.tick(0), Ok(()));
    assert_eq!(c.register(0) & 0x0F, 0);
}

#[test]
fn key_wait_suspends_until_a_key_is_supplied() {
    let mut c = machine(&[0xF30A, 0x6101]);
    run(&mut c, 1);
    assert_eq!(c.awaiting_key(), Some(3));
    assert_eq!(c.step(0, 0), Err(Fault::AwaitingKey));
    c.supply_key(7);
    assert_eq!(c.awaiting_key(), None);
    assert_eq!(c.register(3), 7);
    run(&mut c, 1);
    assert_eq!(c.register(1), 1);
}

#[test]
fn bcd_stores_three_digits() {
    let mut c = machine(&[0x60FE, 0xA300, 0xF033]);
    run(&mut c, 3);
    let mem = c.snapshot();
    assert_eq!(&mem[0x300..0x303], &[2, 5, 4]);
}

#[test]
fn bcd_past_the_end_of_memory_faults() {
    let mut c = machine(&[0xAFFE, 0xF033]);
    run(&mut c, 1);
    assert_eq!(c.step(0, 0), Err(Fault::MemoryOutOfBounds));
    assert_eq!(c.pc(), 0x202);
}

#[test]
fn store_and_load_register_ranges() {
    let mut c = machine(&[
        0x6011, 0x6122, 0x6233, 0x6344, 0xA300, 0xF255, 0x6000, 0x6100, 0x6200, 0xF265,
    ]);
    run(&mut c, 6);
    let mem = c.snapshot();
    assert_eq!(&mem[0x300..0x304], &[0x11, 0x22, 0x33, 0x00]);
    run(&mut c, 4);
    assert_eq!(c.register(0), 0x11);
    assert_eq!(c.register(1), 0x22);
    assert_eq!(c.register(2), 0x33);
    assert_eq!(c.register(3), 0x44);
}

#[test]
fn index_register_instructions() {
    let mut c = machine(&[0xA123, 0x6010, 0xF01E, 0x6107, 0xF129]);
    run(&mut c, 3);
    assert_eq!(c.index(), 0x133);
    run(&mut c, 2);
    assert_eq!(c.index(), 35);
}

#[test]
fn jump_with_offset_adds_v0() {
    let mut c = machine(&[0x6004, 0xB300]);
    run(&mut c, 2);
    assert_eq!(c.pc(), 0x304);
}

#[test]
fn unrecognized_words_are_ignored() {
    let mut c = machine(&[0x0123, 0x00E0, 0xD125]);
    let before = c.snapshot();
    run(&mut c, 3);
    assert_eq!(c.pc(), 0x206);
    assert_eq!(c.snapshot(), before);
}
