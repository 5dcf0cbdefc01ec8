use chip8_emulator::register::{
    AddressRegister, DataRegisters, Keypad, ProgramCounter, RegisterError, Screen, Timer,
};
use chip8_emulator::memory::Memory;
use chip8_emulator::fonts::FontSet;
use chip8_emulator::keymap::HexKeyMap;

#[test]
fn data_registers_by_hex_identifier() {
    let mut regs = DataRegisters::default();
    assert_eq!(regs.write('f', 3), Ok(0));
    assert_eq!(regs.read('F'), Ok(3));
    assert_eq!(regs.read('f'), Ok(3));
    assert_eq!(regs.write('0', 9), Ok(0));
    assert_eq!(regs.read('0'), Ok(9));
    assert_eq!(regs.read('g'), Err(RegisterError::UnknownIdentifier('g')));
    assert_eq!(regs.write('!', 1), Err(RegisterError::UnknownIdentifier('!')));
}

#[test]
fn data_registers_by_index() {
    let mut regs = DataRegisters::default();
    assert_eq!(regs.write_idx(15, 200), Ok(0));
    assert_eq!(regs.write_idx(15, 100), Ok(200));
    assert_eq!(regs.read_idx(15), Ok(100));
    assert_eq!(regs.read_idx(16), Err(RegisterError::RegisterIndexOutOfBounds));
    assert_eq!(regs.write_idx(16, 1), Err(RegisterError::RegisterIndexOutOfBounds));
}

#[test]
fn address_register_masks_to_twelve_bits() {
    let mut reg = AddressRegister::default();
    assert_eq!(reg.read(), 0);
    assert_eq!(reg.write(0xFFFF), Ok(()));
    assert_eq!(reg.read(), 0xFFF);
    assert_eq!(reg.step(2), Ok(()));
    assert_eq!(reg.read(), 0x001);
}

#[test]
fn program_counter_starts_at_program_offset() {
    let mut pc = ProgramCounter::default();
    assert_eq!(pc.read(), 0x200);
    assert_eq!(pc.step(2), Ok(()));
    assert_eq!(pc.read(), 0x202);
    assert_eq!(pc.write(0xFFE), Ok(()));
    assert_eq!(pc.step(4), Ok(()));
    assert_eq!(pc.read(), 0x002);
}

#[test]
fn screen_set_get_and_clear() {
    let mut screen = Screen::default();
    assert!(!screen.get(0));
    screen.set(0, true);
    screen.set(2047, true);
    assert!(screen.get(0));
    assert!(screen.get(2047));
    screen.clear();
    for index in 0..2048 {
        assert!(!screen.get(index));
    }
}

#[test]
fn timer_floors_at_zero() {
    let mut timer = Timer::new(2);
    assert_eq!(timer.value(), 2);
    timer.tick();
    assert_eq!(timer.value(), 1);
    timer.tick();
    assert_eq!(timer.value(), 0);
    timer.tick();
    assert_eq!(timer.value(), 0);
    timer.reset(7);
    assert_eq!(timer.value(), 7);
}

#[test]
fn keypad_press_and_release() {
    let mut keypad = Keypad::default();
    assert!(!keypad.is_pressed(3));
    keypad.press('3');
    assert!(keypad.is_pressed(3));
    assert!(keypad.is_pressed(0x13));
    keypad.unpress('3');
    assert!(!keypad.is_pressed(3));
    keypad.press('!');
    for key in 0..16 {
        assert!(!keypad.is_pressed(key));
    }
}

#[test]
fn memory_loads_font_at_offset() {
    let mut memory = Memory::new();
    memory.load_font_data(&FontSet::default(), 100);
    assert_eq!(memory.read(100), 0xF0);
    assert_eq!(memory.read(179), 0x80);
    assert_eq!(memory.read(99), 0);
    assert_eq!(memory.read(180), 0);
}

#[test]
fn font_glyphs_render_as_text() {
    let fontset = FontSet::default();
    assert_eq!(
        fontset.show_digit(0).unwrap(),
        "****\n*  *\n*  *\n*  *\n****\n"
    );
    assert_eq!(
        fontset.show_digit(1).unwrap(),
        "  * \n ** \n  * \n  * \n ***\n"
    );
    assert!(fontset.show_digit(16).is_err());
}

#[test]
fn key_map_follows_the_fixed_layout() {
    let map = HexKeyMap::default();
    let layout = [
        '1', '2', '3', '4', 'q', 'w', 'e', 'r', 'a', 's', 'd', 'f', 'z', 'x', 'c', 'v',
    ];
    for (code, key) in layout.iter().enumerate() {
        assert_eq!(map.get(*key), Some(code as u8));
    }
    assert_eq!(map.get('5'), None);
    assert_eq!(map.get('Q'), None);
}
