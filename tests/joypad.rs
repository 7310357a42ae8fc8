use nes_emu::joypad::Joypad;
use nes_emu::joypad::JoypadButton;

#[test]
fn test_strobe() {
    let mut joypad = Joypad::new();
    joypad.write(1);
    joypad.set_status(JoypadButton::BUTTON_A, true);
    for _x in 0 .. 10 {
        assert_eq!(joypad.read(), 1);
    }
}

#[test]
fn test_strobe_mode_flip() {
    let mut joypad = Joypad::new();

    joypad.write(0);
    joypad.set_status(JoypadButton::RIGHT,    true);
    joypad.set_status(JoypadButton::LEFT,     true);
    joypad.set_status(JoypadButton::SELECT,   true);
    joypad.set_status(JoypadButton::BUTTON_B, true);

    for _ in 0 ..= 1 {
        assert_eq!(joypad.read(), 0); // Btn A
        assert_eq!(joypad.read(), 1); // Btn B
        assert_eq!(joypad.read(), 1); // Select
        assert_eq!(joypad.read(), 0); // Start
        assert_eq!(joypad.read(), 0); // UP
        assert_eq!(joypad.read(), 0); // DOWN
        assert_eq!(joypad.read(), 1); // LEFT
        assert_eq!(joypad.read(), 1); // RIGHT

        for _x in 0 .. 10 {
            assert_eq!(joypad.read(), 1); // overrun
        }
        joypad.write(1);
        joypad.write(0);
    }
}
