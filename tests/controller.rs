use lochnes::controller::{Controller, StrobeMode};

#[test]
fn test_controller_init_state() {
    let controller = Controller::new();
    assert_eq!(0b0000_0000, controller.status);
    assert_eq!(0, controller.index);
    assert_eq!(StrobeMode::OFF, controller.strobe_mode);
}

#[test]
fn test_read_when_strobe_mode_is_off() {
    let mut controller = Controller::new();
    controller.press_button(Controller::BUTTON_B);
    assert_eq!(controller.read_u8(), 0);
    assert_eq!(controller.read_u8(), 1);
    assert_eq!(controller.index, 2);
}

#[test]
fn test_read_u8_when_strobe_mode_is_off() {
    let mut controller = Controller::new();
    controller.press_button(Controller::RIGHT);
    let reads: Vec<u8> = (0..8).map(|_| controller.read_u8()).collect();
    assert_eq!(reads, vec![0, 0, 0, 0, 0, 0, 0, 1]);
    // Past the eighth button every read reports 1.
    assert_eq!(controller.read_u8(), 1);
}

#[test]
fn test_read_u8_when_strobe_mode_is_on() {
    let mut controller = Controller::new();
    controller.write(1);
    controller.press_button(Controller::BUTTON_A);
    assert_eq!(controller.read_u8(), 1);
    assert_eq!(controller.read_u8(), 1);
    assert_eq!(controller.index, 0);
    controller.release_button(Controller::BUTTON_A);
    assert_eq!(controller.read_u8(), 0);
}

#[test]
fn test_write() {
    let mut controller = Controller::new();
    controller.read_u8();
    controller.read_u8();
    controller.write(1);
    assert_eq!(controller.strobe_mode, StrobeMode::ON);
    assert_eq!(controller.index, 0);
    controller.write(0);
    assert_eq!(controller.strobe_mode, StrobeMode::OFF);
}

#[test]
fn controller_release_keeps_other_buttons() {
    let mut controller = Controller::new();
    controller.press_button(Controller::UP | Controller::START);
    controller.release_button(Controller::UP);
    assert_eq!(controller.status, Controller::START);
}
