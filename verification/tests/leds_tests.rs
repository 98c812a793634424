//! The LED driver client against the simulated kernel.

use libtock::error_code::ErrorCode;
use libtock::fake::Kernel;
use libtock::leds::Leds;

#[test]
fn no_driver() {
    let mut kernel = Kernel::new();
    assert_eq!(Leds::count(&mut kernel), None);
}

#[test]
fn driver_check() {
    let mut kernel = Kernel::new();
    kernel.add_leds(10);

    assert!(Leds::count(&mut kernel).is_some());
    for led in 0..10 {
        assert_eq!(kernel.get_led(led), Some(false));
    }
}

#[test]
fn num_leds() {
    let mut kernel = Kernel::new();
    kernel.add_leds(10);
    assert_eq!(Leds::count(&mut kernel).unwrap_or_default(), 10);
}

#[test]
fn on() {
    let mut kernel = Kernel::new();
    kernel.add_leds(10);

    Leds::on(&mut kernel, 0);
    assert_eq!(kernel.get_led(0), Some(true));
}

#[test]
fn off() {
    let mut kernel = Kernel::new();
    kernel.add_leds(10);

    Leds::off(&mut kernel, 0);
    assert_eq!(kernel.get_led(0), Some(false));
}

#[test]
fn toggle() {
    let mut kernel = Kernel::new();
    kernel.add_leds(10);

    Leds::toggle(&mut kernel, 0);
    assert_eq!(kernel.get_led(0), Some(true));
    Leds::toggle(&mut kernel, 0);
    assert_eq!(kernel.get_led(0), Some(false));
}

#[test]
fn on_off() {
    let mut kernel = Kernel::new();
    kernel.add_leds(10);

    Leds::on(&mut kernel, 0);
    assert_eq!(kernel.get_led(0), Some(true));
    Leds::off(&mut kernel, 0);
    assert_eq!(kernel.get_led(0), Some(false));
}

#[test]
fn no_led() {
    let mut kernel = Kernel::new();
    kernel.add_leds(10);

    Leds::on(&mut kernel, 11);
    for led in 0..Leds::count(&mut kernel).unwrap_or_default() {
        assert_eq!(kernel.get_led(led), Some(false));
    }
}

#[test]
fn only_the_addressed_led_changes() {
    let mut kernel = Kernel::new();
    kernel.add_leds(10);

    Leds::on(&mut kernel, 0);
    assert_eq!(kernel.get_led(0), Some(true));
    for led in 1..10 {
        assert_eq!(kernel.get_led(led), Some(false));
    }
}

#[test]
fn unknown_led_command_is_refused() {
    let mut kernel = Kernel::new();
    kernel.add_leds(10);

    let cr = kernel.command(libtock::fake::LED_DRIVER_NUM, 9, 0, 0);
    assert_eq!(cr.get_failure(), Some(ErrorCode::NoSupport));

    let cr = kernel.command(libtock::fake::LED_DRIVER_NUM, libtock::fake::LED_ON, 11, 0);
    assert_eq!(cr.get_failure(), Some(ErrorCode::Invalid));

    let cr = kernel.command(0x99, 0, 0, 0);
    assert_eq!(cr.get_failure(), Some(ErrorCode::NoDevice));
}
