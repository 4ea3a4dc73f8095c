use loco::line::{DigitalInput, DigitalOutput, PwmOutput, Reading};
use loco::motor::{DCMotor, MotorController};
use loco::power::PowerSwitch;
use loco::Status;

fn controller(max_duty: u32) -> MotorController {
    MotorController::new(
        PwmOutput::new(255),
        (PwmOutput::new(max_duty), PwmOutput::new(max_duty)),
        (DigitalOutput::new(false), DigitalOutput::new(false)),
        DigitalOutput::new(false),
        DigitalOutput::new(false),
        DigitalInput::new(Reading::High),
    )
}

#[test]
fn digital_output_records_the_level() {
    let mut line = DigitalOutput::new(false);
    assert!(!line.is_set_high());
    line.set_high();
    assert!(line.is_set_high());
    line.set_low();
    assert!(!line.is_set_high());
    line.set(true);
    assert_eq!(line, DigitalOutput { high: true });
}

#[test]
fn digital_input_reports_its_last_reading() {
    let mut line = DigitalInput::new(Reading::High);
    assert_eq!(line.is_low(), Some(false));
    line.latch(Reading::Low);
    assert_eq!(line.is_low(), Some(true));
    line.latch(Reading::Unreadable);
    assert_eq!(line.is_low(), None);
}

#[test]
fn pwm_output_records_duty_and_enable() {
    let mut pwm = PwmOutput::new(4000);
    assert_eq!(pwm, PwmOutput { max_duty: 4000, duty: 0, enabled: false });
    assert_eq!(pwm.get_max_duty(), 4000);
    pwm.set_duty(17);
    pwm.enable();
    assert_eq!(pwm, PwmOutput { max_duty: 4000, duty: 17, enabled: true });
    pwm.disable();
    assert_eq!(pwm, PwmOutput { max_duty: 4000, duty: 17, enabled: false });
}

#[test]
fn pwm_share_rounds_down() {
    let pwm = PwmOutput::new(1000);
    assert_eq!(pwm.share_of(0), 0);
    assert_eq!(pwm.share_of(1), 3);
    assert_eq!(pwm.share_of(128), 501);
    assert_eq!(pwm.share_of(254), 996);
    assert_eq!(pwm.share_of(255), 1000);
    let widest = PwmOutput::new(u32::MAX);
    assert_eq!(widest.share_of(255), u32::MAX);
    assert_eq!(widest.share_of(1), 16843009);
}

#[test]
fn power_switch_turns_on_and_off() {
    let mut switch = PowerSwitch::new(DigitalOutput::new(false), DigitalInput::new(Reading::High));
    assert!(!switch.enable_pin().is_set_high());
    switch.on();
    assert!(switch.enable_pin().is_set_high());
    switch.off();
    assert!(!switch.enable_pin().is_set_high());
}

#[test]
fn power_switch_fault_is_a_low_or_unreadable_sense_line() {
    let mut switch = PowerSwitch::new(DigitalOutput::new(true), DigitalInput::new(Reading::High));
    assert!(!switch.fault_detected());
    switch.sense(Reading::Low);
    assert!(switch.fault_detected());
    switch.sense(Reading::Unreadable);
    assert!(switch.fault_detected());
    switch.sense(Reading::High);
    assert!(!switch.fault_detected());
    assert!(switch.enable_pin().is_set_high());
}

#[test]
fn motor_controller_on_enables_both_channels_at_zero() {
    let mut motors = controller(1000);
    motors.set_speed(DCMotor::MotorA, 100);
    motors.on();
    assert_eq!(motors.speed_pwm().0, PwmOutput { max_duty: 1000, duty: 0, enabled: true });
    assert_eq!(motors.speed_pwm().1, PwmOutput { max_duty: 1000, duty: 0, enabled: true });
    assert!(motors.standby_pin().is_set_high());
    motors.off();
    assert!(!motors.standby_pin().is_set_high());
}

#[test]
fn motor_controller_enable_line() {
    let mut motors = controller(1000);
    motors.enable();
    assert!(motors.enable_pin().is_set_high());
    motors.disable();
    assert!(!motors.enable_pin().is_set_high());
}

#[test]
fn motor_controller_fault_line() {
    let mut motors = controller(1000);
    assert!(!motors.fault_detected());
    motors.sense_fault(Reading::Low);
    assert!(motors.fault_detected());
}

#[test]
fn motor_controller_set_tork() {
    let mut motors = controller(1000);
    motors.set_tork(51);
    assert_eq!(motors.ref_pwm(), PwmOutput { max_duty: 255, duty: 51, enabled: true });
    motors.set_tork(255);
    assert_eq!(motors.ref_pwm().duty, 255);
}

#[test]
fn set_speed_scales_the_duty_by_the_magnitude() {
    let mut motors = controller(1000);
    assert_eq!(motors.set_speed(DCMotor::MotorA, 127), Status::Busy);
    assert_eq!(motors.speed_pwm().0.duty, 1000);
    assert_eq!(motors.set_speed(DCMotor::MotorA, 64), Status::Busy);
    assert_eq!(motors.speed_pwm().0.duty, 503);
    assert_eq!(motors.set_speed(DCMotor::MotorA, -1), Status::Busy);
    assert_eq!(motors.speed_pwm().0.duty, 7);
    assert_eq!(motors.set_speed(DCMotor::MotorA, -127), Status::Busy);
    assert_eq!(motors.speed_pwm().0.duty, 1000);
    assert_eq!(motors.speed_pwm().1.duty, 0);
}

#[test]
fn set_speed_of_zero_is_idle() {
    let mut motors = controller(1000);
    motors.set_speed(DCMotor::MotorB, 90);
    assert_eq!(motors.set_speed(DCMotor::MotorB, 0), Status::Idle);
    assert_eq!(motors.speed_pwm().1.duty, 0);
    assert!(!motors.phase_pins().1.is_set_high());
    assert_eq!(motors.set_speed(DCMotor::MotorA, 0), Status::Idle);
    assert!(!motors.phase_pins().0.is_set_high());
}

#[test]
fn set_speed_of_the_most_negative_command() {
    let mut motors = controller(1000);
    assert_eq!(motors.set_speed(DCMotor::MotorA, -128), Status::Busy);
    assert_eq!(motors.speed_pwm().0.duty, 1007);
    assert!(motors.phase_pins().0.is_set_high());
    let mut widest = controller(u32::MAX);
    widest.set_speed(DCMotor::MotorB, -128);
    assert_eq!(widest.speed_pwm().1.duty, u32::MAX);
    widest.set_speed(DCMotor::MotorB, 1);
    assert_eq!(widest.speed_pwm().1.duty, 33818640);
}

#[test]
fn phase_lines_follow_the_sign() {
    let mut motors = controller(1000);
    motors.set_speed(DCMotor::MotorA, -5);
    assert!(motors.phase_pins().0.is_set_high());
    motors.set_speed(DCMotor::MotorA, 5);
    assert!(!motors.phase_pins().0.is_set_high());
    motors.set_speed(DCMotor::MotorB, 5);
    assert!(motors.phase_pins().1.is_set_high());
    motors.set_speed(DCMotor::MotorB, -5);
    assert!(!motors.phase_pins().1.is_set_high());
    assert!(!motors.phase_pins().0.is_set_high());
}
