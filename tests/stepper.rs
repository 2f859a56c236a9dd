use std::cell::RefCell;
use std::rc::Rc;

use embedded_hal::delay::DelayNs;
use embedded_stepper::driver::StepperMotor;
use embedded_stepper::motors::{five_wire_levels, four_wire_levels, two_wire_levels};
use embedded_stepper::stepper::{Direction, Stepper};

#[derive(Debug, Clone, PartialEq)]
enum Event {
    Wait(u32),
    Step(u32),
    Clear,
}

type Log = Rc<RefCell<Vec<Event>>>;

/// Delay provider that records each wait instead of sleeping.
struct LogDelay {
    log: Log,
}

impl DelayNs for LogDelay {
    fn delay_ns(&mut self, _ns: u32) {}

    fn delay_us(&mut self, us: u32) {
        self.log.borrow_mut().push(Event::Wait(us));
    }
}

/// Coil driver that records each call and fails on the call numbered `fail_on`.
struct LogMotor {
    log: Log,
    calls: u32,
    fail_on: Option<u32>,
    patterns: Vec<[bool; 4]>,
}

impl StepperMotor for LogMotor {
    type Error = &'static str;

    fn step(&mut self, this_step: u32) -> Result<(), Self::Error> {
        self.calls += 1;
        self.log.borrow_mut().push(Event::Step(this_step));
        self.patterns.push(four_wire_levels(this_step));
        if Some(self.calls) == self.fail_on {
            Err("pin failure")
        } else {
            Ok(())
        }
    }

    fn clear(&mut self) -> Result<(), Self::Error> {
        self.log.borrow_mut().push(Event::Clear);
        self.patterns.push([false; 4]);
        Ok(())
    }
}

fn stepper(n: u32, fail_on: Option<u32>) -> (Stepper<LogMotor, LogDelay>, Log) {
    let log: Log = Rc::new(RefCell::new(Vec::new()));
    let motor = LogMotor { log: log.clone(), calls: 0, fail_on, patterns: Vec::new() };
    let delay = LogDelay { log: log.clone() };
    (Stepper::new(n, motor, delay), log)
}

fn steps_of(log: &Log) -> Vec<u32> {
    log.borrow()
        .iter()
        .filter_map(|e| match e {
            Event::Step(i) => Some(*i),
            _ => None,
        })
        .collect()
}

#[test]
fn two_wire_table_rows() {
    assert_eq!(two_wire_levels(0), [false, true]);
    assert_eq!(two_wire_levels(1), [true, true]);
    assert_eq!(two_wire_levels(2), [true, false]);
    assert_eq!(two_wire_levels(3), [false, false]);
    assert_eq!(two_wire_levels(6), [true, false]);
    assert_eq!(two_wire_levels(u32::MAX), [false, false]);
}

#[test]
fn four_wire_table_rows() {
    assert_eq!(four_wire_levels(0), [true, false, true, false]);
    assert_eq!(four_wire_levels(1), [false, true, true, false]);
    assert_eq!(four_wire_levels(2), [false, true, false, true]);
    assert_eq!(four_wire_levels(3), [true, false, false, true]);
    assert_eq!(four_wire_levels(5), [false, true, true, false]);
}

#[test]
fn five_wire_table_rows() {
    let rows = [
        [false, true, true, false, true],
        [false, true, false, false, true],
        [false, true, false, true, true],
        [false, true, false, true, false],
        [true, true, false, true, false],
        [true, false, false, true, false],
        [true, false, true, true, false],
        [true, false, true, false, false],
        [true, false, true, false, true],
        [false, false, true, false, true],
    ];
    for (i, row) in rows.iter().enumerate() {
        assert_eq!(five_wire_levels(i as u32), *row);
        assert_eq!(five_wire_levels(i as u32 + 10), *row);
    }
    assert_eq!(five_wire_levels(23), rows[3]);
}

#[test]
fn four_pin_steps_produce_the_four_patterns_in_order() {
    let log: Log = Rc::new(RefCell::new(Vec::new()));
    let mut m = LogMotor { log, calls: 0, fail_on: None, patterns: Vec::new() };
    for i in 0..4u32 {
        m.step(i).unwrap();
    }
    assert_eq!(
        m.patterns,
        vec![
            [true, false, true, false],
            [false, true, true, false],
            [false, true, false, true],
            [true, false, false, true],
        ]
    );
}

#[test]
fn four_pin_move_cycles_through_the_patterns() {
    let (mut s, log) = stepper(4, None);
    s.step(4).unwrap();
    assert_eq!(steps_of(&log), vec![1, 2, 3, 0]);
    assert_eq!(
        s.motor_ref().patterns,
        vec![
            [false, true, true, false],
            [false, true, false, true],
            [true, false, false, true],
            [true, false, true, false],
        ]
    );
}

#[test]
fn new_starts_at_zero_forward_unpaced() {
    let (s, _log) = stepper(200, None);
    assert_eq!(s.step_number(), 0);
    assert_eq!(s.direction(), Direction::Forward);
    assert_eq!(s.step_delay(), 0);
    assert_eq!(s.number_of_steps(), 200);
}

#[test]
fn full_cycle_of_four_returns_to_start() {
    for start in 0..4i32 {
        let (mut s, _log) = stepper(4, None);
        s.step(start).unwrap();
        assert_eq!(s.step_number(), start as u32);
        s.step(4).unwrap();
        assert_eq!(s.step_number(), start as u32);
    }
}

#[test]
fn full_cycle_of_ten_returns_to_start() {
    for start in 0..10i32 {
        let (mut s, _log) = stepper(10, None);
        s.step(start).unwrap();
        s.step(10).unwrap();
        assert_eq!(s.step_number(), start as u32);
    }
}

#[test]
fn backward_then_forward_restores_index() {
    for n in [0i32, 1, 3, 4, 7, 25] {
        for start in 0..5i32 {
            let (mut s, _log) = stepper(5, None);
            s.step(start).unwrap();
            s.step(-n).unwrap();
            assert_eq!(s.direction(), if n > 0 { Direction::Backward } else { Direction::Forward });
            s.step(n).unwrap();
            assert_eq!(s.step_number(), start as u32);
        }
    }
}

#[test]
fn backward_wraps_from_zero_to_last() {
    let (mut s, log) = stepper(4, None);
    s.step(-1).unwrap();
    assert_eq!(s.step_number(), 3);
    assert_eq!(s.direction(), Direction::Backward);
    s.step(-3).unwrap();
    assert_eq!(s.step_number(), 0);
    assert_eq!(steps_of(&log), vec![3, 2, 1, 0]);
}

#[test]
fn forward_wraps_at_cycle_end() {
    let (mut s, log) = stepper(4, None);
    s.step(6).unwrap();
    assert_eq!(steps_of(&log), vec![1, 2, 3, 0, 1, 2]);
    assert_eq!(s.step_number(), 2);
}

#[test]
fn zero_steps_does_nothing_but_set_forward() {
    let (mut s, log) = stepper(4, None);
    s.step(-2).unwrap();
    s.step(0).unwrap();
    assert_eq!(s.direction(), Direction::Forward);
    assert_eq!(s.step_number(), 2);
    assert_eq!(steps_of(&log).len(), 2);
}

#[test]
fn zero_speed_gives_zero_delay() {
    let (mut s, _log) = stepper(200, None);
    s.set_speed(10);
    assert_eq!(s.step_delay(), 30_000);
    s.set_speed(0);
    assert_eq!(s.step_delay(), 0);
}

#[test]
fn empty_cycle_gives_zero_delay() {
    let (mut s, _log) = stepper(0, None);
    s.set_speed(60);
    assert_eq!(s.step_delay(), 0);
}

#[test]
fn one_microsecond_at_sixty_rpm_over_a_million_steps() {
    let (mut s, _log) = stepper(1_000_000, None);
    s.set_speed(60);
    assert_eq!(s.step_delay(), 1);
}

#[test]
fn delay_divides_left_to_right() {
    let (mut s, _log) = stepper(48, None);
    s.set_speed(625);
    assert_eq!(s.step_delay(), 2000);
    let (mut t, _log) = stepper(7, None);
    t.set_speed(3);
    // 60_000_000 / 7 = 8_571_428, then / 3 = 2_857_142
    assert_eq!(t.step_delay(), 2_857_142);
    let (mut u, _log) = stepper(100_000_000, None);
    u.set_speed(1);
    assert_eq!(u.step_delay(), 0);
}

#[test]
fn each_step_waits_before_energising() {
    let (mut s, log) = stepper(4, None);
    s.set_speed(100);
    s.step(2).unwrap();
    assert_eq!(
        *log.borrow(),
        vec![Event::Wait(150_000), Event::Step(1), Event::Wait(150_000), Event::Step(2)]
    );
}

#[test]
fn failure_on_third_step_stops_the_move() {
    let (mut s, log) = stepper(200, Some(3));
    assert_eq!(s.step(5), Err("pin failure"));
    assert_eq!(s.motor_ref().calls, 3);
    assert_eq!(steps_of(&log), vec![1, 2, 3]);
    assert_eq!(s.step_number(), 3);
    assert_eq!(s.direction(), Direction::Forward);
}

#[test]
fn failure_on_first_backward_step_keeps_advanced_index() {
    let (mut s, _log) = stepper(4, Some(1));
    assert_eq!(s.step(-2), Err("pin failure"));
    assert_eq!(s.step_number(), 3);
    assert_eq!(s.motor_ref().calls, 1);
}

#[test]
fn deenergise_delegates_to_clear() {
    let (mut s, log) = stepper(4, None);
    s.step(1).unwrap();
    s.deenergise().unwrap();
    assert_eq!(*log.borrow().last().unwrap(), Event::Clear);
    assert_eq!(*s.motor_ref().patterns.last().unwrap(), [false; 4]);
    assert_eq!(s.step_number(), 1);
}

#[test]
fn empty_cycle_index_arithmetic_wraps() {
    let (mut s, _log) = stepper(0, None);
    s.step(2).unwrap();
    assert_eq!(s.step_number(), 2);
    let (mut t, _log) = stepper(0, None);
    t.step(-1).unwrap();
    assert_eq!(t.step_number(), u32::MAX);
}
