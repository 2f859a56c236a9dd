//! Blocking stepper controller.
//!
//! The controller owns a coil driver and a delay provider. It keeps the
//! current step index, the direction of the last move and the per-step delay
//! derived from the requested speed.
use vstd::prelude::*;
use vstd::arithmetic::div_mod::{lemma_fundamental_div_mod, lemma_fundamental_div_mod_converse};
use embedded_hal::delay::DelayNs;
use crate::driver::StepperMotor;

verus! {

/// Microseconds in one minute: the numerator of the per-step delay.
pub const MICROS_PER_MINUTE: u32 = 60_000_000;

/// Direction of the last move.
#[derive(Clone, Copy, Debug, PartialEq, Eq, Structural)]
pub enum Direction {
    Forward,
    Backward,
}

/// The controller's state as plain values.
pub struct StepperState {
    pub step_number: u32,
    pub direction: Direction,
    pub step_delay: u32,
    pub number_of_steps: u32,
}

impl StepperState {
    /// The step index lies in `[0, number_of_steps)` whenever the cycle is non-empty.
    pub open spec fn index_in_range(self) -> bool {
        self.number_of_steps > 0 ==> self.step_number < self.number_of_steps
    }
}

/// Per-step delay in microseconds for `speed` revolutions per minute over a
/// cycle of `number_of_steps` steps; zero when either is zero.
pub open spec fn delay_for(number_of_steps: u32, speed: u32) -> u32 {
    if speed == 0 || number_of_steps == 0 {
        0
    } else {
        (MICROS_PER_MINUTE / number_of_steps / speed) as u32
    }
}

/// The step index after one step from `idx` in direction `dir`, over a cycle
/// of `n` steps. Forward increments and wraps to 0 on reaching `n`; backward
/// wraps to `n` at 0 and then decrements. Arithmetic wraps at the bounds of
/// `u32`, which only matters for an empty cycle.
pub open spec fn next_index(idx: u32, n: u32, dir: Direction) -> u32 {
    match dir {
        Direction::Forward => {
            let up: u32 = if idx == u32::MAX { 0 } else { (idx + 1) as u32 };
            if up == n { 0 } else { up }
        },
        Direction::Backward => {
            let from: u32 = if idx == 0 { n } else { idx };
            if from == 0 { u32::MAX } else { (from - 1) as u32 }
        },
    }
}

/// The step index after `k` steps from `idx` in direction `dir`.
pub open spec fn advance_by(idx: u32, n: u32, dir: Direction, k: nat) -> u32
    decreases k,
{
    if k == 0 {
        idx
    } else {
        next_index(advance_by(idx, n, dir, (k - 1) as nat), n, dir)
    }
}

/// Direction that a move of `steps_to_move` steps takes.
pub open spec fn direction_of(steps_to_move: i32) -> Direction {
    if steps_to_move < 0 { Direction::Backward } else { Direction::Forward }
}

/// Number of steps that a move of `steps_to_move` steps takes.
pub open spec fn distance_of(steps_to_move: i32) -> nat {
    if steps_to_move < 0 { (-steps_to_move) as nat } else { steps_to_move as nat }
}

/// One more step forward, modulo `n`: from the last index it wraps to 0.
proof fn lemma_mod_succ(a: int, n: int)
    requires
        n > 0,
    ensures
        (a + 1) % n == if a % n + 1 == n { 0 } else { a % n + 1 },
{
    lemma_fundamental_div_mod(a, n);
    let q = a / n;
    let r = a % n;
    assert(a == q * n + r) by (nonlinear_arith)
        requires
            a == n * q + r,
    ;
    if r + 1 == n {
        assert(a + 1 == (q + 1) * n + 0) by (nonlinear_arith)
            requires
                a == q * n + r,
                r + 1 == n,
        ;
        lemma_fundamental_div_mod_converse(a + 1, n, q + 1, 0);
    } else {
        lemma_fundamental_div_mod_converse(a + 1, n, q, r + 1);
    }
}

/// One step back, modulo `n`: from 0 it wraps to the last index.
proof fn lemma_mod_pred(a: int, n: int)
    requires
        n > 0,
    ensures
        (a - 1) % n == if a % n == 0 { n - 1 } else { a % n - 1 },
{
    lemma_fundamental_div_mod(a, n);
    let q = a / n;
    let r = a % n;
    assert(a == q * n + r) by (nonlinear_arith)
        requires
            a == n * q + r,
    ;
    if r == 0 {
        assert(a - 1 == (q - 1) * n + (n - 1)) by (nonlinear_arith)
            requires
                a == q * n + r,
                r == 0,
        ;
        lemma_fundamental_div_mod_converse(a - 1, n, q - 1, n - 1);
    } else {
        lemma_fundamental_div_mod_converse(a - 1, n, q, r - 1);
    }
}

/// Over a non-empty cycle, `k` steps forward from an index in range land on
/// `(idx + k) % n`.
pub proof fn lemma_forward_is_modular(idx: u32, n: u32, k: nat)
    requires
        0 < n,
        idx < n,
    ensures
        advance_by(idx, n, Direction::Forward, k) == (idx + k) % (n as int),
    decreases k,
{
    if k == 0 {
        lemma_fundamental_div_mod_converse(idx as int, n as int, 0, idx as int);
    } else {
        lemma_forward_is_modular(idx, n, (k - 1) as nat);
        lemma_mod_succ(idx + k - 1, n as int);
    }
}

/// Over a non-empty cycle, `k` steps backward from an index in range land on
/// `(idx - k) mod n`.
pub proof fn lemma_backward_is_modular(idx: u32, n: u32, k: nat)
    requires
        0 < n,
        idx < n,
    ensures
        advance_by(idx, n, Direction::Backward, k) == (idx - k) % (n as int),
    decreases k,
{
    if k == 0 {
        lemma_fundamental_div_mod_converse(idx as int, n as int, 0, idx as int);
    } else {
        lemma_backward_is_modular(idx, n, (k - 1) as nat);
        lemma_mod_pred(idx - (k - 1), n as int);
    }
}

/// Over a non-empty cycle, stepping keeps an index in range in either direction.
pub proof fn lemma_advance_in_range(idx: u32, n: u32, dir: Direction, k: nat)
    requires
        0 < n,
        idx < n,
    ensures
        advance_by(idx, n, dir, k) < n,
{
    match dir {
        Direction::Forward => lemma_forward_is_modular(idx, n, k),
        Direction::Backward => lemma_backward_is_modular(idx, n, k),
    }
}

/// A full cycle of `n` steps, in either direction, returns to the index it
/// started from.
pub proof fn lemma_full_cycle_returns(idx: u32, n: u32, dir: Direction)
    requires
        0 < n,
        idx < n,
    ensures
        advance_by(idx, n, dir, n as nat) == idx,
{
    match dir {
        Direction::Forward => {
            lemma_forward_is_modular(idx, n, n as nat);
            lemma_fundamental_div_mod_converse(idx + n, n as int, 1, idx as int);
        },
        Direction::Backward => {
            lemma_backward_is_modular(idx, n, n as nat);
            lemma_fundamental_div_mod_converse(idx - n, n as int, -1, idx as int);
        },
    }
}

/// A move of `-m` steps followed by a move of `m` steps, both completed,
/// restores the step index, whatever the sign of `m`.
pub proof fn lemma_move_back_and_forth(idx: u32, n: u32, m: i32)
    requires
        0 < n,
        idx < n,
        m > i32::MIN,
    ensures
        advance_by(
            advance_by(idx, n, direction_of((-m) as i32), distance_of((-m) as i32)),
            n,
            direction_of(m),
            distance_of(m),
        ) == idx,
{
    let k = distance_of(m);
    let ni = n as int;
    if m > 0 {
        lemma_backward_is_modular(idx, n, k);
        let b = advance_by(idx, n, Direction::Backward, k);
        lemma_advance_in_range(idx, n, Direction::Backward, k);
        lemma_forward_is_modular(b, n, k);
        lemma_fundamental_div_mod(idx - k, ni);
        let q = (idx - k) / ni;
        assert(b + k == idx + (-q) * ni) by (nonlinear_arith)
            requires
                idx - k == ni * q + b,
        ;
        lemma_fundamental_div_mod_converse(b + k, ni, -q, idx as int);
    } else if m < 0 {
        lemma_forward_is_modular(idx, n, k);
        let f = advance_by(idx, n, Direction::Forward, k);
        lemma_advance_in_range(idx, n, Direction::Forward, k);
        lemma_backward_is_modular(f, n, k);
        lemma_fundamental_div_mod(idx + k, ni);
        let q = (idx + k) / ni;
        assert(f - k == idx + (-q) * ni) by (nonlinear_arith)
            requires
                idx + k == ni * q + f,
        ;
        lemma_fundamental_div_mod_converse(f - k, ni, -q, idx as int);
    }
}

/// Relies on embedded_hal's DelayNs::delay_us: pauses for at least `us`
/// microseconds. Nothing is stated of the delay provider afterwards.
#[verifier::external_body]
fn pause<D: DelayNs>(delay: &mut D, us: u32) {
    delay.delay_us(us)
}

/// High-level stepper controller over a coil driver `M` and a delay provider `D`.
pub struct Stepper<M, D> {
    motor: M,
    delay: D,
    step_number: u32,
    direction: Direction,
    step_delay: u32,
    number_of_steps: u32,
}

impl<M, D> View for Stepper<M, D> {
    type V = StepperState;

    closed spec fn view(&self) -> StepperState {
        StepperState {
            step_number: self.step_number,
            direction: self.direction,
            step_delay: self.step_delay,
            number_of_steps: self.number_of_steps,
        }
    }
}

impl<M, D> Stepper<M, D> {
    /// Creates a controller over a cycle of `number_of_steps` steps, taking
    /// ownership of the coil driver and the delay provider. It starts at step
    /// 0, forward, with no delay between steps.
    pub fn new(number_of_steps: u32, motor: M, delay: D) -> (s: Self)
        ensures
            s@ == (StepperState {
                step_number: 0,
                direction: Direction::Forward,
                step_delay: 0,
                number_of_steps,
            }),
            s.motor() == motor,
    {
        Stepper {
            motor,
            delay,
            step_number: 0,
            direction: Direction::Forward,
            step_delay: 0,
            number_of_steps,
        }
    }

    /// The coil driver, as a spec value.
    pub closed spec fn motor(&self) -> M {
        self.motor
    }

    /// Sets the speed in revolutions per minute. The per-step delay becomes
    /// `60_000_000 / number_of_steps / speed` microseconds, divided in that
    /// order, or 0 when `speed` or `number_of_steps` is 0.
    pub fn set_speed(&mut self, speed: u32)
        ensures
            final(self)@ == (StepperState {
                step_delay: delay_for(old(self)@.number_of_steps, speed),
                ..old(self)@
            }),
            speed == 0 || old(self)@.number_of_steps == 0 ==> final(self)@.step_delay == 0,
            final(self).motor() == old(self).motor(),
    {
        if speed != 0 && self.number_of_steps != 0 {
            self.step_delay = MICROS_PER_MINUTE / self.number_of_steps / speed;
        } else {
            self.step_delay = 0;
        }
    }

    /// Current step index.
    pub fn step_number(&self) -> (r: u32)
        ensures
            r == self@.step_number,
    {
        self.step_number
    }

    /// Direction of the last move.
    pub fn direction(&self) -> (r: Direction)
        ensures
            r == self@.direction,
    {
        self.direction
    }

    /// Delay before each step, in microseconds.
    pub fn step_delay(&self) -> (r: u32)
        ensures
            r == self@.step_delay,
    {
        self.step_delay
    }

    /// Number of steps in one cycle.
    pub fn number_of_steps(&self) -> (r: u32)
        ensures
            r == self@.number_of_steps,
    {
        self.number_of_steps
    }

    /// The coil driver.
    pub fn motor_ref(&self) -> (r: &M)
        ensures
            *r == self.motor(),
    {
        &self.motor
    }

    /// Advances the step index by one step in the current direction.
    fn advance(&mut self)
        ensures
            final(self)@ == (StepperState {
                step_number: next_index(
                    old(self)@.step_number,
                    old(self)@.number_of_steps,
                    old(self)@.direction,
                ),
                ..old(self)@
            }),
            final(self).motor() == old(self).motor(),
            final(self).delay == old(self).delay,
    {
        match self.direction {
            Direction::Forward => {
                self.step_number = if self.step_number == u32::MAX { 0 } else { self.step_number + 1 };
                if self.step_number == self.number_of_steps {
                    self.step_number = 0;
                }
            },
            Direction::Backward => {
                if self.step_number == 0 {
                    self.step_number = self.number_of_steps;
                }
                self.step_number = if self.step_number == 0 { u32::MAX } else { self.step_number - 1 };
            },
        }
    }
}

impl<M: StepperMotor, D: DelayNs> Stepper<M, D> {
    /// De-energises every coil through the coil driver's `clear`, returning
    /// its outcome unchanged. The controller's state is left as it was.
    pub fn deenergise(&mut self) -> (r: Result<(), M::Error>)
        ensures
            final(self)@ == old(self)@,
    {
        self.motor.clear()
    }

    /// Moves `steps_to_move` steps, blocking: forward for a positive count,
    /// backward for a negative one. Before each step it waits the per-step
    /// delay, advances the step index and has the coil driver energise it.
    /// The first failure of the coil driver ends the move and is returned;
    /// the step index then stays at the position that failed.
    pub fn step(&mut self, steps_to_move: i32) -> (r: Result<(), M::Error>)
        ensures
            final(self)@.direction == direction_of(steps_to_move),
            final(self)@.step_delay == old(self)@.step_delay,
            final(self)@.number_of_steps == old(self)@.number_of_steps,
            r is Ok ==> final(self)@.step_number == advance_by(
                old(self)@.step_number,
                old(self)@.number_of_steps,
                direction_of(steps_to_move),
                distance_of(steps_to_move),
            ),
            r is Err ==> exists|k: nat|
                1 <= k <= distance_of(steps_to_move) && final(self)@.step_number == advance_by(
                    old(self)@.step_number,
                    old(self)@.number_of_steps,
                    direction_of(steps_to_move),
                    k,
                ),
            old(self)@.index_in_range() ==> final(self)@.index_in_range(),
    {
        let ghost init = self@;
        let steps_left: u32 = if steps_to_move < 0 {
            self.direction = Direction::Backward;
            (-(steps_to_move as i64)) as u32
        } else {
            self.direction = Direction::Forward;
            steps_to_move as u32
        };
        let ghost start = init.step_number;
        let ghost n = self.number_of_steps;
        let ghost dir = self.direction;
        let mut done: u32 = 0;
        while done < steps_left
            invariant
                steps_left as nat == distance_of(steps_to_move),
                done <= steps_left,
                dir == direction_of(steps_to_move),
                self@.direction == dir,
                self@.number_of_steps == n,
                init == old(self)@,
                n == init.number_of_steps,
                start == init.step_number,
                self@.step_delay == init.step_delay,
                self@.step_number == advance_by(start, n, dir, done as nat),
                init.index_in_range() ==> self@.index_in_range(),
            decreases steps_left - done,
        {
            pause(&mut self.delay, self.step_delay);
            self.advance();
            done = done + 1;
            proof {
                if init.index_in_range() && n > 0 {
                    lemma_advance_in_range(start, n, dir, done as nat);
                }
            }
            match self.motor.step(self.step_number) {
                Ok(()) => {},
                Err(e) => {
                    assert(1 <= done <= distance_of(steps_to_move) && self@.step_number == advance_by(
                        start,
                        n,
                        dir,
                        done as nat,
                    ));
                    return Err(e);
                },
            }
        }
        Ok(())
    }
}

} // verus!
