//! The per-core timer: units of time, the core-local interrupt controller,
//! and the one timer that the boot code pins for the rest of the monitor.

use vstd::prelude::*;
use crate::csr::Csr;
use crate::csr::Hart;
use crate::physmem::PhysMemBase;

verus! {

/// Milliseconds in a second.
pub const THOUSAND: u64 = 1_000;

/// Microseconds in a second.
pub const MILLION: u64 = 1_000_000;

/// Nanoseconds in a second.
pub const BILLION: u64 = 1_000_000_000;

/// Machine timer interrupt enable, in the interrupt-enable register.
pub const MIE_MACHINE_TIMER: u64 = 0x80;

/// Supervisor timer interrupt, in the enable and pending registers.
pub const SUPERVISOR_TIMER_IRQ: u64 = 0x20;

/// What is left of a number when it is stored in 64 bits.
pub open spec fn wrap64(x: int) -> u64 {
    (x % 0x1_0000_0000_0000_0000) as u64
}

/// A point in time or a duration, in a unit of time or in timer ticks.
#[derive(Clone, Copy, Debug, PartialEq, Eq, Structural)]
pub enum TimerValue {
    Nanoseconds(u64),
    Microseconds(u64),
    Milliseconds(u64),
    Seconds(u64),
    Exact(u64),
}

impl TimerValue {
    /// The number carried, whatever the unit.
    pub open spec fn amount(self) -> u64 {
        match self {
            TimerValue::Nanoseconds(t) => t,
            TimerValue::Microseconds(t) => t,
            TimerValue::Milliseconds(t) => t,
            TimerValue::Seconds(t) => t,
            TimerValue::Exact(t) => t,
        }
    }

    /// Ticks of a timer that runs at `freq` Hz, before the count is cut to
    /// 64 bits. Ticks per unit are rounded down before they are multiplied.
    pub open spec fn ticks(self, freq: u64) -> int {
        match self {
            TimerValue::Nanoseconds(t) => (freq as int / 1_000_000_000) * t,
            TimerValue::Microseconds(t) => (freq as int / 1_000_000) * t,
            TimerValue::Milliseconds(t) => (freq as int / 1_000) * t,
            TimerValue::Seconds(t) => freq as int * t,
            TimerValue::Exact(t) => t as int,
        }
    }

    /// Nanoseconds, before the count is cut to 64 bits.
    pub open spec fn nanoseconds(self, freq: u64) -> int
        recommends
            self is Exact ==> freq > 0,
    {
        match self {
            TimerValue::Nanoseconds(t) => t as int,
            TimerValue::Microseconds(t) => t as int * 1_000,
            TimerValue::Milliseconds(t) => t as int * 1_000_000,
            TimerValue::Seconds(t) => t as int * 1_000_000_000,
            TimerValue::Exact(t) => (t as int / freq as int) * 1_000_000_000,
        }
    }

    /// Microseconds, before the count is cut to 64 bits.
    pub open spec fn microseconds(self, freq: u64) -> int
        recommends
            self is Exact ==> freq > 0,
    {
        match self {
            TimerValue::Nanoseconds(t) => t as int / 1_000,
            TimerValue::Microseconds(t) => t as int,
            TimerValue::Milliseconds(t) => t as int * 1_000,
            TimerValue::Seconds(t) => t as int * 1_000_000,
            TimerValue::Exact(t) => (t as int / freq as int) * 1_000_000,
        }
    }

    /// Milliseconds, before the count is cut to 64 bits.
    pub open spec fn milliseconds(self, freq: u64) -> int
        recommends
            self is Exact ==> freq > 0,
    {
        match self {
            TimerValue::Nanoseconds(t) => t as int / 1_000_000,
            TimerValue::Microseconds(t) => t as int / 1_000,
            TimerValue::Milliseconds(t) => t as int,
            TimerValue::Seconds(t) => t as int * 1_000,
            TimerValue::Exact(t) => (t as int / freq as int) * 1_000,
        }
    }

    /// Whole seconds.
    pub open spec fn seconds(self, freq: u64) -> int
        recommends
            self is Exact ==> freq > 0,
    {
        match self {
            TimerValue::Nanoseconds(t) => t as int / 1_000_000_000,
            TimerValue::Microseconds(t) => t as int / 1_000_000,
            TimerValue::Milliseconds(t) => t as int / 1_000,
            TimerValue::Seconds(t) => t as int,
            TimerValue::Exact(t) => t as int / freq as int,
        }
    }

    /// This value in ticks of a timer that runs at `freq` Hz.
    pub fn to_exact(self, freq: u64) -> (ticks: u64)
        ensures
            ticks == wrap64(self.ticks(freq)),
    {
        match self {
            TimerValue::Nanoseconds(t) => (freq / BILLION).wrapping_mul(t),
            TimerValue::Microseconds(t) => (freq / MILLION).wrapping_mul(t),
            TimerValue::Milliseconds(t) => (freq / THOUSAND).wrapping_mul(t),
            TimerValue::Seconds(t) => freq.wrapping_mul(t),
            TimerValue::Exact(t) => t,
        }
    }

    /// This value in nanoseconds. Ticks are taken as whole seconds first.
    pub fn to_nanoseconds(self, freq: u64) -> (value: TimerValue)
        requires
            self is Exact ==> freq > 0,
        ensures
            value == TimerValue::Nanoseconds(wrap64(self.nanoseconds(freq))),
    {
        TimerValue::Nanoseconds(
            match self {
                TimerValue::Nanoseconds(t) => t,
                TimerValue::Microseconds(t) => t.wrapping_mul(THOUSAND),
                TimerValue::Milliseconds(t) => t.wrapping_mul(MILLION),
                TimerValue::Seconds(t) => t.wrapping_mul(BILLION),
                TimerValue::Exact(t) => (t / freq).wrapping_mul(BILLION),
            },
        )
    }

    /// This value in microseconds, rounded down.
    pub fn to_microseconds(self, freq: u64) -> (value: TimerValue)
        requires
            self is Exact ==> freq > 0,
        ensures
            value == TimerValue::Microseconds(wrap64(self.microseconds(freq))),
    {
        TimerValue::Microseconds(
            match self {
                TimerValue::Nanoseconds(t) => t / THOUSAND,
                TimerValue::Microseconds(t) => t,
                TimerValue::Milliseconds(t) => t.wrapping_mul(THOUSAND),
                TimerValue::Seconds(t) => t.wrapping_mul(MILLION),
                TimerValue::Exact(t) => (t / freq).wrapping_mul(MILLION),
            },
        )
    }

    /// This value in milliseconds, rounded down.
    pub fn to_milliseconds(self, freq: u64) -> (value: TimerValue)
        requires
            self is Exact ==> freq > 0,
        ensures
            value == TimerValue::Milliseconds(wrap64(self.milliseconds(freq))),
    {
        TimerValue::Milliseconds(
            match self {
                TimerValue::Nanoseconds(t) => t / MILLION,
                TimerValue::Microseconds(t) => t / THOUSAND,
                TimerValue::Milliseconds(t) => t,
                TimerValue::Seconds(t) => t.wrapping_mul(THOUSAND),
                TimerValue::Exact(t) => (t / freq).wrapping_mul(THOUSAND),
            },
        )
    }

    /// This value in whole seconds, rounded down.
    pub fn to_seconds(self, freq: u64) -> (value: TimerValue)
        requires
            self is Exact ==> freq > 0,
        ensures
            value == TimerValue::Seconds(wrap64(self.seconds(freq))),
    {
        TimerValue::Seconds(
            match self {
                TimerValue::Nanoseconds(t) => t / BILLION,
                TimerValue::Microseconds(t) => t / MILLION,
                TimerValue::Milliseconds(t) => t / THOUSAND,
                TimerValue::Seconds(t) => t,
                TimerValue::Exact(t) => t / freq,
            },
        )
    }

    /// This value expressed again in the unit it already has.
    pub open spec fn in_own_unit(self, freq: u64) -> TimerValue {
        match self {
            TimerValue::Nanoseconds(_) => TimerValue::Nanoseconds(wrap64(self.nanoseconds(freq))),
            TimerValue::Microseconds(_) => TimerValue::Microseconds(
                wrap64(self.microseconds(freq)),
            ),
            TimerValue::Milliseconds(_) => TimerValue::Milliseconds(
                wrap64(self.milliseconds(freq)),
            ),
            TimerValue::Seconds(_) => TimerValue::Seconds(wrap64(self.seconds(freq))),
            TimerValue::Exact(_) => TimerValue::Exact(wrap64(self.ticks(freq))),
        }
    }
}

/// Converting a value to the unit it already has changes nothing, so the
/// tick count it stands for is the same before and after.
pub proof fn lemma_own_unit_keeps_ticks(value: TimerValue, freq: u64)
    requires
        freq > 0,
    ensures
        value.in_own_unit(freq) == value,
        wrap64(value.in_own_unit(freq).ticks(freq)) == wrap64(value.ticks(freq)),
{
}

impl TimerValue {
    /// How many of the value's unit make a second. Ticks come by the
    /// frequency, not by the second, and count as one.
    pub open spec fn units_per_second(self) -> int {
        match self {
            TimerValue::Nanoseconds(_) => 1_000_000_000,
            TimerValue::Microseconds(_) => 1_000_000,
            TimerValue::Milliseconds(_) => 1_000,
            TimerValue::Seconds(_) => 1,
            TimerValue::Exact(_) => 1,
        }
    }

    /// A timer at `freq` Hz ticks a whole number of times in the finer of
    /// two units: the value's own, and the one with `units` to the second.
    /// Only then do both units stand for whole ticks.
    pub open spec fn whole_ticks_in(self, units: int, freq: u64) -> bool {
        let finer = if self.units_per_second() > units {
            self.units_per_second()
        } else {
            units
        };
        freq > 0 && freq as int % finer == 0
    }

    /// `converted`, which is this value in the unit with `units` to the
    /// second, stands for the same ticks as far as whole numbers allow: for
    /// no more ticks than this value, and for fewer by less than the ticks
    /// of one such unit (of one second, where ticks were converted); and
    /// for just as many where the unit is no coarser than the value's own.
    pub open spec fn keeps_ticks(self, converted: TimerValue, units: int, freq: u64) -> bool {
        let slack = if self is Exact {
            freq as int
        } else {
            freq as int / units
        };
        &&& converted.ticks(freq) <= self.ticks(freq) < converted.ticks(freq) + slack
        &&& !(self is Exact) && self.units_per_second() <= units ==> converted.ticks(freq)
            == self.ticks(freq)
    }
}

/// A count of a unit, written in a unit `ratio` times finer, stands for the
/// same ticks.
proof fn lemma_finer_unit(per_unit: int, ratio: int, amount: int)
    ensures
        per_unit * (amount * ratio) == (per_unit * ratio) * amount,
{
    assert(per_unit * (amount * ratio) == (per_unit * ratio) * amount) by (nonlinear_arith);
}

/// A count of a unit, written in a unit `ratio` times coarser and rounded
/// down, stands for no more ticks, and for fewer by less than the ticks of
/// one coarser unit.
proof fn lemma_coarser_unit(per_unit: int, ratio: int, amount: int)
    requires
        per_unit > 0,
        ratio > 0,
        amount >= 0,
    ensures
        (per_unit * ratio) * (amount / ratio) <= per_unit * amount,
        per_unit * amount < (per_unit * ratio) * (amount / ratio) + per_unit * ratio,
{
    let whole = amount / ratio;
    let rest = amount % ratio;
    assert(amount == ratio * whole + rest && 0 <= rest < ratio) by (nonlinear_arith)
        requires
            ratio > 0,
            amount >= 0,
            whole == amount / ratio,
            rest == amount % ratio,
    ;
    assert(per_unit * amount == (per_unit * ratio) * whole + per_unit * rest) by (nonlinear_arith)
        requires
            amount == ratio * whole + rest,
    ;
    assert(0 <= per_unit * rest < per_unit * ratio) by (nonlinear_arith)
        requires
            per_unit > 0,
            0 <= rest < ratio,
    ;
}

/// Ticks, written as whole seconds in a unit with `units` to the second,
/// stand for no more ticks, and for fewer by less than one second's.
proof fn lemma_whole_seconds(freq: int, per_unit: int, units: int, ticks: int)
    requires
        freq > 0,
        ticks >= 0,
        freq == per_unit * units,
    ensures
        per_unit * ((ticks / freq) * units) <= ticks,
        ticks < per_unit * ((ticks / freq) * units) + freq,
{
    let seconds = ticks / freq;
    assert(ticks == freq * seconds + ticks % freq && 0 <= ticks % freq < freq)
        by (nonlinear_arith)
        requires
            freq > 0,
            ticks >= 0,
            seconds == ticks / freq,
    ;
    assert(per_unit * (seconds * units) == freq * seconds) by (nonlinear_arith)
        requires
            freq == per_unit * units,
    ;
}

/// A value converted to another unit stands for the same ticks, as far as
/// whole numbers allow. This holds of every conversion whose result fits
/// in 64 bits, at every frequency that gives whole ticks to the finer of
/// the two units.
pub proof fn lemma_conversion_keeps_ticks(value: TimerValue, freq: u64)
    ensures
        value.whole_ticks_in(1_000_000_000, freq) && value.nanoseconds(freq) <= u64::MAX
            ==> value.keeps_ticks(
            TimerValue::Nanoseconds(wrap64(value.nanoseconds(freq))),
            1_000_000_000,
            freq,
        ),
        value.whole_ticks_in(1_000_000, freq) && value.microseconds(freq) <= u64::MAX
            ==> value.keeps_ticks(
            TimerValue::Microseconds(wrap64(value.microseconds(freq))),
            1_000_000,
            freq,
        ),
        value.whole_ticks_in(1_000, freq) && value.milliseconds(freq) <= u64::MAX
            ==> value.keeps_ticks(
            TimerValue::Milliseconds(wrap64(value.milliseconds(freq))),
            1_000,
            freq,
        ),
        value.whole_ticks_in(1, freq) && value.seconds(freq) <= u64::MAX ==> value.keeps_ticks(
            TimerValue::Seconds(wrap64(value.seconds(freq))),
            1,
            freq,
        ),
{
    let f = freq as int;
    let t = value.amount() as int;
    if freq > 0 {
        match value {
            TimerValue::Nanoseconds(_) => {
                if f % 1_000_000_000 == 0 {
                    let q = f / 1_000_000_000;
                    lemma_coarser_unit(q, 1_000, t);
                    lemma_coarser_unit(q, 1_000_000, t);
                    lemma_coarser_unit(q, 1_000_000_000, t);
                }
            },
            TimerValue::Microseconds(_) => {
                if f % 1_000_000_000 == 0 {
                    lemma_finer_unit(f / 1_000_000_000, 1_000, t);
                }
                if f % 1_000_000 == 0 {
                    let q = f / 1_000_000;
                    lemma_coarser_unit(q, 1_000, t);
                    lemma_coarser_unit(q, 1_000_000, t);
                }
            },
            TimerValue::Milliseconds(_) => {
                if f % 1_000_000_000 == 0 {
                    lemma_finer_unit(f / 1_000_000_000, 1_000_000, t);
                }
                if f % 1_000_000 == 0 {
                    lemma_finer_unit(f / 1_000_000, 1_000, t);
                }
                if f % 1_000 == 0 {
                    lemma_coarser_unit(f / 1_000, 1_000, t);
                }
            },
            TimerValue::Seconds(_) => {
                if f % 1_000_000_000 == 0 {
                    lemma_finer_unit(f / 1_000_000_000, 1_000_000_000, t);
                }
                if f % 1_000_000 == 0 {
                    lemma_finer_unit(f / 1_000_000, 1_000_000, t);
                }
                if f % 1_000 == 0 {
                    lemma_finer_unit(f / 1_000, 1_000, t);
                }
            },
            TimerValue::Exact(_) => {
                if f % 1_000_000_000 == 0 {
                    lemma_whole_seconds(f, f / 1_000_000_000, 1_000_000_000, t);
                }
                if f % 1_000_000 == 0 {
                    lemma_whole_seconds(f, f / 1_000_000, 1_000_000, t);
                }
                if f % 1_000 == 0 {
                    lemma_whole_seconds(f, f / 1_000, 1_000, t);
                }
                lemma_whole_seconds(f, f, 1, t);
            },
        }
    }
}

/// Of two values in one unit, the larger stands for at least as many ticks.
pub proof fn lemma_ticks_monotonic(a: TimerValue, b: TimerValue, freq: u64)
    requires
        a is Nanoseconds <==> b is Nanoseconds,
        a is Microseconds <==> b is Microseconds,
        a is Milliseconds <==> b is Milliseconds,
        a is Seconds <==> b is Seconds,
        a.amount() <= b.amount(),
    ensures
        a.ticks(freq) <= b.ticks(freq),
{
    let t1 = a.amount() as int;
    let t2 = b.amount() as int;
    let f = freq as int;
    assert((f / 1_000_000_000) * t1 <= (f / 1_000_000_000) * t2) by (nonlinear_arith)
        requires
            0 <= t1 <= t2,
            0 <= f,
    ;
    assert((f / 1_000_000) * t1 <= (f / 1_000_000) * t2) by (nonlinear_arith)
        requires
            0 <= t1 <= t2,
            0 <= f,
    ;
    assert((f / 1_000) * t1 <= (f / 1_000) * t2) by (nonlinear_arith)
        requires
            0 <= t1 <= t2,
            0 <= f,
    ;
    assert(f * t1 <= f * t2) by (nonlinear_arith)
        requires
            0 <= t1 <= t2,
            0 <= f,
    ;
}

/// The timer registers of the core-local interrupt controller, as the hart
/// sees them: the running counter, and the count at which the machine timer
/// interrupt fires.
#[derive(Clone, Copy, Debug, PartialEq, Eq, Structural)]
pub struct Clint {
    /// The free-running counter.
    pub time: u64,
    /// The counter value from which the timer interrupt is raised.
    pub target: u64,
}

impl Clint {
    /// The controller raises the timer interrupt: the counter has reached
    /// the target.
    pub open spec fn interrupt_due(&self) -> bool {
        self.time >= self.target
    }
}

/// A per-core timer.
#[derive(Clone, Copy, Debug, PartialEq, Eq, Structural)]
pub struct Timer {
    clint_base: PhysMemBase,
    frequency: u64,
}

impl Timer {
    /// Base address of the controller's registers.
    pub closed spec fn spec_mmio_base(&self) -> PhysMemBase {
        self.clint_base
    }

    /// Ticks per second.
    pub closed spec fn spec_frequency(&self) -> u64 {
        self.frequency
    }

    /// The timer that counts at `frequency` Hz behind the controller at
    /// `clint_base`.
    pub closed spec fn spec_new(frequency: u64, clint_base: PhysMemBase) -> Timer {
        Timer { clint_base, frequency }
    }

    /// A timer is known by its frequency and its controller.
    pub broadcast proof fn lemma_spec_new(frequency: u64, clint_base: PhysMemBase)
        ensures
            (#[trigger] Self::spec_new(frequency, clint_base)).spec_frequency() == frequency,
            Self::spec_new(frequency, clint_base).spec_mmio_base() == clint_base,
    {
    }

    /// A timer that counts at `frequency` Hz, behind the controller whose
    /// registers start at `clint_base`.
    pub fn new(frequency: u64, clint_base: PhysMemBase) -> (timer: Timer)
        ensures
            timer == Self::spec_new(frequency, clint_base),
            timer.spec_frequency() == frequency,
            timer.spec_mmio_base() == clint_base,
    {
        Timer { clint_base, frequency }
    }

    /// Registers this timer in `slot`, where the rest of the monitor finds
    /// it.
    pub fn pin(&self, slot: &PinnedTimer) {
        slot_store(&slot.slot, *self);
    }

    /// Base address of the controller's registers.
    pub fn get_mmio_base(&self) -> (base: PhysMemBase)
        ensures
            base == self.spec_mmio_base(),
    {
        self.clint_base
    }

    /// Ticks per second.
    pub fn get_frequency(&self) -> (frequency: u64)
        ensures
            frequency == self.spec_frequency(),
    {
        self.frequency
    }

    /// Starts the timer: the interrupt is due at once, and the machine timer
    /// interrupt is enabled.
    pub fn start(&self, hart: &mut Hart, clint: &mut Clint)
        ensures
            final(clint).time == old(clint).time,
            final(clint).target == old(clint).time,
            final(clint).interrupt_due(),
            *final(hart) == (Hart { mie: old(hart).mie | 0x80, ..*old(hart) }),
    {
        self.next_in(clint, TimerValue::Exact(0));
        hart.set_csr(Csr::Mie, MIE_MACHINE_TIMER);
    }

    /// The counter's value now. The counter never resets, though it rolls
    /// over to zero.
    pub fn get_now(&self, clint: &Clint) -> (now: TimerValue)
        ensures
            now == TimerValue::Exact(clint.time),
    {
        TimerValue::Exact(clint.time)
    }

    /// Asks for an interrupt once `duration` has passed from now.
    pub fn next_in(&self, clint: &mut Clint, duration: TimerValue)
        ensures
            final(clint).time == old(clint).time,
            final(clint).target == wrap64(
                wrap64(duration.ticks(self.spec_frequency())) + old(clint).time,
            ),
    {
        let target = duration.to_exact(self.frequency).wrapping_add(clint.time);
        clint.target = target;
    }

    /// Asks for an interrupt when the counter passes `target`. The latest
    /// target is the one that counts.
    pub fn next_at(&self, clint: &mut Clint, target: TimerValue)
        ensures
            final(clint).time == old(clint).time,
            final(clint).target == wrap64(target.ticks(self.spec_frequency())),
    {
        clint.target = target.to_exact(self.frequency);
    }

    /// The target that was programmed last.
    pub fn get_next_at(&self, clint: &Clint) -> (target: TimerValue)
        ensures
            target == TimerValue::Exact(clint.target),
    {
        TimerValue::Exact(clint.target)
    }
}

/// Once a timer was told to fire in zero ticks, its interrupt is due, and it
/// stays due however far the counter runs on without wrapping.
pub proof fn lemma_next_in_zero_is_due(before: Clint, after: Clint, frequency: u64, later: u64)
    requires
        after.time == before.time,
        after.target == wrap64(
            wrap64(TimerValue::Exact(0).ticks(frequency)) + before.time,
        ),
        later >= after.time,
    ensures
        after.interrupt_due(),
        (Clint { time: later, target: after.target }).interrupt_due(),
{
}

#[verifier::external_type_specification]
#[verifier::external_body]
#[verifier::reject_recursive_types(T)]
pub struct ExMutex<T: ?Sized>(spin::Mutex<T>);

/// The place where the timer chosen at boot is kept for the whole monitor.
/// It starts out empty and is guarded by a spinning lock, so any core may
/// ask.
pub struct PinnedTimer {
    slot: spin::Mutex<Option<Timer>>,
}

/// `spin::Mutex::new` around an empty option. Nothing is claimed of the
/// lock.
#[verifier::external_body]
fn slot_new() -> (slot: spin::Mutex<Option<Timer>>) {
    spin::Mutex::new(None)
}

/// `spin::Mutex::lock`, then a store through the guard. Nothing is claimed
/// of what a later reader sees: other cores share the lock.
#[verifier::external_body]
fn slot_store(slot: &spin::Mutex<Option<Timer>>, timer: Timer) {
    *slot.lock() = Some(timer);
}

/// `spin::Mutex::lock`, then a copy of what is behind the guard. Nothing is
/// claimed of the copy: other cores share the lock.
#[verifier::external_body]
fn slot_load(slot: &spin::Mutex<Option<Timer>>) -> (pinned: Option<Timer>) {
    *slot.lock()
}

impl PinnedTimer {
    /// An empty slot.
    pub fn new() -> (slot: PinnedTimer) {
        PinnedTimer { slot: slot_new() }
    }

    /// The timer in the slot at this moment, if one was pinned.
    pub fn get(&self) -> (pinned: Option<Timer>) {
        slot_load(&self.slot)
    }
}

/// The counter value that a pinned timer reads, or `None` without one.
pub open spec fn spec_pinned_now(pinned: Option<Timer>, clint: Clint) -> Option<TimerValue> {
    match pinned {
        Some(_) => Some(TimerValue::Exact(clint.time)),
        None => None,
    }
}

/// The frequency of a pinned timer, or `None` without one.
pub open spec fn spec_pinned_freq(pinned: Option<Timer>) -> Option<u64> {
    match pinned {
        Some(timer) => Some(timer.spec_frequency()),
        None => None,
    }
}

/// What the pinned timer reads now, given what the slot held.
pub fn pinned_timer_now(pinned: Option<Timer>, clint: &Clint) -> (now: Option<TimerValue>)
    ensures
        now == spec_pinned_now(pinned, *clint),
{
    match pinned {
        Some(timer) => Some(timer.get_now(clint)),
        None => None,
    }
}

/// The frequency of the pinned timer, given what the slot held.
pub fn pinned_timer_freq(pinned: Option<Timer>) -> (frequency: Option<u64>)
    ensures
        frequency == spec_pinned_freq(pinned),
{
    match pinned {
        Some(timer) => Some(timer.get_frequency()),
        None => None,
    }
}

/// The current value of the pinned timer, or `None` if none is pinned. What
/// the slot holds is for the boot code to decide; whatever it holds, a value
/// that comes back is the controller's counter.
pub fn get_pinned_timer_now(slot: &PinnedTimer, clint: &Clint) -> (now: Option<TimerValue>)
    ensures
        now is Some ==> now == Some(TimerValue::Exact(clint.time)),
{
    pinned_timer_now(slot.get(), clint)
}

/// The frequency of the pinned timer, or `None` if none is pinned.
pub fn get_pinned_timer_freq(slot: &PinnedTimer) -> (frequency: Option<u64>) {
    pinned_timer_freq(slot.get())
}

/// Enables the supervisor's timer interrupt.
pub fn enable_supervisor_irq(hart: &mut Hart)
    ensures
        *final(hart) == (Hart { mie: old(hart).mie | 0x20, ..*old(hart) }),
{
    hart.set_csr(Csr::Mie, SUPERVISOR_TIMER_IRQ);
}

/// Raises the supervisor's timer interrupt.
pub fn trigger_supervisor_irq(hart: &mut Hart)
    ensures
        *final(hart) == (Hart { mip: old(hart).mip | 0x20, ..*old(hart) }),
{
    hart.set_csr(Csr::Mip, SUPERVISOR_TIMER_IRQ);
}

/// Clears a pending supervisor timer interrupt.
pub fn clear_supervisor_irq(hart: &mut Hart)
    ensures
        *final(hart) == (Hart { mip: old(hart).mip & !0x20u64, ..*old(hart) }),
{
    hart.clear_csr(Csr::Mip, SUPERVISOR_TIMER_IRQ);
}

} // verus!
