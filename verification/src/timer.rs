//! Timer and PWM capability traits, their enumerations, and the pure
//! prescaler arithmetic.
//!
//! Register programming lives behind the traits; what is verified here is
//! the arithmetic that turns a clock and an update frequency into prescaler
//! and auto-reload values, and the small value types the traits exchange.

use vstd::prelude::*;

verus! {

/// A PWM-capable timer's compare channels.
#[derive(Clone, Copy, Debug, PartialEq, Eq)]
pub enum Channel {
    C1,
    C2,
    C3,
    C4,
}

/// Counting direction of a timer.
#[derive(Clone, Copy, Debug, PartialEq, Eq)]
pub enum CountDirection {
    Up,
    Down,
}

/// PWM output mode.
#[derive(Clone, Copy, Debug, PartialEq, Eq)]
pub enum PwmMode {
    Mode1,
    Mode2,
}

/// PWM output polarity.
#[derive(Clone, Copy, Debug, PartialEq, Eq)]
pub enum PwmPolarity {
    ActiveHigh,
    ActiveLow,
}

/// Timer errors.
#[derive(Clone, Copy, Debug, PartialEq, Eq)]
pub enum Error {
    /// Timer is disabled.
    Disabled,
    /// The requested auto-reload value cannot be programmed.
    WrongAutoReload,
}

/// Interrupt events of the system timer.
#[derive(Clone, Copy, Debug, PartialEq, Eq)]
pub enum SysEvent {
    /// The count-down ended.
    Update,
}

/// Output-compare modes, in the order the hardware encodes them.
#[derive(Clone, Copy, Debug, PartialEq, Eq)]
pub enum Ocm {
    Frozen,
    ActiveOnMatch,
    InactiveOnMatch,
    Toggle,
    ForceInactive,
    ForceActive,
    PwmMode1,
    PwmMode2,
}

impl Ocm {
    /// The register encoding of this mode.
    pub open spec fn bits_spec(&self) -> u8 {
        match *self {
            Ocm::Frozen => 0,
            Ocm::ActiveOnMatch => 1,
            Ocm::InactiveOnMatch => 2,
            Ocm::Toggle => 3,
            Ocm::ForceInactive => 4,
            Ocm::ForceActive => 5,
            Ocm::PwmMode1 => 6,
            Ocm::PwmMode2 => 7,
        }
    }

    /// The register encoding of this mode.
    pub fn bits(&self) -> (r: u8)
        ensures
            r == self.bits_spec(),
    {
        match *self {
            Ocm::Frozen => 0,
            Ocm::ActiveOnMatch => 1,
            Ocm::InactiveOnMatch => 2,
            Ocm::Toggle => 3,
            Ocm::ForceInactive => 4,
            Ocm::ForceActive => 5,
            Ocm::PwmMode1 => 6,
            Ocm::PwmMode2 => 7,
        }
    }
}

impl From<PwmMode> for Ocm {
    /// The output-compare mode a PWM mode stands for.
    fn from(value: PwmMode) -> (r: Ocm) {
        match value {
            PwmMode::Mode1 => Ocm::PwmMode1,
            PwmMode::Mode2 => Ocm::PwmMode2,
        }
    }
}

impl vstd::std_specs::convert::FromSpecImpl<PwmMode> for Ocm {
    open spec fn obeys_from_spec() -> bool {
        true
    }

    open spec fn from_spec(value: PwmMode) -> Ocm {
        match value {
            PwmMode::Mode1 => Ocm::PwmMode1,
            PwmMode::Mode2 => Ocm::PwmMode2,
        }
    }
}

/// Interrupt-event set of a general-purpose timer: the update event and the
/// four compare channels, one bit each.
#[derive(Clone, Copy, Debug, PartialEq, Eq, Structural)]
pub struct Event {
    pub bits: u32,
}

impl Event {
    pub fn empty() -> (r: Event)
        ensures
            r.bits == 0,
    {
        Event { bits: 0 }
    }

    /// The update event: the timer timed out or the count-down ended.
    pub fn update() -> (r: Event)
        ensures
            r.bits == 1u32,
    {
        Event { bits: 1 }
    }

    pub fn c1() -> (r: Event)
        ensures
            r.bits == 2u32,
    {
        Event { bits: 2 }
    }

    pub fn c2() -> (r: Event)
        ensures
            r.bits == 4u32,
    {
        Event { bits: 4 }
    }

    pub fn c3() -> (r: Event)
        ensures
            r.bits == 8u32,
    {
        Event { bits: 8 }
    }

    pub fn c4() -> (r: Event)
        ensures
            r.bits == 16u32,
    {
        Event { bits: 16 }
    }

    /// Both event sets combined.
    pub fn union(self, other: Event) -> (r: Event)
        ensures
            r.bits == self.bits | other.bits,
    {
        Event { bits: self.bits | other.bits }
    }

    /// Whether every event of `other` is in this set.
    pub fn contains(self, other: Event) -> (r: bool)
        ensures
            r == (self.bits & other.bits == other.bits),
    {
        self.bits & other.bits == other.bits
    }
}

// Capability traits ----------------------------------------------------------

/// What a PWM-driving timer offers: start, stop, frequency programming and
/// the duty range.
pub trait PwmTimer {
    fn start(&mut self);

    fn stop(&mut self);

    /// Programs the counting frequency and the update (period) frequency.
    fn config_freq(&mut self, count_freq: u32, update_freq: u32);

    fn get_max_duty(&self) -> u32;

    fn get_count_value(&self) -> u32;
}

/// What one PWM output channel offers.
pub trait PwmChannel {
    fn config(&mut self, mode: PwmMode, polarity: PwmPolarity);

    fn set_enable(&mut self, en: bool);

    fn get_max_duty(&self) -> u32;

    /// `duty` counts against `get_max_duty()`.
    fn set_duty(&mut self, duty: u32);
}

/// The register contract of a general-purpose timer.
pub trait GeneralTimer: Sized {
    fn reset_config(&mut self);

    fn enable_counter(&mut self);

    fn disable_counter(&mut self);

    fn is_counter_enabled(&self) -> bool;

    fn reset_counter(&mut self);

    fn max_auto_reload() -> u32;

    fn set_auto_reload(&mut self, arr: u32) -> Result<(), Error>;

    fn read_auto_reload(&self) -> u32;

    fn set_prescaler(&mut self, psc: u16);

    fn read_prescaler(&self) -> u16;

    fn read_count(&self) -> u32;

    fn trigger_update(&mut self);

    fn stop_in_debug(&mut self, state: bool);

    /// Programs the counting and update frequencies against the bus clock.
    fn config_freq(&mut self, clock: u32, count_freq: u32, update_freq: u32);

    fn clear_interrupt_flag(&mut self, event: Event);

    fn listen_interrupt(&mut self, event: Event, enable: bool);

    fn get_interrupt_flag(&self) -> Event;

    fn start_one_pulse(&mut self);
}

/// A timer whose counting direction can be chosen.
pub trait TimerDirection: GeneralTimer {
    fn set_count_direction(&mut self, dir: CountDirection);
}

/// A timer with PWM outputs.
pub trait TimerWithPwm: GeneralTimer {
    fn start_pwm(&mut self);

    fn stop_pwm(&mut self);

    fn preload_output_channel_in_mode(&mut self, channel: Channel, mode: Ocm);

    fn set_polarity(&mut self, channel: Channel, polarity: PwmPolarity);
}

/// A timer with at least one PWM channel.
pub trait TimerWithPwm1Ch: TimerWithPwm {
    fn enable_ch1(&mut self, en: bool);

    fn set_ch1_cc_value(&mut self, value: u32);

    fn get_ch1_cc_value(&self) -> u32;
}

/// A timer with at least two PWM channels.
pub trait TimerWithPwm2Ch: TimerWithPwm1Ch {
    fn enable_ch2(&mut self, en: bool);

    fn set_ch2_cc_value(&mut self, value: u32);

    fn get_ch2_cc_value(&self) -> u32;
}

/// A timer with at least three PWM channels.
pub trait TimerWithPwm3Ch: TimerWithPwm2Ch {
    fn enable_ch3(&mut self, en: bool);

    fn set_ch3_cc_value(&mut self, value: u32);

    fn get_ch3_cc_value(&self) -> u32;
}

/// A timer with four PWM channels.
pub trait TimerWithPwm4Ch: TimerWithPwm3Ch {
    fn enable_ch4(&mut self, en: bool);

    fn set_ch4_cc_value(&mut self, value: u32);

    fn get_ch4_cc_value(&self) -> u32;
}

// PWM channels ---------------------------------------------------------------

/// The first PWM output channel of a timer.
pub struct PwmChannel1<TIM> {
    tim: TIM,
}

impl<TIM> PwmChannel1<TIM> {
    /// The timer handle this channel drives.
    pub closed spec fn tim_spec(&self) -> TIM {
        self.tim
    }

    pub fn new(tim: TIM) -> (r: Self)
        ensures
            r.tim_spec() == tim,
    {
        PwmChannel1 { tim }
    }
}

impl<TIM: TimerWithPwm1Ch> PwmChannel for PwmChannel1<TIM> {
    fn config(&mut self, mode: PwmMode, polarity: PwmPolarity) {
        let ocm = Ocm::from(mode);
        self.tim.preload_output_channel_in_mode(Channel::C1, ocm);
        self.tim.set_polarity(Channel::C1, polarity);
    }

    fn set_enable(&mut self, en: bool) {
        self.tim.enable_ch1(en);
    }

    fn get_max_duty(&self) -> u32 {
        self.tim.read_auto_reload().wrapping_add(1)
    }

    fn set_duty(&mut self, duty: u32) {
        self.tim.set_ch1_cc_value(duty);
    }
}

/// The second PWM output channel of a timer.
pub struct PwmChannel2<TIM> {
    tim: TIM,
}

impl<TIM> PwmChannel2<TIM> {
    /// The timer handle this channel drives.
    pub closed spec fn tim_spec(&self) -> TIM {
        self.tim
    }

    pub fn new(tim: TIM) -> (r: Self)
        ensures
            r.tim_spec() == tim,
    {
        PwmChannel2 { tim }
    }
}

impl<TIM: TimerWithPwm2Ch> PwmChannel for PwmChannel2<TIM> {
    fn config(&mut self, mode: PwmMode, polarity: PwmPolarity) {
        let ocm = Ocm::from(mode);
        self.tim.preload_output_channel_in_mode(Channel::C2, ocm);
        self.tim.set_polarity(Channel::C2, polarity);
    }

    fn set_enable(&mut self, en: bool) {
        self.tim.enable_ch2(en);
    }

    fn get_max_duty(&self) -> u32 {
        self.tim.read_auto_reload().wrapping_add(1)
    }

    fn set_duty(&mut self, duty: u32) {
        self.tim.set_ch2_cc_value(duty);
    }
}

/// The third PWM output channel of a timer.
pub struct PwmChannel3<TIM> {
    tim: TIM,
}

impl<TIM> PwmChannel3<TIM> {
    /// The timer handle this channel drives.
    pub closed spec fn tim_spec(&self) -> TIM {
        self.tim
    }

    pub fn new(tim: TIM) -> (r: Self)
        ensures
            r.tim_spec() == tim,
    {
        PwmChannel3 { tim }
    }
}

impl<TIM: TimerWithPwm3Ch> PwmChannel for PwmChannel3<TIM> {
    fn config(&mut self, mode: PwmMode, polarity: PwmPolarity) {
        let ocm = Ocm::from(mode);
        self.tim.preload_output_channel_in_mode(Channel::C3, ocm);
        self.tim.set_polarity(Channel::C3, polarity);
    }

    fn set_enable(&mut self, en: bool) {
        self.tim.enable_ch3(en);
    }

    fn get_max_duty(&self) -> u32 {
        self.tim.read_auto_reload().wrapping_add(1)
    }

    fn set_duty(&mut self, duty: u32) {
        self.tim.set_ch3_cc_value(duty);
    }
}

/// The fourth PWM output channel of a timer.
pub struct PwmChannel4<TIM> {
    tim: TIM,
}

impl<TIM> PwmChannel4<TIM> {
    /// The timer handle this channel drives.
    pub closed spec fn tim_spec(&self) -> TIM {
        self.tim
    }

    pub fn new(tim: TIM) -> (r: Self)
        ensures
            r.tim_spec() == tim,
    {
        PwmChannel4 { tim }
    }
}

impl<TIM: TimerWithPwm4Ch> PwmChannel for PwmChannel4<TIM> {
    fn config(&mut self, mode: PwmMode, polarity: PwmPolarity) {
        let ocm = Ocm::from(mode);
        self.tim.preload_output_channel_in_mode(Channel::C4, ocm);
        self.tim.set_polarity(Channel::C4, polarity);
    }

    fn set_enable(&mut self, en: bool) {
        self.tim.enable_ch4(en);
    }

    fn get_max_duty(&self) -> u32 {
        self.tim.read_auto_reload().wrapping_add(1)
    }

    fn set_duty(&mut self, duty: u32) {
        self.tim.set_ch4_cc_value(duty);
    }
}

// Prescaler arithmetic -------------------------------------------------------

/// Splits one update period, measured in timer-clock ticks, into a prescaler
/// and an auto-reload value: the hardware counts `arr + 1` steps of
/// `prescaler + 1` ticks each.  The prescaler is the smallest that brings
/// the step count within the 16-bit counter.
pub fn compute_prescaler_arr(timer_clk: u32, update_freq: u32) -> (r: (u32, u32))
    requires
        update_freq > 0,
        update_freq <= timer_clk,
    ensures
        ({
            let ticks = timer_clk as int / update_freq as int;
            let prescaler = (ticks - 1) / 0x10000;
            r.0 == prescaler && r.1 == ticks / (prescaler + 1) - 1
        }),
{
    let ticks = timer_clk / update_freq;
    proof {
        assert(ticks >= 1) by (nonlinear_arith)
            requires
                ticks == timer_clk as int / update_freq as int,
                update_freq > 0,
                update_freq <= timer_clk,
        {
        }
    }
    let prescaler = (ticks - 1) / 65536;
    proof {
        assert(prescaler <= ticks - 1) by (nonlinear_arith)
            requires
                prescaler == (ticks as int - 1) / 65536,
                ticks >= 1,
        {
        }
        assert(ticks as int / (prescaler as int + 1) >= 1) by (nonlinear_arith)
            requires
                ticks >= 1,
                0 <= prescaler <= ticks - 1,
        {
        }
    }
    let arr = ticks / (prescaler + 1) - 1;
    (prescaler, arr)
}

} // verus!
