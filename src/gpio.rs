//! Pins of the hub as digital lines: a state machine per pin over the
//! byte-wide registers that several pins share.
use vstd::prelude::*;

use crate::transport::{Transfer, UsbTransport};
use crate::usb4604_hal::{
    added, apply_update, is_reg_read, is_reg_write, modify_prefix, reg_read_result, transfer_value, written_byte, Usb4604,
};
use crate::usb4604_reg::{
    GPIO0_7_DIR, GPIO0_7_INPUT, GPIO0_7_OUTPUT, GPIO0_7_PULL_DOWN, GPIO0_7_PULL_UP, GPIO17_20_DIR,
    GPIO17_20_INPUT, GPIO17_20_OUTPUT, GPIO17_20_PULL_DOWN, GPIO17_20_PULL_UP, GPIO8_10_DIR,
    GPIO8_10_INPUT, GPIO8_10_OUTPUT, GPIO8_10_PULL_DOWN, GPIO8_10_PULL_UP,
};
use crate::Error;

verus! {

/// How a pin is used. Open drain exists only in software: in hardware it is
/// an input that is switched to a low push-pull output to drive the line.
#[derive(Clone, Copy, Debug, PartialEq, Eq, Structural)]
pub enum Mode {
    OutputPushPull,
    OutputOpenDrain,
    Input,
}

/// The pin's internal resistor: never pull-up and pull-down at once.
#[derive(Clone, Copy, Debug, PartialEq, Eq, Structural)]
pub enum Pull {
    /// No resistor.
    Disabled,
    Up,
    Down,
}

#[derive(Clone, Copy, Debug, PartialEq, Eq, Structural)]
pub enum Level {
    Low,
    High,
}

/// The pins known to work as GPIO.
#[derive(Clone, Copy, Debug, PartialEq, Eq, Structural)]
pub enum Pio {
    Pio0,
    Pio1,
    Pio3,
    Pio8,
    Pio9,
    Pio10,
    Pio19,
    Pio20,
}

/// The five registers that hold a pin's configuration and state, one bit each.
#[derive(Clone, Copy, Debug, PartialEq, Eq, Structural)]
pub enum Plane {
    /// Output driver enabled.
    Direction,
    /// Level driven when the output is enabled.
    Output,
    /// Level observed on the pin.
    Input,
    /// Pull-up resistor enabled.
    PullUp,
    /// Pull-down resistor enabled.
    PullDown,
}

impl Pio {
    /// Position of the pin's bit in each register of its bank.
    pub open spec fn spec_bit(self) -> u8 {
        match self {
            Pio::Pio0 => 0,
            Pio::Pio1 => 1,
            Pio::Pio3 => 3,
            Pio::Pio8 => 0,
            Pio::Pio9 => 1,
            Pio::Pio10 => 2,
            Pio::Pio19 => 3,
            Pio::Pio20 => 4,
        }
    }

    /// The pin's bit, as a mask.
    pub open spec fn spec_mask(self) -> u8 {
        1u8 << self.spec_bit()
    }

    /// Address of the register of `plane` in the pin's bank.
    pub open spec fn spec_register(self, plane: Plane) -> u16 {
        match self {
            Pio::Pio0 | Pio::Pio1 | Pio::Pio3 => match plane {
                Plane::Direction => GPIO0_7_DIR,
                Plane::Output => GPIO0_7_OUTPUT,
                Plane::Input => GPIO0_7_INPUT,
                Plane::PullUp => GPIO0_7_PULL_UP,
                Plane::PullDown => GPIO0_7_PULL_DOWN,
            },
            Pio::Pio8 | Pio::Pio9 | Pio::Pio10 => match plane {
                Plane::Direction => GPIO8_10_DIR,
                Plane::Output => GPIO8_10_OUTPUT,
                Plane::Input => GPIO8_10_INPUT,
                Plane::PullUp => GPIO8_10_PULL_UP,
                Plane::PullDown => GPIO8_10_PULL_DOWN,
            },
            Pio::Pio19 | Pio::Pio20 => match plane {
                Plane::Direction => GPIO17_20_DIR,
                Plane::Output => GPIO17_20_OUTPUT,
                Plane::Input => GPIO17_20_INPUT,
                Plane::PullUp => GPIO17_20_PULL_UP,
                Plane::PullDown => GPIO17_20_PULL_DOWN,
            },
        }
    }

    /// Every pin, in declaration order.
    pub fn all() -> (r: Vec<Pio>)
        ensures
            r@ == seq![Pio::Pio0, Pio::Pio1, Pio::Pio3, Pio::Pio8, Pio::Pio9, Pio::Pio10, Pio::Pio19, Pio::Pio20],
    {
        let r = vec![Pio::Pio0, Pio::Pio1, Pio::Pio3, Pio::Pio8, Pio::Pio9, Pio::Pio10, Pio::Pio19, Pio::Pio20];
        assert(r@ =~= seq![Pio::Pio0, Pio::Pio1, Pio::Pio3, Pio::Pio8, Pio::Pio9, Pio::Pio10, Pio::Pio19, Pio::Pio20]);
        r
    }

    /// The pin's name, as written in this enum.
    pub open spec fn spec_name(self) -> Seq<char> {
        match self {
            Pio::Pio0 => "Pio0"@,
            Pio::Pio1 => "Pio1"@,
            Pio::Pio3 => "Pio3"@,
            Pio::Pio8 => "Pio8"@,
            Pio::Pio9 => "Pio9"@,
            Pio::Pio10 => "Pio10"@,
            Pio::Pio19 => "Pio19"@,
            Pio::Pio20 => "Pio20"@,
        }
    }

    pub fn name(&self) -> (r: &'static str)
        ensures
            r@ == self.spec_name(),
    {
        match self {
            Pio::Pio0 => "Pio0",
            Pio::Pio1 => "Pio1",
            Pio::Pio3 => "Pio3",
            Pio::Pio8 => "Pio8",
            Pio::Pio9 => "Pio9",
            Pio::Pio10 => "Pio10",
            Pio::Pio19 => "Pio19",
            Pio::Pio20 => "Pio20",
        }
    }

    pub fn bit(&self) -> (r: u8)
        ensures
            r == self.spec_bit(),
            r < 8,
    {
        match self {
            Pio::Pio0 => 0,
            Pio::Pio1 => 1,
            Pio::Pio3 => 3,
            Pio::Pio8 => 0,
            Pio::Pio9 => 1,
            Pio::Pio10 => 2,
            Pio::Pio19 => 3,
            Pio::Pio20 => 4,
        }
    }

    pub fn mask(&self) -> (r: u8)
        ensures
            r == self.spec_mask(),
    {
        1u8 << self.bit()
    }

    pub fn register(&self, plane: Plane) -> (r: u16)
        ensures
            r == self.spec_register(plane),
    {
        match self {
            Pio::Pio0 | Pio::Pio1 | Pio::Pio3 => match plane {
                Plane::Direction => GPIO0_7_DIR,
                Plane::Output => GPIO0_7_OUTPUT,
                Plane::Input => GPIO0_7_INPUT,
                Plane::PullUp => GPIO0_7_PULL_UP,
                Plane::PullDown => GPIO0_7_PULL_DOWN,
            },
            Pio::Pio8 | Pio::Pio9 | Pio::Pio10 => match plane {
                Plane::Direction => GPIO8_10_DIR,
                Plane::Output => GPIO8_10_OUTPUT,
                Plane::Input => GPIO8_10_INPUT,
                Plane::PullUp => GPIO8_10_PULL_UP,
                Plane::PullDown => GPIO8_10_PULL_DOWN,
            },
            Pio::Pio19 | Pio::Pio20 => match plane {
                Plane::Direction => GPIO17_20_DIR,
                Plane::Output => GPIO17_20_OUTPUT,
                Plane::Input => GPIO17_20_INPUT,
                Plane::PullUp => GPIO17_20_PULL_UP,
                Plane::PullDown => GPIO17_20_PULL_DOWN,
            },
        }
    }
}

/// One field update: set or clear the pin's bit in the register of `plane`.
#[derive(Clone, Copy, Debug, PartialEq, Eq, Structural)]
pub struct FieldWrite {
    pub plane: Plane,
    pub on: bool,
}

/// The bits that a field update puts under the pin's mask.
pub open spec fn field_bits(p: Pio, on: bool) -> u8 {
    if on {
        p.spec_mask()
    } else {
        0
    }
}

/// The output-enable flag once `w` has been issued: a direction update
/// commands the driver on or off.
pub open spec fn out_en_after(out_en: bool, w: FieldWrite) -> bool {
    if w.plane == Plane::Direction {
        w.on
    } else {
        out_en
    }
}

/// The effect of running the field updates `plan` on pin `p`, one
/// read-modify-write each, stopping at the first failure, when `t` holds
/// exactly the transfers that were made: the result, and the output-enable
/// flag afterwards. `None` when `t` is not such a run.
pub open spec fn run_plan(p: Pio, out_en: bool, plan: Seq<FieldWrite>, t: Seq<Transfer>) -> Option<(Result<(), Error>, bool)>
    decreases plan.len(),
{
    if plan.len() == 0 {
        if t.len() == 0 {
            Some((Ok(()), out_en))
        } else {
            None
        }
    } else {
        let w = plan[0];
        let out_en1 = out_en_after(out_en, w);
        match modify_prefix(t, p.spec_register(w.plane), p.spec_mask(), field_bits(p, w.on)) {
            None => None,
            Some((Err(e), n)) => if t.len() == n {
                Some((Err(e), out_en1))
            } else {
                None
            },
            Some((Ok(()), n)) => run_plan(p, out_en1, plan.drop_first(), t.skip(n as int)),
        }
    }
}

/// Every write in `t` comes right after a successful read of the same
/// register and agrees with the byte read on each bit outside `mask`.
pub open spec fn writes_keep_outside(t: Seq<Transfer>, mask: u8) -> bool {
    forall|i: int|
        0 <= i < t.len() && (#[trigger] t[i]) is Out ==> {
            &&& 1 <= i
            &&& is_reg_read(t[i - 1], transfer_value(t[i]))
            &&& reg_read_result(t[i - 1]) is Ok
            &&& written_byte(t[i]) & !mask == reg_read_result(t[i - 1])->Ok_0 & !mask
        }
}

/// Any run of field updates on pin `p` (a mode change, a level, the pull
/// resistors, a whole configuration) leaves every other bit of the registers
/// it writes as it read them: the bits of the other pins are kept.
pub proof fn run_keeps_other_pins(p: Pio, out_en: bool, plan: Seq<FieldWrite>, t: Seq<Transfer>)
    requires
        run_plan(p, out_en, plan, t) is Some,
    ensures
        writes_keep_outside(t, p.spec_mask()),
    decreases plan.len(),
{
    let mask = p.spec_mask();
    if plan.len() > 0 {
        let w = plan[0];
        let address = p.spec_register(w.plane);
        let bits = field_bits(p, w.on);
        let n = modify_prefix(t, address, mask, bits)->Some_0.1;
        let rest = t.skip(n as int);
        if n == 2 {
            let b = reg_read_result(t[0])->Ok_0;
            assert(apply_update(b, mask, bits) & !mask == b & !mask) by (bit_vector);
            assert(is_reg_write(t[1], address, apply_update(b, mask, bits)));
            assert(transfer_value(t[1]) == address);
        }
        if modify_prefix(t, address, mask, bits)->Some_0.0 is Ok {
            run_keeps_other_pins(p, out_en_after(out_en, w), plan.drop_first(), rest);
        }
        assert forall|i: int|
            0 <= i < t.len() && (#[trigger] t[i]) is Out implies {
                &&& 1 <= i
                &&& is_reg_read(t[i - 1], transfer_value(t[i]))
                &&& reg_read_result(t[i - 1]) is Ok
                &&& written_byte(t[i]) & !mask == reg_read_result(t[i - 1])->Ok_0 & !mask
            } by {
            if i >= n {
                assert(t[i] == rest[i - n]);
                assert(t[i - 1] == rest[i - n - 1]);
            }
        }
    }
}

/// Updates that set the output level in `mode`. In open drain, high releases
/// the line (output driver off, level register untouched) and low turns the
/// driver on before driving low.
pub open spec fn level_plan(mode: Mode, level: Level) -> Seq<FieldWrite> {
    if mode == Mode::OutputOpenDrain {
        if level == Level::High {
            seq![FieldWrite { plane: Plane::Direction, on: false }]
        } else {
            seq![FieldWrite { plane: Plane::Direction, on: true }, FieldWrite { plane: Plane::Output, on: false }]
        }
    } else {
        seq![FieldWrite { plane: Plane::Output, on: level == Level::High }]
    }
}

/// Updates that apply `pull`: pull-up register first, then pull-down.
pub open spec fn pull_plan(pull: Pull) -> Seq<FieldWrite> {
    seq![FieldWrite { plane: Plane::PullUp, on: pull == Pull::Up }, FieldWrite { plane: Plane::PullDown, on: pull == Pull::Down }]
}

/// Updates that make a push-pull output, whatever the pin was: the output
/// level first (when given), then the output driver, then no pull resistor.
pub open spec fn output_plan(initial: Option<Level>) -> Seq<FieldWrite> {
    let level = match initial {
        Some(l) => seq![FieldWrite { plane: Plane::Output, on: l == Level::High }],
        None => Seq::empty(),
    };
    level + seq![FieldWrite { plane: Plane::Direction, on: true }] + pull_plan(Pull::Disabled)
}

/// Updates that make an input, or an open-drain pin at rest: output driver
/// off, then `pull`.
pub open spec fn input_plan(pull: Pull) -> Seq<FieldWrite> {
    seq![FieldWrite { plane: Plane::Direction, on: false }] + pull_plan(pull)
}

fn level_writes(mode: Mode, level: Level) -> (r: Vec<FieldWrite>)
    ensures
        r@ == level_plan(mode, level),
{
    let mut r = Vec::new();
    if mode == Mode::OutputOpenDrain {
        if level == Level::High {
            r.push(FieldWrite { plane: Plane::Direction, on: false });
        } else {
            r.push(FieldWrite { plane: Plane::Direction, on: true });
            r.push(FieldWrite { plane: Plane::Output, on: false });
        }
    } else {
        r.push(FieldWrite { plane: Plane::Output, on: level == Level::High });
    }
    assert(r@ =~= level_plan(mode, level));
    r
}

fn append_pull_writes(r: &mut Vec<FieldWrite>, pull: Pull)
    ensures
        final(r)@ == old(r)@ + pull_plan(pull),
{
    r.push(FieldWrite { plane: Plane::PullUp, on: pull == Pull::Up });
    r.push(FieldWrite { plane: Plane::PullDown, on: pull == Pull::Down });
    assert(r@ =~= old(r)@ + pull_plan(pull));
}

fn output_writes(initial: Option<Level>) -> (r: Vec<FieldWrite>)
    ensures
        r@ == output_plan(initial),
{
    let mut r = Vec::new();
    match initial {
        Some(l) => r.push(FieldWrite { plane: Plane::Output, on: l == Level::High }),
        None => {},
    }
    r.push(FieldWrite { plane: Plane::Direction, on: true });
    append_pull_writes(&mut r, Pull::Disabled);
    assert(r@ =~= output_plan(initial));
    r
}

fn input_writes(pull: Pull) -> (r: Vec<FieldWrite>)
    ensures
        r@ == input_plan(pull),
{
    let mut r = Vec::new();
    r.push(FieldWrite { plane: Plane::Direction, on: false });
    append_pull_writes(&mut r, pull);
    assert(r@ =~= input_plan(pull));
    r
}

proof fn lemma_modify_prefix_extend(seg: Seq<Transfer>, rest: Seq<Transfer>, address: u16, mask: u8, bits: u8)
    requires
        modify_prefix(seg, address, mask, bits) is Some,
        modify_prefix(seg, address, mask, bits).unwrap().1 == seg.len(),
    ensures
        modify_prefix(seg + rest, address, mask, bits) == modify_prefix(seg, address, mask, bits),
        (seg + rest).skip(seg.len() as int) == rest,
{
    assert((seg + rest)[0] == seg[0]);
    if seg.len() >= 2 {
        assert((seg + rest)[1] == seg[1]);
    }
    assert((seg + rest).skip(seg.len() as int) =~= rest);
}



/// The level that `byte`, read from a register of the pin's bank, gives pin `p`.
pub open spec fn level_of(byte: u8, p: Pio) -> Level {
    if byte & p.spec_mask() != 0 {
        Level::High
    } else {
        Level::Low
    }
}

/// What a level read yields from the register read `read`.
pub open spec fn level_result(read: Result<u8, Error>, p: Pio) -> Result<Level, Error> {
    match read {
        Ok(b) => Ok(level_of(b, p)),
        Err(e) => Err(e),
    }
}

/// Whether the level read is `level`.
pub open spec fn is_level(read: Result<Level, Error>, level: Level) -> Result<bool, Error> {
    match read {
        Ok(l) => Ok(l == level),
        Err(e) => Err(e),
    }
}

/// The other level.
pub open spec fn opposite(level: Level) -> Level {
    match level {
        Level::Low => Level::High,
        Level::High => Level::Low,
    }
}

/// A pin that can be reconfigured on the fly.
///
/// It keeps the pin's mode, which hardware cannot tell for open drain, and
/// whether it last commanded the output driver on. Dropping it leaves the
/// hardware as it is.
pub struct Flex<T: UsbTransport> {
    usb4604: Usb4604<T>,
    pio: Pio,
    mode: Mode,
    is_out_en: bool,
}

impl<T: UsbTransport> Flex<T> {
    /// The transfers issued through this pin's handle, oldest first.
    pub closed spec fn history(&self) -> Seq<Transfer> {
        self.usb4604.history()
    }

    pub closed spec fn pin(&self) -> Pio {
        self.pio
    }

    pub closed spec fn current_mode(&self) -> Mode {
        self.mode
    }

    /// Whether the pin last commanded its output driver on.
    pub closed spec fn out_enabled(&self) -> bool {
        self.is_out_en
    }

    /// `self` and `other` are the same pin in the same software state.
    pub open spec fn same_state(self, other: Self) -> bool {
        self.pin() == other.pin() && self.current_mode() == other.current_mode()
            && self.out_enabled() == other.out_enabled()
    }

    /// `t` is what running `plan` from the state of `self` issued, ending
    /// with result `r` in state `after`; the mode is left as it was.
    pub open spec fn ran(self, plan: Seq<FieldWrite>, after: Self, r: Result<(), Error>) -> bool {
        &&& self.history().is_prefix_of(after.history())
        &&& run_plan(self.pin(), self.out_enabled(), plan, added(self.history(), after.history()))
            == Some((r, after.out_enabled()))
        &&& after.pin() == self.pin()
    }

    /// `after` is `self` once one register of `plane` has been read for the
    /// pin, and `r` is the level that read gave.
    pub open spec fn read(self, plane: Plane, after: Self, r: Result<Level, Error>) -> bool {
        &&& after.history().len() == self.history().len() + 1
        &&& after.history().drop_last() == self.history()
        &&& is_reg_read(after.history().last(), self.pin().spec_register(plane))
        &&& r == level_result(reg_read_result(after.history().last()), self.pin())
        &&& self.same_state(after)
    }

    /// The level given by the first transfer issued after `self`, a register read.
    pub open spec fn first_read_level(self, after: Self) -> Result<Level, Error> {
        level_result(reg_read_result(after.history()[self.history().len() as int]), self.pin())
    }

    /// `after` is `self` once a register of the output plane has been read
    /// and `plan` run after it, with result `r`.
    pub open spec fn read_then_ran(self, plan: Seq<FieldWrite>, after: Self, r: Result<(), Error>) -> bool {
        &&& self.history().is_prefix_of(after.history())
        &&& after.history().len() > self.history().len()
        &&& is_reg_read(after.history()[self.history().len() as int], self.pin().spec_register(Plane::Output))
        &&& run_plan(self.pin(), self.out_enabled(), plan, after.history().skip(self.history().len() + 1int))
            == Some((r, after.out_enabled()))
        &&& after.pin() == self.pin()
    }

    /// A pin handle on `usb4604` from the answer `dir` to a read of the
    /// pin's direction register.
    pub fn from_direction(usb4604: Usb4604<T>, pio: Pio, dir: Result<u8, Error>) -> (r: Result<Flex<T>, Error>)
        ensures
            from_direction_result(pio, dir, r),
            r is Ok ==> r->Ok_0.history() == usb4604.history(),
    {
        let d = dir?;
        let is_out = d & pio.mask() != 0;
        let mode = if is_out {
            Mode::OutputPushPull
        } else {
            Mode::Input
        };
        Ok(Flex { usb4604, pio, mode, is_out_en: is_out })
    }

    /// Sets the initial level, then enables the output driver, then turns
    /// the pull resistors off. The mode becomes push-pull only on success.
    pub fn set_as_output(&mut self, initial: Level) -> (r: Result<(), Error>)
        ensures
            old(self).ran(output_plan(Some(initial)), *final(self), r),
            final(self).current_mode() == if r is Ok { Mode::OutputPushPull } else { old(self).current_mode() },
    {
        self.configure_output(Some(initial))
    }

    /// As [`Self::set_as_output`], leaving the level register as it is when
    /// `initial` is `None`.
    fn configure_output(&mut self, initial: Option<Level>) -> (r: Result<(), Error>)
        ensures
            old(self).ran(output_plan(initial), *final(self), r),
            final(self).current_mode() == if r is Ok { Mode::OutputPushPull } else { old(self).current_mode() },
    {
        let plan = output_writes(initial);
        self.run(&plan)?;
        self.mode = Mode::OutputPushPull;
        Ok(())
    }

    /// Consumes the pin, configures it as in [`Self::set_as_output`] and
    /// returns it as a [`PushPullOutput`].
    pub fn into_output(self, initial: Level) -> (r: Result<PushPullOutput<T>, Error>)
        ensures
            match r {
                Ok(o) => self.ran(output_plan(Some(initial)), o.flex(), Ok(()))
                    && o.flex().current_mode() == Mode::OutputPushPull,
                Err(e) => exists|f: Flex<T>| self.ran(output_plan(Some(initial)), f, Err(e)),
            },
    {
        let mut flex = self;
        let r = flex.set_as_output(initial);
        match r {
            Ok(()) => {
                assert(r->Ok_0 == ());
                Ok(PushPullOutput { flex })
            },
            Err(e) => Err(e),
        }
    }

    /// Turns the output driver off, then applies `pull`. The mode becomes
    /// input only on success.
    pub fn set_as_input(&mut self, pull: Pull) -> (r: Result<(), Error>)
        ensures
            old(self).ran(input_plan(pull), *final(self), r),
            final(self).current_mode() == if r is Ok { Mode::Input } else { old(self).current_mode() },
    {
        let plan = input_writes(pull);
        self.run(&plan)?;
        self.mode = Mode::Input;
        Ok(())
    }

    /// Consumes the pin, configures it as in [`Self::set_as_input`] and
    /// returns it as an [`Input`].
    pub fn into_input(self, pull: Pull) -> (r: Result<Input<T>, Error>)
        ensures
            match r {
                Ok(o) => self.ran(input_plan(pull), o.flex(), Ok(())) && o.flex().current_mode() == Mode::Input,
                Err(e) => exists|f: Flex<T>| self.ran(input_plan(pull), f, Err(e)),
            },
    {
        let mut flex = self;
        let r = flex.set_as_input(pull);
        match r {
            Ok(()) => {
                assert(r->Ok_0 == ());
                Ok(Input { flex })
            },
            Err(e) => Err(e),
        }
    }

    /// Configures the registers exactly as for an input, and tags the pin
    /// open drain: it will drive the line low when set low and release it
    /// when set high, in which case the input tells whether another device
    /// holds the line low. The tag is set only on success.
    pub fn set_as_open_drain(&mut self, pull: Pull) -> (r: Result<(), Error>)
        ensures
            old(self).ran(input_plan(pull), *final(self), r),
            final(self).current_mode() == if r is Ok { Mode::OutputOpenDrain } else { old(self).current_mode() },
    {
        let plan = input_writes(pull);
        self.run(&plan)?;
        self.mode = Mode::OutputOpenDrain;
        Ok(())
    }

    /// Consumes the pin, configures it as in [`Self::set_as_open_drain`] and
    /// returns it as an [`OpenDrainOutput`].
    pub fn into_open_drain_output(self, pull: Pull) -> (r: Result<OpenDrainOutput<T>, Error>)
        ensures
            match r {
                Ok(o) => self.ran(input_plan(pull), o.flex(), Ok(())) && o.flex().current_mode() == Mode::OutputOpenDrain,
                Err(e) => exists|f: Flex<T>| self.ran(input_plan(pull), f, Err(e)),
            },
    {
        let mut flex = self;
        let r = flex.set_as_open_drain(pull);
        match r {
            Ok(()) => {
                assert(r->Ok_0 == ());
                Ok(OpenDrainOutput { flex })
            },
            Err(e) => Err(e),
        }
    }

    /// The pin's mode. A pin read from hardware is never open drain.
    pub fn mode(&self) -> (r: Mode)
        ensures
            r == self.current_mode(),
    {
        self.mode
    }

    /// The pin this handle drives.
    pub fn pio(&self) -> (r: Pio)
        ensures
            r == self.pin(),
    {
        self.pio
    }

    /// Sets the output level. An open-drain pin set high is released
    /// (output driver off, level register untouched); set low, its driver is
    /// turned on and it drives low.
    pub fn set_level(&mut self, level: Level) -> (r: Result<(), Error>)
        ensures
            old(self).ran(level_plan(old(self).current_mode(), level), *final(self), r),
            final(self).current_mode() == old(self).current_mode(),
    {
        let plan = level_writes(self.mode, level);
        self.run(&plan)
    }

    /// Sets the output high; an open-drain pin is released.
    pub fn set_high(&mut self) -> (r: Result<(), Error>)
        ensures
            old(self).ran(level_plan(old(self).current_mode(), Level::High), *final(self), r),
            final(self).current_mode() == old(self).current_mode(),
    {
        self.set_level(Level::High)
    }

    /// Sets the output low.
    pub fn set_low(&mut self) -> (r: Result<(), Error>)
        ensures
            old(self).ran(level_plan(old(self).current_mode(), Level::Low), *final(self), r),
            final(self).current_mode() == old(self).current_mode(),
    {
        self.set_level(Level::Low)
    }

    /// Reads the register of `plane` in the pin's bank, as a level.
    fn read_level(&mut self, plane: Plane) -> (r: Result<Level, Error>)
        ensures
            old(self).read(plane, *final(self), r),
    {
        let byte = self.usb4604.read_register(self.pio.register(plane))?;
        if byte & self.pio.mask() != 0 {
            Ok(Level::High)
        } else {
            Ok(Level::Low)
        }
    }

    /// The output level last set, read back from the output register.
    pub fn get_output_level(&mut self) -> (r: Result<Level, Error>)
        ensures
            old(self).read(Plane::Output, *final(self), r),
    {
        self.read_level(Plane::Output)
    }

    /// Whether the output register holds high for the pin.
    pub fn is_set_high(&mut self) -> (r: Result<bool, Error>)
        ensures
            old(self).read(Plane::Output, *final(self), old(self).first_read_level(*final(self))),
            r == is_level(old(self).first_read_level(*final(self)), Level::High),
    {
        let l = self.get_output_level();
        match l {
            Ok(level) => Ok(level == Level::High),
            Err(e) => Err(e),
        }
    }

    /// Whether the output register holds low for the pin.
    pub fn is_set_low(&mut self) -> (r: Result<bool, Error>)
        ensures
            old(self).read(Plane::Output, *final(self), old(self).first_read_level(*final(self))),
            r == is_level(old(self).first_read_level(*final(self)), Level::Low),
    {
        let l = self.get_output_level();
        match l {
            Ok(level) => Ok(level == Level::Low),
            Err(e) => Err(e),
        }
    }

    /// The level observed on the pin, from the input register.
    pub fn get_input_level(&mut self) -> (r: Result<Level, Error>)
        ensures
            old(self).read(Plane::Input, *final(self), r),
    {
        self.read_level(Plane::Input)
    }

    /// Whether the pin is observed high.
    pub fn is_high(&mut self) -> (r: Result<bool, Error>)
        ensures
            old(self).read(Plane::Input, *final(self), old(self).first_read_level(*final(self))),
            r == is_level(old(self).first_read_level(*final(self)), Level::High),
    {
        let l = self.get_input_level();
        match l {
            Ok(level) => Ok(level == Level::High),
            Err(e) => Err(e),
        }
    }

    /// Whether the pin is observed low.
    pub fn is_low(&mut self) -> (r: Result<bool, Error>)
        ensures
            old(self).read(Plane::Input, *final(self), old(self).first_read_level(*final(self))),
            r == is_level(old(self).first_read_level(*final(self)), Level::Low),
    {
        let l = self.get_input_level();
        match l {
            Ok(level) => Ok(level == Level::Low),
            Err(e) => Err(e),
        }
    }

    /// Reads the output level back and sets the opposite one.
    pub fn toggle(&mut self) -> (r: Result<(), Error>)
        ensures
            old(self).history().len() < final(self).history().len(),
            match old(self).first_read_level(*final(self)) {
                Err(e) => r == Err::<(), Error>(e) && final(self).history().len() == old(self).history().len() + 1
                    && old(self).same_state(*final(self)),
                Ok(l) => old(self).read_then_ran(level_plan(old(self).current_mode(), opposite(l)), *final(self), r),
            },
            final(self).current_mode() == old(self).current_mode(),
    {
        let ghost s0 = *self;
        let level = self.get_output_level()?;
        let ghost s1 = *self;
        let r = if level == Level::Low {
            self.set_level(Level::High)
        } else {
            self.set_level(Level::Low)
        };
        proof {
            assert(s1.history()[s0.history().len() as int] == s1.history().last());
            assert(self.history()[s0.history().len() as int] == s1.history().last());
            assert(added(s1.history(), self.history()) =~= self.history().skip(s0.history().len() + 1int));
        }
        r
    }

    /// Enables the pull-up or pull-down resistor, or neither: pull-up
    /// register first, then pull-down.
    pub fn set_pull(&mut self, pull: Pull) -> (r: Result<(), Error>)
        ensures
            old(self).ran(pull_plan(pull), *final(self), r),
            final(self).current_mode() == old(self).current_mode(),
    {
        let mut plan = Vec::new();
        append_pull_writes(&mut plan, pull);
        assert(plan@ =~= pull_plan(pull));
        self.run(&plan)
    }

    fn run(&mut self, plan: &Vec<FieldWrite>) -> (r: Result<(), Error>)
        ensures
            old(self).ran(plan@, *final(self), r),
            final(self).current_mode() == old(self).current_mode(),
    {
        let mut out_en = self.is_out_en;
        let r = run_writes(&mut self.usb4604, self.pio, &mut out_en, plan, 0);
        self.is_out_en = out_en;
        assert(plan@.skip(0) =~= plan@);
        r
    }
}



/// Runs the field updates `plan[i..]` on pin `pio` through `dev`, one
/// read-modify-write each, stopping at the first failure. `out_en` follows
/// the direction updates as they are issued.
fn run_writes<T: UsbTransport>(dev: &mut Usb4604<T>, pio: Pio, out_en: &mut bool, plan: &Vec<FieldWrite>, i: usize) -> (r: Result<(), Error>)
    requires
        i <= plan.len(),
    ensures
        old(dev).history().is_prefix_of(final(dev).history()),
        run_plan(pio, *old(out_en), plan@.skip(i as int), added(old(dev).history(), final(dev).history()))
            == Some((r, *final(out_en))),
    decreases plan.len() - i,
{
    let ghost h0 = dev.history();
    let ghost p = plan@.skip(i as int);
    if i == plan.len() {
        assert(added(h0, dev.history()) =~= Seq::<Transfer>::empty());
        return Ok(());
    }
    assert(p[0] == plan@[i as int]);
    let w = plan[i];
    if w.plane == Plane::Direction {
        *out_en = w.on;
    }
    let mask = pio.mask();
    let bits = if w.on {
        mask
    } else {
        0
    };
    let address = pio.register(w.plane);
    let r = dev.modify_register(address, mask, bits);
    let ghost h1 = dev.history();
    let ghost seg = added(h0, h1);
    match r {
        Err(e) => Err(e),
        Ok(()) => {
            let r2 = run_writes(dev, pio, out_en, plan, i + 1);
            proof {
                let rest = added(h1, dev.history());
                lemma_modify_prefix_extend(seg, rest, address, mask, bits);
                assert(added(h0, dev.history()) =~= seg + rest);
                assert(p.drop_first() =~= plan@.skip(i + 1));
            }
            r2
        },
    }
}

/// A pin handle from the answer `dir` to a read of its direction register:
/// driver on is a push-pull output, off is an input, and a failed read is
/// passed on. Open drain is never inferred.
pub open spec fn from_direction_result<T: UsbTransport>(pio: Pio, dir: Result<u8, Error>, r: Result<Flex<T>, Error>) -> bool {
    match dir {
        Ok(d) => {
            &&& r is Ok
            &&& r->Ok_0.pin() == pio
            &&& r->Ok_0.out_enabled() == (level_of(d, pio) == Level::High)
            &&& r->Ok_0.current_mode() == if level_of(d, pio) == Level::High {
                Mode::OutputPushPull
            } else {
                Mode::Input
            }
        },
        Err(e) => r == Err::<Flex<T>, Error>(e),
    }
}

/// `t` holds what configuring pin `pio` from a released state with `plan`
/// issued; `r` is `Ok` exactly when every update succeeded, with the
/// output-enable flag that the run left, and otherwise the failure.
pub open spec fn configured<T: UsbTransport>(pio: Pio, plan: Seq<FieldWrite>, t: Seq<Transfer>, r: Result<Flex<T>, Error>, mode: Mode) -> bool {
    &&& run_plan(pio, false, plan, t) is Some
    &&& match r {
        Ok(f) => {
            &&& run_plan(pio, false, plan, t) == Some((Ok::<(), Error>(()), f.out_enabled()))
            &&& f.pin() == pio
            &&& f.current_mode() == mode
            &&& f.history() == Seq::<Transfer>::empty()
        },
        Err(e) => run_plan(pio, false, plan, t)->Some_0.0 == Err::<(), Error>(e),
    }
}

/// A pin configured as a push-pull output.
pub struct PushPullOutput<T: UsbTransport> {
    flex: Flex<T>,
}

/// A pin configured as an input, with an optional pull resistor.
pub struct Input<T: UsbTransport> {
    flex: Flex<T>,
}

/// A pin that drives its line low or releases it.
pub struct OpenDrainOutput<T: UsbTransport> {
    flex: Flex<T>,
}

impl<T: UsbTransport> PushPullOutput<T> {
    pub closed spec fn flex(&self) -> Flex<T> {
        self.flex
    }

    /// Sets the output high.
    pub fn set_high(&mut self) -> (r: Result<(), Error>)
        ensures
            old(self).flex().ran(level_plan(old(self).flex().current_mode(), Level::High), final(self).flex(), r),
            final(self).flex().current_mode() == old(self).flex().current_mode(),
    {
        self.flex.set_high()
    }

    /// Sets the output low.
    pub fn set_low(&mut self) -> (r: Result<(), Error>)
        ensures
            old(self).flex().ran(level_plan(old(self).flex().current_mode(), Level::Low), final(self).flex(), r),
            final(self).flex().current_mode() == old(self).flex().current_mode(),
    {
        self.flex.set_low()
    }

    /// Reads the output level back and sets the opposite one.
    pub fn toggle(&mut self) -> (r: Result<(), Error>)
        ensures
            old(self).flex().history().len() < final(self).flex().history().len(),
            match old(self).flex().first_read_level(final(self).flex()) {
                Err(e) => r == Err::<(), Error>(e) && final(self).flex().history().len() == old(self).flex().history().len() + 1
                    && old(self).flex().same_state(final(self).flex()),
                Ok(l) => old(self).flex().read_then_ran(level_plan(old(self).flex().current_mode(), opposite(l)), final(self).flex(), r),
            },
            final(self).flex().current_mode() == old(self).flex().current_mode(),
    {
        self.flex.toggle()
    }

    /// Sets the output level.
    pub fn set_level(&mut self, level: Level) -> (r: Result<(), Error>)
        ensures
            old(self).flex().ran(level_plan(old(self).flex().current_mode(), level), final(self).flex(), r),
            final(self).flex().current_mode() == old(self).flex().current_mode(),
    {
        self.flex.set_level(level)
    }

    /// The output level last set, read back from the output register.
    pub fn level(&mut self) -> (r: Result<Level, Error>)
        ensures
            old(self).flex().read(Plane::Output, final(self).flex(), r),
    {
        self.flex.get_output_level()
    }

    /// The pin this output drives.
    pub fn pio(&self) -> (r: Pio)
        ensures
            r == self.flex().pin(),
    {
        self.flex.pio()
    }
}

impl<T: UsbTransport> Input<T> {
    pub closed spec fn flex(&self) -> Flex<T> {
        self.flex
    }

    /// Whether the pin is observed high.
    pub fn is_high(&mut self) -> (r: Result<bool, Error>)
        ensures
            old(self).flex().read(Plane::Input, final(self).flex(), old(self).flex().first_read_level(final(self).flex())),
            r == is_level(old(self).flex().first_read_level(final(self).flex()), Level::High),
    {
        self.flex.is_high()
    }

    /// Whether the pin is observed low.
    pub fn is_low(&mut self) -> (r: Result<bool, Error>)
        ensures
            old(self).flex().read(Plane::Input, final(self).flex(), old(self).flex().first_read_level(final(self).flex())),
            r == is_level(old(self).flex().first_read_level(final(self).flex()), Level::Low),
    {
        self.flex.is_low()
    }

    /// The pin this input observes.
    pub fn pio(&self) -> (r: Pio)
        ensures
            r == self.flex().pin(),
    {
        self.flex.pio()
    }

    /// Enables the pull-up or pull-down resistor, or neither.
    pub fn set_pull(&mut self, pull: Pull) -> (r: Result<(), Error>)
        ensures
            old(self).flex().ran(pull_plan(pull), final(self).flex(), r),
            final(self).flex().current_mode() == old(self).flex().current_mode(),
    {
        self.flex.set_pull(pull)
    }
}

impl<T: UsbTransport> OpenDrainOutput<T> {
    pub closed spec fn flex(&self) -> Flex<T> {
        self.flex
    }

    /// Releases the line: the level then depends on the pull resistors and
    /// on other devices.
    pub fn set_high_z(&mut self) -> (r: Result<(), Error>)
        ensures
            old(self).flex().ran(level_plan(old(self).flex().current_mode(), Level::High), final(self).flex(), r),
            final(self).flex().current_mode() == old(self).flex().current_mode(),
    {
        self.flex.set_high()
    }

    /// Drives the line low.
    pub fn set_low(&mut self) -> (r: Result<(), Error>)
        ensures
            old(self).flex().ran(level_plan(old(self).flex().current_mode(), Level::Low), final(self).flex(), r),
            final(self).flex().current_mode() == old(self).flex().current_mode(),
    {
        self.flex.set_low()
    }

    /// Reads the output register back and switches between released and low.
    pub fn toggle(&mut self) -> (r: Result<(), Error>)
        ensures
            old(self).flex().history().len() < final(self).flex().history().len(),
            match old(self).flex().first_read_level(final(self).flex()) {
                Err(e) => r == Err::<(), Error>(e) && final(self).flex().history().len() == old(self).flex().history().len() + 1
                    && old(self).flex().same_state(final(self).flex()),
                Ok(l) => old(self).flex().read_then_ran(level_plan(old(self).flex().current_mode(), opposite(l)), final(self).flex(), r),
            },
            final(self).flex().current_mode() == old(self).flex().current_mode(),
    {
        self.flex.toggle()
    }

    /// Releases the line for high, drives it for low.
    pub fn set_level(&mut self, level: Level) -> (r: Result<(), Error>)
        ensures
            old(self).flex().ran(level_plan(old(self).flex().current_mode(), level), final(self).flex(), r),
            final(self).flex().current_mode() == old(self).flex().current_mode(),
    {
        self.flex.set_level(level)
    }

    /// Low without any transfer while this side drives the line; otherwise
    /// the level observed on the input register.
    pub fn level(&mut self) -> (r: Result<Level, Error>)
        ensures
            open_drain_level(old(self).flex(), final(self).flex(), r),
    {
        if self.flex.is_out_en {
            Ok(Level::Low)
        } else {
            self.flex.get_input_level()
        }
    }

    /// The pin this output drives.
    pub fn pio(&self) -> (r: Pio)
        ensures
            r == self.flex().pin(),
    {
        self.flex.pio()
    }
}

/// What reading an open-drain pin's level does from state `before`: low
/// with no transfer while the driver is on, else one read of the input
/// register.
pub open spec fn open_drain_level<T: UsbTransport>(before: Flex<T>, after: Flex<T>, r: Result<Level, Error>) -> bool {
    if before.out_enabled() {
        r == Ok::<Level, Error>(Level::Low) && after == before
    } else {
        before.read(Plane::Input, after, r)
    }
}

/// `s0`, `s1` and `s2` are the pin before setting its level, after it (with
/// result `set`) and after reading its level (with result `r`).
///
/// An open-drain pin set high with success reads low only when its input
/// register shows the line low, that is when something outside (another
/// device, a pull-down) holds it low.
pub proof fn open_drain_high_reads_line<T: UsbTransport>(s0: Flex<T>, s1: Flex<T>, set: Result<(), Error>, s2: Flex<T>, r: Result<Level, Error>)
    requires
        s0.current_mode() == Mode::OutputOpenDrain,
        s0.ran(level_plan(s0.current_mode(), Level::High), s1, set),
        set is Ok,
        open_drain_level(s1, s2, r),
    ensures
        !s1.out_enabled(),
        is_reg_read(s2.history().last(), s0.pin().spec_register(Plane::Input)),
        r == Ok::<Level, Error>(Level::Low) ==> reg_read_result(s2.history().last()) is Ok
            && reg_read_result(s2.history().last())->Ok_0 & s0.pin().spec_mask() == 0,
{
    assert(set->Ok_0 == ());
    reveal_with_fuel(run_plan, 2);
    let t = added(s0.history(), s1.history());
    let plan = level_plan(s0.current_mode(), Level::High);
    let w = plan[0];
    let n = modify_prefix(t, s0.pin().spec_register(w.plane), s0.pin().spec_mask(), field_bits(s0.pin(), w.on))->Some_0.1;
    assert(plan.drop_first() =~= Seq::<FieldWrite>::empty());
    assert(run_plan(s0.pin(), false, plan.drop_first(), t.skip(n as int)) == Some((Ok::<(), Error>(()), false)));
}

/// `s0`, `s1` and `s2` are the pin before setting its level, after it (with
/// result `set`) and after reading its level (with result `r`).
///
/// An open-drain pin set low with success reads low, with no transfer,
/// whatever the line does.
pub proof fn open_drain_low_reads_low<T: UsbTransport>(s0: Flex<T>, s1: Flex<T>, set: Result<(), Error>, s2: Flex<T>, r: Result<Level, Error>)
    requires
        s0.current_mode() == Mode::OutputOpenDrain,
        s0.ran(level_plan(s0.current_mode(), Level::Low), s1, set),
        set is Ok,
        open_drain_level(s1, s2, r),
    ensures
        s1.out_enabled(),
        r == Ok::<Level, Error>(Level::Low),
        s2.history() == s1.history(),
{
    assert(set->Ok_0 == ());
    reveal_with_fuel(run_plan, 3);
    let p = s0.pin();
    let t = added(s0.history(), s1.history());
    let plan = level_plan(s0.current_mode(), Level::Low);
    let w0 = plan[0];
    let n0 = modify_prefix(t, p.spec_register(w0.plane), p.spec_mask(), field_bits(p, w0.on))->Some_0.1;
    let t1 = t.skip(n0 as int);
    let w1 = plan[1];
    assert(plan.drop_first()[0] == w1);
    let n1 = modify_prefix(t1, p.spec_register(w1.plane), p.spec_mask(), field_bits(p, w1.on))->Some_0.1;
    assert(plan.drop_first().drop_first() =~= Seq::<FieldWrite>::empty());
    assert(run_plan(p, true, plan.drop_first().drop_first(), t1.skip(n1 as int)) == Some((Ok::<(), Error>(()), true)));
}

impl<T: UsbTransport + Clone> Flex<T> {
    /// Reads the pin's direction register through `usb4604` and makes a pin
    /// handle on a share of it, as [`Flex::from_direction`] says.
    pub(crate) fn init_get_mode(usb4604: &mut Usb4604<T>, pio: Pio) -> (r: Result<Flex<T>, Error>)
        ensures
            final(usb4604).history().len() == old(usb4604).history().len() + 1,
            final(usb4604).history().drop_last() == old(usb4604).history(),
            is_reg_read(final(usb4604).history().last(), pio.spec_register(Plane::Direction)),
            from_direction_result(pio, reg_read_result(final(usb4604).history().last()), r),
            r is Ok ==> r->Ok_0.history() == Seq::<Transfer>::empty(),
    {
        let dir = usb4604.read_register(pio.register(Plane::Direction));
        Flex::from_direction(usb4604.share(), pio, dir)
    }
}

impl<T: UsbTransport + Clone> Usb4604<T> {
    /// A pin handle whose mode is read from the direction register. The
    /// read goes through this handle; the pin gets a share of it.
    pub fn gpio(&mut self, pio: Pio) -> (r: Result<Flex<T>, Error>)
        ensures
            final(self).history().len() == old(self).history().len() + 1,
            final(self).history().drop_last() == old(self).history(),
            is_reg_read(final(self).history().last(), pio.spec_register(Plane::Direction)),
            from_direction_result(pio, reg_read_result(final(self).history().last()), r),
            r is Ok ==> r->Ok_0.history() == Seq::<Transfer>::empty(),
    {
        Flex::init_get_mode(self, pio)
    }

    /// Runs `plan` on pin `pio` from a released state through this handle,
    /// and on success makes a pin handle in `mode` on a share of it.
    fn configure(&mut self, pio: Pio, plan: &Vec<FieldWrite>, mode: Mode) -> (r: Result<Flex<T>, Error>)
        ensures
            old(self).history().is_prefix_of(final(self).history()),
            configured(pio, plan@, added(old(self).history(), final(self).history()), r, mode),
    {
        let mut out_en = false;
        let r = run_writes(self, pio, &mut out_en, plan, 0);
        assert(plan@.skip(0) =~= plan@);
        match r {
            Ok(()) => {
                assert(r->Ok_0 == ());
                Ok(Flex { usb4604: self.share(), pio, mode, is_out_en: out_en })
            },
            Err(e) => Err(e),
        }
    }

    /// A push-pull output: its level is set first when `initial` is given,
    /// then its driver enabled, then its pull resistors turned off. The
    /// transfers go through this handle; the output gets a share of it.
    pub fn output(&mut self, pio: Pio, initial: Option<Level>) -> (r: Result<PushPullOutput<T>, Error>)
        ensures
            old(self).history().is_prefix_of(final(self).history()),
            configured(pio, output_plan(initial), added(old(self).history(), final(self).history()),
                match r { Ok(o) => Ok::<Flex<T>, Error>(o.flex()), Err(e) => Err(e) }, Mode::OutputPushPull),
    {
        let plan = output_writes(initial);
        let flex = self.configure(pio, &plan, Mode::OutputPushPull)?;
        Ok(PushPullOutput { flex })
    }

    /// An input with the pull resistor `pull`: driver off, then the pull
    /// resistors. The transfers go through this handle; the input gets a
    /// share of it.
    pub fn input(&mut self, pio: Pio, pull: Pull) -> (r: Result<Input<T>, Error>)
        ensures
            old(self).history().is_prefix_of(final(self).history()),
            configured(pio, input_plan(pull), added(old(self).history(), final(self).history()),
                match r { Ok(o) => Ok::<Flex<T>, Error>(o.flex()), Err(e) => Err(e) }, Mode::Input),
    {
        let plan = input_writes(pull);
        let flex = self.configure(pio, &plan, Mode::Input)?;
        Ok(Input { flex })
    }

    /// An open-drain pin, released, with the pull resistor `pull`. The
    /// transfers go through this handle; the pin gets a share of it.
    pub fn open_drain(&mut self, pio: Pio, pull: Pull) -> (r: Result<OpenDrainOutput<T>, Error>)
        ensures
            old(self).history().is_prefix_of(final(self).history()),
            configured(pio, input_plan(pull), added(old(self).history(), final(self).history()),
                match r { Ok(o) => Ok::<Flex<T>, Error>(o.flex()), Err(e) => Err(e) }, Mode::OutputOpenDrain),
    {
        let plan = input_writes(pull);
        let flex = self.configure(pio, &plan, Mode::OutputOpenDrain)?;
        Ok(OpenDrainOutput { flex })
    }
}

} // verus!
