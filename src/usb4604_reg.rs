//! Register map of the GPIO banks: one byte per bank and purpose.
use vstd::prelude::*;

use crate::SmscReg;

verus! {

/// Address of [`Gpio0_7Dir`].
pub const GPIO0_7_DIR: u16 = 0x0833;

/// Address of [`Gpio0_7Output`].
pub const GPIO0_7_OUTPUT: u16 = 0x0837;

/// Address of [`Gpio0_7Input`].
pub const GPIO0_7_INPUT: u16 = 0x083B;

/// Address of [`Gpio0_7PullUp`].
pub const GPIO0_7_PULL_UP: u16 = 0x083F;

/// Address of [`Gpio0_7PullDown`].
pub const GPIO0_7_PULL_DOWN: u16 = 0x082F;

/// Address of [`Gpio8_10Dir`].
pub const GPIO8_10_DIR: u16 = 0x0832;

/// Address of [`Gpio8_10Output`].
pub const GPIO8_10_OUTPUT: u16 = 0x0836;

/// Address of [`Gpio8_10Input`].
pub const GPIO8_10_INPUT: u16 = 0x083A;

/// Address of [`Gpio8_10PullUp`].
pub const GPIO8_10_PULL_UP: u16 = 0x083E;

/// Address of [`Gpio8_10PullDown`].
pub const GPIO8_10_PULL_DOWN: u16 = 0x082E;

/// Address of [`Gpio17_20Dir`].
pub const GPIO17_20_DIR: u16 = 0x0831;

/// Address of [`Gpio17_20Output`].
pub const GPIO17_20_OUTPUT: u16 = 0x0835;

/// Address of [`Gpio17_20Input`].
pub const GPIO17_20_INPUT: u16 = 0x0839;

/// Address of [`Gpio17_20PullUp`].
pub const GPIO17_20_PULL_UP: u16 = 0x083D;

/// Address of [`Gpio17_20PullDown`].
pub const GPIO17_20_PULL_DOWN: u16 = 0x082D;

/// Address of [`Gpio41_45Dir`].
pub const GPIO41_45_DIR: u16 = 0x0932;

/// Address of [`Gpio41_45Output`].
pub const GPIO41_45_OUTPUT: u16 = 0x0936;

/// Address of [`Gpio41_45Input`].
pub const GPIO41_45_INPUT: u16 = 0x093A;

/// Address of [`Gpio41_45PullUp`].
pub const GPIO41_45_PULL_UP: u16 = 0x093E;

/// Address of [`Gpio41_45PullDown`].
pub const GPIO41_45_PULL_DOWN: u16 = 0x092E;

/// Direction register: a set bit enables the pin's output driver.
///
/// GPIO n at bit n for n in 0, 1, 2, 3 and 5; bits 4, 6 and 7 are not wired.
#[derive(Clone, Copy, Debug, PartialEq, Eq, Structural)]
pub struct Gpio0_7Dir(pub u8);

impl SmscReg for Gpio0_7Dir {
    const ADDR: u16 = GPIO0_7_DIR;

    open spec fn spec_value(&self) -> u8 {
        self.0
    }

    fn from_value(bits: u8) -> (r: Self) {
        Gpio0_7Dir(bits)
    }

    fn value(&self) -> (r: u8) {
        self.0
    }
}

/// Output register: the level driven by a pin whose output is enabled.
///
/// GPIO n at bit n for n in 0, 1, 2, 3 and 5; bits 4, 6 and 7 are not wired.
#[derive(Clone, Copy, Debug, PartialEq, Eq, Structural)]
pub struct Gpio0_7Output(pub u8);

impl SmscReg for Gpio0_7Output {
    const ADDR: u16 = GPIO0_7_OUTPUT;

    open spec fn spec_value(&self) -> u8 {
        self.0
    }

    fn from_value(bits: u8) -> (r: Self) {
        Gpio0_7Output(bits)
    }

    fn value(&self) -> (r: u8) {
        self.0
    }
}

/// Input register: the level observed on each pin.
///
/// GPIO n at bit n for n in 0, 1, 2, 3 and 5; bits 4, 6 and 7 are not wired.
#[derive(Clone, Copy, Debug, PartialEq, Eq, Structural)]
pub struct Gpio0_7Input(pub u8);

impl SmscReg for Gpio0_7Input {
    const ADDR: u16 = GPIO0_7_INPUT;

    open spec fn spec_value(&self) -> u8 {
        self.0
    }

    fn from_value(bits: u8) -> (r: Self) {
        Gpio0_7Input(bits)
    }

    fn value(&self) -> (r: u8) {
        self.0
    }
}

/// Pull-up register: a set bit enables the pin's pull-up resistor.
///
/// GPIO n at bit n for n in 0, 1, 2, 3 and 5; bits 4, 6 and 7 are not wired.
#[derive(Clone, Copy, Debug, PartialEq, Eq, Structural)]
pub struct Gpio0_7PullUp(pub u8);

impl SmscReg for Gpio0_7PullUp {
    const ADDR: u16 = GPIO0_7_PULL_UP;

    open spec fn spec_value(&self) -> u8 {
        self.0
    }

    fn from_value(bits: u8) -> (r: Self) {
        Gpio0_7PullUp(bits)
    }

    fn value(&self) -> (r: u8) {
        self.0
    }
}

/// Pull-down register: a set bit enables the pin's pull-down resistor.
///
/// GPIO n at bit n for n in 0, 1, 2, 3 and 5; bits 4, 6 and 7 are not wired.
#[derive(Clone, Copy, Debug, PartialEq, Eq, Structural)]
pub struct Gpio0_7PullDown(pub u8);

impl SmscReg for Gpio0_7PullDown {
    const ADDR: u16 = GPIO0_7_PULL_DOWN;

    open spec fn spec_value(&self) -> u8 {
        self.0
    }

    fn from_value(bits: u8) -> (r: Self) {
        Gpio0_7PullDown(bits)
    }

    fn value(&self) -> (r: u8) {
        self.0
    }
}

/// Direction register: a set bit enables the pin's output driver.
///
/// GPIO 8, 9 and 10 at bits 0, 1 and 2; bits 3 to 7 are reserved.
#[derive(Clone, Copy, Debug, PartialEq, Eq, Structural)]
pub struct Gpio8_10Dir(pub u8);

impl SmscReg for Gpio8_10Dir {
    const ADDR: u16 = GPIO8_10_DIR;

    open spec fn spec_value(&self) -> u8 {
        self.0
    }

    fn from_value(bits: u8) -> (r: Self) {
        Gpio8_10Dir(bits)
    }

    fn value(&self) -> (r: u8) {
        self.0
    }
}

/// Output register: the level driven by a pin whose output is enabled.
///
/// GPIO 8, 9 and 10 at bits 0, 1 and 2; bits 3 to 7 are reserved.
#[derive(Clone, Copy, Debug, PartialEq, Eq, Structural)]
pub struct Gpio8_10Output(pub u8);

impl SmscReg for Gpio8_10Output {
    const ADDR: u16 = GPIO8_10_OUTPUT;

    open spec fn spec_value(&self) -> u8 {
        self.0
    }

    fn from_value(bits: u8) -> (r: Self) {
        Gpio8_10Output(bits)
    }

    fn value(&self) -> (r: u8) {
        self.0
    }
}

/// Input register: the level observed on each pin.
///
/// GPIO 8, 9 and 10 at bits 0, 1 and 2; bits 3 to 7 are reserved.
#[derive(Clone, Copy, Debug, PartialEq, Eq, Structural)]
pub struct Gpio8_10Input(pub u8);

impl SmscReg for Gpio8_10Input {
    const ADDR: u16 = GPIO8_10_INPUT;

    open spec fn spec_value(&self) -> u8 {
        self.0
    }

    fn from_value(bits: u8) -> (r: Self) {
        Gpio8_10Input(bits)
    }

    fn value(&self) -> (r: u8) {
        self.0
    }
}

/// Pull-up register: a set bit enables the pin's pull-up resistor.
///
/// GPIO 8, 9 and 10 at bits 0, 1 and 2; bits 3 to 7 are reserved.
#[derive(Clone, Copy, Debug, PartialEq, Eq, Structural)]
pub struct Gpio8_10PullUp(pub u8);

impl SmscReg for Gpio8_10PullUp {
    const ADDR: u16 = GPIO8_10_PULL_UP;

    open spec fn spec_value(&self) -> u8 {
        self.0
    }

    fn from_value(bits: u8) -> (r: Self) {
        Gpio8_10PullUp(bits)
    }

    fn value(&self) -> (r: u8) {
        self.0
    }
}

/// Pull-down register: a set bit enables the pin's pull-down resistor.
///
/// GPIO 8, 9 and 10 at bits 0, 1 and 2; bits 3 to 7 are reserved.
#[derive(Clone, Copy, Debug, PartialEq, Eq, Structural)]
pub struct Gpio8_10PullDown(pub u8);

impl SmscReg for Gpio8_10PullDown {
    const ADDR: u16 = GPIO8_10_PULL_DOWN;

    open spec fn spec_value(&self) -> u8 {
        self.0
    }

    fn from_value(bits: u8) -> (r: Self) {
        Gpio8_10PullDown(bits)
    }

    fn value(&self) -> (r: u8) {
        self.0
    }
}

/// Direction register: a set bit enables the pin's output driver.
///
/// GPIO 17 to 20 at bits 1 to 4; bits 0 and 5 to 7 are reserved.
#[derive(Clone, Copy, Debug, PartialEq, Eq, Structural)]
pub struct Gpio17_20Dir(pub u8);

impl SmscReg for Gpio17_20Dir {
    const ADDR: u16 = GPIO17_20_DIR;

    open spec fn spec_value(&self) -> u8 {
        self.0
    }

    fn from_value(bits: u8) -> (r: Self) {
        Gpio17_20Dir(bits)
    }

    fn value(&self) -> (r: u8) {
        self.0
    }
}

/// Output register: the level driven by a pin whose output is enabled.
///
/// GPIO 17 to 20 at bits 1 to 4; bits 0 and 5 to 7 are reserved.
#[derive(Clone, Copy, Debug, PartialEq, Eq, Structural)]
pub struct Gpio17_20Output(pub u8);

impl SmscReg for Gpio17_20Output {
    const ADDR: u16 = GPIO17_20_OUTPUT;

    open spec fn spec_value(&self) -> u8 {
        self.0
    }

    fn from_value(bits: u8) -> (r: Self) {
        Gpio17_20Output(bits)
    }

    fn value(&self) -> (r: u8) {
        self.0
    }
}

/// Input register: the level observed on each pin.
///
/// GPIO 17 to 20 at bits 1 to 4; bits 0 and 5 to 7 are reserved.
#[derive(Clone, Copy, Debug, PartialEq, Eq, Structural)]
pub struct Gpio17_20Input(pub u8);

impl SmscReg for Gpio17_20Input {
    const ADDR: u16 = GPIO17_20_INPUT;

    open spec fn spec_value(&self) -> u8 {
        self.0
    }

    fn from_value(bits: u8) -> (r: Self) {
        Gpio17_20Input(bits)
    }

    fn value(&self) -> (r: u8) {
        self.0
    }
}

/// Pull-up register: a set bit enables the pin's pull-up resistor.
///
/// GPIO 17 to 20 at bits 1 to 4; bits 0 and 5 to 7 are reserved.
#[derive(Clone, Copy, Debug, PartialEq, Eq, Structural)]
pub struct Gpio17_20PullUp(pub u8);

impl SmscReg for Gpio17_20PullUp {
    const ADDR: u16 = GPIO17_20_PULL_UP;

    open spec fn spec_value(&self) -> u8 {
        self.0
    }

    fn from_value(bits: u8) -> (r: Self) {
        Gpio17_20PullUp(bits)
    }

    fn value(&self) -> (r: u8) {
        self.0
    }
}

/// Pull-down register: a set bit enables the pin's pull-down resistor.
///
/// GPIO 17 to 20 at bits 1 to 4; bits 0 and 5 to 7 are reserved.
#[derive(Clone, Copy, Debug, PartialEq, Eq, Structural)]
pub struct Gpio17_20PullDown(pub u8);

impl SmscReg for Gpio17_20PullDown {
    const ADDR: u16 = GPIO17_20_PULL_DOWN;

    open spec fn spec_value(&self) -> u8 {
        self.0
    }

    fn from_value(bits: u8) -> (r: Self) {
        Gpio17_20PullDown(bits)
    }

    fn value(&self) -> (r: u8) {
        self.0
    }
}

/// Direction register: a set bit enables the pin's output driver.
///
/// GPIO 41 to 45 at bits 1 to 5; bits 0, 6 and 7 are reserved.
#[derive(Clone, Copy, Debug, PartialEq, Eq, Structural)]
pub struct Gpio41_45Dir(pub u8);

impl SmscReg for Gpio41_45Dir {
    const ADDR: u16 = GPIO41_45_DIR;

    open spec fn spec_value(&self) -> u8 {
        self.0
    }

    fn from_value(bits: u8) -> (r: Self) {
        Gpio41_45Dir(bits)
    }

    fn value(&self) -> (r: u8) {
        self.0
    }
}

/// Output register: the level driven by a pin whose output is enabled.
///
/// GPIO 41 to 45 at bits 1 to 5; bits 0, 6 and 7 are reserved.
#[derive(Clone, Copy, Debug, PartialEq, Eq, Structural)]
pub struct Gpio41_45Output(pub u8);

impl SmscReg for Gpio41_45Output {
    const ADDR: u16 = GPIO41_45_OUTPUT;

    open spec fn spec_value(&self) -> u8 {
        self.0
    }

    fn from_value(bits: u8) -> (r: Self) {
        Gpio41_45Output(bits)
    }

    fn value(&self) -> (r: u8) {
        self.0
    }
}

/// Input register: the level observed on each pin.
///
/// GPIO 41 to 45 at bits 1 to 5; bits 0, 6 and 7 are reserved.
#[derive(Clone, Copy, Debug, PartialEq, Eq, Structural)]
pub struct Gpio41_45Input(pub u8);

impl SmscReg for Gpio41_45Input {
    const ADDR: u16 = GPIO41_45_INPUT;

    open spec fn spec_value(&self) -> u8 {
        self.0
    }

    fn from_value(bits: u8) -> (r: Self) {
        Gpio41_45Input(bits)
    }

    fn value(&self) -> (r: u8) {
        self.0
    }
}

/// Pull-up register: a set bit enables the pin's pull-up resistor.
///
/// GPIO 41 to 45 at bits 1 to 5; bits 0, 6 and 7 are reserved.
#[derive(Clone, Copy, Debug, PartialEq, Eq, Structural)]
pub struct Gpio41_45PullUp(pub u8);

impl SmscReg for Gpio41_45PullUp {
    const ADDR: u16 = GPIO41_45_PULL_UP;

    open spec fn spec_value(&self) -> u8 {
        self.0
    }

    fn from_value(bits: u8) -> (r: Self) {
        Gpio41_45PullUp(bits)
    }

    fn value(&self) -> (r: u8) {
        self.0
    }
}

/// Pull-down register: a set bit enables the pin's pull-down resistor.
///
/// GPIO 41 to 45 at bits 1 to 5; bits 0, 6 and 7 are reserved.
#[derive(Clone, Copy, Debug, PartialEq, Eq, Structural)]
pub struct Gpio41_45PullDown(pub u8);

impl SmscReg for Gpio41_45PullDown {
    const ADDR: u16 = GPIO41_45_PULL_DOWN;

    open spec fn spec_value(&self) -> u8 {
        self.0
    }

    fn from_value(bits: u8) -> (r: Self) {
        Gpio41_45PullDown(bits)
    }

    fn value(&self) -> (r: u8) {
        self.0
    }
}

} // verus!
