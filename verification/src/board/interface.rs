//! The bus-level interfaces of a board, with the role the board plays on
//! the bus.

use vstd::prelude::*;

verus! {

/// The role of a board on a bus.
#[derive(Clone, Copy, Debug, PartialEq, Eq, Structural)]
pub enum InterfaceDirection {
    Controller,
    Peripheral,
}

impl InterfaceDirection {
    /// The text of this role, as its `Display` writes it.
    pub open spec fn label(self) -> Seq<char> {
        match self {
            InterfaceDirection::Controller => "Controller"@,
            InterfaceDirection::Peripheral => "Peripheral"@,
        }
    }

    /// The text of this role, as its `Display` writes it.
    pub fn to_string(&self) -> (r: String)
        ensures
            r@ == self.label(),
    {
        match self {
            InterfaceDirection::Controller => String::from_str("Controller"),
            InterfaceDirection::Peripheral => String::from_str("Peripheral"),
        }
    }
}

/// A bus-level interface; bus interfaces carry the role of the board.
#[derive(Clone, Copy, Debug, PartialEq, Eq, Structural)]
pub enum Interface {
    GPIO,
    ADC,
    PWM,
    UART,
    I2C(InterfaceDirection),
    SPI(InterfaceDirection),
    PIO,
    I2S(InterfaceDirection),
    USB(InterfaceDirection),
}

impl Interface {
    /// The text of this interface, as its `Display` writes it (its `Debug`
    /// form, such as `I2C(Controller)`).
    pub open spec fn label(self) -> Seq<char> {
        match self {
            Interface::GPIO => "GPIO"@,
            Interface::ADC => "ADC"@,
            Interface::PWM => "PWM"@,
            Interface::UART => "UART"@,
            Interface::I2C(d) => "I2C("@ + d.label() + ")"@,
            Interface::SPI(d) => "SPI("@ + d.label() + ")"@,
            Interface::PIO => "PIO"@,
            Interface::I2S(d) => "I2S("@ + d.label() + ")"@,
            Interface::USB(d) => "USB("@ + d.label() + ")"@,
        }
    }

    /// The text of this interface, as its `Display` writes it.
    pub fn to_string(&self) -> (r: String)
        ensures
            r@ == self.label(),
    {
        let (head, dir) = match self {
            Interface::GPIO => (String::from_str("GPIO"), None),
            Interface::ADC => (String::from_str("ADC"), None),
            Interface::PWM => (String::from_str("PWM"), None),
            Interface::UART => (String::from_str("UART"), None),
            Interface::I2C(d) => (String::from_str("I2C("), Some(*d)),
            Interface::SPI(d) => (String::from_str("SPI("), Some(*d)),
            Interface::PIO => (String::from_str("PIO"), None),
            Interface::I2S(d) => (String::from_str("I2S("), Some(*d)),
            Interface::USB(d) => (String::from_str("USB("), Some(*d)),
        };
        let mut s = head;
        match dir {
            Some(d) => {
                s.append(d.to_string().as_str());
                s.append(")");
            },
            None => {},
        }
        s
    }
}

} // verus!
