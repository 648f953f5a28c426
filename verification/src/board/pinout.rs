//! The electrical interfaces that a development board offers, and the
//! mapping of those interfaces onto the board's pins.

use vstd::prelude::*;

verus! {

/// The direction of an interface, seen from the board that offers it.
#[derive(Clone, Copy, Debug, PartialEq, Eq, Structural)]
#[non_exhaustive]
pub enum InterfaceDirection {
    Unknown,
    Input,
    Output,
    Bidirectional,
}

/// The various types of electrical interfaces used with development boards.
#[derive(Clone, Copy, Debug, PartialEq, Eq, Structural)]
#[non_exhaustive]
pub enum InterfaceType {
    NONE,
    GPIO,
    ADC,
    PWM,
    UART,
    I2C,
    SPI,
}

/// An interface: its type and its direction.
#[derive(Clone, Copy, Debug, PartialEq, Eq, Structural)]
pub struct Interface {
    pub iface_type: InterfaceType,
    pub direction: InterfaceDirection,
}

/// An interface mapped onto a set of pins of a board, named as on the board.
#[derive(Debug)]
pub struct InterfaceMapping {
    pub interface: Interface,
    pub pins: Vec<String>,
}

/// A pinout is the list of interfaces available on a board.
pub type Pinout = Vec<InterfaceMapping>;

/// The value of an interface mapping: its interface and its pin names.
pub struct InterfaceMappingView {
    pub interface: Interface,
    pub pins: Seq<String>,
}

impl View for InterfaceMapping {
    type V = InterfaceMappingView;

    open spec fn view(&self) -> InterfaceMappingView {
        InterfaceMappingView { interface: self.interface, pins: self.pins@ }
    }
}

/// The value of a pinout: the values of its mappings, in order.
pub open spec fn pinout_view(p: Seq<InterfaceMapping>) -> Seq<InterfaceMappingView> {
    p.map_values(|m: InterfaceMapping| m@)
}

/// A copy of a pinout with the same value.
pub fn clone_pinout(p: &Vec<InterfaceMapping>) -> (r: Vec<InterfaceMapping>)
    ensures
        pinout_view(r@) == pinout_view(p@),
{
    let mut r: Vec<InterfaceMapping> = Vec::new();
    let mut i: usize = 0;
    while i < p.len()
        invariant
            i <= p.len(),
            r@.len() == i,
            forall|j: int| 0 <= j < i ==> #[trigger] r@[j]@ == p@[j]@,
        decreases p.len() - i,
    {
        r.push(p[i].clone());
        i = i + 1;
    }
    assert(pinout_view(r@) =~= pinout_view(p@));
    r
}

impl InterfaceDirection {
    /// The text of this direction, as its `Display` writes it.
    pub open spec fn label(self) -> Seq<char> {
        match self {
            InterfaceDirection::Unknown => "Unknown"@,
            InterfaceDirection::Input => "Input"@,
            InterfaceDirection::Output => "Output"@,
            InterfaceDirection::Bidirectional => "Bidirectional"@,
        }
    }

    /// The text of this direction, as its `Display` writes it.
    pub fn to_string(&self) -> (r: String)
        ensures
            r@ == self.label(),
    {
        match self {
            InterfaceDirection::Unknown => String::from_str("Unknown"),
            InterfaceDirection::Input => String::from_str("Input"),
            InterfaceDirection::Output => String::from_str("Output"),
            InterfaceDirection::Bidirectional => String::from_str("Bidirectional"),
        }
    }
}

impl InterfaceType {
    /// The text of this interface type, as its `Display` writes it.
    pub open spec fn label(self) -> Seq<char> {
        match self {
            InterfaceType::NONE => "NONE"@,
            InterfaceType::GPIO => "GPIO"@,
            InterfaceType::ADC => "ADC"@,
            InterfaceType::PWM => "PWM"@,
            InterfaceType::UART => "UART"@,
            InterfaceType::I2C => "I2C"@,
            InterfaceType::SPI => "SPI"@,
        }
    }

    /// The text of this interface type, as its `Display` writes it.
    pub fn to_string(&self) -> (r: String)
        ensures
            r@ == self.label(),
    {
        match self {
            InterfaceType::NONE => String::from_str("NONE"),
            InterfaceType::GPIO => String::from_str("GPIO"),
            InterfaceType::ADC => String::from_str("ADC"),
            InterfaceType::PWM => String::from_str("PWM"),
            InterfaceType::UART => String::from_str("UART"),
            InterfaceType::I2C => String::from_str("I2C"),
            InterfaceType::SPI => String::from_str("SPI"),
        }
    }

    /// Every interface type, in declaration order.
    pub fn all() -> (r: Vec<InterfaceType>)
        ensures
            r@ == seq![
                InterfaceType::NONE,
                InterfaceType::GPIO,
                InterfaceType::ADC,
                InterfaceType::PWM,
                InterfaceType::UART,
                InterfaceType::I2C,
                InterfaceType::SPI,
            ],
    {
        let mut v: Vec<InterfaceType> = Vec::new();
        v.push(InterfaceType::NONE);
        v.push(InterfaceType::GPIO);
        v.push(InterfaceType::ADC);
        v.push(InterfaceType::PWM);
        v.push(InterfaceType::UART);
        v.push(InterfaceType::I2C);
        v.push(InterfaceType::SPI);
        v
    }
}

impl Default for Interface {
    fn default() -> (r: Self)
        ensures
            r.iface_type == InterfaceType::NONE,
            r.direction == InterfaceDirection::Unknown,
    {
        Interface { iface_type: InterfaceType::NONE, direction: InterfaceDirection::Unknown }
    }
}

impl Interface {
    /// The text of this interface, as its `Display` writes it (its `Debug` form).
    pub open spec fn label(self) -> Seq<char> {
        "Interface { iface_type: "@ + self.iface_type.label() + ", direction: "@
            + self.direction.label() + " }"@
    }

    /// The text of this interface, as its `Display` writes it (its `Debug` form).
    pub fn to_string(&self) -> (r: String)
        ensures
            r@ == self.label(),
    {
        let mut s = String::from_str("Interface { iface_type: ");
        s.append(self.iface_type.to_string().as_str());
        s.append(", direction: ");
        s.append(self.direction.to_string().as_str());
        s.append(" }");
        s
    }
}

impl Clone for InterfaceMapping {
    fn clone(&self) -> (r: Self)
        ensures
            r@ == self@,
    {
        let pins = self.pins.clone();
        assert(pins@ =~= self.pins@);
        InterfaceMapping { interface: self.interface, pins }
    }
}

impl Default for InterfaceMapping {
    fn default() -> (r: Self)
        ensures
            r.interface == (Interface {
                iface_type: InterfaceType::NONE,
                direction: InterfaceDirection::Unknown,
            }),
            r.pins@.len() == 0,
    {
        InterfaceMapping { interface: Interface::default(), pins: Vec::new() }
    }
}

/// The text of an interface type is the name of its variant, as its
/// `Debug` and `Display` forms write it; so the manifest of a new board names
/// the interface that was chosen, and no two types share a text.
pub proof fn lemma_interface_type_text_is_its_name(t: InterfaceType, u: InterfaceType)
    ensures
        t == InterfaceType::NONE ==> t.label() == seq!['N', 'O', 'N', 'E'],
        t == InterfaceType::GPIO ==> t.label() == seq!['G', 'P', 'I', 'O'],
        t == InterfaceType::ADC ==> t.label() == seq!['A', 'D', 'C'],
        t == InterfaceType::PWM ==> t.label() == seq!['P', 'W', 'M'],
        t == InterfaceType::UART ==> t.label() == seq!['U', 'A', 'R', 'T'],
        t == InterfaceType::I2C ==> t.label() == seq!['I', '2', 'C'],
        t == InterfaceType::SPI ==> t.label() == seq!['S', 'P', 'I'],
        t.label() == u.label() ==> t == u,
{
    reveal_strlit("NONE");
    reveal_strlit("GPIO");
    reveal_strlit("ADC");
    reveal_strlit("PWM");
    reveal_strlit("UART");
    reveal_strlit("I2C");
    reveal_strlit("SPI");
    assert(seq!['N', 'O', 'N', 'E'] =~= "NONE"@);
    assert(seq!['G', 'P', 'I', 'O'] =~= "GPIO"@);
    assert(seq!['A', 'D', 'C'] =~= "ADC"@);
    assert(seq!['P', 'W', 'M'] =~= "PWM"@);
    assert(seq!['U', 'A', 'R', 'T'] =~= "UART"@);
    assert(seq!['I', '2', 'C'] =~= "I2C"@);
    assert(seq!['S', 'P', 'I'] =~= "SPI"@);
    if t.label() == u.label() && t != u {
        assert(t.label()[0] == u.label()[0]);
        assert(t.label().len() == u.label().len());
        assert(t.label()[1] == u.label()[1]);
    }
}

/// The interface types that the older interface list also names carry the
/// same text there: GPIO, ADC, PWM and UART alike, and the I2C and SPI
/// entries of that list begin with the text of the type and a bracket.
pub proof fn lemma_interface_type_text_agrees_with_interface_list(
    d: crate::board::interface::InterfaceDirection,
)
    ensures
        InterfaceType::GPIO.label() == crate::board::interface::Interface::GPIO.label(),
        InterfaceType::ADC.label() == crate::board::interface::Interface::ADC.label(),
        InterfaceType::PWM.label() == crate::board::interface::Interface::PWM.label(),
        InterfaceType::UART.label() == crate::board::interface::Interface::UART.label(),
        crate::board::interface::Interface::I2C(d).label().take(
            InterfaceType::I2C.label().len() as int + 1,
        ) == InterfaceType::I2C.label().push('('),
        crate::board::interface::Interface::SPI(d).label().take(
            InterfaceType::SPI.label().len() as int + 1,
        ) == InterfaceType::SPI.label().push('('),
{
    reveal_strlit("I2C");
    reveal_strlit("SPI");
    reveal_strlit("I2C(");
    reveal_strlit("SPI(");
    let i2c = crate::board::interface::Interface::I2C(d).label();
    let spi = crate::board::interface::Interface::SPI(d).label();
    assert(i2c.take(4) =~= "I2C("@);
    assert(spi.take(4) =~= "SPI("@);
    assert("I2C"@.push('(') =~= "I2C("@);
    assert("SPI"@.push('(') =~= "SPI("@);
}

} // verus!
