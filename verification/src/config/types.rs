use crate::text::{decimal, decimal_digits};
use vstd::prelude::*;
use vstd::string::*;

verus! {

/// The number of data bits of a serial character: five to eight.
#[derive(Debug, Clone, Copy, PartialEq, Eq, Structural)]
pub struct DataBits(u8);

impl DataBits {
    /// The number of bits that this value stands for.
    pub closed spec fn bits(self) -> u8 {
        self.0
    }

    /// Every value of this type holds a number from five to eight.
    #[verifier::type_invariant]
    pub closed spec fn in_range(self) -> bool {
        5 <= self.0 <= 8
    }

    /// A number of data bits, if it is one that serial ports offer.
    pub fn new(bits: u8) -> (r: Option<Self>)
        ensures
            r is Some <==> 5 <= bits <= 8,
            r matches Some(d) ==> d.bits() == bits,
    {
        match bits {
            5..=8 => Some(Self(bits)),
            _ => None,
        }
    }

    /// The number of bits, always from five to eight.
    pub fn get(&self) -> (bits: u8)
        ensures
            bits == self.bits(),
            5 <= bits <= 8,
    {
        proof {
            use_type_invariant(self);
        }
        self.0
    }

    /// The number in decimal.
    pub fn to_string(&self) -> (s: String)
        ensures
            s@ == decimal_digits(self.bits() as nat),
    {
        decimal(self.0 as u64)
    }
}

impl Default for DataBits {
    /// Eight data bits.
    fn default() -> (d: Self)
        ensures
            d.bits() == 8,
    {
        Self(8)
    }
}

/// The parity bit of a serial character.
#[derive(Debug, Clone, Copy, PartialEq, Eq, Structural)]
pub enum Parity {
    /// No parity bit.
    Off,
    Odd,
    Even,
}

impl Parity {
    /// The name of this setting in configuration files.
    pub open spec fn text(self) -> Seq<char> {
        match self {
            Parity::Off => "none"@,
            Parity::Odd => "odd"@,
            Parity::Even => "even"@,
        }
    }

    /// The name of this setting in configuration files.
    pub fn to_string(&self) -> (s: String)
        ensures
            s@ == self.text(),
    {
        match self {
            Parity::Off => String::from_str("none"),
            Parity::Odd => String::from_str("odd"),
            Parity::Even => String::from_str("even"),
        }
    }
}

impl Default for Parity {
    /// No parity bit.
    fn default() -> (p: Self)
        ensures
            p == Parity::Off,
    {
        Parity::Off
    }
}

/// The number of stop bits of a serial character.
#[derive(Debug, Clone, Copy, PartialEq, Eq, Structural)]
pub enum StopBits {
    One,
    Two,
}

impl StopBits {
    /// The number of stop bits, as a numeral.
    pub open spec fn text(self) -> Seq<char> {
        match self {
            StopBits::One => "1"@,
            StopBits::Two => "2"@,
        }
    }

    /// The number of stop bits, as a numeral.
    pub fn to_string(&self) -> (s: String)
        ensures
            s@ == self.text(),
    {
        match self {
            StopBits::One => String::from_str("1"),
            StopBits::Two => String::from_str("2"),
        }
    }
}

impl Default for StopBits {
    /// One stop bit.
    fn default() -> (s: Self)
        ensures
            s == StopBits::One,
    {
        StopBits::One
    }
}

/// How the RTS line steers the RS-485 driver.
#[derive(Debug, Clone, Copy, PartialEq, Eq, Structural)]
pub enum RtsType {
    /// The line is left alone.
    Off,
    /// High while transmitting, low while receiving.
    Up,
    /// Low while transmitting, high while receiving.
    Down,
}

impl RtsType {
    /// The level of the RTS line in the given direction: `true` is high.
    /// Without direction control the answer is low, and is not used.
    pub open spec fn signal_level(self, is_transmitting: bool) -> bool {
        match self {
            RtsType::Off => false,
            RtsType::Up => is_transmitting,
            RtsType::Down => !is_transmitting,
        }
    }

    /// The level to put on the RTS line in the given direction.
    pub fn to_signal_level(&self, is_transmitting: bool) -> (level: bool)
        ensures
            level == self.signal_level(is_transmitting),
    {
        match self {
            RtsType::Off => false,
            RtsType::Up => is_transmitting,
            RtsType::Down => !is_transmitting,
        }
    }

    /// The name of this setting in configuration files.
    pub open spec fn text(self) -> Seq<char> {
        match self {
            RtsType::Off => "none"@,
            RtsType::Up => "up"@,
            RtsType::Down => "down"@,
        }
    }

    /// The name of this setting in configuration files.
    pub fn to_string(&self) -> (s: String)
        ensures
            s@ == self.text(),
    {
        match self {
            RtsType::Off => String::from_str("none"),
            RtsType::Up => String::from_str("up"),
            RtsType::Down => String::from_str("down"),
        }
    }

    /// With direction control, the line is at opposite levels while sending
    /// and while receiving.
    pub proof fn lemma_levels_differ(self)
        requires
            self != RtsType::Off,
        ensures
            self.signal_level(true) != self.signal_level(false),
            self == RtsType::Up ==> self.signal_level(true),
            self == RtsType::Down ==> !self.signal_level(true),
    {
    }
}

impl Default for RtsType {
    /// Low while transmitting.
    fn default() -> (r: Self)
        ensures
            r == RtsType::Down,
    {
        RtsType::Down
    }
}

} // verus!
