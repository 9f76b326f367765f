//! Line settings with which a serial port is opened.

use vstd::prelude::*;

verus! {

/// Number of bits that carry one character on the line.
#[derive(Debug, Clone, Copy, PartialEq, Eq, Hash, Structural)]
pub enum DataBits {
    Five,
    Six,
    Seven,
    Eight,
}

/// Number of bits that mark the end of a character.
#[derive(Debug, Clone, Copy, PartialEq, Eq, Hash, Structural)]
pub enum StopBits {
    One,
    Two,
}

/// Parity checking mode.
#[derive(Debug, Clone, Copy, PartialEq, Eq, Hash, Structural)]
pub enum Parity {
    NoParity,
    Odd,
    Even,
}

impl DataBits {
    /// The number of data bits this setting stands for.
    pub open spec fn count(self) -> u8 {
        match self {
            DataBits::Five => 5,
            DataBits::Six => 6,
            DataBits::Seven => 7,
            DataBits::Eight => 8,
        }
    }

    /// The number of data bits, as shown to a user.
    pub fn bits(self) -> (n: u8)
        ensures
            n == self.count(),
    {
        match self {
            DataBits::Five => 5,
            DataBits::Six => 6,
            DataBits::Seven => 7,
            DataBits::Eight => 8,
        }
    }

    /// The setting for `n` data bits; only 5, 6, 7 and 8 are settings.
    pub fn from_bits(n: u8) -> (setting: Option<DataBits>)
        ensures
            5 <= n <= 8 <==> setting is Some,
            setting matches Some(d) ==> d.count() == n,
    {
        if n == 5 {
            Some(DataBits::Five)
        } else if n == 6 {
            Some(DataBits::Six)
        } else if n == 7 {
            Some(DataBits::Seven)
        } else if n == 8 {
            Some(DataBits::Eight)
        } else {
            None
        }
    }
}

impl StopBits {
    /// The number of stop bits this setting stands for.
    pub open spec fn count(self) -> u8 {
        match self {
            StopBits::One => 1,
            StopBits::Two => 2,
        }
    }

    /// The number of stop bits, as shown to a user.
    pub fn bits(self) -> (n: u8)
        ensures
            n == self.count(),
    {
        match self {
            StopBits::One => 1,
            StopBits::Two => 2,
        }
    }

    /// The setting for `n` stop bits; only 1 and 2 are settings.
    pub fn from_bits(n: u8) -> (setting: Option<StopBits>)
        ensures
            1 <= n <= 2 <==> setting is Some,
            setting matches Some(s) ==> s.count() == n,
    {
        if n == 1 {
            Some(StopBits::One)
        } else if n == 2 {
            Some(StopBits::Two)
        } else {
            None
        }
    }
}

impl Parity {
    /// The name of the parity mode, as shown to a user.
    pub open spec fn label(self) -> Seq<char> {
        match self {
            Parity::NoParity => "None"@,
            Parity::Odd => "Odd"@,
            Parity::Even => "Even"@,
        }
    }

    /// The name of the parity mode, as shown to a user.
    pub fn name(self) -> (text: &'static str)
        ensures
            text@ == self.label(),
    {
        match self {
            Parity::NoParity => "None",
            Parity::Odd => "Odd",
            Parity::Even => "Even",
        }
    }
}

/// How to open a port. The manager never changes a configuration it was given.
#[derive(Debug, PartialEq, Eq)]
pub struct PortConfig {
    pub port_name: String,
    pub baud: u32,
    pub data_bits: DataBits,
    pub stop_bits: StopBits,
    pub parity: Parity,
}

/// The mathematical content of a [`PortConfig`].
pub struct PortConfigView {
    pub port_name: Seq<char>,
    pub baud: u32,
    pub data_bits: DataBits,
    pub stop_bits: StopBits,
    pub parity: Parity,
}

impl View for PortConfig {
    type V = PortConfigView;

    open spec fn view(&self) -> PortConfigView {
        PortConfigView {
            port_name: self.port_name@,
            baud: self.baud,
            data_bits: self.data_bits,
            stop_bits: self.stop_bits,
            parity: self.parity,
        }
    }
}

impl PortConfigView {
    /// A configuration is valid for a list of permitted rates when its baud rate is
    /// one of them.
    pub open spec fn valid(self, permitted: Seq<u32>) -> bool {
        permitted.contains(self.baud)
    }
}

impl Clone for PortConfig {
    fn clone(&self) -> (copy: PortConfig)
        ensures
            copy@ == self@,
    {
        PortConfig {
            port_name: self.port_name.clone(),
            baud: self.baud,
            data_bits: self.data_bits,
            stop_bits: self.stop_bits,
            parity: self.parity,
        }
    }
}

impl PortConfig {
    /// A configuration for the port called `port_name`.
    pub fn new(
        port_name: &str,
        baud: u32,
        data_bits: DataBits,
        stop_bits: StopBits,
        parity: Parity,
    ) -> (config: PortConfig)
        ensures
            config@ == (PortConfigView {
                port_name: port_name@,
                baud,
                data_bits,
                stop_bits,
                parity,
            }),
    {
        PortConfig { port_name: port_name.to_owned(), baud, data_bits, stop_bits, parity }
    }

    /// Whether the baud rate of this configuration is one of the `permitted` rates.
    pub fn is_valid(&self, permitted: &[u32]) -> (valid: bool)
        ensures
            valid == self@.valid(permitted@),
    {
        let mut i: usize = 0;
        while i < permitted.len()
            invariant
                i <= permitted.len(),
                forall|k: int| 0 <= k < i ==> permitted@[k] != self.baud,
            decreases permitted.len() - i,
        {
            if permitted[i] == self.baud {
                return true;
            }
            i = i + 1;
        }
        false
    }
}

} // verus!
