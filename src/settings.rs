//! Serial line settings as given on the command line, and the process
//! configuration that holds them.
use vstd::prelude::*;
use vstd::string::*;
use crate::session::Timing;
use crate::text::text_equal;

verus! {

/// Bits per character on the serial line.
#[derive(Clone, Copy, Debug, PartialEq, Eq, Structural)]
pub enum DataBits {
    Five,
    Six,
    Seven,
    Eight,
}

/// Parity checking on the serial line.
#[derive(Clone, Copy, Debug, PartialEq, Eq, Structural)]
pub enum Parity {
    NoParity,
    Odd,
    Even,
}

/// Stop bits after each character.
#[derive(Clone, Copy, Debug, PartialEq, Eq, Structural)]
pub enum StopBits {
    One,
    Two,
}

/// `s` lower-cased by Unicode rules.
pub uninterp spec fn lowercase_of(s: Seq<char>) -> Seq<char>;

/// Relies on `str::to_lowercase`: the result depends on the text alone.
#[verifier::external_body]
fn to_lowercase(s: &str) -> (r: String)
    ensures
        r@ == lowercase_of(s@),
{
    s.to_lowercase()
}

/// `5`, `6` and `7` name those widths; anything else means eight bits.
pub open spec fn data_bits_of(s: Seq<char>) -> DataBits {
    if s == "5"@ {
        DataBits::Five
    } else if s == "6"@ {
        DataBits::Six
    } else if s == "7"@ {
        DataBits::Seven
    } else {
        DataBits::Eight
    }
}

/// `odd` and `even` name those parities; anything else means none.
pub open spec fn parity_of(lower: Seq<char>) -> Parity {
    if lower == "odd"@ {
        Parity::Odd
    } else if lower == "even"@ {
        Parity::Even
    } else {
        Parity::NoParity
    }
}

/// `2` means two stop bits; anything else means one.
pub open spec fn stop_bits_of(s: Seq<char>) -> StopBits {
    if s == "2"@ {
        StopBits::Two
    } else {
        StopBits::One
    }
}

/// The data bits that `bits` names; eight when it names none.
pub fn parse_data_bits(bits: &str) -> (r: DataBits)
    ensures
        r == data_bits_of(bits@),
{
    if text_equal(bits, "5") {
        DataBits::Five
    } else if text_equal(bits, "6") {
        DataBits::Six
    } else if text_equal(bits, "7") {
        DataBits::Seven
    } else {
        DataBits::Eight
    }
}

/// The parity that the already lower-cased `lower` names; none when it names none.
pub fn parity_from_lowercase(lower: &str) -> (r: Parity)
    ensures
        r == parity_of(lower@),
{
    if text_equal(lower, "odd") {
        Parity::Odd
    } else if text_equal(lower, "even") {
        Parity::Even
    } else {
        Parity::NoParity
    }
}

/// The parity that `parity` names in any letter case; none when it names none.
pub fn parse_parity(parity: &str) -> (r: Parity)
    ensures
        r == parity_of(lowercase_of(parity@)),
{
    let lower = to_lowercase(parity);
    parity_from_lowercase(lower.as_str())
}

/// The stop bits that `bits` names; one when it names none.
pub fn parse_stop_bits(bits: &str) -> (r: StopBits)
    ensures
        r == stop_bits_of(bits@),
{
    if text_equal(bits, "2") {
        StopBits::Two
    } else {
        StopBits::One
    }
}

/// The process configuration, fixed at startup.
#[derive(Clone, Debug)]
pub struct Config {
    pub serial_port: String,
    pub tcp_port: u16,
    pub baud_rate: u32,
    pub data_bits: DataBits,
    pub parity: Parity,
    pub stop_bits: StopBits,
    /// Longest wait of one read from the serial device.
    pub timeout_ms: u64,
    /// Freshness window and wait of an immediate read.
    pub cache_duration_ms: u64,
    /// Freshness window of a trigger-and-wait read.
    pub command_w_cache_duration_ms: u64,
    /// Total wait of a trigger-and-wait read.
    pub max_wait_response_w_ms: u64,
}

impl Config {
    /// The timing parameters a command runs under.
    pub fn timing(&self) -> (r: Timing)
        ensures
            r.cache_duration_ms == self.cache_duration_ms,
            r.w_cache_duration_ms == self.command_w_cache_duration_ms,
            r.w_response_timeout_ms == self.max_wait_response_w_ms,
    {
        Timing {
            cache_duration_ms: self.cache_duration_ms,
            w_cache_duration_ms: self.command_w_cache_duration_ms,
            w_response_timeout_ms: self.max_wait_response_w_ms,
        }
    }
}

} // verus!
