//! Configuration input for the chip: channel, pulse repetition frequency,
//! start-of-frame delimiter, preamble length and frame filtering.
//!
//! Each selection resolves to chip-recommended register constants through
//! the lookup functions below; the configuration sequencer writes those
//! constants in a fixed order.

use vstd::prelude::*;

verus! {

/// The RF channel the chip transmits and receives on.
#[derive(Clone, Copy, PartialEq, Eq, Structural, Debug)]
pub enum Channel {
    Ch5,
    Ch9,
}

/// The pulse repetition frequency class.
#[derive(Clone, Copy, PartialEq, Eq, Structural, Debug)]
pub enum PulseRepetitionFrequency {
    Mhz16,
    Mhz64,
}

/// The start-of-frame-delimiter sequence to use.
#[derive(Clone, Copy, PartialEq, Eq, Structural, Debug)]
pub enum SfdSequence {
    Ieee4a,
    Decawave8,
    Decawave16,
    Ieee4z,
}

/// The preamble length class, in symbols.
#[derive(Clone, Copy, PartialEq, Eq, Structural, Debug)]
pub enum PreambleLength {
    Symbols64,
    Symbols128,
    Symbols256,
    Symbols512,
    Symbols1024,
    Symbols1536,
    Symbols2048,
    Symbols4096,
}

/// The configuration consumed by the configuration sequencer.
#[derive(Clone, Copy, PartialEq, Eq, Structural, Debug)]
pub struct Config {
    pub channel: Channel,
    pub sfd_sequence: SfdSequence,
    pub pulse_repetition_frequency: PulseRepetitionFrequency,
    pub preamble_length: PreambleLength,
    pub frame_filtering: bool,
}

impl Channel {
    /// The channel selection bit of the channel control register.
    pub open spec fn spec_bits(self) -> u64 {
        match self {
            Channel::Ch5 => 0,
            Channel::Ch9 => 1,
        }
    }

    pub fn bits(self) -> (r: u64)
        ensures
            r == self.spec_bits(),
    {
        match self {
            Channel::Ch5 => 0,
            Channel::Ch9 => 1,
        }
    }

    pub open spec fn spec_dgc_lut_0(self) -> u64 {
        match self {
            Channel::Ch5 => 0x1C0FD,
            Channel::Ch9 => 0x2A8FE,
        }
    }

    pub fn get_recommended_dgc_lut_0(self) -> (r: u64)
        ensures
            r == self.spec_dgc_lut_0(),
    {
        match self {
            Channel::Ch5 => 0x1C0FD,
            Channel::Ch9 => 0x2A8FE,
        }
    }

    pub open spec fn spec_dgc_lut_1(self) -> u64 {
        match self {
            Channel::Ch5 => 0x1C43E,
            Channel::Ch9 => 0x2AC36,
        }
    }

    pub fn get_recommended_dgc_lut_1(self) -> (r: u64)
        ensures
            r == self.spec_dgc_lut_1(),
    {
        match self {
            Channel::Ch5 => 0x1C43E,
            Channel::Ch9 => 0x2AC36,
        }
    }

    pub open spec fn spec_dgc_lut_2(self) -> u64 {
        match self {
            Channel::Ch5 => 0x1C6BE,
            Channel::Ch9 => 0x2A5FE,
        }
    }

    pub fn get_recommended_dgc_lut_2(self) -> (r: u64)
        ensures
            r == self.spec_dgc_lut_2(),
    {
        match self {
            Channel::Ch5 => 0x1C6BE,
            Channel::Ch9 => 0x2A5FE,
        }
    }

    pub open spec fn spec_dgc_lut_3(self) -> u64 {
        match self {
            Channel::Ch5 => 0x1C77E,
            Channel::Ch9 => 0x2AF3E,
        }
    }

    pub fn get_recommended_dgc_lut_3(self) -> (r: u64)
        ensures
            r == self.spec_dgc_lut_3(),
    {
        match self {
            Channel::Ch5 => 0x1C77E,
            Channel::Ch9 => 0x2AF3E,
        }
    }

    pub open spec fn spec_dgc_lut_4(self) -> u64 {
        match self {
            Channel::Ch5 => 0x1CF36,
            Channel::Ch9 => 0x2AF7D,
        }
    }

    pub fn get_recommended_dgc_lut_4(self) -> (r: u64)
        ensures
            r == self.spec_dgc_lut_4(),
    {
        match self {
            Channel::Ch5 => 0x1CF36,
            Channel::Ch9 => 0x2AF7D,
        }
    }

    pub open spec fn spec_dgc_lut_5(self) -> u64 {
        match self {
            Channel::Ch5 => 0x1CFB5,
            Channel::Ch9 => 0x2AFB5,
        }
    }

    pub fn get_recommended_dgc_lut_5(self) -> (r: u64)
        ensures
            r == self.spec_dgc_lut_5(),
    {
        match self {
            Channel::Ch5 => 0x1CFB5,
            Channel::Ch9 => 0x2AFB5,
        }
    }

    pub open spec fn spec_dgc_lut_6(self) -> u64 {
        match self {
            Channel::Ch5 => 0x1CFF5,
            Channel::Ch9 => 0x2AFFF,
        }
    }

    pub fn get_recommended_dgc_lut_6(self) -> (r: u64)
        ensures
            r == self.spec_dgc_lut_6(),
    {
        match self {
            Channel::Ch5 => 0x1CFF5,
            Channel::Ch9 => 0x2AFFF,
        }
    }

    pub open spec fn spec_rf_tx_ctrl_2(self) -> u64 {
        match self {
            Channel::Ch5 => 0x1C071134,
            Channel::Ch9 => 0x1C010034,
        }
    }

    pub fn get_recommended_rf_tx_ctrl_2(self) -> (r: u64)
        ensures
            r == self.spec_rf_tx_ctrl_2(),
    {
        match self {
            Channel::Ch5 => 0x1C071134,
            Channel::Ch9 => 0x1C010034,
        }
    }

    pub open spec fn spec_pll_conf(self) -> u64 {
        match self {
            Channel::Ch5 => 0x1F3C,
            Channel::Ch9 => 0x0A3C,
        }
    }

    pub fn get_recommended_pll_conf(self) -> (r: u64)
        ensures
            r == self.spec_pll_conf(),
    {
        match self {
            Channel::Ch5 => 0x1F3C,
            Channel::Ch9 => 0x0A3C,
        }
    }

    /// The recommended preamble code for this channel and PRF class, used
    /// for both the transmitter and the receiver.
    pub open spec fn spec_preamble_code(self, prf: PulseRepetitionFrequency) -> u64 {
        match (self, prf) {
            (Channel::Ch5, PulseRepetitionFrequency::Mhz16) => 4,
            (Channel::Ch5, PulseRepetitionFrequency::Mhz64) => 9,
            (Channel::Ch9, PulseRepetitionFrequency::Mhz16) => 3,
            (Channel::Ch9, PulseRepetitionFrequency::Mhz64) => 11,
        }
    }

    pub fn get_recommended_preamble_code(self, prf: PulseRepetitionFrequency) -> (r: u64)
        ensures
            r == self.spec_preamble_code(prf),
    {
        match (self, prf) {
            (Channel::Ch5, PulseRepetitionFrequency::Mhz16) => 4,
            (Channel::Ch5, PulseRepetitionFrequency::Mhz64) => 9,
            (Channel::Ch9, PulseRepetitionFrequency::Mhz16) => 3,
            (Channel::Ch9, PulseRepetitionFrequency::Mhz64) => 11,
        }
    }
}

impl PulseRepetitionFrequency {
    /// Whether receive tuning is enabled for this PRF class.
    pub open spec fn spec_rx_tune_en(self) -> u64 {
        match self {
            PulseRepetitionFrequency::Mhz16 => 0,
            PulseRepetitionFrequency::Mhz64 => 1,
        }
    }

    pub fn get_recommended_rx_tune_en(self) -> (r: u64)
        ensures
            r == self.spec_rx_tune_en(),
    {
        match self {
            PulseRepetitionFrequency::Mhz16 => 0,
            PulseRepetitionFrequency::Mhz64 => 1,
        }
    }
}

impl SfdSequence {
    /// The SFD type field value of the channel control register.
    pub open spec fn spec_bits(self) -> u64 {
        match self {
            SfdSequence::Ieee4a => 0,
            SfdSequence::Decawave8 => 1,
            SfdSequence::Decawave16 => 2,
            SfdSequence::Ieee4z => 3,
        }
    }

    pub fn bits(self) -> (r: u64)
        ensures
            r == self.spec_bits(),
    {
        match self {
            SfdSequence::Ieee4a => 0,
            SfdSequence::Decawave8 => 1,
            SfdSequence::Decawave16 => 2,
            SfdSequence::Ieee4z => 3,
        }
    }
}

impl PreambleLength {
    /// The recommended preamble acquisition chunk size field for this
    /// preamble length class.
    pub open spec fn spec_pac_size(self) -> u64 {
        match self {
            PreambleLength::Symbols64 => 1,
            PreambleLength::Symbols128 => 0,
            PreambleLength::Symbols256 => 2,
            _ => 3,
        }
    }

    pub fn get_recommended_pac_size(self) -> (r: u64)
        ensures
            r == self.spec_pac_size(),
    {
        match self {
            PreambleLength::Symbols64 => 1,
            PreambleLength::Symbols128 => 0,
            PreambleLength::Symbols256 => 2,
            _ => 3,
        }
    }
}

} // verus!
