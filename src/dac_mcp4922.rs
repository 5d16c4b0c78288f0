//! Command words of the MCP4922, a dual-channel 12-bit DAC on SPI.
use crate::vehicle::DAC_MAX;
use vstd::prelude::*;

verus! {

#[derive(Clone, Copy, Debug, PartialEq, Eq, Structural)]
pub enum Channel {
    ChannelA,
    ChannelB,
}

/// The channel-select bit: 0 for A, 1 for B.
pub open spec fn channel_bit(c: Channel) -> u8 {
    match c {
        Channel::ChannelA => 0,
        Channel::ChannelB => 1,
    }
}

impl From<Channel> for u8 {
    fn from(c: Channel) -> (r: u8)
        ensures
            r == channel_bit(c),
    {
        match c {
            Channel::ChannelA => 0b0,
            Channel::ChannelB => 0b1,
        }
    }
}

impl vstd::std_specs::convert::FromSpecImpl<Channel> for u8 {
    open spec fn obeys_from_spec() -> bool {
        true
    }

    open spec fn from_spec(c: Channel) -> u8 {
        channel_bit(c)
    }
}

/// The two bytes that set `channel` to `data`, in transfer order: the low
/// eight data bits, then the high four with the active-mode bit (bit 4) and
/// the channel bit (bit 7).
pub open spec fn command_bytes(data: u16, channel: Channel) -> Seq<u8> {
    seq![(data % 0x100) as u8, (data / 0x100 + 0x10 + channel_bit(channel) * 0x80) as u8]
}

/// Builds the SPI transfers for the DAC.
pub struct Mcp4922 {}

impl Mcp4922 {
    pub fn new() -> (r: Self) {
        Mcp4922 {}
    }

    /// The transfer that sets `channel` to `data`.
    pub fn output(&self, data: u16, channel: Channel) -> (r: [u8; 2])
        requires
            data <= DAC_MAX,
        ensures
            r@ == command_bytes(data, channel),
    {
        let r = [(data % 0x100) as u8, (data / 0x100) as u8 + 0x10 + u8::from(channel) * 0x80];
        assert(r@ =~= command_bytes(data, channel));
        r
    }

    /// The transfers that set channel A to `output_a`, then channel B to
    /// `output_b`.
    pub fn output_ab(&self, output_a: u16, output_b: u16) -> (r: ([u8; 2], [u8; 2]))
        requires
            output_a <= DAC_MAX,
            output_b <= DAC_MAX,
        ensures
            r.0@ == command_bytes(output_a, Channel::ChannelA),
            r.1@ == command_bytes(output_b, Channel::ChannelB),
    {
        (self.output(output_a, Channel::ChannelA), self.output(output_b, Channel::ChannelB))
    }
}

} // verus!
