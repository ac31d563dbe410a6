//! Write sequences that program either channel of the programmable interval
//! timer.
//!
//! A channel latches a new countdown only after its command byte and both
//! countdown bytes have arrived, so the three writes of a sequence must be
//! performed back to back with interrupts disabled; the sequence itself is
//! fixed here, the port writes are performed outside the crate.

use crate::codec::frequency_of_countdown;
use crate::codec::spec_countdown_for;
use crate::codec::valid_target;
use crate::codec::Frequency;
use crate::codec::FrequencyError;
use vstd::prelude::*;

verus! {

/// One byte written to one hardware I/O port.
#[derive(Clone, Copy, Debug, PartialEq, Eq, Structural)]
pub struct PortWrite {
    pub port: u16,
    pub value: u8,
}

/// The timer's mode-select command port.
pub const TIMER_CMD_PORT: u16 = 0x43;

/// The data port of channel 0, the channel wired to the timer interrupt.
pub const TIMER_CH0_PORT: u16 = 0x40;

/// The data port of channel 2, the channel wired to the speaker gate.
pub const TIMER_CH2_PORT: u16 = 0x42;

/// Mode-select for channel 0: square-wave rate generator, 16-bit binary,
/// low byte then high byte.
pub const TIMER_CH0_SET_CMD: u8 = 0x36;

/// Mode-select for channel 2, same mode as channel 0.
pub const TIMER_CH2_SET_CMD: u8 = 0xB6;

/// The two independently programmable timer channels.
#[derive(Clone, Copy, Debug, PartialEq, Eq, Structural)]
pub enum TimerChannel {
    Ch0,
    Ch2,
}

impl TimerChannel {
    /// The data port the channel's countdown bytes go to.
    pub open spec fn spec_data_port(&self) -> u16 {
        match self {
            TimerChannel::Ch0 => TIMER_CH0_PORT,
            TimerChannel::Ch2 => TIMER_CH2_PORT,
        }
    }

    /// The mode-select byte that picks the channel on the command port.
    pub open spec fn spec_command(&self) -> u8 {
        match self {
            TimerChannel::Ch0 => TIMER_CH0_SET_CMD,
            TimerChannel::Ch2 => TIMER_CH2_SET_CMD,
        }
    }

    /// The channel's data port.
    pub fn data_port(&self) -> (r: u16)
        ensures
            r == self.spec_data_port(),
    {
        match self {
            TimerChannel::Ch0 => TIMER_CH0_PORT,
            TimerChannel::Ch2 => TIMER_CH2_PORT,
        }
    }

    /// The channel's mode-select byte.
    pub fn command(&self) -> (r: u8)
        ensures
            r == self.spec_command(),
    {
        match self {
            TimerChannel::Ch0 => TIMER_CH0_SET_CMD,
            TimerChannel::Ch2 => TIMER_CH2_SET_CMD,
        }
    }
}

/// The exact write sequence that programs a channel: the mode-select command
/// byte, then the countdown's low byte, then its high byte, the last two on
/// the channel's data port.
pub open spec fn channel_write_seq(channel: TimerChannel, freq: Frequency) -> Seq<PortWrite> {
    seq![
        PortWrite { port: TIMER_CMD_PORT, value: channel.spec_command() },
        PortWrite { port: channel.spec_data_port(), value: freq.low },
        PortWrite { port: channel.spec_data_port(), value: freq.high },
    ]
}

/// Builds the three-write sequence that programs `channel` with `freq`.
///
/// The sequence is always exactly three writes, in the order the hardware
/// latches them: command byte, low byte, high byte.
pub fn program_channel(channel: TimerChannel, freq: Frequency) -> (r: Vec<PortWrite>)
    requires
        freq.well_formed(),
    ensures
        r@ == channel_write_seq(channel, freq),
        r@.len() == 3,
{
    let cmd = channel.command();
    let data = channel.data_port();
    let mut writes: Vec<PortWrite> = Vec::new();
    writes.push(PortWrite { port: TIMER_CMD_PORT, value: cmd });
    writes.push(PortWrite { port: data, value: freq.low });
    writes.push(PortWrite { port: data, value: freq.high });
    proof {
        assert(writes@ =~= channel_write_seq(channel, freq));
    }
    writes
}

/// Derives the countdown for `target_hz` and builds the write sequence that
/// programs `channel` with it.
///
/// On a target that is rejected by the codec, no write is produced at all:
/// the error comes back before any port is touched.
pub fn program_timer(channel: TimerChannel, target_hz: u32) -> (r: Result<
    Vec<PortWrite>,
    FrequencyError,
>)
    ensures
        r is Ok <==> valid_target(target_hz),
        (match r {
            Ok(w) => w@ == channel_write_seq(
                channel,
                frequency_of_countdown(spec_countdown_for(target_hz)),
            ),
            Err(e) => e == FrequencyError::InvalidFrequency,
        }),
{
    match Frequency::from_freq(target_hz) {
        Ok(freq) => Ok(program_channel(channel, freq)),
        Err(e) => Err(e),
    }
}

/// Builds the write sequence that programs channel 0, the tick source, with
/// an already split countdown.
pub fn timer0_write_freq(val: Frequency) -> (r: Vec<PortWrite>)
    requires
        val.well_formed(),
    ensures
        r@ == channel_write_seq(TimerChannel::Ch0, val),
{
    program_channel(TimerChannel::Ch0, val)
}

/// Builds the write sequence that programs channel 2, the speaker tone
/// source, with an already split countdown.
pub fn timer2_write_freq(val: Frequency) -> (r: Vec<PortWrite>)
    requires
        val.well_formed(),
    ensures
        r@ == channel_write_seq(TimerChannel::Ch2, val),
{
    program_channel(TimerChannel::Ch2, val)
}

} // verus!
