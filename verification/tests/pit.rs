use fe_os::codec::Frequency;
use fe_os::codec::FrequencyError;
use fe_os::pit::program_channel;
use fe_os::pit::program_timer;
use fe_os::pit::timer0_write_freq;
use fe_os::pit::timer2_write_freq;
use fe_os::pit::TimerChannel;
use fe_os::pit::TIMER_CH0_PORT;
use fe_os::pit::TIMER_CH0_SET_CMD;
use fe_os::pit::TIMER_CH2_PORT;
use fe_os::pit::TIMER_CH2_SET_CMD;
use fe_os::pit::TIMER_CMD_PORT;

#[test]
fn channel0_sequence_is_command_low_high() {
    let freq = Frequency::from_freq(1000).unwrap();
    let writes = program_channel(TimerChannel::Ch0, freq);
    assert_eq!(writes.len(), 3);
    assert_eq!((writes[0].port, writes[0].value), (TIMER_CMD_PORT, TIMER_CH0_SET_CMD));
    assert_eq!((writes[1].port, writes[1].value), (TIMER_CH0_PORT, 169));
    assert_eq!((writes[2].port, writes[2].value), (TIMER_CH0_PORT, 4));
}

#[test]
fn channel2_sequence_uses_channel2_ports() {
    let freq = Frequency::from_countdown(0x1234);
    let writes = program_channel(TimerChannel::Ch2, freq);
    assert_eq!(writes.len(), 3);
    assert_eq!((writes[0].port, writes[0].value), (TIMER_CMD_PORT, TIMER_CH2_SET_CMD));
    assert_eq!((writes[1].port, writes[1].value), (TIMER_CH2_PORT, 0x34));
    assert_eq!((writes[2].port, writes[2].value), (TIMER_CH2_PORT, 0x12));
}

#[test]
fn program_timer_builds_the_same_sequence() {
    let direct = program_channel(TimerChannel::Ch0, Frequency::from_freq(440).unwrap());
    let derived = program_timer(TimerChannel::Ch0, 440).unwrap();
    assert_eq!(direct, derived);
}

#[test]
fn program_timer_rejects_before_any_write() {
    // An invalid target produces an error and no write sequence at all.
    assert_eq!(program_timer(TimerChannel::Ch0, 0), Err(FrequencyError::InvalidFrequency));
    assert_eq!(program_timer(TimerChannel::Ch2, 2_000_000), Err(FrequencyError::InvalidFrequency));
    assert_eq!(program_timer(TimerChannel::Ch2, 5), Err(FrequencyError::InvalidFrequency));
}

#[test]
fn named_channel_writers_match_program_channel() {
    let freq = Frequency::from_countdown(1193);
    assert_eq!(timer0_write_freq(freq), program_channel(TimerChannel::Ch0, freq));
    assert_eq!(timer2_write_freq(freq), program_channel(TimerChannel::Ch2, freq));
}
