use am_radio_core::codec::{
    decode_command, encode_command, frame_command, parse_u32, trim_bytes, u32_to_dec, upper_bytes,
    Command,
};
use am_radio_core::state_machine::SourceMode;
use am_radio_core::status::{parse_status, parse_temp_deci};

#[test]
fn test_encode_fixed_commands() {
    assert_eq!(encode_command(&Command::Identity), b"*IDN?".to_vec());
    assert_eq!(encode_command(&Command::StatusQuery), b"STATUS?".to_vec());
    assert_eq!(encode_command(&Command::WatchdogReset), b"WATCHDOG:RESET".to_vec());
    assert_eq!(encode_command(&Command::OutputOn), b"OUTPUT:STATE ON".to_vec());
    assert_eq!(encode_command(&Command::OutputOff), b"OUTPUT:STATE OFF".to_vec());
}

#[test]
fn test_encode_parameterised_commands() {
    assert_eq!(
        encode_command(&Command::ChannelFrequency { channel: 3, hz: 540_000 }),
        b"FREQ:CH3 540000".to_vec()
    );
    assert_eq!(
        encode_command(&Command::ChannelOutput { channel: 12, on: true }),
        b"CH12:OUTPUT ON".to_vec()
    );
    assert_eq!(
        encode_command(&Command::ChannelOutput { channel: 1, on: false }),
        b"CH1:OUTPUT OFF".to_vec()
    );
    assert_eq!(
        encode_command(&Command::SetSource { mode: SourceMode::Bram }),
        b"SOURCE:MODE BRAM".to_vec()
    );
    assert_eq!(
        encode_command(&Command::SetSource { mode: SourceMode::Adc }),
        b"SOURCE:MODE ADC".to_vec()
    );
}

#[test]
fn test_frame_appends_newline() {
    assert_eq!(frame_command(&Command::StatusQuery), b"STATUS?\n".to_vec());
}

#[test]
fn test_decode_round_trip() {
    let commands = [
        Command::Identity,
        Command::StatusQuery,
        Command::WatchdogReset,
        Command::OutputOn,
        Command::OutputOff,
        Command::ChannelOutput { channel: 7, on: true },
        Command::ChannelOutput { channel: 12, on: false },
        Command::ChannelFrequency { channel: 1, hz: 540_000 },
        Command::ChannelFrequency { channel: 12, hz: 1_640_000 },
        Command::SetSource { mode: SourceMode::Bram },
        Command::SetSource { mode: SourceMode::Adc },
    ];
    for c in commands {
        assert_eq!(decode_command(&encode_command(&c)), Some(c));
    }
}

#[test]
fn test_decode_rejects_noise() {
    assert_eq!(decode_command(b""), None);
    assert_eq!(decode_command(b"HELLO"), None);
    assert_eq!(decode_command(b"FREQ:CH 540000"), None);
    assert_eq!(decode_command(b"FREQ:CH3"), None);
    assert_eq!(decode_command(b"CH3:OUTPUT MAYBE"), None);
    assert_eq!(decode_command(b"SOURCE:MODE TAPE"), None);
}

#[test]
fn test_parse_u32_values() {
    assert_eq!(parse_u32(b"0"), Some(0));
    assert_eq!(parse_u32(b"540000"), Some(540_000));
    assert_eq!(parse_u32(b"4294967295"), Some(u32::MAX));
    assert_eq!(parse_u32(b"4294967296"), None);
    assert_eq!(parse_u32(b""), None);
    assert_eq!(parse_u32(b"12a"), None);
    assert_eq!(parse_u32(b"-1"), None);
}

#[test]
fn test_u32_to_dec_inverts_parse() {
    for n in [0u32, 7, 10, 540_000, u32::MAX] {
        let digits = u32_to_dec(n);
        assert_eq!(parse_u32(&digits), Some(n));
    }
}

#[test]
fn test_upper_and_trim() {
    assert_eq!(upper_bytes(b"warning"), b"WARNING".to_vec());
    assert_eq!(upper_bytes(b"MiXeD-12"), b"MIXED-12".to_vec());
    assert_eq!(trim_bytes(b"  ok\r\n"), b"ok".to_vec());
    assert_eq!(trim_bytes(b"\t\n "), b"".to_vec());
}

#[test]
fn test_parse_temp_deci_exact() {
    assert_eq!(parse_temp_deci(b"45.2"), Some(452));
    assert_eq!(parse_temp_deci(b"45"), Some(450));
    assert_eq!(parse_temp_deci(b"0.9"), Some(9));
    assert_eq!(parse_temp_deci(b"45.29"), Some(452));
    assert_eq!(parse_temp_deci(b"-1"), None);
    assert_eq!(parse_temp_deci(b"45."), None);
}

#[test]
fn test_parse_status_typed_fields() {
    let r = parse_status(b"broadcasting=1,watchdog_triggered=0,ch1_enabled=1,ch1_freq=540000");
    assert_eq!(r.broadcasting, Some(true));
    assert_eq!(r.watchdog_triggered, Some(false));
    assert_eq!(r.watchdog_warning, None);
    assert_eq!(r.channel_enabled[0], Some(true));
    assert_eq!(r.channel_freq[0], Some(540_000));
    assert_eq!(r.channel_enabled[1], None);
}

#[test]
fn test_parse_status_colon_pairs_and_spacing() {
    let r = parse_status(b"broadcasting:ON, source = ADC ,temp=45.2\n");
    assert_eq!(r.broadcasting, Some(true));
    assert_eq!(r.source, Some(SourceMode::Adc));
    assert_eq!(r.temperature_deci, Some(452));
}

#[test]
fn test_parse_status_ignores_noise() {
    let r = parse_status(b"");
    assert_eq!(r.broadcasting, None);
    let r = parse_status(b"nonsense,,ch99_enabled=1,ch0_freq=540000,broadcasting=maybe");
    assert_eq!(r.broadcasting, None);
    for i in 0..12 {
        assert_eq!(r.channel_enabled[i], None);
        assert_eq!(r.channel_freq[i], None);
    }
}

#[test]
fn test_parse_status_last_pair_wins() {
    let r = parse_status(b"broadcasting=1,broadcasting=0");
    assert_eq!(r.broadcasting, Some(false));
}
