use am_radio_core::codec::{frame_command, Command};
use am_radio_core::sim::DeviceSimulator;
use am_radio_core::state_machine::SourceMode;
use am_radio_core::status::parse_status;
use am_radio_core::state_machine::BroadcastState;
use am_radio_core::supervisor::Supervisor;

#[test]
fn test_sim_identity() {
    let mut sim = DeviceSimulator::new();
    let reply = sim.handle_line(b"*IDN?\n").unwrap();
    assert_eq!(reply, b"RedPitaya,STEMlab125-10,SIM,v1.0\n".to_vec());
}

#[test]
fn test_sim_watchdog_reset_has_no_reply() {
    let mut sim = DeviceSimulator::new();
    assert!(sim.handle_line(b"WATCHDOG:RESET\n").is_none());
}

#[test]
fn test_sim_ignores_noise() {
    let mut sim = DeviceSimulator::new();
    assert!(sim.handle_line(b"whatever\n").is_none());
    assert!(!sim.broadcasting);
}

#[test]
fn test_sim_output_commands() {
    let mut sim = DeviceSimulator::new();
    assert!(sim.handle_line(b"OUTPUT:STATE ON\n").is_none());
    assert!(sim.broadcasting);
    sim.handle_line(b"OUTPUT:STATE OFF\n");
    assert!(!sim.broadcasting);
}

#[test]
fn test_sim_channel_commands() {
    let mut sim = DeviceSimulator::new();
    sim.handle_line(b"FREQ:CH3 600000\n");
    sim.handle_line(b"CH3:OUTPUT ON\n");
    assert_eq!(sim.channel_freq[2], 600_000);
    assert!(sim.channel_enabled[2]);
    // A channel that does not exist changes nothing.
    sim.handle_line(b"FREQ:CH13 600000\n");
    sim.handle_line(b"CH0:OUTPUT ON\n");
    assert_eq!(sim.channel_freq.iter().filter(|&&f| f == 600_000).count(), 1);
    assert_eq!(sim.channel_enabled.iter().filter(|&&e| e).count(), 1);
}

#[test]
fn test_sim_status_round_trips_through_parser() {
    let mut sim = DeviceSimulator::new();
    sim.handle_line(&frame_command(&Command::OutputOn));
    sim.handle_line(&frame_command(&Command::ChannelFrequency { channel: 1, hz: 540_000 }));
    sim.handle_line(&frame_command(&Command::ChannelOutput { channel: 1, on: true }));
    sim.handle_line(&frame_command(&Command::SetSource { mode: SourceMode::Bram }));

    let status = sim.handle_line(&frame_command(&Command::StatusQuery)).unwrap();
    let report = parse_status(&status);
    assert_eq!(report.broadcasting, Some(true));
    assert_eq!(report.watchdog_triggered, Some(false));
    assert_eq!(report.watchdog_warning, Some(false));
    assert_eq!(report.source, Some(SourceMode::Bram));
    assert_eq!(report.channel_enabled[0], Some(true));
    assert_eq!(report.channel_freq[0], Some(540_000));
    for i in 1..12 {
        assert_eq!(report.channel_enabled[i], Some(false));
        assert_eq!(report.channel_freq[i], Some(540_000));
    }
}

#[test]
fn test_sim_drives_supervisor_end_to_end() {
    let mut sim = DeviceSimulator::new();
    let mut sup = Supervisor::new();
    sup.begin_connect().unwrap();
    sup.connect_succeeded();

    sup.arm().unwrap();
    let status = sim.handle_line(&frame_command(&Command::StatusQuery)).unwrap();
    sup.poll_tick(true, Some(&status), 10);
    assert_eq!(sup.get_state().broadcast, BroadcastState::Armed);

    let cmd = sup.start_broadcast().unwrap();
    assert!(sim.handle_line(&frame_command(&cmd)).is_none());
    let status = sim.handle_line(&frame_command(&Command::StatusQuery)).unwrap();
    sup.poll_tick(true, Some(&status), 20);
    assert_eq!(sup.get_state().broadcast, BroadcastState::Broadcasting);

    let cmd = sup.stop_broadcast().unwrap().unwrap();
    sim.handle_line(&frame_command(&cmd));
    let status = sim.handle_line(&frame_command(&Command::StatusQuery)).unwrap();
    sup.poll_tick(true, Some(&status), 30);
    assert_eq!(sup.get_state().broadcast, BroadcastState::Idle);
}
