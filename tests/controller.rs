use musualiser::capture::{CaptureSession, KillSignal, SessionEnd, StreamCommand};
use musualiser::controller::{AppAudioManager, ControlAction, DeviceSignal};

#[test]
fn new_controller_is_stopped() {
    let c = AppAudioManager::new();
    assert!(!c.is_playing());
    assert_eq!(c.current_pid(), None);
}

#[test]
fn start_then_stop_parks_without_ending_the_thread() {
    let mut c = AppAudioManager::new();
    assert_eq!(c.update(42, DeviceSignal::Disconnected), ControlAction::Spawn { pid: 42 });
    assert_eq!(c.start(DeviceSignal::Empty), ControlAction::Keep);
    assert_eq!(c.stop(DeviceSignal::Empty), ControlAction::Keep);
    assert!(!c.is_playing());
    assert_eq!(c.current_pid(), Some(42));

    // the thread itself stops its stream and parks; it is not told to end
    let mut s = CaptureSession::new("speakers".to_string());
    assert_eq!(s.playback_enabled(), StreamCommand::Start);
    assert_eq!(s.buffer_waited(true), StreamCommand::Nothing);
    assert!(!s.device_polled(&"speakers".to_string()));
    assert_eq!(s.playback_polled(false), StreamCommand::Stop);
    assert!(!s.is_streaming());
    assert_eq!(s.ended(), None);
}

#[test]
fn device_change_replaces_thread_once_and_keeps_play_state() {
    let mut c = AppAudioManager::new();
    assert_eq!(c.check_device(7, DeviceSignal::Disconnected), ControlAction::Spawn { pid: 7 });
    assert_eq!(c.start(DeviceSignal::Empty), ControlAction::Keep);

    let mut s = CaptureSession::new("speakers".to_string());
    assert_eq!(s.playback_enabled(), StreamCommand::Start);
    assert_eq!(s.buffer_waited(true), StreamCommand::Nothing);
    assert!(!s.device_polled(&"speakers".to_string()));
    assert_eq!(s.playback_polled(true), StreamCommand::Nothing);
    assert!(!s.kill_polled(KillSignal::Empty));
    assert_eq!(s.buffer_waited(true), StreamCommand::Nothing);
    assert!(s.device_polled(&"headphones".to_string()));
    assert_eq!(s.ended(), Some(SessionEnd::DeviceChanged));

    let mut spawns = 0;
    for signal in [DeviceSignal::Changed, DeviceSignal::Empty, DeviceSignal::Empty] {
        match c.check_device(7, signal) {
            ControlAction::Spawn { pid } => {
                assert_eq!(pid, 7);
                spawns += 1;
            }
            ControlAction::Replace { .. } => panic!("no thread to kill"),
            ControlAction::Keep => {}
        }
    }
    assert_eq!(spawns, 1);
    assert!(c.is_playing());
}

#[test]
fn unchanged_message_keeps_thread() {
    let mut c = AppAudioManager::new();
    c.check_device(3, DeviceSignal::Disconnected);
    assert_eq!(c.check_device(3, DeviceSignal::Unchanged), ControlAction::Keep);
    assert_eq!(c.check_device(3, DeviceSignal::Empty), ControlAction::Keep);
}

#[test]
fn retarget_kills_and_spawns() {
    let mut c = AppAudioManager::new();
    assert_eq!(c.update(10, DeviceSignal::Disconnected), ControlAction::Spawn { pid: 10 });
    assert_eq!(c.update(10, DeviceSignal::Empty), ControlAction::Keep);
    assert_eq!(c.update(11, DeviceSignal::Empty), ControlAction::Replace { pid: 11 });
    assert_eq!(c.current_pid(), Some(11));
    // a dead thread is simply replaced, with the new target
    assert_eq!(c.update(12, DeviceSignal::Disconnected), ControlAction::Spawn { pid: 12 });
    assert_eq!(c.current_pid(), Some(12));
}

#[test]
fn first_update_without_thread_spawns() {
    let mut c = AppAudioManager::new();
    assert_eq!(c.update(5, DeviceSignal::Empty), ControlAction::Spawn { pid: 5 });
}

#[test]
fn start_revives_dead_thread_on_current_target() {
    let mut c = AppAudioManager::new();
    // nothing known yet: nothing to revive
    assert_eq!(c.start(DeviceSignal::Disconnected), ControlAction::Keep);
    assert!(c.is_playing());
    c.update(9, DeviceSignal::Disconnected);
    assert_eq!(c.stop(DeviceSignal::Disconnected), ControlAction::Spawn { pid: 9 });
    assert!(!c.is_playing());
    assert_eq!(c.start(DeviceSignal::Changed), ControlAction::Spawn { pid: 9 });
    assert!(c.is_playing());
}

#[test]
fn failed_wait_stops_stream_and_ends() {
    let mut s = CaptureSession::new("dev".to_string());
    s.playback_enabled();
    assert_eq!(s.buffer_waited(false), StreamCommand::Stop);
    assert_eq!(s.ended(), Some(SessionEnd::WaitFailed));
    assert!(!s.is_streaming());
}

#[test]
fn kill_or_lost_controller_ends_thread() {
    let mut a = CaptureSession::new("dev".to_string());
    assert!(!a.kill_polled(KillSignal::Stay));
    assert!(a.kill_polled(KillSignal::Kill));
    assert_eq!(a.ended(), Some(SessionEnd::Killed));
    let mut b = CaptureSession::new("dev".to_string());
    assert!(b.kill_polled(KillSignal::Disconnected));
}

#[test]
fn parked_thread_resumes_when_switched_on() {
    let mut s = CaptureSession::new("dev".to_string());
    assert_eq!(s.playback_enabled(), StreamCommand::Start);
    assert_eq!(s.playback_enabled(), StreamCommand::Nothing);
    assert_eq!(s.playback_polled(false), StreamCommand::Stop);
    assert_eq!(s.playback_polled(false), StreamCommand::Nothing);
    assert_eq!(s.playback_enabled(), StreamCommand::Start);
    assert!(s.is_streaming());
}
