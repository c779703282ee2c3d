//! Decisions of the capture controller.
//!
//! The controller owns at most one capture thread. It never touches the audio
//! device itself: it flips the shared play/pause switch, and when the thread has
//! ended (device change, fatal error) or must be retargeted, it tells its
//! caller to spawn a replacement. The caller holds the thread handle and the
//! channels, polls them, and carries out the returned action.
use vstd::prelude::*;

verus! {

/// What a non-blocking receive on the capture thread's device-change channel gave.
#[derive(Clone, Copy, PartialEq, Eq, Structural, Debug)]
pub enum DeviceSignal {
    /// No message waiting: the thread is alive and bound to the default device.
    Empty,
    /// The thread reported that the default device changed, and ended.
    Changed,
    /// A message that reports no change.
    Unchanged,
    /// The thread is gone without a word (a fatal error, or none was started).
    Disconnected,
}

/// Whether the capture thread is gone and must be replaced.
pub open spec fn needs_revival(signal: DeviceSignal) -> bool {
    signal == DeviceSignal::Changed || signal == DeviceSignal::Disconnected
}

/// What the caller has to do with the capture thread.
#[derive(Clone, Copy, PartialEq, Eq, Structural, Debug)]
pub enum ControlAction {
    /// Leave the thread as it is.
    Keep,
    /// Spawn a capture thread bound to the audio of process `pid`.
    Spawn { pid: u32 },
    /// Tell the running capture thread to end, then spawn one bound to `pid`.
    Replace { pid: u32 },
}

/// The state of the capture controller.
pub struct AppAudioManager {
    playing: bool,
    current_pid: Option<u32>,
    has_worker: bool,
}

impl AppAudioManager {
    /// Whether the play switch lets the capture thread stream.
    pub closed spec fn spec_playing(&self) -> bool {
        self.playing
    }

    /// The process the capture thread was last bound to.
    pub closed spec fn spec_current_pid(&self) -> Option<u32> {
        self.current_pid
    }

    /// Whether a capture thread was ever spawned, so that a kill signal has
    /// somewhere to go.
    pub closed spec fn spec_has_worker(&self) -> bool {
        self.has_worker
    }

    /// A controller with playback switched off and no capture thread yet.
    pub fn new() -> (r: Self)
        ensures
            !r.spec_playing(),
            r.spec_current_pid() is None,
            !r.spec_has_worker(),
    {
        AppAudioManager { playing: false, current_pid: None, has_worker: false }
    }

    /// Revives the capture thread, bound to its last target, when `signal`
    /// says it is gone and a target is known.
    fn revive_current(&mut self, signal: DeviceSignal) -> (r: ControlAction)
        ensures
            final(self).spec_playing() == old(self).spec_playing(),
            final(self).spec_current_pid() == old(self).spec_current_pid(),
            r == (if needs_revival(signal) && old(self).spec_current_pid() is Some {
                ControlAction::Spawn { pid: old(self).spec_current_pid()->Some_0 }
            } else {
                ControlAction::Keep
            }),
            final(self).spec_has_worker() == (old(self).spec_has_worker() || r != ControlAction::Keep),
    {
        match self.current_pid {
            Some(pid) => {
                if signal == DeviceSignal::Changed || signal == DeviceSignal::Disconnected {
                    self.has_worker = true;
                    ControlAction::Spawn { pid }
                } else {
                    ControlAction::Keep
                }
            },
            None => ControlAction::Keep,
        }
    }

    /// Switches playback on so that the capture thread streams. A thread found gone
    /// is first replaced by one bound to the same target.
    pub fn start(&mut self, signal: DeviceSignal) -> (r: ControlAction)
        ensures
            final(self).spec_playing(),
            final(self).spec_current_pid() == old(self).spec_current_pid(),
            r == (if needs_revival(signal) && old(self).spec_current_pid() is Some {
                ControlAction::Spawn { pid: old(self).spec_current_pid()->Some_0 }
            } else {
                ControlAction::Keep
            }),
            final(self).spec_has_worker() == (old(self).spec_has_worker() || r != ControlAction::Keep),
    {
        let r = self.revive_current(signal);
        self.playing = true;
        r
    }

    /// Switches playback off: the capture thread parks without ending. A thread
    /// found gone is first replaced by one bound to the same target.
    pub fn stop(&mut self, signal: DeviceSignal) -> (r: ControlAction)
        ensures
            !final(self).spec_playing(),
            final(self).spec_current_pid() == old(self).spec_current_pid(),
            r == (if needs_revival(signal) && old(self).spec_current_pid() is Some {
                ControlAction::Spawn { pid: old(self).spec_current_pid()->Some_0 }
            } else {
                ControlAction::Keep
            }),
            final(self).spec_has_worker() == (old(self).spec_has_worker() || r != ControlAction::Keep),
    {
        let r = self.revive_current(signal);
        self.playing = false;
        r
    }

    pub fn is_playing(&self) -> (r: bool)
        ensures
            r == self.spec_playing(),
    {
        self.playing
    }

    pub fn current_pid(&self) -> (r: Option<u32>)
        ensures
            r == self.spec_current_pid(),
    {
        self.current_pid
    }

    /// Polled once per tick: when the capture thread is gone, a new one is
    /// spawned bound to `pid`. The play switch is left as it was.
    pub fn check_device(&mut self, pid: u32, signal: DeviceSignal) -> (r: ControlAction)
        ensures
            final(self).spec_playing() == old(self).spec_playing(),
            needs_revival(signal) ==> {
                &&& r == ControlAction::Spawn { pid }
                &&& final(self).spec_current_pid() == Some(pid)
                &&& final(self).spec_has_worker()
            },
            !needs_revival(signal) ==> {
                &&& r == ControlAction::Keep
                &&& final(self).spec_current_pid() == old(self).spec_current_pid()
                &&& final(self).spec_has_worker() == old(self).spec_has_worker()
            },
    {
        if signal == DeviceSignal::Changed || signal == DeviceSignal::Disconnected {
            self.current_pid = Some(pid);
            self.has_worker = true;
            ControlAction::Spawn { pid }
        } else {
            ControlAction::Keep
        }
    }

    /// Retargets capture to the audio of process `pid`. A thread found gone
    /// is replaced by one bound to `pid`; a live thread bound elsewhere is
    /// told to end and replaced; a live thread already bound to `pid` stays.
    pub fn update(&mut self, pid: u32, signal: DeviceSignal) -> (r: ControlAction)
        ensures
            final(self).spec_playing() == old(self).spec_playing(),
            final(self).spec_current_pid() == Some(pid),
            final(self).spec_has_worker() == (old(self).spec_has_worker() || r != ControlAction::Keep),
            r == (if needs_revival(signal) {
                ControlAction::Spawn { pid }
            } else if old(self).spec_current_pid() == Some(pid) {
                ControlAction::Keep
            } else if old(self).spec_has_worker() {
                ControlAction::Replace { pid }
            } else {
                ControlAction::Spawn { pid }
            }),
    {
        let checked = self.check_device(pid, signal);
        if checked != ControlAction::Keep {
            return checked;
        }
        if self.current_pid == Some(pid) {
            return ControlAction::Keep;
        }
        let r = if self.has_worker {
            ControlAction::Replace { pid }
        } else {
            ControlAction::Spawn { pid }
        };
        self.current_pid = Some(pid);
        self.has_worker = true;
        r
    }
}

} // verus!
