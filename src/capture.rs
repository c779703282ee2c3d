//! Decisions of one capture thread.
//!
//! A capture thread is bound to the default device that was current when it
//! started. It waits for playback to be switched on, then streams. After every wait for
//! the device's buffer event it checks, in this order: that the wait succeeded,
//! that the default device is still the bound one, that playback is still switched on
//! (if not, it stops the stream and parks until playback is switched on), and whether
//! the controller asked it to end.
use vstd::prelude::*;

verus! {

/// What a non-blocking receive on the kill channel gave.
#[derive(Clone, Copy, PartialEq, Eq, Structural, Debug)]
pub enum KillSignal {
    /// No message waiting.
    Empty,
    /// The controller asked the thread to end.
    Kill,
    /// A message that asks nothing.
    Stay,
    /// The controller is gone.
    Disconnected,
}

/// What the thread does to its audio stream.
#[derive(Clone, Copy, PartialEq, Eq, Structural, Debug)]
pub enum StreamCommand {
    Nothing,
    Start,
    Stop,
}

/// Why a capture thread ended.
#[derive(Clone, Copy, PartialEq, Eq, Structural, Debug)]
pub enum SessionEnd {
    /// Waiting for the buffer event failed or timed out; the stream was stopped.
    WaitFailed,
    /// The default device is no longer the bound one; the controller is told.
    DeviceChanged,
    /// The controller asked for the end, or is gone.
    Killed,
}

/// The state of one capture thread.
pub struct CaptureSession {
    bound_device: String,
    streaming: bool,
    ended: Option<SessionEnd>,
}

impl CaptureSession {
    pub closed spec fn spec_bound_device(&self) -> Seq<char> {
        self.bound_device@
    }

    /// Whether the audio stream is running.
    pub closed spec fn spec_streaming(&self) -> bool {
        self.streaming
    }

    /// Why the thread ended, once it has.
    pub closed spec fn spec_ended(&self) -> Option<SessionEnd> {
        self.ended
    }

    /// A thread bound to the device `bound_device`, with its stream not yet started.
    pub fn new(bound_device: String) -> (r: Self)
        ensures
            r.spec_bound_device() == bound_device@,
            !r.spec_streaming(),
            r.spec_ended() is None,
    {
        CaptureSession { bound_device, streaming: false, ended: None }
    }

    pub fn is_streaming(&self) -> (r: bool)
        ensures
            r == self.spec_streaming(),
    {
        self.streaming
    }

    pub fn ended(&self) -> (r: Option<SessionEnd>)
        ensures
            r == self.spec_ended(),
    {
        self.ended
    }

    /// Playback was found switched on: the stream starts if it is not running.
    pub fn playback_enabled(&mut self) -> (r: StreamCommand)
        requires
            old(self).spec_ended() is None,
        ensures
            final(self).spec_streaming(),
            final(self).spec_ended() is None,
            final(self).spec_bound_device() == old(self).spec_bound_device(),
            r == (if old(self).spec_streaming() {
                StreamCommand::Nothing
            } else {
                StreamCommand::Start
            }),
    {
        if self.streaming {
            StreamCommand::Nothing
        } else {
            self.streaming = true;
            StreamCommand::Start
        }
    }

    /// The wait for the buffer event returned; `ok` tells whether it succeeded.
    /// A failed wait stops the stream and ends the thread.
    pub fn buffer_waited(&mut self, ok: bool) -> (r: StreamCommand)
        requires
            old(self).spec_ended() is None,
        ensures
            final(self).spec_bound_device() == old(self).spec_bound_device(),
            ok ==> {
                &&& r == StreamCommand::Nothing
                &&& final(self).spec_ended() is None
                &&& final(self).spec_streaming() == old(self).spec_streaming()
            },
            !ok ==> {
                &&& r == (if old(self).spec_streaming() {
                    StreamCommand::Stop
                } else {
                    StreamCommand::Nothing
                })
                &&& final(self).spec_ended() == Some(SessionEnd::WaitFailed)
                &&& !final(self).spec_streaming()
            },
    {
        if ok {
            StreamCommand::Nothing
        } else {
            self.ended = Some(SessionEnd::WaitFailed);
            if self.streaming {
                self.streaming = false;
                StreamCommand::Stop
            } else {
                StreamCommand::Nothing
            }
        }
    }

    /// The default device was read again. Returns whether it differs from the
    /// bound one, in which case the change is to be reported and the thread ends.
    pub fn device_polled(&mut self, current: &String) -> (r: bool)
        requires
            old(self).spec_ended() is None,
        ensures
            r == (current@ != old(self).spec_bound_device()),
            final(self).spec_bound_device() == old(self).spec_bound_device(),
            final(self).spec_streaming() == old(self).spec_streaming(),
            final(self).spec_ended() == (if r {
                Some(SessionEnd::DeviceChanged)
            } else {
                None
            }),
    {
        let changed = !(*current == self.bound_device);
        if changed {
            self.ended = Some(SessionEnd::DeviceChanged);
        }
        changed
    }

    /// The play switch was read. Switched off, it stops a running stream; the thread
    /// then parks until playback is switched on again.
    pub fn playback_polled(&mut self, playing: bool) -> (r: StreamCommand)
        requires
            old(self).spec_ended() is None,
        ensures
            final(self).spec_bound_device() == old(self).spec_bound_device(),
            final(self).spec_ended() is None,
            playing ==> {
                &&& r == StreamCommand::Nothing
                &&& final(self).spec_streaming() == old(self).spec_streaming()
            },
            !playing ==> {
                &&& !final(self).spec_streaming()
                &&& r == (if old(self).spec_streaming() {
                    StreamCommand::Stop
                } else {
                    StreamCommand::Nothing
                })
            },
    {
        if !playing && self.streaming {
            self.streaming = false;
            StreamCommand::Stop
        } else {
            StreamCommand::Nothing
        }
    }

    /// The kill channel was read. A kill request, or a controller that is
    /// gone, ends the thread. Returns whether it ended.
    pub fn kill_polled(&mut self, signal: KillSignal) -> (r: bool)
        requires
            old(self).spec_ended() is None,
        ensures
            r == (signal == KillSignal::Kill || signal == KillSignal::Disconnected),
            final(self).spec_bound_device() == old(self).spec_bound_device(),
            final(self).spec_streaming() == old(self).spec_streaming(),
            final(self).spec_ended() == (if r {
                Some(SessionEnd::Killed)
            } else {
                None
            }),
    {
        let r = signal == KillSignal::Kill || signal == KillSignal::Disconnected;
        if r {
            self.ended = Some(SessionEnd::Killed);
        }
        r
    }
}

} // verus!
