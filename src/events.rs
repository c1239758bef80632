//! The monitor of a running unit's event stream: output is forwarded to the
//! sink of its stream, and the first `Finished` event ends consumption.

use vstd::prelude::*;

verus! {

/// Which output stream of the remote process a chunk came from.
#[derive(PartialEq, Eq, Structural, Debug, Clone, Copy)]
pub enum OutputStream {
    Stdout,
    Stderr,
}

/// One event of a running unit.
pub enum RuntimeEvent {
    /// A chunk of the process's output.
    Output { stream: OutputStream, bytes: Vec<u8> },
    /// The process ended.
    Finished { return_code: i32, message: Option<String> },
    /// A command of the batch started.
    Started,
}

/// What the consumer of the stream does after an event.
#[derive(PartialEq, Eq, Structural, Debug, Clone, Copy)]
pub enum MonitorAction {
    /// Hand the event's bytes to the sink of this stream, then pull the next event.
    Forward(OutputStream),
    /// Pull the next event.
    Continue,
    /// Pull no more events: join the batch and return.
    Stop,
}

/// The consumer's state: whether the stream ended, and how.
pub struct EventMonitor {
    pub finished: bool,
    pub return_code: Option<i32>,
    pub message: Option<String>,
}

impl EventMonitor {
    /// A monitor that has seen no event.
    pub fn new() -> (r: EventMonitor)
        ensures
            !r.finished,
            r.return_code is None,
            r.message is None,
    {
        EventMonitor { finished: false, return_code: None, message: None }
    }

    /// Takes the next event of the stream. Once a `Finished` event was seen
    /// every later event is left alone and the answer is `Stop`.
    pub fn observe(&mut self, ev: RuntimeEvent) -> (r: MonitorAction)
        ensures
            old(self).finished ==> r == MonitorAction::Stop && final(self).finished
                && final(self).return_code == old(self).return_code
                && final(self).message == old(self).message,
            !old(self).finished ==> match ev {
                RuntimeEvent::Output { stream, .. } => r == MonitorAction::Forward(stream)
                    && !final(self).finished && final(self).return_code == old(self).return_code,
                RuntimeEvent::Finished { return_code, message } => r == MonitorAction::Stop
                    && final(self).finished && final(self).return_code == Some(return_code)
                    && final(self).message == message,
                RuntimeEvent::Started => r == MonitorAction::Continue && !final(self).finished
                    && final(self).return_code == old(self).return_code,
            },
    {
        if self.finished {
            return MonitorAction::Stop;
        }
        match ev {
            RuntimeEvent::Output { stream, .. } => MonitorAction::Forward(stream),
            RuntimeEvent::Finished { return_code, message } => {
                self.finished = true;
                self.return_code = Some(return_code);
                self.message = message;
                MonitorAction::Stop
            },
            RuntimeEvent::Started => MonitorAction::Continue,
        }
    }
}

} // verus!
