//! The shutdown watcher.
//!
//! A session is asked to end by closing the controlling input stream. A
//! watcher reads that stream in the background, throws away whatever arrives,
//! and raises the shutdown notification when the stream ends. This module
//! decides what the watcher does after each read; the reading itself and the
//! channel that carries the notification belong to the caller.

use vstd::prelude::*;

verus! {

/// Size of the chunks in which the watcher reads the input stream, in bytes.
pub const WATCH_CHUNK_LEN: usize = 32;

/// What one read of the input stream returned.
#[derive(Clone, Copy, Debug, PartialEq, Eq, Structural)]
pub enum InputRead {
    /// That many bytes arrived. None at all means the stream has ended.
    Bytes(usize),
    /// The read failed.
    Failed,
}

/// What the watcher does after a read.
#[derive(Clone, Copy, Debug, PartialEq, Eq, Structural)]
pub enum WatchAction {
    /// Throw the bytes away and read again.
    Read,
    /// Raise the shutdown notification and end.
    Notify,
    /// Give up: the whole process is to be aborted.
    Abort,
}

/// The watcher's answer to one read: the end of the stream raises the
/// notification, a failure aborts, and anything else is read past.
pub open spec fn reaction(read: InputRead) -> WatchAction {
    match read {
        InputRead::Bytes(count) => if count == 0 {
            WatchAction::Notify
        } else {
            WatchAction::Read
        },
        InputRead::Failed => WatchAction::Abort,
    }
}

/// A watcher of the controlling input stream. It starts out waiting for its
/// first read.
pub struct ShutdownWatcher {
    finished: bool,
}

impl ShutdownWatcher {
    /// Whether the watcher has ended, having notified or given up.
    pub closed spec fn finished(&self) -> bool {
        self.finished
    }

    /// A watcher that has yet to see its first read.
    pub fn new() -> (watcher: ShutdownWatcher)
        ensures
            !watcher.finished(),
    {
        ShutdownWatcher { finished: false }
    }

    /// Whether the watcher has ended.
    pub fn is_finished(&self) -> (finished: bool)
        ensures
            finished == self.finished(),
    {
        self.finished
    }

    /// Takes in the result of a read and says what to do next. The watcher
    /// ends with the first answer other than reading on.
    ///
    /// Returns `None` once the watcher has ended: it never reads again.
    pub fn on_read(&mut self, read: InputRead) -> (action: Option<WatchAction>)
        ensures
            action == (if old(self).finished() {
                None
            } else {
                Some(reaction(read))
            }),
            final(self).finished() == (old(self).finished() || reaction(read) != WatchAction::Read),
    {
        if self.finished {
            return None;
        }
        let action = match read {
            InputRead::Bytes(0) => WatchAction::Notify,
            InputRead::Bytes(_) => WatchAction::Read,
            InputRead::Failed => WatchAction::Abort,
        };
        match action {
            WatchAction::Read => {},
            _ => {
                self.finished = true;
            },
        }
        Some(action)
    }
}

} // verus!
