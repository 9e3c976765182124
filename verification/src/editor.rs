//! What the watcher of an external editor sends back: the file content each
//! time it differs from the last one sent.
use vstd::prelude::*;

verus! {

/// How long the watcher waits between two looks at the file, in milliseconds.
pub const POLL_INTERVAL_MS: u64 = 250;

/// The watcher goes on while the application runs and the editor is open.
pub fn keep_watching(shutdown_requested: bool, editor_exited: bool) -> (r: bool)
    ensures
        r == (!shutdown_requested && !editor_exited),
{
    !shutdown_requested && !editor_exited
}

/// The content that the canvas last received for a node edited outside.
pub struct EditorSync {
    content: String,
}

impl EditorSync {
    /// The content last sent (at first, the content the editor was opened with).
    pub closed spec fn last_sent(&self) -> Seq<char> {
        self.content@
    }

    pub fn new(content: &str) -> (r: Self)
        ensures
            r.last_sent() == content@,
    {
        EditorSync { content: content.to_owned() }
    }

    /// The file was read again and holds `current`: it is to be sent when it
    /// differs from what was sent last.
    pub fn observe(&mut self, current: String) -> (sent: Option<String>)
        ensures
            if current@ == old(self).last_sent() {
                sent is None && final(self).last_sent() == old(self).last_sent()
            } else {
                sent == Some(current) && final(self).last_sent() == current@
            },
    {
        if current != self.content {
            self.content = current.clone();
            Some(current)
        } else {
            None
        }
    }
}

} // verus!
