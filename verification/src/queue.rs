//! The thread's message queue: pending notifications in delivery order, and
//! the quit request flag set by a posted process-quit request.

use vstd::prelude::*;
use crate::message::Message;

verus! {

/// What one retrieval from the queue yields.
#[derive(Clone, Copy, Debug, PartialEq, Eq, Structural)]
pub enum Retrieved {
    /// A quit request was pending: the event loop must stop with this exit
    /// code, without dispatching anything further.
    Quit(u64),
    /// An ordinary notification to translate and dispatch.
    Deliver(Message),
}

/// The process's message queue for the thread that owns the window.
pub struct MessageQueue {
    /// Pending notifications, front first.
    pub pending: Vec<Message>,
    /// The pending quit request's exit code, if one has been posted.
    pub quit: Option<u64>,
}

impl MessageQueue {
    /// An empty queue with no quit request pending.
    pub fn new() -> (q: Self)
        ensures
            q.pending@ == Seq::<Message>::empty(),
            q.quit is None,
    {
        MessageQueue { pending: Vec::new(), quit: None }
    }

    /// Posts a process-quit request carrying `code` into the queue.  The
    /// next retrieval observes it before any pending notification.
    pub fn post_quit(&mut self, code: u64)
        ensures
            final(self).quit == Some(code),
            final(self).pending@ == old(self).pending@,
    {
        self.quit = Some(code);
    }

    /// Retrieves the next message for the calling thread.  A pending quit
    /// request is observed immediately, regardless of how many notifications
    /// are queued; otherwise the front notification is removed and returned.
    ///
    /// The real retrieval blocks while the queue is empty; this model
    /// requires that something is available instead.
    pub fn get_message(&mut self) -> (r: Retrieved)
        requires
            old(self).quit is Some || old(self).pending@.len() > 0,
        ensures
            old(self).quit is Some ==> {
                &&& r == Retrieved::Quit(old(self).quit->0)
                &&& final(self).pending@ == old(self).pending@
                &&& final(self).quit == old(self).quit
            },
            old(self).quit is None ==> {
                &&& r == Retrieved::Deliver(old(self).pending@[0])
                &&& final(self).pending@ == old(self).pending@.skip(1)
                &&& final(self).quit is None
            },
    {
        match self.quit {
            Some(code) => Retrieved::Quit(code),
            None => {
                let m = self.pending.remove(0);
                assert(self.pending@ =~= old(self).pending@.skip(1));
                Retrieved::Deliver(m)
            },
        }
    }
}

} // verus!
