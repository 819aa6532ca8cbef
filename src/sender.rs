//! The sending end of the notification channel, with a record of every send.

use vstd::prelude::*;

use std::sync::mpsc::Sender;

use crate::notification::{Notification, NotificationView};

verus! {

#[verifier::external_type_specification]
#[verifier::external_body]
#[verifier::reject_recursive_types(T)]
pub struct ExSender<T>(std::sync::mpsc::Sender<T>);

/// The sending end of an unbounded channel of notifications.
///
/// Besides the channel it keeps, as ghost state, every notification handed to
/// it, oldest first, each with whether it was delivered: a send fails only when
/// the receiving end is gone, and then the notification is dropped.
pub struct EventSender {
    sender: Sender<Notification>,
    record: Ghost<Seq<(NotificationView, bool)>>,
}

impl EventSender {
    /// Every notification sent so far, oldest first, with whether it was delivered.
    pub closed spec fn sent(&self) -> Seq<(NotificationView, bool)> {
        self.record@
    }

    /// Wraps the sending end of a channel; nothing has been sent through it yet.
    pub fn new(sender: Sender<Notification>) -> (s: EventSender)
        ensures
            s.sent() == Seq::<(NotificationView, bool)>::empty(),
    {
        EventSender { sender, record: Ghost(Seq::empty()) }
    }

    /// Relies on std::sync::mpsc::Sender::send: it never blocks, puts `n` on
    /// the channel when a receiver is still there, and otherwise drops it and
    /// reports the failure. Which of the two happens is not known here.
    #[verifier::external_body]
    pub(crate) fn send(&mut self, n: Notification) -> (delivered: bool)
        ensures
            final(self).sent() == old(self).sent().push((n@, delivered)),
    {
        self.sender.send(n).is_ok()
    }
}

} // verus!
