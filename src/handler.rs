//! The callback-to-channel adapter and the no-op audio-processing handler.

use vstd::prelude::*;

use std::sync::mpsc::Sender;

use crate::notification::{Notification, NotificationView};
use crate::sender::EventSender;

verus! {

/// What a callback answers to the server: keep the client running, or stop it.
#[derive(Clone, Copy, Debug, PartialEq, Eq, Structural)]
pub enum Control {
    Continue,
    Quit,
}

impl Control {
    /// The answer of a callback that may stop the client, once its event was
    /// sent: go on while someone still listens, stop otherwise.
    pub fn after_send(delivered: bool) -> (c: Control)
        ensures
            c == (if delivered {
                Control::Continue
            } else {
                Control::Quit
            }),
    {
        if delivered {
            Control::Continue
        } else {
            Control::Quit
        }
    }
}

/// The audio-processing handler that the server requires beside the
/// notification handler. It computes nothing and always lets the client run.
pub struct DummyProcessHandler;

impl DummyProcessHandler {
    /// One block of audio: nothing to do.
    pub fn process(&mut self) -> (c: Control)
        ensures
            c == Control::Continue,
    {
        Control::Continue
    }

    /// The buffer size is about to change: nothing to prepare.
    pub fn buffer_size(&mut self, _size: u32) -> (c: Control)
        ensures
            c == Control::Continue,
    {
        Control::Continue
    }
}

/// `after` is `before` with one more send, of the notification `n`.
pub open spec fn sent_one(
    before: Seq<(NotificationView, bool)>,
    after: Seq<(NotificationView, bool)>,
    n: NotificationView,
) -> bool {
    &&& after.len() == before.len() + 1
    &&& after.drop_last() == before
    &&& after.last().0 == n
}

/// One more send, whatever its outcome, is one more send of that notification.
pub proof fn lemma_push_is_sent_one(before: Seq<(NotificationView, bool)>, n: NotificationView, delivered: bool)
    ensures
        sent_one(before, before.push((n, delivered)), n),
{
    assert(before.push((n, delivered)).drop_last() =~= before);
}

/// Turns each server callback into one [`Notification`] and sends it on.
///
/// A send never blocks and never fails loudly: when no receiver remains, the
/// event is dropped, and the callbacks that may stop the client answer
/// [`Control::Quit`].
pub struct SimpleNotificationHandler {
    pub msg_sender: EventSender,
}

impl SimpleNotificationHandler {
    /// A handler that sends into `msg_sender` and has sent nothing yet.
    pub fn new(msg_sender: Sender<Notification>) -> (h: SimpleNotificationHandler)
        ensures
            h.msg_sender.sent() == Seq::<(NotificationView, bool)>::empty(),
    {
        SimpleNotificationHandler { msg_sender: EventSender::new(msg_sender) }
    }

    /// A server thread was (re)initialised.
    pub fn thread_init(&mut self)
        ensures
            sent_one(old(self).msg_sender.sent(), final(self).msg_sender.sent(), NotificationView::ThreadInit),
    {
        let ghost before = self.msg_sender.sent();
        let delivered = self.msg_sender.send(Notification::ThreadInit);
        proof {
            lemma_push_is_sent_one(before, NotificationView::ThreadInit, delivered);
        }
    }

    /// The server shut the client down.
    pub fn shutdown(&mut self, status: u32, reason: &str)
        ensures
            sent_one(
                old(self).msg_sender.sent(),
                final(self).msg_sender.sent(),
                NotificationView::Shutdown(status, reason@),
            ),
    {
        let ghost before = self.msg_sender.sent();
        let delivered = self.msg_sender.send(Notification::Shutdown(status, reason.to_owned()));
        proof {
            lemma_push_is_sent_one(before, NotificationView::Shutdown(status, reason@), delivered);
        }
    }

    /// Freewheel mode was switched on or off.
    pub fn freewheel(&mut self, is_enabled: bool)
        ensures
            sent_one(
                old(self).msg_sender.sent(),
                final(self).msg_sender.sent(),
                NotificationView::Freewheel(is_enabled),
            ),
    {
        let ghost before = self.msg_sender.sent();
        let delivered = self.msg_sender.send(Notification::Freewheel(is_enabled));
        proof {
            lemma_push_is_sent_one(before, NotificationView::Freewheel(is_enabled), delivered);
        }
    }

    /// The sample rate changed. The client goes on exactly when the event was
    /// delivered.
    pub fn sample_rate(&mut self, srate: u32) -> (c: Control)
        ensures
            final(self).msg_sender.sent() == old(self).msg_sender.sent().push(
                (NotificationView::SampleRate(srate), c == Control::Continue),
            ),
    {
        let delivered = self.msg_sender.send(Notification::SampleRate(srate));
        Control::after_send(delivered)
    }

    /// A client was registered or unregistered.
    pub fn client_registration(&mut self, name: &str, is_reg: bool)
        ensures
            sent_one(
                old(self).msg_sender.sent(),
                final(self).msg_sender.sent(),
                NotificationView::ClientRegistration(name@, is_reg),
            ),
    {
        let ghost before = self.msg_sender.sent();
        let delivered = self.msg_sender.send(
            Notification::ClientRegistration(name.to_owned(), is_reg),
        );
        proof {
            lemma_push_is_sent_one(before, NotificationView::ClientRegistration(name@, is_reg), delivered);
        }
    }

    /// A port was registered or unregistered.
    pub fn port_registration(&mut self, port_id: u32, is_reg: bool)
        ensures
            sent_one(
                old(self).msg_sender.sent(),
                final(self).msg_sender.sent(),
                NotificationView::PortRegistration(port_id, is_reg),
            ),
    {
        let ghost before = self.msg_sender.sent();
        let delivered = self.msg_sender.send(Notification::PortRegistration(port_id, is_reg));
        proof {
            lemma_push_is_sent_one(before, NotificationView::PortRegistration(port_id, is_reg), delivered);
        }
    }

    /// A port was renamed. The client goes on exactly when the event was
    /// delivered.
    pub fn port_rename(&mut self, port_id: u32, old_name: &str, new_name: &str) -> (c: Control)
        ensures
            final(self).msg_sender.sent() == old(self).msg_sender.sent().push(
                (NotificationView::PortRename(port_id, old_name@, new_name@), c == Control::Continue),
            ),
    {
        let delivered = self.msg_sender.send(
            Notification::PortRename(port_id, old_name.to_owned(), new_name.to_owned()),
        );
        Control::after_send(delivered)
    }

    /// Two ports were connected or disconnected.
    pub fn ports_connected(&mut self, port_id_a: u32, port_id_b: u32, are_connected: bool)
        ensures
            sent_one(
                old(self).msg_sender.sent(),
                final(self).msg_sender.sent(),
                NotificationView::PortsConnected(port_id_a, port_id_b, are_connected),
            ),
    {
        let ghost before = self.msg_sender.sent();
        let delivered = self.msg_sender.send(
            Notification::PortsConnected(port_id_a, port_id_b, are_connected),
        );
        proof {
            lemma_push_is_sent_one(before, NotificationView::PortsConnected(port_id_a, port_id_b, are_connected), delivered);
        }
    }

    /// The processing graph was reordered. The client goes on exactly when the
    /// event was delivered.
    pub fn graph_reorder(&mut self) -> (c: Control)
        ensures
            final(self).msg_sender.sent() == old(self).msg_sender.sent().push(
                (NotificationView::GraphReorder, c == Control::Continue),
            ),
    {
        let delivered = self.msg_sender.send(Notification::GraphReorder);
        Control::after_send(delivered)
    }

    /// A buffer overrun or underrun occurred. The client goes on exactly when
    /// the event was delivered.
    pub fn xrun(&mut self) -> (c: Control)
        ensures
            final(self).msg_sender.sent() == old(self).msg_sender.sent().push(
                (NotificationView::XRun, c == Control::Continue),
            ),
    {
        let delivered = self.msg_sender.send(Notification::XRun);
        Control::after_send(delivered)
    }
}

} // verus!
