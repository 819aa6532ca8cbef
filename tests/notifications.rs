use std::sync::mpsc::{channel, Receiver, TryRecvError};

use jack_notifications_rs::handler::{Control, DummyProcessHandler, SimpleNotificationHandler};
use jack_notifications_rs::text::decimal_text;
use jack_notifications_rs::{get_name, Notification};

fn handler_with_receiver() -> (SimpleNotificationHandler, Receiver<Notification>) {
    let (sender, receiver) = channel::<Notification>();
    (SimpleNotificationHandler::new(sender), receiver)
}

fn only_event(receiver: &Receiver<Notification>) -> Notification {
    let event = receiver.try_recv().expect("one event");
    assert_eq!(receiver.try_recv(), Err(TryRecvError::Empty));
    event
}

#[test]
fn thread_init_sends_one_event() {
    let (mut handler, receiver) = handler_with_receiver();
    handler.thread_init();
    assert_eq!(only_event(&receiver), Notification::ThreadInit);
}

#[test]
fn thread_init_events_drain_n_times() {
    for n in [0u32, 10_000] {
        let (mut handler, receiver) = handler_with_receiver();
        for _ in 0..n {
            handler.thread_init();
        }
        let mut count: u32 = 0;
        while let Ok(event) = receiver.try_recv() {
            assert_eq!(event, Notification::ThreadInit);
            count += 1;
        }
        assert_eq!(count, n);
        assert_eq!(receiver.try_recv(), Err(TryRecvError::Empty));
    }
}

#[test]
fn shutdown_sends_status_and_reason() {
    let (mut handler, receiver) = handler_with_receiver();
    let mut reason = String::from("server stopped");
    handler.shutdown(0x21, &reason);
    reason.clear();
    assert_eq!(
        only_event(&receiver),
        Notification::Shutdown(0x21, "server stopped".to_owned())
    );
}

#[test]
fn freewheel_sends_flag() {
    let (mut handler, receiver) = handler_with_receiver();
    handler.freewheel(true);
    handler.freewheel(false);
    assert_eq!(receiver.try_recv().unwrap(), Notification::Freewheel(true));
    assert_eq!(only_event(&receiver), Notification::Freewheel(false));
}

#[test]
fn sample_rate_sends_frames_and_continues() {
    let (mut handler, receiver) = handler_with_receiver();
    assert_eq!(handler.sample_rate(48_000), Control::Continue);
    assert_eq!(only_event(&receiver), Notification::SampleRate(48_000));
}

#[test]
fn client_registration_copies_name() {
    let (mut handler, receiver) = handler_with_receiver();
    let mut name = String::from("system");
    handler.client_registration(&name, false);
    name.push_str("-changed");
    assert_eq!(
        only_event(&receiver),
        Notification::ClientRegistration("system".to_owned(), false)
    );
}

#[test]
fn port_registration_scenario() {
    let (mut handler, receiver) = handler_with_receiver();
    handler.port_registration(3, true);
    let event = only_event(&receiver);
    assert_eq!(event, Notification::PortRegistration(3, true));
    assert!(event.render("").contains("registered port with id 3"));
}

#[test]
fn port_rename_copies_both_names() {
    let (mut handler, receiver) = handler_with_receiver();
    assert_eq!(handler.port_rename(17, "in_1", "mic"), Control::Continue);
    assert_eq!(
        only_event(&receiver),
        Notification::PortRename(17, "in_1".to_owned(), "mic".to_owned())
    );
}

#[test]
fn ports_connected_sends_both_ids() {
    let (mut handler, receiver) = handler_with_receiver();
    handler.ports_connected(4, 9, true);
    assert_eq!(only_event(&receiver), Notification::PortsConnected(4, 9, true));
}

#[test]
fn graph_reorder_sends_and_continues() {
    let (mut handler, receiver) = handler_with_receiver();
    assert_eq!(handler.graph_reorder(), Control::Continue);
    assert_eq!(only_event(&receiver), Notification::GraphReorder);
}

#[test]
fn xrun_continues_while_received() {
    let (mut handler, receiver) = handler_with_receiver();
    assert_eq!(handler.xrun(), Control::Continue);
    assert_eq!(only_event(&receiver), Notification::XRun);
}

#[test]
fn xrun_quits_without_receiver() {
    let (mut handler, receiver) = handler_with_receiver();
    drop(receiver);
    assert_eq!(handler.xrun(), Control::Quit);
}

#[test]
fn no_events_drain_to_nothing() {
    let (_handler, receiver) = handler_with_receiver();
    assert_eq!(receiver.try_recv(), Err(TryRecvError::Empty));
}

#[test]
fn many_events_drain_in_order() {
    let (mut handler, receiver) = handler_with_receiver();
    for i in 0..10_000u32 {
        handler.port_registration(i, i % 2 == 0);
    }
    let mut count: u32 = 0;
    while let Ok(event) = receiver.try_recv() {
        assert_eq!(event, Notification::PortRegistration(count, count % 2 == 0));
        count += 1;
    }
    assert_eq!(count, 10_000);
}

#[test]
fn mixed_events_keep_invocation_order() {
    let (mut handler, receiver) = handler_with_receiver();
    handler.thread_init();
    handler.sample_rate(44_100);
    handler.xrun();
    handler.client_registration("a", true);
    handler.graph_reorder();
    let drained: Vec<Notification> = receiver.try_iter().collect();
    assert_eq!(
        drained,
        vec![
            Notification::ThreadInit,
            Notification::SampleRate(44_100),
            Notification::XRun,
            Notification::ClientRegistration("a".to_owned(), true),
            Notification::GraphReorder,
        ]
    );
}

#[test]
fn callbacks_after_receiver_dropped_do_not_fail() {
    let (mut handler, receiver) = handler_with_receiver();
    drop(receiver);
    handler.thread_init();
    handler.shutdown(1, "gone");
    handler.freewheel(true);
    handler.client_registration("x", true);
    handler.port_registration(1, false);
    handler.ports_connected(1, 2, false);
    assert_eq!(handler.sample_rate(96_000), Control::Quit);
    assert_eq!(handler.port_rename(1, "a", "b"), Control::Quit);
    assert_eq!(handler.graph_reorder(), Control::Quit);
    assert_eq!(handler.xrun(), Control::Quit);
}

#[test]
fn buffered_events_survive_dropped_handler() {
    let (mut handler, receiver) = handler_with_receiver();
    handler.xrun();
    handler.freewheel(false);
    drop(handler);
    assert_eq!(receiver.try_recv(), Ok(Notification::XRun));
    assert_eq!(receiver.try_recv(), Ok(Notification::Freewheel(false)));
    assert_eq!(receiver.try_recv(), Err(TryRecvError::Disconnected));
}

#[test]
fn render_exact_texts() {
    let status = "ClientStatus(SERVER_ERROR)";
    let cases = vec![
        (Notification::ThreadInit, "JACK: thread init\n"),
        (
            Notification::Shutdown(0x21, "server stopped".to_owned()),
            "JACK: shutdown with status ClientStatus(SERVER_ERROR) because server stopped\n",
        ),
        (Notification::Freewheel(true), "JACK: freewheel mode is on\n"),
        (Notification::Freewheel(false), "JACK: freewheel mode is off\n"),
        (Notification::SampleRate(48_000), "JACK: sample rate changed to 48000\n"),
        (
            Notification::ClientRegistration("system".to_owned(), true),
            "JACK: registered client with name \"system\"\n",
        ),
        (
            Notification::ClientRegistration("system".to_owned(), false),
            "JACK: unregistered client with name \"system\"\n",
        ),
        (Notification::PortRegistration(3, true), "JACK: registered port with id 3\n"),
        (Notification::PortRegistration(12, false), "JACK: unregistered port with id 12\n"),
        (
            Notification::PortRename(7, "old".to_owned(), "new".to_owned()),
            "JACK: port with id 7 renamed from old to new\n",
        ),
        (
            Notification::PortsConnected(1, 20, true),
            "JACK: ports with id 1 and 20 are connected\n",
        ),
        (
            Notification::PortsConnected(1, 20, false),
            "JACK: ports with id 1 and 20 are disconnected\n",
        ),
        (Notification::GraphReorder, "JACK: graph reordered\n"),
        (Notification::XRun, "JACK: xrun occurred\n"),
    ];
    for (event, text) in cases {
        assert_eq!(event.render(status), text);
    }
}

#[test]
fn render_names_kind_and_values() {
    let status = "ClientStatus(FAILURE)";
    let shutdown = Notification::Shutdown(1, "server stopped".to_owned()).render(status);
    assert!(shutdown.contains("shutdown"));
    assert!(shutdown.contains("server stopped"));
    assert!(shutdown.contains(status));
    let xrun = Notification::XRun.render(status);
    assert!(!xrun.is_empty());
    assert!(xrun.contains("xrun"));
    let rate = Notification::SampleRate(4_294_967_295).render(status);
    assert!(rate.contains("sample rate"));
    assert!(rate.contains("4294967295"));
    let rename = Notification::PortRename(0, "a b".to_owned(), "c".to_owned()).render(status);
    assert!(rename.contains("renamed"));
    assert!(rename.contains(" 0 "));
    assert!(rename.contains("a b"));
}

#[test]
fn decimal_text_values() {
    assert_eq!(decimal_text(0), "0");
    assert_eq!(decimal_text(7), "7");
    assert_eq!(decimal_text(10), "10");
    assert_eq!(decimal_text(1_000_905), "1000905");
    assert_eq!(decimal_text(u32::MAX), "4294967295");
}

#[test]
fn notification_equality_is_structural() {
    assert_eq!(
        Notification::PortRename(1, "a".to_owned(), "b".to_owned()),
        Notification::PortRename(1, "a".to_owned(), "b".to_owned())
    );
    assert_ne!(
        Notification::PortRename(1, "a".to_owned(), "b".to_owned()),
        Notification::PortRename(1, "b".to_owned(), "a".to_owned())
    );
    assert_ne!(Notification::GraphReorder, Notification::XRun);
    assert_ne!(Notification::Freewheel(true), Notification::Freewheel(false));
}

#[test]
fn control_follows_delivery() {
    assert_eq!(Control::after_send(true), Control::Continue);
    assert_eq!(Control::after_send(false), Control::Quit);
}

#[test]
fn dummy_process_handler_always_continues() {
    let mut dummy = DummyProcessHandler;
    assert_eq!(dummy.process(), Control::Continue);
    assert_eq!(dummy.buffer_size(1024), Control::Continue);
}

#[test]
fn name_from_program_or_default() {
    assert_eq!(get_name(Some("listener".to_owned())), "listener");
    assert_eq!(get_name(None), "jack_notification_rs");
}
