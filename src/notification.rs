//! The closed set of server notifications and their text form.

use vstd::prelude::*;

use crate::text::{contains, decimal, decimal_text, lemma_contains_middle};

verus! {

/// One notification of the audio server, with the data its callback supplied.
///
/// Port ids and frame counts are the server's 32-bit values; the status of a
/// shutdown is the bit set of the server's client status flags.
#[derive(Debug)]
pub enum Notification {
    ThreadInit,
    Shutdown(u32, String),
    Freewheel(bool),
    SampleRate(u32),
    ClientRegistration(String, bool),
    PortRegistration(u32, bool),
    PortRename(u32, String, String),
    PortsConnected(u32, u32, bool),
    GraphReorder,
    XRun,
}

/// The mathematical value of a [`Notification`]: the same variant, with texts as
/// character sequences.
pub ghost enum NotificationView {
    ThreadInit,
    Shutdown(u32, Seq<char>),
    Freewheel(bool),
    SampleRate(u32),
    ClientRegistration(Seq<char>, bool),
    PortRegistration(u32, bool),
    PortRename(u32, Seq<char>, Seq<char>),
    PortsConnected(u32, u32, bool),
    GraphReorder,
    XRun,
}

impl View for Notification {
    type V = NotificationView;

    open spec fn view(&self) -> NotificationView {
        match self {
            Notification::ThreadInit => NotificationView::ThreadInit,
            Notification::Shutdown(status, reason) => NotificationView::Shutdown(*status, reason@),
            Notification::Freewheel(on) => NotificationView::Freewheel(*on),
            Notification::SampleRate(srate) => NotificationView::SampleRate(*srate),
            Notification::ClientRegistration(name, reg) => NotificationView::ClientRegistration(
                name@,
                *reg,
            ),
            Notification::PortRegistration(id, reg) => NotificationView::PortRegistration(*id, *reg),
            Notification::PortRename(id, old_name, new_name) => NotificationView::PortRename(
                *id,
                old_name@,
                new_name@,
            ),
            Notification::PortsConnected(a, b, conn) => NotificationView::PortsConnected(
                *a,
                *b,
                *conn,
            ),
            Notification::GraphReorder => NotificationView::GraphReorder,
            Notification::XRun => NotificationView::XRun,
        }
    }
}

impl PartialEq for Notification {
    fn eq(&self, other: &Notification) -> (r: bool)
        ensures
            r == (self@ == other@),
    {
        match (self, other) {
            (Notification::ThreadInit, Notification::ThreadInit) => true,
            (Notification::Shutdown(s1, r1), Notification::Shutdown(s2, r2)) => *s1 == *s2 && *r1
                == *r2,
            (Notification::Freewheel(a), Notification::Freewheel(b)) => *a == *b,
            (Notification::SampleRate(a), Notification::SampleRate(b)) => *a == *b,
            (
                Notification::ClientRegistration(n1, g1),
                Notification::ClientRegistration(n2, g2),
            ) => *n1 == *n2 && *g1 == *g2,
            (Notification::PortRegistration(i1, g1), Notification::PortRegistration(i2, g2)) => *i1
                == *i2 && *g1 == *g2,
            (Notification::PortRename(i1, o1, n1), Notification::PortRename(i2, o2, n2)) => *i1
                == *i2 && *o1 == *o2 && *n1 == *n2,
            (Notification::PortsConnected(a1, b1, c1), Notification::PortsConnected(a2, b2, c2)) =>
                *a1 == *a2 && *b1 == *b2 && *c1 == *c2,
            (Notification::GraphReorder, Notification::GraphReorder) => true,
            (Notification::XRun, Notification::XRun) => true,
            _ => false,
        }
    }
}

impl vstd::std_specs::cmp::PartialEqSpecImpl for Notification {
    open spec fn obeys_eq_spec() -> bool {
        true
    }

    open spec fn eq_spec(&self, other: &Notification) -> bool {
        self@ == other@
    }
}

impl Eq for Notification {
}

/// The word for a registration flag.
pub open spec fn registration_word(registered: bool) -> Seq<char> {
    if registered {
        "registered"@
    } else {
        "unregistered"@
    }
}

/// The word for the freewheel flag.
pub open spec fn switch_word(on: bool) -> Seq<char> {
    if on {
        "on"@
    } else {
        "off"@
    }
}

/// The word for a connection flag.
pub open spec fn connection_word(connected: bool) -> Seq<char> {
    if connected {
        "connected"@
    } else {
        "disconnected"@
    }
}

/// The word that names the kind of a notification in its text.
pub open spec fn keyword(n: NotificationView) -> Seq<char> {
    match n {
        NotificationView::ThreadInit => "thread init"@,
        NotificationView::Shutdown(..) => "shutdown"@,
        NotificationView::Freewheel(..) => "freewheel"@,
        NotificationView::SampleRate(..) => "sample rate"@,
        NotificationView::ClientRegistration(..) => "client"@,
        NotificationView::PortRegistration(..) => "port"@,
        NotificationView::PortRename(..) => "renamed"@,
        NotificationView::PortsConnected(..) => "ports"@,
        NotificationView::GraphReorder => "graph reordered"@,
        NotificationView::XRun => "xrun"@,
    }
}

/// The text of a notification: one line, ending in a newline.
///
/// `status_text` is how the server's status flags of a shutdown are written;
/// the other kinds do not use it.
pub open spec fn text_of(n: NotificationView, status_text: Seq<char>) -> Seq<char> {
    match n {
        NotificationView::ThreadInit => "JACK: "@ + "thread init"@ + "\n"@,
        NotificationView::Shutdown(_, reason) => "JACK: "@ + "shutdown"@ + " with status "@
            + status_text + " because "@ + reason + "\n"@,
        NotificationView::Freewheel(on) => "JACK: "@ + "freewheel"@ + " mode is "@ + switch_word(on)
            + "\n"@,
        NotificationView::SampleRate(srate) => "JACK: "@ + "sample rate"@ + " changed to "@
            + decimal(srate as nat) + "\n"@,
        NotificationView::ClientRegistration(name, reg) => "JACK: "@ + registration_word(reg)
            + " "@ + "client"@ + " with name \""@ + name + "\"\n"@,
        NotificationView::PortRegistration(id, reg) => "JACK: "@ + registration_word(reg) + " "@
            + "port"@ + " with id "@ + decimal(id as nat) + "\n"@,
        NotificationView::PortRename(id, old_name, new_name) => "JACK: "@ + "port with id "@
            + decimal(id as nat) + " "@ + "renamed"@ + " from "@ + old_name + " to "@ + new_name
            + "\n"@,
        NotificationView::PortsConnected(a, b, conn) => "JACK: "@ + "ports"@ + " with id "@
            + decimal(a as nat) + " and "@ + decimal(b as nat) + " are "@ + connection_word(conn)
            + "\n"@,
        NotificationView::GraphReorder => "JACK: "@ + "graph reordered"@ + "\n"@,
        NotificationView::XRun => "JACK: "@ + "xrun"@ + " occurred\n"@,
    }
}

/// The text holds every value that the notification carries.
pub open spec fn shows_payload(n: NotificationView, status_text: Seq<char>) -> bool {
    let t = text_of(n, status_text);
    match n {
        NotificationView::Shutdown(_, reason) => contains(t, status_text) && contains(t, reason),
        NotificationView::Freewheel(on) => contains(t, switch_word(on)),
        NotificationView::SampleRate(srate) => contains(t, decimal(srate as nat)),
        NotificationView::ClientRegistration(name, reg) => contains(t, name) && contains(
            t,
            registration_word(reg),
        ),
        NotificationView::PortRegistration(id, reg) => contains(t, decimal(id as nat)) && contains(
            t,
            registration_word(reg),
        ),
        NotificationView::PortRename(id, old_name, new_name) => contains(t, decimal(id as nat))
            && contains(t, old_name) && contains(t, new_name),
        NotificationView::PortsConnected(a, b, conn) => contains(t, decimal(a as nat)) && contains(
            t,
            decimal(b as nat),
        ) && contains(t, connection_word(conn)),
        _ => true,
    }
}

/// Every notification renders to a non-empty text that names its kind and holds
/// every value it carries, whatever the status text.
pub proof fn lemma_text_names_kind_and_payload(n: NotificationView, status_text: Seq<char>)
    ensures
        text_of(n, status_text).len() > 0,
        contains(text_of(n, status_text), keyword(n)),
        shows_payload(n, status_text),
{
    match n {
        NotificationView::ThreadInit => lemma_thread_init_text(n, status_text),
        NotificationView::Shutdown(..) => lemma_shutdown_text(n, status_text),
        NotificationView::Freewheel(..) => lemma_freewheel_text(n, status_text),
        NotificationView::SampleRate(..) => lemma_sample_rate_text(n, status_text),
        NotificationView::ClientRegistration(..) => lemma_client_registration_text(n, status_text),
        NotificationView::PortRegistration(..) => lemma_port_registration_text(n, status_text),
        NotificationView::PortRename(..) => lemma_port_rename_text(n, status_text),
        NotificationView::PortsConnected(..) => lemma_ports_connected_text(n, status_text),
        NotificationView::GraphReorder => lemma_graph_reorder_text(n, status_text),
        NotificationView::XRun => lemma_xrun_text(n, status_text),
    }
}

proof fn lemma_thread_init_text(n: NotificationView, status_text: Seq<char>)
    requires
        n is ThreadInit,
    ensures
        text_of(n, status_text).len() > 0,
        contains(text_of(n, status_text), keyword(n)),
        shows_payload(n, status_text),
{
    let t = text_of(n, status_text);
    let p = "JACK: "@;
    let nl = "\n"@;
    reveal_strlit("JACK: ");
    assert(t =~= p + keyword(n) + nl);
    lemma_contains_middle(p, keyword(n), nl);
}

proof fn lemma_shutdown_text(n: NotificationView, status_text: Seq<char>)
    requires
        n is Shutdown,
    ensures
        text_of(n, status_text).len() > 0,
        contains(text_of(n, status_text), keyword(n)),
        shows_payload(n, status_text),
{
    let t = text_of(n, status_text);
    let p = "JACK: "@;
    let nl = "\n"@;
    reveal_strlit("JACK: ");
    if let NotificationView::Shutdown(_, reason) = n {
        let w = " with status "@;
        let b = " because "@;
        assert(t =~= p + keyword(n) + (w + status_text + b + reason + nl));
        lemma_contains_middle(p, keyword(n), w + status_text + b + reason + nl);
        assert(t =~= (p + keyword(n) + w) + status_text + (b + reason + nl));
        lemma_contains_middle(p + keyword(n) + w, status_text, b + reason + nl);
        assert(t =~= (p + keyword(n) + w + status_text + b) + reason + nl);
        lemma_contains_middle(p + keyword(n) + w + status_text + b, reason, nl);
    }
}

proof fn lemma_freewheel_text(n: NotificationView, status_text: Seq<char>)
    requires
        n is Freewheel,
    ensures
        text_of(n, status_text).len() > 0,
        contains(text_of(n, status_text), keyword(n)),
        shows_payload(n, status_text),
{
    let t = text_of(n, status_text);
    let p = "JACK: "@;
    let nl = "\n"@;
    reveal_strlit("JACK: ");
    if let NotificationView::Freewheel(on) = n {
        let m = " mode is "@;
        assert(t =~= p + keyword(n) + (m + switch_word(on) + nl));
        lemma_contains_middle(p, keyword(n), m + switch_word(on) + nl);
        assert(t =~= (p + keyword(n) + m) + switch_word(on) + nl);
        lemma_contains_middle(p + keyword(n) + m, switch_word(on), nl);
    }
}

proof fn lemma_sample_rate_text(n: NotificationView, status_text: Seq<char>)
    requires
        n is SampleRate,
    ensures
        text_of(n, status_text).len() > 0,
        contains(text_of(n, status_text), keyword(n)),
        shows_payload(n, status_text),
{
    let t = text_of(n, status_text);
    let p = "JACK: "@;
    let nl = "\n"@;
    reveal_strlit("JACK: ");
    if let NotificationView::SampleRate(srate) = n {
        let c = " changed to "@;
        let d = decimal(srate as nat);
        assert(t =~= p + keyword(n) + (c + d + nl));
        lemma_contains_middle(p, keyword(n), c + d + nl);
        assert(t =~= (p + keyword(n) + c) + d + nl);
        lemma_contains_middle(p + keyword(n) + c, d, nl);
    }
}

proof fn lemma_client_registration_text(n: NotificationView, status_text: Seq<char>)
    requires
        n is ClientRegistration,
    ensures
        text_of(n, status_text).len() > 0,
        contains(text_of(n, status_text), keyword(n)),
        shows_payload(n, status_text),
{
    let t = text_of(n, status_text);
    let p = "JACK: "@;
    let nl = "\n"@;
    reveal_strlit("JACK: ");
    if let NotificationView::ClientRegistration(name, reg) = n {
        let r = registration_word(reg);
        let sp = " "@;
        let w = " with name \""@;
        let q = "\"\n"@;
        assert(t =~= p + r + (sp + keyword(n) + w + name + q));
        lemma_contains_middle(p, r, sp + keyword(n) + w + name + q);
        assert(t =~= (p + r + sp) + keyword(n) + (w + name + q));
        lemma_contains_middle(p + r + sp, keyword(n), w + name + q);
        assert(t =~= (p + r + sp + keyword(n) + w) + name + q);
        lemma_contains_middle(p + r + sp + keyword(n) + w, name, q);
    }
}

proof fn lemma_port_registration_text(n: NotificationView, status_text: Seq<char>)
    requires
        n is PortRegistration,
    ensures
        text_of(n, status_text).len() > 0,
        contains(text_of(n, status_text), keyword(n)),
        shows_payload(n, status_text),
{
    let t = text_of(n, status_text);
    let p = "JACK: "@;
    let nl = "\n"@;
    reveal_strlit("JACK: ");
    if let NotificationView::PortRegistration(id, reg) = n {
        let r = registration_word(reg);
        let sp = " "@;
        let w = " with id "@;
        let d = decimal(id as nat);
        assert(t =~= p + r + (sp + keyword(n) + w + d + nl));
        lemma_contains_middle(p, r, sp + keyword(n) + w + d + nl);
        assert(t =~= (p + r + sp) + keyword(n) + (w + d + nl));
        lemma_contains_middle(p + r + sp, keyword(n), w + d + nl);
        assert(t =~= (p + r + sp + keyword(n) + w) + d + nl);
        lemma_contains_middle(p + r + sp + keyword(n) + w, d, nl);
    }
}

proof fn lemma_port_rename_text(n: NotificationView, status_text: Seq<char>)
    requires
        n is PortRename,
    ensures
        text_of(n, status_text).len() > 0,
        contains(text_of(n, status_text), keyword(n)),
        shows_payload(n, status_text),
{
    let t = text_of(n, status_text);
    let p = "JACK: "@;
    let nl = "\n"@;
    reveal_strlit("JACK: ");
    if let NotificationView::PortRename(id, old_name, new_name) = n {
        let w = "port with id "@;
        let d = decimal(id as nat);
        let sp = " "@;
        let f = " from "@;
        let to = " to "@;
        assert(t =~= (p + w) + d + (sp + keyword(n) + f + old_name + to + new_name + nl));
        lemma_contains_middle(p + w, d, sp + keyword(n) + f + old_name + to + new_name + nl);
        assert(t =~= (p + w + d + sp) + keyword(n) + (f + old_name + to + new_name + nl));
        lemma_contains_middle(p + w + d + sp, keyword(n), f + old_name + to + new_name + nl);
        assert(t =~= (p + w + d + sp + keyword(n) + f) + old_name + (to + new_name + nl));
        lemma_contains_middle(p + w + d + sp + keyword(n) + f, old_name, to + new_name + nl);
        assert(t =~= (p + w + d + sp + keyword(n) + f + old_name + to) + new_name + nl);
        lemma_contains_middle(p + w + d + sp + keyword(n) + f + old_name + to, new_name, nl);
    }
}

proof fn lemma_ports_connected_text(n: NotificationView, status_text: Seq<char>)
    requires
        n is PortsConnected,
    ensures
        text_of(n, status_text).len() > 0,
        contains(text_of(n, status_text), keyword(n)),
        shows_payload(n, status_text),
{
    let t = text_of(n, status_text);
    let p = "JACK: "@;
    let nl = "\n"@;
    reveal_strlit("JACK: ");
    if let NotificationView::PortsConnected(a, b, conn) = n {
        let w = " with id "@;
        let da = decimal(a as nat);
        let and = " and "@;
        let db = decimal(b as nat);
        let are = " are "@;
        let c = connection_word(conn);
        assert(t =~= p + keyword(n) + (w + da + and + db + are + c + nl));
        lemma_contains_middle(p, keyword(n), w + da + and + db + are + c + nl);
        assert(t =~= (p + keyword(n) + w) + da + (and + db + are + c + nl));
        lemma_contains_middle(p + keyword(n) + w, da, and + db + are + c + nl);
        assert(t =~= (p + keyword(n) + w + da + and) + db + (are + c + nl));
        lemma_contains_middle(p + keyword(n) + w + da + and, db, are + c + nl);
        assert(t =~= (p + keyword(n) + w + da + and + db + are) + c + nl);
        lemma_contains_middle(p + keyword(n) + w + da + and + db + are, c, nl);
    }
}

proof fn lemma_graph_reorder_text(n: NotificationView, status_text: Seq<char>)
    requires
        n is GraphReorder,
    ensures
        text_of(n, status_text).len() > 0,
        contains(text_of(n, status_text), keyword(n)),
        shows_payload(n, status_text),
{
    let t = text_of(n, status_text);
    let p = "JACK: "@;
    let nl = "\n"@;
    reveal_strlit("JACK: ");
    assert(t =~= p + keyword(n) + nl);
    lemma_contains_middle(p, keyword(n), nl);
}

proof fn lemma_xrun_text(n: NotificationView, status_text: Seq<char>)
    requires
        n is XRun,
    ensures
        text_of(n, status_text).len() > 0,
        contains(text_of(n, status_text), keyword(n)),
        shows_payload(n, status_text),
{
    let t = text_of(n, status_text);
    let p = "JACK: "@;
    let nl = "\n"@;
    reveal_strlit("JACK: ");
    let o = " occurred\n"@;
    assert(t =~= p + keyword(n) + o);
    lemma_contains_middle(p, keyword(n), o);
}

fn registration_str(registered: bool) -> (r: &'static str)
    ensures
        r@ == registration_word(registered),
{
    if registered {
        "registered"
    } else {
        "unregistered"
    }
}

impl Notification {
    /// The text of this notification, with `status_text` standing for the
    /// status flags of a shutdown.
    pub fn render(&self, status_text: &str) -> (r: String)
        ensures
            r@ == text_of(self@, status_text@),
    {
        let mut s = String::from_str("JACK: ");
        match self {
            Notification::ThreadInit => {
                s.append("thread init");
                s.append("\n");
            },
            Notification::Shutdown(_, reason) => {
                s.append("shutdown");
                s.append(" with status ");
                s.append(status_text);
                s.append(" because ");
                s.append(reason.as_str());
                s.append("\n");
            },
            Notification::Freewheel(on) => {
                s.append("freewheel");
                s.append(" mode is ");
                s.append(if *on { "on" } else { "off" });
                s.append("\n");
            },
            Notification::SampleRate(srate) => {
                s.append("sample rate");
                s.append(" changed to ");
                let digits = decimal_text(*srate);
                s.append(digits.as_str());
                s.append("\n");
            },
            Notification::ClientRegistration(name, reg) => {
                s.append(registration_str(*reg));
                s.append(" ");
                s.append("client");
                s.append(" with name \"");
                s.append(name.as_str());
                s.append("\"\n");
            },
            Notification::PortRegistration(id, reg) => {
                s.append(registration_str(*reg));
                s.append(" ");
                s.append("port");
                s.append(" with id ");
                let digits = decimal_text(*id);
                s.append(digits.as_str());
                s.append("\n");
            },
            Notification::PortRename(id, old_name, new_name) => {
                s.append("port with id ");
                let digits = decimal_text(*id);
                s.append(digits.as_str());
                s.append(" ");
                s.append("renamed");
                s.append(" from ");
                s.append(old_name.as_str());
                s.append(" to ");
                s.append(new_name.as_str());
                s.append("\n");
            },
            Notification::PortsConnected(a, b, conn) => {
                s.append("ports");
                s.append(" with id ");
                let digits_a = decimal_text(*a);
                s.append(digits_a.as_str());
                s.append(" and ");
                let digits_b = decimal_text(*b);
                s.append(digits_b.as_str());
                s.append(" are ");
                s.append(if *conn { "connected" } else { "disconnected" });
                s.append("\n");
            },
            Notification::GraphReorder => {
                s.append("graph reordered");
                s.append("\n");
            },
            Notification::XRun => {
                s.append("xrun");
                s.append(" occurred\n");
            },
        }
        s
    }
}

} // verus!
