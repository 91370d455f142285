use vstd::prelude::*;

verus! {

/// How many unread signals a receiver can lag behind before the oldest is
/// evicted in favor of the newest.
pub const BUS_CAPACITY: u64 = 16;

/// The broadcast bus for change signals: a single producer, one receiver per
/// live-reload session. Signals carry no payload, so the bus is a counter of
/// signals published so far; each receiver remembers how far it has read.
pub struct ReloadBus {
    pub published: u64,
}

/// One session's subscription handle.
pub struct ReloadReceiver {
    pub seen: u64,
}

/// A receiver is well formed against a bus when it has not read past what was
/// published.
pub open spec fn receiver_wf(bus: ReloadBus, rx: ReloadReceiver) -> bool {
    rx.seen <= bus.published
}

/// How many signals a receiver still has to read: its lag, capped at the
/// bus's capacity because older signals are evicted.
pub open spec fn pending(bus: ReloadBus, rx: ReloadReceiver) -> int {
    if bus.published - rx.seen > BUS_CAPACITY {
        BUS_CAPACITY as int
    } else {
        bus.published - rx.seen
    }
}

impl ReloadBus {
    pub fn new() -> (bus: ReloadBus)
        ensures
            bus.published == 0,
    {
        ReloadBus { published: 0 }
    }

    /// Publish one change signal. Never fails the caller, whether or not any
    /// receiver is subscribed; a signal no receiver ever reads is dropped.
    pub fn publish(&mut self)
        requires
            old(self).published < u64::MAX,
        ensures
            final(self).published == old(self).published + 1,
    {
        self.published = self.published + 1;
    }

    /// A fresh receiver, which sees only signals published strictly after
    /// this call.
    pub fn subscribe(&self) -> (rx: ReloadReceiver)
        ensures
            rx.seen == self.published,
            pending(*self, rx) == 0,
    {
        ReloadReceiver { seen: self.published }
    }

    /// Non-blocking poll: take one pending signal if there is one. Reads the
    /// oldest signal still retained, so a lag beyond the capacity collapses
    /// to the capacity.
    pub fn poll(&self, rx: &mut ReloadReceiver) -> (got: bool)
        requires
            receiver_wf(*self, *old(rx)),
        ensures
            receiver_wf(*self, *final(rx)),
            got == (pending(*self, *old(rx)) > 0),
            pending(*self, *final(rx)) == if pending(*self, *old(rx)) > 0 {
                pending(*self, *old(rx)) - 1
            } else {
                0
            },
            !got ==> final(rx).seen == old(rx).seen,
    {
        if self.published > rx.seen {
            let lag = self.published - rx.seen;
            let capped = if lag > BUS_CAPACITY {
                BUS_CAPACITY
            } else {
                lag
            };
            rx.seen = self.published - capped + 1;
            true
        } else {
            false
        }
    }
}

/// ChangeNotifier's coalescing step: a successful filesystem event of any
/// kind (create, modify, delete, rename) publishes exactly one change
/// signal; an errored event publishes none.
pub fn note_fs_event(bus: &mut ReloadBus, event_ok: bool)
    requires
        old(bus).published < u64::MAX,
    ensures
        event_ok ==> final(bus).published == old(bus).published + 1,
        !event_ok ==> final(bus).published == old(bus).published,
{
    if event_ok {
        bus.publish();
    }
}

/// The one application-level message of the live-reload channel.
pub open spec fn reload_text() -> Seq<char> {
    "reload"@
}

/// One timer tick of a live-reload session: poll the subscription without
/// blocking and emit one `reload` instruction exactly when a signal was
/// pending. The session stays open either way.
pub fn session_on_tick(bus: &ReloadBus, rx: &mut ReloadReceiver) -> (msg: Option<String>)
    requires
        receiver_wf(*bus, *old(rx)),
    ensures
        receiver_wf(*bus, *final(rx)),
        msg is Some <==> pending(*bus, *old(rx)) > 0,
        msg matches Some(t) ==> t@ == reload_text(),
        pending(*bus, *final(rx)) == if pending(*bus, *old(rx)) > 0 {
            pending(*bus, *old(rx)) - 1
        } else {
            0
        },
{
    if bus.poll(rx) {
        Some(String::from_str("reload"))
    } else {
        None
    }
}

/// An incoming transport frame, as far as the session reacts to it.
pub enum WsFrame {
    /// A transport-level keepalive probe carrying an opaque payload.
    Ping(Vec<u8>),
    /// Anything else: the session ignores it.
    Other,
}

/// The session's answer to one incoming frame: a ping is answered with a
/// pong carrying the same payload; nothing else is answered.
pub fn session_on_frame(frame: WsFrame) -> (pong: Option<Vec<u8>>)
    ensures
        match frame {
            WsFrame::Ping(p) => pong matches Some(q) && q@ == p@,
            WsFrame::Other => pong is None,
        },
{
    match frame {
        WsFrame::Ping(p) => Some(p),
        WsFrame::Other => None,
    }
}

/// Law (broadcast fan-out): one signal published while sessions are
/// subscribed and drained leaves each of them exactly one pending signal, so
/// by `session_on_tick`'s contract each sends exactly one `reload` on its
/// next tick and none on the tick after; a receiver subscribed after the
/// publish has nothing pending and sends nothing for that signal.
pub proof fn lemma_broadcast_fanout(
    bus0: ReloadBus,
    bus1: ReloadBus,
    drained: ReloadReceiver,
    late: ReloadReceiver,
)
    requires
        drained.seen == bus0.published,
        bus0.published < u64::MAX,
        bus1.published == bus0.published + 1,
        late.seen == bus1.published,
    ensures
        pending(bus1, drained) == 1,
        pending(bus1, late) == 0,
{
}

/// Law (no replay): a receiver subscribed at any bus state has nothing
/// pending until the next publish.
pub proof fn lemma_late_subscriber_sees_nothing(bus: ReloadBus, rx: ReloadReceiver)
    requires
        rx.seen == bus.published,
    ensures
        pending(bus, rx) == 0,
{
}

} // verus!
