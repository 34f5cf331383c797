//! The discovery-session engine.
//!
//! A session is one run of the discovery loop, scoped to a single adapter.
//! The caller owns the blocking side: it registers the two subscription
//! filters, issues the start-discovery call, polls the live signal stream,
//! and hands every signal (or idle poll) to [`DiscoverySession::on_event`]
//! together with the elapsed wall-clock seconds.  The session state machine
//! classifies each event, decides which devices to report and when the
//! session is over, and records through its subscription flag that the two
//! filters are unregistered exactly once, on every exit path.

use vstd::prelude::*;
use crate::adapter::Adapter;
use crate::common::iface_matches;
use crate::device::Device;
use crate::path::parent_object_path;
use crate::path::parent_path;
use crate::path::str_eq;
use crate::value::BusValue;

verus! {

/// The subscription filter that selects `InterfacesAdded` signals from the
/// managing service.
pub fn interfaces_added_filter() -> (r: &'static str)
    ensures
        r@ == "sender='org.bluez',interface='org.freedesktop.DBus.ObjectManager',member='InterfacesAdded'"@,
{
    "sender='org.bluez',interface='org.freedesktop.DBus.ObjectManager',member='InterfacesAdded'"
}

/// The subscription filter that selects `PropertiesChanged` signals from the
/// managing service.
pub fn properties_changed_filter() -> (r: &'static str)
    ensures
        r@ == "sender='org.bluez',interface='org.freedesktop.DBus.Properties',member='PropertiesChanged'"@,
{
    "sender='org.bluez',interface='org.freedesktop.DBus.Properties',member='PropertiesChanged'"
}

/// One signal received from the live stream: its member name, the path of
/// the object that emitted it, and its ordered argument list.
#[derive(Debug)]
pub struct Signal {
    pub member: String,
    pub path: String,
    pub items: Vec<BusValue>,
}

/// Whether one changed-property entry reports the `Discovering` boolean
/// as having become false.
pub open spec fn discovering_false_entry(v: BusValue) -> bool {
    v matches BusValue::DictEntry(n, b) && n@ == "Discovering"@ && *b == BusValue::Bool(false)
}

/// Whether a changed-property list reports `Discovering` as false.
pub open spec fn discovering_false(props: Seq<BusValue>) -> bool {
    exists|j: int| 0 <= j < props.len() && discovering_false_entry(#[trigger] props[j])
}

/// Whether `s` is the signal that ends a session on `adapter_path`: a
/// `PropertiesChanged` signal emitted at the adapter's own path whose
/// changed interface is the adapter interface and whose changed-property
/// list carries `Discovering` as false.
pub open spec fn is_adapter_stop_signal(s: Signal, adapter_path: Seq<char>) -> bool {
    &&& s.member@ == "PropertiesChanged"@
    &&& s.path@ == adapter_path
    &&& s.items@.len() >= 2
    &&& (s.items@[0] matches BusValue::Str(n) && n@ == "org.bluez.Adapter1"@)
    &&& (s.items@[1] matches BusValue::Array(props) && discovering_false(props@))
}

/// Whether `s` is a well-shaped `InterfacesAdded` signal: an object path
/// followed by an array of (interface, property dictionary) entries.
pub open spec fn is_interfaces_added(s: Signal) -> bool {
    &&& s.member@ == "InterfacesAdded"@
    &&& s.items@.len() >= 2
    &&& s.items@[0] is Str
    &&& s.items@[1] is Array
}

/// The object path a well-shaped `InterfacesAdded` signal names.
pub open spec fn added_path(s: Signal) -> Seq<char> {
    s.items@[0]->Str_0@
}

/// How many interface entries of a well-shaped `InterfacesAdded` signal
/// name the device interface.
pub open spec fn device_entry_count(s: Signal) -> nat {
    iface_matches(s.items@[1]->Array_0@, "org.bluez.Device1"@)
}

/// The owned value of an optional borrowed signal.
pub open spec fn view_sig(signal: Option<&Signal>) -> Option<Signal> {
    match signal {
        Some(s) => Some(*s),
        None => None,
    }
}

/// How many devices one event reports to the session on `adapter_path`:
/// one per device-interface entry of a well-shaped `InterfacesAdded`
/// signal whose path hangs directly under the adapter, and none otherwise.
/// A device signaled under a different adapter is silently ignored.
pub open spec fn reported_count(signal: Option<Signal>, adapter_path: Seq<char>) -> nat {
    match signal {
        Some(s) => if is_interfaces_added(s) && parent_path(added_path(s)) == adapter_path {
            device_entry_count(s)
        } else {
            0
        },
        None => 0,
    }
}

/// The path of the devices one event reports, when it reports any.
pub open spec fn reported_path(signal: Option<Signal>) -> Seq<char> {
    match signal {
        Some(s) => if is_interfaces_added(s) {
            added_path(s)
        } else {
            Seq::empty()
        },
        None => Seq::empty(),
    }
}

/// How a session that observed no stop signal treats elapsed time: a
/// positive duration bound is met once the elapsed seconds reach it, and
/// a bound of zero is never met — such a session is unbounded.
pub open spec fn timed_out(duration_secs: u32, elapsed_secs: u64) -> bool {
    duration_secs > 0 && elapsed_secs >= duration_secs as u64
}

/// The terminal state a session reaches through discovery ending of
/// itself or through its duration bound elapsing.
#[derive(Clone, Copy, Debug, PartialEq, Eq, Structural)]
pub enum SessionOutcome {
    /// The adapter itself stopped discovering: a normal terminal state,
    /// not an error.
    AdapterStopped,
    /// The duration bound elapsed.
    TimedOut,
}

/// What the caller driving the session must do after one step.
#[derive(Clone, Copy, Debug, PartialEq, Eq, Structural)]
pub enum SessionDirective {
    /// Keep polling the signal stream.
    Continue,
    /// The duration bound elapsed: issue the stop-discovery call, then
    /// unregister both filters; the session is over.
    StopDiscovery,
    /// The adapter stopped discovering: unregister both filters; the
    /// session is over.
    Finish,
}

/// The result of one step of the session: the devices to report to the
/// caller's callback, in signal order, and what to do next.
#[derive(Debug)]
pub struct SessionStep {
    pub found: Vec<Device>,
    pub directive: SessionDirective,
}

/// The state of one discovery session: the adapter it is scoped to, its
/// duration bound in seconds (zero meaning unbounded), whether its two
/// subscription filters are currently registered, and its terminal
/// outcome once one is reached.
#[derive(Debug)]
pub struct DiscoverySession {
    pub adapter: Adapter,
    pub duration_secs: u32,
    pub subscribed: bool,
    pub outcome: Option<SessionOutcome>,
}

/// The terminal outcome, if any, that one event moves a running session
/// to: the adapter's own stop signal ends it, otherwise an elapsed
/// duration bound does, otherwise it keeps running.
pub open spec fn next_outcome(
    s: DiscoverySession,
    signal: Option<Signal>,
    elapsed_secs: u64,
) -> Option<SessionOutcome> {
    if signal matches Some(g) && is_adapter_stop_signal(g, s.adapter.object_path@) {
        Some(SessionOutcome::AdapterStopped)
    } else if timed_out(s.duration_secs, elapsed_secs) {
        Some(SessionOutcome::TimedOut)
    } else {
        None
    }
}

/// The directive one event earns: the stop signal finishes the session at
/// once, an elapsed duration bound asks for the stop-discovery call, and
/// anything else continues the loop.
pub open spec fn next_directive(
    s: DiscoverySession,
    signal: Option<Signal>,
    elapsed_secs: u64,
) -> SessionDirective {
    if signal matches Some(g) && is_adapter_stop_signal(g, s.adapter.object_path@) {
        SessionDirective::Finish
    } else if timed_out(s.duration_secs, elapsed_secs) {
        SessionDirective::StopDiscovery
    } else {
        SessionDirective::Continue
    }
}

impl DiscoverySession {
    /// Opens a session scoped to `adapter` with the given duration bound
    /// in seconds; zero means unbounded.  The session starts with no
    /// filters registered and no outcome.
    pub fn new(adapter: &Adapter, duration_secs: u32) -> (s: Self)
        ensures
            s.adapter.conn == adapter.conn,
            s.adapter.object_path@ == adapter.object_path@,
            s.duration_secs == duration_secs,
            !s.subscribed,
            s.outcome is None,
    {
        DiscoverySession {
            adapter: Adapter::new(&adapter.conn, adapter.object_path.as_str()),
            duration_secs,
            subscribed: false,
            outcome: None,
        }
    }

    /// Records that both subscription filters were registered.  Only a
    /// fresh session registers them, and only once.
    pub fn note_subscribed(&mut self)
        requires
            !old(self).subscribed,
            old(self).outcome is None,
        ensures
            final(self).subscribed,
            final(self).adapter == old(self).adapter,
            final(self).duration_secs == old(self).duration_secs,
            final(self).outcome == old(self).outcome,
    {
        self.subscribed = true;
    }

    /// Records that both subscription filters were unregistered.  The
    /// filters must currently be registered: a session's filters are
    /// unregistered exactly once, whichever way it ends.
    pub fn note_unsubscribed(&mut self)
        requires
            old(self).subscribed,
        ensures
            !final(self).subscribed,
            final(self).adapter == old(self).adapter,
            final(self).duration_secs == old(self).duration_secs,
            final(self).outcome == old(self).outcome,
    {
        self.subscribed = false;
    }

    /// Classifies one event of the live stream — a signal, or an idle
    /// poll — against this running session.
    ///
    /// The adapter's own stop signal finishes the session at once.  A
    /// well-shaped `InterfacesAdded` signal naming the device interface
    /// under this session's adapter yields one device handle per matching
    /// interface entry; a device under a different adapter is ignored.
    /// Then, with no stop signal observed, a met duration bound times the
    /// session out; a bound of zero never does.
    pub fn on_event(&mut self, signal: Option<&Signal>, elapsed_secs: u64) -> (step: SessionStep)
        requires
            old(self).subscribed,
            old(self).outcome is None,
        ensures
            final(self).adapter == old(self).adapter,
            final(self).duration_secs == old(self).duration_secs,
            final(self).subscribed,
            final(self).outcome == next_outcome(*old(self), view_sig(signal), elapsed_secs),
            step.directive == next_directive(*old(self), view_sig(signal), elapsed_secs),
            ({
                let sig = view_sig(signal);
                let apath = old(self).adapter.object_path@;
                if sig matches Some(g) && is_adapter_stop_signal(g, apath) {
                    step.found@.len() == 0
                } else {
                    &&& step.found@.len() == reported_count(sig, apath)
                    &&& forall|k: int|
                        0 <= k < step.found@.len() ==> (#[trigger] step.found@[k]).conn == old(
                            self,
                        ).adapter.conn && step.found@[k].object_path@ == reported_path(sig)
                }
            }),
    {
        let mut found: Vec<Device> = Vec::new();
        let mut stop_hit = false;
        if let Some(s) = signal {
            if str_eq(s.member.as_str(), "PropertiesChanged") && str_eq(
                s.path.as_str(),
                self.adapter.object_path.as_str(),
            ) {
                proof {
                    reveal_strlit("PropertiesChanged");
                    reveal_strlit("InterfacesAdded");
                    assert(s.member@ == "PropertiesChanged"@);
                    assert("PropertiesChanged"@.len() != "InterfacesAdded"@.len());
                    assert(s.member@ != "InterfacesAdded"@);
                    assert(!is_interfaces_added(*s));
                }
                if s.items.len() >= 2 {
                    let iface_ok = match &s.items[0] {
                        BusValue::Str(n) => str_eq(n.as_str(), "org.bluez.Adapter1"),
                        _ => false,
                    };
                    if iface_ok {
                        if let BusValue::Array(props) = &s.items[1] {
                            let mut j: usize = 0;
                            while j < props.len()
                                invariant
                                    j <= props@.len(),
                                    stop_hit == exists|k: int|
                                        0 <= k < j && discovering_false_entry(
                                            #[trigger] props@[k],
                                        ),
                                decreases props@.len() - j,
                            {
                                let hit = match &props[j] {
                                    BusValue::DictEntry(n, v) => {
                                        if str_eq(n.as_str(), "Discovering") {
                                            match &**v {
                                                BusValue::Bool(b) => !*b,
                                                _ => false,
                                            }
                                        } else {
                                            false
                                        }
                                    },
                                    _ => false,
                                };
                                if hit {
                                    assert(discovering_false_entry(props@[j as int]));
                                    stop_hit = true;
                                } else {
                                    assert(!discovering_false_entry(props@[j as int]));
                                }
                                j = j + 1;
                            }
                            proof {
                                if stop_hit {
                                    assert(discovering_false(props@));
                                    assert(is_adapter_stop_signal(*s, self.adapter.object_path@));
                                } else {
                                    assert(!discovering_false(props@));
                                }
                            }
                        }
                    }
                }
            } else if str_eq(s.member.as_str(), "InterfacesAdded") {
                if s.items.len() >= 2 {
                    let signaled = match &s.items[0] {
                        BusValue::Str(p) => Some(p),
                        _ => None,
                    };
                    if let Some(p) = signaled {
                        if let BusValue::Array(ifaces) = &s.items[1] {
                            let parent = parent_object_path(p.as_str());
                            let ours = str_eq(parent.as_str(), self.adapter.object_path.as_str());
                            let conn = self.adapter.conn;
                            let mut j: usize = 0;
                            assert(ifaces@.subrange(0, 0) =~= Seq::<BusValue>::empty());
                            while j < ifaces.len()
                                invariant
                                    j <= ifaces@.len(),
                                    conn == self.adapter.conn,
                                    found@.len() == (if ours {
                                        iface_matches(
                                            ifaces@.subrange(0, j as int),
                                            "org.bluez.Device1"@,
                                        )
                                    } else {
                                        0nat
                                    }),
                                    forall|k: int|
                                        0 <= k < found@.len() ==> (#[trigger] found@[k]).conn
                                            == conn && found@[k].object_path@ == p@,
                                decreases ifaces@.len() - j,
                            {
                                let ghost pre = ifaces@.subrange(0, j as int);
                                let is_dev = match &ifaces[j] {
                                    BusValue::DictEntry(n, _) => str_eq(
                                        n.as_str(),
                                        "org.bluez.Device1",
                                    ),
                                    _ => false,
                                };
                                proof {
                                    assert(ifaces@.subrange(0, j + 1 as int).drop_last()
                                        =~= pre);
                                    assert(ifaces@.subrange(0, j + 1 as int).last() == ifaces@[
                                        j as int
                                    ]);
                                }
                                if is_dev && ours {
                                    found.push(Device::new(&conn, p.as_str()));
                                }
                                j = j + 1;
                            }
                            proof {
                                assert(ifaces@.subrange(0, ifaces@.len() as int) =~= ifaces@);
                                let sig = view_sig(signal);
                                assert(is_interfaces_added(*s));
                                assert(added_path(*s) == p@);
                                assert(device_entry_count(*s) == iface_matches(
                                    ifaces@,
                                    "org.bluez.Device1"@,
                                ));
                                assert(ours == (parent_path(added_path(*s))
                                    == self.adapter.object_path@));
                                assert(found@.len() == reported_count(
                                    sig,
                                    self.adapter.object_path@,
                                ));
                            }
                        }
                    }
                }
            } else {
                proof {
                    assert(!is_interfaces_added(*s));
                }
            }
        }
        if stop_hit {
            self.outcome = Some(SessionOutcome::AdapterStopped);
            return SessionStep { found, directive: SessionDirective::Finish };
        }
        if self.duration_secs > 0 && elapsed_secs >= self.duration_secs as u64 {
            self.outcome = Some(SessionOutcome::TimedOut);
            return SessionStep { found, directive: SessionDirective::StopDiscovery };
        }
        SessionStep { found, directive: SessionDirective::Continue }
    }
}

/// Whether one event of a session's stream carries the adapter's stop
/// signal.
pub open spec fn stop_signal_event(e: (Option<Signal>, u64), adapter_path: Seq<char>) -> bool {
    e.0 matches Some(g) && is_adapter_stop_signal(g, adapter_path)
}

/// The terminal outcome a running session reaches over a whole stream of
/// events, each an optional signal with the elapsed seconds at which it
/// was handled: the outcome of the first terminal step, and none when no
/// step terminates.
pub open spec fn run_outcome(
    s: DiscoverySession,
    events: Seq<(Option<Signal>, u64)>,
) -> Option<SessionOutcome>
    decreases events.len(),
{
    if events.len() == 0 {
        None
    } else {
        let o = next_outcome(s, events[0].0, events[0].1);
        if o is Some {
            o
        } else {
            run_outcome(s, events.subrange(1, events.len() as int))
        }
    }
}

/// A session with duration bound zero never self-terminates on elapsed
/// time alone: one step without the adapter's stop signal leaves it
/// running however much time has elapsed, and only that signal ends it.
pub proof fn lemma_unbounded_session_only_stops_on_signal(
    s: DiscoverySession,
    signal: Option<Signal>,
    elapsed_secs: u64,
)
    requires
        s.duration_secs == 0,
    ensures
        next_outcome(s, signal, elapsed_secs) != Some(SessionOutcome::TimedOut),
        next_directive(s, signal, elapsed_secs) != SessionDirective::StopDiscovery,
        (next_outcome(s, signal, elapsed_secs) is Some <==> (signal matches Some(g)
            && is_adapter_stop_signal(g, s.adapter.object_path@))),
{
}

/// A session with duration bound zero never self-terminates over a whole
/// stream of events that carries no stop signal: it is still running
/// after every one of them.
pub proof fn lemma_unbounded_run_never_self_terminates(
    s: DiscoverySession,
    events: Seq<(Option<Signal>, u64)>,
)
    requires
        s.duration_secs == 0,
        forall|i: int|
            0 <= i < events.len() ==> !stop_signal_event(#[trigger] events[i], s.adapter.object_path@),
    ensures
        run_outcome(s, events) is None,
    decreases events.len(),
{
    if events.len() > 0 {
        assert(!stop_signal_event(events[0], s.adapter.object_path@));
        let tail = events.subrange(1, events.len() as int);
        assert forall|i: int| 0 <= i < tail.len() implies !stop_signal_event(
            #[trigger] tail[i],
            s.adapter.object_path@,
        ) by {
            assert(tail[i] == events[i + 1]);
        }
        lemma_unbounded_run_never_self_terminates(s, tail);
    }
}

/// A session with a positive duration bound that never observes the stop
/// signal terminates at the first step handled at or past the bound: that
/// step times the session out and directs the caller to issue the
/// stop-discovery call.
pub proof fn lemma_bounded_session_times_out(
    s: DiscoverySession,
    signal: Option<Signal>,
    elapsed_secs: u64,
)
    requires
        s.duration_secs > 0,
        elapsed_secs >= s.duration_secs as u64,
        !(signal matches Some(g) && is_adapter_stop_signal(g, s.adapter.object_path@)),
    ensures
        next_outcome(s, signal, elapsed_secs) == Some(SessionOutcome::TimedOut),
        next_directive(s, signal, elapsed_secs) == SessionDirective::StopDiscovery,
{
}

/// A session with a positive duration bound, driven over a stream that
/// carries no stop signal but reaches the bound, terminates with a
/// timeout.
pub proof fn lemma_bounded_run_times_out(
    s: DiscoverySession,
    events: Seq<(Option<Signal>, u64)>,
)
    requires
        s.duration_secs > 0,
        forall|i: int|
            0 <= i < events.len() ==> !stop_signal_event(#[trigger] events[i], s.adapter.object_path@),
        exists|i: int| 0 <= i < events.len() && (#[trigger] events[i]).1 >= s.duration_secs as u64,
    ensures
        run_outcome(s, events) == Some(SessionOutcome::TimedOut),
    decreases events.len(),
{
    assert(!stop_signal_event(events[0], s.adapter.object_path@));
    if timed_out(s.duration_secs, events[0].1) {
    } else {
        let w = choose|i: int|
            0 <= i < events.len() && (#[trigger] events[i]).1 >= s.duration_secs as u64;
        assert(w != 0);
        let tail = events.subrange(1, events.len() as int);
        assert forall|i: int| 0 <= i < tail.len() implies !stop_signal_event(
            #[trigger] tail[i],
            s.adapter.object_path@,
        ) by {
            assert(tail[i] == events[i + 1]);
        }
        assert(tail[w - 1] == events[w]);
        assert(0 <= w - 1 < tail.len() && tail[w - 1].1 >= s.duration_secs as u64);
        lemma_bounded_run_times_out(s, tail);
    }
}

} // verus!
