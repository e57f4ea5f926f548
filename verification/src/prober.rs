//! The prober's logic: send one probe to the limited-broadcast address, then
//! collect replies until the first empty receive after the window's deadline.
//! Each receive outcome is an event; the decision on each event is a pure
//! step, and the collection run as a whole is modelled over event sequences,
//! so the window's bound and the completeness of the reports are theorems.

use vstd::prelude::*;

use crate::endpoint::Endpoint;
use crate::protocol::RESPONDER_PORT;

verus! {

/// How long the prober collects replies after sending its probe, in
/// milliseconds.
pub const COLLECTION_WINDOW_MS: u64 = 5000;

/// One outcome of a receive attempt during the collection window.
#[derive(Debug)]
pub enum ProbeEvent {
    /// A datagram arrived from `sender` carrying `data`.
    Reply { sender: Endpoint, data: Vec<u8> },
    /// The attempt found no data within its bounded wait; `elapsed_ms` is
    /// the time since the window opened.
    NoData { elapsed_ms: u64 },
    /// The attempt failed with a genuine transport error.
    Failure,
}

/// What the prober does in reaction to one event.
#[derive(Debug)]
pub enum ProbeAction {
    /// Report this reply — its sender and its leniently decoded text — and
    /// keep collecting.
    Report { sender: Endpoint, text: String },
    /// Nothing arrived but the window is still open: keep waiting.
    KeepWaiting,
    /// The window has closed: stop collecting and complete normally.
    Finish,
    /// A fatal transport error: stop and propagate it.
    Abort,
}

/// The text that lenient decoding yields for a byte payload.
pub uninterp spec fn lossy_decode(bytes: Seq<u8>) -> Seq<char>;

/// Relies on String::from_utf8_lossy: the decoded text depends on the bytes
/// alone, and invalid sequences are replaced, never rejected, so decoding
/// cannot fail; an empty payload decodes to empty text.
#[verifier::external_body]
fn decode_lossy(bytes: &[u8]) -> (r: String)
    ensures
        r@ == lossy_decode(bytes@),
        bytes@.len() == 0 ==> r@.len() == 0,
{
    String::from_utf8_lossy(bytes).into_owned()
}

/// Whether this event closes the collection window: a fatal failure, or an
/// empty receive whose elapsed time has passed the deadline.
pub open spec fn ends_collection(e: ProbeEvent) -> bool {
    match e {
        ProbeEvent::Reply { .. } => false,
        ProbeEvent::NoData { elapsed_ms } => elapsed_ms > COLLECTION_WINDOW_MS,
        ProbeEvent::Failure => true,
    }
}

/// The action owed to one event: every reply still inside the window is
/// reported with its sender and its lenient decoding; an empty receive
/// keeps waiting inside the window and finishes past it; a failure aborts.
pub open spec fn action_for(e: ProbeEvent, a: ProbeAction) -> bool {
    match e {
        ProbeEvent::Reply { sender, data } => a matches ProbeAction::Report {
            sender: s,
            text: t,
        } && s == sender && t@ == lossy_decode(data@),
        ProbeEvent::NoData { elapsed_ms } => if elapsed_ms > COLLECTION_WINDOW_MS {
            a is Finish
        } else {
            a is KeepWaiting
        },
        ProbeEvent::Failure => a is Abort,
    }
}

/// Decides the prober's reaction to one receive outcome.
pub fn prober_step(event: &ProbeEvent) -> (a: ProbeAction)
    ensures
        action_for(*event, a),
{
    match event {
        ProbeEvent::Reply { sender, data } => ProbeAction::Report {
            sender: *sender,
            text: decode_lossy(data.as_slice()),
        },
        ProbeEvent::NoData { elapsed_ms } => if *elapsed_ms > COLLECTION_WINDOW_MS {
            ProbeAction::Finish
        } else {
            ProbeAction::KeepWaiting
        },
        ProbeEvent::Failure => ProbeAction::Abort,
    }
}

/// A report the prober emits for one reply: the sender and the reply's
/// leniently decoded text.
#[derive(Debug)]
pub struct ProberReport {
    pub sender: Endpoint,
    pub text: String,
}

/// How a collection run over a finite event sequence ends.
#[derive(Clone, Copy, PartialEq, Eq, Structural, Debug)]
pub enum CollectionEnd {
    /// The window closed normally: an empty receive past the deadline.
    Completed,
    /// A fatal transport error cut the run short.
    Aborted,
    /// The event sequence ran out while the window was still open.
    Exhausted,
}

/// The contents of a report sequence, for stating contracts.
pub open spec fn report_views(reports: Seq<ProberReport>) -> Seq<(Endpoint, Seq<char>)> {
    reports.map_values(|p: ProberReport| (p.sender, p.text@))
}

/// How many events a collection run examines: everything up to and
/// including the first event that closes the window.
pub open spec fn processed_len(events: Seq<ProbeEvent>) -> nat
    decreases events.len(),
{
    if events.len() == 0 {
        0
    } else if ends_collection(events[0]) {
        1
    } else {
        1 + processed_len(events.drop_first())
    }
}

/// What a collection run reports: the sender and decoded text of every
/// reply that arrives before the window closes, in arrival order.
pub open spec fn reported(events: Seq<ProbeEvent>) -> Seq<(Endpoint, Seq<char>)>
    decreases events.len(),
{
    if events.len() == 0 {
        Seq::empty()
    } else if ends_collection(events[0]) {
        Seq::empty()
    } else {
        match events[0] {
            ProbeEvent::Reply { sender, data } => seq![(sender, lossy_decode(data@))] + reported(
                events.drop_first(),
            ),
            _ => reported(events.drop_first()),
        }
    }
}

/// How a run over this event sequence ends.
pub open spec fn run_end(events: Seq<ProbeEvent>) -> CollectionEnd
    decreases events.len(),
{
    if events.len() == 0 {
        CollectionEnd::Exhausted
    } else if events[0] is Failure {
        CollectionEnd::Aborted
    } else if ends_collection(events[0]) {
        CollectionEnd::Completed
    } else {
        run_end(events.drop_first())
    }
}

/// The decoded reports of every reply in an event sequence, in order,
/// regardless of any window — the yardstick the run is measured against.
pub open spec fn reply_reports(events: Seq<ProbeEvent>) -> Seq<(Endpoint, Seq<char>)>
    decreases events.len(),
{
    if events.len() == 0 {
        Seq::empty()
    } else {
        match events[0] {
            ProbeEvent::Reply { sender, data } => seq![(sender, lossy_decode(data@))]
                + reply_reports(events.drop_first()),
            _ => reply_reports(events.drop_first()),
        }
    }
}

/// Runs one collection window over a sequence of receive outcomes: one
/// step per event, stopping at the first event that closes the window.
/// Returns every report the run emitted, in order, and how the run ended.
pub fn collect_window(events: &Vec<ProbeEvent>) -> (r: (Vec<ProberReport>, CollectionEnd))
    ensures
        report_views(r.0@) == reported(events@),
        r.1 == run_end(events@),
{
    let mut out: Vec<ProberReport> = Vec::new();
    let mut i: usize = 0;
    proof {
        assert(events@.skip(0) =~= events@);
        assert(report_views(out@) =~= Seq::<(Endpoint, Seq<char>)>::empty());
    }
    while i < events.len()
        invariant
            0 <= i <= events@.len(),
            report_views(out@) + reported(events@.skip(i as int)) == reported(events@),
            run_end(events@.skip(i as int)) == run_end(events@),
        decreases events@.len() - i,
    {
        let ghost s = events@.skip(i as int);
        proof {
            assert(s.len() > 0);
            assert(s[0] == events@[i as int]);
            assert(s.drop_first() =~= events@.skip(i as int + 1));
        }
        let action = prober_step(&events[i]);
        match action {
            ProbeAction::Report { sender, text } => {
                let ghost prior = out@;
                out.push(ProberReport { sender, text });
                proof {
                    assert(report_views(out@) =~= report_views(prior) + seq![
                        (sender, lossy_decode(events@[i as int]->data@)),
                    ]);
                    assert(reported(s) =~= seq![(sender, lossy_decode(events@[i as int]->data@))]
                        + reported(events@.skip(i as int + 1)));
                }
            },
            ProbeAction::KeepWaiting => {
                proof {
                    assert(reported(s) =~= reported(events@.skip(i as int + 1)));
                }
            },
            ProbeAction::Finish => {
                proof {
                    assert(reported(s) =~= Seq::<(Endpoint, Seq<char>)>::empty());
                    assert(run_end(s) == CollectionEnd::Completed);
                }
                return (out, CollectionEnd::Completed);
            },
            ProbeAction::Abort => {
                proof {
                    assert(reported(s) =~= Seq::<(Endpoint, Seq<char>)>::empty());
                    assert(run_end(s) == CollectionEnd::Aborted);
                }
                return (out, CollectionEnd::Aborted);
            },
        }
        i += 1;
    }
    proof {
        assert(events@.skip(i as int) =~= Seq::<ProbeEvent>::empty());
    }
    (out, CollectionEnd::Exhausted)
}

/// Law: the collection run is bounded — it never looks past the first
/// event that closes the window, so a run whose receive attempts keep
/// coming back empty stops at the first attempt past the deadline, even
/// when no reply ever arrives.
pub proof fn lemma_collection_bounded(events: Seq<ProbeEvent>, i: int)
    requires
        0 <= i < events.len(),
        ends_collection(events[i]),
    ensures
        processed_len(events) <= i + 1,
    decreases i,
{
    if i > 0 && !ends_collection(events[0]) {
        lemma_collection_bounded(events.drop_first(), i - 1);
    }
}

/// Law: a run never examines more events than exist.
pub proof fn lemma_processed_within(events: Seq<ProbeEvent>)
    ensures
        processed_len(events) <= events.len(),
    decreases events.len(),
{
    if events.len() > 0 && !ends_collection(events[0]) {
        lemma_processed_within(events.drop_first());
    }
}

/// Law: a run reports exactly the replies received during its window — the
/// decoded reports of every reply among the events it examines, in arrival
/// order, one report per reply, with no deduplication and no omission.
pub proof fn lemma_every_reply_reported(events: Seq<ProbeEvent>)
    ensures
        reported(events) == reply_reports(events.take(processed_len(events) as int)),
    decreases events.len(),
{
    lemma_processed_within(events);
    if events.len() == 0 {
        assert(events.take(0) =~= Seq::<ProbeEvent>::empty());
    } else if ends_collection(events[0]) {
        let w = events.take(1);
        assert(w.len() == 1);
        assert(w[0] == events[0]);
        assert(!(w[0] is Reply));
        assert(w.drop_first() =~= Seq::<ProbeEvent>::empty());
        assert(reply_reports(w.drop_first()) =~= Seq::<(Endpoint, Seq<char>)>::empty());
        assert(reply_reports(w) == reply_reports(w.drop_first()));
    } else {
        let rest = events.drop_first();
        lemma_every_reply_reported(rest);
        let n = processed_len(events) as int;
        let w = events.take(n);
        assert(w.len() == n);
        assert(w[0] == events[0]);
        assert(w.drop_first() =~= rest.take(processed_len(rest) as int));
        assert(reply_reports(w) == (match w[0] {
            ProbeEvent::Reply { sender, data } => seq![(sender, lossy_decode(data@))]
                + reply_reports(w.drop_first()),
            _ => reply_reports(w.drop_first()),
        }));
    }
}

/// The endpoint the probe itself is sent to: the limited-broadcast address
/// at the responder's well-known port.
pub fn broadcast_target() -> (e: Endpoint)
    ensures
        e.ip == 0xFFFF_FFFFu32,
        e.port == RESPONDER_PORT,
{
    Endpoint { ip: 0xFFFF_FFFF, port: RESPONDER_PORT }
}

} // verus!
