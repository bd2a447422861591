//! The message pump: decisions, a verified driver over a scripted event
//! sequence, and the session lifecycle proofs.
//!
//! The real pump blocks on the host's retrieval call; here its decision for
//! each retrieval outcome is [`pump_decision`], and [`run_session`] drives
//! the dispatch machine over a sequence of already-decoded events the way
//! the pump would: one at a time, stopping once the quit signal is posted.

use vstd::prelude::*;

use crate::dispatch::event_permitted;
use crate::dispatch::step;
use crate::dispatch::AssociationSlot;
use crate::dispatch::EventMachine;
use crate::dispatch::MachineModel;
use crate::dispatch::StateCarrier;
use crate::dispatch::WindowEvent;

verus! {

/// What the pump does with one outcome of the host's message retrieval.
#[derive(Debug, Clone, Copy, PartialEq, Eq, Structural)]
pub enum PumpStep {
    /// The quit signal was retrieved: leave the loop.
    Terminate,
    /// Retrieval reported an error: fatal, abort with the current
    /// diagnostic.
    Fatal,
    /// An ordinary message: translate it and dispatch it.
    Dispatch,
}

/// The pump's decision for the host retrieval call's return value: zero is
/// the quit signal, the error sentinel is fatal, anything else is a message
/// to dispatch.
pub fn pump_decision(retrieval: i32) -> (s: PumpStep)
    ensures
        s == (if retrieval == 0 {
            PumpStep::Terminate
        } else if retrieval == -1 {
            PumpStep::Fatal
        } else {
            PumpStep::Dispatch
        }),
{
    if retrieval == 0 {
        PumpStep::Terminate
    } else if retrieval == -1 {
        PumpStep::Fatal
    } else {
        PumpStep::Dispatch
    }
}

/// The machine state after a sequence of events, dispatched in order.
pub open spec fn run_model(m: MachineModel, window: usize, es: Seq<WindowEvent>) -> MachineModel
    decreases es.len(),
{
    if es.len() == 0 {
        m
    } else {
        run_model(step(m, window, es[0]), window, es.skip(1))
    }
}

/// Running one more event steps the state reached by the events before it.
pub proof fn lemma_run_model_push(m: MachineModel, window: usize, es: Seq<WindowEvent>, e: WindowEvent)
    ensures
        run_model(m, window, es.push(e)) == step(run_model(m, window, es), window, e),
    decreases es.len(),
{
    if es.len() == 0 {
        assert(es.push(e).len() == 1);
        assert(es.push(e)[0] == e);
        assert(es.push(e).skip(1) =~= Seq::<WindowEvent>::empty());
        assert(run_model(m, window, es.push(e)) == run_model(
            step(m, window, e),
            window,
            Seq::<WindowEvent>::empty(),
        ));
        assert(run_model(step(m, window, e), window, Seq::<WindowEvent>::empty()) == step(
            m,
            window,
            e,
        ));
        assert(run_model(m, window, es) == m);
    } else {
        assert(es.push(e)[0] == es[0]);
        assert(es.push(e).skip(1) =~= es.skip(1).push(e));
        assert(run_model(m, window, es.push(e)) == run_model(
            step(m, window, es[0]),
            window,
            es.skip(1).push(e),
        ));
        lemma_run_model_push(step(m, window, es[0]), window, es.skip(1), e);
        assert(run_model(m, window, es) == run_model(step(m, window, es[0]), window, es.skip(1)));
    }
}

/// Every event of the sequence meets the dispatch entry point's demands in
/// the state the events before it have reached.
pub open spec fn session_permitted(m: MachineModel, window: usize, es: Seq<WindowEvent>) -> bool {
    forall|i: int|
        0 <= i < es.len() ==> event_permitted(
            run_model(m, window, es.take(i)),
            window,
            #[trigger] es[i],
        )
}

/// Drive the machine over a scripted event sequence the way the pump
/// routes retrieved messages: in order, one dispatch per event, stopping
/// once the quit signal is posted.  Returns how many events were consumed;
/// the machine ends in exactly the state the consumed prefix produces, and
/// the quit signal was not posted before any consumed event.
pub fn run_session(machine: &mut EventMachine, window: usize, events: &Vec<WindowEvent>) -> (n:
    usize)
    requires
        session_permitted(old(machine)@, window, events@),
    ensures
        n <= events@.len(),
        final(machine)@ == run_model(old(machine)@, window, events@.take(n as int)),
        forall|j: int|
            0 <= j < n ==> !run_model(old(machine)@, window, #[trigger] events@.take(j)).quit_posted,
        n < events@.len() ==> final(machine)@.quit_posted,
{
    let ghost m0 = machine@;
    let mut i: usize = 0;
    proof {
        assert(events@.take(0) =~= Seq::<WindowEvent>::empty());
    }
    while i < events.len() && !machine.quit_posted
        invariant
            i <= events@.len(),
            session_permitted(m0, window, events@),
            machine@ == run_model(m0, window, events@.take(i as int)),
            forall|j: int| 0 <= j < i ==> !run_model(m0, window, #[trigger] events@.take(j)).quit_posted,
        decreases events@.len() - i,
    {
        let e = events[i];
        proof {
            assert(event_permitted(run_model(m0, window, events@.take(i as int)), window, events@[i as int]));
        }
        machine.dispatch(window, e);
        proof {
            assert(events@.take(i + 1) =~= events@.take(i as int).push(e));
            lemma_run_model_push(m0, window, events@.take(i as int), e);
        }
        i = i + 1;
    }
    i
}

/// Dispatch pairs every paint-context acquisition with its release: no run
/// of events, whatever they are, changes the balance between the two.
pub proof fn lemma_run_keeps_contexts_balanced(
    m: MachineModel,
    window: usize,
    es: Seq<WindowEvent>,
)
    ensures
        run_model(m, window, es).contexts_acquired - run_model(m, window, es).contexts_released
            == m.contexts_acquired - m.contexts_released,
    decreases es.len(),
{
    if es.len() > 0 {
        lemma_run_keeps_contexts_balanced(step(m, window, es[0]), window, es.skip(1));
    }
}

/// An event the host may deliver between creation and destruction without
/// touching the carrier protocol: a paint, a close request, a plain
/// creation notice, or anything unrecognised.
pub open spec fn interior_event(e: WindowEvent) -> bool {
    ||| e is PaintRequest
    ||| e is CloseRequest
    ||| e is CreateNotice
    ||| e is Unrecognized
}

/// A whole window lifetime as the dispatch protocol expects it: first the
/// structural-creation notification carrying the payload, then interior
/// events only, and last the destroy notification.
pub open spec fn canonical_session(es: Seq<WindowEvent>) -> bool {
    &&& es.len() >= 2
    &&& (es[0] matches WindowEvent::CreationNotice { payload } && payload is Some)
    &&& es[es.len() - 1] is DestroyNotification
    &&& forall|i: int| 0 < i < es.len() - 1 ==> interior_event(#[trigger] es[i])
}

/// Through the interior of a canonical session the carrier stays attached
/// under the window's handle and no quit signal is posted.
proof fn lemma_interior_attached(m: MachineModel, window: usize, es: Seq<WindowEvent>, i: int)
    requires
        m.slot is Unattached,
        !m.quit_posted,
        canonical_session(es),
        0 < i <= es.len() - 1,
    ensures
        run_model(m, window, es.take(i)).slot matches AssociationSlot::Attached { window: w, .. }
            && w == window,
        !run_model(m, window, es.take(i)).quit_posted,
    decreases i,
{
    if i == 1 {
        assert(es.take(1) =~= es.take(0).push(es[0]));
        assert(es.take(0) =~= Seq::<WindowEvent>::empty());
        lemma_run_model_push(m, window, es.take(0), es[0]);
    } else {
        lemma_interior_attached(m, window, es, i - 1);
        assert(es.take(i) =~= es.take(i - 1).push(es[i - 1]));
        lemma_run_model_push(m, window, es.take(i - 1), es[i - 1]);
        assert(interior_event(es[i - 1]));
    }
}

/// The carrier of a canonical session is attached exactly once, stays
/// attached through the interior, and is freed exactly once, by the final
/// destroy notification; the quit signal is posted at that point and not
/// before.  In particular every event meets the dispatch entry point's
/// demands, so no event ever reads the carrier before attachment or after
/// the free.
pub proof fn lemma_session_lifecycle(m: MachineModel, window: usize, es: Seq<WindowEvent>)
    requires
        m.slot is Unattached,
        !m.quit_posted,
        canonical_session(es),
    ensures
        session_permitted(m, window, es),
        run_model(m, window, es).slot is Freed,
        run_model(m, window, es).quit_posted,
        forall|i: int|
            0 <= i < es.len() ==> !run_model(m, window, #[trigger] es.take(i)).quit_posted,
        forall|i: int|
            0 < i < es.len() ==> (run_model(
                m,
                window,
                #[trigger] es.take(i),
            ).slot matches AssociationSlot::Attached { window: w, .. } && w == window),
{
    let len = es.len() as int;
    assert forall|i: int| 0 < i < len implies (run_model(
        m,
        window,
        #[trigger] es.take(i),
    ).slot matches AssociationSlot::Attached { window: w, .. } && w == window) && !run_model(
        m,
        window,
        es.take(i),
    ).quit_posted by {
        lemma_interior_attached(m, window, es, i);
    }
    assert(es.take(0) =~= Seq::<WindowEvent>::empty());
    assert forall|i: int| 0 <= i < len implies event_permitted(
        run_model(m, window, es.take(i)),
        window,
        #[trigger] es[i],
    ) by {
        if 0 < i < len - 1 {
            assert(interior_event(es[i]));
        }
    }
    assert(es.take(len) =~= es);
    assert(es.take(len) =~= es.take(len - 1).push(es[len - 1]));
    lemma_run_model_push(m, window, es.take(len - 1), es[len - 1]);
    lemma_interior_attached(m, window, es, len - 1);
}

/// How many paint requests a sequence holds.
pub open spec fn paint_count(es: Seq<WindowEvent>) -> int
    decreases es.len(),
{
    if es.len() == 0 {
        0
    } else {
        (if es[0] is PaintRequest {
            1int
        } else {
            0int
        }) + paint_count(es.skip(1))
    }
}

/// Counting paints distributes over appending one event.
pub proof fn lemma_paint_count_push(es: Seq<WindowEvent>, e: WindowEvent)
    ensures
        paint_count(es.push(e)) == paint_count(es) + (if e is PaintRequest {
            1int
        } else {
            0int
        }),
    decreases es.len(),
{
    if es.len() == 0 {
        assert(es.push(e).len() == 1);
        assert(es.push(e)[0] == e);
        assert(es.push(e).skip(1) =~= Seq::<WindowEvent>::empty());
        assert(paint_count(es.push(e)) == (if e is PaintRequest {
            1int
        } else {
            0int
        }) + paint_count(Seq::<WindowEvent>::empty()));
        assert(paint_count(Seq::<WindowEvent>::empty()) == 0);
        assert(paint_count(es) == 0);
    } else {
        assert(es.push(e)[0] == es[0]);
        assert(es.push(e).skip(1) =~= es.skip(1).push(e));
        assert(paint_count(es.push(e)) == (if es[0] is PaintRequest {
            1int
        } else {
            0int
        }) + paint_count(es.skip(1).push(e)));
        lemma_paint_count_push(es.skip(1), e);
        assert(paint_count(es) == (if es[0] is PaintRequest {
            1int
        } else {
            0int
        }) + paint_count(es.skip(1)));
    }
}

/// A close request followed eventually by the destroy notification makes the
/// pump terminate after, not before, the carrier is freed: destruction is on
/// the books once the close is dispatched, the quit signal that ends the
/// pump is not posted before the final destroy notification, and when it is
/// posted the carrier is already freed.
pub proof fn lemma_close_then_destroy_terminates_after_free(
    m: MachineModel,
    window: usize,
    es: Seq<WindowEvent>,
    k: int,
)
    requires
        m.slot is Unattached,
        !m.quit_posted,
        canonical_session(es),
        0 < k < es.len() - 1,
        es[k] is CloseRequest,
    ensures
        run_model(m, window, es.take(k + 1)).destroy_requested,
        !run_model(m, window, es.take(k + 1)).quit_posted,
        forall|i: int|
            0 <= i < es.len() ==> !run_model(m, window, #[trigger] es.take(i)).quit_posted,
        run_model(m, window, es).quit_posted,
        run_model(m, window, es).slot is Freed,
{
    lemma_session_lifecycle(m, window, es);
    assert(es.take(k + 1) =~= es.take(k).push(es[k]));
    lemma_run_model_push(m, window, es.take(k), es[k]);
}

/// The payload the session's creation notification carries (meaningful only
/// for a canonical session).
pub open spec fn session_payload(es: Seq<WindowEvent>) -> StateCarrier {
    match es[0] {
        WindowEvent::CreationNotice { payload: Some(c) } => c,
        _ => StateCarrier { counter: 0 },
    }
}

/// Through the interior of a canonical session the carrier's counter is the
/// payload's initial value plus one for each paint request so far, as long
/// as that sum stays in range.
pub proof fn lemma_counter_tracks_paints(
    m: MachineModel,
    window: usize,
    es: Seq<WindowEvent>,
    i: int,
)
    requires
        m.slot is Unattached,
        !m.quit_posted,
        canonical_session(es),
        session_payload(es).counter + paint_count(es.take(i)) <= i32::MAX,
        0 < i <= es.len() - 1,
    ensures
        run_model(m, window, es.take(i)).slot == (AssociationSlot::Attached {
            window,
            carrier: StateCarrier {
                counter: (session_payload(es).counter + paint_count(es.take(i))) as i32,
            },
        }),
    decreases i,
{
    let c0 = session_payload(es);
    lemma_paint_count_nonneg(es.take(i));
    if i == 1 {
        assert(es.take(1) =~= es.take(0).push(es[0]));
        assert(es.take(0) =~= Seq::<WindowEvent>::empty());
        lemma_run_model_push(m, window, es.take(0), es[0]);
        lemma_paint_count_push(es.take(0), es[0]);
        assert(paint_count(Seq::<WindowEvent>::empty()) == 0);
        assert(run_model(m, window, es.take(0)) == m);
        assert(run_model(m, window, es.take(1)) == step(m, window, es[0]));
        assert(paint_count(es.take(1)) == 0);
    } else {
        let e = es[i - 1];
        assert(interior_event(e));
        assert(es.take(i) =~= es.take(i - 1).push(e));
        lemma_paint_count_push(es.take(i - 1), e);
        lemma_paint_count_nonneg(es.take(i - 1));
        lemma_counter_tracks_paints(m, window, es, i - 1);
        lemma_run_model_push(m, window, es.take(i - 1), e);
        let prev = run_model(m, window, es.take(i - 1));
        let cur = run_model(m, window, es.take(i));
        assert(cur == step(prev, window, e));
        if e is PaintRequest {
            assert(paint_count(es.take(i)) == paint_count(es.take(i - 1)) + 1);
            assert(prev.slot == (AssociationSlot::Attached {
                window,
                carrier: StateCarrier {
                    counter: (c0.counter + paint_count(es.take(i - 1))) as i32,
                },
            }));
            assert(c0.counter + paint_count(es.take(i - 1)) < i32::MAX);
        } else {
            assert(paint_count(es.take(i)) == paint_count(es.take(i - 1)));
        }
    }
}

/// A sequence never holds a negative number of paint requests.
pub proof fn lemma_paint_count_nonneg(es: Seq<WindowEvent>)
    ensures
        paint_count(es) >= 0,
    decreases es.len(),
{
    if es.len() > 0 {
        lemma_paint_count_nonneg(es.skip(1));
    }
}

} // verus!
