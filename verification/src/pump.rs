//! The event pump's decision logic and its output model.
//!
//! The running pump repeatedly waits on four sources at once — the
//! cancellation signal, the raw input stream, the logic tick timer and the
//! render timer — and acts on whichever is ready first. Everything the pump
//! decides is here, as pure functions over plain data: the host that owns the
//! timers and the input stream feeds each wake-up into [`pump_step`] and
//! performs the returned action (stop, or push an event into the delivery
//! channel). [`pump_output`] is the model of a whole run: the event sequence
//! a pump emits for a given sequence of wake-ups, `Init` always first.

use vstd::prelude::*;

use crate::event::Event;
use crate::event::KeyEvent;
use crate::event::KeyKind;
use crate::event::RawEvent;

verus! {

/// What one poll of the raw input stream yielded: an item, a read failure,
/// or end of stream.
#[derive(Clone, Debug, PartialEq, Eq)]
pub enum Polled {
    Item(RawEvent),
    Failed,
    Closed,
}

/// The source that won one round of the pump's four-way wait.
#[derive(Clone, Debug, PartialEq, Eq)]
pub enum PumpWake {
    Cancelled,
    Input(Polled),
    TickElapsed,
    RenderElapsed,
}

/// What the pump does in response to one wake-up.
#[derive(Clone, Debug, PartialEq, Eq)]
pub enum PumpAction {
    Stop,
    Emit(Event),
    Continue,
}

/// The translation table for raw input: which consumer event a raw event
/// becomes, if any. Key events are forwarded only when their kind is a press;
/// repeats and releases are suppressed.
pub open spec fn translate_spec(raw: RawEvent) -> Option<Event> {
    match raw {
        RawEvent::Key(k) => if k.kind is Press {
            Some(Event::Key(k))
        } else {
            None
        },
        RawEvent::Mouse(m) => Some(Event::Mouse(m)),
        RawEvent::Resize(w, h) => Some(Event::Resize(w, h)),
        RawEvent::FocusLost => Some(Event::FocusLost),
        RawEvent::FocusGained => Some(Event::FocusGained),
        RawEvent::Paste(s) => Some(Event::Paste(s)),
    }
}

/// Translates one raw input event exactly as [`translate_spec`] says.
pub fn translate(raw: &RawEvent) -> (r: Option<Event>)
    ensures
        r == translate_spec(*raw),
{
    match raw {
        RawEvent::Key(k) => match k.kind {
            KeyKind::Press => Some(Event::Key(*k)),
            KeyKind::Repeat => None,
            KeyKind::Release => None,
        },
        RawEvent::Mouse(m) => Some(Event::Mouse(*m)),
        RawEvent::Resize(w, h) => Some(Event::Resize(*w, *h)),
        RawEvent::FocusLost => Some(Event::FocusLost),
        RawEvent::FocusGained => Some(Event::FocusGained),
        RawEvent::Paste(s) => Some(Event::Paste(s.clone())),
    }
}

/// What one wake-up makes the pump do: cancellation stops it; an input item
/// is translated; an input failure becomes an `Error` event; end of stream is
/// tolerated; an elapsed timer becomes its event.
pub open spec fn pump_step_spec(wake: PumpWake) -> PumpAction {
    match wake {
        PumpWake::Cancelled => PumpAction::Stop,
        PumpWake::Input(p) => match p {
            Polled::Item(raw) => match translate_spec(raw) {
                Some(e) => PumpAction::Emit(e),
                None => PumpAction::Continue,
            },
            Polled::Failed => PumpAction::Emit(Event::Error),
            Polled::Closed => PumpAction::Continue,
        },
        PumpWake::TickElapsed => PumpAction::Emit(Event::Tick),
        PumpWake::RenderElapsed => PumpAction::Emit(Event::Render),
    }
}

/// Decides one round of the pump loop, exactly as [`pump_step_spec`] says.
pub fn pump_step(wake: &PumpWake) -> (a: PumpAction)
    ensures
        a == pump_step_spec(*wake),
{
    match wake {
        PumpWake::Cancelled => PumpAction::Stop,
        PumpWake::Input(p) => match p {
            Polled::Item(raw) => match translate(raw) {
                Some(e) => PumpAction::Emit(e),
                None => PumpAction::Continue,
            },
            Polled::Failed => PumpAction::Emit(Event::Error),
            Polled::Closed => PumpAction::Continue,
        },
        PumpWake::TickElapsed => PumpAction::Emit(Event::Tick),
        PumpWake::RenderElapsed => PumpAction::Emit(Event::Render),
    }
}

/// The events the pump's loop emits for a sequence of wake-ups, in order,
/// cut short at the first cancellation.
pub open spec fn pump_emitted(wakes: Seq<PumpWake>) -> Seq<Event>
    decreases wakes.len(),
{
    if wakes.len() == 0 {
        Seq::empty()
    } else {
        match pump_step_spec(wakes[0]) {
            PumpAction::Stop => Seq::empty(),
            PumpAction::Emit(e) => seq![e] + pump_emitted(wakes.drop_first()),
            PumpAction::Continue => pump_emitted(wakes.drop_first()),
        }
    }
}

/// The full output of one pump run: `Init` once, then whatever the loop
/// emits for the wake-ups it sees before cancellation.
pub open spec fn pump_output(wakes: Seq<PumpWake>) -> Seq<Event> {
    seq![Event::Init] + pump_emitted(wakes)
}

/// No wake-up in the sequence is the cancellation signal.
pub open spec fn no_cancellation(wakes: Seq<PumpWake>) -> bool {
    forall|i: int| 0 <= i < wakes.len() ==> !(wakes[i] is Cancelled)
}

/// The key event inside an `Event::Key`.
pub open spec fn key_of(e: Event) -> KeyEvent
    recommends
        e is Key,
{
    match e {
        Event::Key(k) => k,
        _ => arbitrary(),
    }
}

/// The translation table, stated per raw variant: each raw input becomes
/// exactly the event of its row, and a key event survives exactly when its
/// kind is a press.
pub proof fn lemma_translation_table(raw: RawEvent)
    ensures
        raw matches RawEvent::Key(k) ==> translate_spec(raw) == (if k.kind is Press {
            Some(Event::Key(k))
        } else {
            None
        }),
        raw matches RawEvent::Mouse(m) ==> translate_spec(raw) == Some(Event::Mouse(m)),
        raw matches RawEvent::Resize(w, h) ==> translate_spec(raw) == Some(Event::Resize(w, h)),
        raw is FocusLost ==> translate_spec(raw) == Some(Event::FocusLost),
        raw is FocusGained ==> translate_spec(raw) == Some(Event::FocusGained),
        raw matches RawEvent::Paste(s) ==> translate_spec(raw) == Some(Event::Paste(s)),
{
}

/// What each wake-up source makes the pump do: only cancellation stops it,
/// an input failure is surfaced as a single `Error` event rather than a stop,
/// and the timers emit their events.
pub proof fn lemma_pump_step_table(wake: PumpWake)
    ensures
        pump_step_spec(wake) is Stop <==> wake is Cancelled,
        wake == PumpWake::Input(Polled::Failed) ==> pump_step_spec(wake) == PumpAction::Emit(
            Event::Error,
        ),
        wake == PumpWake::Input(Polled::Closed) ==> pump_step_spec(wake) is Continue,
        wake matches PumpWake::Input(Polled::Item(raw)) ==> pump_step_spec(wake) == (
        match translate_spec(raw) {
            Some(e) => PumpAction::Emit(e),
            None => PumpAction::Continue,
        }),
        wake is TickElapsed ==> pump_step_spec(wake) == PumpAction::Emit(Event::Tick),
        wake is RenderElapsed ==> pump_step_spec(wake) == PumpAction::Emit(Event::Render),
{
}

/// As long as no cancellation occurs, the pump's output is compositional:
/// the events of two consecutive stretches of wake-ups are the events of the
/// first followed by the events of the second. In particular a transient
/// input failure leaves the pump running: everything after it is still
/// delivered.
pub proof fn lemma_pump_emitted_append(s1: Seq<PumpWake>, s2: Seq<PumpWake>)
    requires
        no_cancellation(s1),
    ensures
        pump_emitted(s1 + s2) == pump_emitted(s1) + pump_emitted(s2),
    decreases s1.len(),
{
    if s1.len() == 0 {
        assert(s1 + s2 =~= s2);
        assert(pump_emitted(s1) + pump_emitted(s2) =~= pump_emitted(s2));
    } else {
        let rest = s1.drop_first();
        assert((s1 + s2)[0] == s1[0]);
        assert((s1 + s2).drop_first() =~= rest + s2);
        assert(no_cancellation(rest)) by {
            assert forall|i: int| 0 <= i < rest.len() implies !(rest[i] is Cancelled) by {
                assert(rest[i] == s1[i + 1]);
            }
        }
        lemma_pump_emitted_append(rest, s2);
        assert(!(s1[0] is Cancelled));
        match pump_step_spec(s1[0]) {
            PumpAction::Stop => {
                assert(false);
            },
            PumpAction::Emit(e) => {
                assert(pump_emitted(s1 + s2) =~= pump_emitted(s1) + pump_emitted(s2));
            },
            PumpAction::Continue => {
            },
        }
    }
}

/// Cancellation is terminal: wake-ups after the cancellation signal add
/// nothing to the output.
pub proof fn lemma_cancellation_is_final(s1: Seq<PumpWake>, s2: Seq<PumpWake>)
    requires
        no_cancellation(s1),
    ensures
        pump_output(s1 + seq![PumpWake::Cancelled] + s2) == pump_output(s1),
{
    let tail = seq![PumpWake::Cancelled] + s2;
    assert(s1 + seq![PumpWake::Cancelled] + s2 =~= s1 + tail);
    lemma_pump_emitted_append(s1, tail);
    assert(tail[0] == PumpWake::Cancelled);
    assert(pump_emitted(tail) =~= Seq::<Event>::empty());
    assert(pump_output(s1 + seq![PumpWake::Cancelled] + s2) =~= pump_output(s1));
}

/// An input failure is transient: one failed poll among otherwise
/// uncancelled wake-ups yields exactly one `Error` event, in its place in
/// the order, and everything after it is still delivered.
pub proof fn lemma_input_failure_is_transient(s1: Seq<PumpWake>, s2: Seq<PumpWake>)
    requires
        no_cancellation(s1),
    ensures
        pump_output(s1 + seq![PumpWake::Input(Polled::Failed)] + s2) == pump_output(s1) + seq![
            Event::Error,
        ] + pump_emitted(s2),
{
    let mid = seq![PumpWake::Input(Polled::Failed)];
    assert(s1 + mid + s2 =~= s1 + (mid + s2));
    lemma_pump_emitted_append(s1, mid + s2);
    assert((mid + s2)[0] == PumpWake::Input(Polled::Failed));
    assert((mid + s2).drop_first() =~= s2);
    assert(pump_emitted(mid + s2) =~= seq![Event::Error] + pump_emitted(s2));
    assert(pump_output(s1 + mid + s2) =~= pump_output(s1) + seq![Event::Error] + pump_emitted(
        s2,
    ));
}

proof fn lemma_emitted_timers_only(wakes: Seq<PumpWake>)
    requires
        forall|i: int|
            0 <= i < wakes.len() ==> (wakes[i] is TickElapsed || wakes[i] is RenderElapsed),
    ensures
        forall|i: int|
            0 <= i < pump_emitted(wakes).len() ==> (pump_emitted(wakes)[i] == Event::Tick
                || pump_emitted(wakes)[i] == Event::Render),
    decreases wakes.len(),
{
    if wakes.len() == 0 {
    } else {
        let rest = wakes.drop_first();
        assert forall|i: int|
            0 <= i < rest.len() implies (#[trigger] rest[i] is TickElapsed
            || rest[i] is RenderElapsed) by {
            assert(rest[i] == wakes[i + 1]);
        }
        lemma_emitted_timers_only(rest);
        match pump_step_spec(wakes[0]) {
            PumpAction::Stop => {
                assert(false);
            },
            PumpAction::Emit(e) => {
                assert(e == Event::Tick || e == Event::Render);
                assert forall|i: int|
                    0 <= i < pump_emitted(wakes).len() implies (pump_emitted(wakes)[i]
                    == Event::Tick || pump_emitted(wakes)[i] == Event::Render) by {
                    if i > 0 {
                        assert(pump_emitted(wakes)[i] == pump_emitted(rest)[i - 1]);
                    }
                }
            },
            PumpAction::Continue => {
                assert(false);
            },
        }
    }
}

/// A run that sees only timer wake-ups — no input, no cancellation —
/// observes `Init` once and then nothing but `Tick` and `Render` events:
/// no key, mouse or resize event can appear without raw input.
pub proof fn lemma_idle_run_is_timers_only(wakes: Seq<PumpWake>)
    requires
        forall|i: int|
            0 <= i < wakes.len() ==> (wakes[i] is TickElapsed || wakes[i] is RenderElapsed),
    ensures
        pump_output(wakes)[0] == Event::Init,
        forall|i: int|
            1 <= i < pump_output(wakes).len() ==> (pump_output(wakes)[i] == Event::Tick
                || pump_output(wakes)[i] == Event::Render),
{
    lemma_emitted_timers_only(wakes);
    assert forall|i: int|
        1 <= i < pump_output(wakes).len() implies (pump_output(wakes)[i] == Event::Tick
        || pump_output(wakes)[i] == Event::Render) by {
        assert(pump_output(wakes)[i] == pump_emitted(wakes)[i - 1]);
    }
}

proof fn lemma_emitted_no_init(wakes: Seq<PumpWake>)
    ensures
        forall|i: int|
            0 <= i < pump_emitted(wakes).len() ==> pump_emitted(wakes)[i] != Event::Init,
    decreases wakes.len(),
{
    if wakes.len() == 0 {
    } else {
        let rest = wakes.drop_first();
        lemma_emitted_no_init(rest);
        match pump_step_spec(wakes[0]) {
            PumpAction::Stop => {
            },
            PumpAction::Emit(e) => {
                assert(e != Event::Init);
                assert forall|i: int|
                    0 <= i < pump_emitted(wakes).len() implies pump_emitted(wakes)[i]
                    != Event::Init by {
                    if i > 0 {
                        assert(pump_emitted(wakes)[i] == pump_emitted(rest)[i - 1]);
                    }
                }
            },
            PumpAction::Continue => {
            },
        }
    }
}

/// Every pump run observes `Init` first: the output is never empty, begins
/// with `Init`, and contains `Init` nowhere else — so the first event a
/// consumer sees after a start, before any tick, render or input event, is
/// `Init`, whatever the configured rates made the timers do.
pub proof fn lemma_init_first(wakes: Seq<PumpWake>)
    ensures
        pump_output(wakes).len() >= 1,
        pump_output(wakes)[0] == Event::Init,
        forall|i: int| 1 <= i < pump_output(wakes).len() ==> pump_output(wakes)[i] != Event::Init,
{
    lemma_emitted_no_init(wakes);
    assert forall|i: int|
        1 <= i < pump_output(wakes).len() implies pump_output(wakes)[i] != Event::Init by {
        assert(pump_output(wakes)[i] == pump_emitted(wakes)[i - 1]);
    }
}

proof fn lemma_emitted_key_source(wakes: Seq<PumpWake>, i: int)
    requires
        0 <= i < pump_emitted(wakes).len(),
        pump_emitted(wakes)[i] is Key,
    ensures
        exists|j: int|
            0 <= j < wakes.len() && wakes[j] == PumpWake::Input(
                Polled::Item(RawEvent::Key(key_of(pump_emitted(wakes)[i]))),
            ) && key_of(pump_emitted(wakes)[i]).kind is Press,
    decreases wakes.len(),
{
    assert(wakes.len() > 0);
    let rest = wakes.drop_first();
    let out = pump_emitted(wakes);
    match pump_step_spec(wakes[0]) {
        PumpAction::Stop => {
            assert(false);
        },
        PumpAction::Emit(e) => {
            if i == 0 {
                assert(out[0] == e);
                match wakes[0] {
                    PumpWake::Cancelled => {
                        assert(false);
                    },
                    PumpWake::TickElapsed => {
                        assert(false);
                    },
                    PumpWake::RenderElapsed => {
                        assert(false);
                    },
                    PumpWake::Input(p) => match p {
                        Polled::Failed => {
                            assert(false);
                        },
                        Polled::Closed => {
                            assert(false);
                        },
                        Polled::Item(raw) => match raw {
                            RawEvent::Key(k) => {
                                assert(k.kind is Press);
                                assert(e == Event::Key(k));
                                assert(wakes[0] == PumpWake::Input(
                                    Polled::Item(RawEvent::Key(key_of(out[i]))),
                                ));
                            },
                            _ => {
                                assert(!(e is Key));
                                assert(false);
                            },
                        },
                    },
                }
            } else {
                assert(out[i] == pump_emitted(rest)[i - 1]);
                lemma_emitted_key_source(rest, i - 1);
                let j = choose|j: int|
                    0 <= j < rest.len() && rest[j] == PumpWake::Input(
                        Polled::Item(RawEvent::Key(key_of(pump_emitted(rest)[i - 1]))),
                    ) && key_of(pump_emitted(rest)[i - 1]).kind is Press;
                assert(wakes[j + 1] == rest[j]);
            }
        },
        PumpAction::Continue => {
            assert(out == pump_emitted(rest));
            lemma_emitted_key_source(rest, i);
            let j = choose|j: int|
                0 <= j < rest.len() && rest[j] == PumpWake::Input(
                    Polled::Item(RawEvent::Key(key_of(pump_emitted(rest)[i]))),
                ) && key_of(pump_emitted(rest)[i]).kind is Press;
            assert(wakes[j + 1] == rest[j]);
        },
    }
}

/// Press filtering, end to end: every `Key` event a consumer can observe in
/// a pump run came from a raw key input whose kind was a press. Key events
/// of other kinds never appear downstream.
pub proof fn lemma_key_events_are_presses(wakes: Seq<PumpWake>, i: int)
    requires
        0 <= i < pump_output(wakes).len(),
        pump_output(wakes)[i] is Key,
    ensures
        exists|j: int|
            0 <= j < wakes.len() && wakes[j] == PumpWake::Input(
                Polled::Item(RawEvent::Key(key_of(pump_output(wakes)[i]))),
            ) && key_of(pump_output(wakes)[i]).kind is Press,
{
    assert(i >= 1);
    assert(pump_output(wakes)[i] == pump_emitted(wakes)[i - 1]);
    lemma_emitted_key_source(wakes, i - 1);
}

/// Runs the pump's loop over a given sequence of wake-ups, collecting the
/// events it would deliver: `Init` first, then exactly [`pump_output`]'s
/// events up to the first cancellation.
pub fn pump_run(wakes: &Vec<PumpWake>) -> (out: Vec<Event>)
    ensures
        out@ == pump_output(wakes@),
{
    let mut out: Vec<Event> = Vec::new();
    out.push(Event::Init);
    let mut i: usize = 0;
    while i < wakes.len()
        invariant
            i <= wakes@.len(),
            no_cancellation(wakes@.take(i as int)),
            out@ == seq![Event::Init] + pump_emitted(wakes@.take(i as int)),
        decreases wakes@.len() - i,
    {
        let ghost prefix = wakes@.take(i as int);
        match pump_step(&wakes[i]) {
            PumpAction::Stop => {
                proof {
                    let suffix = wakes@.skip(i as int);
                    assert(wakes@ =~= prefix + suffix);
                    lemma_pump_emitted_append(prefix, suffix);
                    assert(suffix[0] == wakes@[i as int]);
                    assert(pump_emitted(suffix) =~= Seq::<Event>::empty());
                    assert(out@ =~= pump_output(wakes@));
                }
                return out;
            },
            PumpAction::Emit(e) => {
                proof {
                    let w = wakes@[i as int];
                    let step = seq![w];
                    assert(step[0] == w);
                    assert(step.drop_first() =~= Seq::<PumpWake>::empty());
                    assert(pump_emitted(Seq::<PumpWake>::empty()) =~= Seq::<Event>::empty());
                    assert(pump_emitted(step) =~= seq![e]);
                }
                out.push(e);
            },
            PumpAction::Continue => {
                proof {
                    let w = wakes@[i as int];
                    let step = seq![w];
                    assert(step[0] == w);
                    assert(step.drop_first() =~= Seq::<PumpWake>::empty());
                    assert(pump_emitted(Seq::<PumpWake>::empty()) =~= Seq::<Event>::empty());
                    assert(pump_emitted(step) =~= Seq::<Event>::empty());
                }
            },
        }
        proof {
            let step = seq![wakes@[i as int]];
            assert(wakes@.take(i + 1) =~= prefix + step);
            lemma_pump_emitted_append(prefix, step);
            assert forall|k: int| 0 <= k < i + 1 implies !(#[trigger] wakes@.take(i + 1)[k]
                is Cancelled) by {
                assert(wakes@.take(i + 1)[k] == wakes@[k]);
                if k < i {
                    assert(prefix[k] == wakes@[k]);
                }
            }
            assert(out@ =~= seq![Event::Init] + pump_emitted(wakes@.take(i + 1)));
        }
        i = i + 1;
    }
    proof {
        assert(wakes@.take(i as int) =~= wakes@);
    }
    out
}

} // verus!
