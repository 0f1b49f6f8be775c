//! The composed semantics of the whole pipeline.
//!
//! Router, listeners, slot and printer are driven by separate threads in the
//! running system; here the composition is run synchronously, one event at a
//! time, under the schedule in which each signal is consumed and its label
//! printed before the next event is read. That schedule prints one line per
//! routed signal and none are coalesced. The running system promises only that
//! the slot holds the most recent write, so signals arriving in quick
//! succession may coalesce into fewer printed lines there; the slot laws in
//! [`crate::slot`] say what every such interleaving preserves.

use vstd::prelude::*;

use crate::event::InputEvent;
use crate::label::{spec_label_for, Category, Label};
use crate::router::{classify, spec_classify, Route};
use crate::slot::{lemma_one_wake_per_signal, spec_run, Slot, SlotView};

verus! {

/// Whether routing a sequence of events reaches the hard-exit chord: events
/// after the first such chord are never read.
pub open spec fn spec_hits_exit(events: Seq<InputEvent>) -> bool
    decreases events.len(),
{
    events.len() > 0 && (spec_classify(events[0]) == Route::HardExit || spec_hits_exit(
        events.drop_first(),
    ))
}

/// The labels printed for a sequence of events, in order: one per routed
/// signal, nothing for a discarded event, and nothing at or after the
/// hard-exit chord.
pub open spec fn spec_output(events: Seq<InputEvent>) -> Seq<Label>
    decreases events.len(),
{
    if events.len() == 0 {
        Seq::empty()
    } else {
        let rest = events.drop_first();
        match spec_classify(events[0]) {
            Route::HardExit => Seq::empty(),
            Route::Keypress => seq![Label::KeyPressed] + spec_output(rest),
            Route::Click => seq![Label::Clicked] + spec_output(rest),
            Route::Discard => spec_output(rest),
        }
    }
}

/// The categories of the signals routed for a sequence of events, in order:
/// one per routed signal, nothing for a discarded event, and nothing at or
/// after the hard-exit chord.
pub open spec fn spec_signals(events: Seq<InputEvent>) -> Seq<Category>
    decreases events.len(),
{
    if events.len() == 0 {
        Seq::empty()
    } else {
        let rest = events.drop_first();
        match spec_classify(events[0]) {
            Route::HardExit => Seq::empty(),
            Route::Keypress => seq![Category::Keypress] + spec_signals(rest),
            Route::Click => seq![Category::Click] + spec_signals(rest),
            Route::Discard => spec_signals(rest),
        }
    }
}

/// Law: one line per routed signal. The pipeline prints exactly the label of
/// each routed signal, in order: nothing is added, dropped or reordered
/// between the router and the printed output under the synchronous schedule.
pub proof fn lemma_output_is_signal_labels(events: Seq<InputEvent>)
    ensures
        spec_output(events) =~= spec_signals(events).map_values(|c: Category| spec_label_for(c)),
    decreases events.len(),
{
    if events.len() > 0 {
        lemma_output_is_signal_labels(events.drop_first());
    }
}

/// Law: one wake per printed line. Driving the shared slot through all the
/// signals routed for a sequence of events issues exactly as many wakes as
/// there are printed lines.
pub proof fn lemma_wakes_match_output(s: SlotView, events: Seq<InputEvent>)
    ensures
        spec_run(s, spec_signals(events)).wakes == s.wakes + spec_output(events).len(),
{
    lemma_one_wake_per_signal(s, spec_signals(events));
    lemma_output_is_signal_labels(events);
}

/// Run the whole pipeline synchronously over `events`: classify each event,
/// let the matching listener update the shared slot and wake the printer, and
/// record the label the printer reads. Returns the printed labels, in order,
/// and whether the hard-exit chord was reached (routing stops there).
pub fn process_events(events: &Vec<InputEvent>) -> (out: (Vec<Label>, bool))
    ensures
        out.0@ == spec_output(events@),
        out.1 == spec_hits_exit(events@),
{
    let mut slot = Slot::new();
    let mut lines: Vec<Label> = Vec::new();
    let n = events.len();
    let mut i: usize = 0;
    proof {
        assert(events@.skip(0) =~= events@);
        assert(lines@ + spec_output(events@) =~= spec_output(events@));
    }
    while i < n
        invariant
            n == events@.len(),
            0 <= i <= n,
            slot@.wakes == lines@.len(),
            lines@.len() <= i,
            spec_output(events@) == lines@ + spec_output(events@.skip(i as int)),
            spec_hits_exit(events@) == spec_hits_exit(events@.skip(i as int)),
        decreases n - i,
    {
        let e = events[i];
        proof {
            assert(events@.skip(i as int)[0] == events@[i as int]);
            assert(events@.skip(i as int).drop_first() =~= events@.skip(i as int + 1));
        }
        match classify(&e) {
            Route::HardExit => {
                proof {
                    assert(lines@ + Seq::<Label>::empty() =~= lines@);
                }
                return (lines, true);
            },
            Route::Keypress => {
                slot.receive(Category::Keypress);
                lines.push(slot.read_label());
                proof {
                    assert(lines@ =~= lines@.drop_last() + seq![Label::KeyPressed]);
                    assert(lines@.drop_last() + (seq![Label::KeyPressed] + spec_output(
                        events@.skip(i as int + 1),
                    )) =~= lines@ + spec_output(events@.skip(i as int + 1)));
                }
            },
            Route::Click => {
                slot.receive(Category::Click);
                lines.push(slot.read_label());
                proof {
                    assert(lines@ =~= lines@.drop_last() + seq![Label::Clicked]);
                    assert(lines@.drop_last() + (seq![Label::Clicked] + spec_output(
                        events@.skip(i as int + 1),
                    )) =~= lines@ + spec_output(events@.skip(i as int + 1)));
                }
            },
            Route::Discard => {},
        }
        i = i + 1;
    }
    proof {
        assert(events@.skip(n as int) =~= Seq::<InputEvent>::empty());
        assert(lines@ + Seq::<Label>::empty() =~= lines@);
    }
    (lines, false)
}

} // verus!
