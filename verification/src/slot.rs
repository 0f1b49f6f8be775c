//! The shared label slot: a single synchronized "latest value" mailbox.
//!
//! The running system guards one label with a mutex and a condition variable;
//! a category listener overwrites the label and wakes one waiter per signal it
//! receives. This module holds that slot's state machine: the label it holds
//! and a count of the wakes issued, with each listener step as one transition.
//! The mutex, the condition variable and the blocking wait live outside the
//! library; they serialize the transitions, and every interleaving of the two
//! listeners is some sequence of [`Slot::receive`] steps.

use vstd::prelude::*;

use crate::label::{label_for, spec_label_for, Category, Label};

verus! {

/// The abstract state of the shared slot: which label it holds and how many
/// wakes have been issued since startup.
pub ghost struct SlotView {
    /// The label the slot holds.
    pub label: Label,
    /// How many condition-variable notifications have been issued.
    pub wakes: int,
}

/// The shared slot's state: the most recent classification, together with a
/// count of the wakes issued so that "one wake per signal" is observable.
pub struct Slot {
    /// The label the slot holds; `Label::Nothing` at startup.
    pub label: Label,
    /// How many notifications have been issued; one per signal received.
    pub wakes: u64,
}

impl View for Slot {
    type V = SlotView;

    open spec fn view(&self) -> SlotView {
        SlotView { label: self.label, wakes: self.wakes as int }
    }
}

/// The slot after a listener receives one signal of category `c`: the label is
/// overwritten with the category's label and exactly one wake is issued.
pub open spec fn spec_receive(s: SlotView, c: Category) -> SlotView {
    SlotView { label: spec_label_for(c), wakes: s.wakes + 1 }
}

/// The slot after a run of signals is received, first signal first.
pub open spec fn spec_run(s: SlotView, sigs: Seq<Category>) -> SlotView
    decreases sigs.len(),
{
    if sigs.len() == 0 {
        s
    } else {
        spec_run(spec_receive(s, sigs[0]), sigs.drop_first())
    }
}

impl Slot {
    /// A fresh slot: no signal received yet, no wake issued.
    pub fn new() -> (s: Slot)
        ensures
            s@ == (SlotView { label: Label::Nothing, wakes: 0 }),
    {
        Slot { label: Label::Nothing, wakes: 0 }
    }

    /// One listener step: on receipt of a signal of category `c`, overwrite
    /// the label with the category's label and issue exactly one wake.
    pub fn receive(&mut self, c: Category)
        requires
            old(self).wakes < u64::MAX,
        ensures
            final(self)@ == spec_receive(old(self)@, c),
    {
        self.label = label_for(c);
        self.wakes = self.wakes + 1;
    }

    /// Read the label, as the printer does after it is woken.
    pub fn read_label(&self) -> (l: Label)
        ensures
            l == self@.label,
    {
        self.label
    }
}

/// Law: last writer wins. After any nonempty run of signals the slot holds the
/// label of the most recently received category, whatever it held before and
/// however the categories were interleaved; no other value is observable.
pub proof fn lemma_last_writer_wins(s: SlotView, sigs: Seq<Category>)
    requires
        sigs.len() > 0,
    ensures
        spec_run(s, sigs).label == spec_label_for(sigs.last()),
    decreases sigs.len(),
{
    if sigs.len() == 1 {
        assert(spec_run(s, sigs) == spec_receive(s, sigs[0]));
    } else {
        lemma_last_writer_wins(spec_receive(s, sigs[0]), sigs.drop_first());
        assert(sigs.drop_first().last() == sigs.last());
    }
}

/// Law: after any run of keypress signals, at least one of them, the slot
/// holds `Label::KeyPressed`.
pub proof fn lemma_keypress_run_label(s: SlotView, n: nat)
    requires
        n > 0,
    ensures
        spec_run(s, Seq::new(n, |i: int| Category::Keypress)).label == Label::KeyPressed,
{
    let sigs = Seq::new(n, |i: int| Category::Keypress);
    lemma_last_writer_wins(s, sigs);
}

/// Law: one wake per signal. A run of signals issues exactly as many wakes as
/// there are signals in it, no matter their categories.
pub proof fn lemma_one_wake_per_signal(s: SlotView, sigs: Seq<Category>)
    ensures
        spec_run(s, sigs).wakes == s.wakes + sigs.len(),
    decreases sigs.len(),
{
    if sigs.len() > 0 {
        lemma_one_wake_per_signal(spec_receive(s, sigs[0]), sigs.drop_first());
    }
}

} // verus!
