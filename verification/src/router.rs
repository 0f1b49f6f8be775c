//! The routing rules: how one input event is classified.
//!
//! The rules apply in priority order: the hard-exit chord first, then any
//! other keystroke to the keypress queue, then a mouse button-down to the
//! click queue, and everything else is discarded.

use vstd::prelude::*;

use crate::event::{InputEvent, KeyCode, KeyEvent, MouseEvent, MouseKind};

verus! {

/// What the router does with one input event.
#[derive(Clone, Copy, Debug, PartialEq, Eq, Structural)]
pub enum Route {
    /// Terminate the whole process immediately with exit code 0.
    HardExit,
    /// Send exactly one classified signal on the keypress queue.
    Keypress,
    /// Send exactly one classified signal on the click queue.
    Click,
    /// Discard the event; no signal on either queue.
    Discard,
}

/// The hard-exit chord: the literal character 'c' with the control modifier
/// present.
pub open spec fn spec_is_hard_exit(e: InputEvent) -> bool {
    match e {
        InputEvent::Key(k) => k.code == KeyCode::Char('c') && k.modifiers.control,
        _ => false,
    }
}

/// The classification rules, in priority order.
pub open spec fn spec_classify(e: InputEvent) -> Route {
    if spec_is_hard_exit(e) {
        Route::HardExit
    } else {
        match e {
            InputEvent::Key(_) => Route::Keypress,
            InputEvent::Mouse(m) => if m.kind == MouseKind::Down {
                Route::Click
            } else {
                Route::Discard
            },
            InputEvent::Other => Route::Discard,
        }
    }
}

/// How many signals a route places on the keypress queue.
pub open spec fn keypress_signals(r: Route) -> nat {
    if r == Route::Keypress {
        1
    } else {
        0
    }
}

/// How many signals a route places on the click queue.
pub open spec fn click_signals(r: Route) -> nat {
    if r == Route::Click {
        1
    } else {
        0
    }
}

/// Classify one input event.
pub fn classify(e: &InputEvent) -> (r: Route)
    ensures
        r == spec_classify(*e),
{
    match e {
        InputEvent::Key(k) => {
            let is_c = match k.code {
                KeyCode::Char(ch) => ch == 'c',
                KeyCode::NonChar => false,
            };
            if is_c && k.modifiers.control {
                Route::HardExit
            } else {
                Route::Keypress
            }
        },
        InputEvent::Mouse(m) => {
            if m.kind == MouseKind::Down {
                Route::Click
            } else {
                Route::Discard
            }
        },
        InputEvent::Other => Route::Discard,
    }
}

/// Law: every key event that is not the hard-exit chord routes exactly one
/// signal to the keypress queue and none to the click queue.
pub proof fn lemma_key_routing(k: KeyEvent)
    requires
        !spec_is_hard_exit(InputEvent::Key(k)),
    ensures
        spec_classify(InputEvent::Key(k)) == Route::Keypress,
        keypress_signals(spec_classify(InputEvent::Key(k))) == 1,
        click_signals(spec_classify(InputEvent::Key(k))) == 0,
{
}

/// Law: a mouse button-down event routes exactly one signal to the click queue
/// and none to the keypress queue; every other mouse kind routes no signal on
/// either queue.
pub proof fn lemma_mouse_routing(m: MouseEvent)
    ensures
        m.kind == MouseKind::Down ==> click_signals(spec_classify(InputEvent::Mouse(m))) == 1,
        m.kind == MouseKind::Down ==> keypress_signals(spec_classify(InputEvent::Mouse(m))) == 0,
        m.kind != MouseKind::Down ==> spec_classify(InputEvent::Mouse(m)) == Route::Discard,
        m.kind != MouseKind::Down ==> click_signals(spec_classify(InputEvent::Mouse(m))) == 0
            && keypress_signals(spec_classify(InputEvent::Mouse(m))) == 0,
{
}

/// Law: the hard-exit chord takes precedence over every other rule: it
/// classifies to an immediate termination and sends no signal on either queue,
/// whatever the queues hold.
pub proof fn lemma_hard_exit_precedence(e: InputEvent)
    requires
        spec_is_hard_exit(e),
    ensures
        spec_classify(e) == Route::HardExit,
        keypress_signals(spec_classify(e)) == 0,
        click_signals(spec_classify(e)) == 0,
{
}

} // verus!
