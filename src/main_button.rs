use vstd::prelude::*;

use crate::navigator::{ClickEvent, NodeRef};

verus! {

/// A raw pointer signal on one interactive node.
#[derive(Clone, Copy, Debug, PartialEq, Eq, Structural)]
pub enum PointerEvent {
    Press(NodeRef),
    Release(NodeRef),
    /// The pointer went up away from any interactive node.
    Cancel,
}

/// Turns raw press and release signals into click events. A click is emitted
/// only when a release lands on the node that the last press hit.
#[derive(Clone, Copy, Debug, PartialEq, Eq, Structural)]
pub struct ClickDetector {
    /// The node under the pointer when it was pressed, while it stays down.
    pub pressed: Option<NodeRef>,
}

impl ClickDetector {
    /// The detector's state after `ev`.
    pub open spec fn next_spec(self, ev: PointerEvent) -> ClickDetector {
        match ev {
            PointerEvent::Press(t) => ClickDetector { pressed: Some(t) },
            _ => ClickDetector { pressed: None },
        }
    }

    /// The click that `ev` completes, if any.
    pub open spec fn click_spec(self, ev: PointerEvent) -> Option<ClickEvent> {
        match ev {
            PointerEvent::Release(t) => if self.pressed == Some(t) {
                Some(ClickEvent { target: t })
            } else {
                None
            },
            _ => None,
        }
    }

    pub fn new() -> (d: ClickDetector)
        ensures
            d.pressed is None,
    {
        ClickDetector { pressed: None }
    }

    pub fn on_pointer(&mut self, ev: PointerEvent) -> (c: Option<ClickEvent>)
        ensures
            *final(self) == old(self).next_spec(ev),
            c == old(self).click_spec(ev),
    {
        match ev {
            PointerEvent::Press(t) => {
                self.pressed = Some(t);
                None
            },
            PointerEvent::Release(t) => {
                let c = match self.pressed {
                    Some(p) => if p == t {
                        Some(ClickEvent { target: t })
                    } else {
                        None
                    },
                    None => None,
                };
                self.pressed = None;
                c
            },
            PointerEvent::Cancel => {
                self.pressed = None;
                None
            },
        }
    }
}

/// A click is emitted only by a release on the node that was pressed; a
/// press alone never emits one.
pub proof fn lemma_click_needs_press_and_release(d: ClickDetector, ev: PointerEvent)
    ensures
        d.click_spec(ev) matches Some(c) ==> ev == PointerEvent::Release(c.target) && d.pressed == Some(c.target),
        ev is Press ==> d.click_spec(ev) is None,
{
}

} // verus!
