//! UI events and the first-in first-out queue that collects them.
use vstd::prelude::*;

use std::collections::VecDeque;

verus! {

/// An event raised by the user interface.
#[derive(Debug)]
pub enum UIEvent {
    ButtonPressed { id: String },
    ButtonReleased { id: String },
    TextChanged { field_id: String, new_value: String },
    TextFocused { field_id: String },
    TextBlurred { field_id: String },
    TextSubmitted { field_id: String },
    KeyPressed { field_id: String, key: String, modifiers: KeyModifiers },
    ImeComposition {
        field_id: String,
        composition_text: String,
        cursor_range: Option<(usize, usize)>,
    },
    ImeCommit { field_id: String, committed_text: String },
    ImeCancel { field_id: String },
    ImeEnabled { field_id: String },
    ImeDisabled { field_id: String },
}

/// The modifier keys held during a key press.
#[derive(Debug, Clone, Copy, PartialEq, Eq, Default)]
pub struct KeyModifiers {
    pub ctrl: bool,
    pub shift: bool,
    pub alt: bool,
    /// The command key on macOS.
    pub cmd: bool,
}

/// Pending UI events, oldest first.
pub struct EventQueue {
    pub queue: VecDeque<UIEvent>,
}

impl EventQueue {
    /// An empty queue.
    pub fn new() -> (q: EventQueue)
        ensures
            q.queue@ == Seq::<UIEvent>::empty(),
    {
        EventQueue { queue: VecDeque::new() }
    }

    /// Adds an event behind the pending ones.
    pub fn push(&mut self, event: UIEvent)
        ensures
            final(self).queue@ == old(self).queue@.push(event),
    {
        self.queue.push_back(event);
    }

    /// Takes the oldest pending event, if any.
    pub fn pop(&mut self) -> (e: Option<UIEvent>)
        ensures
            old(self).queue@.len() == 0 ==> e is None && final(self).queue@ == old(self).queue@,
            old(self).queue@.len() > 0 ==> e == Some(old(self).queue@[0]) && final(self).queue@
                == old(self).queue@.drop_first(),
    {
        let e = self.queue.pop_front();
        proof {
            if e is Some {
                assert(old(self).queue@.subrange(1, old(self).queue@.len() as int)
                    == old(self).queue@.drop_first());
            }
        }
        e
    }

    /// Takes all pending events, oldest first, leaving the queue empty.
    pub fn drain(&mut self) -> (events: Vec<UIEvent>)
        ensures
            events@ == old(self).queue@,
            final(self).queue@ == Seq::<UIEvent>::empty(),
    {
        let ghost all = self.queue@;
        let mut events: Vec<UIEvent> = Vec::new();
        while self.queue.len() > 0
            invariant
                events@ + self.queue@ == all,
            decreases self.queue@.len(),
        {
            let ghost before = self.queue@;
            match self.queue.pop_front() {
                Some(e) => {
                    events.push(e);
                    proof {
                        assert(before =~= seq![e] + self.queue@);
                        assert(events@ + self.queue@ =~= all);
                    }
                },
                None => {},
            }
        }
        proof {
            assert(events@ + self.queue@ =~= events@);
        }
        events
    }
}

} // verus!
