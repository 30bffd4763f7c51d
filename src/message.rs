use vstd::prelude::*;
use crate::stack::{CosmicStack, StackView};

verus! {

/// What the header strip reports back to the stack.
#[derive(Clone, Copy, Debug, PartialEq, Eq, Structural)]
pub enum Message {
    /// A drag began on the header's handle or empty space.
    DragStart,
    /// A tab was clicked.
    Activate(usize),
    /// A tab's close button was clicked.
    Close(usize),
    ScrollForward,
    ScrollBack,
    /// The header scrolled the requested tab into view.
    Scrolled,
}

/// Work that the stack asks its owner to do after a header message.
#[derive(Clone, Copy, Debug, PartialEq, Eq, Structural)]
pub enum HeaderAction {
    Nothing,
    /// Start an interactive move of this member, from this seat and serial;
    /// to be run once the current input pass is over.
    StartMove { window: u64, seat: u64, serial: u32 },
    /// Ask this member to close.
    Close { window: u64 },
}

impl Message {
    pub fn activate(idx: usize) -> (r: Message)
        ensures
            r == Message::Activate(idx),
    {
        Message::Activate(idx)
    }

    /// The tab index of an `Activate` message.
    pub fn is_activate(&self) -> (r: Option<usize>)
        ensures
            r == (match *self {
                Message::Activate(i) => Some(i),
                _ => None,
            }),
    {
        match self {
            Message::Activate(idx) => Some(*idx),
            _ => None,
        }
    }

    pub fn scroll_back() -> (r: Message)
        ensures
            r == Message::ScrollBack,
    {
        Message::ScrollBack
    }

    pub fn scroll_further() -> (r: Message)
        ensures
            r == Message::ScrollForward,
    {
        Message::ScrollForward
    }

    pub fn scrolled() -> (r: Message)
        ensures
            r == Message::Scrolled,
    {
        Message::Scrolled
    }
}

impl StackView {
    pub open spec fn update(self, message: Message) -> (StackView, HeaderAction) {
        match message {
            Message::DragStart => match self.last_seat {
                Some(s) => (
                    self,
                    HeaderAction::StartMove {
                        window: self.active_member().id,
                        seat: s.seat,
                        serial: s.serial,
                    },
                ),
                None => (self, HeaderAction::Nothing),
            },
            Message::Activate(idx) => if idx < self.windows.len() {
                (StackView { scroll_to_focus: true, ..self.switched(idx as int) }, HeaderAction::Nothing)
            } else {
                (self, HeaderAction::Nothing)
            },
            Message::Close(idx) => if idx < self.windows.len() {
                (self, HeaderAction::Close { window: self.windows[idx as int].id })
            } else {
                (self, HeaderAction::Nothing)
            },
            Message::Scrolled => (StackView { scroll_to_focus: false, ..self }, HeaderAction::Nothing),
            _ => (self, HeaderAction::Nothing),
        }
    }
}

impl CosmicStack {
    /// Handles a message from the header. Scrolling messages are the
    /// header's own business and change nothing here.
    pub fn update(&mut self, message: Message) -> (r: HeaderAction)
        requires
            old(self)@.wf(),
        ensures
            (final(self)@, r) == old(self)@.update(message),
            final(self)@.wf(),
    {
        match message {
            Message::DragStart => match self.internal.last_seat {
                Some(s) => HeaderAction::StartMove {
                    window: self.internal.windows[self.internal.active].id,
                    seat: s.seat,
                    serial: s.serial,
                },
                None => HeaderAction::Nothing,
            },
            Message::Activate(idx) => {
                if idx < self.internal.windows.len() {
                    let old_active = self.internal.active;
                    self.internal.active = idx;
                    self.internal.previous_keyboard = old_active;
                    self.internal.previous_pointer = old_active;
                    self.internal.scroll_to_focus = true;
                }
                HeaderAction::Nothing
            },
            Message::Close(idx) => {
                if idx < self.internal.windows.len() {
                    HeaderAction::Close { window: self.internal.windows[idx].id }
                } else {
                    HeaderAction::Nothing
                }
            },
            Message::Scrolled => {
                self.internal.scroll_to_focus = false;
                HeaderAction::Nothing
            },
            _ => HeaderAction::Nothing,
        }
    }
}

} // verus!
