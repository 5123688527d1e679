//! Events published to every subscriber of the passcode feed.
use vstd::prelude::*;

verus! {

/// What a subscriber of the feed receives: a new passcode, or the notice that
/// the database task has shut down.
#[derive(Clone, Debug, PartialEq, Eq)]
pub enum BroadcastEvent {
    NewCode(String),
    Exit,
}

/// The mathematical value of a [`BroadcastEvent`].
pub enum BroadcastView {
    NewCode(Seq<char>),
    Exit,
}

impl View for BroadcastEvent {
    type V = BroadcastView;

    open spec fn view(&self) -> BroadcastView {
        match self {
            BroadcastEvent::NewCode(code) => BroadcastView::NewCode(code@),
            BroadcastEvent::Exit => BroadcastView::Exit,
        }
    }
}

impl BroadcastEvent {
    /// The announcement of passcode `code`.
    pub fn new_code(code: &str) -> (event: Self)
        ensures
            event@ == BroadcastView::NewCode(code@),
    {
        BroadcastEvent::NewCode(code.to_owned())
    }

    /// The announcement that the database task is closing.
    pub fn exit() -> (event: Self)
        ensures
            event@ == BroadcastView::Exit,
    {
        BroadcastEvent::Exit
    }
}

} // verus!
