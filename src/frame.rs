//! Socket frames, and the action the router takes on each.
use vstd::prelude::*;

verus! {

/// A frame read from or written to a client socket.
#[derive(Clone, Debug, PartialEq, Eq)]
pub enum Frame {
    Text(String),
    Binary(Vec<u8>),
    Ping(Vec<u8>),
    Pong(Vec<u8>),
    Close,
}

pub enum FrameView {
    Text(Seq<char>),
    Binary(Seq<u8>),
    Ping(Seq<u8>),
    Pong(Seq<u8>),
    Close,
}

impl View for Frame {
    type V = FrameView;

    open spec fn view(&self) -> FrameView {
        match self {
            Frame::Text(t) => FrameView::Text(t@),
            Frame::Binary(b) => FrameView::Binary(b@),
            Frame::Ping(b) => FrameView::Ping(b@),
            Frame::Pong(b) => FrameView::Pong(b@),
            Frame::Close => FrameView::Close,
        }
    }
}

/// What the router decided for one inbound frame.
#[derive(Clone, Debug, PartialEq, Eq)]
pub enum Action {
    /// Nothing to send.
    Ignore,
    /// Push `frame` to the connection with handle `to`.
    Deliver { to: u64, frame: Frame },
    /// Queue `frame` on the sender's own outbound queue.
    Reply(Frame),
    /// The client closed the socket: end the session.
    Close,
}

pub enum ActionView {
    Ignore,
    Deliver(u64, FrameView),
    Reply(FrameView),
    Close,
}

impl View for Action {
    type V = ActionView;

    open spec fn view(&self) -> ActionView {
        match self {
            Action::Ignore => ActionView::Ignore,
            Action::Deliver { to, frame } => ActionView::Deliver(*to, frame@),
            Action::Reply(f) => ActionView::Reply(f@),
            Action::Close => ActionView::Close,
        }
    }
}

} // verus!
