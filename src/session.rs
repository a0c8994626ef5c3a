use vstd::prelude::*;
use crate::keyboard::ScancodeEvent;
use crate::mouse::RDPMousePosition;

verus! {

/// The event sources of the session loop, in the order in which they are served
/// when several are ready at once.
#[derive(Clone, Copy, Debug, PartialEq, Eq, Structural)]
pub enum Source {
    Transport,
    Mouse,
    Input,
}

/// Picks the source to serve next: the transport before pointer moves, pointer
/// moves before key batches; `None` when nothing is ready and the loop waits.
pub fn select_source(transport_ready: bool, mouse_ready: bool, input_ready: bool) -> (r: Option<
    Source,
>)
    ensures
        r == (if transport_ready {
            Some(Source::Transport)
        } else if mouse_ready {
            Some(Source::Mouse)
        } else if input_ready {
            Some(Source::Input)
        } else {
            None
        }),
{
    if transport_ready {
        Some(Source::Transport)
    } else if mouse_ready {
        Some(Source::Mouse)
    } else if input_ready {
        Some(Source::Input)
    } else {
        None
    }
}

/// A channel between the renderer and the session loop.
#[derive(Clone, Copy, Debug, PartialEq, Eq, Structural)]
pub enum ChannelKind {
    /// The handshake that hands over the redraw handle, or the frame notifications.
    Renderer,
    Mouse,
    Input,
}

/// Why a session ended.
#[derive(Debug, PartialEq, Eq)]
pub enum SessionError {
    /// A frame could not be read, or the protocol engine rejected it.
    Protocol(String),
    /// Writing to the transport failed.
    Transport(String),
    /// No producer can ever send on this channel again.
    ChannelClosed(ChannelKind),
    /// The remote side ended the session.
    Terminated(String),
}

/// What the protocol engine asks of the loop after processing an event.
#[derive(Debug, PartialEq, Eq)]
pub enum SessionOutput {
    ResponseFrame(Vec<u8>),
    GraphicsUpdate,
    Terminate(String),
    /// An output this loop has no use for, with a description to log.
    Other(String),
}

/// What the loop is told of the outside world.
#[derive(Debug, PartialEq, Eq)]
pub enum SessionEvent {
    /// The renderer handed over its redraw handle.
    RendererAttached,
    /// The renderer went away.
    RendererGone,
    /// The protocol engine's outputs for a frame or an input batch.
    Outputs(Vec<SessionOutput>),
    /// Reading a frame failed, or the engine refused what it was given.
    FrameFailed(String),
    /// A write to the transport failed.
    WriteFailed(String),
    MouseMoved(RDPMousePosition),
    MouseClosed,
    InputBatch(Vec<ScancodeEvent>),
    InputClosed,
}

/// What the loop asks to be done, in order.
#[derive(Debug, PartialEq, Eq)]
pub enum SessionAction {
    /// Write these bytes to the transport before doing anything else.
    Write(Vec<u8>),
    /// Publish the current full decoded image, then ask the renderer to redraw.
    Publish,
    /// Feed a pointer move, with no wheel rotation, to the protocol engine.
    SendPointer { x: u16, y: u16 },
    /// Feed these scancode events, in order, to the protocol engine.
    SendKeys(Vec<ScancodeEvent>),
    /// Log an output that is otherwise ignored.
    LogUnhandled(String),
}

#[derive(Debug, PartialEq, Eq)]
pub enum SessionState {
    /// The renderer has not handed over its redraw handle yet.
    AwaitingRenderer,
    Active,
    Terminated(SessionError),
}

/// The actions for a list of engine outputs, in order, up to the first
/// `Terminate`, and the error that one ends the session with.
pub open spec fn plan(outs: Seq<SessionOutput>) -> (Seq<SessionAction>, Option<SessionError>)
    decreases outs.len(),
{
    if outs.len() == 0 {
        (Seq::empty(), None)
    } else {
        let rest = plan(outs.drop_first());
        match outs[0] {
            SessionOutput::Terminate(reason) => (Seq::empty(), Some(SessionError::Terminated(reason))),
            SessionOutput::ResponseFrame(bytes) => (seq![SessionAction::Write(bytes)] + rest.0, rest.1),
            SessionOutput::GraphicsUpdate => (seq![SessionAction::Publish] + rest.0, rest.1),
            SessionOutput::Other(d) => (seq![SessionAction::LogUnhandled(d)] + rest.0, rest.1),
        }
    }
}

/// The loop's next state and actions on an event.
pub open spec fn step(s: SessionState, e: SessionEvent) -> (SessionState, Seq<SessionAction>) {
    match s {
        SessionState::Terminated(_) => (s, Seq::empty()),
        SessionState::AwaitingRenderer => match e {
            SessionEvent::RendererAttached => (SessionState::Active, Seq::empty()),
            SessionEvent::RendererGone => (
                SessionState::Terminated(SessionError::ChannelClosed(ChannelKind::Renderer)),
                Seq::empty(),
            ),
            _ => (s, Seq::empty()),
        },
        SessionState::Active => match e {
            SessionEvent::RendererAttached => (s, Seq::empty()),
            SessionEvent::RendererGone => (
                SessionState::Terminated(SessionError::ChannelClosed(ChannelKind::Renderer)),
                Seq::empty(),
            ),
            SessionEvent::Outputs(outs) => {
                let (acts, end) = plan(outs@);
                match end {
                    Some(err) => (SessionState::Terminated(err), acts),
                    None => (SessionState::Active, acts),
                }
            },
            SessionEvent::FrameFailed(m) => (
                SessionState::Terminated(SessionError::Protocol(m)),
                Seq::empty(),
            ),
            SessionEvent::WriteFailed(m) => (
                SessionState::Terminated(SessionError::Transport(m)),
                Seq::empty(),
            ),
            SessionEvent::MouseMoved(p) => (
                SessionState::Active,
                seq![SessionAction::SendPointer { x: p.x, y: p.y }],
            ),
            SessionEvent::MouseClosed => (
                SessionState::Terminated(SessionError::ChannelClosed(ChannelKind::Mouse)),
                Seq::empty(),
            ),
            SessionEvent::InputBatch(b) => (SessionState::Active, seq![SessionAction::SendKeys(b)]),
            SessionEvent::InputClosed => (
                SessionState::Terminated(SessionError::ChannelClosed(ChannelKind::Input)),
                Seq::empty(),
            ),
        },
    }
}

fn plan_outputs(outputs: Vec<SessionOutput>) -> (r: (Vec<SessionAction>, Option<SessionError>))
    ensures
        (r.0@, r.1) == plan(outputs@),
{
    let mut rest = outputs;
    let mut acts: Vec<SessionAction> = Vec::new();
    while rest.len() > 0
        invariant
            plan(outputs@) == (acts@ + plan(rest@).0, plan(rest@).1),
        decreases rest.len(),
    {
        let ghost before = rest@;
        let out = rest.remove(0);
        assert(rest@ =~= before.drop_first());
        match out {
            SessionOutput::Terminate(reason) => {
                return (acts, Some(SessionError::Terminated(reason)));
            },
            SessionOutput::ResponseFrame(bytes) => {
                acts.push(SessionAction::Write(bytes));
            },
            SessionOutput::GraphicsUpdate => {
                acts.push(SessionAction::Publish);
            },
            SessionOutput::Other(d) => {
                acts.push(SessionAction::LogUnhandled(d));
            },
        }
        proof {
            let a = acts@.last();
            assert(acts@.drop_last() + (seq![a] + plan(rest@).0) =~= acts@ + plan(rest@).0);
        }
    }
    proof {
        assert(acts@ + Seq::<SessionAction>::empty() =~= acts@);
    }
    (acts, None)
}

/// When the key-batch queue loses its last sender, an active session ends with
/// `ChannelClosed`, asking for nothing more.
pub proof fn lemma_closed_input_ends_session()
    ensures
        step(SessionState::Active, SessionEvent::InputClosed) == (
            SessionState::Terminated(SessionError::ChannelClosed(ChannelKind::Input)),
            Seq::<SessionAction>::empty(),
        ),
{
}

/// A failed frame read ends an active session with a protocol error, and no
/// write is left to perform.
pub proof fn lemma_read_failure_ends_session(msg: String)
    ensures
        ({
            let (s, acts) = step(SessionState::Active, SessionEvent::FrameFailed(msg));
            &&& s == SessionState::Terminated(SessionError::Protocol(msg))
            &&& acts.len() == 0
        }),
{
}

/// Once ended, a session stays ended and asks for nothing, whatever it is told.
pub proof fn lemma_terminated_is_final(err: SessionError, e: SessionEvent)
    ensures
        step(SessionState::Terminated(err), e) == (
            SessionState::Terminated(err),
            Seq::<SessionAction>::empty(),
        ),
{
}

/// Outputs are acted on in order up to a `Terminate`: what comes after it is
/// dropped, and the session ends with its reason.
pub proof fn lemma_terminate_stops_outputs(
    before: Seq<SessionOutput>,
    reason: String,
    after: Seq<SessionOutput>,
)
    requires
        plan(before).1 is None,
    ensures
        plan(before + seq![SessionOutput::Terminate(reason)] + after) == (
            plan(before).0,
            Some(SessionError::Terminated(reason)),
        ),
    decreases before.len(),
{
    let all = before + seq![SessionOutput::Terminate(reason)] + after;
    if before.len() == 0 {
        assert(all[0] == SessionOutput::Terminate(reason));
    } else {
        assert(all[0] == before[0]);
        assert(all.drop_first() =~= before.drop_first() + seq![SessionOutput::Terminate(reason)]
            + after);
        if !(before[0] is Terminate) {
            lemma_terminate_stops_outputs(before.drop_first(), reason, after);
        }
    }
}

/// The decision half of the session loop: it is told each event and answers
/// with the actions to perform, in order.
pub struct SessionLoop {
    pub state: SessionState,
}

impl SessionLoop {
    pub fn new() -> (r: Self)
        ensures
            r.state == SessionState::AwaitingRenderer,
    {
        SessionLoop { state: SessionState::AwaitingRenderer }
    }

    pub fn is_active(&self) -> (r: bool)
        ensures
            r == (self.state is Active),
    {
        match self.state {
            SessionState::Active => true,
            _ => false,
        }
    }

    /// The error the session ended with, if it has ended.
    pub fn into_error(self) -> (r: Option<SessionError>)
        ensures
            match self.state {
                SessionState::Terminated(e) => r == Some(e),
                _ => r is None,
            },
    {
        match self.state {
            SessionState::Terminated(e) => Some(e),
            _ => None,
        }
    }

    /// Takes one event, moves to the next state and returns the actions to
    /// perform, in order.
    pub fn handle(&mut self, event: SessionEvent) -> (r: Vec<SessionAction>)
        ensures
            (final(self).state, r@) == step(old(self).state, event),
    {
        match self.state {
            SessionState::Terminated(_) => {
                return Vec::new();
            },
            SessionState::AwaitingRenderer => {
                match event {
                    SessionEvent::RendererAttached => {
                        self.state = SessionState::Active;
                    },
                    SessionEvent::RendererGone => {
                        self.state = SessionState::Terminated(
                            SessionError::ChannelClosed(ChannelKind::Renderer),
                        );
                    },
                    _ => {},
                }
                return Vec::new();
            },
            SessionState::Active => {},
        }
        match event {
            SessionEvent::RendererAttached => Vec::new(),
            SessionEvent::RendererGone => {
                self.state = SessionState::Terminated(
                    SessionError::ChannelClosed(ChannelKind::Renderer),
                );
                Vec::new()
            },
            SessionEvent::Outputs(outs) => {
                let (acts, end) = plan_outputs(outs);
                match end {
                    Some(err) => {
                        self.state = SessionState::Terminated(err);
                    },
                    None => {},
                }
                acts
            },
            SessionEvent::FrameFailed(m) => {
                self.state = SessionState::Terminated(SessionError::Protocol(m));
                Vec::new()
            },
            SessionEvent::WriteFailed(m) => {
                self.state = SessionState::Terminated(SessionError::Transport(m));
                Vec::new()
            },
            SessionEvent::MouseMoved(p) => {
                let mut acts: Vec<SessionAction> = Vec::new();
                acts.push(SessionAction::SendPointer { x: p.x, y: p.y });
                acts
            },
            SessionEvent::MouseClosed => {
                self.state = SessionState::Terminated(
                    SessionError::ChannelClosed(ChannelKind::Mouse),
                );
                Vec::new()
            },
            SessionEvent::InputBatch(b) => {
                let mut acts: Vec<SessionAction> = Vec::new();
                acts.push(SessionAction::SendKeys(b));
                acts
            },
            SessionEvent::InputClosed => {
                self.state = SessionState::Terminated(
                    SessionError::ChannelClosed(ChannelKind::Input),
                );
                Vec::new()
            },
        }
    }
}

} // verus!
