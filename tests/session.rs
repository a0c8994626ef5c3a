use rdp_core::keyboard::ScancodeEvent;
use rdp_core::mouse::RDPMousePosition;
use rdp_core::session::{
    select_source, ChannelKind, SessionAction, SessionError, SessionEvent, SessionLoop,
    SessionOutput, SessionState, Source,
};

fn active() -> SessionLoop {
    let mut s = SessionLoop::new();
    assert!(s.handle(SessionEvent::RendererAttached).is_empty());
    assert!(s.is_active());
    s
}

#[test]
fn transport_has_priority() {
    assert_eq!(select_source(true, true, true), Some(Source::Transport));
    assert_eq!(select_source(true, false, false), Some(Source::Transport));
    assert_eq!(select_source(false, true, true), Some(Source::Mouse));
    assert_eq!(select_source(false, false, true), Some(Source::Input));
    assert_eq!(select_source(false, false, false), None);
}

#[test]
fn closed_input_queue_ends_session() {
    let mut s = active();
    assert!(s.handle(SessionEvent::InputClosed).is_empty());
    assert!(!s.is_active());
    assert_eq!(s.into_error(), Some(SessionError::ChannelClosed(ChannelKind::Input)));
}

#[test]
fn closed_mouse_channel_ends_session() {
    let mut s = active();
    assert!(s.handle(SessionEvent::MouseClosed).is_empty());
    assert_eq!(s.into_error(), Some(SessionError::ChannelClosed(ChannelKind::Mouse)));
}

#[test]
fn read_error_ends_session_with_protocol_error() {
    let mut s = active();
    assert!(s.handle(SessionEvent::FrameFailed("broken pipe".to_string())).is_empty());
    assert_eq!(s.into_error(), Some(SessionError::Protocol("broken pipe".to_string())));
}

#[test]
fn write_error_ends_session() {
    let mut s = active();
    assert!(s.handle(SessionEvent::WriteFailed("reset".to_string())).is_empty());
    assert_eq!(s.into_error(), Some(SessionError::Transport("reset".to_string())));
}

#[test]
fn outputs_are_planned_in_order() {
    let mut s = active();
    let acts = s.handle(SessionEvent::Outputs(vec![
        SessionOutput::ResponseFrame(vec![1, 2]),
        SessionOutput::GraphicsUpdate,
        SessionOutput::Other("pointer".to_string()),
        SessionOutput::ResponseFrame(vec![3]),
    ]));
    assert_eq!(
        acts,
        vec![
            SessionAction::Write(vec![1, 2]),
            SessionAction::Publish,
            SessionAction::LogUnhandled("pointer".to_string()),
            SessionAction::Write(vec![3]),
        ]
    );
    assert!(s.is_active());
}

#[test]
fn terminate_drops_later_outputs() {
    let mut s = active();
    let acts = s.handle(SessionEvent::Outputs(vec![
        SessionOutput::ResponseFrame(vec![7]),
        SessionOutput::Terminate("logoff".to_string()),
        SessionOutput::ResponseFrame(vec![8]),
        SessionOutput::GraphicsUpdate,
    ]));
    assert_eq!(acts, vec![SessionAction::Write(vec![7])]);
    assert_eq!(s.into_error(), Some(SessionError::Terminated("logoff".to_string())));
}

#[test]
fn pointer_and_key_batches_go_to_the_engine() {
    let mut s = active();
    let acts = s.handle(SessionEvent::MouseMoved(RDPMousePosition { x: 3, y: 4 }));
    assert_eq!(acts, vec![SessionAction::SendPointer { x: 3, y: 4 }]);
    let batch = vec![
        ScancodeEvent { extended: false, released: false, code: 0x2a },
        ScancodeEvent { extended: false, released: false, code: 0x1e },
    ];
    let acts = s.handle(SessionEvent::InputBatch(batch.clone()));
    assert_eq!(acts, vec![SessionAction::SendKeys(batch)]);
    assert!(s.is_active());
}

#[test]
fn nothing_happens_before_renderer_attaches() {
    let mut s = SessionLoop::new();
    assert_eq!(s.state, SessionState::AwaitingRenderer);
    assert!(s.handle(SessionEvent::Outputs(vec![SessionOutput::GraphicsUpdate])).is_empty());
    assert_eq!(s.state, SessionState::AwaitingRenderer);
    assert!(s.handle(SessionEvent::RendererGone).is_empty());
    assert_eq!(s.into_error(), Some(SessionError::ChannelClosed(ChannelKind::Renderer)));
}

#[test]
fn ended_session_ignores_everything() {
    let mut s = active();
    s.handle(SessionEvent::InputClosed);
    assert!(s.handle(SessionEvent::Outputs(vec![SessionOutput::ResponseFrame(vec![1])])).is_empty());
    assert!(s.handle(SessionEvent::RendererAttached).is_empty());
    assert_eq!(s.into_error(), Some(SessionError::ChannelClosed(ChannelKind::Input)));
}
