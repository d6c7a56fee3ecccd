use rust_vid_streamer::session::{on_interrupt, BusMessageKind, InterruptAction, Phase, Reaction, Session};

fn watch(msgs: &[BusMessageKind]) -> (Vec<Reaction>, Phase) {
    let mut s = Session::new();
    assert!(s.start());
    let reactions = msgs.iter().map(|m| s.on_bus_message(*m)).collect();
    (reactions, s.phase())
}

#[test]
fn session_starts_once() {
    let mut s = Session::new();
    assert_eq!(s.phase(), Phase::Ready);
    assert!(s.start());
    assert_eq!(s.phase(), Phase::Playing);
    assert!(!s.start());
    assert_eq!(s.phase(), Phase::Playing);
}

#[test]
fn ready_session_ignores_bus() {
    let mut s = Session::new();
    assert_eq!(s.on_bus_message(BusMessageKind::EndOfStream), Reaction::Ignore);
    assert_eq!(s.phase(), Phase::Ready);
}

#[test]
fn end_of_stream_stops_without_report() {
    let (r, p) = watch(&[BusMessageKind::Other, BusMessageKind::Other, BusMessageKind::EndOfStream]);
    assert_eq!(
        r,
        vec![Reaction::KeepListening, Reaction::KeepListening, Reaction::Shutdown { report_error: false }]
    );
    assert_eq!(p, Phase::Stopped);
}

#[test]
fn error_stops_with_report_and_later_messages_are_ignored() {
    let (r, p) = watch(&[
        BusMessageKind::Other,
        BusMessageKind::Error,
        BusMessageKind::EndOfStream,
        BusMessageKind::Error,
        BusMessageKind::Other,
    ]);
    assert_eq!(
        r,
        vec![
            Reaction::KeepListening,
            Reaction::Shutdown { report_error: true },
            Reaction::Ignore,
            Reaction::Ignore,
            Reaction::Ignore
        ]
    );
    assert_eq!(p, Phase::Stopped);
    assert_eq!(r.iter().filter(|x| matches!(x, Reaction::Shutdown { .. })).count(), 1);
}

#[test]
fn no_terminal_message_keeps_playing() {
    let (r, p) = watch(&[BusMessageKind::Other; 4]);
    assert!(r.iter().all(|x| *x == Reaction::KeepListening));
    assert_eq!(p, Phase::Playing);
}

#[test]
fn interrupt_ends_live_pipeline_cleanly() {
    assert_eq!(on_interrupt(true), InterruptAction::SendEndOfStream);
    assert_eq!(on_interrupt(false), InterruptAction::Ignore);
    let (r, _) = watch(&[BusMessageKind::EndOfStream]);
    assert_eq!(r, vec![Reaction::Shutdown { report_error: false }]);
}
