use craft_cli::message::{Message, MessageType, Stream, Target, Verbosity};

const MODES: [Verbosity; 4] =
    [Verbosity::Quiet, Verbosity::Brief, Verbosity::Verbose, Verbosity::Trace];

fn message(model: MessageType) -> Message {
    Message { text: String::from("x"), model, target: Target::Stdout }
}

#[test]
fn progress_goes_to_stdout_in_every_mode() {
    for mode in MODES {
        assert_eq!(message(MessageType::ProgPersistent).determine_stream(mode), Some(Stream::Stdout));
        assert_eq!(message(MessageType::ProgEphemeral).determine_stream(mode), Some(Stream::Stdout));
    }
}

#[test]
fn warnings_and_errors_go_to_stderr_in_every_mode() {
    for mode in MODES {
        assert_eq!(message(MessageType::Warning).determine_stream(mode), Some(Stream::Stderr));
        assert_eq!(message(MessageType::Error).determine_stream(mode), Some(Stream::Stderr));
    }
}

#[test]
fn info_is_shown_unless_quiet() {
    assert_eq!(message(MessageType::Info).determine_stream(Verbosity::Quiet), None);
    assert_eq!(message(MessageType::Info).determine_stream(Verbosity::Brief), Some(Stream::Stdout));
    assert_eq!(message(MessageType::Info).determine_stream(Verbosity::Verbose), Some(Stream::Stdout));
    assert_eq!(message(MessageType::Info).determine_stream(Verbosity::Trace), Some(Stream::Stdout));
}

#[test]
fn debug_and_trace_need_verbose_or_more() {
    for model in [MessageType::Debug, MessageType::Trace] {
        assert_eq!(message(model).determine_stream(Verbosity::Quiet), None);
        assert_eq!(message(model).determine_stream(Verbosity::Brief), None);
        assert_eq!(message(model).determine_stream(Verbosity::Verbose), Some(Stream::Stdout));
        assert_eq!(message(model).determine_stream(Verbosity::Trace), Some(Stream::Stdout));
    }
}

#[test]
fn the_stream_does_not_depend_on_text_or_target() {
    let a = Message { text: String::from("a"), model: MessageType::Error, target: Target::Null };
    let b = Message { text: String::from("b"), model: MessageType::Error, target: Target::Stdout };
    assert_eq!(a.determine_stream(Verbosity::Brief), b.determine_stream(Verbosity::Brief));
}

#[test]
fn verbosity_is_ordered() {
    assert!(Verbosity::Trace.at_least(Verbosity::Verbose));
    assert!(Verbosity::Verbose.at_least(Verbosity::Brief));
    assert!(Verbosity::Brief.at_least(Verbosity::Quiet));
    assert!(Verbosity::Brief.at_least(Verbosity::Brief));
    assert!(!Verbosity::Quiet.at_least(Verbosity::Brief));
    assert!(!Verbosity::Verbose.at_least(Verbosity::Trace));
}
