use craft_cli::emitter::{humanize_list, without_trailing, Emitter};
use craft_cli::message::{MessageType, Target, Verbosity};

const MODES: [Verbosity; 4] =
    [Verbosity::Quiet, Verbosity::Brief, Verbosity::Verbose, Verbosity::Trace];

fn emitter(mode: Verbosity) -> Emitter {
    Emitter::new(String::from("/tmp/app.log"), mode, "https://docs.example/")
}

fn strings(values: &[&str]) -> Vec<String> {
    values.iter().map(|v| String::from(*v)).collect()
}

#[test]
fn the_base_url_loses_its_trailing_slashes() {
    assert_eq!(emitter(Verbosity::Brief).docs_base_url, "https://docs.example");
    let e = Emitter::new(String::from("l"), Verbosity::Brief, "https://docs.example///");
    assert_eq!(e.docs_base_url, "https://docs.example");
    let e = Emitter::new(String::from("l"), Verbosity::Brief, "/a/b");
    assert_eq!(e.docs_base_url, "/a/b");
    assert_eq!(e.log_filepath, "l");
}

#[test]
fn trailing_characters_are_removed() {
    assert_eq!(without_trailing("a//", '/'), "a");
    assert_eq!(without_trailing("///", '/'), "");
    assert_eq!(without_trailing("", '/'), "");
    assert_eq!(without_trailing("/a", '/'), "/a");
}

#[test]
fn the_mode_is_kept() {
    for mode in MODES {
        assert_eq!(emitter(mode).get_mode(), mode);
    }
}

#[test]
fn verbose_is_shown_from_verbose_mode_on() {
    let targets: Vec<Target> =
        MODES.iter().map(|m| emitter(*m).verbose(String::from("x")).target).collect();
    assert_eq!(targets, vec![Target::Null, Target::Null, Target::Stderr, Target::Stderr]);
    let m = emitter(Verbosity::Verbose).verbose(String::from("x"));
    assert_eq!(m.model, MessageType::Debug);
    assert_eq!(m.text, "x");
}

#[test]
fn debug_and_trace_are_shown_in_trace_mode_only() {
    let debug: Vec<Target> =
        MODES.iter().map(|m| emitter(*m).debug(String::from("x")).target).collect();
    assert_eq!(debug, vec![Target::Null, Target::Null, Target::Null, Target::Stderr]);
    let trace: Vec<Target> =
        MODES.iter().map(|m| emitter(*m).trace(String::from("x")).target).collect();
    assert_eq!(trace, vec![Target::Null, Target::Null, Target::Null, Target::Stderr]);
    assert_eq!(emitter(Verbosity::Trace).debug(String::from("x")).model, MessageType::Debug);
    assert_eq!(emitter(Verbosity::Trace).trace(String::from("x")).model, MessageType::Trace);
    assert_eq!(emitter(Verbosity::Trace).trace(String::from("x")).text, "x");
}

#[test]
fn progress_stays_by_mode_and_by_request() {
    let quiet = emitter(Verbosity::Quiet);
    assert_eq!(quiet.progress(String::from("x"), Some(true)).model, MessageType::ProgEphemeral);
    assert_eq!(quiet.progress(String::from("x"), Some(true)).target, Target::Null);
    let brief = emitter(Verbosity::Brief);
    assert_eq!(brief.progress(String::from("x"), None).model, MessageType::ProgEphemeral);
    assert_eq!(brief.progress(String::from("x"), Some(false)).model, MessageType::ProgEphemeral);
    assert_eq!(brief.progress(String::from("x"), Some(true)).model, MessageType::ProgPersistent);
    assert_eq!(brief.progress(String::from("x"), None).target, Target::Stderr);
    for mode in [Verbosity::Verbose, Verbosity::Trace] {
        let e = emitter(mode);
        assert_eq!(e.progress(String::from("x"), None).model, MessageType::ProgPersistent);
        assert_eq!(e.progress(String::from("x"), Some(false)).model, MessageType::ProgPersistent);
        assert_eq!(e.progress(String::from("x"), Some(false)).target, Target::Stderr);
    }
}

#[test]
fn a_result_goes_to_stdout_unless_quiet() {
    let targets: Vec<Target> =
        MODES.iter().map(|m| emitter(*m).message(String::from("x")).target).collect();
    assert_eq!(targets, vec![Target::Null, Target::Stdout, Target::Stdout, Target::Stdout]);
    assert_eq!(emitter(Verbosity::Brief).message(String::from("x")).model, MessageType::Info);
}

#[test]
fn the_closing_note_names_the_log() {
    for mode in MODES {
        let m = emitter(mode).finish();
        assert_eq!(m.text, "Full execution log at '/tmp/app.log'");
        assert_eq!(m.model, MessageType::Info);
        assert_eq!(m.target, Target::Stderr);
    }
}

#[test]
fn a_list_is_told_in_words() {
    assert_eq!(humanize_list(strings(&["a", "b", "c"]), None), "a, b, and c");
    assert_eq!(humanize_list(strings(&["a", "b", "c"]), Some("or")), "a, b, or c");
    assert_eq!(humanize_list(strings(&["a", "b"]), None), "a, and b");
    assert_eq!(humanize_list(strings(&["a", "b", "c", "d"]), Some("and")), "a, b, c, and d");
}

#[test]
fn a_list_of_one_keeps_comma_and_conjunction() {
    assert_eq!(humanize_list(strings(&["a"]), None), ", and a");
    assert_eq!(humanize_list(strings(&[""]), Some("")), ",  ");
}
