use craft_cli::message::{Message, MessageType, Stream, Target, Verbosity};
use craft_cli::render::{Terminal, Write};
use craft_cli::session::Session;
use craft_cli::worker::{Event, InnerPrinter, Step};

const ANSI: Terminal = Terminal { columns: 40, ansi: true };
const PLAIN: Terminal = Terminal { columns: 12, ansi: false };

fn texts(writes: &[Write]) -> Vec<(Stream, String)> {
    writes.iter().map(|w| (w.stream, w.text.clone())).collect()
}

fn on(stream: Stream, text: &str) -> (Stream, String) {
    (stream, String::from(text))
}

fn worker(mode: Verbosity, term: Terminal) -> InnerPrinter {
    InnerPrinter::new(mode, term, String::new()).0
}

fn message(model: MessageType, text: &str, at: i64) -> Event {
    Event::Message {
        message: Message { text: String::from(text), model, target: Target::Stdout },
        at,
    }
}

fn hidden(model: MessageType, text: &str, at: i64) -> Event {
    Event::Message { message: Message { text: String::from(text), model, target: Target::Null }, at }
}

fn written_to(session: &Session, stream: Stream) -> String {
    session.writes.iter().filter(|w| w.stream == stream).map(|w| w.text.as_str()).collect()
}

fn visible(text: &str) -> (Vec<String>, String) {
    let mut rows: Vec<String> = Vec::new();
    let mut line: Vec<char> = Vec::new();
    let mut col = 0;
    let mut chars = text.chars().peekable();
    while let Some(c) = chars.next() {
        match c {
            '\x1b' => {
                if chars.peek() == Some(&'[') {
                    chars.next();
                    while let Some(p) = chars.next() {
                        if p == 'K' {
                            line.truncate(col);
                        }
                        if !(p == '?' || p == ';' || p.is_ascii_digit()) {
                            break;
                        }
                    }
                }
            }
            '\r' => col = 0,
            '\n' => {
                rows.push(line.iter().collect::<String>().trim_end().to_string());
                line.clear();
                col = 0;
            }
            _ => {
                if col < line.len() {
                    line[col] = c;
                } else {
                    line.push(c);
                }
                col += 1;
            }
        }
    }
    (rows, line.iter().collect::<String>().trim_end().to_string())
}

#[test]
fn a_new_worker_hides_the_cursor() {
    let (w, hide) = InnerPrinter::new(Verbosity::Brief, ANSI, String::from("BUILD"));
    assert_eq!((hide.stream, hide.text.as_str()), (Stream::Stdout, "\x1b[?25l"));
    assert!(w.running);
    assert!(w.previous.is_none());
    assert_eq!(w.prefix, "BUILD");
    assert_eq!(w.wait_ms(), 3000);
}

#[test]
fn a_brief_session_shows_and_logs_one_line() {
    let mut w = worker(Verbosity::Brief, ANSI);
    let events =
        vec![message(MessageType::Info, "build ok", 1_700_000_000_123), Event::Disconnected];
    let s = w.run(&events);
    assert_eq!(s.log, vec![String::from("2023-11-14 22:13:20.123 build ok\n")]);
    assert_eq!(written_to(&s, Stream::Stdout), "build ok\x1b[K\n\x1b[?25h");
    assert_eq!(written_to(&s, Stream::Stderr), "");
    assert_eq!(visible(&written_to(&s, Stream::Stdout)), (vec![String::from("build ok")], String::new()));
    assert!(!w.running);
}

#[test]
fn a_quiet_session_logs_and_shows_nothing() {
    let mut w = worker(Verbosity::Quiet, ANSI);
    let step = w.listen(&message(MessageType::Info, "x", 0));
    assert!(step.writes.is_empty());
    assert_eq!(step.log, Some(String::from("1970-01-01 00:00:00.000 x\n")));
    assert!(w.previous.is_none());
    let end = w.listen(&Event::Disconnected);
    assert_eq!(texts(&end.writes), vec![on(Stream::Stdout, "\x1b[?25h")]);
    assert!(end.log.is_none());
}

#[test]
fn quiet_hides_debug_and_trace_too() {
    for model in [MessageType::Info, MessageType::Debug, MessageType::Trace] {
        let mut w = worker(Verbosity::Quiet, ANSI);
        let step = w.listen(&message(model, "x", 0));
        assert!(step.writes.is_empty());
        assert!(step.log.is_some());
    }
}

#[test]
fn a_null_target_hides_a_message_in_every_mode() {
    for mode in [Verbosity::Quiet, Verbosity::Brief, Verbosity::Verbose, Verbosity::Trace] {
        let mut w = worker(mode, ANSI);
        let step = w.listen(&hidden(MessageType::Error, "x", 0));
        assert!(step.writes.is_empty());
        assert_eq!(step.log, Some(String::from("1970-01-01 00:00:00.000 x\n")));
    }
}

#[test]
fn warnings_and_errors_are_shown_on_stderr_even_when_quiet() {
    let mut w = worker(Verbosity::Quiet, ANSI);
    let step = w.listen(&message(MessageType::Error, "oops", 0));
    assert_eq!(texts(&step.writes), vec![on(Stream::Stderr, "oops\x1b[K")]);
    let step = w.listen(&message(MessageType::Warning, "careful", 0));
    assert_eq!(texts(&step.writes), vec![on(Stream::Stderr, "\ncareful\x1b[K")]);
}

#[test]
fn lasting_progress_replaces_ephemeral_progress() {
    let mut w = worker(Verbosity::Brief, ANSI);
    let events = vec![
        message(MessageType::ProgEphemeral, "50%", 0),
        message(MessageType::ProgPersistent, "100%", 10),
        Event::Disconnected,
    ];
    let s = w.run(&events);
    assert_eq!(written_to(&s, Stream::Stdout), "50%\x1b[K\r100%\x1b[K\n\x1b[?25h");
    assert_eq!(visible(&written_to(&s, Stream::Stdout)), (vec![String::from("100%")], String::new()));
    assert_eq!(s.log.len(), 2);
}

#[test]
fn a_shorter_line_leaves_nothing_of_a_longer_ephemeral_one() {
    for term in [ANSI, PLAIN] {
        let mut w = worker(Verbosity::Brief, term);
        let events = vec![
            message(MessageType::ProgEphemeral, "downloading", 0),
            message(MessageType::ProgEphemeral, "unpacking", 10),
            message(MessageType::Info, "ok", 20),
        ];
        let s = w.run(&events);
        assert_eq!(visible(&written_to(&s, Stream::Stdout)), (Vec::<String>::new(), String::from("ok")));
    }
}

#[test]
fn without_ansi_lines_are_padded() {
    let mut w = worker(Verbosity::Brief, PLAIN);
    let events = vec![
        message(MessageType::ProgEphemeral, "downloading", 0),
        message(MessageType::ProgPersistent, "done", 10),
    ];
    let s = w.run(&events);
    assert_eq!(written_to(&s, Stream::Stdout), "downloading \rdone        ");
}

#[test]
fn lasting_lines_follow_each_other() {
    let mut w = worker(Verbosity::Verbose, ANSI);
    let events = vec![
        message(MessageType::Info, "one", 0),
        message(MessageType::Debug, "two", 1),
        message(MessageType::Error, "three", 2),
        Event::Disconnected,
    ];
    let s = w.run(&events);
    assert_eq!(written_to(&s, Stream::Stdout), "one\x1b[K\ntwo\x1b[K\x1b[?25h");
    assert_eq!(written_to(&s, Stream::Stderr), "\nthree\x1b[K\n");
    let all: String = s.writes.iter().map(|w| w.text.as_str()).collect();
    assert_eq!(
        visible(&all),
        (vec![String::from("one"), String::from("two"), String::from("three")], String::new())
    );
}

#[test]
fn every_message_is_logged_once_in_order() {
    for mode in [Verbosity::Quiet, Verbosity::Brief, Verbosity::Verbose, Verbosity::Trace] {
        let mut w = worker(mode, ANSI);
        let events = vec![
            message(MessageType::Info, "a", 0),
            Event::Timeout { at: 3000 },
            hidden(MessageType::Debug, "b ", 4000),
            message(MessageType::ProgEphemeral, " c", 5000),
            Event::Prefix { text: String::from("P") },
            message(MessageType::Trace, "d", 6000),
            message(MessageType::Error, "e", 7000),
        ];
        let s = w.run(&events);
        assert_eq!(
            s.log,
            vec![
                String::from("1970-01-01 00:00:00.000 a\n"),
                String::from("1970-01-01 00:00:04.000 b\n"),
                String::from("1970-01-01 00:00:05.000 c\n"),
                String::from("1970-01-01 00:00:06.000 d\n"),
                String::from("1970-01-01 00:00:07.000 e\n"),
            ]
        );
    }
}

#[test]
fn running_is_listening_to_each_event() {
    let events = vec![
        message(MessageType::ProgEphemeral, "50%", 0),
        Event::Timeout { at: 3000 },
        message(MessageType::Info, "done", 3500),
        Event::Disconnected,
    ];
    let mut whole = worker(Verbosity::Brief, ANSI);
    let session = whole.run(&events);
    let mut single = worker(Verbosity::Brief, ANSI);
    let mut writes: Vec<(Stream, String)> = Vec::new();
    let mut log: Vec<String> = Vec::new();
    for e in &events {
        let Step { writes: w, log: l, .. } = single.listen(e);
        writes.extend(texts(&w));
        log.extend(l);
    }
    assert_eq!(texts(&session.writes), writes);
    assert_eq!(session.log, log);
}

#[test]
fn a_message_left_alone_is_spun_on() {
    let mut w = worker(Verbosity::Brief, ANSI);
    let first = w.listen(&message(MessageType::Info, "working…", 1000));
    assert_eq!(texts(&first.writes), vec![on(Stream::Stdout, "working…\x1b[K")]);
    assert_eq!(w.wait_ms(), 3000);
    let frame = w.listen(&Event::Timeout { at: 4500 });
    assert_eq!(texts(&frame.writes), vec![on(Stream::Stdout, "\rworking… ⠁ 3.5\x1b[K")]);
    assert!(frame.log.is_none());
    assert!(!frame.done);
    assert_eq!(w.wait_ms(), 100);
    let next = w.listen(&Event::Timeout { at: 4600 });
    assert_eq!(texts(&next.writes), vec![on(Stream::Stdout, "\rworking… ⠂ 3.6\x1b[K")]);
}

#[test]
fn the_time_shown_by_the_spinner_does_not_run_backwards() {
    let mut w = worker(Verbosity::Brief, ANSI);
    w.listen(&message(MessageType::Info, "working", 1000));
    let mut shown: Vec<String> = Vec::new();
    for at in [4000, 4100, 4100, 4250, 9000] {
        let frame = w.listen(&Event::Timeout { at });
        shown.push(frame.writes[0].text.clone());
    }
    assert_eq!(
        shown,
        vec![
            String::from("\rworking ⠁ 3.0\x1b[K"),
            String::from("\rworking ⠂ 3.1\x1b[K"),
            String::from("\rworking ⠄ 3.1\x1b[K"),
            String::from("\rworking ⡀ 3.2\x1b[K"),
            String::from("\rworking ⢀ 8.0\x1b[K"),
        ]
    );
}

#[test]
fn a_new_message_ends_the_spinner_before_it_is_shown() {
    let mut w = worker(Verbosity::Brief, ANSI);
    w.listen(&message(MessageType::Info, "working", 1000));
    w.listen(&Event::Timeout { at: 4000 });
    let step = w.listen(&message(MessageType::Info, "done", 5000));
    assert_eq!(
        texts(&step.writes),
        vec![
            on(Stream::Stdout, "\rworking (took 4s)\x1b[K"),
            on(Stream::Stdout, "\n"),
            on(Stream::Stdout, "done\x1b[K"),
        ]
    );
    assert_eq!(step.log, Some(String::from("1970-01-01 00:00:05.000 done\n")));
    assert_eq!(w.wait_ms(), 3000);
}

#[test]
fn only_the_latest_message_is_spun_on() {
    let mut w = worker(Verbosity::Brief, ANSI);
    w.listen(&message(MessageType::Info, "one", 1000));
    w.listen(&message(MessageType::Info, "two", 2000));
    let frame = w.listen(&Event::Timeout { at: 5000 });
    assert_eq!(texts(&frame.writes), vec![on(Stream::Stdout, "\rtwo ⠁ 3.0\x1b[K")]);
}

#[test]
fn a_hidden_message_is_not_spun_on() {
    let mut w = worker(Verbosity::Brief, ANSI);
    w.listen(&message(MessageType::Info, "one", 1000));
    w.listen(&message(MessageType::Debug, "two", 2000));
    let frame = w.listen(&Event::Timeout { at: 5000 });
    assert!(frame.writes.is_empty());
    let mut idle = worker(Verbosity::Brief, ANSI);
    assert!(idle.listen(&Event::Timeout { at: 5000 }).writes.is_empty());
}

#[test]
fn the_end_of_the_queue_stops_a_spinning_worker_without_another_frame() {
    let mut w = worker(Verbosity::Brief, ANSI);
    w.listen(&message(MessageType::Info, "working", 1000));
    w.listen(&Event::Timeout { at: 4000 });
    let end = w.listen(&Event::Disconnected);
    assert_eq!(texts(&end.writes), vec![on(Stream::Stdout, "\n"), on(Stream::Stdout, "\x1b[?25h")]);
    assert!(end.done);
    assert!(!w.running);
}

#[test]
fn an_open_line_on_stderr_is_completed_there() {
    let mut w = worker(Verbosity::Brief, ANSI);
    w.listen(&message(MessageType::Error, "oops", 0));
    let end = w.listen(&Event::Disconnected);
    assert_eq!(texts(&end.writes), vec![on(Stream::Stderr, "\n"), on(Stream::Stdout, "\x1b[?25h")]);
}

#[test]
fn a_stopped_worker_does_nothing() {
    let mut w = worker(Verbosity::Brief, ANSI);
    w.listen(&Event::Disconnected);
    for e in [
        message(MessageType::Info, "late", 0),
        Event::Timeout { at: 5000 },
        Event::Prefix { text: String::from("P") },
        Event::Disconnected,
    ] {
        let step = w.listen(&e);
        assert!(step.writes.is_empty());
        assert!(step.log.is_none());
        assert!(step.done);
    }
    assert_eq!(w.prefix, "");
}

#[test]
fn a_prefix_labels_the_lines_that_follow() {
    let mut w = worker(Verbosity::Brief, ANSI);
    let set = w.listen(&Event::Prefix { text: String::from("BUILD") });
    assert!(set.writes.is_empty());
    assert!(set.log.is_none());
    let step = w.listen(&message(MessageType::Info, "compiling", 0));
    assert_eq!(texts(&step.writes), vec![on(Stream::Stdout, "BUILD :: compiling\x1b[K")]);
    assert_eq!(step.log, Some(String::from("1970-01-01 00:00:00.000 compiling\n")));
    let step = w.listen(&message(MessageType::Info, "BUILD failed", 0));
    assert_eq!(texts(&step.writes), vec![on(Stream::Stdout, "\nBUILD :: BUILD failed\x1b[K")]);
    let step = w.listen(&message(MessageType::Info, ":: linking", 0));
    assert_eq!(texts(&step.writes), vec![on(Stream::Stdout, "\nBUILD :: linking\x1b[K")]);
}

#[test]
fn trace_mode_stamps_what_is_not_a_result() {
    let mut w = worker(Verbosity::Trace, Terminal { columns: 80, ansi: true });
    let step = w.listen(&message(MessageType::Debug, "probing", 1_700_000_000_123));
    assert_eq!(texts(&step.writes), vec![on(Stream::Stdout, "2023-11-14 22:13:20.123 probing\x1b[K")]);
    let step = w.listen(&message(MessageType::Info, "result", 1_700_000_000_123));
    assert_eq!(texts(&step.writes), vec![on(Stream::Stdout, "\nresult\x1b[K")]);
    let mut v = worker(Verbosity::Verbose, Terminal { columns: 80, ansi: true });
    let step = v.listen(&message(MessageType::Debug, "probing", 1_700_000_000_123));
    assert_eq!(texts(&step.writes), vec![on(Stream::Stdout, "probing\x1b[K")]);
}

#[test]
fn progress_is_rendered_to_stay_or_to_go() {
    let mut w = worker(Verbosity::Brief, ANSI);
    let m = Message { text: String::from("50%"), model: MessageType::ProgPersistent, target: Target::Stderr };
    let writes = w.progress(&m, false, 0);
    assert_eq!(texts(&writes), vec![on(Stream::Stdout, "50%\x1b[K")]);
    assert!(w.previous.as_ref().unwrap().ephemeral);
    let writes = w.progress(&m, true, 0);
    assert_eq!(texts(&writes), vec![on(Stream::Stdout, "\r50%\x1b[K")]);
    assert!(!w.previous.as_ref().unwrap().ephemeral);
    assert_eq!(w.spinner.pending.as_ref().unwrap().text, "50%");
}

#[test]
fn a_failed_step_can_be_taken_back() {
    let mut w = worker(Verbosity::Brief, ANSI);
    w.listen(&message(MessageType::ProgEphemeral, "50%", 0));
    let step = w.listen(&message(MessageType::ProgPersistent, "100%", 0));
    assert_eq!(w.previous.as_ref().unwrap().shown, "100%");
    assert_eq!(step.before.as_ref().unwrap().shown, "50%");
    w.restore(step.before);
    assert_eq!(w.previous.as_ref().unwrap().shown, "50%");
    assert!(w.previous.as_ref().unwrap().ephemeral);
    let again = w.listen(&message(MessageType::ProgPersistent, "100%", 0));
    assert_eq!(texts(&again.writes), vec![on(Stream::Stdout, "\r100%\x1b[K")]);
}
