use puente_balanza::cache::Cache;
use puente_balanza::command::{classify_chunk, classify_line, Command, LineKind};
use puente_balanza::session::{
    no_data_reply_bytes, trigger_request_bytes, Action, Phase, Session, Timing, POLL_INTERVAL_MS,
};
use puente_balanza::text::line_from_chunk;

fn timing(cache_ms: u64, w_cache_ms: u64, w_timeout_ms: u64) -> Timing {
    Timing {
        cache_duration_ms: cache_ms,
        w_cache_duration_ms: w_cache_ms,
        w_response_timeout_ms: w_timeout_ms,
    }
}

/// Runs the look-and-pause loop on a virtual clock until an answer comes.
/// `publish` optionally puts a payload into the cache at a given instant.
/// Returns the answer, the instant it came, and how many requests were queued.
fn run_command(
    line: &[u8],
    t: Timing,
    cache: &mut Cache,
    start_ms: u64,
    publish: Option<(u64, &[u8])>,
    queue_accepts: bool,
) -> (Vec<u8>, u64, usize) {
    let mut session = Session::new();
    let mut now = start_ms;
    let mut queued = 0usize;
    let mut published = false;
    let mut action = session.on_line(line, t, now);
    loop {
        if let Some((at, payload)) = publish {
            if !published && now >= at {
                cache.set(payload.to_vec(), at);
                published = true;
            }
        }
        action = match action {
            Action::Idle => panic!("no answer"),
            Action::Reply(bytes) => {
                assert_eq!(session.phase, Phase::AwaitLine);
                return (bytes, now, queued);
            }
            Action::Enqueue(bytes) => {
                assert_eq!(bytes, trigger_request_bytes());
                queued += 1;
                session.on_enqueued(queue_accepts, now)
            }
            Action::Probe { delay_ms, freshness_ms } => {
                now += delay_ms;
                if let Some((at, payload)) = publish {
                    if !published && now >= at {
                        cache.set(payload.to_vec(), at);
                        published = true;
                    }
                }
                let found = cache.get_if_valid(freshness_ms, now);
                session.on_probe(found, now)
            }
        };
    }
}

#[test]
fn grammar_accepts_repeated_tokens() {
    assert_eq!(Command::parse("1"), Some(Command::ImmediateRead));
    assert_eq!(Command::parse("111"), Some(Command::ImmediateRead));
    assert_eq!(Command::parse("W"), Some(Command::TriggerAndWait));
    assert_eq!(Command::parse("WWW"), Some(Command::TriggerAndWait));
    assert_eq!(Command::parse("w"), None);
    assert_eq!(Command::parse("1W"), None);
    assert_eq!(Command::parse("1 1"), None);
    assert_eq!(Command::parse(""), None);
}

#[test]
fn lines_are_trimmed_before_classifying() {
    assert_eq!(classify_chunk(b"  1\r\n"), LineKind::Request(Command::ImmediateRead));
    assert_eq!(classify_chunk(b"\tWW \n"), LineKind::Request(Command::TriggerAndWait));
    assert_eq!(classify_chunk(b" \r\n"), LineKind::Blank);
    assert_eq!(classify_chunk(b""), LineKind::Blank);
    assert_eq!(classify_chunk(b"PING\n"), LineKind::Unrecognized);
    assert_eq!(classify_chunk(&[0xff, b'1']), LineKind::Unrecognized);
    assert_eq!(classify_line("PING"), LineKind::Unrecognized);
}

#[test]
fn chunk_is_decoded_leniently() {
    assert_eq!(line_from_chunk(b"  W \n"), "W");
    assert_eq!(line_from_chunk(&[b' ', 0xff, b'1', b'\n']), "\u{fffd}1");
    assert_eq!(line_from_chunk("\u{a0}1\u{2003}".as_bytes()), "1");
}

#[test]
fn blank_line_gets_no_answer() {
    let mut s = Session::new();
    assert!(matches!(s.on_line(b"  \r\n", timing(1000, 500, 750), 0), Action::Idle));
    assert_eq!(s.phase, Phase::AwaitLine);
}

#[test]
fn unrecognized_line_keeps_connection_open() {
    let t = timing(1000, 500, 750);
    let mut s = Session::new();
    match s.on_line(b"PING\n", t, 0) {
        Action::Reply(b) => assert_eq!(b, b"Comando invalido\n".to_vec()),
        _ => panic!("expected the invalid-command reply"),
    }
    assert_eq!(s.phase, Phase::AwaitLine);
    let mut cache = Cache::new();
    cache.set(b"5.00kg\n".to_vec(), 0);
    let (answer, _, _) = run_command(b"1\n", t, &mut cache, 10, None, true);
    assert_eq!(answer, b"5.00kg\n".to_vec());
}

#[test]
fn immediate_read_answers_from_fresh_cache() {
    let mut cache = Cache::new();
    cache.set(b"OK\n".to_vec(), 900);
    let (answer, at, queued) = run_command(b"1\n", timing(1000, 500, 750), &mut cache, 1500, None, true);
    assert_eq!(answer, b"OK\n".to_vec());
    assert_eq!(at, 1500);
    assert_eq!(queued, 0);
}

#[test]
fn immediate_read_stale_cache_gives_no_data() {
    let mut cache = Cache::new();
    cache.set(b"OK\n".to_vec(), 0);
    let (answer, at, queued) = run_command(b"1\n", timing(1000, 500, 750), &mut cache, 1500, None, true);
    assert_eq!(answer, b"NO DATA\n".to_vec());
    assert_eq!(answer, no_data_reply_bytes());
    assert!(at - 1500 >= 1000);
    assert!(at - 1500 <= 1050);
    assert_eq!(queued, 0);
}

#[test]
fn immediate_read_empty_cache_waits_one_duration() {
    let mut cache = Cache::new();
    let (answer, at, _) = run_command(b"1", timing(300, 500, 750), &mut cache, 0, None, true);
    assert_eq!(answer, b"NO DATA\n".to_vec());
    assert!(at > 300);
    assert!(at <= 300 + POLL_INTERVAL_MS);
}

#[test]
fn immediate_read_takes_reading_published_while_waiting() {
    let mut cache = Cache::new();
    let (answer, at, _) =
        run_command(b"1", timing(1000, 500, 750), &mut cache, 0, Some((120, b"7.50kg\n")), true);
    assert_eq!(answer, b"7.50kg\n".to_vec());
    assert_eq!(at, 120);
}

#[test]
fn trigger_and_wait_receives_new_reading() {
    let mut cache = Cache::new();
    let (answer, at, queued) =
        run_command(b"W\n", timing(1000, 500, 750), &mut cache, 0, Some((200, b"12.34kg\n")), true);
    assert_eq!(answer, b"12.34kg\n".to_vec());
    assert!(at <= 250);
    assert_eq!(queued, 1);
}

#[test]
fn trigger_and_wait_times_out() {
    let mut cache = Cache::new();
    let (answer, at, queued) = run_command(b"W\n", timing(1000, 500, 750), &mut cache, 0, None, true);
    assert_eq!(answer, b"W TIMEOUT\n".to_vec());
    assert!(at > 750);
    assert!(at <= 750 + POLL_INTERVAL_MS);
    assert_eq!(queued, 1);
}

#[test]
fn trigger_and_wait_ignores_reading_older_than_window() {
    let mut cache = Cache::new();
    cache.set(b"old\n".to_vec(), 0);
    let (answer, _, _) = run_command(b"W\n", timing(1000, 500, 750), &mut cache, 600, None, true);
    assert_eq!(answer, b"W TIMEOUT\n".to_vec());
}

#[test]
fn trigger_refused_by_queue_answers_at_once() {
    let mut cache = Cache::new();
    let (answer, at, queued) = run_command(b"W\n", timing(1000, 500, 750), &mut cache, 40, None, false);
    assert_eq!(answer, b"W ERROR\n".to_vec());
    assert_eq!(at, 40);
    assert_eq!(queued, 1);
}

#[test]
fn events_out_of_phase_are_ignored() {
    let t = timing(1000, 500, 750);
    let mut s = Session::new();
    assert!(matches!(s.on_probe(Some(b"x".to_vec()), 0), Action::Idle));
    assert!(matches!(s.on_enqueued(true, 0), Action::Idle));
    assert_eq!(s.phase, Phase::AwaitLine);
    assert!(matches!(s.on_line(b"W", t, 0), Action::Enqueue(_)));
    assert!(matches!(s.on_line(b"1", t, 0), Action::Idle));
    assert_eq!(s.phase, Phase::Triggering { freshness_ms: 500, timeout_ms: 750 });
}
