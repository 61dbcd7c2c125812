use scraplirs::channel::authenticate::{
    AuthPhase,
    Authenticate,
    PASSPHRASE_SEEN_TOO_OFTEN,
    PASSWORD_SEEN_TOO_OFTEN,
    USER_SEEN_TOO_OFTEN,
};
use scraplirs::channel::channel::{ReadSignal, QUEUE_FULL, READ_LOOP_GONE};
use scraplirs::channel::constants::{
    DEFAULT_PROMPT_SEARCH_DEPTH,
    DEFAULT_READ_DELAY,
    DEFAULT_TIMEOUT_OPS,
    PASSPHRASE_SEEN_MAX,
    PASSWORD_SEEN_MAX,
    USER_SEEN_MAX,
};
use scraplirs::channel::operation::{clone_patterns, Action};
use scraplirs::channel::patterns::{
    ansi_pattern,
    default_auth_passphrase_pattern,
    default_auth_password_pattern,
    default_auth_username_pattern,
    default_comms_prompt_pattern,
    Pattern,
    PATTERN_ERROR_PREFIX,
};
use scraplirs::channel::read_loop::{
    contains_byte,
    ReadOutcome,
    TRANSPORT_LOCK_FAILED,
    TRANSPORT_READ_FAILED,
};
use scraplirs::channel::read_until::{any_prompt_matches, Condition, ReadUntil};
use scraplirs::channel::send_input::{
    clean_output_lines,
    SendInputPhase,
    OPERATION_OVER,
    TIMED_OUT,
    TIMEOUT_OUT_OF_RANGE,
};
use scraplirs::channel::send_interactive::InteractivePhase;
use scraplirs::channel::util::strip_ansi;
use scraplirs::channel::write::{GetPromptPhase, PROMPT_NOT_FOUND};
use scraplirs::channel::{
    Args,
    Channel,
    OperationOptions,
    SendInteractiveEvent,
    SendInteractiveEvents,
};
use scraplirs::errors::ScrapliError;
use scraplirs::transport::base::{InChannelAuthData, InChannelAuthType};
use scraplirs::util::clock::deadline_after;
use scraplirs::util::queue::Queue;

/// A device that is played from a script: what it sends, chunk by chunk,
/// and what was written to it.
struct Device {
    reads: Vec<Vec<u8>>,
    next: usize,
    writes: Vec<Vec<u8>>,
    pauses: Vec<u64>,
}

fn device(reads: &[&[u8]]) -> Device {
    Device {
        reads: reads.iter().map(|chunk| chunk.to_vec()).collect(),
        next: 0,
        writes: vec![],
        pauses: vec![],
    }
}

fn drive(
    device: &mut Device,
    mut step: impl FnMut(Option<&[u8]>) -> Action,
) -> Result<Vec<u8>, ScrapliError> {
    let mut action = step(None);
    for _ in 0..10_000 {
        match action {
            Action::Write(b) => {
                device.writes.push(b);
                action = step(None);
            }
            Action::Read(pause) => {
                device.pauses.push(pause);
                let chunk = if device.next < device.reads.len() {
                    device.next += 1;
                    device.reads[device.next - 1].clone()
                } else {
                    vec![]
                };
                action = step(Some(&chunk));
            }
            Action::Done(result) => return Ok(result),
            Action::Fail(err) => return Err(err),
        }
    }
    panic!("the operation did not end");
}

fn channel() -> Channel {
    Channel::new(Args::default())
}

fn drive_auth(
    device: &mut Device,
    ch: &Channel,
    auth: &mut Authenticate,
) -> Result<Vec<u8>, ScrapliError> {
    drive(device, |chunk| {
        if let Some(chunk) = chunk {
            auth.receive(ch, chunk);
        }
        auth.poll(ch)
    })
}

fn send(
    device: &mut Device,
    ch: &Channel,
    input: &[u8],
    options: &OperationOptions,
) -> Result<Vec<u8>, ScrapliError> {
    let mut sending = ch.send_input_bytes(input, options)?;
    drive(device, |chunk| {
        if let Some(chunk) = chunk {
            sending.receive(ch, chunk);
        }
        sending.poll(ch)
    })
}

fn interact(
    device: &mut Device,
    ch: &Channel,
    events: &SendInteractiveEvents,
    options: &OperationOptions,
) -> Result<Vec<u8>, ScrapliError> {
    let mut dialog = ch.send_interactive(events, options)?;
    drive(device, |chunk| {
        if let Some(chunk) = chunk {
            dialog.receive(ch, chunk);
        }
        dialog.poll(ch)
    })
}

fn read_until(
    device: &mut Device,
    ch: &Channel,
    mut reading: ReadUntil,
) -> Result<Vec<u8>, ScrapliError> {
    drive(device, |chunk| {
        if let Some(chunk) = chunk {
            reading.receive(ch, chunk);
        }
        reading.poll(ch)
    })
}

#[test]
fn default_args_hold_the_defaults() {
    let args = Args::default();
    assert!(!args.auth_bypass);
    assert_eq!(args.prompt_search_depth, 1024);
    assert_eq!(args.prompt_search_depth, DEFAULT_PROMPT_SEARCH_DEPTH);
    assert_eq!(args.return_char, "\n");
    assert_eq!(args.read_delay, 250);
    assert_eq!(args.read_delay, DEFAULT_READ_DELAY);
    assert_eq!(args.timeout_ops, 30_000_000);
    assert_eq!(args.timeout_ops, DEFAULT_TIMEOUT_OPS);
    assert_eq!(args.prompt_pattern.as_str(), r"(?im)^[a-z\d.\-@()/:]{1,48}[#>$]\s*$");
    assert_eq!(args.username_pattern.as_str(), r"(?im)^(.*username:)|(.*login:)\s?$");
    assert_eq!(args.password_pattern.as_str(), r"(?im)(.*@.*)?password:\s?$");
    assert_eq!(args.passphrase_pattern.as_str(), r"(?i)enter passphrase for key");
}

#[test]
fn default_options_hold_the_defaults() {
    let options = OperationOptions::default();
    assert!(options.strip_prompt);
    assert!(!options.eager);
    assert_eq!(options.timeout, None);
    assert!(options.complete_patterns.is_empty());
    assert!(options.interim_prompt_patterns.is_empty());
    let mut changed = OperationOptions::default();
    changed.eager = true;
    changed.timeout = Some(5);
    changed.complete_patterns.push(Pattern::new("done").unwrap());
    let copy = changed.clone();
    assert!(copy.eager);
    assert_eq!(copy.timeout, Some(5));
    assert_eq!(copy.complete_patterns.len(), 1);
    assert_eq!(copy.complete_patterns[0].as_str(), "done");
}

#[test]
fn default_prompt_pattern_matches_usual_prompts() {
    let prompt = default_comms_prompt_pattern();
    assert!(prompt.is_match(b"R1#"));
    assert!(prompt.is_match(b"router>"));
    assert!(prompt.is_match(b"user@host:/tmp$ "));
    assert!(prompt.is_match(b"some output\r\nR1#"));
    assert!(!prompt.is_match(b"R1"));
    assert!(!prompt.is_match(b"Password: "));
    assert!(!prompt.is_match(b""));
}

#[test]
fn default_auth_patterns_match_their_prompts() {
    assert!(default_auth_username_pattern().is_match(b"Username: "));
    assert!(default_auth_username_pattern().is_match(b"login: "));
    assert!(!default_auth_username_pattern().is_match(b"Password: "));
    assert!(default_auth_password_pattern().is_match(b"Password: "));
    assert!(default_auth_password_pattern().is_match(b"admin@10.0.0.1's password: "));
    assert!(!default_auth_password_pattern().is_match(b"Username: "));
    assert!(default_auth_passphrase_pattern().is_match(b"Enter passphrase for key '/k': "));
    assert!(!default_auth_passphrase_pattern().is_match(b"Password: "));
}

#[test]
fn pattern_new_compiles_or_says_why_not() {
    let good = Pattern::new(r"R\d#").unwrap();
    assert_eq!(good.as_str(), r"R\d#");
    assert!(good.is_match(b"hello R1#"));
    assert!(!good.is_match(b"hello Rx#"));
    let bad = Pattern::new(r"foo(bar");
    match bad {
        Ok(_) => panic!("an unclosed group compiled"),
        Err(err) => {
            assert!(err.details.starts_with(PATTERN_ERROR_PREFIX));
            assert!(err.details.len() > PATTERN_ERROR_PREFIX.len());
            assert_eq!(err.to_string(), err.details);
            assert_eq!(err.description(), err.details);
        }
    }
}

#[test]
fn pattern_checked_hands_on_what_compiling_gave() {
    let err = regex::bytes::Regex::new("oops((").unwrap_err();
    let text = err.to_string();
    match Pattern::checked(Err(err), "while testing: ") {
        Ok(_) => panic!("an error became a pattern"),
        Err(e) => assert_eq!(e.details, format!("while testing: {text}")),
    }
    let compiled = Pattern::new("a+").unwrap();
    let checked = Pattern::checked(Ok(compiled), "unused").ok().unwrap();
    assert_eq!(checked.as_str(), "a+");
    assert!(checked.is_match(b"caat"));
}

#[test]
fn pattern_with_size_limit_refuses_big_programs() {
    assert!(Pattern::with_size_limit(r"\w", 10).is_err());
    let big = Pattern::with_size_limit(r"\w", 25_000_000).unwrap();
    assert!(big.is_match(b"a"));
    assert_eq!(big.as_str(), r"\w");
}

#[test]
fn pattern_find_returns_leftmost_match() {
    let p = Pattern::new(r"[a-z]+\d").unwrap();
    assert_eq!(p.find(b"-- ab1 cd2"), Some(b"ab1".to_vec()));
    assert_eq!(p.find(b"-- 12"), None);
    assert_eq!(p.find(b""), None);
    let copy = p.clone();
    assert_eq!(copy.as_str(), p.as_str());
    assert_eq!(copy.find(b"x9"), Some(b"x9".to_vec()));
}

#[test]
fn pattern_remove_all_cuts_every_match() {
    let p = Pattern::new(r"\d+").unwrap();
    assert_eq!(p.remove_all(b"a1b22c333"), b"abc");
    assert_eq!(p.remove_all(b"abc"), b"abc");
    assert_eq!(p.remove_all(b""), b"");
}

#[test]
fn clone_patterns_keeps_texts_in_order() {
    let patterns = vec![Pattern::new("a+").unwrap(), Pattern::new("b+").unwrap()];
    let copy = clone_patterns(&patterns);
    assert_eq!(copy.len(), 2);
    assert_eq!(copy[0].as_str(), "a+");
    assert_eq!(copy[1].as_str(), "b+");
    assert!(any_prompt_matches(&copy, b"xxbxx"));
    assert!(!any_prompt_matches(&copy, b"xxcxx"));
    assert!(!any_prompt_matches(&[], b"a"));
}

#[test]
fn strip_ansi_removes_csi_sequences() {
    assert_eq!(strip_ansi(b"\x1b[1mshow\x1b[0m ver"), b"show ver");
    assert_eq!(strip_ansi(b"\x1b[32;1mR1#\x1b[0m"), b"R1#");
    assert_eq!(strip_ansi(b"\x1b[2J\x1b[Hrouter>"), b"router>");
    assert_eq!(strip_ansi(b"plain"), b"plain");
    assert_eq!(strip_ansi(b""), b"");
    assert!(ansi_pattern().is_match(b"\x1b[0m"));
    assert!(!ansi_pattern().is_match(b"[0m"));
}

#[test]
fn process_read_buf_keeps_short_chunks() {
    let ch = channel();
    assert_eq!(ch.process_read_buf(b"short\nchunk"), b"short\nchunk");
    assert_eq!(ch.process_read_buf(b""), b"");
    let exactly = vec![b'x'; 1024];
    assert_eq!(ch.process_read_buf(&exactly), exactly);
}

#[test]
fn process_read_buf_cuts_long_chunks_to_the_window() {
    let mut args = Args::default();
    args.prompt_search_depth = 8;
    let ch = Channel::new(args);
    // the last eight bytes are "34\nR1#\n>", and they are cut at their first linefeed
    assert_eq!(ch.process_read_buf(b"0123456789012 34\nR1#\n>"), b"\nR1#\n>");
    // no linefeed among the last eight bytes: all eight are kept
    assert_eq!(ch.process_read_buf(b"abcdefghijklmnop"), b"ijklmnop");
    // a linefeed at the start of the window: all eight are kept
    assert_eq!(ch.process_read_buf(b"abcdefgh\njklmnop"), b"\njklmnop");
}

#[test]
fn read_and_check_functions_add_the_chunk_and_test() {
    let ch = channel();
    assert_eq!(ch._read_and_check_for_prompt(b"abc", b""), (false, b"abc".to_vec()));
    assert_eq!(ch._read_and_check_for_prompt(b"R1#", b""), (false, b"R1#".to_vec()));
    assert_eq!(ch._read_and_check_for_prompt(b"out\nR", b"1#"), (true, b"out\nR1#".to_vec()));
    assert_eq!(ch._read_and_check_for_prompt(b"out\nR", b"1"), (false, b"out\nR1".to_vec()));
    let prompts = vec![Pattern::new("Password:").unwrap(), Pattern::new("[yes/no]").unwrap()];
    assert_eq!(
        ch._read_and_check_for_any_prompt(b"Pass", b"word: ", &prompts),
        (true, b"Password: ".to_vec())
    );
    assert_eq!(
        ch._read_and_check_for_any_prompt(b"Pass", b"", &prompts),
        (false, b"Pass".to_vec())
    );
    assert_eq!(
        ch._read_and_check_for_any_prompt(b"x", b"y", &[]),
        (false, b"xy".to_vec())
    );
    assert_eq!(
        ch._read_and_check_for_fuzzy(b"s h", b" o w", b"show"),
        (true, b"s h o w".to_vec())
    );
    assert_eq!(
        ch._read_and_check_for_fuzzy(b"s h", b" o", b"show"),
        (false, b"s h o".to_vec())
    );
    assert_eq!(ch._read_and_check_for_fuzzy(b"show", b"", b"show"), (false, b"show".to_vec()));
    assert_eq!(
        ch._read_and_check_for_explicit(b"sh", b"ow", b"show"),
        (true, b"show".to_vec())
    );
    assert_eq!(
        ch._read_and_check_for_explicit(b"s h", b"ow", b"show"),
        (false, b"s how".to_vec())
    );
    assert_eq!(ch._read_and_check_for_explicit(b"show", b"", b"show"), (false, b"show".to_vec()));
}

#[test]
fn read_until_prompt_finds_prompt_split_over_chunks() {
    let ch = channel();
    let mut dev = device(&[b"\r\nR", b"", b"1", b"#"]);
    let rb = read_until(&mut dev, &ch, ch.read_until_prompt()).unwrap();
    assert_eq!(rb, b"\r\nR1#");
    assert!(dev.writes.is_empty());
    assert_eq!(dev.pauses, vec![0, 250, 250, 250]);
}

#[test]
fn read_until_any_prompt_stops_at_either() {
    let ch = channel();
    let prompts = vec![Pattern::new("Password:").unwrap(), Pattern::new(r"\[confirm\]").unwrap()];
    let mut dev = device(&[b"clear? ", b"[confirm]", b"never read"]);
    let rb = read_until(&mut dev, &ch, ch.read_until_any_prompt(&prompts)).unwrap();
    assert_eq!(rb, b"clear? [confirm]");
    assert_eq!(dev.next, 2);
}

#[test]
fn read_until_fuzzy_and_explicit_differ_on_gaps() {
    let ch = channel();
    let mut dev = device(&[b"s h o", b" w"]);
    assert_eq!(read_until(&mut dev, &ch, ch.read_until_fuzzy(b"show")).unwrap(), b"s h o w");
    let mut dev = device(&[b"s h o", b" w", b" show"]);
    assert_eq!(
        read_until(&mut dev, &ch, ch.read_until_explicit(b"show")).unwrap(),
        b"s h o w show"
    );
}

#[test]
fn read_until_new_is_fresh() {
    let reading = ReadUntil::new(Condition::Prompt);
    assert!(reading.rb.is_empty());
    assert!(!reading.found);
    assert!(!reading.polled);
    assert!(matches!(reading.condition, Condition::Prompt));
}

#[test]
fn happy_prompt() {
    let ch = channel();
    let mut dev = device(&[b"\r\nR1#"]);
    let mut asking = ch.get_prompt();
    assert!(!asking.is_over());
    let prompt = drive(&mut dev, |chunk| {
        if let Some(chunk) = chunk {
            asking.receive(&ch, chunk);
        }
        asking.poll(&ch)
    })
    .unwrap();
    assert_eq!(prompt, b"R1#");
    assert_eq!(dev.writes, vec![b"\n".to_vec()]);
    assert!(asking.is_over());
    assert_eq!(asking.phase, GetPromptPhase::Over);
    match asking.poll(&ch) {
        Action::Fail(err) => assert_eq!(err.details, OPERATION_OVER),
        _ => panic!("an operation that is over went on"),
    }
}

#[test]
fn get_prompt_returns_only_what_the_pattern_matches() {
    let ch = channel();
    let mut dev = device(&[b"banner line\r\n", b"more\r\nrouter-1> "]);
    let mut asking = ch.get_prompt();
    let prompt = drive(&mut dev, |chunk| {
        if let Some(chunk) = chunk {
            asking.receive(&ch, chunk);
        }
        asking.poll(&ch)
    })
    .unwrap();
    assert_eq!(prompt, b"router-1> ");
}

#[test]
fn get_prompt_checked_against_another_channel_can_miss() {
    let ch = channel();
    let mut other_args = Args::default();
    other_args.prompt_pattern = Pattern::new("never-there").unwrap();
    let other = Channel::new(other_args);
    let mut asking = ch.get_prompt();
    assert!(matches!(asking.poll(&ch), Action::Write(_)));
    assert!(matches!(asking.poll(&ch), Action::Read(0)));
    asking.receive(&ch, b"R1#");
    match asking.poll(&other) {
        Action::Fail(err) => assert_eq!(err.details, PROMPT_NOT_FOUND),
        _ => panic!("a prompt was found that the pattern does not match"),
    }
}

#[test]
fn write_helpers_give_the_bytes_to_write() {
    let mut args = Args::default();
    args.return_char = String::from("\r\n");
    let ch = Channel::new(args);
    assert_eq!(ch.write(b"show ver"), b"show ver");
    assert_eq!(ch.write_return(), b"\r\n");
    assert_eq!(ch.write_and_return(b"show ver"), (b"show ver".to_vec(), b"\r\n".to_vec()));
}

#[test]
fn send_with_strip() {
    let ch = channel();
    let mut dev = device(&[b"show ver\r\n", b"IOS 15.2\r\nR1#"]);
    let result = send(&mut dev, &ch, b"show ver", &OperationOptions::default()).unwrap();
    assert_eq!(result, b"IOS 15.2");
    assert_eq!(dev.writes, vec![b"show ver".to_vec(), b"\n".to_vec()]);
}

#[test]
fn send_without_strip_keeps_the_prompt() {
    let ch = channel();
    let mut options = OperationOptions::default();
    options.strip_prompt = false;
    let mut dev = device(&[b"show ver\r\n", b"IOS 15.2\r\nR1#"]);
    let result = send(&mut dev, &ch, b"show ver", &options).unwrap();
    assert_eq!(result, b"IOS 15.2\nR1#");
}

#[test]
fn fuzzy_echo() {
    let ch = channel();
    let mut queue = Queue::new();
    let raw: Vec<&[u8]> = vec![
        b"\x1b[1ms\x1b[0m \x1b[1mh\x1b[0m \x1b[1mo\x1b[0m \x1b[1mw\x1b[0m   v e r",
        b"\r\nR1#",
    ];
    for chunk in raw {
        assert!(Channel::_read(&mut queue, ReadOutcome::Bytes(chunk.to_vec())).is_none());
    }
    let mut sending = ch.send_input_bytes(b"show ver", &OperationOptions::default()).unwrap();
    let mut writes: Vec<Vec<u8>> = vec![];
    let mut reads: Vec<Vec<u8>> = vec![];
    let mut action = sending.poll(&ch);
    let result = loop {
        match action {
            Action::Write(b) => {
                writes.push(b);
                action = sending.poll(&ch);
            }
            Action::Read(_) => {
                let chunk = ch.read(&mut queue, ReadSignal::Quiet).unwrap();
                reads.push(chunk.clone());
                sending.receive(&ch, &chunk);
                action = sending.poll(&ch);
            }
            Action::Done(result) => break result,
            Action::Fail(err) => panic!("send failed: {}", err.details),
        }
    };
    assert_eq!(reads[0], b"s h o w   v e r");
    assert_eq!(writes, vec![b"show ver".to_vec(), b"\n".to_vec()]);
    assert_eq!(result, b"");
    assert_eq!(queue.get_depth(), 0);
}

#[test]
fn send_input_waits_for_the_whole_echo() {
    let ch = channel();
    let mut dev = device(&[b"sh", b"", b"ow v", b"er\r\n", b"out\r\n", b"R1#"]);
    let result = send(&mut dev, &ch, b"show ver", &OperationOptions::default()).unwrap();
    assert_eq!(result, b"out");
    assert_eq!(dev.writes, vec![b"show ver".to_vec(), b"\n".to_vec()]);
    // the echo took four reads, the first of them without a pause
    assert_eq!(dev.pauses, vec![0, 31, 31, 31, 0, 31]);
}

#[test]
fn send_input_eager_returns_the_input() {
    let ch = channel();
    let mut options = OperationOptions::default();
    options.eager = true;
    let mut dev = device(&[b"<rpc>", b"never read"]);
    let result = send(&mut dev, &ch, b"<rpc>", &options).unwrap();
    assert_eq!(result, b"<rpc>");
    assert_eq!(dev.writes, vec![b"<rpc>".to_vec(), b"\n".to_vec()]);
    assert_eq!(dev.next, 1);
}

#[test]
fn send_empty_input_needs_no_echo() {
    let ch = channel();
    let mut dev = device(&[b"\r\nR1#"]);
    let result = send(&mut dev, &ch, b"", &OperationOptions::default()).unwrap();
    assert_eq!(result, b"");
    assert_eq!(dev.writes, vec![b"".to_vec(), b"\n".to_vec()]);
}

#[test]
fn send_input_string_sends_its_bytes() {
    let ch = channel();
    let mut sending = ch.send_input("show ver", &OperationOptions::default()).unwrap();
    assert_eq!(sending.input, b"show ver");
    assert_eq!(sending.phase, SendInputPhase::Start);
    assert!(!sending.is_over());
    match sending.poll(&ch) {
        Action::Write(b) => assert_eq!(b, b"show ver"),
        _ => panic!("the input was not written first"),
    }
}

#[test]
fn send_input_accepts_interim_prompts() {
    let ch = channel();
    let mut options = OperationOptions::default();
    options.interim_prompt_patterns.push(Pattern::new(r"--More--").unwrap());
    let mut dev = device(&[b"show run\r\n", b"line 1\r\n--More--"]);
    let result = send(&mut dev, &ch, b"show run", &options).unwrap();
    assert_eq!(result, b"line 1\n--More--");
    // and the prompt pattern still ends the send
    let mut dev = device(&[b"show run\r\n", b"line 1\r\nR1#"]);
    let result = send(&mut dev, &ch, b"show run", &options).unwrap();
    assert_eq!(result, b"line 1");
}

#[test]
fn send_input_times_out_at_the_deadline() {
    let ch = channel();
    let mut options = OperationOptions::default();
    options.timeout = Some(1_000);
    let mut sending = ch.send_input_bytes_at(b"show ver", &options, 5_000).unwrap();
    assert_eq!(sending.deadline, 6_000);
    assert!(matches!(sending.poll_at(&ch, 5_000), Action::Write(_)));
    assert!(matches!(sending.poll_at(&ch, 5_500), Action::Read(0)));
    sending.receive(&ch, b"show");
    assert!(matches!(sending.poll_at(&ch, 5_999), Action::Read(31)));
    sending.receive(&ch, b"");
    match sending.poll_at(&ch, 6_000) {
        Action::Fail(err) => assert_eq!(err.details, TIMED_OUT),
        _ => panic!("no timeout at the deadline"),
    }
    assert!(sending.is_over());
    match sending.poll_at(&ch, 0) {
        Action::Fail(err) => assert_eq!(err.details, OPERATION_OVER),
        _ => panic!("an operation that is over went on"),
    }
}

#[test]
fn send_input_times_out_waiting_for_the_prompt() {
    let ch = channel();
    let mut sending = ch
        .send_input_bytes_at(b"x", &OperationOptions::default(), 0)
        .unwrap();
    assert_eq!(sending.deadline, 30_000_000);
    assert!(matches!(sending.poll_at(&ch, 1), Action::Write(_)));
    assert!(matches!(sending.poll_at(&ch, 2), Action::Read(0)));
    sending.receive(&ch, b"x");
    assert!(matches!(sending.poll_at(&ch, 40_000_000), Action::Write(_)));
    assert_eq!(sending.phase, SendInputPhase::Prompt);
    match sending.poll_at(&ch, 40_000_000) {
        Action::Fail(err) => assert_eq!(err.details, TIMED_OUT),
        _ => panic!("no timeout after the deadline"),
    }
}

#[test]
fn send_input_refuses_a_deadline_beyond_the_clock() {
    let ch = channel();
    let mut options = OperationOptions::default();
    options.timeout = Some(u64::MAX);
    match ch.send_input_bytes_at(b"x", &options, 1) {
        Err(err) => assert_eq!(err.details, TIMEOUT_OUT_OF_RANGE),
        Ok(_) => panic!("a deadline beyond the clock was accepted"),
    }
    assert_eq!(deadline_after(1, u64::MAX), None);
    assert_eq!(deadline_after(i64::MAX, 1), None);
    assert_eq!(deadline_after(i64::MAX - 1, 1), Some(i64::MAX));
    assert_eq!(deadline_after(-5, 3), Some(-2));
    assert_eq!(deadline_after(i64::MIN, u64::MAX), Some(i64::MAX));
}

#[test]
fn send_input_trims_per_chunk_not_over_all() {
    let mut args = Args::default();
    args.prompt_search_depth = 4;
    let ch = Channel::new(args);
    let mut dev = device(&[b"x", b"0123456789", b"abcdefgh\nR1#"]);
    let mut options = OperationOptions::default();
    options.strip_prompt = false;
    let result = send(&mut dev, &ch, b"x", &options).unwrap();
    // of each chunk the last four bytes are kept, from their first linefeed on
    assert_eq!(result, b"6789\nR1#");
}

#[test]
fn process_output_cleans_lines_and_ends() {
    let ch = channel();
    assert_eq!(ch.process_output(b"a  \r\nb\t\r\n\r\nR1#", true), b"a\nb");
    assert_eq!(ch.process_output(b"a  \r\nb\t\r\n\r\nR1#", false), b"a\nb\n\nR1#");
    assert_eq!(ch.process_output(b"\n\nout\n\n", false), b"out");
    assert_eq!(ch.process_output(b"", true), b"");
    assert_eq!(ch.process_output(b"R1#", true), b"");
    assert_eq!(clean_output_lines(b"a \nb \n"), b"a\nb\n\n");
    assert_eq!(clean_output_lines(b" \n \n "), b"\n\n\n");
    assert_eq!(clean_output_lines(b"no linefeed  "), b"no linefeed\n");
    assert_eq!(clean_output_lines(b""), b"\n");
}

#[test]
fn process_output_ends_the_last_line_before_the_prompt_is_cut_out() {
    // a prompt pattern that wants a linefeed behind the prompt finds one
    // behind the last line too
    let mut args = Args::default();
    args.prompt_pattern = Pattern::new("R1#\n").unwrap();
    let ch = Channel::new(args);
    assert_eq!(ch.process_output(b"out\nR1#", true), b"out");
    assert_eq!(ch.process_output(b"out\nR1#", false), b"out\nR1#");
}

#[test]
fn process_output_strips_every_prompt() {
    let ch = channel();
    assert_eq!(ch.process_output(b"R1#\nout\nR1#", true), b"out");
}

#[test]
fn process_output_trims_the_return_char_bytes() {
    let mut args = Args::default();
    args.return_char = String::from("\r\n");
    args.prompt_pattern = Pattern::new("R1#").unwrap();
    let ch = Channel::new(args);
    assert_eq!(ch.process_output(b"\r\r\nout\nR1#", true), b"out");
}

#[test]
fn send_interactive_runs_a_confirm_dialog() {
    let ch = channel();
    let events = SendInteractiveEvents(vec![
        SendInteractiveEvent::new("clear logging", r"\[confirm\]"),
        SendInteractiveEvent::new("", ""),
    ]);
    assert_eq!(events.len(), 2);
    let mut dev = device(&[
        b"clear ",
        b"logging",
        b"\r\nClear logging buffer [confirm]",
        b"\r\nR1#",
    ]);
    let result = interact(&mut dev, &ch, &events, &OperationOptions::default()).unwrap();
    assert_eq!(result, b"clear logging\r\nClear logging buffer [confirm]\r\nR1#");
    assert_eq!(
        dev.writes,
        vec![b"clear logging".to_vec(), b"\n".to_vec(), b"".to_vec(), b"\n".to_vec()]
    );
}

#[test]
fn send_interactive_does_not_wait_for_a_hidden_echo() {
    let ch = channel();
    let mut secret = SendInteractiveEvent::new("hunter2", "");
    secret.hidden = true;
    let events =
        SendInteractiveEvents(vec![SendInteractiveEvent::new("enable", "Password:"), secret]);
    let mut dev = device(&[b"enable", b"\r\nPassword: ", b"\r\nR1#"]);
    let result = interact(&mut dev, &ch, &events, &OperationOptions::default()).unwrap();
    assert_eq!(result, b"enable\r\nPassword: \r\nR1#");
    assert_eq!(
        dev.writes,
        vec![b"enable".to_vec(), b"\n".to_vec(), b"hunter2".to_vec(), b"\n".to_vec()]
    );
}

#[test]
fn send_interactive_without_events_is_done_at_once() {
    let ch = channel();
    let events = SendInteractiveEvents(vec![]);
    let mut dev = device(&[b"never read"]);
    let result = interact(&mut dev, &ch, &events, &OperationOptions::default()).unwrap();
    assert_eq!(result, b"");
    assert!(dev.writes.is_empty());
    assert_eq!(dev.next, 0);
}

#[test]
fn send_interactive_reports_a_response_that_is_no_pattern() {
    let ch = channel();
    let events = SendInteractiveEvents(vec![
        SendInteractiveEvent::new("one", ""),
        SendInteractiveEvent::new("two", "oops(("),
    ]);
    let mut dev = device(&[b"one", b"\r\nR1#", b"two", b"\r\nR1#"]);
    let err = interact(&mut dev, &ch, &events, &OperationOptions::default()).unwrap_err();
    assert!(err
        .details
        .starts_with("channel response 'oops((', could not be compiled, error: "));
    // the first event went through, the second was never written
    assert_eq!(dev.writes, vec![b"one".to_vec(), b"\n".to_vec()]);
}

#[test]
fn send_interactive_begins_an_event_with_what_compiling_gave() {
    let ch = channel();
    let events = SendInteractiveEvents(vec![SendInteractiveEvent::new("one", "two")]);
    let options = OperationOptions::default();
    let mut dialog = ch.send_interactive_at(&events, &options, 0).unwrap();
    let err = regex::bytes::Regex::new("(").unwrap_err();
    let text = err.to_string();
    match dialog.begin_with(Some(Err(err))) {
        Action::Fail(e) => assert_eq!(
            e.details,
            format!("channel response 'two', could not be compiled, error: {text}")
        ),
        _ => panic!("an error of compiling went on"),
    }
    assert!(dialog.is_over());
    let mut dialog = ch.send_interactive_at(&events, &options, 0).unwrap();
    match dialog.begin_with(Some(Ok(Pattern::new("three").unwrap()))) {
        Action::Write(b) => assert_eq!(b, b"one"),
        _ => panic!("the input was not written"),
    }
    assert_eq!(dialog.phase, InteractivePhase::Echo);
    assert_eq!(dialog.response.as_ref().map(|p| p.as_str()), Some("three"));
    let mut dialog = ch.send_interactive_at(&events, &options, 0).unwrap();
    assert!(matches!(dialog.begin_with(None), Action::Write(_)));
    assert!(dialog.response.is_none());
}

#[test]
fn send_interactive_ends_early_on_a_complete_pattern_before_the_last_event() {
    let ch = channel();
    let mut options = OperationOptions::default();
    options.complete_patterns.push(Pattern::new("nothing to do").unwrap());
    let events = SendInteractiveEvents(vec![
        SendInteractiveEvent::new("one", "never-matching-response"),
        SendInteractiveEvent::new("two", ""),
    ]);
    let mut dev = device(&[b"one", b"\r\nnothing to do\r\n", b"two", b"\r\nR1#"]);
    let result = interact(&mut dev, &ch, &events, &options).unwrap();
    assert_eq!(result, b"one\r\nnothing to do\r\n");
    assert_eq!(dev.writes, vec![b"one".to_vec(), b"\n".to_vec()]);
}

#[test]
fn send_interactive_goes_on_when_no_complete_pattern_matches() {
    let ch = channel();
    let mut options = OperationOptions::default();
    options.complete_patterns.push(Pattern::new("nothing to do").unwrap());
    let events = SendInteractiveEvents(vec![
        SendInteractiveEvent::new("one", ""),
        SendInteractiveEvent::new("two", ""),
    ]);
    let mut dev = device(&[b"one", b"\r\nR1#", b"two", b"\r\nR2#"]);
    let result = interact(&mut dev, &ch, &events, &options).unwrap();
    assert_eq!(result, b"one\r\nR1#two\r\nR2#");
    assert_eq!(dev.writes.len(), 4);
}

#[test]
fn send_interactive_times_out_at_the_deadline() {
    let ch = channel();
    let events = SendInteractiveEvents(vec![SendInteractiveEvent::new("one", "")]);
    let mut options = OperationOptions::default();
    options.timeout = Some(10);
    let mut dialog = ch.send_interactive_at(&events, &options, 100).unwrap();
    assert_eq!(dialog.deadline, 110);
    assert_eq!(dialog.phase, InteractivePhase::Start);
    assert!(matches!(dialog.poll_at(&ch, 100), Action::Write(_)));
    assert_eq!(dialog.phase, InteractivePhase::Echo);
    assert!(matches!(dialog.poll_at(&ch, 105), Action::Read(0)));
    dialog.receive(&ch, b"on");
    assert!(matches!(dialog.poll_at(&ch, 109), Action::Read(31)));
    dialog.receive(&ch, b"");
    match dialog.poll_at(&ch, 110) {
        Action::Fail(err) => assert_eq!(err.details, TIMED_OUT),
        _ => panic!("no timeout at the deadline"),
    }
    assert!(dialog.is_over());
    match dialog.poll_at(&ch, 0) {
        Action::Fail(err) => assert_eq!(err.details, OPERATION_OVER),
        _ => panic!("an operation that is over went on"),
    }
    options.timeout = Some(u64::MAX);
    match ch.send_interactive_at(&events, &options, 100) {
        Err(err) => assert_eq!(err.details, TIMEOUT_OUT_OF_RANGE),
        Ok(_) => panic!("a deadline beyond the clock was accepted"),
    }
}

#[test]
fn events_are_shown_as_text() {
    let event = SendInteractiveEvent::new("enable", "Password:");
    assert_eq!(event.input, "enable");
    assert_eq!(event.response, "Password:");
    assert!(!event.hidden);
    assert_eq!(event.to_string(), "input: enable, expecting: Password:");
    let copy = event.clone();
    assert_eq!(copy.to_string(), event.to_string());
    let events = SendInteractiveEvents(vec![event, SendInteractiveEvent::new("", "")]);
    assert_eq!(
        events.to_string(),
        "input: enable, expecting: Password:\ninput: , expecting: \n"
    );
    assert_eq!(events.duplicate().to_string(), events.to_string());
    assert_eq!(events.iter().filter(|event| event.input.is_empty()).count(), 1);
    assert_eq!(SendInteractiveEvents(vec![]).to_string(), "");
}

#[test]
fn telnet_auth() {
    let ch = channel();
    let mut dev = device(&[b"Username: ", b"Password: ", b"R1>"]);
    let mut auth = ch.authenticate_telnet(b"admin", b"secret");
    let result = drive_auth(&mut dev, &ch, &mut auth).unwrap();
    assert_eq!(result, b"R1>");
    assert_eq!(
        dev.writes,
        vec![b"admin".to_vec(), b"\n".to_vec(), b"secret".to_vec(), b"\n".to_vec()]
    );
    assert!(auth.is_over());
    assert_eq!(auth.counts.user, 1);
    assert_eq!(auth.counts.password, 1);
    // what authentication has read is put back at the front of the queue
    let mut queue = Queue::new();
    queue.enqueue(b"later".to_vec());
    ch.requeue_auth_residue(&mut queue, result).unwrap();
    assert_eq!(ch.read(&mut queue, ReadSignal::Quiet).unwrap(), b"R1>");
    assert_eq!(ch.read(&mut queue, ReadSignal::Quiet).unwrap(), b"later");
}

#[test]
fn bounded_auth() {
    let ch = channel();
    let mut dev = device(&[b"Password: ", b"Password: ", b"Password: "]);
    let mut auth = ch.authenticate_ssh(b"wrong", b"");
    let err = drive_auth(&mut dev, &ch, &mut auth).unwrap_err();
    assert_eq!(err.details, "password prompt seen multiple times, assuming authentication failed");
    assert_eq!(err.details, PASSWORD_SEEN_TOO_OFTEN);
    assert_eq!(
        dev.writes,
        vec![b"wrong".to_vec(), b"\n".to_vec(), b"wrong".to_vec(), b"\n".to_vec()]
    );
    assert_eq!(auth.phase, AuthPhase::Over);
    match auth.poll(&ch) {
        Action::Fail(err) => assert_eq!(err.details, OPERATION_OVER),
        _ => panic!("an operation that is over went on"),
    }
}

#[test]
fn bounded_auth_for_user_and_passphrase() {
    let ch = channel();
    let mut dev = device(&[b"Username: ", b"login: ", b"Username: "]);
    let mut auth = ch.authenticate_telnet(b"admin", b"secret");
    let err = drive_auth(&mut dev, &ch, &mut auth).unwrap_err();
    assert_eq!(err.details, USER_SEEN_TOO_OFTEN);
    let mut dev = device(&[
        b"Enter passphrase for key '/k': ",
        b"Enter passphrase for key '/k': ",
        b"Enter passphrase for key '/k': ",
    ]);
    let mut auth = ch.authenticate_ssh(b"pw", b"phrase");
    let err = drive_auth(&mut dev, &ch, &mut auth).unwrap_err();
    assert_eq!(err.details, PASSPHRASE_SEEN_TOO_OFTEN);
    assert_eq!(
        dev.writes,
        vec![b"phrase".to_vec(), b"\n".to_vec(), b"phrase".to_vec(), b"\n".to_vec()]
    );
}

#[test]
fn ssh_auth_answers_passphrase_and_password() {
    let ch = channel();
    let mut dev = device(&[
        b"Enter passphrase for key '/k': ",
        b"admin@r1's password: ",
        b"Welcome\r\n",
        b"R1#",
    ]);
    let mut auth = ch.authenticate_ssh(b"pw", b"phrase");
    let result = drive_auth(&mut dev, &ch, &mut auth).unwrap();
    assert_eq!(result, b"Welcome\r\nR1#");
    assert_eq!(
        dev.writes,
        vec![b"phrase".to_vec(), b"\n".to_vec(), b"pw".to_vec(), b"\n".to_vec()]
    );
}

#[test]
fn auth_ends_within_the_bound_of_sightings() {
    let bound = usize::from(USER_SEEN_MAX + PASSWORD_SEEN_MAX + PASSPHRASE_SEEN_MAX) + 1;
    assert_eq!(bound, 7);
    let ch = channel();
    let scripts: Vec<Vec<&[u8]>> = vec![
        vec![b"Username: ", b"Password: ", b"Username: ", b"Password: ", b"Username: "],
        vec![b"Password: ", b"Username: ", b"Password: ", b"Username: ", b"Password: "],
        vec![b"Username: ", b"Username: ", b"Password: ", b"Password: ", b"R1#"],
    ];
    for script in scripts {
        let mut dev = device(&script);
        let mut auth = ch.authenticate_telnet(b"admin", b"secret");
        let _ = drive_auth(&mut dev, &ch, &mut auth);
        assert!(auth.is_over());
        assert!(dev.next <= bound);
        assert!(dev.writes.len() <= 2 * (bound - 1));
    }
}

#[test]
fn open_starts_the_authentication_that_the_transport_asks_for() {
    let ch = channel();
    let data = InChannelAuthData {
        auth_type: InChannelAuthType::Telnet,
        user: String::from("admin"),
        password: String::from("secret"),
        private_key_passphrase: String::from("phrase"),
    };
    let auth = ch.open(&data).unwrap();
    assert_eq!(auth.auth_type, InChannelAuthType::Telnet);
    assert_eq!(auth.user, b"admin");
    assert_eq!(auth.password, b"secret");
    assert_eq!(auth.phase, AuthPhase::Reading);
    let data = InChannelAuthData { auth_type: InChannelAuthType::SSH, ..data };
    let auth = ch.open(&data).unwrap();
    assert_eq!(auth.auth_type, InChannelAuthType::SSH);
    assert_eq!(auth.password, b"secret");
    assert_eq!(auth.passphrase, b"phrase");
    let mut args = Args::default();
    args.auth_bypass = true;
    assert!(Channel::new(args).open(&data).is_none());
}

#[test]
fn requeue_auth_residue_skips_nothing() {
    let ch = channel();
    let mut queue = Queue::new();
    ch.requeue_auth_residue(&mut queue, vec![]).unwrap();
    assert_eq!(queue.get_depth(), 0);
    ch.requeue_auth_residue(&mut queue, b"R1#".to_vec()).unwrap();
    assert_eq!(queue.get_depth(), 1);
    assert_ne!(QUEUE_FULL, "");
}

#[test]
fn read_surfaces_what_the_read_loop_reported() {
    let ch = channel();
    let mut queue = Queue::new();
    queue.enqueue(b"chunk".to_vec());
    let err = ch
        .read(&mut queue, ReadSignal::Failed(ScrapliError::new("transport broke")))
        .unwrap_err();
    assert_eq!(err.details, "transport broke");
    let err = ch.read(&mut queue, ReadSignal::Disconnected).unwrap_err();
    assert_eq!(err.details, READ_LOOP_GONE);
    assert_eq!(queue.get_depth(), 1);
    assert_eq!(ch.read(&mut queue, ReadSignal::Quiet).unwrap(), b"chunk");
    assert_eq!(ch.read(&mut queue, ReadSignal::Quiet).unwrap(), b"");
}

#[test]
fn read_loop_turn_cleans_and_queues() {
    let mut queue = Queue::new();
    assert!(Channel::_read(&mut queue, ReadOutcome::Bytes(b"plain".to_vec())).is_none());
    assert!(Channel::_read(&mut queue, ReadOutcome::Bytes(vec![])).is_none());
    assert!(Channel::_read(&mut queue, ReadOutcome::Bytes(b"\x1b[1mbold\x1b[0m".to_vec())).is_none());
    assert!(Channel::_read(&mut queue, ReadOutcome::Bytes(b"\x1b[0m".to_vec())).is_none());
    assert_eq!(queue.get_depth(), 2);
    assert_eq!(queue.dequeue(), b"plain");
    assert_eq!(queue.dequeue(), b"bold");
}

#[test]
fn read_loop_queues_each_nonempty_chunk_once_in_order() {
    let reads: Vec<&[u8]> = vec![b"one", b"", b"two", b"", b"", b"three", b"two"];
    let mut queue = Queue::new();
    for read in &reads {
        assert!(Channel::_read(&mut queue, ReadOutcome::Bytes(read.to_vec())).is_none());
    }
    assert_eq!(queue.get_depth(), 4);
    assert_eq!(queue.dequeue(), b"one");
    assert_eq!(queue.dequeue(), b"two");
    assert_eq!(queue.dequeue(), b"three");
    assert_eq!(queue.dequeue(), b"two");
    assert_eq!(queue.get_depth(), 0);
}

#[test]
fn a_start_is_owed_with_an_ordinary_timeout() {
    let ch = channel();
    let mut options = OperationOptions::default();
    assert!(ch.send_input_bytes(b"x", &options).is_ok());
    assert!(ch.send_input("x", &options).is_ok());
    let events = SendInteractiveEvents(vec![SendInteractiveEvent::new("x", "")]);
    assert!(ch.send_interactive(&events, &options).is_ok());
    options.timeout = Some(0);
    assert!(ch.send_input_bytes(b"x", &options).is_ok());
    assert!(ch.send_interactive(&events, &options).is_ok());
    options.timeout = Some(1_013_105_160_054_775_808);
    assert!(ch.send_input_bytes(b"x", &options).is_ok());
    options.timeout = Some(u64::MAX);
    assert!(ch.send_input_bytes(b"x", &options).is_err());
    assert!(ch.send_interactive(&events, &options).is_err());
}

#[test]
fn read_loop_turn_reports_failures() {
    let mut queue = Queue::new();
    let report = Channel::_read(&mut queue, ReadOutcome::LockFailed).unwrap();
    assert_eq!(report.details, TRANSPORT_LOCK_FAILED);
    let report =
        Channel::_read(&mut queue, ReadOutcome::Failed(ScrapliError::new("eof"))).unwrap();
    assert_eq!(report.details, format!("{}eof", TRANSPORT_READ_FAILED));
    assert_eq!(
        report.details,
        "encountered error while reading from transport in channel read loop, error: eof"
    );
    assert_eq!(queue.get_depth(), 0);
    assert!(contains_byte(b"a\x1bb", 0x1b));
    assert!(!contains_byte(b"ab", 0x1b));
}
