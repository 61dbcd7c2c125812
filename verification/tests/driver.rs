use scraplirs::channel::operation::Action;
use scraplirs::channel::patterns::Pattern;
use scraplirs::channel::send_input::{OPERATION_OVER, TIMEOUT_OUT_OF_RANGE};
use scraplirs::channel::{
    Args as ChannelArgs,
    Channel,
    OperationOptions as ChannelOperationOptions,
    SendInteractiveEvents,
};
use scraplirs::driver::generic::driver::{
    Args as GenericArgs,
    CommandsStep,
    NO_COMMANDS,
    PROMPT_NOT_UTF8,
    RESULT_NOT_UTF8,
};
use scraplirs::driver::network::driver::{
    AcquirePhase,
    AcquireStep,
    Args as NetworkArgs,
    CommandStart,
    OperationOptions as NetworkOperationOptions,
    PrivilegeAction,
    PrivilegeChange,
    PrivilegeLevel,
    PRIVILEGES_UNSET,
    UNKNOWN_LEVEL,
};
use scraplirs::driver::network::graph::{holds, PrivilegeGraph};
use scraplirs::driver::{
    GenericDriver,
    GenericDriverBuilder,
    GenericDriverOperationOptions,
    NetworkDriver,
    NetworkDriverBuilder,
};
use scraplirs::errors::ScrapliError;
use scraplirs::platform::{Definition, DriverType, Platform};
use scraplirs::response::{elapsed, MultiResponse, Response};
use scraplirs::transport::base::{
    InChannelAuthType,
    TransportArgs,
    TransportSSHArgs,
    TransportType,
};
use scraplirs::transport::system::{decimal, in_channel_auth_data, SystemArgs};
use scraplirs::util::clock::{LATEST_INSTANT, OWED_TIMEOUT};

struct Device {
    reads: Vec<Vec<u8>>,
    next: usize,
    writes: Vec<Vec<u8>>,
    repeat_last: bool,
}

fn device(reads: &[&[u8]]) -> Device {
    Device {
        reads: reads.iter().map(|chunk| chunk.to_vec()).collect(),
        next: 0,
        writes: vec![],
        repeat_last: false,
    }
}

fn drive(
    device: &mut Device,
    mut step: impl FnMut(Option<&[u8]>) -> Action,
) -> Result<Vec<u8>, ScrapliError> {
    let mut action = step(None);
    for _ in 0..10_000 {
        match action {
            Action::Write(b) => {
                device.writes.push(b);
                action = step(None);
            }
            Action::Read(_) => {
                let chunk = if device.next < device.reads.len() {
                    device.next += 1;
                    device.reads[device.next - 1].clone()
                } else if device.repeat_last {
                    device.reads[device.reads.len() - 1].clone()
                } else {
                    vec![]
                };
                action = step(Some(&chunk));
            }
            Action::Done(result) => return Ok(result),
            Action::Fail(err) => return Err(err),
        }
    }
    panic!("the operation did not end");
}

fn send(device: &mut Device, ch: &Channel, input: &[u8]) -> Result<Vec<u8>, ScrapliError> {
    let mut sending = ch.send_input_bytes(input, &ChannelOperationOptions::default())?;
    drive(device, |chunk| {
        if let Some(chunk) = chunk {
            sending.receive(ch, chunk);
        }
        sending.poll(ch)
    })
}

fn interact(
    device: &mut Device,
    ch: &Channel,
    events: &SendInteractiveEvents,
) -> Result<Vec<u8>, ScrapliError> {
    let mut dialog = ch.send_interactive(events, &ChannelOperationOptions::default())?;
    drive(device, |chunk| {
        if let Some(chunk) = chunk {
            dialog.receive(ch, chunk);
        }
        dialog.poll(ch)
    })
}

fn fetch_prompt(device: &mut Device, ch: &Channel) -> Result<Vec<u8>, ScrapliError> {
    let mut asking = ch.get_prompt();
    drive(device, |chunk| {
        if let Some(chunk) = chunk {
            asking.receive(ch, chunk);
        }
        asking.poll(ch)
    })
}

fn command(
    device: &mut Device,
    driver: &GenericDriver,
    text: &str,
    options: &GenericDriverOperationOptions,
) -> Result<Response, ScrapliError> {
    let mut op = driver.send_command_with_options(text, options)?;
    let ch = &driver.channel;
    let sending = &mut op.sending;
    let rb = drive(device, |chunk| {
        if let Some(chunk) = chunk {
            sending.receive(ch, chunk);
        }
        sending.poll(ch)
    })?;
    op.finish(rb)
}

fn commands(
    device: &mut Device,
    driver: &GenericDriver,
    texts: &[&str],
    options: &GenericDriverOperationOptions,
) -> Result<MultiResponse, ScrapliError> {
    let mut step = driver.send_commands_with_options(texts, options);
    loop {
        match step {
            CommandsStep::Send(next, mut sending) => {
                let ch = &driver.channel;
                let rb = drive(device, |chunk| {
                    if let Some(chunk) = chunk {
                        sending.receive(ch, chunk);
                    }
                    sending.poll(ch)
                })?;
                step = next.record(driver, rb);
            }
            CommandsStep::Done(multi) => return Ok(multi),
            CommandsStep::Fail(err) => return Err(err),
        }
    }
}

/// Runs an acquisition against the device; returns the number of changes
/// of the privilege level that it has asked for.
fn acquire(
    device: &mut Device,
    driver: &mut NetworkDriver,
    target: &str,
) -> Result<usize, ScrapliError> {
    let mut acquiring = driver.acquire_privilege_level(target)?;
    let mut changes = 0;
    let mut step = acquiring.start();
    loop {
        match step {
            AcquireStep::GetPrompt => {
                let fetched = fetch_prompt(device, &driver.generic_driver.channel);
                step = acquiring.prompt_fetched(driver, fetched);
            }
            AcquireStep::Change(change) => {
                changes += 1;
                assert_eq!(acquiring.action_count, changes);
                assert!(acquiring.action_count <= 2 * driver.args.privilege_levels.len());
                let sent = match change {
                    PrivilegeChange::Input(input) => {
                        send(device, &driver.generic_driver.channel, input.as_bytes())
                    }
                    PrivilegeChange::Dialog(events) => {
                        interact(device, &driver.generic_driver.channel, &events)
                    }
                };
                step = acquiring.changed(sent);
            }
            AcquireStep::Done => return Ok(changes),
            AcquireStep::Fail(err) => {
                assert!(changes <= 2 * driver.args.privilege_levels.len());
                return Err(err);
            }
        }
    }
}

fn level(name: &str, pattern: &str, previous: &str) -> PrivilegeLevel {
    PrivilegeLevel {
        name: String::from(name),
        pattern: Pattern::new(pattern).unwrap(),
        not_contains: vec![],
        previous_privilege_level: String::from(previous),
        de_escalate: String::from("exit"),
        escalate: String::from("go"),
        escalate_auth: false,
        escalate_prompt: String::new(),
    }
}

const EXEC: &str = r"(?im)^[a-z0-9.\-@()/:]{1,48}>\s*$";
const PRIVILEGED: &str = r"(?im)^[a-z0-9.\-@/:]{1,48}#\s*$";
const CONFIGURATION: &str = r"(?im)^[a-z0-9.\-@/:]{1,48}\(config[a-z0-9.\-@/:+]{0,32}\)#\s*$";

fn ios_levels() -> Vec<PrivilegeLevel> {
    let mut privileged = level("privileged", PRIVILEGED, "exec");
    privileged.escalate = String::from("enable");
    privileged.de_escalate = String::from("disable");
    privileged.escalate_auth = true;
    privileged.escalate_prompt = String::from("Password:");
    let mut configuration = level("configuration", CONFIGURATION, "privileged");
    configuration.escalate = String::from("configure terminal");
    configuration.de_escalate = String::from("end");
    vec![level("exec", EXEC, ""), privileged, configuration]
}

fn network_driver(levels: Vec<PrivilegeLevel>, secondary_password: &str) -> NetworkDriver {
    let built = NetworkDriverBuilder::new(GenericDriverBuilder::new("r1"))
        .privilege_levels(levels)
        .default_desired_privilege_level("privileged")
        .secondary_password(secondary_password)
        .build();
    let mut driver = built.driver;
    driver.open().unwrap();
    driver
}

fn generic_driver() -> GenericDriver {
    GenericDriver::new(GenericArgs::new("r1"), Channel::new(ChannelArgs::default()))
}

#[test]
fn response_starts_failed_and_record_clears_it() {
    let mut response = Response::new_at("show ver", "r1", 22, vec![String::from("% Invalid")], 100);
    assert_eq!(response.host, "r1");
    assert_eq!(response.port, 22);
    assert_eq!(response.input, "show ver");
    assert!(response.raw_result.is_empty());
    assert_eq!(response.result, "");
    assert_eq!(response.start_time, 100);
    assert_eq!(response.end_time, 100);
    assert_eq!(response.elapsed_time, 0);
    assert!(response.failed);
    response.record_at(b"IOS 15.2".to_vec(), 350);
    assert_eq!(response.raw_result, b"IOS 15.2");
    assert_eq!(response.result, "IOS 15.2");
    assert_eq!(response.end_time, 350);
    assert_eq!(response.elapsed_time, 250);
    assert!(!response.failed);
}

#[test]
fn response_stays_failed_when_output_holds_a_failure_string() {
    let fails = vec![String::from("% Invalid"), String::from("% Ambiguous")];
    let mut response = Response::new("shw ver", "r1", 22, fails);
    response.record(b"% Ambiguous command".to_vec());
    assert!(response.failed);
    assert_eq!(response.result, "% Ambiguous command");
    assert!(response.end_time >= response.start_time);
    assert!(0 <= response.start_time && response.end_time <= LATEST_INSTANT);
    assert_eq!(LATEST_INSTANT, 8_210_266_876_799_999_999);
    assert_eq!(i64::MAX - LATEST_INSTANT, OWED_TIMEOUT as i64);
    assert_eq!(response.elapsed_time, response.end_time - response.start_time);
    let mut response = Response::new("show ver", "r1", 22, vec![]);
    response.record(vec![]);
    assert!(!response.failed);
    assert!(Response::can_record(b"abc"));
    assert!(Response::can_record("\u{e9}".as_bytes()));
    assert!(!Response::can_record(b"\xff\xfe"));
}

#[test]
fn elapsed_is_the_difference_where_it_fits() {
    assert_eq!(elapsed(100, 350), 250);
    assert_eq!(elapsed(350, 100), -250);
    assert_eq!(elapsed(i64::MIN, i64::MAX), i64::MAX);
    assert_eq!(elapsed(i64::MAX, i64::MIN), i64::MIN);
    assert_eq!(elapsed(-1, i64::MAX), i64::MAX);
    assert_eq!(elapsed(0, i64::MAX), i64::MAX);
}

#[test]
fn multi_response_fails_with_any_response() {
    let mut multi = MultiResponse::new_at("r1", 10);
    assert_eq!(multi.host, "r1");
    assert!(multi.responses.is_empty());
    assert!(!multi.failed);
    let mut ok = Response::new_at("a", "r1", 22, vec![], 10);
    ok.record_at(b"fine".to_vec(), 20);
    multi.record_response_at(ok, 25);
    assert!(!multi.failed);
    assert_eq!(multi.end_time, 25);
    assert_eq!(multi.elapsed_time, 15);
    let mut bad = Response::new_at("b", "r1", 22, vec![String::from("%")], 30);
    bad.record_at(b"% no".to_vec(), 40);
    multi.record_response_at(bad, 45);
    assert!(multi.failed);
    let mut ok = Response::new_at("c", "r1", 22, vec![], 50);
    ok.record_at(b"fine".to_vec(), 60);
    multi.record_response(ok);
    assert!(multi.failed);
    assert_eq!(multi.responses.len(), 3);
    assert_eq!(multi.responses[1].input, "b");
    let fresh = MultiResponse::new("r2");
    assert_eq!(fresh.start_time, fresh.end_time);
    assert_eq!(fresh.elapsed_time, 0);
}

#[test]
fn generic_send_command_records_the_result() {
    let mut driver = generic_driver();
    driver.args.failed_when_contains = vec![String::from("% Invalid")];
    let mut dev = device(&[b"show ver\r\n", b"IOS 15.2\r\nR1#"]);
    let op = driver.send_command("show ver").unwrap();
    assert!(op.response.failed);
    assert_eq!(op.response.failed_when_contains, vec![String::from("% Invalid")]);
    let response =
        command(&mut dev, &driver, "show ver", &GenericDriverOperationOptions::default()).unwrap();
    assert_eq!(response.input, "show ver");
    assert_eq!(response.host, "r1");
    assert_eq!(response.port, 22);
    assert_eq!(response.raw_result, b"IOS 15.2");
    assert_eq!(response.result, "IOS 15.2");
    assert!(!response.failed);
    assert_eq!(response.failed_when_contains, vec![String::from("% Invalid")]);
    assert_eq!(dev.writes, vec![b"show ver".to_vec(), b"\n".to_vec()]);
}

#[test]
fn generic_send_command_prefers_the_failure_strings_of_the_options() {
    let mut driver = generic_driver();
    driver.args.failed_when_contains = vec![String::from("% Invalid")];
    let mut options = GenericDriverOperationOptions::default();
    options.failed_when_contains = vec![String::from("IOS")];
    let mut dev = device(&[b"show ver\r\n", b"IOS 15.2\r\nR1#"]);
    let response = command(&mut dev, &driver, "show ver", &options).unwrap();
    assert!(response.failed);
    let copy = options.clone();
    assert_eq!(copy.failed_when_contains, options.failed_when_contains);
    assert_eq!(copy.stop_on_failed, options.stop_on_failed);
}

#[test]
fn generic_send_empty_command_still_gives_a_response() {
    let driver = generic_driver();
    let mut dev = device(&[b"\r\nR1#"]);
    let response =
        command(&mut dev, &driver, "", &GenericDriverOperationOptions::default()).unwrap();
    assert_eq!(response.input, "");
    assert_eq!(response.raw_result, b"");
    assert!(!response.failed);
}

#[test]
fn generic_send_command_refuses_a_result_that_is_not_utf8() {
    let driver = generic_driver();
    let mut dev = device(&[b"x\r\n", b"\xff\xfe\r\nR1#"]);
    let err =
        command(&mut dev, &driver, "x", &GenericDriverOperationOptions::default()).unwrap_err();
    assert_eq!(err.details, RESULT_NOT_UTF8);
}

#[test]
fn generic_send_commands_without_commands_is_an_error() {
    let driver = generic_driver();
    match driver.send_commands(&[]) {
        CommandsStep::Fail(err) => {
            assert_eq!(err.details, "send_commands called with empty vec of commands");
            assert_eq!(err.details, NO_COMMANDS);
        }
        _ => panic!("sending no commands began"),
    }
    let mut dev = device(&[]);
    assert!(commands(&mut dev, &driver, &[], &GenericDriverOperationOptions::default()).is_err());
    assert!(dev.writes.is_empty());
}

#[test]
fn generic_send_commands_sends_each_in_turn() {
    let driver = generic_driver();
    let mut dev = device(&[b"one\r\n", b"1\r\nR1#", b"two\r\n", b"2\r\nR1#", b"three", b"\n3\nR1#"]);
    let multi = commands(
        &mut dev,
        &driver,
        &["one", "two", "three"],
        &GenericDriverOperationOptions::default(),
    )
    .unwrap();
    assert_eq!(multi.host, "r1");
    assert_eq!(multi.responses.len(), 3);
    assert_eq!(multi.responses[0].input, "one");
    assert_eq!(multi.responses[0].result, "1");
    assert_eq!(multi.responses[1].result, "2");
    assert_eq!(multi.responses[2].input, "three");
    assert_eq!(multi.responses[2].result, "3");
    assert!(!multi.failed);
    assert_eq!(dev.writes.len(), 6);
}

#[test]
fn generic_send_commands_stops_on_failed_when_told() {
    let mut driver = generic_driver();
    driver.args.failed_when_contains = vec![String::from("% Invalid")];
    let script: Vec<&[u8]> = vec![b"one\r\n", b"% Invalid\r\nR1#", b"two\r\n", b"2\r\nR1#"];
    let mut options = GenericDriverOperationOptions::default();
    options.stop_on_failed = true;
    let mut dev = device(&script);
    let multi = commands(&mut dev, &driver, &["one", "two"], &options).unwrap();
    assert_eq!(multi.responses.len(), 1);
    assert!(multi.failed);
    assert!(multi.responses[0].failed);
    assert_eq!(dev.writes.len(), 2);
    // without it, the failure is recorded and the next command is sent
    options.stop_on_failed = false;
    let mut dev = device(&script);
    let multi = commands(&mut dev, &driver, &["one", "two"], &options).unwrap();
    assert_eq!(multi.responses.len(), 2);
    assert!(multi.failed);
    assert!(!multi.responses[1].failed);
    assert_eq!(dev.writes.len(), 4);
}

#[test]
fn prompt_text_wraps_errors_and_decodes() {
    assert_eq!(GenericDriver::prompt_text(Ok(b"R1#".to_vec())).unwrap(), "R1#");
    let err = GenericDriver::prompt_text(Ok(b"\xff".to_vec())).unwrap_err();
    assert_eq!(err.details, PROMPT_NOT_UTF8);
    let err = GenericDriver::prompt_text(Err(ScrapliError::new("lost"))).unwrap_err();
    assert_eq!(err.details, "error fetching prompt from channel, error: lost");
    let driver = generic_driver();
    let mut dev = device(&[b"\r\nR1#"]);
    let mut asking = driver.get_prompt();
    let ch = &driver.channel;
    let fetched = drive(&mut dev, |chunk| {
        if let Some(chunk) = chunk {
            asking.receive(ch, chunk);
        }
        asking.poll(ch)
    });
    assert_eq!(GenericDriver::prompt_text(fetched).unwrap(), "R1#");
}

#[test]
fn graph_interns_names_once_and_links_one_way() {
    let mut graph = PrivilegeGraph::new();
    assert!(!graph.contains_key("exec"));
    let exec = graph.intern("exec");
    let privileged = graph.intern("privileged");
    assert_eq!(graph.intern("exec"), exec);
    assert_ne!(exec, privileged);
    assert_eq!(graph.names.len(), 2);
    assert_eq!(graph.find("privileged"), Some(privileged));
    assert_eq!(graph.find("configuration"), None);
    assert!(!graph.is_linked(exec, privileged));
    graph.link(exec, privileged);
    graph.link(exec, privileged);
    assert!(graph.is_linked(exec, privileged));
    assert!(!graph.is_linked(privileged, exec));
    assert_eq!(graph.adjacency[exec], vec![privileged]);
    assert!(holds(&vec![1, 2, 3], 2));
    assert!(!holds(&vec![1, 2, 3], 4));
}

#[test]
fn graph_search_returns_a_simple_path() {
    // a ring of four with a tail: 0-1-2-3-0, 3-4
    let mut graph = PrivilegeGraph::new();
    for name in ["a", "b", "c", "d", "e"] {
        graph.intern(name);
    }
    for (i, j) in [(0, 1), (1, 2), (2, 3), (3, 0), (3, 4)] {
        graph.link(i, j);
        graph.link(j, i);
    }
    let way = graph.search(0, 4, &vec![]);
    assert_eq!(way.first(), Some(&0));
    assert_eq!(way.last(), Some(&4));
    for pair in way.windows(2) {
        assert!(graph.is_linked(pair[0], pair[1]));
    }
    let mut seen = way.clone();
    seen.sort();
    seen.dedup();
    assert_eq!(seen.len(), way.len());
    assert_eq!(way, vec![0, 1, 2, 3, 4]);
    // with node 3 to avoid there is no way to the tail
    assert_eq!(graph.search(0, 4, &vec![3]), Vec::<usize>::new());
    // the way that led here is kept in front
    assert_eq!(graph.search(0, 2, &vec![3]), vec![3, 0, 1, 2]);
    assert_eq!(graph.search(2, 2, &vec![]), vec![2]);
    let names = graph.path_between("a", "e");
    assert_eq!(names, vec!["a", "b", "c", "d", "e"]);
    assert_eq!(graph.path_between("e", "e"), vec!["e"]);
    assert_eq!(graph.path_between("nowhere", "nowhere"), vec!["nowhere"]);
    assert!(graph.path_between("a", "nowhere").is_empty());
    assert!(graph.path_between("nowhere", "a").is_empty());
}

#[test]
fn graph_search_finds_no_way_between_islands() {
    let mut graph = PrivilegeGraph::new();
    for name in ["a", "b", "c"] {
        graph.intern(name);
    }
    graph.link(0, 1);
    graph.link(1, 0);
    assert!(graph.search(0, 2, &vec![]).is_empty());
    assert!(graph.path_between("a", "c").is_empty());
    assert_eq!(graph.path_between("b", "a"), vec!["b", "a"]);
}

#[test]
fn network_open_builds_graph_and_joined_prompt() {
    let driver = network_driver(ios_levels(), "");
    let graph = &driver.privilege_level_graph;
    assert_eq!(graph.names, vec!["exec", "privileged", "configuration"]);
    assert!(graph.is_linked(0, 1));
    assert!(graph.is_linked(1, 0));
    assert!(graph.is_linked(1, 2));
    assert!(graph.is_linked(2, 1));
    assert!(!graph.is_linked(0, 2));
    let joined = format!("{}|{}|{}", EXEC, PRIVILEGED, CONFIGURATION);
    assert_eq!(driver.generic_driver.channel.args.prompt_pattern.as_str(), joined);
    let prompt = &driver.generic_driver.channel.args.prompt_pattern;
    assert!(prompt.is_match(b"R1>"));
    assert!(prompt.is_match(b"R1#"));
    assert!(prompt.is_match(b"R1(config)#"));
    assert!(prompt.is_match(b"R1(config-if)#"));
    assert!(!prompt.is_match(b"Password:"));
}

#[test]
fn network_open_needs_levels_and_a_default_level() {
    let built = NetworkDriverBuilder::new(GenericDriverBuilder::new("r1")).build();
    let mut driver = built.driver;
    assert_eq!(driver.open().unwrap_err().details, PRIVILEGES_UNSET);
    let built = NetworkDriverBuilder::new(GenericDriverBuilder::new("r1"))
        .privilege_levels(ios_levels())
        .build();
    let mut driver = built.driver;
    assert_eq!(driver.open().unwrap_err().details, PRIVILEGES_UNSET);
    let built = NetworkDriverBuilder::new(GenericDriverBuilder::new("r1"))
        .default_desired_privilege_level("exec")
        .build();
    let mut driver = built.driver;
    assert_eq!(driver.open().unwrap_err().details, PRIVILEGES_UNSET);
}

#[test]
fn update_privileges_links_levels_that_share_a_previous_name() {
    let mut driver = NetworkDriver::new(generic_driver(), NetworkArgs::default());
    driver.args.privilege_levels =
        vec![level("a", "a>", "root"), level("b", "b>", "root"), level("c", "c>", "")];
    driver.update_privileges().unwrap();
    assert_eq!(driver.privilege_level_graph.names, vec!["a", "root", "b", "c"]);
    assert_eq!(driver.build_privilege_change_map("a", "b"), vec!["a", "root", "b"]);
    assert!(driver.build_privilege_change_map("a", "c").is_empty());
    assert_eq!(driver.generic_driver.channel.args.prompt_pattern.as_str(), "a>|b>|c>");
    driver.build_privilege_level_graph();
    assert_eq!(driver.privilege_level_graph.names.len(), 4);
    driver.build_joined_prompt_pattern().unwrap();
}

#[test]
fn joined_prompt_that_does_not_compile_is_an_error() {
    // each pattern compiles alone; joined, the name of the group comes twice
    let mut driver = NetworkDriver::new(generic_driver(), NetworkArgs::default());
    driver.args.privilege_levels =
        vec![level("a", "(?P<prompt>a>)", ""), level("b", "(?P<prompt>b>)", "a")];
    driver.args.default_desired_privilege_level = String::from("a");
    let before = driver.generic_driver.channel.args.prompt_pattern.as_str().to_owned();
    let err = driver.update_privileges().unwrap_err();
    assert!(err
        .details
        .starts_with("encountered error joining privilege level prompt patterns, error: "));
    assert_eq!(driver.generic_driver.channel.args.prompt_pattern.as_str(), before);
    assert_eq!(driver.privilege_level_graph.names, vec!["a", "b"]);
    assert!(driver.open().is_err());
}

#[test]
fn set_joined_prompt_pattern_takes_what_compiling_gave() {
    let mut driver = NetworkDriver::new(generic_driver(), NetworkArgs::default());
    driver.args.privilege_levels = vec![level("a", "a>", ""), level("b", "b#", "a")];
    assert_eq!(driver.join_patterns(), "a>|b#");
    let before = driver.generic_driver.channel.args.prompt_pattern.as_str().to_owned();
    let err = regex::bytes::Regex::new("(").unwrap_err();
    let text = err.to_string();
    let failed = driver.set_joined_prompt_pattern(Err(err)).unwrap_err();
    assert_eq!(
        failed.details,
        format!("encountered error joining privilege level prompt patterns, error: {text}")
    );
    assert_eq!(driver.generic_driver.channel.args.prompt_pattern.as_str(), before);
    driver.set_joined_prompt_pattern(Ok(Pattern::new("x|y").unwrap())).unwrap();
    assert_eq!(driver.generic_driver.channel.args.prompt_pattern.as_str(), "x|y");
    driver.args.privilege_levels.clear();
    assert_eq!(driver.join_patterns(), "");
}

#[test]
fn determine_current_privilege_level_wants_exactly_one_match() {
    let mut driver = network_driver(ios_levels(), "");
    assert_eq!(driver.determine_current_privilege_level("R1>").unwrap(), "exec");
    assert_eq!(driver.determine_current_privilege_level("R1#").unwrap(), "privileged");
    assert_eq!(driver.determine_current_privilege_level("R1(config)#").unwrap(), "configuration");
    let err = driver.determine_current_privilege_level("Password:").unwrap_err();
    assert_eq!(
        err.details,
        "could not determine privilege level from prompt 'Password:', found *no matching privilege levels*"
    );
    driver.args.privilege_levels.push(level("shell", r"#\s*$", "privileged"));
    let err = driver.determine_current_privilege_level("R1#").unwrap_err();
    assert_eq!(
        err.details,
        "could not determine privilege level from prompt 'R1#', found *more than one matching privilege level*"
    );
    // what a level must not contain tells it apart again
    driver.args.privilege_levels[3].not_contains = vec![String::from("R1")];
    assert_eq!(driver.determine_current_privilege_level("R1#").unwrap(), "privileged");
    assert_eq!(driver.determine_current_privilege_level("bash#").unwrap_err().details.len() > 0, true);
}

#[test]
fn build_privilege_change_map_walks_up_and_down() {
    let driver = network_driver(ios_levels(), "");
    assert_eq!(
        driver.build_privilege_change_map("exec", "configuration"),
        vec!["exec", "privileged", "configuration"]
    );
    assert_eq!(
        driver.build_privilege_change_map("configuration", "exec"),
        vec!["configuration", "privileged", "exec"]
    );
    assert_eq!(driver.build_privilege_change_map("exec", "exec"), vec!["exec"]);
    assert!(driver.build_privilege_change_map("exec", "shell").is_empty());
    assert_eq!(driver.find_level("privileged"), Some(1));
    assert_eq!(driver.find_level("shell"), None);
}

#[test]
fn process_acquire_chooses_the_step() {
    let mut driver = network_driver(ios_levels(), "");
    let (action, name) = driver.process_acquire_privilege_level("privileged", "R1#").unwrap();
    assert_eq!(action, PrivilegeAction::NoOp);
    assert_eq!(name, "privileged");
    assert_eq!(driver.current_privilege_level, "privileged");
    let (action, name) = driver.process_acquire_privilege_level("configuration", "R1>").unwrap();
    assert_eq!(action, PrivilegeAction::Escalate);
    assert_eq!(name, "privileged");
    assert_eq!(driver.current_privilege_level, "unknown");
    let (action, name) =
        driver.process_acquire_privilege_level("exec", "R1(config)#").unwrap();
    assert_eq!(action, PrivilegeAction::Deescalate);
    assert_eq!(name, "configuration");
    let err = driver.process_acquire_privilege_level("shell", "R1>").unwrap_err();
    assert_eq!(
        err.details,
        "could not build privilege level map to target privilege level 'shell', this is a bug"
    );
    let err = driver.process_acquire_privilege_level("exec", "???").unwrap_err();
    assert!(err.details.ends_with("found *no matching privilege levels*"));
}

#[test]
fn process_acquire_cannot_act_through_a_name_that_is_no_level() {
    let mut driver = NetworkDriver::new(generic_driver(), NetworkArgs::default());
    driver.args.privilege_levels = vec![level("a", "a>", "root"), level("b", "b>", "root")];
    driver.update_privileges().unwrap();
    let err = driver.process_acquire_privilege_level("b", "a>").unwrap_err();
    assert_eq!(
        err.details,
        "could not determine action to take to get to privilege level 'b', this is a bug"
    );
}

#[test]
fn escalation_is_an_input_or_a_dialog() {
    let driver = network_driver(ios_levels(), "s3cret");
    match driver.escalate_privilege_level("privileged").unwrap() {
        PrivilegeChange::Dialog(events) => {
            assert_eq!(events.len(), 2);
            assert_eq!(events.0[0].input, "enable");
            assert_eq!(events.0[0].response, "Password:");
            assert!(!events.0[0].hidden);
            assert_eq!(events.0[1].input, "s3cret");
            assert_eq!(events.0[1].response, PRIVILEGED);
            assert!(events.0[1].hidden);
        }
        PrivilegeChange::Input(_) => panic!("the secondary password was not used"),
    }
    match driver.escalate_privilege_level("configuration").unwrap() {
        PrivilegeChange::Input(input) => assert_eq!(input, "configure terminal"),
        PrivilegeChange::Dialog(_) => panic!("a dialog for a level without authentication"),
    }
    let without = network_driver(ios_levels(), "");
    match without.escalate_privilege_level("privileged").unwrap() {
        PrivilegeChange::Input(input) => assert_eq!(input, "enable"),
        PrivilegeChange::Dialog(_) => panic!("a dialog without a secondary password"),
    }
    match driver.deescalate_privilege_level("configuration").unwrap() {
        PrivilegeChange::Input(input) => assert_eq!(input, "end"),
        PrivilegeChange::Dialog(_) => panic!("de-escalation is one input"),
    }
    assert_eq!(driver.escalate_privilege_level("shell").err().unwrap().details, UNKNOWN_LEVEL);
    assert_eq!(driver.deescalate_privilege_level("shell").err().unwrap().details, UNKNOWN_LEVEL);
}

#[test]
fn privilege_escalation() {
    let mut privileged = level("privileged", PRIVILEGED, "exec");
    privileged.escalate = String::from("enable");
    privileged.escalate_auth = true;
    privileged.escalate_prompt = String::from("Password:");
    let mut driver = network_driver(vec![level("exec", EXEC, ""), privileged], "secondary_password");
    let mut dev = device(&[
        b"\r\nR1>",
        b"enable",
        b"\r\nPassword: ",
        b"\r\nR1#",
        b"\r\nR1#",
    ]);
    let changes = acquire(&mut dev, &mut driver, "privileged").unwrap();
    assert_eq!(changes, 1);
    assert_eq!(
        dev.writes,
        vec![
            b"\n".to_vec(),
            b"enable".to_vec(),
            b"\n".to_vec(),
            b"secondary_password".to_vec(),
            b"\n".to_vec(),
            b"\n".to_vec(),
        ]
    );
    assert_eq!(driver.current_privilege_level, "privileged");
    assert_eq!(dev.next, 5);
}

#[test]
fn acquire_walks_down_through_the_levels() {
    let mut driver = network_driver(ios_levels(), "");
    let mut dev = device(&[
        b"\r\nR1(config)#",
        b"end\r\n",
        b"R1#",
        b"\r\nR1#",
        b"disable\r\n",
        b"R1>",
        b"\r\nR1>",
    ]);
    let changes = acquire(&mut dev, &mut driver, "exec").unwrap();
    assert_eq!(changes, 2);
    assert_eq!(
        dev.writes,
        vec![
            b"\n".to_vec(),
            b"end".to_vec(),
            b"\n".to_vec(),
            b"\n".to_vec(),
            b"disable".to_vec(),
            b"\n".to_vec(),
            b"\n".to_vec(),
        ]
    );
    assert_eq!(driver.current_privilege_level, "exec");
}

#[test]
fn acquire_gives_up_after_twice_as_many_changes_as_levels() {
    let mut driver = network_driver(vec![level("exec", EXEC, ""), level("privileged", PRIVILEGED, "exec")], "");
    // a device that echoes and stays at its prompt, whatever is sent
    let mut dev = device(&[b"\r\nR1>", b"go\r\nR1>"]);
    dev.repeat_last = true;
    let err = acquire(&mut dev, &mut driver, "privileged").unwrap_err();
    assert_eq!(err.details, "failed to acquire target privilege level 'privileged'");
    let changes = dev.writes.iter().filter(|b| b.as_slice() == b"go").count();
    assert_eq!(changes, 4);
    assert_eq!(driver.current_privilege_level, "unknown");
}

#[test]
fn acquire_refuses_a_target_that_is_no_level() {
    let mut driver = network_driver(ios_levels(), "");
    let mut dev = device(&[]);
    let err = acquire(&mut dev, &mut driver, "shell").unwrap_err();
    assert_eq!(err.details, "requested privilege level 'shell' is not a valid privilege level");
    assert!(dev.writes.is_empty());
}

#[test]
fn acquire_steps_out_of_turn_fail() {
    let mut driver = network_driver(ios_levels(), "");
    let mut acquiring = driver.acquire_privilege_level("exec").unwrap();
    assert_eq!(acquiring.phase, AcquirePhase::Start);
    match acquiring.changed(Ok(vec![])) {
        AcquireStep::Fail(err) => assert_eq!(err.details, OPERATION_OVER),
        _ => panic!("a change was taken before one was asked for"),
    }
    assert_eq!(acquiring.phase, AcquirePhase::Over);
    let mut acquiring = driver.acquire_privilege_level("exec").unwrap();
    match acquiring.prompt_fetched(&mut driver, Ok(b"R1>".to_vec())) {
        AcquireStep::Fail(err) => assert_eq!(err.details, OPERATION_OVER),
        _ => panic!("a prompt was taken before one was asked for"),
    }
    let mut acquiring = driver.acquire_privilege_level("exec").unwrap();
    assert!(matches!(acquiring.start(), AcquireStep::GetPrompt));
    assert!(matches!(acquiring.start(), AcquireStep::Fail(_)));
    let mut acquiring = driver.acquire_privilege_level("exec").unwrap();
    assert!(matches!(acquiring.start(), AcquireStep::GetPrompt));
    match acquiring.prompt_fetched(&mut driver, Err(ScrapliError::new("lost"))) {
        AcquireStep::Fail(err) => {
            assert_eq!(err.details, "error fetching prompt from channel, error: lost")
        }
        _ => panic!("a lost prompt went on"),
    }
    let mut acquiring = driver.acquire_privilege_level("exec").unwrap();
    assert!(matches!(acquiring.start(), AcquireStep::GetPrompt));
    assert!(matches!(
        acquiring.prompt_fetched(&mut driver, Ok(b"R1#".to_vec())),
        AcquireStep::Change(PrivilegeChange::Input(_))
    ));
    match acquiring.changed(Err(ScrapliError::new("timed out"))) {
        AcquireStep::Fail(err) => assert_eq!(err.details, "timed out"),
        _ => panic!("a failed change went on"),
    }
}

#[test]
fn network_send_command_acquires_the_default_level_first() {
    let mut driver = network_driver(ios_levels(), "");
    match driver.send_command("show ver") {
        CommandStart::Acquire(acquiring) => {
            assert_eq!(acquiring.target, "privileged");
            assert_eq!(acquiring.action_count, 0);
        }
        _ => panic!("the command went out before the level was acquired"),
    }
    let mut dev = device(&[b"\r\nR1#", b"show ver\r\n", b"IOS 15.2\r\nR1#"]);
    assert_eq!(acquire(&mut dev, &mut driver, "privileged").unwrap(), 0);
    let mut op = match driver.send_command_with_options("show ver", &NetworkOperationOptions::default()) {
        CommandStart::Send(op) => op,
        _ => panic!("the command did not go out at the default level"),
    };
    let ch = &driver.generic_driver.channel;
    let sending = &mut op.sending;
    let rb = drive(&mut dev, |chunk| {
        if let Some(chunk) = chunk {
            sending.receive(ch, chunk);
        }
        sending.poll(ch)
    })
    .unwrap();
    let response = op.finish(rb).unwrap();
    assert_eq!(response.result, "IOS 15.2");
    driver.args.default_desired_privilege_level = String::from("shell");
    match driver.send_command("show ver") {
        CommandStart::Fail(err) => assert_eq!(
            err.details,
            "requested privilege level 'shell' is not a valid privilege level"
        ),
        _ => panic!("a default level that is no level was accepted"),
    }
}

#[test]
fn network_send_command_passes_on_a_deadline_beyond_the_clock() {
    let mut driver = network_driver(ios_levels(), "");
    driver.current_privilege_level = String::from("privileged");
    let mut options = NetworkOperationOptions::default();
    options.generic_driver_operation_options.channel_operation_options.timeout = Some(u64::MAX);
    match driver.send_command_with_options("show ver", &options) {
        CommandStart::Fail(err) => assert_eq!(err.details, TIMEOUT_OUT_OF_RANGE),
        _ => panic!("a deadline beyond the clock was accepted"),
    }
    let copy = options.clone();
    assert_eq!(copy.privilege_level, options.privilege_level);
}

#[test]
fn send_configs_acquires_configuration_by_default() {
    let driver = network_driver(ios_levels(), "");
    let acquiring = driver.send_configs(&NetworkOperationOptions::default()).unwrap();
    assert_eq!(acquiring.target, "configuration");
    let mut options = NetworkOperationOptions::default();
    options.privilege_level = String::from("exec");
    assert_eq!(driver.send_configs(&options).unwrap().target, "exec");
    options.privilege_level = String::from("shell");
    assert!(driver.send_configs(&options).is_err());
}

#[test]
fn send_configs_end_to_end() {
    let mut driver = network_driver(ios_levels(), "");
    let mut dev = device(&[
        b"\r\nR1#",
        b"configure terminal\r\n",
        b"R1(config)#",
        b"\r\nR1(config)#",
        b"hostname R2\r\n",
        b"R2(config)#",
        b"no shutdown\r\n",
        b"R2(config)#",
    ]);
    let options = NetworkOperationOptions::default();
    let target = driver.send_configs(&options).unwrap().target;
    assert_eq!(target, "configuration");
    let acquired = acquire(&mut dev, &mut driver, &target).map(|_| ());
    // the level is acquired before any line is written
    assert_eq!(
        dev.writes,
        vec![
            b"\n".to_vec(),
            b"configure terminal".to_vec(),
            b"\n".to_vec(),
            b"\n".to_vec(),
        ]
    );
    let mut step = driver.acquired_for_configs(&["hostname R2", "no shutdown"], &options, acquired);
    let multi = loop {
        match step {
            CommandsStep::Send(next, mut sending) => {
                let ch = &driver.generic_driver.channel;
                let rb = drive(&mut dev, |chunk| {
                    if let Some(chunk) = chunk {
                        sending.receive(ch, chunk);
                    }
                    sending.poll(ch)
                })
                .unwrap();
                step = next.record(&driver.generic_driver, rb);
            }
            CommandsStep::Done(multi) => break multi,
            CommandsStep::Fail(err) => panic!("sending the lines failed: {}", err.details),
        }
    };
    assert_eq!(multi.responses.len(), 2);
    assert_eq!(multi.responses[0].input, "hostname R2");
    assert_eq!(multi.responses[1].input, "no shutdown");
    assert_eq!(multi.responses[0].result, "");
    assert!(!multi.failed);
    assert_eq!(
        dev.writes[4..],
        [b"hostname R2".to_vec(), b"\n".to_vec(), b"no shutdown".to_vec(), b"\n".to_vec()]
    );
}

#[test]
fn send_configs_sends_no_line_after_a_failed_acquisition() {
    let mut levels = ios_levels();
    levels.push(level("shell", r"#\s*$", "privileged"));
    let mut driver = network_driver(levels, "");
    let options = NetworkOperationOptions::default();
    let target = driver.send_configs(&options).unwrap().target;
    // a device that shows a prompt of two levels
    let mut dev = device(&[b"\r\nR1#"]);
    let acquired = acquire(&mut dev, &mut driver, &target).map(|_| ());
    let failure = acquired.as_ref().err().unwrap().details.clone();
    assert!(failure.ends_with("found *more than one matching privilege level*"));
    let writes = dev.writes.len();
    match driver.acquired_for_configs(&["hostname R2"], &options, acquired) {
        CommandsStep::Fail(err) => assert_eq!(err.details, failure),
        _ => panic!("lines went out after a failed acquisition"),
    }
    assert_eq!(dev.writes.len(), writes);
    match driver.acquired_for_configs_at(&["hostname R2"], &options, Err(ScrapliError::new("no")), 5) {
        CommandsStep::Fail(err) => assert_eq!(err.details, "no"),
        _ => panic!("lines went out after a failed acquisition"),
    }
    match driver.acquired_for_configs_at(&[], &options, Ok(()), 5) {
        CommandsStep::Fail(err) => assert_eq!(err.details, NO_COMMANDS),
        _ => panic!("no lines were sent"),
    }
    match driver.acquired_for_configs_at(&["hostname R2"], &options, Ok(()), 5) {
        CommandsStep::Send(next, sending) => {
            assert_eq!(next.multi.start_time, 5);
            assert_eq!(next.response.input, "hostname R2");
            assert_eq!(sending.deadline, 30_000_005);
        }
        _ => panic!("the first line was not started"),
    }
    match driver.acquired_for_configs_at(&["hostname R2"], &options, Ok(()), i64::MAX) {
        CommandsStep::Fail(err) => assert_eq!(err.details, TIMEOUT_OUT_OF_RANGE),
        _ => panic!("a deadline beyond the clock was accepted"),
    }
}

#[test]
fn acquired_for_command_goes_on_or_passes_the_error_on() {
    let driver = network_driver(ios_levels(), "");
    let options = NetworkOperationOptions::default();
    match driver.acquired_for_command("show ver", &options, Err(ScrapliError::new("no way"))) {
        CommandStart::Fail(err) => assert_eq!(err.details, "no way"),
        _ => panic!("a command went out after a failed acquisition"),
    }
    match driver.acquired_for_command("show ver", &options, Ok(())) {
        CommandStart::Send(op) => {
            assert_eq!(op.response.input, "show ver");
            assert_eq!(op.sending.input, b"show ver");
        }
        _ => panic!("the command was not started"),
    }
    match driver.acquired_for_command_at("show ver", &options, Ok(()), 7) {
        CommandStart::Send(op) => {
            assert_eq!(op.response.start_time, 7);
            assert_eq!(op.sending.deadline, 30_000_007);
        }
        _ => panic!("the command was not started"),
    }
    match driver.acquired_for_command_at("show ver", &options, Ok(()), i64::MAX) {
        CommandStart::Fail(err) => assert_eq!(err.details, TIMEOUT_OUT_OF_RANGE),
        _ => panic!("a deadline beyond the clock was accepted"),
    }
}

#[test]
fn network_send_command_at_follows_the_noted_level() {
    let mut driver = network_driver(ios_levels(), "");
    let options = NetworkOperationOptions::default();
    assert!(matches!(
        driver.send_command_with_options_at("show ver", &options, 3),
        CommandStart::Acquire(_)
    ));
    driver.current_privilege_level = String::from("privileged");
    match driver.send_command_with_options_at("show ver", &options, 3) {
        CommandStart::Send(op) => {
            assert_eq!(op.response.start_time, 3);
            assert_eq!(op.response.end_time, 3);
            assert_eq!(op.sending.deadline, 30_000_003);
        }
        _ => panic!("the command was not started at the default level"),
    }
    assert!(matches!(driver.send_command("show ver"), CommandStart::Send(_)));
    assert!(matches!(
        driver.send_command_with_options_at("show ver", &options, i64::MAX),
        CommandStart::Fail(_)
    ));
}

#[test]
fn network_open_with_tells_its_errors_apart() {
    let mut driver = NetworkDriver::new(generic_driver(), NetworkArgs::default());
    driver.args.privilege_levels = vec![level("a", "a>", ""), level("b", "b#", "a")];
    let before = driver.generic_driver.channel.args.prompt_pattern.as_str().to_owned();
    let err = regex::bytes::Regex::new("(").unwrap_err();
    let failed = driver.open_with(Err(err)).unwrap_err();
    assert!(failed
        .details
        .starts_with("encountered error joining privilege level prompt patterns, error: "));
    assert_eq!(driver.generic_driver.channel.args.prompt_pattern.as_str(), before);
    assert_eq!(driver.privilege_level_graph.names, vec!["a", "b"]);
    // the pattern compiled, and the default desired privilege level is unset
    let unset = driver.open_with(Ok(Pattern::new("a>|b#").unwrap())).unwrap_err();
    assert_eq!(unset.details, PRIVILEGES_UNSET);
    assert_eq!(driver.generic_driver.channel.args.prompt_pattern.as_str(), "a>|b#");
    driver.args.default_desired_privilege_level = String::from("a");
    driver.open_with(Ok(Pattern::new("a>|b#").unwrap())).unwrap();
    driver.args.privilege_levels.clear();
    assert_eq!(
        driver.open_with(Ok(Pattern::new("x").unwrap())).unwrap_err().details,
        PRIVILEGES_UNSET
    );
}

#[test]
fn generic_command_at_an_instant_has_its_times_and_deadline() {
    let driver = generic_driver();
    let mut options = GenericDriverOperationOptions::default();
    let op = driver.send_command_with_options_at("show ver", &options, 1_000).ok().unwrap();
    assert_eq!(op.response.start_time, 1_000);
    assert_eq!(op.response.end_time, 1_000);
    assert_eq!(op.response.elapsed_time, 0);
    assert_eq!(op.sending.deadline, 30_001_000);
    let response = op.finish_at(b"IOS".to_vec(), 1_500).unwrap();
    assert_eq!(response.end_time, 1_500);
    assert_eq!(response.elapsed_time, 500);
    assert_eq!(response.result, "IOS");
    options.channel_operation_options.timeout = Some(5);
    let op = driver.send_command_with_options_at("show ver", &options, 1_000).ok().unwrap();
    assert_eq!(op.sending.deadline, 1_005);
    assert_eq!(op.finish_at(b"\xff".to_vec(), 2_000).unwrap_err().details, RESULT_NOT_UTF8);
    options.channel_operation_options.timeout = Some(u64::MAX);
    let err = driver.send_command_with_options_at("show ver", &options, 1_000).err().unwrap();
    assert_eq!(err.details, TIMEOUT_OUT_OF_RANGE);
    // with a timeout of nothing the clock cannot fail the start
    options.channel_operation_options.timeout = Some(0);
    assert!(driver.send_command_with_options("show ver", &options).is_ok());
    assert!(driver.send_command("show ver").is_ok());
}

#[test]
fn generic_commands_at_an_instant_record_their_times() {
    let driver = generic_driver();
    let options = GenericDriverOperationOptions::default();
    let (next, sending) = match driver.send_commands_with_options_at(&["a", "b"], &options, 10) {
        CommandsStep::Send(next, sending) => (next, sending),
        _ => panic!("the first command was not started"),
    };
    assert_eq!(next.multi.start_time, 10);
    assert_eq!(next.idx, 0);
    assert_eq!(sending.deadline, 30_000_010);
    let (next, sending) = match next.record_at(&driver, b"1".to_vec(), 20) {
        CommandsStep::Send(next, sending) => (next, sending),
        _ => panic!("the second command was not started"),
    };
    assert_eq!(next.idx, 1);
    assert_eq!(next.multi.end_time, 20);
    assert_eq!(next.multi.responses[0].end_time, 20);
    assert_eq!(next.response.start_time, 20);
    assert_eq!(sending.deadline, 30_000_020);
    match next.record_at(&driver, b"2".to_vec(), 35) {
        CommandsStep::Done(multi) => {
            assert_eq!(multi.end_time, 35);
            assert_eq!(multi.elapsed_time, 25);
            assert_eq!(multi.responses[1].elapsed_time, 15);
            assert_eq!(multi.responses[1].result, "2");
        }
        _ => panic!("the operation did not end with its last command"),
    }
    // the clock can fail the start of the next command, and nothing else
    let next = match driver.send_commands_with_options_at(&["a", "b"], &options, 10) {
        CommandsStep::Send(next, _) => next,
        _ => panic!("the first command was not started"),
    };
    match next.record_at(&driver, b"1".to_vec(), i64::MAX) {
        CommandsStep::Fail(err) => assert_eq!(err.details, TIMEOUT_OUT_OF_RANGE),
        _ => panic!("a deadline beyond the clock was accepted"),
    }
    match driver.send_commands_with_options_at(&["a"], &options, i64::MAX) {
        CommandsStep::Fail(err) => assert_eq!(err.details, TIMEOUT_OUT_OF_RANGE),
        _ => panic!("a deadline beyond the clock was accepted"),
    }
    match driver.send_commands_with_options_at(&[], &options, i64::MAX) {
        CommandsStep::Fail(err) => assert_eq!(err.details, NO_COMMANDS),
        _ => panic!("no commands were sent"),
    }
}

#[test]
fn decimal_writes_numbers() {
    assert_eq!(decimal(0), "0");
    assert_eq!(decimal(7), "7");
    assert_eq!(decimal(22), "22");
    assert_eq!(decimal(8192), "8192");
    assert_eq!(decimal(1_234_567_890), "1234567890");
    assert_eq!(decimal(u64::MAX), "18446744073709551615");
}

#[test]
fn open_args_are_assembled_in_order() {
    let mut args = TransportArgs::new("r1.lab");
    let mut ssh_args = TransportSSHArgs::default();
    let mut system_args = SystemArgs::default();
    assert_eq!(system_args.open_bin, "ssh");
    system_args.build_open_args(&args, &ssh_args);
    assert_eq!(
        system_args.open_args,
        vec![
            "r1.lab",
            "-p",
            "22",
            "-o",
            "ConnectTimeout=30",
            "-o",
            "ServerAliveInterval=30",
            "-o",
            "StrictHostKeyChecking=yes",
        ]
    );
    args.port = 2222;
    args.user = String::from("admin");
    args.timeout_socket = 5;
    ssh_args.known_hosts_file_path = String::from("/kh");
    ssh_args.config_file_path = String::from("/cfg");
    ssh_args.private_key_path = String::from("/key");
    system_args.extra_args = vec![String::from("-v"), String::from("-4")];
    system_args.build_open_args(&args, &ssh_args);
    assert_eq!(
        system_args.open_args,
        vec![
            "r1.lab",
            "-p",
            "2222",
            "-o",
            "ConnectTimeout=5",
            "-o",
            "ServerAliveInterval=5",
            "-l",
            "admin",
            "-o",
            "StrictHostKeyChecking=yes",
            "-o",
            "UserKnownHostsFile=/kh",
            "-F",
            "/cfg",
            "-i",
            "/key",
            "-v",
            "-4",
        ]
    );
    ssh_args.strict_key = false;
    system_args.build_open_args(&args, &ssh_args);
    assert_eq!(
        system_args.open_args[9..13],
        ["-o", "StrictHostKeyChecking=no", "-o", "UserKnownHostsFile=/dev/null"]
    );
    assert_eq!(system_args.open_args.len(), 19);
}

#[test]
fn open_args_that_are_set_are_kept() {
    let args = TransportArgs::new("r1");
    let ssh_args = TransportSSHArgs::default();
    let mut system_args = SystemArgs::default();
    system_args.open_args = vec![String::from("exec"), String::from("-it")];
    system_args.prepare_open_args(&args, &ssh_args);
    assert_eq!(system_args.open_args, vec!["exec", "-it"]);
    system_args.open_args = vec![];
    system_args.prepare_open_args(&args, &ssh_args);
    assert_eq!(system_args.open_args.len(), 9);
}

#[test]
fn transport_args_start_with_the_defaults() {
    let args = TransportArgs::new("r1");
    assert_eq!(args.host, "r1");
    assert_eq!(args.port, 22);
    assert_eq!(args.user, "");
    assert_eq!(args.password, "");
    assert_eq!(args.timeout_socket, 30);
    assert_eq!(args.read_size, 8192);
    assert_eq!(args.term_height, 255);
    assert_eq!(args.term_width, 80);
    let ssh_args = TransportSSHArgs::default();
    assert!(ssh_args.strict_key);
    assert_eq!(ssh_args.private_key_path, "");
    assert!(!ssh_args.netconf_connection);
    let mut args = args;
    args.user = String::from("admin");
    args.password = String::from("pw");
    let mut ssh_args = ssh_args;
    ssh_args.private_key_passphrase = String::from("phrase");
    let data = in_channel_auth_data(&args, &ssh_args);
    assert_eq!(data.auth_type, InChannelAuthType::SSH);
    assert_eq!(data.user, "admin");
    assert_eq!(data.password, "pw");
    assert_eq!(data.private_key_passphrase, "phrase");
}

#[test]
fn generic_builder_sets_what_it_is_told() {
    let built = GenericDriverBuilder::new("r1")
        .auth_bypass(true)
        .prompt_search_depth(64)
        .prompt_pattern(Pattern::new("R1#").unwrap())
        .username_pattern(Pattern::new("user:").unwrap())
        .password_pattern(Pattern::new("pass:").unwrap())
        .passphrase_pattern(Pattern::new("phrase:").unwrap())
        .return_char("\r\n")
        .read_delay(500)
        .timeout_ops(1_000_000)
        .transport_type(TransportType::System)
        .port(2222)
        .user("admin")
        .password("pw")
        .timeout_socket(5)
        .read_size(1024)
        .term_height(24)
        .term_width(132)
        .ssh_strict_key(false)
        .ssh_private_key_path("/key")
        .ssh_private_key_passphrase("phrase")
        .ssh_config_file_path("/cfg")
        .ssh_known_hosts_file_path("/kh")
        .failed_when_contains(vec![String::from("%")])
        .system_open_bin("docker")
        .system_open_args(vec![String::from("exec")])
        .system_extra_args(vec![String::from("-it")])
        .build();
    let channel_args = &built.driver.channel.args;
    assert!(channel_args.auth_bypass);
    assert_eq!(channel_args.prompt_search_depth, 64);
    assert_eq!(channel_args.prompt_pattern.as_str(), "R1#");
    assert_eq!(channel_args.username_pattern.as_str(), "user:");
    assert_eq!(channel_args.password_pattern.as_str(), "pass:");
    assert_eq!(channel_args.passphrase_pattern.as_str(), "phrase:");
    assert_eq!(channel_args.return_char, "\r\n");
    assert_eq!(channel_args.read_delay, 500);
    assert_eq!(channel_args.timeout_ops, 1_000_000);
    assert_eq!(built.driver.args.host, "r1");
    assert_eq!(built.driver.args.port, 2222);
    assert_eq!(built.driver.args.failed_when_contains, vec!["%"]);
    assert_eq!(built.transport_type, TransportType::System);
    assert_eq!(built.transport_args.host, "r1");
    assert_eq!(built.transport_args.port, 2222);
    assert_eq!(built.transport_args.user, "admin");
    assert_eq!(built.transport_args.password, "pw");
    assert_eq!(built.transport_args.timeout_socket, 5);
    assert_eq!(built.transport_args.read_size, 1024);
    assert_eq!(built.transport_args.term_height, 24);
    assert_eq!(built.transport_args.term_width, 132);
    assert!(!built.transport_ssh_args.strict_key);
    assert_eq!(built.transport_ssh_args.private_key_path, "/key");
    assert_eq!(built.transport_ssh_args.private_key_passphrase, "phrase");
    assert_eq!(built.transport_ssh_args.config_file_path, "/cfg");
    assert_eq!(built.transport_ssh_args.known_hosts_file_path, "/kh");
    assert_eq!(built.transport_system_args.open_bin, "docker");
    assert_eq!(built.transport_system_args.open_args, vec!["exec"]);
    assert_eq!(built.transport_system_args.extra_args, vec!["-it"]);
}

#[test]
fn network_builder_sets_what_it_is_told() {
    let built = NetworkDriverBuilder::new(GenericDriverBuilder::new("r1").port(830))
        .secondary_password("s3cret")
        .privilege_levels(ios_levels())
        .default_desired_privilege_level("privileged")
        .build();
    assert_eq!(built.driver.args.secondary_password, "s3cret");
    assert_eq!(built.driver.args.privilege_levels.len(), 3);
    assert_eq!(built.driver.args.default_desired_privilege_level, "privileged");
    assert_eq!(built.driver.generic_driver.args.port, 830);
    assert_eq!(built.driver.current_privilege_level, "");
    assert!(built.driver.privilege_level_graph.names.is_empty());
    assert_eq!(built.transport_args.port, 830);
    let args = NetworkArgs::default();
    assert_eq!(args.secondary_password, "");
    assert!(args.privilege_levels.is_empty());
}

#[test]
fn platform_types_hold_what_they_are_given() {
    assert_eq!(DriverType::default(), DriverType::Generic);
    let platform = Platform::of_type("cisco_iosxe");
    assert_eq!(platform.platform_type, "cisco_iosxe");
    assert_eq!(platform.driver_type, DriverType::Generic);
    assert_eq!(Platform::unknown("vax").details, "unknown platform name 'vax'");
    let definition = Definition {
        platform_type: String::from("cisco_iosxe"),
        default: platform,
        variants: vec![(String::from("telnet"), Platform::of_type("cisco_iosxe"))],
    };
    assert_eq!(definition.variants.len(), 1);
    assert_eq!(definition.default.platform_type, definition.platform_type);
}
