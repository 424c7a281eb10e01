use multi_ssh::command_line::{action_of_words, parse_line, LineAction};
use multi_ssh::copy::{plan_copy, CopyError};
use multi_ssh::node::{filter_nodes, HostKeyPolicy, Node};
use multi_ssh::registry::{build_registry, Registry, RegistryError};
use multi_ssh::session::{
    expects, CommandEvent, CommandOutput, CommandStage, CommandStep, DispatchError, NodeSession,
    Outcome, TransportError,
};

fn node(address: &str, tag: &str) -> Node {
    Node { public_address: address.to_string(), tag: tag.to_string(), keyfile: None }
}

fn session(address: &str, handle: u32) -> NodeSession<u32> {
    NodeSession { node: node(address, "t"), session: handle }
}

fn output(text: &str) -> CommandOutput {
    CommandOutput { stdout: text.as_bytes().to_vec(), stderr: Vec::new(), status: Some(0) }
}

fn addresses(sessions: &[NodeSession<u32>]) -> Vec<String> {
    sessions.iter().map(|s| s.node.public_address.clone()).collect()
}

fn strings(v: &[&str]) -> Vec<String> {
    v.iter().map(|s| s.to_string()).collect()
}

#[test]
fn filter_keeps_matching_tags_in_order() {
    let nodes = vec![node("a", "x"), node("b", "y"), node("c", "x"), node("d", "xx")];
    let kept = filter_nodes(&nodes, &Some("x".to_string()));
    let got: Vec<&str> = kept.iter().map(|n| n.public_address.as_str()).collect();
    assert_eq!(got, vec!["a", "c"]);
}

#[test]
fn filter_without_tag_keeps_everything() {
    let nodes = vec![node("a", "x"), node("b", ""), node("c", "y")];
    let kept = filter_nodes(&nodes, &None);
    let got: Vec<&str> = kept.iter().map(|n| n.public_address.as_str()).collect();
    assert_eq!(got, vec!["a", "b", "c"]);
}

#[test]
fn filter_by_unused_tag_keeps_nothing() {
    let nodes = vec![node("a", "x"), node("b", "y")];
    assert!(filter_nodes(&nodes, &Some("z".to_string())).is_empty());
}

#[test]
fn registry_counts_reachable_and_unreachable() {
    let attempts: Vec<Result<NodeSession<u32>, String>> = vec![
        Err("e1".to_string()),
        Ok(session("a", 1)),
        Err("e2".to_string()),
        Ok(session("b", 2)),
        Ok(session("c", 3)),
    ];
    let (registry, failures) = build_registry(attempts);
    let registry = registry.ok().unwrap();
    assert_eq!(addresses(&registry.sessions), strings(&["a", "b", "c"]));
    assert_eq!(failures, strings(&["e1", "e2"]));
}

#[test]
fn registry_without_reachable_host_fails() {
    let attempts: Vec<Result<NodeSession<u32>, String>> =
        vec![Err("down".to_string()), Err("refused".to_string())];
    let (registry, failures) = build_registry(attempts);
    assert!(matches!(registry, Err(RegistryError::NoReachableHosts)));
    assert_eq!(failures.len(), 2);
    let (empty, none) = build_registry::<u32, String>(Vec::new());
    assert!(matches!(empty, Err(RegistryError::NoReachableHosts)));
    assert!(none.is_empty());
}

#[test]
fn get_node_session_attaches_connection() {
    let s = node("h", "t").get_node_session::<u32, String>(Ok(7)).ok().unwrap();
    assert_eq!(s.session, 7);
    assert_eq!(s.node.public_address, "h");
    let e = node("h", "t").get_node_session::<u32, String>(Err("no".to_string()));
    assert_eq!(e.err().unwrap(), "no");
}

#[test]
fn connect_request_carries_address_and_key() {
    let mut n = node("10.0.0.1", "t");
    n.keyfile = Some("~/.ssh/id".to_string());
    let r = n.connect(HostKeyPolicy::AcceptAll);
    assert_eq!(r.destination, "10.0.0.1");
    assert_eq!(r.keyfile.as_deref(), Some("~/.ssh/id"));
    assert!(matches!(r.host_keys, HostKeyPolicy::AcceptAll));
    let r = node("b", "t").connect(HostKeyPolicy::KnownHostsFile);
    assert!(r.keyfile.is_none());
    assert!(matches!(r.host_keys, HostKeyPolicy::KnownHostsFile));
}

#[test]
fn command_succeeds_first_time() {
    let mut s = session("a", 1);
    let (_, step) = s.run_command(CommandStage::FirstAttempt, CommandEvent::Finished(output("up")));
    match step {
        CommandStep::Done(Outcome::Success(o)) => assert_eq!(o.stdout, b"up".to_vec()),
        _ => panic!("expected success"),
    }
    assert_eq!(s.session, 1);
}

#[test]
fn dropped_connection_recovers_once() {
    let mut s = session("a", 1);
    let (stage, step) = s.run_command(
        CommandStage::FirstAttempt,
        CommandEvent::Failed(TransportError::Disconnected),
    );
    assert!(matches!(step, CommandStep::Reconnect));
    let (stage, step) = s.run_command(stage, CommandEvent::Reconnected(9));
    assert!(matches!(step, CommandStep::Execute));
    assert_eq!(s.session, 9);
    let (_, step) = s.run_command(stage, CommandEvent::Finished(output("12:00 up")));
    match step {
        CommandStep::Done(Outcome::RecoveredAndRetried(o)) => {
            assert_eq!(o.stdout, b"12:00 up".to_vec());
            assert_eq!(o.status, Some(0));
        }
        _ => panic!("expected a recovered run"),
    }
}

#[test]
fn failed_reconnect_is_unrecoverable() {
    let mut s = session("a", 1);
    let (stage, _) = s.run_command(
        CommandStage::FirstAttempt,
        CommandEvent::Failed(TransportError::Disconnected),
    );
    let (_, step) = s.run_command(stage, CommandEvent::ReconnectFailed("timeout".to_string()));
    match step {
        CommandStep::Done(Outcome::Failed(DispatchError::DisconnectedUnrecoverable(d))) => {
            assert_eq!(d, "timeout")
        }
        _ => panic!("expected an unrecoverable disconnect"),
    }
    assert_eq!(s.session, 1);
}

#[test]
fn second_drop_is_not_retried() {
    let mut s = session("a", 1);
    let (stage, _) = s.run_command(
        CommandStage::FirstAttempt,
        CommandEvent::Failed(TransportError::Disconnected),
    );
    let (stage, _) = s.run_command(stage, CommandEvent::Reconnected(2));
    let (_, step) = s.run_command(stage, CommandEvent::Failed(TransportError::Disconnected));
    assert!(matches!(
        step,
        CommandStep::Done(Outcome::Failed(DispatchError::Command(TransportError::Disconnected)))
    ));
}

#[test]
fn other_transport_error_is_not_retried() {
    let mut s = session("a", 1);
    let (_, step) = s.run_command(
        CommandStage::FirstAttempt,
        CommandEvent::Failed(TransportError::Other("broken pipe".to_string())),
    );
    match step {
        CommandStep::Done(Outcome::Failed(DispatchError::Command(TransportError::Other(d)))) => {
            assert_eq!(d, "broken pipe")
        }
        _ => panic!("expected a command error"),
    }
}

#[test]
fn expects_matches_stage() {
    let finished: CommandEvent<u32> = CommandEvent::Finished(output(""));
    let reconnected: CommandEvent<u32> = CommandEvent::Reconnected(3);
    assert!(expects(&CommandStage::FirstAttempt, &finished));
    assert!(!expects(&CommandStage::FirstAttempt, &reconnected));
    assert!(expects(&CommandStage::Reconnecting, &reconnected));
    assert!(!expects(&CommandStage::Reconnecting, &finished));
    assert!(expects(&CommandStage::Retrying, &finished));
}

#[test]
fn broadcast_reports_one_result_per_session() {
    let registry = Registry { sessions: vec![session("a", 1), session("b", 2), session("c", 3)] };
    let outcomes = vec![
        Outcome::Success(output("x")),
        Outcome::Failed(DispatchError::Command(TransportError::Other("e".to_string()))),
        Outcome::RecoveredAndRetried(output("y")),
    ];
    let results = registry.collect_results(outcomes);
    assert_eq!(results.len(), 3);
    let hosts: Vec<&str> = results.iter().map(|r| r.host_address.as_str()).collect();
    assert_eq!(hosts, vec!["a", "b", "c"]);
    assert!(matches!(results[0].outcome, Outcome::Success(_)));
    assert!(matches!(results[1].outcome, Outcome::Failed(_)));
    assert!(matches!(results[2].outcome, Outcome::RecoveredAndRetried(_)));
}

#[test]
fn copy_plan_rejects_missing_file() {
    let plan = plan_copy(strings(&["a.txt", "missing.txt"]), vec![Some(5), None]).ok().unwrap();
    assert_eq!(plan.targets.len(), 1);
    assert_eq!(plan.targets[0].local_path, "a.txt");
    assert_eq!(plan.targets[0].remote_name, "a.txt");
    assert_eq!(plan.targets[0].size, 5);
    assert_eq!(plan.rejected, strings(&["missing.txt"]));
}

#[test]
fn copy_plan_strips_directories() {
    let plan = plan_copy(strings(&["/var/log/app/x.log", "dir/.."]), vec![Some(1), Some(2)])
        .ok()
        .unwrap();
    assert_eq!(plan.targets.len(), 1);
    assert_eq!(plan.targets[0].remote_name, "x.log");
    assert_eq!(plan.targets[0].local_path, "/var/log/app/x.log");
    assert_eq!(plan.rejected, strings(&["dir/.."]));
}

#[test]
fn copy_plan_with_no_file_copies_nothing() {
    match plan_copy(strings(&["nope.txt", "gone.txt"]), vec![None, None]) {
        Err(CopyError::NoFilesToCopy(all)) => assert_eq!(all, strings(&["nope.txt", "gone.txt"])),
        Ok(_) => panic!("nothing should be copied"),
    }
    assert!(plan_copy(Vec::new(), Vec::new()).is_err());
}

#[test]
fn copy_verdicts() {
    let s = session("h", 1);
    let r = s.copy_file(10, Ok(10));
    assert_eq!(r.host_address, "h");
    assert!(matches!(r.outcome, Outcome::Transferred(10)));
    let r = s.copy_file(10, Ok(4));
    assert!(matches!(
        r.outcome,
        Outcome::Failed(DispatchError::PartialTransfer { expected: 10, written: 4 })
    ));
    match s.copy_file(10, Err("permission denied".to_string())).outcome {
        Outcome::Failed(DispatchError::RemoteWrite(d)) => assert_eq!(d, "permission denied"),
        _ => panic!("expected a write error"),
    }
}

#[test]
fn shutdown_releases_every_handle_once() {
    let registry = Registry { sessions: vec![session("a", 1), session("b", 2), session("c", 3)] };
    let released = registry.shutdown();
    assert_eq!(
        released,
        vec![("a".to_string(), 1), ("b".to_string(), 2), ("c".to_string(), 3)]
    );
}

#[test]
fn close_hands_back_connection() {
    assert_eq!(session("a", 42).close(), 42);
}

#[test]
fn parse_lines() {
    assert!(matches!(parse_line(""), LineAction::Skip));
    match parse_line("uptime -p") {
        LineAction::Run(c) => assert_eq!(c, "uptime -p"),
        _ => panic!("expected a command"),
    }
    match parse_line(".copy a.txt 'b c.txt'") {
        LineAction::Copy(files) => assert_eq!(files, strings(&["a.txt", "b c.txt"])),
        _ => panic!("expected a copy"),
    }
    match parse_line(".cp x") {
        LineAction::Copy(files) => assert_eq!(files, strings(&["x"])),
        _ => panic!("expected a copy"),
    }
    match parse_line("echo \"open") {
        LineAction::Run(c) => assert_eq!(c, "echo \"open"),
        _ => panic!("expected a command"),
    }
    match parse_line("  .copy") {
        LineAction::Copy(files) => assert!(files.is_empty()),
        _ => panic!("expected a copy"),
    }
}

#[test]
fn action_of_given_words() {
    match action_of_words(".copy a".to_string(), Some(strings(&[".copy", "a", "b"]))) {
        LineAction::Copy(files) => assert_eq!(files, strings(&["a", "b"])),
        _ => panic!("expected a copy"),
    }
    match action_of_words("ls".to_string(), Some(strings(&["ls"]))) {
        LineAction::Run(c) => assert_eq!(c, "ls"),
        _ => panic!("expected a command"),
    }
    match action_of_words(".copy 'x".to_string(), None) {
        LineAction::Run(c) => assert_eq!(c, ".copy 'x"),
        _ => panic!("expected a command"),
    }
    assert!(matches!(action_of_words(String::new(), None), LineAction::Skip));
}

#[test]
fn end_to_end_three_hosts() {
    let nodes = vec![node("A", "c"), node("B", "c"), node("C", "c")];
    let kept = filter_nodes(&nodes, &Some("c".to_string()));
    let mut attempts: Vec<Result<NodeSession<u32>, String>> = Vec::new();
    for (i, n) in kept.into_iter().enumerate() {
        let connection = if n.public_address == "C" { Err("unreachable".to_string()) } else { Ok(i as u32) };
        attempts.push(n.get_node_session(connection));
    }
    let (registry, failures) = build_registry(attempts);
    assert_eq!(failures, strings(&["unreachable"]));
    let registry = registry.ok().unwrap();
    assert_eq!(addresses(&registry.sessions), strings(&["A", "B"]));

    let action = parse_line("uptime");
    assert!(matches!(action, LineAction::Run(ref c) if c == "uptime"));
    let outcomes = vec![Outcome::Success(output("up 1")), Outcome::Success(output("up 2"))];
    let results = registry.collect_results(outcomes);
    let hosts: Vec<&str> = results.iter().map(|r| r.host_address.as_str()).collect();
    assert_eq!(hosts, vec!["A", "B"]);

    match plan_copy(strings(&["no-such-file.txt"]), vec![None]) {
        Err(CopyError::NoFilesToCopy(all)) => assert_eq!(all.len(), 1),
        Ok(_) => panic!("nothing should be copied"),
    }
}
