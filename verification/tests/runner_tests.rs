use yacs::runner::{CommandEvent, CommandRunner};

fn completed(success: bool, stdout: &[u8]) -> CommandEvent {
    CommandEvent::Completed {
        success,
        stdout: stdout.to_vec(),
        stderr: Vec::new(),
    }
}

#[test]
fn commands_run_in_order_and_all_complete() {
    let commands = vec!["echo hi".to_string(), "ls -l".to_string()];
    let mut r = CommandRunner::new(commands, "work/dir".to_string());

    let first = r.next_action().unwrap();
    assert_eq!(first.program, "echo");
    assert_eq!(first.args, vec!["hi".to_string()]);
    r.record(completed(true, b"hi\n"));

    let second = r.next_action().unwrap();
    assert_eq!(second.program, "ls");
    assert_eq!(second.args, vec!["-l".to_string()]);
    r.record(completed(true, b""));

    assert!(r.done());
    assert!(r.next_action().is_none());
    assert_eq!(r.results.len(), 2);
    assert!(r.results[0].launched && r.results[0].success);
    assert_eq!(r.results[0].stdout, b"hi\n".to_vec());
}

#[test]
fn launch_failure_skips_the_rest_of_the_sequence() {
    let commands = vec!["missing_prog".to_string(), "echo never".to_string()];
    let mut r = CommandRunner::new(commands, "work/dir".to_string());

    assert!(r.next_action().is_some());
    r.record(CommandEvent::LaunchFailed);

    assert!(r.done());
    assert!(r.next_action().is_none());
    assert_eq!(r.results.len(), 1);
    assert!(!r.results[0].launched);
    assert!(!r.results[0].success);
}

#[test]
fn unsuccessful_exit_does_not_halt_the_sequence() {
    let commands = vec!["false".to_string(), "echo still runs".to_string()];
    let mut r = CommandRunner::new(commands, "work/dir".to_string());

    r.record(completed(false, b""));
    assert!(!r.done());

    let next = r.next_action().unwrap();
    assert_eq!(next.program, "echo");
    r.record(completed(true, b"still runs\n"));

    assert!(r.done());
    assert_eq!(r.results.len(), 2);
    assert!(!r.results[0].success);
    assert!(r.results[1].success);
}

#[test]
fn empty_command_list_is_done_at_once() {
    let r = CommandRunner::new(Vec::new(), "work/dir".to_string());
    assert!(r.done());
    assert!(r.next_action().is_none());
    assert!(r.results.is_empty());
}
