use gd_process::controller::{Polled, ProcessController, StartError, WriteError};
use gd_process::text::Drained;

fn configured(cmd: &str, args: &[&str]) -> ProcessController<u32> {
    let mut c = ProcessController::new();
    c.configure(
        cmd.to_string(),
        args.iter().map(|a| a.to_string()).collect(),
        false,
    );
    c
}

#[test]
fn new_controller_is_idle_and_empty() {
    let c: ProcessController<u32> = ProcessController::new();
    assert!(!c.is_started());
    assert_eq!(c.command(), "");
    assert!(c.args().is_empty());
    assert!(!c.start_on_ready());
    assert!(c.current().is_none());
}

#[test]
fn echo_hello_emits_stdout_only() {
    let mut c = configured("echo", &["hello"]);
    assert_eq!(c.check_start(), Ok(()));
    assert_eq!(c.command(), "echo");
    assert_eq!(c.args(), &vec!["hello".to_string()]);
    assert_eq!(c.attach(Ok(1)), Ok(()));
    assert!(c.is_started());
    // Nothing arrived yet on the first tick.
    let first = c.poll(Vec::new(), Vec::new());
    assert_eq!(first, Polled { stdout: Drained::Nothing, stderr: Drained::Nothing });
    let second = c.poll(b"hello\n".to_vec(), Vec::new());
    assert_eq!(second.stdout, Drained::Text("hello\n".to_string()));
    assert_eq!(second.stderr, Drained::Nothing);
}

#[test]
fn uppercase_echo_round_trip() {
    let mut c = configured("upcase", &[]);
    assert_eq!(c.attach(Ok(2)), Ok(()));
    assert_eq!(c.write("abc\n"), Ok(b"abc\n".to_vec()));
    let polled = c.poll(b"ABC\n".to_vec(), Vec::new());
    assert_eq!(polled.stdout, Drained::Text("ABC\n".to_string()));
    assert_eq!(polled.stderr, Drained::Nothing);
}

#[test]
fn spawn_failure_is_reported_and_leaves_idle() {
    let mut c = configured("/no/such/program", &[]);
    assert_eq!(c.check_start(), Ok(()));
    let r = c.attach(Err("No such file or directory".to_string()));
    assert_eq!(
        r,
        Err(StartError::SpawnFailed("No such file or directory".to_string()))
    );
    assert!(!c.is_started());
    assert_eq!(c.write("x"), Err(WriteError::NotRunning));
}

#[test]
fn write_before_start_is_an_error_and_emits_nothing() {
    let c = configured("cat", &[]);
    assert_eq!(c.write("x"), Err(WriteError::NotRunning));
    let polled = c.poll(b"x".to_vec(), b"y".to_vec());
    assert_eq!(polled, Polled { stdout: Drained::Nothing, stderr: Drained::Nothing });
}

#[test]
fn second_start_is_refused_and_keeps_the_first_process() {
    let mut c = configured("cat", &[]);
    assert_eq!(c.attach(Ok(10)), Ok(()));
    assert_eq!(c.check_start(), Err(StartError::AlreadyRunning));
    assert_eq!(c.attach(Ok(11)), Err(StartError::AlreadyRunning));
    assert_eq!(c.current(), Some(&10));
}

#[test]
fn stop_hands_back_the_handle_and_goes_idle() {
    let mut c = configured("cat", &[]);
    assert_eq!(c.stop(), None);
    assert_eq!(c.attach(Ok(5)), Ok(()));
    assert_eq!(c.stop(), Some(5));
    assert!(!c.is_started());
    assert_eq!(c.stop(), None);
    // After stopping, a new start is allowed again.
    assert_eq!(c.check_start(), Ok(()));
    assert_eq!(c.attach(Ok(6)), Ok(()));
    assert_eq!(c.current(), Some(&6));
}

#[test]
fn stderr_is_reported_separately() {
    let mut c = configured("sh", &["-c", "echo oops >&2"]);
    assert_eq!(c.attach(Ok(3)), Ok(()));
    let polled = c.poll(Vec::new(), b"oops\n".to_vec());
    assert_eq!(polled.stdout, Drained::Nothing);
    assert_eq!(polled.stderr, Drained::Text("oops\n".to_string()));
}

#[test]
fn malformed_output_is_dropped_with_its_length() {
    let mut c = configured("cat", &[]);
    assert_eq!(c.attach(Ok(4)), Ok(()));
    // The first two bytes of a three-byte character: split across a poll.
    let polled = c.poll(vec![b'a', 0xE2, 0x82], b"ok".to_vec());
    assert_eq!(polled.stdout, Drained::Malformed(3));
    assert_eq!(polled.stderr, Drained::Text("ok".to_string()));
}

#[test]
fn starts_when_ready_only_outside_editor() {
    let mut c: ProcessController<u32> = ProcessController::new();
    assert!(!c.starts_when_ready(false));
    c.configure("cat".to_string(), Vec::new(), true);
    assert!(c.starts_when_ready(false));
    assert!(!c.starts_when_ready(true));
}

#[test]
fn configure_does_not_touch_running_process() {
    let mut c = configured("cat", &["a"]);
    assert_eq!(c.attach(Ok(9)), Ok(()));
    c.configure("tac".to_string(), vec!["b".to_string(), "c".to_string()], true);
    assert_eq!(c.current(), Some(&9));
    assert_eq!(c.command(), "tac");
    assert_eq!(c.args(), &vec!["b".to_string(), "c".to_string()]);
    assert!(c.start_on_ready());
}

#[test]
fn write_encodes_multibyte_text() {
    let mut c = configured("cat", &[]);
    assert_eq!(c.attach(Ok(1)), Ok(()));
    assert_eq!(c.write("é€"), Ok(vec![0xC3, 0xA9, 0xE2, 0x82, 0xAC]));
    assert_eq!(c.write(""), Ok(Vec::new()));
}

#[test]
fn successive_writes_concatenate_in_order() {
    let mut c = configured("cat", &[]);
    assert_eq!(c.attach(Ok(1)), Ok(()));
    let mut sent = Vec::new();
    for t in ["ab", "ç", "", "d\n"] {
        sent.extend(c.write(t).unwrap());
    }
    assert_eq!(sent, "abçd\n".as_bytes().to_vec());
}
