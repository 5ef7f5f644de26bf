use rambo::codec::{Message, ProtocolError};
use rambo::session::{LaunchError, SessionBuilder};

fn text(s: &str) -> String {
    s.to_string()
}

#[test]
fn last_command_wins() {
    let mut b = SessionBuilder::new();
    assert!(matches!(b.add(Message::Command(text("first"))), Ok(false)));
    assert!(matches!(b.add(Message::Command(text("second"))), Ok(false)));
    assert!(matches!(b.add(Message::Eot), Ok(true)));
    let spec = b.finalize().ok().expect("a program was named");
    assert_eq!(spec.program, "second");
}

#[test]
fn args_keep_their_order() {
    let mut b = SessionBuilder::new();
    b.add(Message::Arg(text("a"))).unwrap();
    b.add(Message::Command(text("ls"))).unwrap();
    b.add(Message::Arg(text("b"))).unwrap();
    b.add(Message::Arg(text("a"))).unwrap();
    let spec = b.finalize().ok().unwrap();
    assert_eq!(spec.args, vec![text("a"), text("b"), text("a")]);
}

#[test]
fn env_last_write_wins_and_keys_stay_unique() {
    let mut b = SessionBuilder::new();
    b.add(Message::Command(text("env"))).unwrap();
    b.add(Message::Env(text("A"), text("1"))).unwrap();
    b.add(Message::Env(text("B"), text("2"))).unwrap();
    b.add(Message::Env(text("A"), text("3"))).unwrap();
    let spec = b.finalize().ok().unwrap();
    assert_eq!(spec.env, vec![(text("A"), text("3")), (text("B"), text("2"))]);
}

#[test]
fn stdin_and_directory_are_overwritten() {
    let mut b = SessionBuilder::new();
    b.add(Message::Command(text("cat"))).unwrap();
    b.add(Message::Stdin(vec![1])).unwrap();
    b.add(Message::Stdin(vec![2, 3])).unwrap();
    b.add(Message::CurrentDir(text("/a"))).unwrap();
    b.add(Message::CurrentDir(text("/b"))).unwrap();
    let spec = b.finalize().ok().unwrap();
    assert_eq!(spec.stdin, Some(vec![2, 3]));
    assert_eq!(spec.current_dir, Some(text("/b")));
}

#[test]
fn nothing_optional_when_not_sent() {
    let mut b = SessionBuilder::new();
    b.add(Message::Command(text("true"))).unwrap();
    let spec = b.finalize().ok().unwrap();
    assert!(spec.args.is_empty());
    assert!(spec.env.is_empty());
    assert!(spec.stdin.is_none());
    assert!(spec.current_dir.is_none());
}

#[test]
fn eot_without_program_is_a_launch_error() {
    let mut b = SessionBuilder::new();
    b.add(Message::Arg(text("x"))).unwrap();
    assert!(matches!(b.add(Message::Eot), Ok(true)));
    match b.finalize() {
        Err(e) => {
            assert!(matches!(e, LaunchError::MissingProgram));
            assert_eq!(e.description(), "command required");
        }
        Ok(_) => panic!("no program was named"),
    }
}

#[test]
fn outbound_message_is_a_protocol_error() {
    let mut b = SessionBuilder::new();
    assert!(matches!(
        b.add(Message::Stdout(vec![1])),
        Err(ProtocolError::Unexpected(7))
    ));
    assert!(matches!(
        b.add(Message::ExitStatus(0)),
        Err(ProtocolError::Unexpected(9))
    ));
}

#[test]
fn launch_error_descriptions() {
    assert_eq!(LaunchError::Spawn(text("no such file")).description(), "no such file");
    assert_eq!(LaunchError::Pipe(text("no stdout")).description(), "no stdout");
}
