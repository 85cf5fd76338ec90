//! Single delivery of the cached standard streams, on concrete values.

use clonablechild::stdio::ChildIo;

#[test]
fn each_stream_is_delivered_once() {
    let mut io: ChildIo<Vec<u8>, Vec<u8>, Vec<u8>> =
        ChildIo::new(None, Some(b"hello\n".to_vec()), Some(Vec::new()));

    let stdout = io.take_stdout().expect("Expected stdout");
    let stderr = io.take_stderr().expect("Expected stderr");
    assert_eq!(stdout, b"hello\n".to_vec());
    assert_eq!(stderr, Vec::<u8>::new());

    // Every later take, from whichever clone reaches the shared cache next,
    // observes the emptied slot.
    assert_eq!(io.take_stdout(), None);
    assert_eq!(io.take_stderr(), None);
}

#[test]
fn a_stream_never_attached_is_never_delivered() {
    let mut io: ChildIo<u8, u8, u8> = ChildIo::new(None, None, None);
    assert_eq!(io.take_stdin(), None);
    assert_eq!(io.take_stdout(), None);
    assert_eq!(io.take_stderr(), None);
}

#[test]
fn taking_one_slot_leaves_the_others() {
    let mut io: ChildIo<u8, u8, u8> = ChildIo::new(Some(1), Some(2), Some(3));
    assert_eq!(io.take_stdout(), Some(2));
    assert_eq!(io.take_stdin(), Some(1));
    assert_eq!(io.take_stderr(), Some(3));
}

#[test]
fn taking_stdin_twice_yields_nothing_the_second_time() {
    let mut io: ChildIo<String, String, String> =
        ChildIo::new(Some(String::from("in")), None, None);
    assert_eq!(io.take_stdin(), Some(String::from("in")));
    assert_eq!(io.take_stdin(), None);
}
