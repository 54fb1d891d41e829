use wave_test_lib::bridge::{
    try_copy_str, wave_accept, wave_accept_msg, wave_checker_create,
    wave_checker_get_input_handle, wave_checker_get_std_answer_handle,
    wave_checker_get_user_answer_handle, wave_checker_release, wave_expect_eof, wave_expect_i16,
    wave_expect_i32, wave_expect_i64, wave_expect_i8, wave_expect_signed, wave_expect_token,
    wave_expect_u16, wave_expect_u32, wave_expect_u64, wave_expect_u8, wave_expect_unsigned,
    wave_interactor_create, wave_interactor_get_answer_handle, wave_interactor_get_input_handle,
    wave_interactor_get_read_end_handle, wave_interactor_release, wave_read_line,
    wave_read_token, wave_reject, Bridge, Kind,
};
use wave_test_lib::contract::JudgeReader;
use wave_test_lib::judge::{Checker, Interactor};
use wave_test_lib::source::MemorySource;
use wave_test_lib::tokenized::TokenizedReader;
use wave_test_lib::verdict::{Failure, Fatal, Rejection};

type Reader = JudgeReader<TokenizedReader<MemorySource>>;

fn judge_over(text: &[u8]) -> Reader {
    JudgeReader::new(TokenizedReader::new(MemorySource::new(text.to_vec())))
}

fn checker_over(input: &[u8], std_answer: &[u8], user_answer: &[u8]) -> Checker<TokenizedReader<MemorySource>> {
    Checker::new(judge_over(input), judge_over(std_answer), judge_over(user_answer))
}

fn bridge_with_input(input: &[u8]) -> (Bridge<TokenizedReader<MemorySource>>, usize) {
    let mut bridge = Bridge::new();
    let checker = wave_checker_create(&mut bridge, checker_over(input, b"", b""));
    let handle = wave_checker_get_input_handle(&bridge, checker).unwrap();
    (bridge, handle)
}

#[test]
fn copy_into_a_buffer_that_fits() {
    let mut buffer = [0xaau8; 8];
    assert_eq!(try_copy_str("hello", &mut buffer), 6);
    assert_eq!(&buffer, b"hello\0\xaa\xaa");
    let mut exact = [0xaau8; 6];
    assert_eq!(try_copy_str("hello", &mut exact), 6);
    assert_eq!(&exact, b"hello\0");
    let mut one = [0xaau8; 1];
    assert_eq!(try_copy_str("", &mut one), 1);
    assert_eq!(&one, b"\0");
}

#[test]
fn copy_into_a_buffer_too_small() {
    let mut buffer = [0xaau8; 5];
    assert_eq!(try_copy_str("hello", &mut buffer), 6);
    assert_eq!(buffer, [0xaau8; 5]);
    let mut none: [u8; 0] = [];
    assert_eq!(try_copy_str("", &mut none), 1);
    assert_eq!(try_copy_str("\u{e9}", &mut none), 3);
}

#[test]
fn undersized_buffer_then_retry() {
    let (mut bridge, handle) = bridge_with_input(b"hello world\n");
    let mut small = [0xaau8; 3];
    assert_eq!(wave_read_token(&mut bridge, handle, &mut small), Ok(6));
    assert_eq!(small, [0xaau8; 3]);
    assert_eq!(bridge.has_pending(handle), Ok(true));
    assert_eq!(wave_read_token(&mut bridge, handle, &mut small), Ok(6));
    assert_eq!(small, [0xaau8; 3]);
    let mut large = [0xaau8; 16];
    assert_eq!(wave_read_token(&mut bridge, handle, &mut large), Ok(6));
    assert_eq!(&large[..7], b"hello\0\xaa");
    assert_eq!(bridge.has_pending(handle), Ok(false));
    assert_eq!(wave_read_token(&mut bridge, handle, &mut large), Ok(6));
    assert_eq!(&large[..6], b"world\0");
    assert_eq!(wave_read_token(&mut bridge, handle, &mut large), Ok(0));
    assert_eq!(&large[..6], b"world\0");
}

#[test]
fn adequate_buffer_delivers_at_once() {
    let (mut bridge, handle) = bridge_with_input(b"hello world\n");
    let mut buffer = [0u8; 6];
    assert_eq!(wave_read_token(&mut bridge, handle, &mut buffer), Ok(6));
    assert_eq!(&buffer, b"hello\0");
    assert_eq!(wave_read_token(&mut bridge, handle, &mut buffer), Ok(6));
    assert_eq!(&buffer, b"world\0");
    assert_eq!(wave_read_token(&mut bridge, handle, &mut buffer), Ok(0));
}

#[test]
fn lines_in_two_phases() {
    let (mut bridge, handle) = bridge_with_input(b"The quick brown fox\nThe lazy dog\n");
    let mut none: [u8; 0] = [];
    assert_eq!(wave_read_line(&mut bridge, handle, &mut none), Ok(20));
    let mut buffer = [0u8; 32];
    assert_eq!(wave_read_line(&mut bridge, handle, &mut buffer), Ok(20));
    assert_eq!(&buffer[..20], b"The quick brown fox\0");
    assert_eq!(wave_read_token(&mut bridge, handle, &mut buffer), Ok(4));
    assert_eq!(&buffer[..4], b"The\0");
    assert_eq!(wave_read_line(&mut bridge, handle, &mut buffer), Ok(9));
    assert_eq!(&buffer[..9], b"lazy dog\0");
    assert_eq!(wave_read_line(&mut bridge, handle, &mut buffer), Ok(0));
}

#[test]
fn pending_values_are_kept_by_handle() {
    let mut bridge = Bridge::new();
    let checker = wave_checker_create(&mut bridge, checker_over(b"alpha", b"beta", b"gamma"));
    let input = wave_checker_get_input_handle(&bridge, checker).unwrap();
    let answer = wave_checker_get_std_answer_handle(&bridge, checker).unwrap();
    let mut small = [0u8; 2];
    let mut large = [0u8; 16];
    assert_eq!(wave_read_token(&mut bridge, input, &mut small), Ok(6));
    assert_eq!(wave_read_token(&mut bridge, answer, &mut large), Ok(5));
    assert_eq!(&large[..5], b"beta\0");
    assert_eq!(wave_read_token(&mut bridge, input, &mut large), Ok(6));
    assert_eq!(&large[..6], b"alpha\0");
}

#[test]
fn invalid_utf8_in_a_two_phase_read() {
    let (mut bridge, handle) = bridge_with_input(&[0xff, b' ', b'o', b'k']);
    let mut buffer = [0u8; 8];
    assert_eq!(wave_read_token(&mut bridge, handle, &mut buffer), Err(Fatal::InvalidUtf8));
    assert_eq!(buffer, [0u8; 8]);
    assert_eq!(wave_read_token(&mut bridge, handle, &mut buffer), Ok(3));
    assert_eq!(&buffer[..3], b"ok\0");
}

#[test]
fn handles_of_a_checker() {
    let mut bridge: Bridge<TokenizedReader<MemorySource>> = Bridge::new();
    assert_eq!(bridge.handle_count(), 0);
    let first = wave_checker_create(&mut bridge, checker_over(b"1", b"2", b"3"));
    let second = wave_checker_create(&mut bridge, checker_over(b"4", b"5", b"6"));
    assert_eq!(first, 0);
    assert_eq!(second, 3);
    assert_eq!(bridge.handle_count(), 6);
    assert!(bridge.is_owner(first, Kind::Checker));
    assert!(bridge.is_owner(second, Kind::Checker));
    assert!(!bridge.is_owner(first, Kind::Interactor));
    assert!(!bridge.is_owner(1, Kind::Checker));
    assert!(!bridge.is_owner(4, Kind::Checker));
    assert!(!bridge.is_owner(6, Kind::Checker));
    assert!(!bridge.is_owner(usize::MAX, Kind::Checker));
    assert_eq!(wave_checker_get_input_handle(&bridge, second), Ok(3));
    assert_eq!(wave_checker_get_std_answer_handle(&bridge, second), Ok(4));
    assert_eq!(wave_checker_get_user_answer_handle(&bridge, second), Ok(5));
    assert_eq!(wave_checker_get_input_handle(&bridge, 1), Err(Fatal::UnknownHandle));
    assert_eq!(wave_expect_u8(&mut bridge, 0), Ok(1));
    assert_eq!(wave_expect_u8(&mut bridge, 1), Ok(2));
    assert_eq!(wave_expect_u8(&mut bridge, 2), Ok(3));
    assert_eq!(wave_expect_u8(&mut bridge, 3), Ok(4));
    assert_eq!(wave_expect_u8(&mut bridge, 4), Ok(5));
    assert_eq!(wave_expect_u8(&mut bridge, 5), Ok(6));
}

#[test]
fn release_leaves_other_handles_alone() {
    let mut bridge = Bridge::new();
    let first = wave_checker_create(&mut bridge, checker_over(b"a b", b"c d", b"e f"));
    let second = wave_checker_create(&mut bridge, checker_over(b"one two", b"three", b"four"));
    let kept = wave_checker_get_input_handle(&bridge, second).unwrap();
    let mut small = [0u8; 1];
    assert_eq!(wave_read_token(&mut bridge, kept, &mut small), Ok(4));
    assert_eq!(wave_checker_release(&mut bridge, first), Ok(()));
    assert!(!bridge.is_live(first));
    assert!(!bridge.is_live(first + 1));
    assert!(!bridge.is_live(first + 2));
    assert!(bridge.is_owner(second, Kind::Checker));
    assert_eq!(bridge.has_pending(kept), Ok(true));
    let mut buffer = [0u8; 8];
    assert_eq!(wave_read_token(&mut bridge, first, &mut buffer), Err(Fatal::UnknownHandle));
    assert_eq!(wave_read_line(&mut bridge, first + 1, &mut buffer), Err(Fatal::UnknownHandle));
    assert_eq!(wave_expect_eof(&mut bridge, first), Err(Failure::Fatal(Fatal::UnknownHandle)));
    assert_eq!(wave_expect_i32(&mut bridge, first + 2), Err(Failure::Fatal(Fatal::UnknownHandle)));
    assert_eq!(buffer, [0u8; 8]);
    assert_eq!(wave_checker_release(&mut bridge, first), Err(Fatal::UnknownHandle));
    assert_eq!(wave_read_token(&mut bridge, kept, &mut buffer), Ok(4));
    assert_eq!(&buffer[..4], b"one\0");
    assert_eq!(wave_read_token(&mut bridge, kept, &mut buffer), Ok(4));
    assert_eq!(&buffer[..4], b"two\0");
    assert_eq!(wave_expect_token(&mut bridge, kept + 1, "THREE", 1), Ok(()));
    assert_eq!(bridge.handle_count(), 6);
    let third = wave_checker_create(&mut bridge, checker_over(b"", b"", b""));
    assert_eq!(third, 6);
}

#[test]
fn release_is_by_kind_and_by_owner() {
    let mut bridge = Bridge::new();
    let checker = wave_checker_create(&mut bridge, checker_over(b"", b"", b""));
    let (interactor, write_end) = wave_interactor_create(
        &mut bridge,
        Interactor::new(judge_over(b"in"), judge_over(b"ans"), judge_over(b"out"), 17u8),
    );
    assert_eq!(write_end, 17);
    assert_eq!(interactor, 3);
    assert_eq!(wave_interactor_release(&mut bridge, checker), Err(Fatal::UnknownHandle));
    assert_eq!(wave_checker_release(&mut bridge, interactor), Err(Fatal::UnknownHandle));
    assert_eq!(wave_checker_release(&mut bridge, checker + 1), Err(Fatal::UnknownHandle));
    assert_eq!(wave_checker_release(&mut bridge, 99), Err(Fatal::UnknownHandle));
    assert_eq!(wave_interactor_get_input_handle(&bridge, interactor), Ok(3));
    assert_eq!(wave_interactor_get_answer_handle(&bridge, interactor), Ok(4));
    assert_eq!(wave_interactor_get_read_end_handle(&bridge, interactor), Ok(5));
    assert_eq!(wave_interactor_get_read_end_handle(&bridge, checker), Err(Fatal::UnknownHandle));
    assert_eq!(wave_expect_token(&mut bridge, 5, "out", 0), Ok(()));
    assert_eq!(wave_interactor_release(&mut bridge, interactor), Ok(()));
    assert_eq!(wave_interactor_get_input_handle(&bridge, interactor), Err(Fatal::UnknownHandle));
    assert_eq!(wave_checker_release(&mut bridge, checker), Ok(()));
}

#[test]
fn typed_expectations_at_every_width() {
    let (mut bridge, h) = bridge_with_input(
        b"-128 255 -32768 65535 -2147483648 4294967295 -9223372036854775808 18446744073709551615 256",
    );
    assert_eq!(wave_expect_i8(&mut bridge, h), Ok(i8::MIN));
    assert_eq!(wave_expect_u8(&mut bridge, h), Ok(u8::MAX));
    assert_eq!(wave_expect_i16(&mut bridge, h), Ok(i16::MIN));
    assert_eq!(wave_expect_u16(&mut bridge, h), Ok(u16::MAX));
    assert_eq!(wave_expect_i32(&mut bridge, h), Ok(i32::MIN));
    assert_eq!(wave_expect_u32(&mut bridge, h), Ok(u32::MAX));
    assert_eq!(wave_expect_i64(&mut bridge, h), Ok(i64::MIN));
    assert_eq!(wave_expect_u64(&mut bridge, h), Ok(u64::MAX));
    assert_eq!(
        wave_expect_u8(&mut bridge, h),
        Err(Failure::Rejected(Rejection::UnexpectedToken { token: String::from("256") }))
    );
    assert_eq!(wave_expect_u8(&mut bridge, h), Err(Failure::Rejected(Rejection::UnexpectedEof)));
}

#[test]
fn expectations_through_the_bridge() {
    let (mut bridge, h) = bridge_with_input(b"Yes yes -5 5 6 end");
    assert_eq!(wave_expect_token(&mut bridge, h, "yes", 1), Ok(()));
    assert_eq!(
        wave_expect_token(&mut bridge, h, "Yes", 0),
        Err(Failure::Rejected(Rejection::TokenMismatch {
            expected: String::from("Yes"),
            found: String::from("yes")
        }))
    );
    assert_eq!(wave_expect_signed(&mut bridge, h, -5), Ok(-5));
    assert_eq!(wave_expect_unsigned(&mut bridge, h, 5), Ok(5));
    assert_eq!(
        wave_expect_unsigned(&mut bridge, h, 5),
        Err(Failure::Rejected(Rejection::UnexpectedValue {
            value: String::from("6"),
            detail: String::from("\"expected value: \\\"5\\\"\"")
        }))
    );
    assert_eq!(
        wave_expect_eof(&mut bridge, h),
        Err(Failure::Rejected(Rejection::TrailingToken { token: String::from("end") }))
    );
    assert_eq!(wave_expect_eof(&mut bridge, h), Ok(()));
    assert_eq!(bridge.read_token(h), Ok(None));
    assert_eq!(bridge.read_token(h + 7), Err(Fatal::UnknownHandle));
    assert_eq!(bridge.expect_type::<u8>(h), Err(Failure::Rejected(Rejection::UnexpectedEof)));
    assert_eq!(bridge.expect_eq::<u8>(h, &1), Err(Failure::Rejected(Rejection::UnexpectedEof)));
}

#[test]
fn expectations_read_past_a_pending_value() {
    let (mut bridge, h) = bridge_with_input(b"first 2");
    let mut small = [0u8; 1];
    assert_eq!(wave_read_token(&mut bridge, h, &mut small), Ok(6));
    assert_eq!(wave_expect_u8(&mut bridge, h), Ok(2));
    let mut buffer = [0u8; 8];
    assert_eq!(wave_read_token(&mut bridge, h, &mut buffer), Ok(6));
    assert_eq!(&buffer[..6], b"first\0");
}

#[test]
fn readers_filled_piece_by_piece() {
    let (mut bridge, h) = bridge_with_input(b"");
    assert_eq!(bridge.is_ready(h, false), Ok(false));
    assert_eq!(bridge.supply(h, b"12"), Ok(()));
    assert_eq!(bridge.is_ready(h, false), Ok(false));
    assert_eq!(bridge.supply(h, b"3 rest of"), Ok(()));
    assert_eq!(bridge.is_ready(h, false), Ok(true));
    assert_eq!(bridge.is_ready(h, true), Ok(false));
    assert_eq!(wave_expect_u8(&mut bridge, h), Ok(123));
    assert_eq!(bridge.supply(h, b" line\n"), Ok(()));
    assert_eq!(bridge.is_ready(h, true), Ok(true));
    let mut buffer = [0u8; 16];
    assert_eq!(wave_read_line(&mut bridge, h, &mut buffer), Ok(13));
    assert_eq!(&buffer[..13], b"rest of line\0");
    assert_eq!(bridge.supply(99, b"x"), Err(Fatal::UnknownHandle));
    assert_eq!(bridge.is_ready(99, false), Err(Fatal::UnknownHandle));
    assert_eq!(bridge.has_pending(99), Err(Fatal::UnknownHandle));
}

#[test]
fn verdicts_through_the_bridge() {
    assert_eq!(wave_accept().diagnostic(), "Accepted.");
    assert_eq!(wave_accept().exit_code(), 0);
    assert_eq!(wave_accept_msg("fine").diagnostic(), "Accepted: fine");
    assert_eq!(wave_reject("off by one").diagnostic(), "Rejected: off by one");
    assert_eq!(wave_reject("off by one").exit_code(), -1);
}
