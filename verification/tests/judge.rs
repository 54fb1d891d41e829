use wave_test_lib::contract::JudgeReader;
use wave_test_lib::judge::{Checker, Interactor};
use wave_test_lib::source::MemorySource;
use wave_test_lib::tokenized::TokenizedReader;

fn judge_over(text: &[u8]) -> JudgeReader<TokenizedReader<MemorySource>> {
    JudgeReader::new(TokenizedReader::new(MemorySource::new(text.to_vec())))
}

#[test]
fn readers_of_a_checker() {
    let mut checker = Checker::new(judge_over(b"in 1"), judge_over(b"std 2"), judge_over(b"user 3"));
    assert_eq!(checker.input().expect_token("in", false), Ok(String::from("in")));
    assert_eq!(checker.std_answer().expect_token("std", false), Ok(String::from("std")));
    assert_eq!(checker.user_answer().expect_token("user", false), Ok(String::from("user")));
    assert_eq!(checker.user_answer().expect_type::<u8>(), Ok(3));
    assert_eq!(checker.input().expect_type::<u8>(), Ok(1));
    let (_, mut std_answer, _) = checker.into_readers();
    assert_eq!(std_answer.expect_type::<u8>(), Ok(2));
}

#[test]
fn parts_of_an_interactor() {
    let mut interactor = Interactor::new(
        judge_over(b"in"),
        judge_over(b"answer"),
        judge_over(b"reply 1"),
        Vec::<u8>::new(),
    );
    interactor.write_end().extend_from_slice(b"query\n");
    assert_eq!(interactor.read_end().expect_token("reply", false), Ok(String::from("reply")));
    assert_eq!(interactor.input().expect_token("IN", true), Ok(String::from("in")));
    assert_eq!(interactor.answer().read_token(), Ok(Some(String::from("answer"))));
    interactor.write_end().extend_from_slice(b"next\n");
    let (_, _, mut read_end, write_end) = interactor.into_parts();
    assert_eq!(read_end.expect_eq::<u8>(&1), Ok(1));
    assert_eq!(write_end, b"query\nnext\n".to_vec());
}
