//! The two kinds of judge: a checker, which reads three files, and an
//! interactor, which also talks to the candidate program.

use vstd::prelude::*;
use crate::contract::JudgeReader;
use crate::tokenized::TokenizedRead;

verus! {

/// The core object of a checker: the readers of the input, of the standard
/// answer and of the user's answer.
pub struct Checker<T: TokenizedRead> {
    input: JudgeReader<T>,
    std_answer: JudgeReader<T>,
    user_answer: JudgeReader<T>,
}

impl<T: TokenizedRead> Checker<T> {
    /// The reader of the input file.
    pub closed spec fn input_reader(&self) -> JudgeReader<T> {
        self.input
    }

    /// The reader of the standard answer file.
    pub closed spec fn std_answer_reader(&self) -> JudgeReader<T> {
        self.std_answer
    }

    /// The reader of the user's output file.
    pub closed spec fn user_answer_reader(&self) -> JudgeReader<T> {
        self.user_answer
    }

    /// A checker over the three readers.
    pub fn new(input: JudgeReader<T>, std_answer: JudgeReader<T>, user_answer: JudgeReader<T>) -> (c:
        Checker<T>)
        ensures
            c.input_reader() == input,
            c.std_answer_reader() == std_answer,
            c.user_answer_reader() == user_answer,
    {
        Checker { input, std_answer, user_answer }
    }

    /// The reader of the input file.
    pub fn input(&mut self) -> (reader: &mut JudgeReader<T>)
        ensures
            *reader == old(self).input_reader(),
            final(self).input_reader() == *final(reader),
            final(self).std_answer_reader() == old(self).std_answer_reader(),
            final(self).user_answer_reader() == old(self).user_answer_reader(),
    {
        &mut self.input
    }

    /// The reader of the standard answer file.
    pub fn std_answer(&mut self) -> (reader: &mut JudgeReader<T>)
        ensures
            *reader == old(self).std_answer_reader(),
            final(self).std_answer_reader() == *final(reader),
            final(self).input_reader() == old(self).input_reader(),
            final(self).user_answer_reader() == old(self).user_answer_reader(),
    {
        &mut self.std_answer
    }

    /// The reader of the user's output file.
    pub fn user_answer(&mut self) -> (reader: &mut JudgeReader<T>)
        ensures
            *reader == old(self).user_answer_reader(),
            final(self).user_answer_reader() == *final(reader),
            final(self).input_reader() == old(self).input_reader(),
            final(self).std_answer_reader() == old(self).std_answer_reader(),
    {
        &mut self.user_answer
    }

    /// Takes the checker apart: the readers of the input, of the standard
    /// answer and of the user's answer.
    pub fn into_readers(self) -> (readers: (JudgeReader<T>, JudgeReader<T>, JudgeReader<T>))
        ensures
            readers.0 == self.input_reader(),
            readers.1 == self.std_answer_reader(),
            readers.2 == self.user_answer_reader(),
    {
        (self.input, self.std_answer, self.user_answer)
    }
}

/// The core object of an interactor: the readers of the input, of the answer
/// and of what the user's program writes, and the end of the pipe that the
/// user's program reads from.
pub struct Interactor<T: TokenizedRead, W> {
    input: JudgeReader<T>,
    answer: JudgeReader<T>,
    read_end: JudgeReader<T>,
    write_end: W,
}

impl<T: TokenizedRead, W> Interactor<T, W> {
    /// The reader of the input file.
    pub closed spec fn input_reader(&self) -> JudgeReader<T> {
        self.input
    }

    /// The reader of the answer file.
    pub closed spec fn answer_reader(&self) -> JudgeReader<T> {
        self.answer
    }

    /// The reader of what the user's program writes.
    pub closed spec fn read_end_reader(&self) -> JudgeReader<T> {
        self.read_end
    }

    /// The end of the pipe that the user's program reads from.
    pub closed spec fn writer(&self) -> W {
        self.write_end
    }

    /// An interactor over the three readers and the pipe's write end.
    pub fn new(
        input: JudgeReader<T>,
        answer: JudgeReader<T>,
        read_end: JudgeReader<T>,
        write_end: W,
    ) -> (i: Interactor<T, W>)
        ensures
            i.input_reader() == input,
            i.answer_reader() == answer,
            i.read_end_reader() == read_end,
            i.writer() == write_end,
    {
        Interactor { input, answer, read_end, write_end }
    }

    /// The reader of the input file.
    pub fn input(&mut self) -> (reader: &mut JudgeReader<T>)
        ensures
            *reader == old(self).input_reader(),
            final(self).input_reader() == *final(reader),
            final(self).answer_reader() == old(self).answer_reader(),
            final(self).read_end_reader() == old(self).read_end_reader(),
            final(self).writer() == old(self).writer(),
    {
        &mut self.input
    }

    /// The reader of the answer file.
    pub fn answer(&mut self) -> (reader: &mut JudgeReader<T>)
        ensures
            *reader == old(self).answer_reader(),
            final(self).answer_reader() == *final(reader),
            final(self).input_reader() == old(self).input_reader(),
            final(self).read_end_reader() == old(self).read_end_reader(),
            final(self).writer() == old(self).writer(),
    {
        &mut self.answer
    }

    /// The reader of the read end of the pipe that connects the interactor
    /// and the user's program.
    pub fn read_end(&mut self) -> (reader: &mut JudgeReader<T>)
        ensures
            *reader == old(self).read_end_reader(),
            final(self).read_end_reader() == *final(reader),
            final(self).input_reader() == old(self).input_reader(),
            final(self).answer_reader() == old(self).answer_reader(),
            final(self).writer() == old(self).writer(),
    {
        &mut self.read_end
    }

    /// The write end of the pipe that connects the interactor and the user's
    /// program.
    pub fn write_end(&mut self) -> (writer: &mut W)
        ensures
            *writer == old(self).writer(),
            final(self).writer() == *final(writer),
            final(self).input_reader() == old(self).input_reader(),
            final(self).answer_reader() == old(self).answer_reader(),
            final(self).read_end_reader() == old(self).read_end_reader(),
    {
        &mut self.write_end
    }

    /// Takes the interactor apart: the readers of the input, of the answer
    /// and of the pipe's read end, and the pipe's write end.
    pub fn into_parts(self) -> (parts: (JudgeReader<T>, JudgeReader<T>, JudgeReader<T>, W))
        ensures
            parts.0 == self.input_reader(),
            parts.1 == self.answer_reader(),
            parts.2 == self.read_end_reader(),
            parts.3 == self.writer(),
    {
        (self.input, self.answer, self.read_end, self.write_end)
    }
}

} // verus!
