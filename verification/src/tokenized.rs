//! Tokens and lines out of a byte source.

use vstd::prelude::*;
use vstd::utf8::*;
use crate::source::{ByteSource, MemorySource};
use crate::verdict::Fatal;

verus! {

pub const SPACE: u8 = 32;

pub const TAB: u8 = 9;

pub const CARRIAGE_RETURN: u8 = 13;

pub const LINE_FEED: u8 = 10;

/// The bytes that separate tokens: space, tab, carriage return, line feed.
pub open spec fn whitespace() -> Seq<u8> {
    seq![SPACE, TAB, CARRIAGE_RETURN, LINE_FEED]
}

/// The bytes that separate lines: carriage return and line feed.
pub open spec fn line_breaks() -> Seq<u8> {
    seq![CARRIAGE_RETURN, LINE_FEED]
}

/// The length of the longest prefix of `s` made of delimiters only.
pub open spec fn leading_delimiters(s: Seq<u8>, delimiters: Seq<u8>) -> nat
    decreases s.len(),
{
    if s.len() > 0 && delimiters.contains(s[0]) {
        1 + leading_delimiters(s.skip(1), delimiters)
    } else {
        0
    }
}

/// The length of the longest prefix of `s` that holds no delimiter.
pub open spec fn leading_content(s: Seq<u8>, delimiters: Seq<u8>) -> nat
    decreases s.len(),
{
    if s.len() > 0 && !delimiters.contains(s[0]) {
        1 + leading_content(s.skip(1), delimiters)
    } else {
        0
    }
}

/// Whether anything but delimiters is left in `s`.
pub open spec fn has_content(s: Seq<u8>, delimiters: Seq<u8>) -> bool {
    leading_delimiters(s, delimiters) < s.len()
}

/// Where the next piece of content starts in `s`: behind the leading delimiters.
pub open spec fn content_start(s: Seq<u8>, delimiters: Seq<u8>) -> int {
    leading_delimiters(s, delimiters) as int
}

/// Where the next piece of content ends in `s`: at the first delimiter behind
/// its start, or at the end of `s`.
pub open spec fn content_end(s: Seq<u8>, delimiters: Seq<u8>) -> int {
    content_start(s, delimiters) + leading_content(
        s.skip(content_start(s, delimiters)),
        delimiters,
    )
}

/// The next piece of content in `s`; empty where `s` holds delimiters only.
pub open spec fn content(s: Seq<u8>, delimiters: Seq<u8>) -> Seq<u8> {
    s.subrange(content_start(s, delimiters), content_end(s, delimiters))
}

/// What is left of `s` once the next piece of content was read: the delimiter
/// that ended the content is consumed with it.
pub open spec fn rest_after(s: Seq<u8>, delimiters: Seq<u8>) -> Seq<u8> {
    if content_end(s, delimiters) < s.len() {
        s.skip(content_end(s, delimiters) + 1)
    } else {
        Seq::empty()
    }
}

/// Whether the next piece of content of `s` is there with the delimiter that
/// ends it, so that bytes that follow `s` cannot change it.
pub open spec fn item_complete(s: Seq<u8>, delimiters: Seq<u8>) -> bool {
    content_end(s, delimiters) < s.len()
}

/// What reading the next piece of content of `s` as text gives: no more data,
/// the decoded text, or a failure where the bytes are not UTF-8.
pub open spec fn text_outcome(s: Seq<u8>, delimiters: Seq<u8>) -> Result<Option<Seq<char>>, Fatal> {
    if !has_content(s, delimiters) {
        Ok(None)
    } else if valid_utf8(content(s, delimiters)) {
        Ok(Some(decode_utf8(content(s, delimiters))))
    } else {
        Err(Fatal::InvalidUtf8)
    }
}

/// The outcome of a read with the text taken by its view.
pub open spec fn outcome_view(r: Result<Option<String>, Fatal>) -> Result<Option<Seq<char>>, Fatal> {
    match r {
        Ok(Some(text)) => Ok(Some(text@)),
        Ok(None) => Ok(None),
        Err(e) => Err(e),
    }
}

/// `leading_delimiters` is a position in `s`, only delimiters stand before
/// it, and no delimiter stands at it.
pub proof fn lemma_leading_delimiters(s: Seq<u8>, delimiters: Seq<u8>)
    ensures
        leading_delimiters(s, delimiters) <= s.len(),
        forall|i: int|
            0 <= i < leading_delimiters(s, delimiters) ==> delimiters.contains(#[trigger] s[i]),
        leading_delimiters(s, delimiters) < s.len() ==> !delimiters.contains(
            s[leading_delimiters(s, delimiters) as int],
        ),
    decreases s.len(),
{
    if s.len() > 0 && delimiters.contains(s[0]) {
        let t = s.skip(1);
        lemma_leading_delimiters(t, delimiters);
        assert forall|i: int| 0 <= i < leading_delimiters(s, delimiters) implies delimiters.contains(
            #[trigger] s[i],
        ) by {
            if i > 0 {
                assert(s[i] == t[i - 1]);
            }
        }
        if leading_delimiters(s, delimiters) < s.len() {
            assert(s[leading_delimiters(s, delimiters) as int] == t[leading_delimiters(
                t,
                delimiters,
            ) as int]);
        }
    }
}

/// `leading_content` is a position in `s`, no delimiter stands before it, and
/// a delimiter stands at it.
pub proof fn lemma_leading_content(s: Seq<u8>, delimiters: Seq<u8>)
    ensures
        leading_content(s, delimiters) <= s.len(),
        forall|i: int|
            0 <= i < leading_content(s, delimiters) ==> !delimiters.contains(#[trigger] s[i]),
        leading_content(s, delimiters) < s.len() ==> delimiters.contains(
            s[leading_content(s, delimiters) as int],
        ),
    decreases s.len(),
{
    if s.len() > 0 && !delimiters.contains(s[0]) {
        let t = s.skip(1);
        lemma_leading_content(t, delimiters);
        assert forall|i: int| 0 <= i < leading_content(s, delimiters) implies !delimiters.contains(
            #[trigger] s[i],
        ) by {
            if i > 0 {
                assert(s[i] == t[i - 1]);
            }
        }
    }
}

/// A token is a maximal run: it is not empty, it holds no delimiter, a
/// delimiter or the end of the input follows it, and only delimiters precede it.
pub proof fn lemma_content_is_maximal_run(s: Seq<u8>, delimiters: Seq<u8>)
    requires
        has_content(s, delimiters),
    ensures
        0 <= content_start(s, delimiters) < content_end(s, delimiters) <= s.len(),
        content(s, delimiters).len() > 0,
        forall|i: int|
            0 <= i < content(s, delimiters).len() ==> !delimiters.contains(
                #[trigger] content(s, delimiters)[i],
            ),
        forall|i: int| 0 <= i < content_start(s, delimiters) ==> delimiters.contains(#[trigger] s[i]),
        content_end(s, delimiters) < s.len() ==> delimiters.contains(
            s[content_end(s, delimiters)],
        ),
{
    let k = content_start(s, delimiters);
    let t = s.skip(k);
    lemma_leading_delimiters(s, delimiters);
    lemma_leading_content(t, delimiters);
    assert forall|i: int| 0 <= i < content(s, delimiters).len() implies !delimiters.contains(
        #[trigger] content(s, delimiters)[i],
    ) by {
        assert(content(s, delimiters)[i] == t[i]);
    }
}

/// Leading delimiters that are followed by another byte stay what they are
/// when more bytes follow.
proof fn lemma_leading_delimiters_extend(s: Seq<u8>, more: Seq<u8>, delimiters: Seq<u8>)
    requires
        leading_delimiters(s, delimiters) < s.len(),
    ensures
        leading_delimiters(s + more, delimiters) == leading_delimiters(s, delimiters),
    decreases s.len(),
{
    if delimiters.contains(s[0]) {
        assert((s + more).skip(1) =~= s.skip(1) + more);
        lemma_leading_delimiters_extend(s.skip(1), more, delimiters);
    }
}

/// Leading content that is followed by another byte stays what it is when
/// more bytes follow.
proof fn lemma_leading_content_extend(s: Seq<u8>, more: Seq<u8>, delimiters: Seq<u8>)
    requires
        leading_content(s, delimiters) < s.len(),
    ensures
        leading_content(s + more, delimiters) == leading_content(s, delimiters),
    decreases s.len(),
{
    if !delimiters.contains(s[0]) {
        assert((s + more).skip(1) =~= s.skip(1) + more);
        lemma_leading_content_extend(s.skip(1), more, delimiters);
    }
}

/// A read that finds its content and the delimiter behind it does not depend
/// on the bytes that follow: it gives the same content, and leaves those
/// bytes behind what it left before. So a source may be filled piece by piece.
pub proof fn lemma_complete_item_ignores_what_follows(
    s: Seq<u8>,
    more: Seq<u8>,
    delimiters: Seq<u8>,
)
    requires
        item_complete(s, delimiters),
    ensures
        has_content(s, delimiters),
        has_content(s + more, delimiters),
        item_complete(s + more, delimiters),
        content(s + more, delimiters) == content(s, delimiters),
        rest_after(s + more, delimiters) == rest_after(s, delimiters) + more,
        text_outcome(s + more, delimiters) == text_outcome(s, delimiters),
{
    let k = content_start(s, delimiters);
    lemma_leading_delimiters(s, delimiters);
    lemma_leading_content(s.skip(k), delimiters);
    lemma_leading_delimiters_extend(s, more, delimiters);
    assert((s + more).skip(k) =~= s.skip(k) + more);
    lemma_leading_content_extend(s.skip(k), more, delimiters);
    assert(rest_after(s + more, delimiters) =~= rest_after(s, delimiters) + more);
}

/// Turns bytes into text with `String::from_utf8`. The contract is taken on
/// trust from that function's documentation: the result is `Some` exactly
/// for valid UTF-8, and then it is the text that the bytes encode.
#[verifier::external_body]
fn string_from_utf8(bytes: Vec<u8>) -> (text: Option<String>)
    ensures
        text is Some <==> valid_utf8(bytes@),
        text matches Some(t) ==> t@ == decode_utf8(bytes@),
{
    String::from_utf8(bytes).ok()
}

/// Reading text token by token and line by line.
pub trait TokenizedRead {
    /// The bytes that have not been consumed yet.
    spec fn upcoming(&self) -> Seq<u8>;

    /// Reads the next token: skips whitespace, then takes bytes up to the next
    /// whitespace byte, which is consumed too, or to the end of the input.
    /// `Ok(None)` says that no more data is there.
    fn read_token(&mut self) -> (r: Result<Option<String>, Fatal>)
        ensures
            outcome_view(r) == text_outcome(old(self).upcoming(), whitespace()),
            final(self).upcoming() == rest_after(old(self).upcoming(), whitespace()),
    ;

    /// Reads up to the next line break or the end of the input. Line breaks
    /// that stand before the line's first byte are skipped.
    fn read_line(&mut self) -> (r: Result<Option<String>, Fatal>)
        ensures
            outcome_view(r) == text_outcome(old(self).upcoming(), line_breaks()),
            final(self).upcoming() == rest_after(old(self).upcoming(), line_breaks()),
    ;
}

/// Tokenizes the bytes of the source that it owns, one byte at a time.
pub struct TokenizedReader<T: ByteSource> {
    inner: T,
}

/// Whether `byte` is one of `delimiters`.
pub fn is_delimiter(delimiters: &[u8], byte: u8) -> (found: bool)
    ensures
        found == delimiters@.contains(byte),
{
    let mut i: usize = 0;
    while i < delimiters.len()
        invariant
            i <= delimiters.len(),
            forall|j: int| 0 <= j < i ==> delimiters@[j] != byte,
        decreases delimiters.len() - i,
    {
        if delimiters[i] == byte {
            return true;
        }
        i = i + 1;
    }
    false
}

impl<T: ByteSource> TokenizedReader<T> {
    /// The bytes of the source that have not been consumed yet.
    pub closed spec fn remaining(&self) -> Seq<u8> {
        self.inner.remaining()
    }

    /// The source that the reader owns.
    pub closed spec fn source(&self) -> T {
        self.inner
    }

    /// A reader over `source`.
    pub fn new(source: T) -> (reader: TokenizedReader<T>)
        ensures
            reader.source() == source,
            reader.remaining() == source.remaining(),
    {
        TokenizedReader { inner: source }
    }

    /// Reads a single byte from the source.
    pub fn read_byte(&mut self) -> (b: Option<u8>)
        ensures
            old(self).remaining().len() == 0 ==> b is None && final(self).remaining()
                == old(self).remaining(),
            old(self).remaining().len() > 0 ==> b == Some(old(self).remaining()[0])
                && final(self).remaining() == old(self).remaining().skip(1),
    {
        self.inner.next_byte()
    }

    /// Skips leading delimiters, then appends to `buffer` the bytes up to the
    /// next delimiter, which is consumed too, or to the end of the source.
    /// Returns `Some` if at least one byte was appended.
    pub fn read_until(&mut self, delimiters: &[u8], buffer: &mut Vec<u8>) -> (r: Option<()>)
        ensures
            r is Some <==> has_content(old(self).remaining(), delimiters@),
            final(buffer)@ == old(buffer)@ + content(old(self).remaining(), delimiters@),
            final(self).remaining() == rest_after(old(self).remaining(), delimiters@),
    {
        let ghost s0 = self.remaining();
        let ghost d = delimiters@;
        let ghost b0 = buffer@;
        let ghost mut k: int = 0;
        let mut current: Option<u8> = self.read_byte();
        assert(s0.skip(0) =~= s0);
        while current.is_some() && is_delimiter(delimiters, current.unwrap())
            invariant
                d == delimiters@,
                buffer@ == b0,
                0 <= k <= s0.len(),
                current matches Some(b) ==> k < s0.len() && b == s0[k] && self.remaining()
                    == s0.skip(k + 1),
                current is None ==> k == s0.len() && self.remaining() == s0.skip(k),
                leading_delimiters(s0, d) == k + leading_delimiters(s0.skip(k), d),
            decreases s0.len() - k,
        {
            proof {
                assert(s0.skip(k).skip(1) =~= s0.skip(k + 1));
                assert(s0.skip(k + 1).len() > 0 ==> s0.skip(k + 1)[0] == s0[k + 1]);
                k = k + 1;
            }
            current = self.read_byte();
        }
        if current.is_none() {
            assert(self.remaining() =~= rest_after(s0, d));
            assert(content(s0, d) =~= Seq::<u8>::empty());
            assert(buffer@ =~= b0 + content(s0, d));
            return None;
        }
        let ghost t = s0.skip(k);
        let ghost mut m: int = 0;
        assert(t.skip(0) =~= t);
        assert(b0 + s0.subrange(k, k) =~= b0);
        while current.is_some() && !is_delimiter(delimiters, current.unwrap())
            invariant
                d == delimiters@,
                t == s0.skip(k),
                0 <= k < s0.len(),
                0 <= m,
                k + m <= s0.len(),
                current matches Some(b) ==> k + m < s0.len() && b == s0[k + m] && self.remaining()
                    == s0.skip(k + m + 1),
                current is None ==> k + m == s0.len() && self.remaining() == s0.skip(k + m),
                leading_content(t, d) == m + leading_content(t.skip(m), d),
                buffer@ == b0 + s0.subrange(k, k + m),
            decreases s0.len() - k - m,
        {
            buffer.push(current.unwrap());
            proof {
                assert(t.skip(m).skip(1) =~= t.skip(m + 1));
                assert(b0 + s0.subrange(k, k + m + 1) =~= (b0 + s0.subrange(k, k + m)).push(
                    s0[k + m],
                ));
                m = m + 1;
            }
            current = self.read_byte();
        }
        Some(())
    }

    /// The source that the reader reads from.
    pub fn inner_reader(&self) -> (source: &T)
        ensures
            *source == self.source(),
    {
        &self.inner
    }

    /// The source that the reader reads from, for reading raw bytes directly.
    pub fn inner_reader_mut(&mut self) -> (source: &mut T)
        ensures
            *source == old(self).source(),
            final(self).source() == *final(source),
    {
        &mut self.inner
    }

    /// Reads the next piece of content between `delimiters` as text.
    fn read_text(&mut self, delimiters: &[u8]) -> (r: Result<Option<String>, Fatal>)
        ensures
            outcome_view(r) == text_outcome(old(self).remaining(), delimiters@),
            final(self).remaining() == rest_after(old(self).remaining(), delimiters@),
    {
        let mut buffer: Vec<u8> = Vec::new();
        match self.read_until(delimiters, &mut buffer) {
            None => Ok(None),
            Some(_) => {
                match string_from_utf8(buffer) {
                    Some(text) => Ok(Some(text)),
                    None => Err(Fatal::InvalidUtf8),
                }
            },
        }
    }
}

/// Whether the next piece of content of `bytes` is there with the delimiter
/// that ends it.
pub fn is_item_complete(bytes: &[u8], delimiters: &[u8]) -> (complete: bool)
    ensures
        complete == item_complete(bytes@, delimiters@),
{
    let ghost s = bytes@;
    let ghost d = delimiters@;
    let mut i: usize = 0;
    assert(s.skip(0) =~= s);
    while i < bytes.len() && is_delimiter(delimiters, bytes[i])
        invariant
            s == bytes@,
            d == delimiters@,
            i <= bytes.len(),
            leading_delimiters(s, d) == i + leading_delimiters(s.skip(i as int), d),
        decreases bytes.len() - i,
    {
        assert(s.skip(i as int).skip(1) =~= s.skip(i + 1));
        i = i + 1;
    }
    let start: usize = i;
    let ghost t = s.skip(start as int);
    while i < bytes.len() && !is_delimiter(delimiters, bytes[i])
        invariant
            s == bytes@,
            d == delimiters@,
            t == s.skip(start as int),
            start <= i <= bytes.len(),
            leading_delimiters(s, d) == start,
            leading_content(t, d) == (i - start) + leading_content(s.skip(i as int), d),
        decreases bytes.len() - i,
    {
        assert(s.skip(i as int).skip(1) =~= s.skip(i + 1));
        i = i + 1;
    }
    i < bytes.len()
}

impl TokenizedReader<MemorySource> {
    /// Puts `bytes` behind the bytes that the reader has not consumed yet.
    pub fn supply(&mut self, bytes: &[u8])
        ensures
            final(self).remaining() == old(self).remaining() + bytes@,
    {
        self.inner.supply(bytes);
    }

    /// Whether the next read between `delimiters` is settled by the bytes
    /// that the reader holds, whatever is supplied behind them.
    pub fn is_ready(&self, delimiters: &[u8]) -> (ready: bool)
        ensures
            ready == item_complete(self.remaining(), delimiters@),
    {
        is_item_complete(self.inner.unread_bytes(), delimiters)
    }
}

impl<T: ByteSource> TokenizedRead for TokenizedReader<T> {
    open spec fn upcoming(&self) -> Seq<u8> {
        self.remaining()
    }

    fn read_token(&mut self) -> (r: Result<Option<String>, Fatal>) {
        let delimiters: Vec<u8> = vec![SPACE, TAB, CARRIAGE_RETURN, LINE_FEED];
        assert(delimiters@ =~= whitespace());
        self.read_text(delimiters.as_slice())
    }

    fn read_line(&mut self) -> (r: Result<Option<String>, Fatal>) {
        let delimiters: Vec<u8> = vec![CARRIAGE_RETURN, LINE_FEED];
        self.read_text(delimiters.as_slice())
    }
}

} // verus!
