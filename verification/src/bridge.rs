//! The flat call surface: readers behind integer handles, and the two-phase
//! delivery of tokens and lines into a caller's buffer.

use vstd::prelude::*;
use vstd::utf8::*;
use crate::contract::{
    after_token, eof_expected, equal_expected, failure_view, token_expected,
    value_expected, JudgeReader,
};
use crate::judge::{Checker, Interactor};
use crate::source::MemorySource;
use crate::tokenized::{
    item_complete, line_breaks, outcome_view, rest_after, text_outcome, whitespace, TokenizedRead,
    TokenizedReader, CARRIAGE_RETURN, LINE_FEED, SPACE, TAB,
};
use crate::value::TokenValue;
use crate::verdict::{accept, reject, Failure, FailureView, Fatal, Verdict, VerdictView};

verus! {

/// The byte that ends a text in a buffer.
pub const TERMINATOR: u8 = 0;

/// The bytes that a text takes in a buffer: its encoding and the terminator.
pub open spec fn framed(text: Seq<char>) -> Seq<u8> {
    encode_utf8(text).push(TERMINATOR)
}

/// A buffer after `frame` was written to its front.
pub open spec fn overwritten(buffer: Seq<u8>, frame: Seq<u8>) -> Seq<u8> {
    frame + buffer.skip(frame.len() as int)
}

/// Copies `text` and a terminator to the front of `buffer` if they fit, and
/// leaves the buffer as it is if they do not. Returns the number of bytes
/// that the text needs, terminator included.
pub fn try_copy_str(text: &str, buffer: &mut [u8]) -> (needed: usize)
    requires
        encode_utf8(text@).len() < usize::MAX,
    ensures
        needed == framed(text@).len(),
        needed > old(buffer)@.len() ==> final(buffer)@ == old(buffer)@,
        needed <= old(buffer)@.len() ==> final(buffer)@ == overwritten(old(buffer)@, framed(text@)),
{
    let bytes = text.as_bytes();
    let count: usize = bytes.len();
    if count >= buffer.len() {
        return count + 1;
    }
    let ghost before = buffer@;
    let mut i: usize = 0;
    while i < count
        invariant
            count == bytes@.len(),
            count < buffer@.len(),
            buffer@.len() == before.len(),
            i <= count,
            forall|j: int| 0 <= j < i ==> buffer@[j] == bytes@[j],
            forall|j: int| i <= j < before.len() ==> buffer@[j] == before[j],
        decreases count - i,
    {
        buffer[i] = bytes[i];
        i = i + 1;
    }
    buffer[count] = TERMINATOR;
    count + 1
}

/// A registered reader as the bridge's contracts see it.
pub struct SlotView {
    /// The bytes that the reader has not consumed yet.
    pub upcoming: Seq<u8>,
    /// The token or line that was read and not delivered yet.
    pub pending: Option<Seq<char>>,
    /// The handle of the instance that owns the reader.
    pub owner: usize,
    /// The kind of the instance that owns the reader.
    pub kind: Kind,
}

/// What one call of a two-phase read leaves and returns.
pub struct Delivery {
    /// The reader's slot after the call.
    pub slot: SlotView,
    /// The caller's buffer after the call.
    pub buffer: Seq<u8>,
    /// The byte count that the call returns, or the failure.
    pub result: Result<usize, Fatal>,
}

/// The kind of an instance that owns readers.
#[derive(Debug, Clone, Copy, PartialEq, Eq, Structural)]
pub enum Kind {
    Checker,
    Interactor,
}

/// One call of a two-phase read on a slot, with `delimiters` saying whether
/// tokens or lines are read.
///
/// Where nothing is pending the reader is read once. With nothing read the
/// call returns 0. A pending value that does not fit into the buffer with its
/// terminator stays pending, and the call returns the size that it needs.
/// One that fits is written to the buffer's front and is pending no longer.
pub open spec fn delivery(slot: SlotView, delimiters: Seq<u8>, buffer: Seq<u8>) -> Delivery {
    if slot.pending is Some {
        handed_over(slot, buffer)
    } else {
        let read = SlotView { upcoming: rest_after(slot.upcoming, delimiters), ..slot };
        match text_outcome(slot.upcoming, delimiters) {
            Err(fatal) => Delivery { slot: read, buffer: buffer, result: Err(fatal) },
            Ok(None) => Delivery { slot: read, buffer: buffer, result: Ok(0) },
            Ok(Some(text)) => handed_over(SlotView { pending: Some(text), ..read }, buffer),
        }
    }
}

/// The second phase of a two-phase read, on a slot with a pending value.
pub open spec fn handed_over(slot: SlotView, buffer: Seq<u8>) -> Delivery
    recommends
        slot.pending is Some,
{
    let frame = framed(slot.pending.unwrap());
    if frame.len() > usize::MAX {
        Delivery { slot: slot, buffer: buffer, result: Err(Fatal::ValueTooLong) }
    } else if frame.len() > buffer.len() {
        Delivery { slot: slot, buffer: buffer, result: Ok(frame.len() as usize) }
    } else {
        Delivery {
            slot: SlotView { pending: None, ..slot },
            buffer: overwritten(buffer, frame),
            result: Ok(frame.len() as usize),
        }
    }
}

/// A call with a buffer that is too small returns a size above the buffer's
/// capacity and leaves the buffer as it is; the call that follows it with a
/// buffer of at least that size then leaves and returns what a first call
/// with that buffer would have: the value is delivered whole, and the
/// reader has been read once.
pub proof fn lemma_retry_delivers_once(
    slot: SlotView,
    delimiters: Seq<u8>,
    small: Seq<u8>,
    large: Seq<u8>,
)
    requires
        delivery(slot, delimiters, small).result matches Ok(needed) && needed > small.len(),
        delivery(slot, delimiters, small).result matches Ok(needed) && needed <= large.len(),
    ensures
        delivery(slot, delimiters, small).buffer == small,
        delivery(slot, delimiters, small).slot.pending is Some,
        delivery(delivery(slot, delimiters, small).slot, delimiters, large).slot.upcoming
            == delivery(slot, delimiters, small).slot.upcoming,
        delivery(delivery(slot, delimiters, small).slot, delimiters, large) == delivery(
            slot,
            delimiters,
            large,
        ),
        delivery(slot, delimiters, large).result == delivery(slot, delimiters, small).result,
        delivery(slot, delimiters, large).slot.pending is None,
        delivery(slot, delimiters, large).buffer == overwritten(
            large,
            framed(delivery(slot, delimiters, small).slot.pending.unwrap()),
        ),
{
}

/// A call never returns a size between 1 and the buffer's capacity without
/// having written the value, and returns 0 only where no more data is there.
pub proof fn lemma_delivery_result(slot: SlotView, delimiters: Seq<u8>, buffer: Seq<u8>)
    ensures
        match delivery(slot, delimiters, buffer).result {
            Ok(n) => if n == 0 {
                slot.pending is None && text_outcome(slot.upcoming, delimiters) == Ok::<
                    Option<Seq<char>>,
                    Fatal,
                >(None) && delivery(slot, delimiters, buffer).buffer == buffer
            } else if n <= buffer.len() {
                delivery(slot, delimiters, buffer).slot.pending is None && delivery(
                    slot,
                    delimiters,
                    buffer,
                ).buffer.subrange(0, n as int).last() == TERMINATOR
            } else {
                delivery(slot, delimiters, buffer).slot.pending is Some && delivery(
                    slot,
                    delimiters,
                    buffer,
                ).buffer == buffer
            },
            Err(_) => delivery(slot, delimiters, buffer).buffer == buffer,
        },
{
}

/// A registered reader, with the value that was read from it and not
/// delivered yet.
pub struct Slot<T: TokenizedRead> {
    reader: JudgeReader<T>,
    pending: Option<String>,
    owner: usize,
    kind: Kind,
}

impl<T: TokenizedRead> View for Slot<T> {
    type V = SlotView;

    closed spec fn view(&self) -> SlotView {
        SlotView {
            upcoming: self.reader.upcoming(),
            pending: match self.pending {
                Some(text) => Some(text@),
                None => None,
            },
            owner: self.owner,
            kind: self.kind,
        }
    }
}

impl<T: TokenizedRead> Slot<T> {
    /// One call of a two-phase read: of a line where `lines` is set, of a
    /// token where it is not.
    fn deliver(&mut self, lines: bool, buffer: &mut [u8]) -> (r: Result<usize, Fatal>)
        ensures
            final(self)@ == delivery(old(self)@, reading(lines), old(buffer)@).slot,
            final(buffer)@ == delivery(old(self)@, reading(lines), old(buffer)@).buffer,
            r == delivery(old(self)@, reading(lines), old(buffer)@).result,
    {
        if self.pending.is_none() {
            let read = if lines {
                self.reader.inner_reader().read_line()
            } else {
                self.reader.inner_reader().read_token()
            };
            match read {
                Err(fatal) => {
                    return Err(fatal);
                },
                Ok(value) => {
                    self.pending = value;
                },
            }
        }
        match self.pending.take() {
            None => Ok(0),
            Some(text) => {
                if text.as_str().as_bytes().len() == usize::MAX {
                    self.pending = Some(text);
                    return Err(Fatal::ValueTooLong);
                }
                let needed = try_copy_str(text.as_str(), buffer);
                if needed > buffer.len() {
                    self.pending = Some(text);
                }
                Ok(needed)
            },
        }
    }
}

/// The delimiters of a read: line breaks for lines, whitespace for tokens.
pub open spec fn reading(lines: bool) -> Seq<u8> {
    if lines {
        line_breaks()
    } else {
        whitespace()
    }
}

/// The view of a slot that may be empty.
pub open spec fn slot_view<T: TokenizedRead>(slot: Option<Slot<T>>) -> Option<SlotView> {
    match slot {
        Some(s) => Some(s@),
        None => None,
    }
}

/// Whether `handle` names a reader that the registry holds.
pub open spec fn live(slots: Seq<Option<SlotView>>, handle: usize) -> bool {
    handle < slots.len() && slots[handle as int] is Some
}

/// Whether the slot at `index` holds a reader of the instance `owner` of kind `kind`.
pub open spec fn owned_by(slots: Seq<Option<SlotView>>, index: int, owner: usize, kind: Kind) -> bool {
    0 <= index < slots.len() && (match slots[index] {
        Some(slot) => slot.owner == owner && slot.kind == kind,
        None => false,
    })
}

/// Whether `handle` names an instance of kind `kind` that the registry
/// holds: its three readers stand at the handle and behind it.
pub open spec fn owns(slots: Seq<Option<SlotView>>, handle: usize, kind: Kind) -> bool {
    owned_by(slots, handle as int, handle, kind) && owned_by(slots, handle + 1, handle, kind)
        && owned_by(slots, handle + 2, handle, kind)
}

/// The slot of a reader that was just registered: nothing is pending.
pub open spec fn fresh(upcoming: Seq<u8>, owner: usize, kind: Kind) -> Option<SlotView> {
    Some(SlotView { upcoming: upcoming, pending: None, owner: owner, kind: kind })
}

/// The registry with the three readers of a new instance behind the others.
pub open spec fn created(
    slots: Seq<Option<SlotView>>,
    kind: Kind,
    first: Seq<u8>,
    second: Seq<u8>,
    third: Seq<u8>,
) -> Seq<Option<SlotView>> {
    slots.push(fresh(first, slots.len() as usize, kind)).push(
        fresh(second, slots.len() as usize, kind),
    ).push(fresh(third, slots.len() as usize, kind))
}

/// The registry without the three readers of the instance at `handle`.
pub open spec fn released(slots: Seq<Option<SlotView>>, handle: usize) -> Seq<Option<SlotView>> {
    slots.update(handle as int, None).update(handle + 1, None).update(handle + 2, None)
}

/// The registry once the reader behind `handle` has read one token; as it
/// was where the handle names no reader.
pub open spec fn advanced(slots: Seq<Option<SlotView>>, handle: usize) -> Seq<Option<SlotView>> {
    if live(slots, handle) {
        slots.update(
            handle as int,
            Some(
                SlotView {
                    upcoming: after_token(slots[handle as int].unwrap().upcoming),
                    ..slots[handle as int].unwrap()
                },
            ),
        )
    } else {
        slots
    }
}

/// The registry after a two-phase read on `handle`; as it was where the
/// handle names no reader.
pub open spec fn read_into(
    slots: Seq<Option<SlotView>>,
    handle: usize,
    delimiters: Seq<u8>,
    buffer: Seq<u8>,
) -> Seq<Option<SlotView>> {
    if live(slots, handle) {
        slots.update(
            handle as int,
            Some(delivery(slots[handle as int].unwrap(), delimiters, buffer).slot),
        )
    } else {
        slots
    }
}

/// The buffer after a two-phase read on `handle`.
pub open spec fn buffer_read_into(
    slots: Seq<Option<SlotView>>,
    handle: usize,
    delimiters: Seq<u8>,
    buffer: Seq<u8>,
) -> Seq<u8> {
    if live(slots, handle) {
        delivery(slots[handle as int].unwrap(), delimiters, buffer).buffer
    } else {
        buffer
    }
}

/// What a two-phase read on `handle` returns.
pub open spec fn read_result(
    slots: Seq<Option<SlotView>>,
    handle: usize,
    delimiters: Seq<u8>,
    buffer: Seq<u8>,
) -> Result<usize, Fatal> {
    if live(slots, handle) {
        delivery(slots[handle as int].unwrap(), delimiters, buffer).result
    } else {
        Err(Fatal::UnknownHandle)
    }
}

/// Releasing an instance empties its own three slots and leaves every other
/// slot as it was: the readers behind other handles stay, with what they have
/// pending and what they have left to read.
pub proof fn lemma_release_keeps_other_handles(
    slots: Seq<Option<SlotView>>,
    handle: usize,
    kind: Kind,
    other: usize,
)
    requires
        owns(slots, handle, kind),
        other < handle || other > handle + 2,
    ensures
        released(slots, handle).len() == slots.len(),
        other < slots.len() ==> released(slots, handle)[other as int] == slots[other as int],
        live(released(slots, handle), other) == live(slots, other),
        !live(released(slots, handle), handle),
        !owns(released(slots, handle), handle, kind),
        forall|k: Kind| owns(slots, other, k) ==> owns(released(slots, handle), other, k),
{
    assert forall|k: Kind| owns(slots, other, k) implies owns(released(slots, handle), other, k) by {
        assert(slots[other + 1].unwrap().owner == other);
        assert(slots[handle + 1].unwrap().owner == handle);
    }
}

/// An operation on a handle that names no reader changes nothing: neither a
/// two-phase read nor an expectation touches any slot.
pub proof fn lemma_stale_handle_changes_nothing(
    slots: Seq<Option<SlotView>>,
    handle: usize,
    delimiters: Seq<u8>,
    buffer: Seq<u8>,
)
    requires
        !live(slots, handle),
    ensures
        read_into(slots, handle, delimiters, buffer) == slots,
        buffer_read_into(slots, handle, delimiters, buffer) == buffer,
        read_result(slots, handle, delimiters, buffer) == Err::<usize, Fatal>(Fatal::UnknownHandle),
        advanced(slots, handle) == slots,
{
}

/// An operation on one reader leaves every other slot as it was.
pub proof fn lemma_operations_keep_other_handles(
    slots: Seq<Option<SlotView>>,
    handle: usize,
    delimiters: Seq<u8>,
    buffer: Seq<u8>,
    other: usize,
)
    requires
        other != handle,
        other < slots.len(),
    ensures
        read_into(slots, handle, delimiters, buffer)[other as int] == slots[other as int],
        advanced(slots, handle)[other as int] == slots[other as int],
        read_into(slots, handle, delimiters, buffer).len() == slots.len(),
        advanced(slots, handle).len() == slots.len(),
{
}

/// The registry of the readers that foreign callers name by handle.
pub struct Bridge<T: TokenizedRead> {
    slots: Vec<Option<Slot<T>>>,
}

impl<T: TokenizedRead> View for Bridge<T> {
    type V = Seq<Option<SlotView>>;

    closed spec fn view(&self) -> Seq<Option<SlotView>> {
        self.slots@.map_values(|slot: Option<Slot<T>>| slot_view(slot))
    }
}

impl<T: TokenizedRead> Bridge<T> {
    /// A registry that holds nothing.
    pub fn new() -> (bridge: Bridge<T>)
        ensures
            bridge@ == Seq::<Option<SlotView>>::empty(),
    {
        let bridge = Bridge { slots: Vec::new() };
        bridge
    }

    /// The number of handles that were given out, released ones included.
    pub fn handle_count(&self) -> (n: usize)
        ensures
            n == self@.len(),
    {
        self.slots.len()
    }

    /// Whether `handle` names a reader that the registry holds.
    pub fn is_live(&self, handle: usize) -> (b: bool)
        ensures
            b == live(self@, handle),
    {
        handle < self.slots.len() && self.slots[handle].is_some()
    }

    /// Whether the slot at `index` holds a reader of the instance `owner`.
    fn is_owned_by(&self, index: usize, owner: usize, kind: Kind) -> (b: bool)
        ensures
            b == owned_by(self@, index as int, owner, kind),
    {
        if index >= self.slots.len() {
            return false;
        }
        match &self.slots[index] {
            Some(slot) => slot.owner == owner && slot.kind == kind,
            None => false,
        }
    }

    /// Whether `handle` names an instance of kind `kind` that the registry holds.
    pub fn is_owner(&self, handle: usize, kind: Kind) -> (b: bool)
        ensures
            b == owns(self@, handle, kind),
    {
        let n = self.slots.len();
        if handle >= n || n - handle < 3 {
            return false;
        }
        self.is_owned_by(handle, handle, kind) && self.is_owned_by(handle + 1, handle, kind)
            && self.is_owned_by(handle + 2, handle, kind)
    }

    /// Takes the reader behind `handle` out of its slot.
    fn take(&mut self, handle: usize) -> (slot: Slot<T>)
        requires
            live(old(self)@, handle),
        ensures
            Some(slot@) == old(self)@[handle as int],
            final(self)@ == old(self)@.update(handle as int, None),
    {
        let mut taken: Option<Slot<T>> = None;
        self.slots.set_and_swap(handle, &mut taken);
        taken.unwrap()
    }

    /// Puts a reader into the slot at `handle`.
    fn put(&mut self, handle: usize, slot: Slot<T>)
        requires
            handle < old(self)@.len(),
        ensures
            final(self)@ == old(self)@.update(handle as int, Some(slot@)),
    {
        self.slots.set(handle, Some(slot));
    }

    /// Registers the three readers of a new instance and hands out its handle.
    fn create(
        &mut self,
        kind: Kind,
        first: JudgeReader<T>,
        second: JudgeReader<T>,
        third: JudgeReader<T>,
    ) -> (handle: usize)
        ensures
            handle == old(self)@.len(),
            final(self)@ == created(
                old(self)@,
                kind,
                first.upcoming(),
                second.upcoming(),
                third.upcoming(),
            ),
            owns(final(self)@, handle, kind),
    {
        let handle = self.slots.len();
        self.slots.push(Some(Slot { reader: first, pending: None, owner: handle, kind: kind }));
        self.slots.push(Some(Slot { reader: second, pending: None, owner: handle, kind: kind }));
        self.slots.push(Some(Slot { reader: third, pending: None, owner: handle, kind: kind }));
        assert(self@ =~= created(
            old(self)@,
            kind,
            first.upcoming(),
            second.upcoming(),
            third.upcoming(),
        ));
        handle
    }

    /// Releases the instance of kind `kind` at `handle` with its readers.
    fn release(&mut self, handle: usize, kind: Kind) -> (r: Result<(), Fatal>)
        ensures
            owns(old(self)@, handle, kind) ==> r is Ok && final(self)@ == released(
                old(self)@,
                handle,
            ),
            !owns(old(self)@, handle, kind) ==> r == Err::<(), Fatal>(Fatal::UnknownHandle)
                && final(self)@ == old(self)@,
    {
        if !self.is_owner(handle, kind) {
            return Err(Fatal::UnknownHandle);
        }
        self.slots.set(handle, None);
        self.slots.set(handle + 1, None);
        self.slots.set(handle + 2, None);
        Ok(())
    }

    /// The handle of the reader with number `role` of the instance at `handle`.
    fn reader_handle(&self, handle: usize, kind: Kind, role: usize) -> (r: Result<usize, Fatal>)
        requires
            role <= 2,
        ensures
            owns(self@, handle, kind) ==> r == Ok::<usize, Fatal>((handle + role) as usize)
                && live(self@, (handle + role) as usize),
            !owns(self@, handle, kind) ==> r == Err::<usize, Fatal>(Fatal::UnknownHandle),
    {
        if self.is_owner(handle, kind) {
            let n = self.slots.len();
            assert(handle + 2 < n);
            Ok(handle + role)
        } else {
            Err(Fatal::UnknownHandle)
        }
    }

    /// One call of a two-phase read on the reader behind `handle`.
    fn read(&mut self, handle: usize, lines: bool, buffer: &mut [u8]) -> (r: Result<usize, Fatal>)
        ensures
            final(self)@ == read_into(old(self)@, handle, reading(lines), old(buffer)@),
            final(buffer)@ == buffer_read_into(old(self)@, handle, reading(lines), old(buffer)@),
            r == read_result(old(self)@, handle, reading(lines), old(buffer)@),
    {
        if !self.is_live(handle) {
            return Err(Fatal::UnknownHandle);
        }
        let mut slot = self.take(handle);
        let r = slot.deliver(lines, buffer);
        self.put(handle, slot);
        r
    }

    /// Reads one token from the reader behind `handle`, past a value that
    /// may be pending there. `Ok(None)` says that no more data is there.
    pub fn read_token(&mut self, handle: usize) -> (r: Result<Option<String>, Fatal>)
        ensures
            final(self)@ == advanced(old(self)@, handle),
            outcome_view(r) == (if live(old(self)@, handle) {
                text_outcome(old(self)@[handle as int].unwrap().upcoming, whitespace())
            } else {
                Err(Fatal::UnknownHandle)
            }),
    {
        if !self.is_live(handle) {
            return Err(Fatal::UnknownHandle);
        }
        let mut slot = self.take(handle);
        let r = slot.reader.read_token();
        self.put(handle, slot);
        r
    }

    /// Expects the next token of the reader behind `handle` to stand for a
    /// value of the type.
    pub fn expect_type<U: TokenValue>(&mut self, handle: usize) -> (r: Result<U, Failure>)
        ensures
            final(self)@ == advanced(old(self)@, handle),
            failure_view(r) == (if live(old(self)@, handle) {
                value_expected::<U>(old(self)@[handle as int].unwrap().upcoming)
            } else {
                Err(FailureView::Fatal(Fatal::UnknownHandle))
            }),
    {
        if !self.is_live(handle) {
            return Err(Failure::Fatal(Fatal::UnknownHandle));
        }
        let mut slot = self.take(handle);
        let r = slot.reader.expect_type::<U>();
        self.put(handle, slot);
        r
    }

    /// Expects the next token of the reader behind `handle` to stand for a
    /// value equal to `value`.
    pub fn expect_eq<U: TokenValue>(&mut self, handle: usize, value: &U) -> (r: Result<U, Failure>)
        ensures
            final(self)@ == advanced(old(self)@, handle),
            failure_view(r) == (if live(old(self)@, handle) {
                equal_expected::<U>(old(self)@[handle as int].unwrap().upcoming, *value)
            } else {
                Err(FailureView::Fatal(Fatal::UnknownHandle))
            }),
    {
        if !self.is_live(handle) {
            return Err(Failure::Fatal(Fatal::UnknownHandle));
        }
        let mut slot = self.take(handle);
        let r = slot.reader.expect_eq::<U>(value);
        self.put(handle, slot);
        r
    }
}

/// The registry with `bytes` put behind what the reader behind `handle` has
/// left to read; as it was where the handle names no reader.
pub open spec fn supplied(slots: Seq<Option<SlotView>>, handle: usize, bytes: Seq<u8>) -> Seq<
    Option<SlotView>,
> {
    if live(slots, handle) {
        slots.update(
            handle as int,
            Some(
                SlotView {
                    upcoming: slots[handle as int].unwrap().upcoming + bytes,
                    ..slots[handle as int].unwrap()
                },
            ),
        )
    } else {
        slots
    }
}

impl Bridge<TokenizedReader<MemorySource>> {
    /// Puts `bytes` behind what the reader behind `handle` has left to read.
    pub fn supply(&mut self, handle: usize, bytes: &[u8]) -> (r: Result<(), Fatal>)
        ensures
            final(self)@ == supplied(old(self)@, handle, bytes@),
            r is Ok <==> live(old(self)@, handle),
            r matches Err(fatal) ==> fatal == Fatal::UnknownHandle,
    {
        if !self.is_live(handle) {
            return Err(Fatal::UnknownHandle);
        }
        let mut slot = self.take(handle);
        slot.reader.inner_reader().supply(bytes);
        self.put(handle, slot);
        Ok(())
    }

    /// Whether the reader behind `handle` holds a value that was read and
    /// not delivered yet.
    pub fn has_pending(&self, handle: usize) -> (r: Result<bool, Fatal>)
        ensures
            r == (if live(self@, handle) {
                Ok::<bool, Fatal>(self@[handle as int].unwrap().pending is Some)
            } else {
                Err::<bool, Fatal>(Fatal::UnknownHandle)
            }),
    {
        if handle >= self.slots.len() {
            return Err(Fatal::UnknownHandle);
        }
        match &self.slots[handle] {
            Some(slot) => Ok(slot.pending.is_some()),
            None => Err(Fatal::UnknownHandle),
        }
    }

    /// Whether the next token, or the next line where `lines` is set, of the
    /// reader behind `handle` is settled by the bytes that it holds.
    pub fn is_ready(&mut self, handle: usize, lines: bool) -> (r: Result<bool, Fatal>)
        ensures
            final(self)@ == old(self)@,
            r == (if live(old(self)@, handle) {
                Ok::<bool, Fatal>(
                    item_complete(old(self)@[handle as int].unwrap().upcoming, reading(lines)),
                )
            } else {
                Err::<bool, Fatal>(Fatal::UnknownHandle)
            }),
    {
        if !self.is_live(handle) {
            return Err(Fatal::UnknownHandle);
        }
        let mut slot = self.take(handle);
        let delimiters: Vec<u8> = if lines {
            vec![CARRIAGE_RETURN, LINE_FEED]
        } else {
            vec![SPACE, TAB, CARRIAGE_RETURN, LINE_FEED]
        };
        let ready = slot.reader.inner_reader().is_ready(delimiters.as_slice());
        self.put(handle, slot);
        Ok(ready)
    }
}

/// An expectation's outcome without the value that it hands back.
pub open spec fn without_value<V>(r: Result<V, FailureView>) -> Result<(), FailureView> {
    match r {
        Ok(_) => Ok(()),
        Err(failure) => Err(failure),
    }
}

/// Registers a checker and hands out its handle.
pub fn wave_checker_create<T: TokenizedRead>(bridge: &mut Bridge<T>, checker: Checker<T>) -> (handle:
    usize)
    ensures
        handle == old(bridge)@.len(),
        final(bridge)@ == created(
            old(bridge)@,
            Kind::Checker,
            checker.input_reader().upcoming(),
            checker.std_answer_reader().upcoming(),
            checker.user_answer_reader().upcoming(),
        ),
        owns(final(bridge)@, handle, Kind::Checker),
{
    let (input, std_answer, user_answer) = checker.into_readers();
    bridge.create(Kind::Checker, input, std_answer, user_answer)
}

/// Releases the checker at `handle` with its readers. A handle that names no
/// checker is refused and nothing changes.
pub fn wave_checker_release<T: TokenizedRead>(bridge: &mut Bridge<T>, checker: usize) -> (r: Result<
    (),
    Fatal,
>)
    ensures
        owns(old(bridge)@, checker, Kind::Checker) ==> r is Ok && final(bridge)@ == released(
            old(bridge)@,
            checker,
        ),
        !owns(old(bridge)@, checker, Kind::Checker) ==> r == Err::<(), Fatal>(Fatal::UnknownHandle)
            && final(bridge)@ == old(bridge)@,
{
    bridge.release(checker, Kind::Checker)
}

/// The handle of the reader of a checker's input file.
pub fn wave_checker_get_input_handle<T: TokenizedRead>(bridge: &Bridge<T>, checker: usize) -> (r:
    Result<usize, Fatal>)
    ensures
        owns(bridge@, checker, Kind::Checker) ==> r == Ok::<usize, Fatal>(checker) && live(
            bridge@,
            checker,
        ),
        !owns(bridge@, checker, Kind::Checker) ==> r == Err::<usize, Fatal>(Fatal::UnknownHandle),
{
    bridge.reader_handle(checker, Kind::Checker, 0)
}

/// The handle of the reader of a checker's standard answer file.
pub fn wave_checker_get_std_answer_handle<T: TokenizedRead>(
    bridge: &Bridge<T>,
    checker: usize,
) -> (r: Result<usize, Fatal>)
    ensures
        owns(bridge@, checker, Kind::Checker) ==> r == Ok::<usize, Fatal>((checker + 1) as usize)
            && live(bridge@, (checker + 1) as usize),
        !owns(bridge@, checker, Kind::Checker) ==> r == Err::<usize, Fatal>(Fatal::UnknownHandle),
{
    bridge.reader_handle(checker, Kind::Checker, 1)
}

/// The handle of the reader of a checker's user output file.
pub fn wave_checker_get_user_answer_handle<T: TokenizedRead>(
    bridge: &Bridge<T>,
    checker: usize,
) -> (r: Result<usize, Fatal>)
    ensures
        owns(bridge@, checker, Kind::Checker) ==> r == Ok::<usize, Fatal>((checker + 2) as usize)
            && live(bridge@, (checker + 2) as usize),
        !owns(bridge@, checker, Kind::Checker) ==> r == Err::<usize, Fatal>(Fatal::UnknownHandle),
{
    bridge.reader_handle(checker, Kind::Checker, 2)
}

/// Registers the readers of an interactor and hands out its handle, and the
/// write end of its pipe, which stays with the caller.
pub fn wave_interactor_create<T: TokenizedRead, W>(
    bridge: &mut Bridge<T>,
    interactor: Interactor<T, W>,
) -> (created_as: (usize, W))
    ensures
        created_as.0 == old(bridge)@.len(),
        created_as.1 == interactor.writer(),
        final(bridge)@ == created(
            old(bridge)@,
            Kind::Interactor,
            interactor.input_reader().upcoming(),
            interactor.answer_reader().upcoming(),
            interactor.read_end_reader().upcoming(),
        ),
        owns(final(bridge)@, created_as.0, Kind::Interactor),
{
    let (input, answer, read_end, write_end) = interactor.into_parts();
    let handle = bridge.create(Kind::Interactor, input, answer, read_end);
    (handle, write_end)
}

/// Releases the interactor at `handle` with its readers. A handle that names
/// no interactor is refused and nothing changes.
pub fn wave_interactor_release<T: TokenizedRead>(bridge: &mut Bridge<T>, interactor: usize) -> (r:
    Result<(), Fatal>)
    ensures
        owns(old(bridge)@, interactor, Kind::Interactor) ==> r is Ok && final(bridge)@ == released(
            old(bridge)@,
            interactor,
        ),
        !owns(old(bridge)@, interactor, Kind::Interactor) ==> r == Err::<(), Fatal>(
            Fatal::UnknownHandle,
        ) && final(bridge)@ == old(bridge)@,
{
    bridge.release(interactor, Kind::Interactor)
}

/// The handle of the reader of an interactor's input file.
pub fn wave_interactor_get_input_handle<T: TokenizedRead>(
    bridge: &Bridge<T>,
    interactor: usize,
) -> (r: Result<usize, Fatal>)
    ensures
        owns(bridge@, interactor, Kind::Interactor) ==> r == Ok::<usize, Fatal>(interactor) && live(
            bridge@,
            interactor,
        ),
        !owns(bridge@, interactor, Kind::Interactor) ==> r == Err::<usize, Fatal>(
            Fatal::UnknownHandle,
        ),
{
    bridge.reader_handle(interactor, Kind::Interactor, 0)
}

/// The handle of the reader of an interactor's answer file.
pub fn wave_interactor_get_answer_handle<T: TokenizedRead>(
    bridge: &Bridge<T>,
    interactor: usize,
) -> (r: Result<usize, Fatal>)
    ensures
        owns(bridge@, interactor, Kind::Interactor) ==> r == Ok::<usize, Fatal>(
            (interactor + 1) as usize,
        ) && live(bridge@, (interactor + 1) as usize),
        !owns(bridge@, interactor, Kind::Interactor) ==> r == Err::<usize, Fatal>(
            Fatal::UnknownHandle,
        ),
{
    bridge.reader_handle(interactor, Kind::Interactor, 1)
}

/// The handle of the reader of the read end of an interactor's pipe.
pub fn wave_interactor_get_read_end_handle<T: TokenizedRead>(
    bridge: &Bridge<T>,
    interactor: usize,
) -> (r: Result<usize, Fatal>)
    ensures
        owns(bridge@, interactor, Kind::Interactor) ==> r == Ok::<usize, Fatal>(
            (interactor + 2) as usize,
        ) && live(bridge@, (interactor + 2) as usize),
        !owns(bridge@, interactor, Kind::Interactor) ==> r == Err::<usize, Fatal>(
            Fatal::UnknownHandle,
        ),
{
    bridge.reader_handle(interactor, Kind::Interactor, 2)
}

/// One call of the two-phase read of a token from the reader behind
/// `handle` into `buffer`. Returns 0 where no more data is there, the size
/// that the token needs where the buffer is too small, and the number of
/// bytes written, terminator included, where the token was delivered.
pub fn wave_read_token<T: TokenizedRead>(bridge: &mut Bridge<T>, handle: usize, buffer: &mut [u8]) -> (r:
    Result<usize, Fatal>)
    ensures
        final(bridge)@ == read_into(old(bridge)@, handle, whitespace(), old(buffer)@),
        final(buffer)@ == buffer_read_into(old(bridge)@, handle, whitespace(), old(buffer)@),
        r == read_result(old(bridge)@, handle, whitespace(), old(buffer)@),
{
    bridge.read(handle, false, buffer)
}

/// One call of the two-phase read of a line from the reader behind `handle`
/// into `buffer`. Returns as the read of a token does.
pub fn wave_read_line<T: TokenizedRead>(bridge: &mut Bridge<T>, handle: usize, buffer: &mut [u8]) -> (r:
    Result<usize, Fatal>)
    ensures
        final(bridge)@ == read_into(old(bridge)@, handle, line_breaks(), old(buffer)@),
        final(buffer)@ == buffer_read_into(old(bridge)@, handle, line_breaks(), old(buffer)@),
        r == read_result(old(bridge)@, handle, line_breaks(), old(buffer)@),
{
    bridge.read(handle, true, buffer)
}

/// Expects the next token of the reader behind `handle` to be a decimal
/// integer that fits `i8`.
pub fn wave_expect_i8<T: TokenizedRead>(bridge: &mut Bridge<T>, handle: usize) -> (r: Result<
    i8,
    Failure,
>)
    ensures
        final(bridge)@ == advanced(old(bridge)@, handle),
        failure_view(r) == (if live(old(bridge)@, handle) {
            value_expected::<i8>(old(bridge)@[handle as int].unwrap().upcoming)
        } else {
            Err(FailureView::Fatal(Fatal::UnknownHandle))
        }),
{
    bridge.expect_type::<i8>(handle)
}

/// Expects the next token of the reader behind `handle` to be a decimal
/// integer that fits `u8`.
pub fn wave_expect_u8<T: TokenizedRead>(bridge: &mut Bridge<T>, handle: usize) -> (r: Result<
    u8,
    Failure,
>)
    ensures
        final(bridge)@ == advanced(old(bridge)@, handle),
        failure_view(r) == (if live(old(bridge)@, handle) {
            value_expected::<u8>(old(bridge)@[handle as int].unwrap().upcoming)
        } else {
            Err(FailureView::Fatal(Fatal::UnknownHandle))
        }),
{
    bridge.expect_type::<u8>(handle)
}

/// Expects the next token of the reader behind `handle` to be a decimal
/// integer that fits `i16`.
pub fn wave_expect_i16<T: TokenizedRead>(bridge: &mut Bridge<T>, handle: usize) -> (r: Result<
    i16,
    Failure,
>)
    ensures
        final(bridge)@ == advanced(old(bridge)@, handle),
        failure_view(r) == (if live(old(bridge)@, handle) {
            value_expected::<i16>(old(bridge)@[handle as int].unwrap().upcoming)
        } else {
            Err(FailureView::Fatal(Fatal::UnknownHandle))
        }),
{
    bridge.expect_type::<i16>(handle)
}

/// Expects the next token of the reader behind `handle` to be a decimal
/// integer that fits `u16`.
pub fn wave_expect_u16<T: TokenizedRead>(bridge: &mut Bridge<T>, handle: usize) -> (r: Result<
    u16,
    Failure,
>)
    ensures
        final(bridge)@ == advanced(old(bridge)@, handle),
        failure_view(r) == (if live(old(bridge)@, handle) {
            value_expected::<u16>(old(bridge)@[handle as int].unwrap().upcoming)
        } else {
            Err(FailureView::Fatal(Fatal::UnknownHandle))
        }),
{
    bridge.expect_type::<u16>(handle)
}

/// Expects the next token of the reader behind `handle` to be a decimal
/// integer that fits `i32`.
pub fn wave_expect_i32<T: TokenizedRead>(bridge: &mut Bridge<T>, handle: usize) -> (r: Result<
    i32,
    Failure,
>)
    ensures
        final(bridge)@ == advanced(old(bridge)@, handle),
        failure_view(r) == (if live(old(bridge)@, handle) {
            value_expected::<i32>(old(bridge)@[handle as int].unwrap().upcoming)
        } else {
            Err(FailureView::Fatal(Fatal::UnknownHandle))
        }),
{
    bridge.expect_type::<i32>(handle)
}

/// Expects the next token of the reader behind `handle` to be a decimal
/// integer that fits `u32`.
pub fn wave_expect_u32<T: TokenizedRead>(bridge: &mut Bridge<T>, handle: usize) -> (r: Result<
    u32,
    Failure,
>)
    ensures
        final(bridge)@ == advanced(old(bridge)@, handle),
        failure_view(r) == (if live(old(bridge)@, handle) {
            value_expected::<u32>(old(bridge)@[handle as int].unwrap().upcoming)
        } else {
            Err(FailureView::Fatal(Fatal::UnknownHandle))
        }),
{
    bridge.expect_type::<u32>(handle)
}

/// Expects the next token of the reader behind `handle` to be a decimal
/// integer that fits `i64`.
pub fn wave_expect_i64<T: TokenizedRead>(bridge: &mut Bridge<T>, handle: usize) -> (r: Result<
    i64,
    Failure,
>)
    ensures
        final(bridge)@ == advanced(old(bridge)@, handle),
        failure_view(r) == (if live(old(bridge)@, handle) {
            value_expected::<i64>(old(bridge)@[handle as int].unwrap().upcoming)
        } else {
            Err(FailureView::Fatal(Fatal::UnknownHandle))
        }),
{
    bridge.expect_type::<i64>(handle)
}

/// Expects the next token of the reader behind `handle` to be a decimal
/// integer that fits `u64`.
pub fn wave_expect_u64<T: TokenizedRead>(bridge: &mut Bridge<T>, handle: usize) -> (r: Result<
    u64,
    Failure,
>)
    ensures
        final(bridge)@ == advanced(old(bridge)@, handle),
        failure_view(r) == (if live(old(bridge)@, handle) {
            value_expected::<u64>(old(bridge)@[handle as int].unwrap().upcoming)
        } else {
            Err(FailureView::Fatal(Fatal::UnknownHandle))
        }),
{
    bridge.expect_type::<u64>(handle)
}

/// Expects the next token of the reader behind `handle` to be the text
/// `expected`, without regard to the case of ASCII letters unless
/// `ignore_case` is 0.
pub fn wave_expect_token<T: TokenizedRead>(
    bridge: &mut Bridge<T>,
    handle: usize,
    expected: &str,
    ignore_case: i32,
) -> (r: Result<(), Failure>)
    ensures
        final(bridge)@ == advanced(old(bridge)@, handle),
        failure_view(r) == without_value(
            if live(old(bridge)@, handle) {
                token_expected(
                    old(bridge)@[handle as int].unwrap().upcoming,
                    expected@,
                    ignore_case != 0,
                )
            } else {
                Err(FailureView::Fatal(Fatal::UnknownHandle))
            },
        ),
{
    if !bridge.is_live(handle) {
        return Err(Failure::Fatal(Fatal::UnknownHandle));
    }
    let mut slot = bridge.take(handle);
    let r = slot.reader.expect_token(expected, ignore_case != 0);
    bridge.put(handle, slot);
    match r {
        Ok(_) => Ok(()),
        Err(failure) => Err(failure),
    }
}

/// Expects the next token of the reader behind `handle` to be the signed
/// integer `expected`.
pub fn wave_expect_signed<T: TokenizedRead>(bridge: &mut Bridge<T>, handle: usize, expected: i64) -> (r:
    Result<i64, Failure>)
    ensures
        final(bridge)@ == advanced(old(bridge)@, handle),
        failure_view(r) == (if live(old(bridge)@, handle) {
            equal_expected::<i64>(old(bridge)@[handle as int].unwrap().upcoming, expected)
        } else {
            Err(FailureView::Fatal(Fatal::UnknownHandle))
        }),
{
    bridge.expect_eq::<i64>(handle, &expected)
}

/// Expects the next token of the reader behind `handle` to be the unsigned
/// integer `expected`.
pub fn wave_expect_unsigned<T: TokenizedRead>(bridge: &mut Bridge<T>, handle: usize, expected: u64) -> (r:
    Result<u64, Failure>)
    ensures
        final(bridge)@ == advanced(old(bridge)@, handle),
        failure_view(r) == (if live(old(bridge)@, handle) {
            equal_expected::<u64>(old(bridge)@[handle as int].unwrap().upcoming, expected)
        } else {
            Err(FailureView::Fatal(Fatal::UnknownHandle))
        }),
{
    bridge.expect_eq::<u64>(handle, &expected)
}

/// Expects that the reader behind `handle` has no token left.
pub fn wave_expect_eof<T: TokenizedRead>(bridge: &mut Bridge<T>, handle: usize) -> (r: Result<
    (),
    Failure,
>)
    ensures
        final(bridge)@ == advanced(old(bridge)@, handle),
        failure_view(r) == (if live(old(bridge)@, handle) {
            eof_expected(old(bridge)@[handle as int].unwrap().upcoming)
        } else {
            Err(FailureView::Fatal(Fatal::UnknownHandle))
        }),
{
    if !bridge.is_live(handle) {
        return Err(Failure::Fatal(Fatal::UnknownHandle));
    }
    let mut slot = bridge.take(handle);
    let r = slot.reader.expect_eof();
    bridge.put(handle, slot);
    r
}

/// The accepted verdict without a message.
pub fn wave_accept() -> (verdict: Verdict)
    ensures
        verdict@ == VerdictView::Accepted(None),
{
    accept(None)
}

/// The accepted verdict with a message.
pub fn wave_accept_msg(msg: &str) -> (verdict: Verdict)
    ensures
        verdict@ == VerdictView::Accepted(Some(msg@)),
{
    accept(Some(msg))
}

/// The rejected verdict with its reason.
pub fn wave_reject(msg: &str) -> (verdict: Verdict)
    ensures
        verdict@ == VerdictView::Rejected(msg@),
{
    reject(msg)
}

} // verus!
