//! Reassembly of multi-frame transfers into a contiguous payload.
//!
//! A transfer accumulates the payload bytes of the frames it is fed, either
//! in an owned growable buffer or in a caller-supplied fixed one, both held
//! as a [`managed::ManagedSlice`]. The whole step taken by
//! [`Transfer::add_frame`] is specified by the [`step`] function over a
//! mathematical model of the state.

use managed::ManagedSlice;
use vstd::prelude::*;
use vstd::slice::slice_subrange;

verus! {

#[verifier::external_type_specification]
#[verifier::external_body]
#[verifier::reject_recursive_types(T)]
pub struct ExManagedSlice<'a, T: 'a>(ManagedSlice<'a, T>);

/// The bytes a managed slice currently holds: the vector's elements for an
/// owned slice, the whole underlying slice for a borrowed one.
pub uninterp spec fn ms_bytes(s: ManagedSlice<u8>) -> Seq<u8>;

/// Whether a managed slice is the growable, owned backing (as opposed to a
/// borrowed, fixed-capacity one).
pub uninterp spec fn ms_growable(s: ManagedSlice<u8>) -> bool;

/// Relies on `managed::ManagedSlice::Owned`: a growable storage backed by
/// the given vector, holding the vector's bytes.
#[verifier::external_body]
fn ms_owned<'a>(vec: Vec<u8>) -> (r: ManagedSlice<'a, u8>)
    ensures
        ms_growable(r),
        ms_bytes(r) == vec@,
{
    ManagedSlice::Owned(vec)
}

/// Relies on `managed::ManagedSlice::Borrowed`: a fixed-capacity storage
/// backed by the given slice, holding the slice's bytes.
#[verifier::external_body]
fn ms_borrowed<'a>(buffer: &'a mut [u8]) -> (r: ManagedSlice<'a, u8>)
    ensures
        !ms_growable(r),
        ms_bytes(r) == old(buffer)@,
{
    ManagedSlice::Borrowed(buffer)
}

/// Relies on the two variants of `managed::ManagedSlice`: `Owned` holds a
/// growable vector, `Borrowed` a fixed, caller-supplied slice.
#[verifier::external_body]
fn ms_is_growable(s: &ManagedSlice<u8>) -> (r: bool)
    ensures
        r == ms_growable(*s),
{
    match s {
        ManagedSlice::Owned(_) => true,
        ManagedSlice::Borrowed(_) => false,
    }
}

/// Relies on `ManagedSlice`'s `Deref` to a slice of all the bytes it holds,
/// and on `<[u8]>::len`.
#[verifier::external_body]
fn ms_len(s: &ManagedSlice<u8>) -> (r: usize)
    ensures
        r == ms_bytes(*s).len(),
{
    s.len()
}

/// Relies on `Vec::clear`: empties an owned slice, leaves a borrowed one as
/// it is.
#[verifier::external_body]
fn ms_clear_owned(s: &mut ManagedSlice<u8>)
    ensures
        ms_growable(*final(s)) == ms_growable(*old(s)),
        ms_growable(*old(s)) ==> ms_bytes(*final(s)) == Seq::<u8>::empty(),
        !ms_growable(*old(s)) ==> ms_bytes(*final(s)) == ms_bytes(*old(s)),
{
    if let ManagedSlice::Owned(vec) = s {
        vec.clear();
    }
}

/// Relies on `Vec::extend_from_slice`: appends the given bytes to an owned
/// slice.
#[verifier::external_body]
fn ms_append(s: &mut ManagedSlice<u8>, data: &[u8])
    requires
        ms_growable(*old(s)),
    ensures
        ms_growable(*final(s)),
        ms_bytes(*final(s)) == ms_bytes(*old(s)) + data@,
{
    if let ManagedSlice::Owned(vec) = s {
        vec.extend_from_slice(data);
    }
}

/// Relies on `ManagedSlice`'s `DerefMut` to a slice and on
/// `<[u8]>::copy_from_slice`: overwrites the bytes at
/// `offset..offset + data.len()` in place, all others unchanged.
#[verifier::external_body]
fn ms_write_at(s: &mut ManagedSlice<u8>, offset: usize, data: &[u8])
    requires
        offset + data@.len() <= ms_bytes(*old(s)).len(),
    ensures
        ms_growable(*final(s)) == ms_growable(*old(s)),
        ms_bytes(*final(s)) == ms_bytes(*old(s)).subrange(0, offset as int) + data@ + ms_bytes(
            *old(s),
        ).subrange(offset + data@.len(), ms_bytes(*old(s)).len() as int),
{
    s[offset..offset + data.len()].copy_from_slice(data);
}

/// Relies on `ManagedSlice`'s `Deref` to a slice: the first `n` bytes it
/// holds.
#[verifier::external_body]
fn ms_slice_to<'s>(s: &'s ManagedSlice<u8>, n: usize) -> (r: &'s [u8])
    requires
        n <= ms_bytes(*s).len(),
    ensures
        r@ == ms_bytes(*s).subrange(0, n as int),
{
    &s[..n]
}

/// Transfer error.
#[derive(Debug, Clone, Copy, PartialEq, Eq, Structural)]
pub enum Error {
    DataLength,
    BufferTooSmall,
    FrameOrder,
    Crc,
    IdMismatch,
    Toggle,
}

/// Newtype for interpreting the tail byte of a frame.
#[derive(Debug, Clone, Copy, PartialEq, Eq, Structural)]
pub struct Tail(pub u8);

/// Bit 7 of a tail byte: this frame starts a transfer.
pub open spec fn tail_start(t: u8) -> bool {
    t & 0x80 != 0
}

/// Bit 6 of a tail byte: this frame ends a transfer.
pub open spec fn tail_end(t: u8) -> bool {
    t & 0x40 != 0
}

/// Bit 5 of a tail byte: the alternating parity bit.
pub open spec fn tail_toggle(t: u8) -> bool {
    t & 0x20 != 0
}

/// Bits 4-0 of a tail byte: the 5-bit transfer id.
pub open spec fn tail_transfer_id(t: u8) -> u8 {
    t & 0x1F
}

impl Tail {
    /// Is this frame the start of a transfer?
    pub fn start(&self) -> (r: bool)
        ensures
            r == tail_start(self.0),
    {
        self.0 & 0x80 != 0
    }

    /// Is this frame the end of a transfer?
    pub fn end(&self) -> (r: bool)
        ensures
            r == tail_end(self.0),
    {
        self.0 & 0x40 != 0
    }

    /// The toggle (parity) bit.
    pub fn toggle(&self) -> (r: bool)
        ensures
            r == tail_toggle(self.0),
    {
        self.0 & 0x20 != 0
    }

    /// The 5-bit transfer id.
    pub fn transfer_id(&self) -> (r: u8)
        ensures
            r == tail_transfer_id(self.0),
    {
        self.0 & 0x1F
    }
}

/// Mathematical model of a [`Transfer`]: the bytes its storage holds, whether
/// that storage grows on demand, the number of payload bytes written so far,
/// and the committed transfer id and toggle parity.
pub ghost struct TransferModel {
    pub bytes: Seq<u8>,
    pub growable: bool,
    pub len: nat,
    pub transfer_id: u8,
    pub toggle: bool,
}

/// Result of one reassembly step: the state after it, and what the caller is
/// handed — the completed payload, nothing yet, or an error.
pub ghost struct StepResult {
    pub state: TransferModel,
    pub outcome: Result<Option<Seq<u8>>, Error>,
}

/// Writing `payload` at offset `st.len` of the storage, and what that hands
/// back: a growable storage extends unconditionally; a fixed one refuses the
/// write, leaving the state as it is, when the payload does not fit. On
/// success the committed length grows by the payload's length, and an
/// end-marked frame hands back the first `len` stored bytes.
pub open spec fn append_step(st: TransferModel, payload: Seq<u8>, end: bool) -> StepResult {
    if st.growable {
        let st2 = TransferModel {
            bytes: st.bytes + payload,
            growable: st.growable,
            len: st.len + payload.len(),
            transfer_id: st.transfer_id,
            toggle: st.toggle,
        };
        StepResult {
            state: st2,
            outcome: Ok(
                if end {
                    Some(st2.bytes.subrange(0, st2.len as int))
                } else {
                    None
                },
            ),
        }
    } else if st.len + payload.len() > st.bytes.len() {
        StepResult { state: st, outcome: Err(Error::BufferTooSmall) }
    } else {
        let st2 = TransferModel {
            bytes: st.bytes.subrange(0, st.len as int) + payload + st.bytes.subrange(
                (st.len + payload.len()) as int,
                st.bytes.len() as int,
            ),
            growable: st.growable,
            len: st.len + payload.len(),
            transfer_id: st.transfer_id,
            toggle: st.toggle,
        };
        StepResult {
            state: st2,
            outcome: Ok(
                if end {
                    Some(st2.bytes.subrange(0, st2.len as int))
                } else {
                    None
                },
            ),
        }
    }
}

/// One full reassembly step on frame `data`, in the order the checks are
/// made: the frame must hold 1 to 8 bytes; a start frame must come first and
/// commits the transfer id and toggle; a non-start frame must not be an end
/// arriving first, must carry the committed transfer id, and must alternate
/// the toggle. The payload is the frame without its tail byte, and also
/// without the two leading transfer-CRC bytes on the first frame of a
/// multi-frame transfer; it is then appended to the storage.
pub open spec fn step(st: TransferModel, data: Seq<u8>) -> StepResult {
    if data.len() == 0 || data.len() > 8 {
        StepResult { state: st, outcome: Err(Error::DataLength) }
    } else {
        let tail = data.last();
        if tail_start(tail) && st.len != 0 {
            StepResult { state: st, outcome: Err(Error::FrameOrder) }
        } else if !tail_start(tail) && st.len == 0 && tail_end(tail) {
            StepResult { state: st, outcome: Err(Error::FrameOrder) }
        } else if !tail_start(tail) && st.transfer_id != tail_transfer_id(tail) {
            StepResult { state: st, outcome: Err(Error::IdMismatch) }
        } else if !tail_start(tail) && st.toggle == tail_toggle(tail) {
            StepResult { state: st, outcome: Err(Error::Toggle) }
        } else {
            let committed = TransferModel {
                bytes: st.bytes,
                growable: st.growable,
                len: st.len,
                transfer_id: if tail_start(tail) {
                    tail_transfer_id(tail)
                } else {
                    st.transfer_id
                },
                toggle: tail_toggle(tail),
            };
            let payload = if tail_start(tail) && !tail_end(tail) {
                data.subrange(2, data.len() - 1)
            } else {
                data.subrange(0, data.len() - 1)
            };
            append_step(committed, payload, tail_end(tail))
        }
    }
}

/// Single-frame or multi-frame payload transfer.
///
/// This implementation doesn't yet verify the checksum.
#[derive(Debug)]
pub struct Transfer<'a> {
    storage: ManagedSlice<'a, u8>,
    length: usize,
    transfer_id: u8,
    toggle: bool,
}

impl<'a> View for Transfer<'a> {
    type V = TransferModel;

    closed spec fn view(&self) -> TransferModel {
        TransferModel {
            bytes: ms_bytes(self.storage),
            growable: ms_growable(self.storage),
            len: self.length as nat,
            transfer_id: self.transfer_id,
            toggle: self.toggle,
        }
    }
}

impl<'a> Transfer<'a> {
    /// The committed length never exceeds the stored bytes, and a growable
    /// storage holds exactly the committed bytes.
    pub open spec fn wf(self) -> bool {
        self@.len <= self@.bytes.len() && (self@.growable ==> self@.len == self@.bytes.len())
    }

    /// Create a new empty transfer.
    ///
    /// An owned growable `storage` will be reset to empty.
    pub fn new(storage: ManagedSlice<'a, u8>) -> (r: Transfer<'a>)
        ensures
            r.wf(),
            r@.len == 0,
            r@.transfer_id == 0,
            r@.toggle == false,
            r@.growable == ms_growable(storage),
            ms_growable(storage) ==> r@.bytes == Seq::<u8>::empty(),
            !ms_growable(storage) ==> r@.bytes == ms_bytes(storage),
    {
        let mut storage = storage;
        ms_clear_owned(&mut storage);

        Transfer { storage, length: 0, transfer_id: 0, toggle: false }
    }

    /// Create a new empty transfer backed by a growable buffer.
    pub fn new_growable(vec: Vec<u8>) -> (r: Transfer<'a>)
        ensures
            r.wf(),
            r@.len == 0,
            r@.transfer_id == 0,
            r@.toggle == false,
            r@.growable,
            r@.bytes == Seq::<u8>::empty(),
    {
        Transfer::new(ms_owned(vec))
    }

    /// Create a new empty transfer backed by a caller-supplied fixed-capacity
    /// buffer.
    pub fn new_fixed(buffer: &'a mut [u8]) -> (r: Transfer<'a>)
        ensures
            r.wf(),
            r@.len == 0,
            r@.transfer_id == 0,
            r@.toggle == false,
            !r@.growable,
            r@.bytes == old(buffer)@,
    {
        Transfer::new(ms_borrowed(buffer))
    }

    /// Feed data frames to the ongoing transfer.
    ///
    /// If the frame is accepted `Ok(None)` will be returned, or
    /// `Ok(Some(&[u8]))` with the inner data if the frame was marked as the
    /// end of the transfer.
    ///
    /// If an [`Error`] is returned, the transfer should probably be
    /// abandoned.
    pub fn add_frame(&mut self, data: &[u8]) -> (r: Result<Option<&[u8]>, Error>)
        requires
            old(self).wf(),
            // a start frame of a genuinely multi-frame transfer must hold the
            // two transfer-CRC bytes and the tail byte
            !(1 <= data@.len() <= 2 && tail_start(data@.last()) && !tail_end(data@.last())
                && old(self)@.len == 0),
        ensures
            final(self).wf(),
            final(self)@ == step(old(self)@, data@).state,
            (match (r, step(old(self)@, data@).outcome) {
                (Ok(Some(p)), Ok(Some(q))) => p@ == q,
                (Ok(None), Ok(None)) => true,
                (Err(e1), Err(e2)) => e1 == e2,
                _ => false,
            }),
    {
        if data.len() > 8 {
            return Err(Error::DataLength);
        }

        let tail = match data.last() {
            Some(d) => Tail(*d),
            None => {
                return Err(Error::DataLength);
            },
        };

        if tail.start() && self.length != 0 {
            // this is not the first frame of the transfer
            return Err(Error::FrameOrder);
        }

        if tail.start() {
            self.transfer_id = tail.transfer_id();
            self.toggle = tail.toggle();
        } else {
            // we cannot start with an end frame
            if self.length == 0 && tail.end() {
                return Err(Error::FrameOrder);
            }

            if self.transfer_id != tail.transfer_id() {
                return Err(Error::IdMismatch);
            }

            if self.toggle == tail.toggle() {
                return Err(Error::Toggle);
            }
            self.toggle = tail.toggle();
        }

        let inner_data = if tail.start() && !tail.end() {
            // multi-frame transfers start with two transfer-CRC bytes
            slice_subrange(data, 2, data.len() - 1)
        } else {
            slice_subrange(data, 0, data.len() - 1)
        };

        if ms_is_growable(&self.storage) {
            ms_append(&mut self.storage, inner_data);
            self.length = ms_len(&self.storage);
        } else {
            let capacity = ms_len(&self.storage);
            if inner_data.len() > capacity - self.length {
                return Err(Error::BufferTooSmall);
            }
            ms_write_at(&mut self.storage, self.length, inner_data);
            self.length = self.length + inner_data.len();
        }

        if tail.end() {
            Ok(Some(ms_slice_to(&self.storage, self.length)))
        } else {
            Ok(None)
        }
    }
}

/// An end-marked frame that does not also carry the start mark, fed as the
/// very first frame of a transfer, is refused as out of order, and the state
/// is left unchanged.
pub proof fn lemma_end_frame_cannot_come_first(st: TransferModel, data: Seq<u8>)
    requires
        st.len == 0,
        1 <= data.len() <= 8,
        !tail_start(data.last()),
        tail_end(data.last()),
    ensures
        step(st, data).outcome == Err::<Option<Seq<u8>>, Error>(Error::FrameOrder),
        step(st, data).state == st,
{
}

/// A start-marked frame fed while a transfer is already accumulating is
/// refused as out of order, and the state is left unchanged.
pub proof fn lemma_start_frame_cannot_come_again(st: TransferModel, data: Seq<u8>)
    requires
        st.len != 0,
        1 <= data.len() <= 8,
        tail_start(data.last()),
    ensures
        step(st, data).outcome == Err::<Option<Seq<u8>>, Error>(Error::FrameOrder),
        step(st, data).state == st,
{
}

/// A continuation frame whose transfer id differs from the committed one is
/// refused, and the state is left unchanged.
pub proof fn lemma_id_mismatch_is_refused(st: TransferModel, data: Seq<u8>)
    requires
        1 <= data.len() <= 8,
        !tail_start(data.last()),
        !(st.len == 0 && tail_end(data.last())),
        tail_transfer_id(data.last()) != st.transfer_id,
    ensures
        step(st, data).outcome == Err::<Option<Seq<u8>>, Error>(Error::IdMismatch),
        step(st, data).state == st,
{
}

/// A continuation frame whose toggle bit repeats the committed parity
/// instead of alternating it is refused, and the state is left unchanged.
pub proof fn lemma_toggle_must_alternate(st: TransferModel, data: Seq<u8>)
    requires
        1 <= data.len() <= 8,
        !tail_start(data.last()),
        !(st.len == 0 && tail_end(data.last())),
        tail_transfer_id(data.last()) == st.transfer_id,
        tail_toggle(data.last()) == st.toggle,
    ensures
        step(st, data).outcome == Err::<Option<Seq<u8>>, Error>(Error::Toggle),
        step(st, data).state == st,
{
}

} // verus!
