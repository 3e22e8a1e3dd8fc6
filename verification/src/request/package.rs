//! The bounded reader of a package payload.
//!
//! The payload of an install request follows the request on the same stream
//! as length-prefixed chunks. The reader is bounded to the declared size, so
//! it never reads into the request frame that follows.

use vstd::prelude::*;

use crate::protocol_error::{IoError, IoErrorKind};
use crate::text::decimal_string;

verus! {

use crate::text::decimal;

/// The progress of a package transfer.
pub struct Transfer {
    /// The declared length of the payload.
    pub size: nat,
    /// The bytes that were not handed out yet.
    pub remaining: nat,
    /// Whether a read failed.
    pub failed: bool,
}

/// A bounded reader over a package payload.
#[derive(Debug)]
pub struct PackageReader {
    size: u64,
    remaining: u64,
    failed: bool,
}

impl View for PackageReader {
    type V = Transfer;

    closed spec fn view(&self) -> Transfer {
        Transfer { size: self.size as nat, remaining: self.remaining as nat, failed: self.failed }
    }
}

/// What a reader does next.
#[derive(Clone, Debug, Eq, PartialEq)]
pub enum NextChunk {
    /// The transfer failed before: nothing is read any more.
    Failed(IoError),
    /// The whole payload was handed out.
    Complete,
    /// The next chunk is to be read from the stream.
    Read,
}

/// The transfer before its first chunk.
pub open spec fn fresh_transfer(size: nat) -> Transfer {
    Transfer { size, remaining: size, failed: false }
}

/// Whether the transfer reads from the stream.
pub open spec fn wants_chunk(t: Transfer) -> bool {
    !t.failed && t.remaining > 0
}

/// Whether the transfer is over with all of its bytes handed out.
pub open spec fn is_complete(t: Transfer) -> bool {
    !t.failed && t.remaining == 0
}

/// The transfer after a chunk of `len` bytes came in.
pub open spec fn after_chunk(t: Transfer, len: nat) -> Transfer {
    if len > t.remaining {
        Transfer { failed: true, ..t }
    } else {
        Transfer { remaining: (t.remaining - len) as nat, ..t }
    }
}

/// The text of an overrun.
pub open spec fn overrun_text(len: nat, remaining: nat) -> Seq<char> {
    "package chunk of "@ + decimal(len) + " bytes overruns the "@ + decimal(remaining)
        + " bytes still expected"@
}

/// Reports a payload that stopped short as an end of file, with the text of
/// the cause kept.
pub fn truncated_payload(e: IoError) -> (r: IoError)
    ensures
        e.kind == IoErrorKind::UnexpectedEof ==> r == e,
        e.kind != IoErrorKind::UnexpectedEof ==> r == (IoError {
            kind: IoErrorKind::UnexpectedEof,
            message: e.message,
            class: None,
        }),
{
    if e.kind == IoErrorKind::UnexpectedEof {
        e
    } else {
        IoError::new(IoErrorKind::UnexpectedEof, e.message)
    }
}

impl PackageReader {
    #[verifier::type_invariant]
    spec fn inv(self) -> bool {
        self.remaining <= self.size
    }

    /// Creates a reader for a payload of `size` bytes.
    pub fn new(size: u64) -> (reader: Self)
        ensures
            reader@ == fresh_transfer(size as nat),
    {
        PackageReader { size, remaining: size, failed: false }
    }

    /// Returns the declared length of the payload.
    #[must_use]
    pub fn size(&self) -> (n: u64)
        ensures
            n == self@.size,
    {
        self.size
    }

    /// Returns the number of bytes that were not handed out yet.
    #[must_use]
    pub fn remaining(&self) -> (n: u64)
        ensures
            n == self@.remaining,
            n <= self@.size,
    {
        proof {
            use_type_invariant(self);
        }
        self.remaining
    }

    /// Returns what is to be done next. Only `Read` touches the stream.
    pub fn next_chunk(&self) -> (next: NextChunk)
        ensures
            next is Read <==> wants_chunk(self@),
            next is Complete <==> is_complete(self@),
            next matches NextChunk::Failed(e) ==> e.kind == IoErrorKind::InvalidData
                && e.message@ == "the package transfer already failed"@ && e.class is None,
    {
        if self.failed {
            return NextChunk::Failed(
                IoError::new(
                    IoErrorKind::InvalidData,
                    "the package transfer already failed".to_owned(),
                ),
            );
        }
        if self.remaining == 0 {
            NextChunk::Complete
        } else {
            NextChunk::Read
        }
    }

    /// Accounts for a chunk that was read from the stream and hands it out.
    ///
    /// A read that failed, and a chunk that would carry the transfer past
    /// its declared size, end the transfer.
    pub fn read_chunk(&mut self, received: Result<Vec<u8>, IoError>) -> (r: Result<
        Vec<u8>,
        IoError,
    >)
        ensures
            match received {
                Err(cause) => {
                    &&& final(self)@ == (Transfer { failed: true, ..old(self)@ })
                    &&& r matches Err(e)
                    &&& e.kind == IoErrorKind::UnexpectedEof
                    &&& e.message == cause.message
                    &&& cause.kind == IoErrorKind::UnexpectedEof ==> e == cause
                    &&& cause.kind != IoErrorKind::UnexpectedEof ==> e.class is None
                },
                Ok(chunk) => {
                    &&& final(self)@ == after_chunk(old(self)@, chunk@.len())
                    &&& chunk@.len() <= old(self)@.remaining ==> r == Ok::<Vec<u8>, IoError>(chunk)
                    &&& chunk@.len() > old(self)@.remaining ==> {
                        &&& r matches Err(e)
                        &&& e.kind == IoErrorKind::InvalidData
                        &&& e.message@ == overrun_text(chunk@.len(), old(self)@.remaining)
                        &&& e.class is None
                    }
                },
            },
    {
        proof {
            use_type_invariant(&*self);
        }
        match received {
            Err(cause) => {
                self.failed = true;
                Err(truncated_payload(cause))
            },
            Ok(chunk) => {
                let len: u64 = chunk.len() as u64;
                if len > self.remaining {
                    self.failed = true;
                    let mut message: String = "package chunk of ".to_owned();
                    message.append(decimal_string(len).as_str());
                    message.append(" bytes overruns the ");
                    message.append(decimal_string(self.remaining).as_str());
                    message.append(" bytes still expected");
                    return Err(IoError::new(IoErrorKind::InvalidData, message));
                }
                self.remaining = self.remaining - len;
                Ok(chunk)
            },
        }
    }
}

/// The transfer after the stream delivered chunks of the given lengths. A
/// transfer that is over leaves the stream alone.
pub open spec fn received(t: Transfer, lens: Seq<nat>) -> Transfer
    decreases lens.len(),
{
    if lens.len() == 0 {
        t
    } else {
        let before = received(t, lens.drop_last());
        if wants_chunk(before) {
            after_chunk(before, lens.last())
        } else {
            before
        }
    }
}

/// The sum of some lengths.
pub open spec fn total(lens: Seq<nat>) -> nat
    decreases lens.len(),
{
    if lens.len() == 0 {
        0
    } else {
        total(lens.drop_last()) + lens.last()
    }
}

/// A transfer that has not failed accounts for every byte of the chunks it
/// read: what was handed out and what remains add up to the declared size.
/// The chunking does not matter, and the reader never takes a byte beyond
/// the size.
pub proof fn transfer_accounts_for_every_byte(size: nat, lens: Seq<nat>)
    requires
        forall|k: int|
            0 <= k < lens.len() ==> wants_chunk(
                received(fresh_transfer(size), #[trigger] lens.take(k)),
            ),
    ensures
        ({
            let t = received(fresh_transfer(size), lens);
            &&& t.size == size
            &&& t.remaining <= size
            &&& !t.failed <==> total(lens) <= size
            &&& !t.failed ==> total(lens) + t.remaining == size
        }),
    decreases lens.len(),
{
    if lens.len() > 0 {
        let init = lens.drop_last();
        assert forall|k: int| 0 <= k < init.len() implies wants_chunk(
            received(fresh_transfer(size), #[trigger] init.take(k)),
        ) by {
            assert(init.take(k) =~= lens.take(k));
        }
        transfer_accounts_for_every_byte(size, init);
        assert(lens.take(lens.len() - 1) =~= init);
    }
}

/// Chunks that add up to the declared size complete the transfer, however
/// the sender cut them, as long as none of them is empty; and the last of
/// them is needed: before it the reader still wants a chunk.
pub proof fn exact_payload_completes(size: nat, lens: Seq<nat>)
    requires
        total(lens) == size,
        forall|i: int| 0 <= i < lens.len() ==> #[trigger] lens[i] > 0,
    ensures
        is_complete(received(fresh_transfer(size), lens)),
        forall|k: int|
            0 <= k < lens.len() ==> wants_chunk(
                received(fresh_transfer(size), #[trigger] lens.take(k)),
            ),
{
    assert forall|k: int| 0 <= k <= lens.len() implies ({
        let t = received(fresh_transfer(size), #[trigger] lens.take(k));
        &&& !t.failed
        &&& t.remaining == size - total(lens.take(k))
        &&& k < lens.len() ==> t.remaining > 0
    }) by {
        lemma_partial(size, lens, k);
    }
    assert(lens.take(lens.len() as int) =~= lens);
}

proof fn lemma_partial(size: nat, lens: Seq<nat>, k: int)
    requires
        total(lens) == size,
        forall|i: int| 0 <= i < lens.len() ==> #[trigger] lens[i] > 0,
        0 <= k <= lens.len(),
    ensures
        ({
            let t = received(fresh_transfer(size), lens.take(k));
            &&& !t.failed
            &&& t.remaining == size - total(lens.take(k))
            &&& k < lens.len() ==> t.remaining > 0
        }),
    decreases k,
{
    lemma_total_grows(lens, k);
    if k > 0 {
        lemma_partial(size, lens, k - 1);
        assert(lens.take(k).drop_last() =~= lens.take(k - 1));
    }
}

proof fn lemma_total_grows(lens: Seq<nat>, k: int)
    requires
        0 <= k <= lens.len(),
        forall|i: int| 0 <= i < lens.len() ==> #[trigger] lens[i] > 0,
    ensures
        total(lens.take(k)) <= total(lens),
        k < lens.len() ==> total(lens.take(k)) < total(lens),
    decreases lens.len() - k,
{
    if k == lens.len() {
        assert(lens.take(k) =~= lens);
    } else {
        lemma_total_grows(lens, k + 1);
        assert(lens.take(k + 1).drop_last() =~= lens.take(k));
        assert(lens.take(k + 1).last() == lens[k]);
    }
}

/// A transfer that failed stays failed, and one that is complete stays
/// complete: neither reads another chunk.
pub proof fn finished_transfer_reads_nothing(t: Transfer, lens: Seq<nat>)
    requires
        !wants_chunk(t),
    ensures
        received(t, lens) == t,
    decreases lens.len(),
{
    if lens.len() > 0 {
        finished_transfer_reads_nothing(t, lens.drop_last());
    }
}

/// A reader starts with all the bytes of its payload still to hand out.
pub proof fn reader_starts_with_the_whole_payload(
    size: u64,
    reader: PackageReader,
    declared: u64,
    remaining: u64,
    next: NextChunk,
)
    requires
        call_ensures(PackageReader::new, (size,), reader),
        call_ensures(PackageReader::size, (&reader,), declared),
        call_ensures(PackageReader::remaining, (&reader,), remaining),
        call_ensures(PackageReader::next_chunk, (&reader,), next),
    ensures
        declared == size,
        remaining == size,
        size > 0 ==> next is Read,
        size == 0 ==> next is Complete,
{
}

/// A reader touches the stream exactly as long as no read failed and bytes
/// are left. After a failure it fails again, and never reports the end of the
/// payload.
pub proof fn reader_reads_up_to_its_end(reader: PackageReader, remaining: u64, next: NextChunk)
    requires
        call_ensures(PackageReader::remaining, (&reader,), remaining),
        call_ensures(PackageReader::next_chunk, (&reader,), next),
    ensures
        reader@.failed ==> next is Failed,
        !reader@.failed && remaining > 0 ==> next is Read,
        !reader@.failed && remaining == 0 ==> next is Complete,
        next matches NextChunk::Failed(e) ==> e.kind is InvalidData && e.message@
            == "the package transfer already failed"@ && e.class is None,
        remaining <= reader@.size,
{
}

/// A chunk that fits is handed out as it came, and its bytes are taken off
/// what remains. A chunk that does not fit is not handed out: the read fails,
/// and so does every later one.
pub proof fn chunks_are_handed_out_unchanged(
    reader: &mut PackageReader,
    chunk: Vec<u8>,
    r: Result<Vec<u8>, IoError>,
)
    requires
        call_ensures(PackageReader::read_chunk, (reader, Ok(chunk)), r),
    ensures
        final(reader)@.size == old(reader)@.size,
        chunk@.len() <= old(reader)@.remaining ==> {
            &&& r == Ok::<Vec<u8>, IoError>(chunk)
            &&& final(reader)@.remaining + chunk@.len() == old(reader)@.remaining
            &&& final(reader)@.failed == old(reader)@.failed
        },
        chunk@.len() > old(reader)@.remaining ==> {
            &&& r matches Err(e)
            &&& e.kind is InvalidData
            &&& e.class is None
            &&& e.message@ == "package chunk of "@ + decimal(chunk@.len())
                + " bytes overruns the "@ + decimal(old(reader)@.remaining)
                + " bytes still expected"@
            &&& final(reader)@.failed
            &&& final(reader)@.remaining == old(reader)@.remaining
        },
{
}

/// A read that failed is reported as a payload that ended early, with the
/// message of the cause, and every later read fails too.
pub proof fn failed_reads_are_reported(
    reader: &mut PackageReader,
    cause: IoError,
    r: Result<Vec<u8>, IoError>,
    reported: IoError,
)
    requires
        call_ensures(PackageReader::read_chunk, (reader, Err(cause)), r),
        call_ensures(truncated_payload, (cause,), reported),
    ensures
        r == Err::<Vec<u8>, IoError>(reported),
        reported.kind is UnexpectedEof,
        reported.message == cause.message,
        cause.kind is UnexpectedEof ==> reported == cause,
        !(cause.kind is UnexpectedEof) ==> reported.class is None,
        final(reader)@.failed,
        final(reader)@.size == old(reader)@.size,
        final(reader)@.remaining == old(reader)@.remaining,
{
}

} // verus!
