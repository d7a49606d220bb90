//! The multipart upload engine: a synchronous state machine that buffers an
//! incoming byte stream into minimum-size parts, assigns part indices in write
//! order, admits at most a bounded number of concurrent part uploads, records
//! backend-issued part identifiers one slot per index, and assembles the
//! ordered completion list.
//!
//! The engine performs no I/O. An asynchronous driver feeds it write calls,
//! dispatches the parts it carves off, and reports each upload's outcome back
//! through [`MultipartWriter::part_uploaded`] or
//! [`MultipartWriter::record_failure`].

use vstd::prelude::*;
use crate::Error;

verus! {

/// Opaque backend-issued token standing in for one uploaded part during
/// completion. Valid only for the `(object, index)` pair it was issued for.
pub struct PartId {
    pub content_id: String,
}

/// One carved part: a 0-based, order-significant index and the bytes to
/// upload under that index.
pub struct Part {
    pub index: usize,
    pub bytes: Vec<u8>,
}

/// What one write call did to the engine.
pub enum WriteOutcome {
    /// The bytes were appended to the accumulation buffer; nothing to upload.
    Buffered,
    /// The accumulated bytes reached the minimum part size: the whole
    /// accumulation was carved off as this part, which the driver must now
    /// upload under the part's index.
    Dispatched(Part),
    /// The bytes would have carved a part, but the concurrency budget is
    /// exhausted. The engine is unchanged and the bytes are handed back; the
    /// driver must wait for an in-flight upload to finish and retry.
    Blocked(Vec<u8>),
}

/// Concatenation of byte sequences in order.
pub open spec fn concat_all(parts: Seq<Seq<u8>>) -> Seq<u8>
    decreases parts.len(),
{
    if parts.len() == 0 {
        Seq::empty()
    } else {
        concat_all(parts.drop_last()) + parts.last()
    }
}

/// How many slots already hold a part identifier.
pub open spec fn count_filled(slots: Seq<Option<PartId>>) -> int
    decreases slots.len(),
{
    if slots.len() == 0 {
        0
    } else {
        count_filled(slots.drop_last()) + if slots.last() is Some {
            1int
        } else {
            0int
        }
    }
}

proof fn lemma_count_filled_bounds(slots: Seq<Option<PartId>>)
    ensures
        0 <= count_filled(slots) <= slots.len(),
    decreases slots.len(),
{
    if slots.len() > 0 {
        lemma_count_filled_bounds(slots.drop_last());
    }
}

proof fn lemma_count_filled_push_none(slots: Seq<Option<PartId>>)
    ensures
        count_filled(slots.push(None)) == count_filled(slots),
{
    assert(slots.push(None).drop_last() =~= slots);
    assert(slots.push(None).last() is None);
}

proof fn lemma_count_filled_update(slots: Seq<Option<PartId>>, i: int, id: PartId)
    requires
        0 <= i < slots.len(),
        slots[i] is None,
    ensures
        count_filled(slots.update(i, Some(id))) == count_filled(slots) + 1,
    decreases slots.len(),
{
    let updated = slots.update(i, Some(id));
    if i == slots.len() - 1 {
        assert(updated.drop_last() =~= slots.drop_last());
        assert(updated.last() == Some(id));
        assert(slots.last() is None);
    } else {
        assert(updated.drop_last() =~= slots.drop_last().update(i, Some(id)));
        assert(updated.last() == slots.last());
        lemma_count_filled_update(slots.drop_last(), i, id);
    }
}

proof fn lemma_count_filled_full(slots: Seq<Option<PartId>>)
    requires
        count_filled(slots) == slots.len(),
    ensures
        forall|i: int| 0 <= i < slots.len() ==> slots[i] is Some,
    decreases slots.len(),
{
    if slots.len() > 0 {
        lemma_count_filled_bounds(slots.drop_last());
        assert(slots.last() is Some);
        lemma_count_filled_full(slots.drop_last());
        assert forall|i: int| 0 <= i < slots.len() implies slots[i] is Some by {
            if i < slots.len() - 1 {
                assert(slots.drop_last()[i] is Some);
            }
        }
    }
}

proof fn lemma_concat_all_push(parts: Seq<Seq<u8>>, tail: Seq<u8>)
    ensures
        concat_all(parts.push(tail)) == concat_all(parts) + tail,
{
    assert(parts.push(tail).drop_last() =~= parts);
    assert(parts.push(tail).last() == tail);
}

/// The streaming engine. It owns the accumulation buffer and the index
/// counter exclusively; the slot table is the only state that concurrent
/// upload completions touch, and each slot is written at most once.
pub struct MultipartWriter {
    /// Every part except the final one has at least this many bytes.
    pub min_part_size: usize,
    /// At most this many part uploads may be in flight at once.
    pub max_concurrency: usize,
    /// Bytes accepted but not yet carved into a part.
    pub buffer: Vec<u8>,
    /// The index the next carved part will get; indices are assigned
    /// monotonically from 0, in write order, before any upload is dispatched.
    pub next_index: usize,
    /// How many part uploads have been acknowledged.
    pub completed: usize,
    /// One slot per carved part, written at most once with the identifier
    /// the backend issued for that index.
    pub slots: Vec<Option<PartId>>,
    /// Whether the stream was closed; no part is carved afterwards.
    pub closed: bool,
    /// The first upload failure observed, if any. Once set, completion is
    /// forever impossible; later failures are not aggregated.
    pub first_error: Option<Error>,
    /// The bytes of every carved part, by index.
    pub history: Ghost<Seq<Seq<u8>>>,
}

impl MultipartWriter {
    /// The bytes of the carved parts, in index order.
    pub open spec fn parts(self) -> Seq<Seq<u8>> {
        self.history@
    }

    /// Everything accepted so far: carved parts in index order, then the
    /// accumulation buffer.
    pub open spec fn written(self) -> Seq<u8> {
        concat_all(self.history@) + self.buffer@
    }

    /// Parts carved but not yet acknowledged.
    pub open spec fn in_flight(self) -> int {
        self.next_index - self.completed
    }

    pub open spec fn wf(self) -> bool {
        &&& self.min_part_size >= 1
        &&& self.max_concurrency >= 1
        &&& self.slots@.len() == self.next_index
        &&& self.history@.len() == self.next_index
        &&& self.completed == count_filled(self.slots@)
        &&& self.completed <= self.next_index
        &&& self.in_flight() <= self.max_concurrency
        &&& forall|i: int|
            0 <= i && i + 1 < self.history@.len() ==> self.history@[i].len()
                >= self.min_part_size
        &&& !self.closed ==> forall|i: int|
            0 <= i < self.history@.len() ==> self.history@[i].len() >= self.min_part_size
        &&& self.closed ==> self.buffer@.len() == 0
    }

    /// The stream is closed, nothing failed, and every part upload was
    /// acknowledged: the object may be committed.
    pub open spec fn is_complete(self) -> bool {
        self.closed && self.first_error is None && self.completed == self.next_index
    }

    pub fn new(min_part_size: usize, max_concurrency: usize) -> (w: MultipartWriter)
        requires
            min_part_size >= 1,
            max_concurrency >= 1,
        ensures
            w.wf(),
            w.min_part_size == min_part_size,
            w.max_concurrency == max_concurrency,
            w.written() == Seq::<u8>::empty(),
            w.parts() == Seq::<Seq<u8>>::empty(),
            w.next_index == 0,
            w.completed == 0,
            !w.closed,
            w.first_error is None,
    {
        let w = MultipartWriter {
            min_part_size,
            max_concurrency,
            buffer: Vec::new(),
            next_index: 0,
            completed: 0,
            slots: Vec::new(),
            closed: false,
            first_error: None,
            history: Ghost(Seq::empty()),
        };
        proof {
            assert(w.written() =~= Seq::<u8>::empty());
        }
        w
    }

    /// Accept one write call. The bytes join the accumulation buffer; once
    /// the accumulation reaches the minimum part size, the whole of it is
    /// carved off as one part — provided the concurrency budget admits
    /// another upload, otherwise the call reports `Blocked` and changes
    /// nothing.
    pub fn write(&mut self, data: Vec<u8>) -> (r: WriteOutcome)
        requires
            old(self).wf(),
            !old(self).closed,
            old(self).buffer@.len() + data@.len() <= usize::MAX,
            old(self).next_index < usize::MAX,
        ensures
            final(self).wf(),
            !final(self).closed,
            final(self).min_part_size == old(self).min_part_size,
            final(self).max_concurrency == old(self).max_concurrency,
            final(self).first_error == old(self).first_error,
            final(self).completed == old(self).completed,
            match r {
                WriteOutcome::Blocked(returned) => {
                    &&& *final(self) == *old(self)
                    &&& returned@ == data@
                    &&& old(self).buffer@.len() + data@.len() >= old(self).min_part_size
                    &&& old(self).in_flight() == old(self).max_concurrency
                },
                WriteOutcome::Buffered => {
                    &&& final(self).written() == old(self).written() + data@
                    &&& final(self).parts() == old(self).parts()
                    &&& final(self).next_index == old(self).next_index
                    &&& final(self).slots@ == old(self).slots@
                    &&& old(self).buffer@.len() + data@.len() < old(self).min_part_size
                },
                WriteOutcome::Dispatched(p) => {
                    &&& final(self).written() == old(self).written() + data@
                    &&& p.index == old(self).next_index
                    &&& p.bytes@ == old(self).buffer@ + data@
                    &&& p.bytes@.len() >= old(self).min_part_size
                    &&& old(self).in_flight() < old(self).max_concurrency
                    &&& final(self).next_index == old(self).next_index + 1
                    &&& final(self).parts() == old(self).parts().push(p.bytes@)
                    &&& final(self).slots@ == old(self).slots@.push(None::<PartId>)
                    &&& final(self).buffer@.len() == 0
                },
            },
    {
        let ghost given = data@;
        let mut data = data;
        if self.buffer.len() + data.len() >= self.min_part_size {
            if self.next_index - self.completed < self.max_concurrency {
                self.buffer.append(&mut data);
                let mut carved: Vec<u8> = Vec::new();
                core::mem::swap(&mut carved, &mut self.buffer);
                let index = self.next_index;
                self.next_index = self.next_index + 1;
                self.slots.push(None);
                proof {
                    lemma_count_filled_push_none(old(self).slots@);
                }
                self.history = Ghost(self.history@.push(carved@));
                proof {
                    lemma_concat_all_push(old(self).history@, carved@);
                    assert(self.written() =~= old(self).written() + given);
                }
                WriteOutcome::Dispatched(Part { index, bytes: carved })
            } else {
                WriteOutcome::Blocked(data)
            }
        } else {
            self.buffer.append(&mut data);
            proof {
                assert(self.written() =~= old(self).written() + given);
            }
            WriteOutcome::Buffered
        }
    }

    /// Record the identifier the backend issued for the part at `index`.
    /// Each slot is written at most once; completion order of concurrent
    /// uploads does not matter, the slot table keeps index order.
    pub fn part_uploaded(&mut self, index: usize, id: PartId)
        requires
            old(self).wf(),
            index < old(self).slots@.len(),
            old(self).slots@[index as int] is None,
        ensures
            final(self).wf(),
            final(self).slots@ == old(self).slots@.update(index as int, Some(id)),
            final(self).completed == old(self).completed + 1,
            final(self).in_flight() == old(self).in_flight() - 1,
            final(self).parts() == old(self).parts(),
            final(self).written() == old(self).written(),
            final(self).buffer@ == old(self).buffer@,
            final(self).next_index == old(self).next_index,
            final(self).closed == old(self).closed,
            final(self).first_error == old(self).first_error,
            final(self).min_part_size == old(self).min_part_size,
            final(self).max_concurrency == old(self).max_concurrency,
    {
        proof {
            lemma_count_filled_update(self.slots@, index as int, id);
            lemma_count_filled_bounds(self.slots@.update(index as int, Some(id)));
        }
        self.slots[index] = Some(id);
        self.completed = self.completed + 1;
    }

    /// Record that some part upload failed. The first failure is kept and
    /// propagated; later ones are dropped, not aggregated. A writer with a
    /// recorded failure can never complete.
    pub fn record_failure(&mut self, err: Error)
        ensures
            final(self).first_error is Some,
            old(self).first_error is Some ==> final(self).first_error == old(
                self,
            ).first_error,
            old(self).first_error is None ==> final(self).first_error == Some(err),
            final(self).buffer@ == old(self).buffer@,
            final(self).slots@ == old(self).slots@,
            final(self).parts() == old(self).parts(),
            final(self).written() == old(self).written(),
            final(self).next_index == old(self).next_index,
            final(self).completed == old(self).completed,
            final(self).closed == old(self).closed,
            final(self).min_part_size == old(self).min_part_size,
            final(self).max_concurrency == old(self).max_concurrency,
            old(self).wf() ==> final(self).wf(),
    {
        if self.first_error.is_none() {
            self.first_error = Some(err);
        }
    }

    /// Close the stream: the remaining buffered bytes become the final part,
    /// exempt from the minimum size. When nothing is buffered and at least
    /// one part was already carved, no further part is needed; a stream that
    /// never carved anything still emits one (possibly empty) final part, so
    /// that a zero-byte object can be committed.
    pub fn close(&mut self) -> (r: Option<Part>)
        requires
            old(self).wf(),
            !old(self).closed,
            old(self).next_index < usize::MAX,
            (old(self).buffer@.len() > 0 || old(self).next_index == 0) ==> old(self).in_flight()
                < old(self).max_concurrency,
        ensures
            final(self).wf(),
            final(self).closed,
            final(self).buffer@.len() == 0,
            final(self).written() == old(self).written(),
            final(self).first_error == old(self).first_error,
            final(self).completed == old(self).completed,
            final(self).min_part_size == old(self).min_part_size,
            final(self).max_concurrency == old(self).max_concurrency,
            (old(self).buffer@.len() > 0 || old(self).next_index == 0) <==> r is Some,
            match r {
                Some(p) => {
                    &&& p.index == old(self).next_index
                    &&& p.bytes@ == old(self).buffer@
                    &&& final(self).next_index == old(self).next_index + 1
                    &&& final(self).parts() == old(self).parts().push(p.bytes@)
                    &&& final(self).slots@ == old(self).slots@.push(None::<PartId>)
                },
                None => {
                    &&& final(self).next_index == old(self).next_index
                    &&& final(self).parts() == old(self).parts()
                    &&& final(self).slots@ == old(self).slots@
                },
            },
    {
        if self.buffer.len() > 0 || self.next_index == 0 {
            let mut carved: Vec<u8> = Vec::new();
            core::mem::swap(&mut carved, &mut self.buffer);
            let index = self.next_index;
            self.next_index = self.next_index + 1;
            self.slots.push(None);
            proof {
                lemma_count_filled_push_none(old(self).slots@);
            }
            self.history = Ghost(self.history@.push(carved@));
            self.closed = true;
            proof {
                lemma_concat_all_push(old(self).history@, carved@);
                assert(self.written() =~= old(self).written());
            }
            Some(Part { index, bytes: carved })
        } else {
            self.closed = true;
            None
        }
    }

    /// Whether the object may be committed now: exactly [`Self::is_complete`].
    pub fn can_complete(&self) -> (r: bool)
        ensures
            r == self.is_complete(),
    {
        self.closed && self.first_error.is_none() && self.completed == self.next_index
    }

    /// Finish the upload: hand out the completion list, the recorded part
    /// identifiers sorted by index ascending with no duplicates or gaps —
    /// whatever order the uploads were acknowledged in. If any upload
    /// failed, the first recorded failure is returned instead and no
    /// completion list is ever produced; a close with unacknowledged parts
    /// is rejected as invalid.
    pub fn into_result(self) -> (r: Result<Vec<PartId>, Error>)
        requires
            self.wf(),
            self.closed,
        ensures
            match r {
                Ok(ids) => {
                    &&& self.is_complete()
                    &&& ids@.len() == self.slots@.len()
                    &&& forall|i: int|
                        0 <= i < ids@.len() ==> self.slots@[i] == Some(ids@[i])
                },
                Err(e) => {
                    &&& !self.is_complete()
                    &&& match self.first_error {
                        Some(first) => e == first,
                        None => e is Validation,
                    }
                },
            },
    {
        let MultipartWriter { first_error, completed, next_index, slots, .. } = self;
        match first_error {
            Some(e) => Err(e),
            None => {
                if completed != next_index {
                    Err(
                        Error::Validation(
                            "multipart close with part uploads still outstanding".to_owned(),
                        ),
                    )
                } else {
                    proof {
                        lemma_count_filled_full(slots@);
                    }
                    let ghost orig = slots@;
                    let mut slots = slots;
                    let mut ids: Vec<PartId> = Vec::new();
                    while slots.len() > 0
                        invariant
                            ids@.len() + slots@.len() == orig.len(),
                            forall|i: int| 0 <= i < ids@.len() ==> orig[i] == Some(ids@[i]),
                            forall|j: int|
                                0 <= j < slots@.len() ==> slots@[j] == orig[ids@.len() + j],
                            forall|i: int| 0 <= i < orig.len() ==> orig[i] is Some,
                        decreases slots@.len(),
                    {
                        let slot = slots.remove(0);
                        match slot {
                            Some(id) => ids.push(id),
                            // unreachable: every slot is filled once
                            // completed == next_index
                            None => {
                                proof {
                                    assert(false);
                                }
                            },
                        }
                    }
                    Ok(ids)
                }
            },
        }
    }
}

/// The completion list for an explicit (non-streaming) multipart commit must
/// cover the part indices `0 .. n` in ascending order with no duplicates or
/// gaps; anything else is rejected before it reaches the backend.
pub fn check_completion_list(indices: &Vec<usize>) -> (r: Result<(), Error>)
    ensures
        r is Ok <==> (forall|i: int| 0 <= i < indices@.len() ==> indices@[i] == i),
{
    let mut i: usize = 0;
    while i < indices.len()
        invariant
            i <= indices@.len(),
            forall|j: int| 0 <= j < i ==> indices@[j] == j,
        decreases indices@.len() - i,
    {
        if indices[i] != i {
            return Err(
                Error::Validation(
                    "completion list must hold indices 0..n sorted ascending".to_owned(),
                ),
            );
        }
        i = i + 1;
    }
    Ok(())
}

/// Every carved part except the last has at least the configured minimum
/// size; the final part alone is exempt.
pub proof fn lemma_min_part_sizes(w: MultipartWriter)
    requires
        w.wf(),
    ensures
        forall|i: int|
            0 <= i && i + 1 < w.parts().len() ==> w.parts()[i].len() >= w.min_part_size,
{
}

/// Once the stream is closed, the object described by the completion list —
/// the concatenation of the carved parts in index order — is exactly the
/// byte stream that was written, whatever the write-call boundaries were.
pub proof fn lemma_reconstruction(w: MultipartWriter)
    requires
        w.wf(),
        w.closed,
    ensures
        concat_all(w.parts()) == w.written(),
{
    assert(concat_all(w.parts()) + w.buffer@ =~= concat_all(w.parts()));
}

/// At no point are more part uploads in flight than the concurrency bound
/// admits.
pub proof fn lemma_bounded_in_flight(w: MultipartWriter)
    requires
        w.wf(),
    ensures
        0 <= w.in_flight() <= w.max_concurrency,
{
}

/// After any recorded upload failure the writer can never complete: the
/// commit is all-or-nothing.
pub proof fn lemma_failure_blocks_completion(w: MultipartWriter)
    requires
        w.first_error is Some,
    ensures
        !w.is_complete(),
{
}

} // verus!
