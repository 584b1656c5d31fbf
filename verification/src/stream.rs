use vstd::prelude::*;
use crate::bytes::append_bytes;
use crate::bytes::copy_range;
use crate::error::TransferError;

verus! {

/// The chunk size of the streamed egress.
pub const CHUNK_SIZE: usize = 1024;

/// The chunks of a transfer, each as the bytes it carries.
pub open spec fn contents(chunks: Seq<Vec<u8>>) -> Seq<Seq<u8>> {
    Seq::new(chunks.len(), |i: int| chunks[i]@)
}

/// The bytes of all chunks, one after the other in arrival order.
pub open spec fn joined(chunks: Seq<Seq<u8>>) -> Seq<u8>
    decreases chunks.len(),
{
    if chunks.len() == 0 {
        Seq::empty()
    } else {
        chunks.first() + joined(chunks.drop_first())
    }
}

/// A buffer cut into chunks of `size` bytes in ascending offset order; the
/// last chunk holds what is left. An empty buffer has no chunk.
pub open spec fn fragments(buffer: Seq<u8>, size: nat) -> Seq<Seq<u8>>
    decreases buffer.len(),
{
    if size == 0 || buffer.len() == 0 {
        Seq::empty()
    } else if buffer.len() <= size {
        seq![buffer]
    } else {
        seq![buffer.take(size as int)] + fragments(buffer.skip(size as int), size)
    }
}

/// One chunk alone joins to its own bytes.
pub proof fn lemma_joined_single(chunk: Seq<u8>)
    ensures
        joined(seq![chunk]) == chunk,
{
    reveal_with_fuel(joined, 2);
    assert(seq![chunk].drop_first() =~= Seq::<Seq<u8>>::empty());
    assert(joined(seq![chunk]) =~= chunk);
}

/// Joining is additive: a sequence of chunks followed by one more joins to
/// the first join followed by that chunk.
pub proof fn lemma_joined_push(chunks: Seq<Seq<u8>>, chunk: Seq<u8>)
    ensures
        joined(chunks.push(chunk)) == joined(chunks) + chunk,
    decreases chunks.len(),
{
    if chunks.len() == 0 {
        assert(chunks.push(chunk) =~= seq![chunk]);
        lemma_joined_single(chunk);
        assert(joined(chunks) + chunk =~= chunk);
    } else {
        lemma_joined_push(chunks.drop_first(), chunk);
        assert(chunks.push(chunk).drop_first() =~= chunks.drop_first().push(chunk));
        assert(joined(chunks.push(chunk)) =~= joined(chunks) + chunk);
    }
}

/// Chunk boundaries carry no meaning: two chunk sequences put one after the
/// other join to the two joins put one after the other.
pub proof fn lemma_joined_concat(head: Seq<Seq<u8>>, tail: Seq<Seq<u8>>)
    ensures
        joined(head + tail) == joined(head) + joined(tail),
    decreases head.len(),
{
    if head.len() == 0 {
        assert(head + tail =~= tail);
        assert(joined(head + tail) =~= joined(head) + joined(tail));
    } else {
        lemma_joined_concat(head.drop_first(), tail);
        assert((head + tail).drop_first() =~= head.drop_first() + tail);
        assert(joined(head + tail) =~= joined(head) + joined(tail));
    }
}

/// Stream fidelity: cutting a buffer into chunks of any positive size and
/// joining the chunks again gives the buffer back.
pub proof fn lemma_fragments_join(buffer: Seq<u8>, size: nat)
    requires
        size > 0,
    ensures
        joined(fragments(buffer, size)) == buffer,
    decreases buffer.len(),
{
    if buffer.len() == 0 {
        assert(joined(fragments(buffer, size)) =~= buffer);
    } else if buffer.len() <= size {
        lemma_joined_single(buffer);
    } else {
        let rest = buffer.skip(size as int);
        lemma_fragments_join(rest, size);
        lemma_joined_concat(seq![buffer.take(size as int)], fragments(rest, size));
        lemma_joined_single(buffer.take(size as int));
        assert(buffer.take(size as int) + rest =~= buffer);
    }
}

/// The shape of a fragmentation: no chunk is empty, none is longer than
/// `size`, and every chunk but the last is exactly `size` long.
pub proof fn lemma_fragments_shape(buffer: Seq<u8>, size: nat)
    requires
        size > 0,
    ensures
        forall|i: int|
            0 <= i < fragments(buffer, size).len() ==> 0 < (#[trigger] fragments(
                buffer,
                size,
            )[i]).len() <= size,
        forall|i: int|
            0 <= i < fragments(buffer, size).len() - 1 ==> (#[trigger] fragments(
                buffer,
                size,
            )[i]).len() == size,
        (fragments(buffer, size).len() == 0) == (buffer.len() == 0),
    decreases buffer.len(),
{
    if buffer.len() == 0 {
    } else if buffer.len() <= size {
    } else {
        let rest = buffer.skip(size as int);
        lemma_fragments_shape(rest, size);
        let all = fragments(buffer, size);
        let tail = fragments(rest, size);
        assert(all =~= seq![buffer.take(size as int)] + tail);
        assert forall|i: int| 0 <= i < all.len() implies 0 < (#[trigger] all[i]).len() <= size by {
            if i > 0 {
                assert(all[i] == tail[i - 1]);
            }
        }
        assert forall|i: int| 0 <= i < all.len() - 1 implies (#[trigger] all[i]).len() == size by {
            if i > 0 {
                assert(all[i] == tail[i - 1]);
            }
        }
    }
}

/// How many chunks a buffer of `len` bytes is cut into: `len / size`, rounded
/// up.
pub open spec fn chunk_count(len: nat, size: nat) -> nat {
    if size == 0 {
        0
    } else {
        ((len + size - 1) / (size as int)) as nat
    }
}

/// A fragmentation has as many chunks as the buffer's length divided by the
/// chunk size, rounded up.
pub proof fn lemma_fragments_count(buffer: Seq<u8>, size: nat)
    requires
        size > 0,
    ensures
        fragments(buffer, size).len() == chunk_count(buffer.len(), size),
    decreases buffer.len(),
{
    let n = buffer.len() as int;
    let s = size as int;
    if n == 0 {
        assert((n + s - 1) / s == 0) by (nonlinear_arith)
            requires
                n == 0,
                s > 0,
        ;
    } else if n <= s {
        assert((n + s - 1) / s == 1) by (nonlinear_arith)
            requires
                0 < n <= s,
        ;
    } else {
        lemma_fragments_count(buffer.skip(s), size);
        assert((n + s - 1) / s == (n - s + s - 1) / s + 1) by (nonlinear_arith)
            requires
                n > s,
                s > 0,
        ;
    }
}

/// Ingress reassembly: the bytes of the chunks, in arrival order, as one
/// buffer.
pub fn reassemble(chunks: &Vec<Vec<u8>>) -> (buffer: Vec<u8>)
    ensures
        buffer@ == joined(contents(chunks@)),
{
    let mut buffer: Vec<u8> = Vec::new();
    let mut i: usize = 0;
    while i < chunks.len()
        invariant
            i <= chunks@.len(),
            buffer@ == joined(contents(chunks@).take(i as int)),
        decreases chunks@.len() - i,
    {
        append_bytes(&mut buffer, &chunks[i]);
        proof {
            let all = contents(chunks@);
            lemma_joined_push(all.take(i as int), all[i as int]);
            assert(all.take(i + 1) =~= all.take(i as int).push(all[i as int]));
        }
        i += 1;
    }
    assert(contents(chunks@).take(i as int) =~= contents(chunks@));
    buffer
}

/// What one delivery of an inbound stream brought: a chunk, or the news that
/// the delivery failed, with the words of the failure.
pub enum Delivery {
    Chunk(Vec<u8>),
    Failure(String),
}

/// Where and how an inbound stream broke.
pub struct StreamFailure {
    /// The position of the delivery that failed.
    pub position: usize,
    /// The words of that failure.
    pub message: String,
}

impl StreamFailure {
    /// The kind of failure that a broken stream is.
    pub fn reason(&self) -> (reason: TransferError)
        ensures
            reason == TransferError::StreamAborted,
    {
        TransferError::StreamAborted
    }
}

/// What each delivery carried: the bytes of a chunk, and nothing for a
/// failure.
pub open spec fn delivered(deliveries: Seq<Delivery>) -> Seq<Seq<u8>> {
    Seq::new(
        deliveries.len(),
        |i: int|
            match deliveries[i] {
                Delivery::Chunk(bytes) => bytes@,
                Delivery::Failure(_) => Seq::empty(),
            },
    )
}

/// Whether every delivery brought a chunk.
pub open spec fn all_delivered(deliveries: Seq<Delivery>) -> bool {
    forall|i: int| 0 <= i < deliveries.len() ==> (#[trigger] deliveries[i]) is Chunk
}

/// Whether the delivery at `position` is the first that failed.
pub open spec fn is_first_failure(deliveries: Seq<Delivery>, position: int) -> bool {
    0 <= position < deliveries.len() && deliveries[position] is Failure && forall|i: int|
        0 <= i < position ==> (#[trigger] deliveries[i]) is Chunk
}

/// Whether `failure` tells of the first delivery that failed, in its words.
pub open spec fn tells_first_failure(deliveries: Seq<Delivery>, failure: StreamFailure) -> bool {
    is_first_failure(deliveries, failure.position as int) && failure.message@
        == deliveries[failure.position as int]->Failure_0@
}

/// What reassembling `deliveries` gives: the joined chunks if every delivery
/// brought one, else the first failure.
pub open spec fn reassembled(
    deliveries: Seq<Delivery>,
    result: Result<Vec<u8>, StreamFailure>,
) -> bool {
    if all_delivered(deliveries) {
        result is Ok && result->Ok_0@ == joined(delivered(deliveries))
    } else {
        result is Err && tells_first_failure(deliveries, result->Err_0)
    }
}

/// Ingress reassembly, delivery by delivery: what has arrived so far of one
/// inbound stream. Chunks are joined in arrival order until a delivery
/// fails; the first failure is kept, and whatever arrives after it is
/// dropped.
pub struct Reassembler {
    buffer: Vec<u8>,
    failure: Option<StreamFailure>,
    accepted: usize,
    seen: Ghost<Seq<Delivery>>,
}

impl Reassembler {
    /// The buffer holds the chunks of the deliveries seen so far, or the
    /// first failure among them is kept.
    pub closed spec fn wf(&self) -> bool {
        match self.failure {
            None => self.accepted == self.seen@.len() && all_delivered(self.seen@) && self.buffer@
                == joined(delivered(self.seen@)),
            Some(failure) => tells_first_failure(self.seen@, failure),
        }
    }

    /// The deliveries taken so far, in arrival order.
    pub closed spec fn seen(&self) -> Seq<Delivery> {
        self.seen@
    }

    /// A stream of which nothing has arrived yet.
    pub fn new() -> (stream: Reassembler)
        ensures
            stream.wf(),
            stream.seen() == Seq::<Delivery>::empty(),
    {
        let stream = Reassembler {
            buffer: Vec::new(),
            failure: None,
            accepted: 0,
            seen: Ghost(Seq::empty()),
        };
        assert(delivered(stream.seen@) =~= Seq::<Seq<u8>>::empty());
        stream
    }

    /// Whether the stream has room for one more delivery: the count of
    /// deliveries must fit the machine's word.
    pub fn has_room(&self) -> (room: bool)
        requires
            self.wf(),
        ensures
            room == (self.failure_seen() || self.seen().len() < usize::MAX),
    {
        self.failure.is_some() || self.accepted < usize::MAX
    }

    /// Whether a delivery has failed.
    pub closed spec fn failure_seen(&self) -> bool {
        self.failure is Some
    }

    /// Takes the next delivery. The answer says whether the stream is still
    /// whole, that is, whether more deliveries are worth waiting for.
    pub fn accept(&mut self, delivery: &Delivery) -> (whole: bool)
        requires
            old(self).wf(),
            old(self).failure_seen() || old(self).seen().len() < usize::MAX,
        ensures
            final(self).wf(),
            final(self).seen() == old(self).seen().push(*delivery),
            whole == all_delivered(final(self).seen()),
            whole == !final(self).failure_seen(),
    {
        let ghost before = self.seen@;
        let ghost after = before.push(*delivery);
        if self.failure.is_some() {
            proof {
                let failure = self.failure->Some_0;
                assert(after[failure.position as int] == before[failure.position as int]);
                assert forall|i: int| 0 <= i < failure.position implies (#[trigger] after[i])
                    is Chunk by {
                    assert(before[i] is Chunk);
                }
                assert(after[failure.position as int] is Failure);
            }
            self.seen = Ghost(after);
            return false;
        }
        match delivery {
            Delivery::Chunk(bytes) => {
                append_bytes(&mut self.buffer, bytes);
                self.accepted = self.accepted + 1;
                self.seen = Ghost(after);
                proof {
                    lemma_joined_push(delivered(before), bytes@);
                    assert(delivered(after) =~= delivered(before).push(bytes@));
                    assert forall|i: int| 0 <= i < after.len() implies (#[trigger] after[i])
                        is Chunk by {
                        if i < before.len() {
                            assert(before[i] is Chunk);
                        }
                    }
                }
                true
            },
            Delivery::Failure(message) => {
                proof {
                    assert forall|i: int| 0 <= i < before.len() implies (#[trigger] after[i])
                        is Chunk by {
                        assert(before[i] is Chunk);
                    }
                    assert(after[before.len() as int] is Failure);
                }
                self.failure = Some(
                    StreamFailure { position: self.accepted, message: message.clone() },
                );
                self.seen = Ghost(after);
                false
            },
        }
    }

    /// Ends the stream: the joined chunks if every delivery brought one, else
    /// the first failure.
    pub fn finish(self) -> (result: Result<Vec<u8>, StreamFailure>)
        requires
            self.wf(),
        ensures
            reassembled(self.seen(), result),
    {
        match self.failure {
            Some(failure) => {
                proof {
                    assert(self.seen@[failure.position as int] is Failure);
                }
                Err(failure)
            },
            None => Ok(self.buffer),
        }
    }
}

/// Ingress reassembly of a stream that has ended: the joined chunks if every
/// delivery brought one; else the first failure, and nothing of what came
/// before or after it.
pub fn reassemble_deliveries(deliveries: &Vec<Delivery>) -> (result: Result<
    Vec<u8>,
    StreamFailure,
>)
    ensures
        reassembled(deliveries@, result),
{
    let mut stream = Reassembler::new();
    let mut i: usize = 0;
    while i < deliveries.len()
        invariant
            i <= deliveries@.len(),
            stream.wf(),
            stream.seen() == deliveries@.take(i as int),
        decreases deliveries@.len() - i,
    {
        stream.accept(&deliveries[i]);
        assert(deliveries@.take(i + 1) =~= deliveries@.take(i as int).push(deliveries@[i as int]));
        i += 1;
    }
    assert(deliveries@.take(i as int) =~= deliveries@);
    stream.finish()
}

/// Egress fragmentation, all at once: the chunks of `buffer`, `size` bytes
/// each but for the last, in ascending offset order.
pub fn fragment(buffer: &Vec<u8>, size: usize) -> (chunks: Vec<Vec<u8>>)
    requires
        size > 0,
    ensures
        contents(chunks@) == fragments(buffer@, size as nat),
        joined(contents(chunks@)) == buffer@,
{
    let mut chunks: Vec<Vec<u8>> = Vec::new();
    let mut offset: usize = 0;
    let len = buffer.len();
    assert(buffer@.skip(0) =~= buffer@);
    assert(contents(chunks@) =~= Seq::<Seq<u8>>::empty());
    while offset < len
        invariant
            size > 0,
            len == buffer@.len(),
            offset <= len,
            contents(chunks@) + fragments(buffer@.skip(offset as int), size as nat) == fragments(
                buffer@,
                size as nat,
            ),
        decreases len - offset,
    {
        let end = if len - offset <= size {
            len
        } else {
            offset + size
        };
        let chunk = copy_range(buffer, offset, end);
        proof {
            let rest = buffer@.skip(offset as int);
            let before = contents(chunks@);
            if len - offset <= size {
                assert(chunk@ =~= rest);
                assert(buffer@.skip(end as int).len() == 0);
                assert(fragments(rest, size as nat) =~= seq![chunk@] + fragments(
                    buffer@.skip(end as int),
                    size as nat,
                ));
            } else {
                assert(chunk@ =~= rest.take(size as int));
                assert(rest.skip(size as int) =~= buffer@.skip(end as int));
            }
            assert(contents(chunks@.push(chunk)) =~= before.push(chunk@));
            assert(before.push(chunk@) + fragments(buffer@.skip(end as int), size as nat)
                =~= before + (seq![chunk@] + fragments(buffer@.skip(end as int), size as nat)));
        }
        chunks.push(chunk);
        offset = end;
    }
    proof {
        assert(fragments(buffer@.skip(offset as int), size as nat) =~= Seq::<Seq<u8>>::empty());
        assert(contents(chunks@) + Seq::<Seq<u8>>::empty() =~= contents(chunks@));
        lemma_fragments_join(buffer@, size as nat);
    }
    chunks
}

/// Egress fragmentation, chunk by chunk: a buffer and how far it has been
/// handed out. It runs once, front to back, and cannot be rewound.
pub struct Fragmenter {
    buffer: Vec<u8>,
    offset: usize,
    size: usize,
}

impl Fragmenter {
    /// The offset never passes the end, and the chunk size is positive.
    pub closed spec fn wf(&self) -> bool {
        self.offset <= self.buffer@.len() && self.size > 0
    }

    /// The whole buffer that is being handed out.
    pub closed spec fn buffer(&self) -> Seq<u8> {
        self.buffer@
    }

    /// How many bytes have been handed out.
    pub closed spec fn offset(&self) -> nat {
        self.offset as nat
    }

    /// The size of every chunk but the last.
    pub closed spec fn size(&self) -> nat {
        self.size as nat
    }

    /// The bytes not handed out yet.
    pub open spec fn remaining(&self) -> Seq<u8> {
        self.buffer().skip(self.offset() as int)
    }

    /// Starts at the front of `buffer`.
    pub fn new(buffer: Vec<u8>, size: usize) -> (fragmenter: Fragmenter)
        requires
            size > 0,
        ensures
            fragmenter.wf(),
            fragmenter.buffer() == buffer@,
            fragmenter.offset() == 0,
            fragmenter.size() == size,
    {
        Fragmenter { buffer, offset: 0, size }
    }

    /// Whether every byte has been handed out.
    pub fn is_complete(&self) -> (done: bool)
        requires
            self.wf(),
        ensures
            done == (self.remaining().len() == 0),
    {
        self.offset == self.buffer.len()
    }

    /// Ends the hand-out early, as when the consumer has left: nothing more
    /// is handed out afterwards. This is a normal end, not a failure.
    pub fn stop(&mut self)
        requires
            old(self).wf(),
        ensures
            final(self).wf(),
            final(self).buffer() == old(self).buffer(),
            final(self).size() == old(self).size(),
            final(self).remaining().len() == 0,
    {
        self.offset = self.buffer.len();
    }

    /// The next chunk, or `None` when the buffer is used up. The chunk is the
    /// first of the fragmentation of what remained, and what remains after
    /// the call is fragmented into the chunks that follow it.
    pub fn next_chunk(&mut self) -> (chunk: Option<Vec<u8>>)
        requires
            old(self).wf(),
        ensures
            final(self).wf(),
            final(self).buffer() == old(self).buffer(),
            final(self).size() == old(self).size(),
            old(self).remaining().len() == 0 ==> chunk is None && final(self).offset() == old(
                self,
            ).offset(),
            old(self).remaining().len() > 0 ==> chunk is Some && chunk->Some_0@ == fragments(
                old(self).remaining(),
                old(self).size(),
            )[0] && final(self).offset() == old(self).offset() + chunk->Some_0@.len()
                && fragments(final(self).remaining(), old(self).size()) == fragments(
                old(self).remaining(),
                old(self).size(),
            ).drop_first(),
    {
        let len = self.buffer.len();
        if self.offset == len {
            return None;
        }
        let end = if len - self.offset <= self.size {
            len
        } else {
            self.offset + self.size
        };
        let chunk = copy_range(&self.buffer, self.offset, end);
        proof {
            let rest = self.buffer@.skip(self.offset as int);
            let after = self.buffer@.skip(end as int);
            if len - self.offset <= self.size {
                assert(chunk@ =~= rest);
                assert(after.len() == 0);
                assert(fragments(after, self.size as nat) =~= seq![rest].drop_first());
            } else {
                assert(chunk@ =~= rest.take(self.size as int));
                assert(rest.skip(self.size as int) =~= after);
                assert(fragments(after, self.size as nat) =~= (seq![rest.take(self.size as int)]
                    + fragments(after, self.size as nat)).drop_first());
            }
        }
        self.offset = end;
        Some(chunk)
    }
}

} // verus!
