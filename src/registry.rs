use vstd::prelude::*;
use std::collections::HashMap;
use std::collections::VecDeque;

verus! {

broadcast use vstd::std_specs::hash::group_hash_axioms;

/// One unit of streamed output.
#[derive(Debug)]
pub enum Chunk {
    /// One tool description, as JSON text.
    ToolDescriptor(String),
    /// One piece of text of a tool's result.
    TextFragment(String),
    /// The production failed; `Done` follows.
    Error(String),
    /// The end of the stream; nothing follows it.
    Done,
}

/// No `Done` stands anywhere but last.
pub open spec fn well_terminated(s: Seq<Chunk>) -> bool {
    forall|i: int| 0 <= i < s.len() - 1 ==> !(#[trigger] s[i] is Done)
}

/// The sequence ends with `Done`.
pub open spec fn ends_with_done(s: Seq<Chunk>) -> bool {
    s.len() > 0 && s.last() is Done
}

/// A complete chunk sequence: zero or more chunks and then exactly one `Done`.
pub open spec fn complete_sequence(s: Seq<Chunk>) -> bool {
    well_terminated(s) && ends_with_done(s)
}

/// What a stream has produced so far, and how much of it was handed out.
pub ghost struct StreamView {
    pub produced: Seq<Chunk>,
    pub taken: nat,
}

impl StreamView {
    /// A stream that has produced nothing yet.
    pub open spec fn empty() -> StreamView {
        StreamView { produced: Seq::empty(), taken: 0 }
    }

    /// The chunks produced and not yet handed out, oldest first.
    pub open spec fn pending(self) -> Seq<Chunk> {
        self.produced.skip(self.taken as int)
    }

    /// `Done` has been produced: nothing more will be.
    pub open spec fn finished(self) -> bool {
        ends_with_done(self.produced)
    }

    /// `Done` stands nowhere but last, and no more was handed out than produced.
    pub open spec fn wf(self) -> bool {
        &&& well_terminated(self.produced)
        &&& self.taken <= self.produced.len()
    }

    /// The stream after a producer offers `c`: refused once the stream is finished.
    pub open spec fn sent(self, c: Chunk) -> StreamView {
        if self.finished() {
            self
        } else {
            StreamView { produced: self.produced.push(c), taken: self.taken }
        }
    }

    /// The stream after a producer offers each chunk of `cs` in order.
    pub open spec fn sent_all(self, cs: Seq<Chunk>) -> StreamView
        decreases cs.len(),
    {
        if cs.len() == 0 {
            self
        } else {
            self.sent_all(cs.drop_last()).sent(cs.last())
        }
    }

    /// The stream after the oldest pending chunk, if any, was handed out.
    pub open spec fn polled(self) -> StreamView {
        if self.taken < self.produced.len() {
            StreamView { produced: self.produced, taken: self.taken + 1 }
        } else {
            self
        }
    }
}

/// What a poll of a stream reports.
#[derive(Debug)]
pub enum Poll {
    /// The next chunk of the stream.
    Ready(Chunk),
    /// No data yet: no chunk is waiting to be handed out.
    Empty,
    /// No stream has this id (never opened, or cleaned up).
    Unknown,
}

/// What a waiting caller learns from one look at a stream.
#[derive(Debug)]
pub enum Next {
    /// The next chunk of the stream.
    Arrived(Chunk),
    /// Nothing yet, but more may come.
    NotYet,
    /// Nothing more will come: `Done` was handed out, or no stream has this id.
    Closed,
}

/// The queue of one stream.
pub struct StreamQueue {
    pending: VecDeque<Chunk>,
    finished: bool,
    produced: Ghost<Seq<Chunk>>,
    taken: Ghost<nat>,
}

impl View for StreamQueue {
    type V = StreamView;

    closed spec fn view(&self) -> StreamView {
        StreamView { produced: self.produced@, taken: self.taken@ }
    }
}

impl StreamQueue {
    /// The queue holds exactly the chunks produced and not yet handed out, and
    /// the flag tells whether `Done` was produced.
    pub closed spec fn inv(&self) -> bool {
        &&& self@.wf()
        &&& self.pending@ == self@.pending()
        &&& self.finished == self@.finished()
    }

    fn new() -> (r: StreamQueue)
        ensures
            r.inv(),
            r@ == StreamView::empty(),
    {
        let r = StreamQueue {
            pending: VecDeque::new(),
            finished: false,
            produced: Ghost(Seq::empty()),
            taken: Ghost(0),
        };
        proof {
            assert(r.pending@ =~= r@.pending());
        }
        r
    }

    fn send(&mut self, c: Chunk) -> (accepted: bool)
        requires
            old(self).inv(),
        ensures
            final(self).inv(),
            final(self)@ == old(self)@.sent(c),
            accepted == !old(self)@.finished(),
    {
        if self.finished {
            return false;
        }
        let ghost before = self@;
        let is_done = matches!(c, Chunk::Done);
        self.pending.push_back(c);
        self.produced = Ghost(self.produced@.push(c));
        self.finished = is_done;
        proof {
            let p = self.produced@;
            assert(p.drop_last() == before.produced);
            assert(self.pending@ =~= p.skip(self.taken@ as int));
            assert forall|i: int| 0 <= i < p.len() - 1 implies !(#[trigger] p[i] is Done) by {
                if i < p.len() - 2 {
                    assert(p[i] == before.produced[i]);
                } else {
                    assert(p[i] == before.produced.last());
                }
            }
        }
        true
    }

    fn take(&mut self) -> (r: Next)
        requires
            old(self).inv(),
        ensures
            final(self).inv(),
            final(self)@ == old(self)@.polled(),
            r == next_view(old(self)@),
    {
        match self.pending.pop_front() {
            Some(c) => {
                self.taken = Ghost(self.taken@ + 1);
                proof {
                    assert(self.pending@ =~= self@.pending());
                }
                Next::Arrived(c)
            },
            None => {
                if self.finished {
                    Next::Closed
                } else {
                    Next::NotYet
                }
            },
        }
    }
}

/// What one look at a stream in state `s` tells a waiting caller.
pub open spec fn next_view(s: StreamView) -> Next {
    if s.taken < s.produced.len() {
        Next::Arrived(s.produced[s.taken as int])
    } else if s.finished() {
        Next::Closed
    } else {
        Next::NotYet
    }
}

/// The registry as a map from stream id to stream, with the next id to hand out.
pub ghost struct RegistryView {
    pub streams: Map<u64, StreamView>,
    pub next_id: u64,
}

impl RegistryView {
    /// Every stream is well formed and has an id below the next one.
    pub open spec fn wf(self) -> bool {
        &&& self.next_id >= 1
        &&& forall|id: u64| #[trigger] self.streams.contains_key(id) ==> {
            &&& self.streams[id].wf()
            &&& id < self.next_id
        }
    }

    /// After a new stream was registered under `next_id`.
    pub open spec fn opened(self) -> RegistryView {
        RegistryView {
            streams: self.streams.insert(self.next_id, StreamView::empty()),
            next_id: (self.next_id + 1) as u64,
        }
    }

    /// After stream `id` was replaced by `s`, if it is registered.
    pub open spec fn with_stream(self, id: u64, s: StreamView) -> RegistryView {
        if self.streams.contains_key(id) {
            RegistryView { streams: self.streams.insert(id, s), next_id: self.next_id }
        } else {
            self
        }
    }

    /// After a producer offered `c` to stream `id`.
    pub open spec fn sent(self, id: u64, c: Chunk) -> RegistryView {
        self.with_stream(id, self.streams[id].sent(c))
    }

    /// After a producer offered each chunk of `cs` to stream `id`.
    pub open spec fn sent_all(self, id: u64, cs: Seq<Chunk>) -> RegistryView {
        self.with_stream(id, self.streams[id].sent_all(cs))
    }

    /// After a poll of stream `id`.
    pub open spec fn polled(self, id: u64) -> RegistryView {
        self.with_stream(id, self.streams[id].polled())
    }

    /// After stream `id` was cleaned up.
    pub open spec fn cleaned(self, id: u64) -> RegistryView {
        RegistryView { streams: self.streams.remove(id), next_id: self.next_id }
    }

    /// What a poll of stream `id` reports: the next chunk, no data yet, or an
    /// unknown stream.
    pub open spec fn poll_result(self, id: u64) -> Poll {
        if !self.streams.contains_key(id) {
            Poll::Unknown
        } else if self.streams[id].taken < self.streams[id].produced.len() {
            Poll::Ready(self.streams[id].produced[self.streams[id].taken as int])
        } else {
            Poll::Empty
        }
    }

    /// What one look at stream `id` tells a waiting caller; an unknown stream
    /// is closed.
    pub open spec fn next_result(self, id: u64) -> Next {
        if self.streams.contains_key(id) {
            next_view(self.streams[id])
        } else {
            Next::Closed
        }
    }
}

/// The streams that are open, each a queue of chunks under its id.
pub struct StreamRegistry {
    streams: HashMap<u64, StreamQueue>,
    next_id: u64,
}

impl View for StreamRegistry {
    type V = RegistryView;

    closed spec fn view(&self) -> RegistryView {
        RegistryView {
            streams: self.streams@.map_values(|q: StreamQueue| q@),
            next_id: self.next_id,
        }
    }
}

impl StreamRegistry {
    /// The registry's view is well formed and every queue agrees with it.
    pub closed spec fn wf(&self) -> bool {
        &&& self@.wf()
        &&& forall|id: u64| #[trigger] self.streams@.contains_key(id) ==> self.streams@[id].inv()
    }

    /// An empty registry; the first stream gets id 1.
    pub fn new() -> (r: StreamRegistry)
        ensures
            r.wf(),
            r@.streams.is_empty(),
            r@.next_id == 1,
    {
        let r = StreamRegistry { streams: HashMap::new(), next_id: 1 };
        proof {
            assert(r@.streams =~= Map::empty());
        }
        r
    }

    /// Registers an empty stream under a new id and returns the id, before
    /// any producer can send to it. Ids grow by one from 1; `None` once they
    /// are used up.
    pub fn open(&mut self) -> (r: Option<u64>)
        requires
            old(self).wf(),
        ensures
            final(self).wf(),
            old(self)@.next_id == u64::MAX ==> r is None && final(self)@ == old(self)@,
            old(self)@.next_id < u64::MAX ==> {
                &&& r == Some(old(self)@.next_id)
                &&& !old(self)@.streams.contains_key(old(self)@.next_id)
                &&& final(self)@ == old(self)@.opened()
            },
    {
        if self.next_id == u64::MAX {
            return None;
        }
        let id = self.next_id;
        let ghost before = self@;
        let q = StreamQueue::new();
        self.streams.insert(id, q);
        self.next_id = id + 1;
        proof {
            assert(self@.streams =~= before.opened().streams);
        }
        Some(id)
    }

    /// Offers `c` to stream `id`. Returns false, changing nothing, when the
    /// stream is unknown (cleaned up) or already finished.
    pub fn send(&mut self, id: u64, c: Chunk) -> (accepted: bool)
        requires
            old(self).wf(),
        ensures
            final(self).wf(),
            final(self)@ == old(self)@.sent(id, c),
            accepted == (old(self)@.streams.contains_key(id) && !old(self)@.streams[id].finished()),
    {
        let ghost before = self@;
        match self.streams.remove(&id) {
            None => {
                proof {
                    assert(self.streams@ =~= old(self).streams@);
                }
                false
            },
            Some(mut q) => {
                let accepted = q.send(c);
                self.streams.insert(id, q);
                proof {
                    assert(self@.streams =~= before.streams.insert(id, before.streams[id].sent(c)));
                }
                accepted
            },
        }
    }

    /// Offers the chunks of `chunks` to stream `id`, in order.
    pub fn send_all(&mut self, id: u64, chunks: Vec<Chunk>)
        requires
            old(self).wf(),
        ensures
            final(self).wf(),
            final(self)@ == old(self)@.sent_all(id, chunks@),
    {
        let ghost all = chunks@;
        let ghost before = self@;
        let n = chunks.len();
        let mut rest = chunks;
        let mut i: usize = 0;
        proof {
            assert(all.take(0) =~= Seq::<Chunk>::empty());
            if before.streams.contains_key(id) {
                assert(before.streams.insert(id, before.streams[id]) =~= before.streams);
            }
        }
        while rest.len() > 0
            invariant
                self.wf(),
                n == all.len(),
                i <= n,
                rest@ == all.skip(i as int),
                self@ == before.sent_all(id, all.take(i as int)),
            decreases rest.len(),
        {
            let c = rest.remove(0);
            proof {
                assert(c == all[i as int]);
                assert(all.take(i + 1).drop_last() =~= all.take(i as int));
                assert(all.take(i + 1).last() == c);
                assert(rest@ =~= all.skip(i + 1));
                let prev = self@;
                if before.streams.contains_key(id) {
                    assert(prev.streams.insert(id, prev.streams[id].sent(c))
                        =~= before.streams.insert(id, before.streams[id].sent_all(all.take(i + 1))));
                }
            }
            self.send(id, c);
            i = i + 1;
        }
        proof {
            assert(all.take(i as int) =~= all);
        }
    }

    /// Hands out the next chunk of stream `id`, if one is waiting, for a caller
    /// that waits: `NotYet` while more may come, `Closed` once `Done` was handed
    /// out or for an id that is not registered.
    pub fn next(&mut self, id: u64) -> (r: Next)
        requires
            old(self).wf(),
        ensures
            final(self).wf(),
            r == old(self)@.next_result(id),
            final(self)@ == old(self)@.polled(id),
    {
        let ghost before = self@;
        match self.streams.remove(&id) {
            None => {
                proof {
                    assert(self.streams@ =~= old(self).streams@);
                }
                Next::Closed
            },
            Some(mut q) => {
                let r = q.take();
                self.streams.insert(id, q);
                proof {
                    assert(self@.streams =~= before.streams.insert(id, before.streams[id].polled()));
                }
                r
            },
        }
    }

    /// Hands out the next chunk of stream `id` without waiting: `Empty` when
    /// no chunk is waiting (none has arrived yet, or the stream has ended),
    /// `Unknown` for an id that is not registered.
    pub fn poll(&mut self, id: u64) -> (r: Poll)
        requires
            old(self).wf(),
        ensures
            final(self).wf(),
            r == old(self)@.poll_result(id),
            final(self)@ == old(self)@.polled(id),
    {
        if !self.streams.contains_key(&id) {
            return Poll::Unknown;
        }
        match self.next(id) {
            Next::Arrived(c) => Poll::Ready(c),
            Next::NotYet => Poll::Empty,
            Next::Closed => Poll::Empty,
        }
    }

    /// Removes stream `id` and drops what it still holds. Cleaning up an id
    /// twice, or one that was never opened, does nothing.
    pub fn cleanup(&mut self, id: u64)
        requires
            old(self).wf(),
        ensures
            final(self).wf(),
            final(self)@ == old(self)@.cleaned(id),
    {
        let ghost before = self@;
        let _ = self.streams.remove(&id);
        proof {
            assert(self@.streams =~= before.streams.remove(id));
        }
    }

    /// Whether stream `id` is registered.
    pub fn contains(&self, id: u64) -> (r: bool)
        ensures
            r == self@.streams.contains_key(id),
    {
        self.streams.contains_key(&id)
    }
}

/// Once a stream has produced `Done`, every later chunk offered to it is refused.
pub proof fn lemma_nothing_after_done(s: StreamView, c: Chunk)
    requires
        s.finished(),
    ensures
        s.sent(c) == s,
{
}

/// Whether `c` is the end marker.
pub open spec fn is_done(c: Chunk) -> bool {
    c is Done
}

proof fn lemma_no_done_filtered(s: Seq<Chunk>)
    requires
        forall|i: int| 0 <= i < s.len() ==> !(#[trigger] s[i] is Done),
    ensures
        s.filter(|c: Chunk| is_done(c)).len() == 0,
    decreases s.len(),
{
    reveal(Seq::filter);
    if s.len() > 0 {
        let init = s.drop_last();
        assert forall|i: int| 0 <= i < init.len() implies !(#[trigger] init[i] is Done) by {
            assert(init[i] == s[i]);
        }
        lemma_no_done_filtered(init);
    }
}

/// A complete chunk sequence holds exactly one `Done`.
pub proof fn lemma_exactly_one_done(s: Seq<Chunk>)
    requires
        complete_sequence(s),
    ensures
        s.filter(|c: Chunk| is_done(c)).len() == 1,
{
    reveal(Seq::filter);
    let init = s.drop_last();
    assert forall|i: int| 0 <= i < init.len() implies !(#[trigger] init[i] is Done) by {
        assert(init[i] == s[i]);
    }
    lemma_no_done_filtered(init);
}

/// Whatever chunks producers offer, a stream's sequence keeps `Done` last if
/// it holds one at all.
pub proof fn lemma_sent_all_well_terminated(s: StreamView, cs: Seq<Chunk>)
    requires
        s.wf(),
    ensures
        s.sent_all(cs).wf(),
        s.sent_all(cs).taken == s.taken,
    decreases cs.len(),
{
    if cs.len() > 0 {
        lemma_sent_all_well_terminated(s, cs.drop_last());
        let t = s.sent_all(cs.drop_last());
        if !t.finished() {
            let p = t.produced.push(cs.last());
            assert forall|i: int| 0 <= i < p.len() - 1 implies !(#[trigger] p[i] is Done) by {
                if i < p.len() - 2 {
                    assert(p[i] == t.produced[i]);
                } else {
                    assert(p[i] == t.produced.last());
                }
            }
        }
    }
}

/// Offering chunks that are not `Done` to an unfinished stream appends them.
proof fn lemma_sent_without_done(s: StreamView, cs: Seq<Chunk>)
    requires
        !s.finished(),
        forall|i: int| 0 <= i < cs.len() ==> !(#[trigger] cs[i] is Done),
    ensures
        s.sent_all(cs) == (StreamView { produced: s.produced + cs, taken: s.taken }),
        !s.sent_all(cs).finished(),
    decreases cs.len(),
{
    if cs.len() == 0 {
        assert(s.produced + cs =~= s.produced);
    } else {
        let init = cs.drop_last();
        assert forall|i: int| 0 <= i < init.len() implies !(#[trigger] init[i] is Done) by {
            assert(init[i] == cs[i]);
        }
        lemma_sent_without_done(s, init);
        assert(s.produced + init + seq![cs.last()] =~= s.produced + cs);
        assert((s.produced + init).push(cs.last()) =~= s.produced + cs);
    }
}

/// A producer that offers a complete sequence (chunks, then one `Done`) to an
/// open stream that has not finished leaves it finished, holding what it had
/// followed by exactly that sequence: one `Done`, and nothing after it.
pub proof fn lemma_complete_production(s: StreamView, cs: Seq<Chunk>)
    requires
        s.wf(),
        !s.finished(),
        complete_sequence(cs),
    ensures
        s.sent_all(cs).produced == s.produced + cs,
        s.sent_all(cs).finished(),
        s.sent_all(cs).wf(),
{
    let init = cs.drop_last();
    assert forall|i: int| 0 <= i < init.len() implies !(#[trigger] init[i] is Done) by {
        assert(init[i] == cs[i]);
    }
    lemma_sent_without_done(s, init);
    lemma_sent_all_well_terminated(s, cs);
    assert((s.produced + init).push(cs.last()) =~= s.produced + cs);
}

/// Cleaning up is idempotent: cleaning up the same id again changes nothing,
/// and cleaning up an id that is not registered changes nothing.
pub proof fn lemma_cleanup_idempotent(r: RegistryView, id: u64)
    ensures
        r.cleaned(id).cleaned(id) == r.cleaned(id),
        !r.streams.contains_key(id) ==> r.cleaned(id) == r,
{
    assert(r.streams.remove(id).remove(id) =~= r.streams.remove(id));
    if !r.streams.contains_key(id) {
        assert(r.streams.remove(id) =~= r.streams);
    }
}

/// What a caller that waits on a stream does next.
#[derive(Debug)]
pub enum WaitStep {
    /// Return this chunk.
    Deliver(Chunk),
    /// Report that the stream is closed: nothing more will come.
    Closed,
    /// Report that the time is up.
    TimedOut,
    /// Wait for a new chunk, at most this many milliseconds.
    Sleep(u64),
}

/// Decides the next step of a wait with `timeout_ms` in all, after
/// `elapsed_ms` have passed and a look at the stream gave `n`. A sleep never
/// reaches past the timeout, and once the time is up the wait ends.
pub fn wait_step(n: Next, elapsed_ms: u64, timeout_ms: u64) -> (r: WaitStep)
    ensures
        n matches Next::Arrived(c) ==> r == WaitStep::Deliver(c),
        n is Closed ==> r is Closed,
        n is NotYet && elapsed_ms >= timeout_ms ==> r is TimedOut,
        n is NotYet && elapsed_ms < timeout_ms ==> r == WaitStep::Sleep((timeout_ms - elapsed_ms) as u64),
        r matches WaitStep::Sleep(d) ==> elapsed_ms + d == timeout_ms,
{
    match n {
        Next::Arrived(c) => WaitStep::Deliver(c),
        Next::Closed => WaitStep::Closed,
        Next::NotYet => {
            if elapsed_ms >= timeout_ms {
                WaitStep::TimedOut
            } else {
                WaitStep::Sleep(timeout_ms - elapsed_ms)
            }
        },
    }
}

} // verus!
