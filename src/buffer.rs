use vstd::prelude::*;
use vstd::seq_lib::lemma_flatten_concat;

verus! {

/// The output collected from the shell: an append-only byte sequence.
///
/// Beside the bytes it keeps, as ghost state, the chunks in the order in which
/// they were appended; the bytes are always exactly those chunks end to end.
/// Callers that share a buffer between threads put it behind a lock, so an
/// append is never seen half done.
pub struct SharedBuffer {
    bytes: Vec<u8>,
    chunks: Ghost<Seq<Seq<u8>>>,
}

impl View for SharedBuffer {
    type V = Seq<u8>;

    closed spec fn view(&self) -> Seq<u8> {
        self.chunks@.flatten()
    }
}

impl SharedBuffer {
    /// The bytes held are the appended chunks end to end.
    pub closed spec fn wf(&self) -> bool {
        self.bytes@ == self.chunks@.flatten()
    }

    /// The chunks appended so far, oldest first.
    pub closed spec fn chunks(&self) -> Seq<Seq<u8>> {
        self.chunks@
    }

    /// An empty buffer.
    pub fn new() -> (r: SharedBuffer)
        ensures
            r.wf(),
            r@ == Seq::<u8>::empty(),
            r.chunks() == Seq::<Seq<u8>>::empty(),
    {
        SharedBuffer { bytes: Vec::new(), chunks: Ghost(Seq::empty()) }
    }

    /// Appends `data` after everything already held, as one chunk.
    pub fn append(&mut self, data: &[u8])
        requires
            old(self).wf(),
        ensures
            final(self).wf(),
            final(self)@ == old(self)@ + data@,
            final(self).chunks() == old(self).chunks().push(data@),
    {
        proof {
            broadcast use Seq::lemma_flatten_push;
        }
        let ghost pushed = self.chunks@.push(data@);
        self.bytes.extend_from_slice(data);
        self.chunks = Ghost(pushed);
        assert(self.bytes@ =~= pushed.flatten());
    }

    /// A copy of everything held.
    pub fn snapshot(&self) -> (r: Vec<u8>)
        requires
            self.wf(),
        ensures
            r@ == self@,
    {
        self.bytes.clone()
    }

    /// The number of bytes held.
    pub fn len(&self) -> (r: usize)
        requires
            self.wf(),
        ensures
            r == self@.len(),
    {
        self.bytes.len()
    }
}

/// Snapshots taken while chunks are appended hold whole chunks only, and an
/// earlier snapshot is a prefix of a later one: if `later` was reached from
/// `earlier` by appends, each holds exactly its chunks end to end, and what
/// `earlier` holds begins what `later` holds.
pub proof fn lemma_snapshots_hold_whole_chunks(earlier: SharedBuffer, later: SharedBuffer)
    requires
        earlier.wf(),
        later.wf(),
        earlier.chunks().len() <= later.chunks().len(),
        later.chunks().take(earlier.chunks().len() as int) == earlier.chunks(),
    ensures
        earlier@ == earlier.chunks().flatten(),
        later@ == later.chunks().flatten(),
        later@.take(earlier@.len() as int) == earlier@,
        later@ == earlier@ + later.chunks().skip(earlier.chunks().len() as int).flatten(),
{
    let n = earlier.chunks().len() as int;
    let c = later.chunks();
    assert(c == c.take(n) + c.skip(n));
    lemma_flatten_concat(c.take(n), c.skip(n));
    assert(later@.take(earlier@.len() as int) =~= earlier@);
}

} // verus!
