//! The growable byte buffer that a framing decoder reads from.
use vstd::prelude::*;

verus! {

/// Bytes received and not consumed yet: the first `position` bytes of `data`.
#[derive(Debug)]
pub struct DockerStreamBuffer {
    pub position: usize,
    pub data: Vec<u8>,
}

impl View for DockerStreamBuffer {
    type V = Seq<u8>;

    open spec fn view(&self) -> Seq<u8> {
        self.data@.take(self.position as int)
    }
}

impl DockerStreamBuffer {
    pub open spec fn wf(&self) -> bool {
        self.position <= self.data@.len()
    }

    /// An empty buffer with room for `capacity` bytes before it grows.
    pub fn with_capacity(capacity: usize) -> (r: DockerStreamBuffer)
        ensures
            r.wf(),
            r@ == Seq::<u8>::empty(),
    {
        let r = DockerStreamBuffer { position: 0, data: vec![0u8; capacity] };
        assert(r@ =~= Seq::<u8>::empty());
        r
    }

    pub fn len(&self) -> (r: usize)
        requires
            self.wf(),
        ensures
            r == self@.len(),
    {
        self.position
    }

    /// Adds `data` after the bytes held, growing the buffer as needed.
    pub fn append(&mut self, data: &[u8])
        requires
            old(self).wf(),
            old(self)@.len() + data@.len() <= usize::MAX,
        ensures
            final(self).wf(),
            final(self)@ == old(self)@ + data@,
    {
        let expected: usize = self.position + data.len();
        while self.data.len() < expected
            invariant
                self.position + data@.len() == expected,
                self.position <= self.data@.len(),
                self@ == old(self)@,
            decreases expected - self.data@.len(),
        {
            self.data.push(0u8);
            assert(self.data@.take(self.position as int) =~= old(self)@);
        }
        let ghost start = self.data@;
        let mut i: usize = 0;
        while i < data.len()
            invariant
                self.position + data@.len() == expected,
                expected <= self.data@.len(),
                self.data@.len() == start.len(),
                self.position == old(self).position,
                start.take(self.position as int) == old(self)@,
                i <= data@.len(),
                forall|k: int|
                    0 <= k < self.data@.len() ==> self.data@[k] == (if self.position <= k < self.position
                        + i {
                        data@[k - self.position]
                    } else {
                        start[k]
                    }),
            decreases data@.len() - i,
        {
            self.data.set(self.position + i, data[i]);
            i = i + 1;
        }
        self.position = expected;
        assert(self@ =~= old(self)@ + data@);
    }

    /// Drops the first `count` bytes: the rest moves to the front.
    pub fn consume(&mut self, count: usize)
        requires
            old(self).wf(),
            count <= old(self)@.len(),
        ensures
            final(self).wf(),
            final(self)@ == old(self)@.skip(count as int),
    {
        let ghost start = self.data@;
        let mut i: usize = count;
        while i < self.position
            invariant
                count <= i <= self.position,
                self.position == old(self).position,
                self.position <= self.data@.len(),
                self.data@.len() == start.len(),
                start.take(self.position as int) == old(self)@,
                forall|k: int|
                    0 <= k < self.data@.len() ==> self.data@[k] == (if k < i - count {
                        start[k + count]
                    } else {
                        start[k]
                    }),
            decreases self.position - i,
        {
            let b: u8 = self.data[i];
            self.data.set(i - count, b);
            i = i + 1;
        }
        self.position = self.position - count;
        assert(self@ =~= old(self)@.skip(count as int));
    }

    /// The bytes held.
    pub fn as_bytes(&self) -> (r: &[u8])
        requires
            self.wf(),
        ensures
            r@ == self@,
    {
        vstd::slice::slice_subrange(self.data.as_slice(), 0, self.position)
    }

    /// The byte at index `i` of those held.
    pub fn get(&self, i: usize) -> (r: u8)
        requires
            self.wf(),
            i < self@.len(),
        ensures
            r == self@[i as int],
    {
        self.data[i]
    }
}

} // verus!
