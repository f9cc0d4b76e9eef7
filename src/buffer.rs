use vstd::prelude::*;
use vstd::string::StringExecFns;

verus! {

/// Capacity given to a line buffer made when the pool is empty.
pub const DEFAULT_LINE_CAPACITY: usize = 256;

/// Most idle buffers a pool keeps; further returned buffers are dropped.
pub const STRING_POOL_SIZE: usize = 32;

/// Relies on `String::with_capacity`: the new string is empty.
#[verifier::external_body]
fn empty_with_capacity(capacity: usize) -> (r: String)
    ensures
        r@ == Seq::<char>::empty(),
{
    String::with_capacity(capacity)
}

/// Relies on `String::clear`: the string becomes empty and keeps its allocation.
#[verifier::external_body]
fn clear_string(s: &mut String)
    ensures
        final(s)@ == Seq::<char>::empty(),
{
    s.clear()
}

/// A line buffer that can be cleared and filled again without reallocating.
#[derive(Debug)]
pub struct StringBuffer {
    pub buffer: String,
}

impl View for StringBuffer {
    type V = Seq<char>;

    open spec fn view(&self) -> Seq<char> {
        self.buffer@
    }
}

impl StringBuffer {
    /// An empty buffer with room for `capacity` bytes.
    pub fn new(capacity: usize) -> (r: Self)
        ensures
            r@ == Seq::<char>::empty(),
    {
        StringBuffer { buffer: empty_with_capacity(capacity) }
    }

    /// A buffer holding a copy of `s`.
    pub fn from_text(s: &str) -> (r: Self)
        ensures
            r@ == s@,
    {
        StringBuffer { buffer: String::from_str(s) }
    }

    pub fn clear(&mut self)
        ensures
            final(self)@ == Seq::<char>::empty(),
    {
        clear_string(&mut self.buffer);
    }

    pub fn push_str(&mut self, s: &str)
        ensures
            final(self)@ == old(self)@ + s@,
    {
        self.buffer.append(s);
    }

    pub fn as_str(&self) -> (r: &str)
        ensures
            r@ == self@,
    {
        self.buffer.as_str()
    }
}

/// A pool of idle line buffers. It holds no more than it was made with or
/// `STRING_POOL_SIZE`, whichever is larger, and hands out only empty buffers.
#[derive(Debug)]
pub struct StringBufferPool {
    buffers: Vec<StringBuffer>,
}

impl StringBufferPool {
    /// Every idle buffer is empty.
    pub closed spec fn idle_empty(&self) -> bool {
        forall|i: int| 0 <= i < self.buffers@.len() ==> (#[trigger] self.buffers@[i])@.len() == 0
    }

    /// How many idle buffers the pool holds.
    pub closed spec fn idle(&self) -> nat {
        self.buffers@.len()
    }

    /// How many idle buffers the pool holds.
    pub fn idle_count(&self) -> (r: usize)
        ensures
            r == self.idle(),
    {
        self.buffers.len()
    }

    /// A pool of `size` empty buffers of `buffer_capacity` bytes each.
    pub fn new(size: usize, buffer_capacity: usize) -> (r: Self)
        ensures
            r.idle() == size,
            r.idle_empty(),
    {
        let mut buffers: Vec<StringBuffer> = Vec::new();
        let mut n: usize = 0;
        while n < size
            invariant
                n <= size,
                buffers@.len() == n,
                forall|i: int| 0 <= i < buffers@.len() ==> (#[trigger] buffers@[i])@.len() == 0,
            decreases size - n,
        {
            buffers.push(StringBuffer::new(buffer_capacity));
            n = n + 1;
        }
        StringBufferPool { buffers }
    }

    /// Takes an idle buffer, or makes a fresh one when none is idle; either
    /// way the buffer handed out is empty.
    pub fn get(&mut self) -> (r: StringBuffer)
        ensures
            r@ == Seq::<char>::empty(),
            old(self).idle_empty() ==> final(self).idle_empty(),
            final(self).idle() == if old(self).idle() > 0 {
                old(self).idle() - 1
            } else {
                0
            },
    {
        match self.buffers.pop() {
            Some(b) => {
                let mut b = b;
                b.clear();
                b
            },
            None => StringBuffer::new(DEFAULT_LINE_CAPACITY),
        }
    }

    /// Clears `buffer` and keeps it while fewer than `STRING_POOL_SIZE`
    /// buffers are idle; otherwise drops it. Idle buffers stay empty.
    pub fn return_buffer(&mut self, buffer: StringBuffer)
        ensures
            old(self).idle_empty() ==> final(self).idle_empty(),
            final(self).idle() == if old(self).idle() < STRING_POOL_SIZE {
                old(self).idle() + 1
            } else {
                old(self).idle()
            },
    {
        let mut buffer = buffer;
        buffer.clear();
        if self.buffers.len() < STRING_POOL_SIZE {
            self.buffers.push(buffer);
        }
    }
}

} // verus!
