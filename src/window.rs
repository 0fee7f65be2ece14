//! A fixed-capacity window over the most recent inputs of a stream.
use vstd::prelude::*;

verus! {

/// The last `n` elements of `s`, or all of `s` when it is shorter.
pub open spec fn last_n<T>(s: Seq<T>, n: nat) -> Seq<T> {
    if s.len() <= n {
        s
    } else {
        s.subrange(s.len() - n, s.len() as int)
    }
}

/// One step of a window of capacity `n`: append `x`, dropping the oldest element
/// when the window is already full.
pub open spec fn slide<T>(w: Seq<T>, x: T, n: nat) -> Seq<T> {
    if w.len() < n {
        w.push(x)
    } else {
        w.drop_first().push(x)
    }
}

/// A window of capacity `n` holds, after each input, exactly the last `n` inputs
/// seen so far: sliding the window of a stream `s` over one more input `x` gives
/// the window of `s` followed by `x`.
pub proof fn lemma_slide_keeps_last_inputs<T>(s: Seq<T>, x: T, n: nat)
    requires
        n > 0,
    ensures
        slide(last_n(s, n), x, n) == last_n(s.push(x), n),
{
    let w = last_n(s, n);
    let t = s.push(x);
    if s.len() < n {
        assert(slide(w, x, n) =~= last_n(t, n));
    } else {
        assert(w.len() == n);
        assert(slide(w, x, n) =~= t.subrange(t.len() - n, t.len() as int));
    }
}

/// The most recent inputs of a stream, at most `capacity` of them, kept in a
/// circular buffer so that each step costs constant time.
#[derive(Clone)]
pub struct SlidingWindow<T> {
    buf: Vec<T>,
    start: usize,
    capacity: usize,
    seen: Ghost<Seq<T>>,
}

impl<T> View for SlidingWindow<T> {
    type V = Seq<T>;

    /// The window's elements, oldest first.
    closed spec fn view(&self) -> Seq<T> {
        self.buf@.subrange(self.start as int, self.buf@.len() as int) + self.buf@.subrange(
            0,
            self.start as int,
        )
    }
}

impl<T: Copy> SlidingWindow<T> {
    /// Every input pushed so far, oldest first.
    pub closed spec fn seen(&self) -> Seq<T> {
        self.seen@
    }

    pub closed spec fn spec_capacity(&self) -> nat {
        self.capacity as nat
    }

    pub closed spec fn wf(&self) -> bool {
        &&& self.capacity > 0
        &&& self.buf@.len() <= self.capacity
        &&& self.start < self.capacity
        &&& self.buf@.len() < self.capacity ==> self.start == 0
        &&& self@ == last_n(self.seen@, self.capacity as nat)
    }

    /// An empty window that will hold at most `capacity` inputs.
    pub fn new(capacity: usize) -> (r: Self)
        requires
            capacity > 0,
        ensures
            r.wf(),
            r.spec_capacity() == capacity,
            r@ == Seq::<T>::empty(),
            r.seen() == Seq::<T>::empty(),
    {
        let r = SlidingWindow { buf: Vec::new(), start: 0, capacity, seen: Ghost(Seq::empty()) };
        assert(r@ =~= Seq::<T>::empty());
        r
    }

    /// How many inputs the window can hold.
    pub fn capacity(&self) -> (r: usize)
        ensures
            r == self.spec_capacity(),
    {
        self.capacity
    }

    /// How many inputs the window holds now: the inputs seen so far, up to its capacity.
    pub fn len(&self) -> (r: usize)
        requires
            self.wf(),
        ensures
            r == self@.len(),
            r as nat == if self.seen().len() < self.spec_capacity() {
                self.seen().len()
            } else {
                self.spec_capacity()
            },
    {
        self.buf.len()
    }

    /// Whether the window holds as many inputs as it can.
    pub fn is_full(&self) -> (r: bool)
        requires
            self.wf(),
        ensures
            r == (self@.len() == self.spec_capacity()),
    {
        self.buf.len() == self.capacity
    }

    /// The `i`-th element of the window, counting from its oldest.
    pub fn get(&self, i: usize) -> (r: T)
        requires
            self.wf(),
            i < self@.len(),
        ensures
            r == self@[i as int],
    {
        let n = self.buf.len();
        let k = n - self.start;
        if i < k {
            self.buf[self.start + i]
        } else {
            self.buf[i - k]
        }
    }

    /// Adds `x` as the newest input. When the window was full, its oldest input
    /// leaves it and is returned.
    pub fn push(&mut self, x: T) -> (evicted: Option<T>)
        requires
            old(self).wf(),
        ensures
            final(self).wf(),
            final(self).spec_capacity() == old(self).spec_capacity(),
            final(self).seen() == old(self).seen().push(x),
            final(self)@ == slide(old(self)@, x, old(self).spec_capacity()),
            final(self)@ == last_n(final(self).seen(), final(self).spec_capacity()),
            evicted == if old(self)@.len() < old(self).spec_capacity() {
                None::<T>
            } else {
                Some(old(self)@[0])
            },
    {
        proof {
            lemma_slide_keeps_last_inputs(self.seen@, x, self.capacity as nat);
        }
        let ghost w = self@;
        if self.buf.len() < self.capacity {
            self.buf.push(x);
            self.seen = Ghost(self.seen@.push(x));
            assert(self@ =~= w.push(x));
            None
        } else {
            let i = self.start;
            let old_val = self.buf[i];
            self.buf.set(i, x);
            self.start = if i + 1 < self.capacity {
                i + 1
            } else {
                0
            };
            self.seen = Ghost(self.seen@.push(x));
            assert(old_val == w[0]);
            assert(self@ =~= w.drop_first().push(x));
            Some(old_val)
        }
    }
}

} // verus!
