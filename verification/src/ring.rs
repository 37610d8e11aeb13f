//! Fixed-capacity ring buffer that keeps the most recent `N` values.
use vstd::prelude::*;

verus! {

/// `x % m` for `0 <= x < 2 * m`: no wrap below `m`, one wrap above.
pub proof fn lemma_mod_once(x: int, m: int)
    requires
        m > 0,
        0 <= x < 2 * m,
    ensures
        x % m == (if x < m {
            x
        } else {
            x - m
        }),
{
    if x < m {
        vstd::arithmetic::div_mod::lemma_fundamental_div_mod_converse_mod(x, m, 0, x);
    } else {
        vstd::arithmetic::div_mod::lemma_fundamental_div_mod_converse_mod(x, m, 1, x - m);
    }
}

/// Slot of the `i`-th oldest value in a ring of capacity `n` whose oldest
/// value sits at `head`.
pub open spec fn ring_slot(head: int, i: int, n: int) -> int {
    if head + i < n {
        head + i
    } else {
        head + i - n
    }
}

/// Contents after pushing `val` into a ring of capacity `n` holding `s`: the
/// value is appended and, when the ring was full, the oldest value drops out.
pub open spec fn pushed<T>(s: Seq<T>, val: T, n: nat) -> Seq<T> {
    if s.len() < n {
        s.push(val)
    } else {
        s.push(val).drop_first()
    }
}

/// Fixed-size ring buffer for real-time use: it keeps the last `N` values.
pub struct RingBuf<T, const N: usize> {
    buf: Vec<T>,
    head: usize,
    len: usize,
}

impl<T, const N: usize> View for RingBuf<T, N> {
    type V = Seq<T>;

    /// The stored values, oldest first.
    closed spec fn view(&self) -> Seq<T> {
        Seq::new(self.len as nat, |i: int| self.buf@[ring_slot(self.head as int, i, N as int)])
    }
}

impl<T, const N: usize> RingBuf<T, N> {
    /// The storage has `N` slots, at most `N` values are stored, and the
    /// oldest value sits on a slot.
    pub closed spec fn wf(&self) -> bool {
        &&& self.buf@.len() == N
        &&& self.len <= N
        &&& (N > 0 ==> self.head < N)
    }
}

impl<T: Copy, const N: usize> RingBuf<T, N> {
    /// An empty buffer whose slots are filled with `init`.
    pub fn new(init: T) -> (r: Self)
        ensures
            r.wf(),
            r@ == Seq::<T>::empty(),
    {
        let mut buf: Vec<T> = Vec::new();
        let mut k: usize = 0;
        while k < N
            invariant
                k <= N,
                buf@.len() == k,
            decreases N - k,
        {
            buf.push(init);
            k = k + 1;
        }
        let r = RingBuf { buf, head: 0, len: 0 };
        assert(r@ =~= Seq::<T>::empty());
        r
    }

    /// Append a value; when the buffer is full the oldest value is dropped.
    pub fn push(&mut self, val: T)
        requires
            0 < N <= usize::MAX / 2,
            old(self).wf(),
        ensures
            final(self).wf(),
            final(self)@ == pushed(old(self)@, val, N as nat),
    {
        proof {
            lemma_mod_once(self.head + self.len, N as int);
        }
        let ghost before = self@;
        let tail = (self.head + self.len) % N;
        self.buf.set(tail, val);
        if self.len < N {
            self.len = self.len + 1;
        } else {
            proof {
                lemma_mod_once(self.head + 1, N as int);
            }
            self.head = (self.head + 1) % N;
        }
        assert(self@ =~= pushed(before, val, N as nat));
    }

    /// Number of stored values: at most `N` in a well-formed buffer.
    pub fn len(&self) -> (r: usize)
        ensures
            r == self@.len(),
            self.wf() ==> r <= N,
    {
        self.len
    }

    /// The stored values, oldest first.
    pub fn iter(&self) -> (r: Vec<T>)
        requires
            self.wf(),
            N <= usize::MAX / 2,
        ensures
            r@ == self@,
    {
        let mut out: Vec<T> = Vec::new();
        let mut i: usize = 0;
        while i < self.len
            invariant
                i <= self.len <= N,
                self.buf@.len() == N,
                N > 0 ==> self.head < N,
                N <= usize::MAX / 2,
                out@ =~= self@.take(i as int),
            decreases self.len - i,
        {
            proof {
                lemma_mod_once(self.head + i, N as int);
            }
            let idx = (self.head + i) % N;
            out.push(self.buf[idx]);
            i = i + 1;
        }
        assert(self@.take(self.len as int) =~= self@);
        out
    }
}

/// A well-formed buffer holds at most `N` values.
pub proof fn lemma_ring_bounded<T, const N: usize>(r: RingBuf<T, N>)
    requires
        r.wf(),
    ensures
        r@.len() <= N,
{
}

/// The buffer never holds more than `N` values, and pushing into a full
/// buffer keeps its size while the newest value is always the last one.
pub proof fn lemma_pushed_keeps_last<T>(s: Seq<T>, val: T, n: nat)
    requires
        s.len() <= n,
        n > 0,
    ensures
        pushed(s, val, n).len() <= n,
        pushed(s, val, n).len() == (if s.len() < n {
            s.len() + 1
        } else {
            n
        }),
        pushed(s, val, n).last() == val,
        forall|i: int|
            0 <= i < pushed(s, val, n).len() - 1 ==> pushed(s, val, n)[i] == s[i + s.len() + 1
                - pushed(s, val, n).len()],
{
}

} // verus!
