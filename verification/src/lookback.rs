//! Look-back history of captured interleaved audio, read back frame by frame
//! in reverse for reverse scrubbing.
use vstd::prelude::*;
use crate::ring::lemma_mod_once;

verus! {

/// Slot of the `j`-th oldest of the `len` most recent samples in a circular
/// store of capacity `cap` whose next write goes to `w`.
pub open spec fn recent_slot(w: int, j: int, len: int, cap: int) -> int {
    if w + j >= len {
        w + j - len
    } else {
        w + j + cap - len
    }
}

/// The `len` most recent samples of a circular store, oldest first.
pub open spec fn recent<T>(samples: Seq<T>, w: int, len: int) -> Seq<T> {
    Seq::new(len as nat, |j: int| samples[recent_slot(w, j, len, samples.len() as int)])
}

/// What a look-back of capacity `cap` holds after `all` was written to it:
/// the most recent samples that fit, cut down to whole frames of `ch`
/// samples by dropping the oldest ones.
pub open spec fn kept_tail<T>(all: Seq<T>, cap: nat, ch: nat) -> Seq<T> {
    let kept = if all.len() < cap {
        all.len()
    } else {
        cap
    };
    let whole = kept - kept % ch;
    all.subrange(all.len() - whole, all.len() as int)
}

/// The output of a reverse read that wrote `written` samples: frame `f` of
/// the output is frame `cursor - f` of the history; past `written` the old
/// output is untouched.
pub open spec fn reverse_fill<T>(
    history: Seq<T>,
    ch: int,
    cursor: int,
    written: int,
    old_out: Seq<T>,
) -> Seq<T> {
    Seq::new(
        old_out.len(),
        |k: int|
            if k < written {
                history[(cursor - k / ch) * ch + k % ch]
            } else {
                old_out[k]
            },
    )
}

/// Look-back buffer holding the most recent captured samples, interleaved
/// over `channels` channels, in a circular store.
pub struct CaptureLookback<T> {
    samples: Vec<T>,
    write_idx: usize,
    len: usize,
    channels: usize,
}

impl<T> View for CaptureLookback<T> {
    type V = (Seq<T>, nat);

    /// The held samples, oldest first (always whole frames), and the number
    /// of samples per frame.
    closed spec fn view(&self) -> (Seq<T>, nat) {
        (recent(self.samples@, self.write_idx as int, self.len as int), self.channels as nat)
    }
}

impl<T> CaptureLookback<T> {
    /// Samples per frame.
    pub open spec fn channel_count(&self) -> nat {
        self@.1
    }

    /// Number of samples the store can hold.
    pub closed spec fn capacity(&self) -> nat {
        self.samples@.len()
    }

    /// The store has room for at least two samples and a whole number of
    /// frames, the write position is inside it, and the held samples fit
    /// and form whole frames.
    pub closed spec fn wf(&self) -> bool {
        &&& self.channels >= 1
        &&& self.samples@.len() >= 2
        &&& self.samples@.len() <= usize::MAX / 2
        &&& self.samples@.len() >= self.channels
        &&& (self.samples@.len() as int) % (self.channels as int) == 0
        &&& self.write_idx < self.samples@.len()
        &&& self.len <= self.samples@.len()
        &&& self.len % self.channels == 0
    }
}

proof fn lemma_recent_step<T>(samples: Seq<T>, w: int, len: int, s: T)
    requires
        0 <= w < samples.len(),
        0 <= len <= samples.len(),
    ensures
        ({
            let cap = samples.len() as int;
            let w2 = if w + 1 == cap {
                0
            } else {
                w + 1
            };
            let len2 = if len < cap {
                len + 1
            } else {
                len
            };
            recent(samples.update(w, s), w2, len2) == if len < cap {
                recent(samples, w, len).push(s)
            } else {
                recent(samples, w, len).push(s).drop_first()
            }
        }),
{
    let cap = samples.len() as int;
    let w2 = if w + 1 == cap {
        0
    } else {
        w + 1
    };
    let len2 = if len < cap {
        len + 1
    } else {
        len
    };
    let after = recent(samples.update(w, s), w2, len2);
    let expect = if len < cap {
        recent(samples, w, len).push(s)
    } else {
        recent(samples, w, len).push(s).drop_first()
    };
    assert forall|j: int| 0 <= j < len2 implies after[j] == expect[j] by {
        if len < cap {
            if j < len {
                assert(recent_slot(w2, j, len2, cap) == recent_slot(w, j, len, cap));
            } else {
                assert(recent_slot(w2, j, len2, cap) == w);
            }
        } else {
            if j < len - 1 {
                assert(recent_slot(w2, j, len2, cap) == recent_slot(w, j + 1, len, cap));
            } else {
                assert(recent_slot(w2, j, len2, cap) == w);
            }
        }
    }
    assert(after =~= expect);
}

proof fn lemma_recent_trim<T>(samples: Seq<T>, w: int, len: int, r: int)
    requires
        0 <= r <= len <= samples.len(),
    ensures
        recent(samples, w, len - r) == recent(samples, w, len).subrange(r, len),
{
    assert(recent(samples, w, len - r) =~= recent(samples, w, len).subrange(r, len));
}

proof fn lemma_div_mod_parts(k: int, ch: int, f: int, c: int)
    requires
        ch > 0,
        0 <= c < ch,
        k == f * ch + c,
    ensures
        k / ch == f,
        k % ch == c,
{
    vstd::arithmetic::div_mod::lemma_fundamental_div_mod_converse(k, ch, f, c);
}

impl<T: Copy> CaptureLookback<T> {
    /// A look-back with room for `frames` frames of `channels` samples (at
    /// least one frame of one channel, and at least two samples), filled
    /// with `zero` and holding nothing yet.
    pub fn new(frames: usize, channels: usize, zero: T) -> (r: Self)
        requires
            (if frames > 1 {
                frames as int
            } else {
                1
            }) * (if channels > 1 {
                channels as int
            } else {
                1
            }) <= usize::MAX / 2,
        ensures
            r.wf(),
            r@.0 == Seq::<T>::empty(),
            r.channel_count() == (if channels > 1 {
                channels as int
            } else {
                1
            }),
            r.capacity() == ({
                let c = (if frames > 1 {
                    frames as int
                } else {
                    1
                }) * (if channels > 1 {
                    channels as int
                } else {
                    1
                });
                if c > 2 {
                    c
                } else {
                    2
                }
            }),
    {
        let f = if frames > 1 {
            frames
        } else {
            1
        };
        let ch = if channels > 1 {
            channels
        } else {
            1
        };
        let prod = f * ch;
        let capacity = if prod > 2 {
            prod
        } else {
            2
        };
        assert(prod >= ch) by (nonlinear_arith)
            requires
                f >= 1,
                prod == f * ch,
                ch >= 1,
        ;
        let mut samples: Vec<T> = Vec::new();
        let mut k: usize = 0;
        while k < capacity
            invariant
                k <= capacity,
                samples@.len() == k,
            decreases capacity - k,
        {
            samples.push(zero);
            k = k + 1;
        }
        proof {
            if prod > 2 {
                vstd::arithmetic::div_mod::lemma_fundamental_div_mod_converse(
                    prod as int,
                    ch as int,
                    f as int,
                    0,
                );
            } else if ch == 1 {
                assert(capacity as int % 1 == 0);
            } else {
                assert(ch == 2);
                assert(capacity == 2);
                assert(capacity as int % 2 == 0);
            }
        }
        let r = CaptureLookback { samples, write_idx: 0, len: 0, channels: ch };
        assert(r@.0 =~= Seq::<T>::empty());
        r
    }

    /// Number of whole frames held.
    pub fn frame_count(&self) -> (n: usize)
        requires
            self.wf(),
        ensures
            n == self@.0.len() / self.channel_count(),
    {
        self.len / self.channels
    }

    /// Append interleaved samples, overwriting the oldest once the store is
    /// full; afterwards the oldest samples that do not form a whole frame
    /// are dropped.
    pub fn push_interleaved(&mut self, input: &[T])
        requires
            old(self).wf(),
        ensures
            final(self).wf(),
            final(self).channel_count() == old(self).channel_count(),
            final(self).capacity() == old(self).capacity(),
            final(self)@.0 == kept_tail(
                old(self)@.0 + input@,
                old(self).capacity(),
                old(self).channel_count(),
            ),
    {
        let ghost before = self@.0;
        let ghost cap = self.samples@.len() as int;
        if input.len() == 0 {
            assert(before + input@ =~= before);
            assert(kept_tail(before + input@, cap as nat, self.channels as nat) =~= before);
            return;
        }
        let n = input.len();
        let cap_exec = self.samples.len();
        let mut i: usize = 0;
        while i < n
            invariant
                n == input@.len(),
                cap_exec == cap,
                cap <= usize::MAX / 2,
                i <= n,
                self.channels == old(self).channels,
                self.channels >= 1,
                self.samples@.len() == cap,
                cap >= 2,
                cap >= self.channels,
                cap % (self.channels as int) == 0,
                self.write_idx < cap,
                self.len == (if before.len() + i < cap {
                    before.len() + i
                } else {
                    cap
                }),
                before == old(self)@.0,
                before.len() <= cap,
                self@.0 == (before + input@.take(i as int)).subrange(
                    before.len() + i - self.len,
                    before.len() + i,
                ),
            decreases n - i,
        {
            let s = input[i];
            let ghost w = self.write_idx as int;
            let ghost l = self.len as int;
            let ghost prev = self@.0;
            proof {
                lemma_recent_step(self.samples@, w, l, s);
                lemma_mod_once(w + 1, cap);
            }
            self.samples.set(self.write_idx, s);
            self.write_idx = (self.write_idx + 1) % cap_exec;
            if self.len < self.samples.len() {
                self.len = self.len + 1;
            }
            proof {
                let a = before + input@.take(i as int);
                let b = before + input@.take(i + 1);
                assert(b =~= a.push(s));
                if l < cap {
                    assert(self@.0 == prev.push(s));
                    assert(b.subrange(before.len() + i + 1 - self.len, before.len() + i + 1)
                        =~= a.subrange(before.len() + i - l, before.len() + i).push(s));
                } else {
                    assert(self@.0 == prev.push(s).drop_first());
                    assert(b.subrange(before.len() + i + 1 - self.len, before.len() + i + 1)
                        =~= a.subrange(before.len() + i - l, before.len() + i).push(s).drop_first());
                }
            }
            i = i + 1;
        }
        let rem = self.len % self.channels;
        let ghost l = self.len as int;
        proof {
            vstd::arithmetic::div_mod::lemma_mod_decreases(l as nat, self.channels as nat);
            lemma_recent_trim(self.samples@, self.write_idx as int, l, rem as int);
            assert(input@.take(n as int) =~= input@);
            vstd::arithmetic::div_mod::lemma_mod_self_0(self.channels as int);
            assert((l - rem) % (self.channels as int) == 0) by {
                vstd::arithmetic::div_mod::lemma_fundamental_div_mod(l, self.channels as int);
                vstd::arithmetic::div_mod::lemma_fundamental_div_mod_converse(
                    l - rem,
                    self.channels as int,
                    l / (self.channels as int),
                    0,
                );
            }
        }
        if rem != 0 {
            self.len = self.len - rem;
        }
        proof {
            let all = before + input@;
            assert(all.subrange(all.len() - l, all.len() as int).subrange(rem as int, l)
                =~= all.subrange(all.len() - (l - rem), all.len() as int));
        }
    }

    /// Index in the store of the first sample of frame `frame_idx` (oldest
    /// first) when `available_frames` frames are held.
    fn frame_start_index(&self, frame_idx: usize, available_frames: usize) -> (r: usize)
        requires
            self.wf(),
            available_frames == self.len / self.channels,
            frame_idx < available_frames,
        ensures
            r == recent_slot(
                self.write_idx as int,
                frame_idx * self.channels,
                self.len as int,
                self.samples@.len() as int,
            ),
    {
        let cap = self.samples.len();
        let ch = self.channels;
        let newest_start = if self.write_idx >= ch {
            self.write_idx - ch
        } else {
            cap - (ch - self.write_idx)
        };
        proof {
            vstd::arithmetic::div_mod::lemma_fundamental_div_mod(self.len as int, ch as int);
            assert(self.len == available_frames * ch);
            assert((available_frames - 1 - frame_idx) * ch + ch + frame_idx * ch == available_frames
                * ch) by (nonlinear_arith);
            assert(0 <= (available_frames - 1 - frame_idx) * ch) by (nonlinear_arith)
                requires
                    frame_idx < available_frames,
            ;
        }
        let back = (available_frames - 1 - frame_idx) * ch;
        proof {
            vstd::arithmetic::div_mod::lemma_small_mod(back as nat, cap as nat);
            lemma_mod_once(newest_start + cap - back, cap as int);
        }
        (newest_start + cap - (back % cap)) % cap
    }

    /// Copy frames into `out` going backwards in time from the cursor (the
    /// newest frame when there is no cursor, the cursor clamped to the held
    /// frames otherwise), until `out` is full or the oldest frame was
    /// copied. Leaves the cursor on the frame to read next (on the oldest
    /// frame once it was reached) and returns the number of samples written.
    pub fn fill_reverse_from_cursor(&self, out: &mut [T], cursor_frames: &mut Option<usize>) -> (written: usize)
        requires
            self.wf(),
        ensures
            ({
                let ch = self.channel_count() as int;
                let frames_out = old(out)@.len() as int / ch;
                let avail = self@.0.len() as int / ch;
                let start = match *old(cursor_frames) {
                    Some(c) => if c >= avail {
                        avail - 1
                    } else {
                        c as int
                    },
                    None => avail - 1,
                };
                if frames_out == 0 || avail == 0 {
                    &&& written == 0
                    &&& final(out)@ == old(out)@
                    &&& *final(cursor_frames) == *old(cursor_frames)
                } else {
                    let produced = if start + 1 <= frames_out {
                        start + 1
                    } else {
                        frames_out
                    };
                    &&& written == produced * ch
                    &&& final(out)@ == reverse_fill(self@.0, ch, start, produced * ch, old(out)@)
                    &&& *final(cursor_frames) == Some(
                        (if start + 1 <= frames_out {
                            0
                        } else {
                            start - frames_out
                        }) as usize,
                    )
                }
            }),
    {
        let ch = self.channels;
        let frames_out = out.len() / ch;
        if frames_out == 0 {
            return 0;
        }
        let available_frames = self.frame_count();
        if available_frames == 0 {
            return 0;
        }
        let mut cursor = match *cursor_frames {
            Some(c) => c,
            None => available_frames - 1,
        };
        if cursor >= available_frames {
            cursor = available_frames - 1;
        }
        let ghost start = cursor as int;
        let ghost old_out = out@;
        let ghost history = self@.0;
        let cap = self.samples.len();
        proof {
            vstd::arithmetic::div_mod::lemma_fundamental_div_mod(self.len as int, ch as int);
            vstd::arithmetic::div_mod::lemma_fundamental_div_mod(out@.len() as int, ch as int);
            assert(ch * (self.len as int / ch as int) == (self.len as int / ch as int) * ch)
                by (nonlinear_arith);
            assert(available_frames * ch == self.len);
            assert(frames_out * ch <= out@.len()) by (nonlinear_arith)
                requires
                    frames_out == out@.len() as int / ch as int,
                    ch >= 1,
            ;
        }
        let mut produced_frames: usize = 0;
        let mut frame: usize = 0;
        while frame < frames_out
            invariant_except_break
                produced_frames == frame,
                out@ == reverse_fill(history, ch as int, start, frame * ch, old_out),
            invariant
                self.wf(),
                ch == self.channels,
                cap == self.samples@.len(),
                history == self@.0,
                available_frames == self.len / ch,
                available_frames * ch == self.len,
                0 <= start < available_frames,
                frames_out * ch <= old_out.len(),
                out@.len() == old_out.len(),
                frame <= frames_out,
                frame <= start,
                cursor == start - frame,
                cap <= usize::MAX / 2,
                old_out.len() <= usize::MAX,
            ensures
                out@.len() == old_out.len(),
                produced_frames == (if start + 1 <= frames_out {
                    start + 1
                } else {
                    frames_out as int
                }),
                cursor == (if start + 1 <= frames_out {
                    0
                } else {
                    start - frames_out
                }),
                out@ == reverse_fill(history, ch as int, start, produced_frames * ch, old_out),
            decreases frames_out - frame,
        {
            let first = self.frame_start_index(cursor, available_frames);
            proof {
                assert((frame + 1) * ch <= frames_out * ch) by (nonlinear_arith)
                    requires
                        frame < frames_out,
                        ch >= 1,
                ;
                assert(frame * ch + ch == (frame + 1) * ch) by (nonlinear_arith);
                assert(cursor * ch + ch <= available_frames * ch) by (nonlinear_arith)
                    requires
                        cursor < available_frames,
                ;
            }
            let dst = frame * ch;
            let mut c: usize = 0;
            while c < ch
                invariant
                    self.wf(),
                    ch == self.channels,
                    cap == self.samples@.len(),
                    history == self@.0,
                    c <= ch,
                    dst == frame * ch,
                    dst + ch <= old_out.len(),
                    old_out.len() <= usize::MAX,
                    cap <= usize::MAX / 2,
                    first < cap,
                    cursor * ch + ch <= self.len,
                    cursor == start - frame,
                    first == recent_slot(
                        self.write_idx as int,
                        cursor * ch,
                        self.len as int,
                        cap as int,
                    ),
                    out@.len() == old_out.len(),
                    out@ == reverse_fill(history, ch as int, start, dst + c, old_out),
                decreases ch - c,
            {
                proof {
                    lemma_mod_once(first + c, cap as int);
                    lemma_div_mod_parts((dst + c) as int, ch as int, frame as int, c as int);
                }
                let v = self.samples[(first + c) % cap];
                proof {
                    assert(v == history[cursor * ch + c]);
                }
                let ghost prev = out@;
                out[dst + c] = v;
                proof {
                    assert(out@ =~= reverse_fill(history, ch as int, start, dst + c + 1, old_out))
                        by {
                        assert forall|k: int| 0 <= k < old_out.len() implies out@[k]
                            == reverse_fill(history, ch as int, start, dst + c + 1, old_out)[k] by {
                            if k == dst + c {
                                assert((start - k / (ch as int)) * ch + k % (ch as int) == cursor
                                    * ch + c);
                            }
                        }
                    }
                }
                c = c + 1;
            }
            produced_frames = produced_frames + 1;
            if cursor == 0 {
                proof {
                    assert(dst + ch == (frame + 1) * ch) by (nonlinear_arith)
                        requires
                            dst == frame * ch,
                    ;
                }
                break;
            }
            cursor = cursor - 1;
            frame = frame + 1;
        }
        *cursor_frames = Some(cursor);
        proof {
            assert(produced_frames * ch <= frames_out * ch) by (nonlinear_arith)
                requires
                    produced_frames <= frames_out,
            ;
        }
        produced_frames * ch
    }
}

/// Once enough samples were written, the look-back holds exactly the most
/// recent whole frames that fit: its length is the capacity cut down to
/// whole frames, and its last sample is the last one written.
pub proof fn lemma_kept_tail_is_recent<T>(all: Seq<T>, cap: nat, ch: nat)
    requires
        ch >= 1,
        cap >= ch,
        cap % ch == 0,
        all.len() >= cap,
    ensures
        kept_tail(all, cap, ch).len() == cap,
        kept_tail(all, cap, ch).last() == all.last(),
        forall|j: int|
            0 <= j < cap ==> #[trigger] kept_tail(all, cap, ch)[j] == all[all.len() - cap + j],
{
}

} // verus!
