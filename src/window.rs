//! Framing of a mono sample stream into overlapping analysis windows.
//!
//! A window holds `window_len` consecutive samples. Once a window has been
//! handed out, only its first quarter is dropped, so consecutive windows share
//! three quarters of their samples.
use vstd::prelude::*;

verus! {

/// Number of samples in one analysis window: one window per
/// `1 / analysis_frequency` seconds of audio.
pub fn window_length(sample_rate: u32, analysis_frequency: u32) -> (r: usize)
    requires
        analysis_frequency > 0,
    ensures
        r as int == sample_rate as int / analysis_frequency as int,
{
    (sample_rate / analysis_frequency) as usize
}

/// How far the window moves forward after each analysis: a quarter of its length.
pub open spec fn advance(len: nat) -> nat {
    len / 4
}

/// Number of full windows contained in a stream of `n` samples.
pub open spec fn window_count(n: nat, len: nat) -> nat
    recommends
        len >= 4,
{
    if n < len {
        0
    } else {
        ((n - len) as nat / advance(len) + 1) as nat
    }
}

/// The `k`-th window of a stream: `len` samples starting at `k` advances.
pub open spec fn window_at<T>(stream: Seq<T>, len: nat, k: nat) -> Seq<T> {
    stream.subrange((k * advance(len)) as int, (k * advance(len) + len) as int)
}

/// The samples of a stream not yet dropped once its full windows have been taken.
pub open spec fn remainder<T>(stream: Seq<T>, len: nat) -> Seq<T> {
    stream.subrange((window_count(stream.len(), len) * advance(len)) as int, stream.len() as int)
}

/// Collects samples into analysis windows of a fixed length.
pub struct FrameAccumulator<T> {
    samples: Vec<T>,
    window_len: usize,
}

impl<T: Copy> FrameAccumulator<T> {
    /// The samples buffered and not yet dropped.
    pub closed spec fn view(&self) -> Seq<T> {
        self.samples@
    }

    pub closed spec fn spec_window_len(&self) -> nat {
        self.window_len as nat
    }

    /// The buffer never holds a full window between calls.
    pub closed spec fn wf(&self) -> bool {
        &&& self.window_len >= 4
        &&& self.samples@.len() < self.window_len
    }

    /// An empty accumulator for windows of `window_len` samples.
    pub fn new(window_len: usize) -> (r: Self)
        requires
            window_len >= 4,
        ensures
            r.wf(),
            r@ == Seq::<T>::empty(),
            r.spec_window_len() == window_len,
    {
        FrameAccumulator { samples: Vec::new(), window_len }
    }

    pub fn window_len(&self) -> (r: usize)
        ensures
            r == self.spec_window_len(),
    {
        self.window_len
    }

    /// Number of samples buffered towards the next window.
    pub fn buffered(&self) -> (r: usize)
        ensures
            r == self@.len(),
    {
        self.samples.len()
    }

    /// Appends one sample. When this completes a window, the window is returned
    /// and its first quarter is dropped from the buffer.
    pub fn push(&mut self, sample: T) -> (r: Option<Vec<T>>)
        requires
            old(self).wf(),
        ensures
            final(self).wf(),
            final(self).spec_window_len() == old(self).spec_window_len(),
            ({
                let c = old(self)@.push(sample);
                let len = old(self).spec_window_len();
                if c.len() == len {
                    &&& r is Some
                    &&& r->Some_0@ == c
                    &&& final(self)@ == c.subrange(advance(len) as int, len as int)
                } else {
                    &&& r is None
                    &&& final(self)@ == c
                }
            }),
    {
        self.samples.push(sample);
        if self.samples.len() == self.window_len {
            let quarter = self.window_len / 4;
            let mut rest: Vec<T> = Vec::with_capacity(self.window_len - quarter);
            let mut i: usize = quarter;
            while i < self.samples.len()
                invariant
                    quarter <= i <= self.samples@.len(),
                    rest@ == self.samples@.subrange(quarter as int, i as int),
                decreases self.samples@.len() - i,
            {
                let x: T = self.samples[i];
                rest.push(x);
                i = i + 1;
            }
            std::mem::swap(&mut self.samples, &mut rest);
            Some(rest)
        } else {
            None
        }
    }

    /// Appends a run of samples and returns, in order, every window completed
    /// on the way.
    pub fn feed(&mut self, input: &Vec<T>) -> (r: Vec<Vec<T>>)
        requires
            old(self).wf(),
        ensures
            final(self).wf(),
            final(self).spec_window_len() == old(self).spec_window_len(),
            ({
                let c = old(self)@ + input@;
                let len = old(self).spec_window_len();
                &&& r@.len() == window_count(c.len(), len) - window_count(old(self)@.len(), len)
                &&& forall|k: int|
                    0 <= k < r@.len() ==> #[trigger] r@[k]@ == window_at(c, len, k as nat)
                &&& final(self)@ == remainder(c, len)
            }),
    {
        let ghost c = self@ + input@;
        let ghost len = self.spec_window_len();
        let ghost start = self@.len();
        proof {
            lemma_count_of_partial(start, len);
            assert(0 * advance(len) == 0);
            assert(c.subrange(0, start as int) =~= self@);
        }
        let mut out: Vec<Vec<T>> = Vec::new();
        let mut i: usize = 0;
        while i < input.len()
            invariant
                self.wf(),
                self.spec_window_len() == len,
                len >= 4,
                c == old(self)@ + input@,
                start == old(self)@.len(),
                start < len,
                0 <= i <= input@.len(),
                window_count(start, len) == 0,
                ({
                    let n = out@.len();
                    let m = start + i;
                    &&& n * advance(len) <= m
                    &&& m - n * advance(len) < len
                    &&& n > 0 ==> (n - 1) * advance(len) + len <= m
                    &&& self@ == c.subrange((n * advance(len)) as int, m as int)
                }),
                forall|k: int| 0 <= k < out@.len() ==> #[trigger] out@[k]@ == window_at(c, len, k as nat),
            decreases input@.len() - i,
        {
            let ghost n = out@.len();
            let ghost m = start + i;
            let x: T = input[i];
            proof {
                assert(c[m as int] == x);
                assert(self@.push(x) =~= c.subrange((n * advance(len)) as int, m + 1));
                lemma_advance_step(n, len);
            }
            match self.push(x) {
                Some(w) => {
                    proof {
                        assert(w@ =~= window_at(c, len, n));
                        assert(self@ =~= c.subrange(((n + 1) * advance(len)) as int, m + 1));
                    }
                    out.push(w);
                },
                None => {},
            }
            i = i + 1;
        }
        proof {
            let m = start + input@.len();
            lemma_count_unique(m, len, out@.len());
            assert(c.len() == m);
        }
        out
    }
}

/// Consecutive windows overlap by three quarters. The first `n` windows of a
/// stream take exactly `len + (n - 1) * advance(len)` samples of it, and each
/// window after the first begins with the last `len - advance(len)` samples of
/// the window before it.
pub proof fn lemma_window_overlap<T>(stream: Seq<T>, len: nat, n: nat)
    requires
        len >= 4,
        n >= 1,
        stream.len() >= len + (n - 1) * advance(len),
    ensures
        window_count((len + (n - 1) * advance(len)) as nat, len) == n,
        window_count(stream.len(), len) >= n,
        forall|k: nat|
            k + 1 < n ==> #[trigger] window_at(stream, len, k + 1).subrange(
                0,
                len - advance(len),
            ) == window_at(stream, len, k).subrange(advance(len) as int, len as int),
{
    let q = advance(len);
    let m = (len + (n - 1) * q) as nat;
    assert((n - 1) * q + q == n * q) by (nonlinear_arith);
    lemma_count_unique(m, len, n);
    let d = (stream.len() - len) as nat;
    vstd::arithmetic::div_mod::lemma_div_is_ordered((n - 1) * q, d as int, q as int);
    vstd::arithmetic::div_mod::lemma_div_multiples_vanish((n - 1) as int, q as int);
    assert forall|k: nat| k + 1 < n implies #[trigger] window_at(stream, len, k + 1).subrange(
        0,
        len - advance(len),
    ) == window_at(stream, len, k).subrange(advance(len) as int, len as int) by {
        assert((k + 1) * q == k * q + q) by (nonlinear_arith);
        assert(k * q + q <= (n - 1) * q) by (nonlinear_arith)
            requires k + 1 < n, q >= 1;
        assert(window_at(stream, len, k + 1).subrange(0, len - q) =~= window_at(
            stream,
            len,
            k,
        ).subrange(q as int, len as int));
    }
}

/// Picks the first channel out of an interleaved multi-channel stream: of each
/// frame of `channels` samples only the first is kept.
pub struct ChannelSelector {
    channels: u16,
    position: u16,
    seen: Ghost<nat>,
}

impl ChannelSelector {
    /// Number of samples offered so far.
    pub closed spec fn spec_seen(&self) -> nat {
        self.seen@
    }

    pub closed spec fn spec_channels(&self) -> nat {
        self.channels as nat
    }

    pub closed spec fn wf(&self) -> bool {
        &&& self.channels >= 1
        &&& self.position as nat == self.seen@ % (self.channels as nat)
    }

    pub fn new(channels: u16) -> (r: Self)
        requires
            channels >= 1,
        ensures
            r.wf(),
            r.spec_seen() == 0,
            r.spec_channels() == channels,
    {
        proof {
            vstd::arithmetic::div_mod::lemma_small_mod(0, channels as nat);
        }
        ChannelSelector { channels, position: 0, seen: Ghost(0) }
    }

    /// Offers the next sample of the stream; returns whether it belongs to the
    /// first channel, which holds for the samples at positions `0`,
    /// `channels`, `2 * channels`, ...
    pub fn accept(&mut self) -> (r: bool)
        requires
            old(self).wf(),
        ensures
            final(self).wf(),
            final(self).spec_channels() == old(self).spec_channels(),
            final(self).spec_seen() == old(self).spec_seen() + 1,
            r == (old(self).spec_seen() % old(self).spec_channels() == 0),
    {
        let r = self.position == 0;
        let ghost s = self.seen@;
        let ghost ch = self.channels as nat;
        proof {
            lemma_mod_step(s, ch);
        }
        if self.position + 1 == self.channels {
            self.position = 0;
        } else {
            self.position = self.position + 1;
        }
        self.seen = Ghost(s + 1);
        r
    }
}

/// Windows over the first channel of an interleaved stream: each sample
/// offered is either dropped (another channel) or pushed into the windows.
pub struct InterleavedWindows<T> {
    selector: ChannelSelector,
    frames: FrameAccumulator<T>,
}

impl<T: Copy> InterleavedWindows<T> {
    /// The first-channel samples buffered and not yet dropped.
    pub closed spec fn view(&self) -> Seq<T> {
        self.frames@
    }

    /// Number of samples offered so far, of all channels.
    pub closed spec fn spec_seen(&self) -> nat {
        self.selector.spec_seen()
    }

    pub closed spec fn spec_channels(&self) -> nat {
        self.selector.spec_channels()
    }

    pub closed spec fn spec_window_len(&self) -> nat {
        self.frames.spec_window_len()
    }

    pub closed spec fn wf(&self) -> bool {
        self.selector.wf() && self.frames.wf()
    }

    pub fn new(channels: u16, window_len: usize) -> (r: Self)
        requires
            channels >= 1,
            window_len >= 4,
        ensures
            r.wf(),
            r@ == Seq::<T>::empty(),
            r.spec_seen() == 0,
            r.spec_channels() == channels,
            r.spec_window_len() == window_len,
    {
        InterleavedWindows { selector: ChannelSelector::new(channels), frames: FrameAccumulator::new(window_len) }
    }

    /// Offers the next sample of the interleaved stream. A first-channel
    /// sample is pushed into the windows, and a window it completes is returned.
    pub fn next_sample(&mut self, sample: T) -> (r: Option<Vec<T>>)
        requires
            old(self).wf(),
        ensures
            final(self).wf(),
            final(self).spec_seen() == old(self).spec_seen() + 1,
            final(self).spec_channels() == old(self).spec_channels(),
            final(self).spec_window_len() == old(self).spec_window_len(),
            ({
                let c = old(self)@.push(sample);
                let len = old(self).spec_window_len();
                if old(self).spec_seen() % old(self).spec_channels() != 0 {
                    &&& r is None
                    &&& final(self)@ == old(self)@
                } else if c.len() == len {
                    &&& r is Some
                    &&& r->Some_0@ == c
                    &&& final(self)@ == c.subrange(advance(len) as int, len as int)
                } else {
                    &&& r is None
                    &&& final(self)@ == c
                }
            }),
    {
        if self.selector.accept() {
            self.frames.push(sample)
        } else {
            None
        }
    }
}

proof fn lemma_mod_step(s: nat, ch: nat)
    requires
        ch >= 1,
    ensures
        s % ch + 1 == ch ==> (s + 1) % ch == 0,
        s % ch + 1 < ch ==> (s + 1) % ch == s % ch + 1,
{
    vstd::arithmetic::div_mod::lemma_fundamental_div_mod(s as int, ch as int);
    let q = s / ch;
    let r = s % ch;
    if r + 1 == ch {
        assert(s + 1 == (q + 1) * ch) by (nonlinear_arith)
            requires s == ch * q + r, r + 1 == ch;
        vstd::arithmetic::div_mod::lemma_mod_multiples_basic((q + 1) as int, ch as int);
    } else {
        vstd::arithmetic::div_mod::lemma_mod_bound(s as int, ch as int);
        assert(s + 1 == q * ch + (r + 1)) by (nonlinear_arith)
            requires s == ch * q + r;
        lemma_mod_of_decomposition((s + 1) as int, ch as int, q as int, (r + 1) as int);
    }
}

proof fn lemma_mod_of_decomposition(x: int, d: int, q: int, r: int)
    requires
        d > 0,
        0 <= r < d,
        x == q * d + r,
    ensures
        x % d == r,
{
    vstd::arithmetic::div_mod::lemma_fundamental_div_mod(x, d);
    let q2 = x / d;
    let r2 = x % d;
    vstd::arithmetic::div_mod::lemma_mod_bound(x, d);
    assert(q2 == q && r2 == r) by (nonlinear_arith)
        requires
            x == d * q2 + r2,
            0 <= r2 < d,
            x == q * d + r,
            0 <= r < d,
    ;
}

proof fn lemma_advance_step(n: nat, len: nat)
    requires
        len >= 4,
    ensures
        (n + 1) * advance(len) == n * advance(len) + advance(len),
        advance(len) >= 1,
        advance(len) < len,
{
    assert((n + 1) * advance(len) == n * advance(len) + advance(len)) by (nonlinear_arith);
}

proof fn lemma_count_of_partial(m: nat, len: nat)
    requires
        m < len,
    ensures
        window_count(m, len) == 0,
{
}

/// The number of windows is pinned down by where the last one ends.
proof fn lemma_count_unique(m: nat, len: nat, n: nat)
    requires
        len >= 4,
        n * advance(len) <= m,
        m - n * advance(len) < len,
        n > 0 ==> (n - 1) * advance(len) + len <= m,
        n == 0 ==> m < len,
    ensures
        window_count(m, len) == n,
{
    let q = advance(len);
    if n > 0 {
        assert((n - 1) * q + q == n * q) by (nonlinear_arith);
        let d = (m - len) as nat;
        assert((n - 1) * q <= d < (n - 1) * q + q);
        vstd::arithmetic::div_mod::lemma_div_pos_is_pos(d as int, q as int);
        lemma_div_between(d as int, q as int, (n - 1) as int);
    }
}

proof fn lemma_div_between(d: int, q: int, k: int)
    requires
        q > 0,
        k >= 0,
        k * q <= d < k * q + q,
    ensures
        d / q == k,
{
    vstd::arithmetic::div_mod::lemma_fundamental_div_mod(d, q);
    let r = d / q;
    if r < k {
        assert(r * q + q <= k * q) by (nonlinear_arith)
            requires r < k, q > 0;
    } else if r > k {
        assert(r * q >= k * q + q) by (nonlinear_arith)
            requires r > k, q > 0;
    }
}

} // verus!
