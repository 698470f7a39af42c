//! Cross-thread producer/consumer queue of audio samples.
//!
//! The engine-stepping context appends interleaved stereo samples at the
//! tail; the hardware output device removes samples from the head on its own
//! cadence. The queue preserves strict FIFO order across any interleaving of
//! pushes and pulls, accepts every sample offered (no backpressure, no bound),
//! and on underflow hands out only what is queued, leaving the rest of the
//! output buffer for the caller to treat as silence.

use vstd::prelude::*;

verus! {

/// How many samples a pull hands out: the requested count, capped by what is
/// available at the head of the queue.
pub open spec fn take_count(requested: int, available: int) -> int {
    if requested <= available {
        requested
    } else {
        available
    }
}

/// FIFO queue of signed 16-bit samples, interleaved two channels per frame.
pub struct AudioRelay {
    queue: Vec<i16>,
}

impl View for AudioRelay {
    type V = Seq<i16>;

    closed spec fn view(&self) -> Seq<i16> {
        self.queue@
    }
}

impl AudioRelay {
    /// An empty queue; every relay starts this way at process start.
    pub fn new() -> (relay: AudioRelay)
        ensures
            relay@ == Seq::<i16>::empty(),
    {
        AudioRelay { queue: Vec::new() }
    }

    /// Number of samples currently queued.
    pub fn len(&self) -> (n: usize)
        ensures
            n == self@.len(),
    {
        self.queue.len()
    }

    /// Append `frames` stereo frames (two samples each) at the tail and
    /// report every frame as accepted. An absent sample buffer — the engine
    /// handing the callback an invalid reference — is a recoverable no-op:
    /// nothing is queued and zero frames are reported.
    pub fn push(&mut self, samples: Option<&Vec<i16>>, frames: usize) -> (accepted: usize)
        requires
            samples matches Some(s) ==> s@.len() == 2 * frames,
        ensures
            match samples {
                Some(s) => final(self)@ == old(self)@ + s@ && accepted == frames,
                None => final(self)@ == old(self)@ && accepted == 0,
            },
    {
        match samples {
            None => 0,
            Some(s) => {
                let mut i: usize = 0;
                while i < s.len()
                    invariant
                        i <= s@.len(),
                        self@ == old(self)@ + s@.take(i as int),
                    decreases s@.len() - i,
                {
                    proof {
                        assert(s@.take(i + 1) =~= s@.take(i as int).push(s@[i as int]));
                        assert(old(self)@ + s@.take(i + 1)
                            =~= (old(self)@ + s@.take(i as int)).push(s@[i as int]));
                    }
                    self.queue.push(s[i]);
                    i = i + 1;
                }
                proof {
                    assert(s@.take(s@.len() as int) =~= s@);
                }
                frames
            },
        }
    }

    /// Copy up to `requested` samples from the head of the queue into the
    /// front of `out`, removing what was copied. When fewer than `requested`
    /// samples are queued, only those are written and the rest of `out` is
    /// left untouched; the caller must treat the unfilled tail as silence.
    pub fn pull(&mut self, out: &mut Vec<i16>, requested: usize) -> (written: usize)
        requires
            requested <= old(out)@.len(),
        ensures
            written == take_count(requested as int, old(self)@.len() as int),
            final(self)@ == old(self)@.skip(written as int),
            final(out)@.len() == old(out)@.len(),
            forall|i: int| 0 <= i < written ==> final(out)@[i] == old(self)@[i],
            forall|i: int|
                written <= i < old(out)@.len() ==> final(out)@[i] == old(out)@[i],
    {
        let avail = self.queue.len();
        let w = if requested <= avail {
            requested
        } else {
            avail
        };
        let mut i: usize = 0;
        while i < w
            invariant
                i <= w,
                w == take_count(requested as int, old(self)@.len() as int),
                w <= old(out)@.len(),
                self@ == old(self)@,
                out@.len() == old(out)@.len(),
                forall|j: int| 0 <= j < i ==> out@[j] == old(self)@[j],
                forall|j: int| i <= j < old(out)@.len() ==> out@[j] == old(out)@[j],
            decreases w - i,
        {
            out[i] = self.queue[i];
            i = i + 1;
        }
        let mut rest: Vec<i16> = Vec::new();
        let mut j: usize = w;
        while j < self.queue.len()
            invariant
                w <= j <= self@.len(),
                self@ == old(self)@,
                w == take_count(requested as int, old(self)@.len() as int),
                rest@ == old(self)@.subrange(w as int, j as int),
            decreases self@.len() - j,
        {
            proof {
                assert(old(self)@.subrange(w as int, j + 1)
                    =~= old(self)@.subrange(w as int, j as int).push(old(self)@[j as int]));
            }
            rest.push(self.queue[j]);
            j = j + 1;
        }
        proof {
            assert(old(self)@.subrange(w as int, old(self)@.len() as int)
                =~= old(self)@.skip(w as int));
        }
        self.queue = rest;
        w
    }
}

/// The consumer-side handler that the host multimedia subsystem drives: each
/// device period it hands over an output buffer for the relay to fill.
pub struct AudioHandler {
    pub relay: AudioRelay,
}

impl AudioHandler {
    /// Wrap a relay as the device-facing consumer.
    pub fn new(relay: AudioRelay) -> (handler: AudioHandler)
        ensures
            handler.relay@ == relay@,
    {
        AudioHandler { relay }
    }

    /// Fill the device's output buffer from the head of the queue. Samples
    /// beyond what is queued are left untouched: the device treats the
    /// unfilled tail as silence.
    pub fn callback(&mut self, out: &mut Vec<i16>) -> (written: usize)
        ensures
            written == take_count(old(out)@.len() as int, old(self).relay@.len() as int),
            final(self).relay@ == old(self).relay@.skip(written as int),
            final(out)@.len() == old(out)@.len(),
            forall|i: int| 0 <= i < written ==> final(out)@[i] == old(self).relay@[i],
            forall|i: int|
                written <= i < old(out)@.len() ==> final(out)@[i] == old(out)@[i],
    {
        let n = out.len();
        self.relay.pull(out, n)
    }
}

/// One operation on the queue, for stating laws about whole histories: a
/// producer push of some samples, or a consumer pull of a requested count.
pub enum AudioOp {
    PushSamples { samples: Seq<i16> },
    PullRequest { requested: nat },
}

/// The queue contents after one operation.
pub open spec fn audio_step(q: Seq<i16>, op: AudioOp) -> Seq<i16> {
    match op {
        AudioOp::PushSamples { samples } => q + samples,
        AudioOp::PullRequest { requested } => q.skip(
            take_count(requested as int, q.len() as int),
        ),
    }
}

/// The samples one operation hands to the consumer (a push hands out none).
pub open spec fn audio_output(q: Seq<i16>, op: AudioOp) -> Seq<i16> {
    match op {
        AudioOp::PushSamples { .. } => Seq::<i16>::empty(),
        AudioOp::PullRequest { requested } => q.take(
            take_count(requested as int, q.len() as int),
        ),
    }
}

/// The queue contents after a history of operations, starting empty.
pub open spec fn queue_after(ops: Seq<AudioOp>) -> Seq<i16>
    decreases ops.len(),
{
    if ops.len() == 0 {
        Seq::<i16>::empty()
    } else {
        audio_step(queue_after(ops.drop_last()), ops.last())
    }
}

/// All samples pushed over a history, in order.
pub open spec fn pushed_over(ops: Seq<AudioOp>) -> Seq<i16>
    decreases ops.len(),
{
    if ops.len() == 0 {
        Seq::<i16>::empty()
    } else {
        pushed_over(ops.drop_last()) + match ops.last() {
            AudioOp::PushSamples { samples } => samples,
            AudioOp::PullRequest { .. } => Seq::<i16>::empty(),
        }
    }
}

/// All samples handed out by pulls over a history, in order.
pub open spec fn pulled_over(ops: Seq<AudioOp>) -> Seq<i16>
    decreases ops.len(),
{
    if ops.len() == 0 {
        Seq::<i16>::empty()
    } else {
        pulled_over(ops.drop_last()) + audio_output(queue_after(ops.drop_last()), ops.last())
    }
}

/// FIFO law: over any history of pushes interleaved with pulls, starting from
/// an empty queue, the samples handed out by the pulls are, in order, exactly
/// a prefix of the samples pushed, and what remains queued is the rest. Each
/// exec operation matches one step of this history: `push` with a present
/// buffer appends its samples (`audio_step` of a push), and `pull` removes
/// and hands out the head (`audio_step` and `audio_output` of a pull).
pub proof fn lemma_audio_fifo(ops: Seq<AudioOp>)
    ensures
        pulled_over(ops) + queue_after(ops) == pushed_over(ops),
        pulled_over(ops) == pushed_over(ops).take(pulled_over(ops).len() as int),
    decreases ops.len(),
{
    if ops.len() == 0 {
        assert(pulled_over(ops) + queue_after(ops) =~= pushed_over(ops));
    } else {
        let prev = ops.drop_last();
        lemma_audio_fifo(prev);
        let q = queue_after(prev);
        match ops.last() {
            AudioOp::PushSamples { samples } => {
                assert(pulled_over(ops) + queue_after(ops) =~= (pulled_over(prev) + q)
                    + samples);
                assert(pushed_over(ops) =~= (pulled_over(prev) + q) + samples);
            },
            AudioOp::PullRequest { requested } => {
                let k = take_count(requested as int, q.len() as int);
                assert(q.take(k) + q.skip(k) =~= q);
                assert(pulled_over(ops) + queue_after(ops) =~= pulled_over(prev) + (q.take(k)
                    + q.skip(k)));
                assert(pulled_over(prev) + q =~= pushed_over(ops));
            },
        }
    }
    assert(pulled_over(ops) == pushed_over(ops).take(pulled_over(ops).len() as int)) by {
        assert(pushed_over(ops).take(pulled_over(ops).len() as int) =~= pulled_over(ops));
    }
}

} // verus!
