//! Per-channel sliding windows of the most recent samples of an interleaved stream.
use vstd::prelude::*;

use crate::ring::ring_enqueue;
use crate::ring::ring_fill_default;
use crate::ring::ring_get;
use crate::ring::ring_items;
use crate::ring::ring_new;
use crate::ring::SampleRing;
use crate::WINDOW;

verus! {

/// A window of nothing but silence (the bit pattern of `0.0`).
pub open spec fn silent_window() -> Seq<u32> {
    Seq::new(WINDOW as nat, |_i: int| 0u32)
}

/// `n` silent windows, one per channel.
pub open spec fn silent_windows(n: nat) -> Seq<Seq<u32>> {
    Seq::new(n, |_c: int| silent_window())
}

/// The window `w` after `sample` arrives: the oldest value leaves, the new one
/// becomes the last.
pub open spec fn slide(w: Seq<u32>, sample: u32) -> Seq<u32> {
    w.drop_first().push(sample)
}

/// The windows `ws` after `sample` arrives on `channel`; a channel beyond the
/// format leaves them as they were.
pub open spec fn observe_step(ws: Seq<Seq<u32>>, sample: u32, channel: u16) -> Seq<Seq<u32>> {
    if (channel as int) < ws.len() {
        ws.update(channel as int, slide(ws[channel as int], sample))
    } else {
        ws
    }
}

/// The windows `ws` after each `(sample, channel)` of `events` arrives, in order.
pub open spec fn observe_all(ws: Seq<Seq<u32>>, events: Seq<(u32, u16)>) -> Seq<Seq<u32>>
    decreases events.len(),
{
    if events.len() == 0 {
        ws
    } else {
        observe_step(observe_all(ws, events.drop_last()), events.last().0, events.last().1)
    }
}

/// The samples of `events` that arrive on `channel`, in arrival order.
pub open spec fn channel_samples(events: Seq<(u32, u16)>, channel: u16) -> Seq<u32>
    decreases events.len(),
{
    if events.len() == 0 {
        Seq::empty()
    } else if events.last().1 == channel {
        channel_samples(events.drop_last(), channel).push(events.last().0)
    } else {
        channel_samples(events.drop_last(), channel)
    }
}

/// The last `WINDOW` values of silence followed by `samples`.
pub open spec fn recent_window(samples: Seq<u32>) -> Seq<u32> {
    let all = silent_window() + samples;
    all.subrange(all.len() - WINDOW, all.len() as int)
}

proof fn lemma_slide_recent(samples: Seq<u32>, x: u32)
    ensures
        slide(recent_window(samples), x) == recent_window(samples.push(x)),
{
    let all = silent_window() + samples;
    assert(silent_window() + samples.push(x) =~= all.push(x));
    assert(slide(recent_window(samples), x) =~= recent_window(samples.push(x)));
}

proof fn lemma_observe_all_windows(num_channels: u16, events: Seq<(u32, u16)>)
    ensures
        observe_all(silent_windows(num_channels as nat), events).len()
            == num_channels,
        forall|c: int|
            0 <= c < num_channels ==> #[trigger] observe_all(
                silent_windows(num_channels as nat),
                events,
            )[c] == recent_window(channel_samples(events, c as u16)),
    decreases events.len(),
{
    let start = silent_windows(num_channels as nat);
    if events.len() == 0 {
        assert forall|c: int| 0 <= c < num_channels implies #[trigger] observe_all(start, events)[c]
            == recent_window(channel_samples(events, c as u16)) by {
            assert(recent_window(Seq::empty()) =~= silent_window());
        }
    } else {
        let prev = events.drop_last();
        lemma_observe_all_windows(num_channels, prev);
        let (x, ch) = events.last();
        assert forall|c: int| 0 <= c < num_channels implies #[trigger] observe_all(start, events)[c]
            == recent_window(channel_samples(events, c as u16)) by {
            if c == ch as int {
                lemma_slide_recent(channel_samples(prev, c as u16), x);
            }
        }
    }
}

/// What position `i` of a window holds after the samples `s` arrived on its
/// channel: the sample that came `WINDOW - 1 - i` arrivals before the newest, or
/// silence where fewer have arrived.
pub open spec fn recent_at(s: Seq<u32>, i: int) -> u32 {
    if i + s.len() >= WINDOW {
        s[s.len() - WINDOW + i]
    } else {
        0u32
    }
}

/// After a format change to `num_channels` channels, whatever the interleaving of
/// the observations `events` across channels, each channel's window holds that
/// channel's `min(WINDOW, n)` most recent samples, in arrival order with the newest
/// last, where `n` samples have arrived on it; the older positions stay silent.
pub proof fn lemma_window_holds_recent_samples(num_channels: u16, events: Seq<(u32, u16)>)
    ensures
        observe_all(silent_windows(num_channels as nat), events).len() == num_channels,
        forall|c: int|
            0 <= c < num_channels ==> (#[trigger] observe_all(
                silent_windows(num_channels as nat),
                events,
            )[c]).len() == WINDOW,
        forall|c: int, i: int|
            0 <= c < num_channels && 0 <= i < WINDOW ==> #[trigger] observe_all(
                silent_windows(num_channels as nat),
                events,
            )[c][i] == recent_at(channel_samples(events, c as u16), i),
{
    lemma_observe_all_windows(num_channels, events);
}

/// A format change discards all history: right after one to `num_channels`
/// channels, every position of every channel's window is silence, and so is the
/// snapshot, their position-wise sum.
pub proof fn lemma_format_change_silences(num_channels: u16)
    ensures
        silent_windows(num_channels as nat).len() == num_channels,
        forall|c: int|
            0 <= c < num_channels ==> (#[trigger] silent_windows(num_channels as nat)[c]).len()
                == WINDOW,
        forall|c: int, i: int|
            0 <= c < num_channels && 0 <= i < WINDOW ==> #[trigger] silent_windows(
                num_channels as nat,
            )[c][i] == 0u32,
{
}

/// Collects a sliding window of samples into per-channel buffers, together with
/// the sample rate last reported by the stream.
pub struct Collector {
    /// One buffer for each channel of the current stream format.
    channel_buffers: Vec<SampleRing>,
    /// The sample rate cached at the last format change.
    cached_sample_rate: u32,
}

impl Collector {
    /// The windows, one per channel, each ordered oldest first.
    pub closed spec fn windows(&self) -> Seq<Seq<u32>> {
        self.channel_buffers@.map_values(|r: SampleRing| ring_items(r))
    }

    /// The sample rate cached at the last format change.
    pub closed spec fn spec_sample_rate(&self) -> u32 {
        self.cached_sample_rate
    }

    /// Every channel window holds exactly `WINDOW` samples.
    pub open spec fn wf(&self) -> bool {
        forall|c: int| 0 <= c < self.windows().len() ==> #[trigger] self.windows()[c].len() == WINDOW
    }

    /// A collector for a stream whose format has not been reported yet: no
    /// channels, and a sample rate of zero.
    pub fn new() -> (r: Self)
        ensures
            r.wf(),
            r.windows() == Seq::<Seq<u32>>::empty(),
            r.spec_sample_rate() == 0,
    {
        let r = Collector { channel_buffers: Vec::new(), cached_sample_rate: 0 };
        assert(r.windows() =~= Seq::<Seq<u32>>::empty());
        r
    }

    /// Number of channels of the current stream format.
    pub fn channel_count(&self) -> (n: usize)
        ensures
            n == self.windows().len(),
    {
        self.channel_buffers.len()
    }

    /// The sample rate cached at the last format change.
    pub fn sample_rate(&self) -> (r: u32)
        ensures
            r == self.spec_sample_rate(),
    {
        self.cached_sample_rate
    }

    /// Records one sample into the window of `channel_index`, evicting that window's
    /// oldest sample. Returns whether the channel exists; for a channel beyond the
    /// current format nothing changes.
    pub fn observe_sample(&mut self, sample: u32, channel_index: u16) -> (recorded: bool)
        requires
            old(self).wf(),
        ensures
            final(self).wf(),
            recorded == ((channel_index as int) < old(self).windows().len()),
            final(self).windows() == observe_step(old(self).windows(), sample, channel_index),
            final(self).spec_sample_rate() == old(self).spec_sample_rate(),
    {
        let c = channel_index as usize;
        if c < self.channel_buffers.len() {
            assert(ring_items(self.channel_buffers@[c as int]).len() == WINDOW) by {
                assert(self.windows()[c as int].len() == WINDOW);
            }
            ring_enqueue(&mut self.channel_buffers[c], sample);
            assert(self.windows() =~= old(self).windows().update(
                c as int,
                slide(old(self).windows()[c as int], sample),
            ));
            true
        } else {
            false
        }
    }

    /// Starts over for a new stream format: one silent window per channel, and the
    /// new sample rate. All earlier history is discarded.
    pub fn on_format_change(&mut self, num_channels: u16, sample_rate: u32)
        ensures
            final(self).wf(),
            final(self).windows() == silent_windows(num_channels as nat),
            final(self).spec_sample_rate() == sample_rate,
    {
        let mut buffers: Vec<SampleRing> = Vec::new();
        let mut i: u16 = 0;
        while i < num_channels
            invariant
                i <= num_channels,
                buffers@.len() == i,
                forall|c: int| 0 <= c < i ==> #[trigger] ring_items(buffers@[c]) == silent_window(),
            decreases num_channels - i,
        {
            let mut out = ring_new();
            ring_fill_default(&mut out);
            buffers.push(out);
            i = i + 1;
        }
        self.channel_buffers = buffers;
        self.cached_sample_rate = sample_rate;
        assert(self.windows() =~= silent_windows(num_channels as nat));
    }

    /// The sample at `position` (counted from the oldest) of channel `channel`'s window.
    pub fn sample_at(&self, channel: usize, position: usize) -> (v: u32)
        requires
            self.wf(),
            channel < self.windows().len(),
            position < WINDOW,
        ensures
            v == self.windows()[channel as int][position as int],
    {
        assert(self.windows()[channel as int].len() == WINDOW);
        ring_get(&self.channel_buffers[channel], position)
    }

    /// A point-in-time copy of every channel's window, oldest sample first. The
    /// snapshot of the stream is their position-wise sum.
    pub fn snapshot(&self) -> (r: Vec<Vec<u32>>)
        requires
            self.wf(),
        ensures
            r@.len() == self.windows().len(),
            forall|c: int| 0 <= c < r@.len() ==> #[trigger] r@[c]@ == self.windows()[c],
    {
        let mut out: Vec<Vec<u32>> = Vec::new();
        let n = self.channel_buffers.len();
        let mut c: usize = 0;
        while c < n
            invariant
                self.wf(),
                n == self.windows().len(),
                c <= n,
                out@.len() == c,
                forall|k: int| 0 <= k < c ==> #[trigger] out@[k]@ == self.windows()[k],
            decreases n - c,
        {
            let mut window: Vec<u32> = Vec::new();
            let mut i: usize = 0;
            while i < WINDOW
                invariant
                    self.wf(),
                    c < self.windows().len(),
                    i <= WINDOW,
                    window@ == self.windows()[c as int].subrange(0, i as int),
                decreases WINDOW - i,
            {
                let v = self.sample_at(c, i);
                window.push(v);
                i = i + 1;
                assert(window@ =~= self.windows()[c as int].subrange(0, i as int));
            }
            assert(window@ =~= self.windows()[c as int]);
            out.push(window);
            c = c + 1;
        }
        out
    }
}

} // verus!
