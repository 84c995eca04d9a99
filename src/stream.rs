//! Bookkeeping of an interleaved sample stream: which channel each pulled sample
//! belongs to, and when the stream's format has to be looked up again.
use vstd::prelude::*;

verus! {

/// The decisions made around each pull from an interleaved stream.
///
/// The stream announces how many samples remain in its current span; at each span
/// boundary its channel count and sample rate are read again and compared with
/// the cached ones. Within a span, samples are attributed to channels in turn.
pub struct StreamTracker {
    /// The channel that the next pulled sample belongs to.
    next_channel_index: u16,
    /// Samples left before the format must be read again; `None` for a span
    /// without end.
    cached_span_len: Option<usize>,
    /// The channel count read at the last span boundary.
    cached_channels: u16,
    /// The sample rate read at the last span boundary.
    cached_sample_rate: u32,
}

/// A format that the stream reported at a span boundary and that differs from the
/// one cached before.
#[derive(Clone, Copy, Debug, PartialEq, Eq, Structural)]
pub struct FormatChange {
    pub num_channels: u16,
    pub sample_rate: u32,
}

impl StreamTracker {
    pub closed spec fn spec_next_channel(&self) -> u16 {
        self.next_channel_index
    }

    pub closed spec fn spec_span_len(&self) -> Option<usize> {
        self.cached_span_len
    }

    pub closed spec fn spec_channels(&self) -> u16 {
        self.cached_channels
    }

    pub closed spec fn spec_sample_rate(&self) -> u32 {
        self.cached_sample_rate
    }

    /// The next channel index lies within the cached channel count (it is zero
    /// while the count is zero).
    pub open spec fn wf(&self) -> bool {
        if self.spec_channels() == 0 {
            self.spec_next_channel() == 0
        } else {
            self.spec_next_channel() < self.spec_channels()
        }
    }

    /// A tracker that reads the format before the first pull: no channels and a
    /// sample rate of zero are cached.
    pub fn new() -> (r: Self)
        ensures
            r.wf(),
            r.spec_next_channel() == 0,
            r.spec_span_len() == Some(0usize),
            r.spec_channels() == 0,
            r.spec_sample_rate() == 0,
    {
        StreamTracker {
            next_channel_index: 0,
            cached_span_len: Some(0),
            cached_channels: 0,
            cached_sample_rate: 0,
        }
    }

    /// The channel count cached at the last span boundary.
    pub fn channels(&self) -> (r: u16)
        ensures
            r == self.spec_channels(),
    {
        self.cached_channels
    }

    /// The sample rate cached at the last span boundary.
    pub fn sample_rate(&self) -> (r: u32)
        ensures
            r == self.spec_sample_rate(),
    {
        self.cached_sample_rate
    }

    /// Called before each pull. Returns whether a span boundary has been reached, in
    /// which case the caller reads the stream's format and hands it to
    /// `start_span` before pulling. Otherwise one sample of the span is counted off.
    pub fn begin_pull(&mut self) -> (at_boundary: bool)
        requires
            old(self).wf(),
        ensures
            final(self).wf(),
            at_boundary == (old(self).spec_span_len() == Some(0usize)),
            final(self).spec_span_len() == match old(self).spec_span_len() {
                Some(n) => if n == 0 { Some(0usize) } else { Some((n - 1) as usize) },
                None => None,
            },
            final(self).spec_next_channel() == old(self).spec_next_channel(),
            final(self).spec_channels() == old(self).spec_channels(),
            final(self).spec_sample_rate() == old(self).spec_sample_rate(),
    {
        match self.cached_span_len {
            Some(n) => {
                if n == 0 {
                    true
                } else {
                    self.cached_span_len = Some(n - 1);
                    false
                }
            },
            None => false,
        }
    }

    /// Starts a span with the format that the stream reports now: the next sample
    /// belongs to the first channel. Returns the new format where it differs from
    /// the cached one, which it then replaces.
    pub fn start_span(&mut self, span_len: Option<usize>, channels: u16, sample_rate: u32) -> (r:
        Option<FormatChange>)
        ensures
            final(self).wf(),
            final(self).spec_next_channel() == 0,
            final(self).spec_span_len() == span_len,
            final(self).spec_channels() == channels,
            final(self).spec_sample_rate() == sample_rate,
            r == if channels != old(self).spec_channels() || sample_rate
                != old(self).spec_sample_rate() {
                Some(FormatChange { num_channels: channels, sample_rate })
            } else {
                None::<FormatChange>
            },
    {
        self.next_channel_index = 0;
        self.cached_span_len = span_len;
        if channels != self.cached_channels || sample_rate != self.cached_sample_rate {
            self.cached_channels = channels;
            self.cached_sample_rate = sample_rate;
            Some(FormatChange { num_channels: channels, sample_rate })
        } else {
            None
        }
    }

    /// Called after a sample was pulled: returns the channel that it belongs to and
    /// moves on to the next channel, wrapping around. With no channels cached the
    /// sample belongs to none.
    pub fn on_sample(&mut self) -> (r: Option<u16>)
        requires
            old(self).wf(),
        ensures
            final(self).wf(),
            r == if old(self).spec_channels() == 0 {
                None::<u16>
            } else {
                Some(old(self).spec_next_channel())
            },
            final(self).spec_next_channel() == if old(self).spec_channels() == 0 {
                0
            } else {
                ((old(self).spec_next_channel() + 1) % (old(self).spec_channels() as int)) as u16
            },
            final(self).spec_span_len() == old(self).spec_span_len(),
            final(self).spec_channels() == old(self).spec_channels(),
            final(self).spec_sample_rate() == old(self).spec_sample_rate(),
    {
        if self.cached_channels == 0 {
            None
        } else {
            let index = self.next_channel_index;
            self.next_channel_index = ((index as u32 + 1) % (self.cached_channels as u32)) as u16;
            Some(index)
        }
    }
}

} // verus!
