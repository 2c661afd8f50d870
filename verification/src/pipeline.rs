//! The per-stream pipeline: format negotiation, buffer decoding, peak
//! metering and encoder handoff.
//!
//! A stream starts waiting for its format.  The first accepted raw-audio
//! negotiation fixes rate and channel count and asks for an encoder bound to
//! them; once an encoder exists, later negotiations are ignored.  Every
//! delivered buffer is decoded into samples, merged into the rolling peak,
//! and handed on for encoding only if an encoder exists.  The rolling peak
//! is read and reset by the session's ticker.

use vstd::prelude::*;
use vstd::string::StringExecFns;
use crate::sample::{batch_peak, decoded_samples, peak_max};

verus! {

/// Which source a stream captures.
#[derive(Clone, Copy, Debug, PartialEq, Eq, Structural)]
pub enum StreamRole {
    Microphone,
    System,
}

/// Where a stream stands with its encoder.  `Pending` means an encoder was
/// asked for and the answer has not been recorded yet; `Absent` means the
/// last attempt failed, which leaves metering running and allows a later
/// negotiation to try again.
#[derive(Clone, Copy, Debug, PartialEq, Eq, Structural)]
pub enum EncoderState {
    NotRequested,
    Pending,
    Present,
    Absent,
}

/// A request to open an encoder, bound to an output path and the negotiated
/// format.
pub struct EncoderRequest {
    pub path: String,
    pub rate: u32,
    pub channels: u32,
}

/// Mathematical image of a [`StreamContext`].
pub struct StreamView {
    pub role: StreamRole,
    pub format: Option<(u32, u32)>,
    pub encoder: EncoderState,
    pub output_path: Seq<char>,
    pub peak: u32,
}

/// The per-source capture state: the role, the negotiated format once one
/// was accepted, the encoder state, the output path, and the rolling peak of
/// the current metering window as a sample magnitude bit pattern.
pub struct StreamContext {
    pub role: StreamRole,
    pub format: Option<(u32, u32)>,
    pub encoder: EncoderState,
    pub output_path: String,
    pub peak: u32,
}

impl View for StreamContext {
    type V = StreamView;

    open spec fn view(&self) -> StreamView {
        StreamView {
            role: self.role,
            format: self.format,
            encoder: self.encoder,
            output_path: self.output_path@,
            peak: self.peak,
        }
    }
}

/// How a format negotiation advances a stream, and whether it asks for an
/// encoder.  Only raw audio is accepted; once an encoder exists or is being
/// opened, the notification is ignored; otherwise the format is recorded and
/// an encoder bound to it is requested, exactly once per attempt.
pub open spec fn on_format_spec(c: StreamView, is_raw_audio: bool, rate: u32, channels: u32) -> (
    StreamView,
    bool,
) {
    if !is_raw_audio {
        (c, false)
    } else if c.encoder is Present || c.encoder is Pending {
        (c, false)
    } else {
        (
            StreamView {
                format: Some((rate, channels)),
                encoder: EncoderState::Pending,
                ..c
            },
            true,
        )
    }
}

/// How the answer to an encoder request advances a stream.  A success means
/// the one encoder of this stream's lifetime now exists; a failure leaves
/// the stream without one, metering untouched.
pub open spec fn set_encoder_spec(c: StreamView, created: bool) -> StreamView {
    if c.encoder is Pending {
        StreamView {
            encoder: if created {
                EncoderState::Present
            } else {
                EncoderState::Absent
            },
            ..c
        }
    } else {
        c
    }
}

/// How a buffer delivery advances a stream: no data segment is a no-op;
/// otherwise the bytes decode to samples, the batch peak merges into the
/// rolling peak, and the samples go to the encoder exactly if one exists.
pub open spec fn on_buffer_spec(c: StreamView, data: Option<Seq<u8>>) -> (
    StreamView,
    Option<Seq<u32>>,
) {
    match data {
        None => (c, None),
        Some(bytes) => {
            let samples = decoded_samples(bytes);
            (
                StreamView { peak: peak_max(c.peak, batch_peak(samples)), ..c },
                if c.encoder is Present {
                    Some(samples)
                } else {
                    None
                },
            )
        },
    }
}

impl StreamContext {
    /// A stream that has not negotiated a format yet.
    pub fn new(role: StreamRole, output_path: String) -> (r: StreamContext)
        ensures
            r@ == (StreamView {
                role,
                format: None,
                encoder: EncoderState::NotRequested,
                output_path: output_path@,
                peak: 0,
            }),
    {
        StreamContext { role, format: None, encoder: EncoderState::NotRequested, output_path, peak: 0 }
    }

    /// Apply a format negotiation notification.  The returned request, if
    /// any, asks for the encoder this stream is from now on bound to.
    pub fn on_format(&mut self, is_raw_audio: bool, rate: u32, channels: u32) -> (r: Option<
        EncoderRequest,
    >)
        ensures
            final(self)@ == on_format_spec(old(self)@, is_raw_audio, rate, channels).0,
            r is Some == on_format_spec(old(self)@, is_raw_audio, rate, channels).1,
            match r {
                Some(req) => req.path@ == old(self)@.output_path && req.rate == rate
                    && req.channels == channels,
                None => true,
            },
    {
        if !is_raw_audio {
            return None;
        }
        match self.encoder {
            EncoderState::Present | EncoderState::Pending => None,
            EncoderState::NotRequested | EncoderState::Absent => {
                self.format = Some((rate, channels));
                self.encoder = EncoderState::Pending;
                Some(EncoderRequest { path: self.output_path.clone(), rate, channels })
            },
        }
    }

    /// Record whether the requested encoder could be opened.
    pub fn set_encoder(&mut self, created: bool)
        ensures
            final(self)@ == set_encoder_spec(old(self)@, created),
    {
        match self.encoder {
            EncoderState::Pending => {
                self.encoder = if created {
                    EncoderState::Present
                } else {
                    EncoderState::Absent
                };
            },
            _ => {},
        }
    }

    /// Apply a buffer delivery.  The returned batch, if any, is what goes to
    /// the encoder.
    pub fn on_buffer(&mut self, data: Option<&Vec<u8>>) -> (r: Option<Vec<u32>>)
        ensures
            final(self)@ == on_buffer_spec(old(self)@, match data {
                Some(d) => Some(d@),
                None => None,
            }).0,
            ((match r {
                Some(samples) => Some(samples@),
                None => None,
            }) == on_buffer_spec(old(self)@, match data {
                Some(d) => Some(d@),
                None => None,
            }).1),
    {
        let bytes = match data {
            None => {
                return None;
            },
            Some(bytes) => bytes,
        };
        let samples = crate::sample::decode_samples(bytes);
        let bp = crate::sample::compute_batch_peak(&samples);
        if bp > self.peak {
            self.peak = bp;
        }
        match self.encoder {
            EncoderState::Present => Some(samples),
            _ => None,
        }
    }

    /// Read the rolling peak of the closing metering window and reset it for
    /// the next one.
    pub fn take_peak(&mut self) -> (r: u32)
        ensures
            r == old(self)@.peak,
            final(self)@ == (StreamView { peak: 0, ..old(self)@ }),
    {
        let p = self.peak;
        self.peak = 0;
        p
    }
}

/// A stream folded over a whole window of buffer deliveries.
pub open spec fn fold_buffers(c: StreamView, batches: Seq<Seq<u8>>) -> StreamView
    decreases batches.len(),
{
    if batches.len() == 0 {
        c
    } else {
        fold_buffers(on_buffer_spec(c, Some(batches[0])).0, batches.drop_first())
    }
}

/// The peak over a whole window of buffer deliveries: the largest sample
/// magnitude over every batch, as a bit pattern.
pub open spec fn window_peak(batches: Seq<Seq<u8>>) -> u32
    decreases batches.len(),
{
    if batches.len() == 0 {
        0
    } else {
        peak_max(batch_peak(decoded_samples(batches[0])), window_peak(batches.drop_first()))
    }
}

/// Law: the window peak is the maximum batch peak.  It dominates every
/// delivered batch's peak, and unless zero it is the peak of some batch of
/// the window.
pub proof fn lemma_window_peak_is_max(batches: Seq<Seq<u8>>)
    ensures
        forall|i: int|
            0 <= i < batches.len() ==> #[trigger] batch_peak(decoded_samples(batches[i]))
                <= window_peak(batches),
        window_peak(batches) == 0 || exists|i: int|
            0 <= i < batches.len() && #[trigger] batch_peak(decoded_samples(batches[i]))
                == window_peak(batches),
    decreases batches.len(),
{
    if batches.len() > 0 {
        let rest = batches.drop_first();
        lemma_window_peak_is_max(rest);
        assert forall|i: int|
            0 <= i < batches.len() implies #[trigger] batch_peak(decoded_samples(batches[i]))
            <= window_peak(batches) by {
            if i > 0 {
                assert(rest[i - 1] == batches[i]);
            }
        }
        if window_peak(batches) != 0 {
            if window_peak(batches) == batch_peak(decoded_samples(batches[0])) {
                assert(batch_peak(decoded_samples(batches[0])) == window_peak(batches));
            } else {
                let i = choose|i: int|
                    0 <= i < rest.len() && #[trigger] batch_peak(decoded_samples(rest[i]))
                        == window_peak(rest);
                assert(batch_peak(decoded_samples(batches[i + 1])) == window_peak(batches));
            }
        }
    }
}

/// Law: over a metering window, the rolling peak accumulates to exactly the
/// maximum sample magnitude over exactly the delivered batches.  Starting
/// from the reset accumulator (peak zero, as a tick leaves it), delivering a
/// scripted window of batches makes the peak — what the next tick reports —
/// equal `window_peak` of those batches, and every other part of the stream
/// is untouched.
pub proof fn lemma_metering_window(c: StreamView, batches: Seq<Seq<u8>>)
    ensures
        fold_buffers(c, batches).peak == peak_max(c.peak, window_peak(batches)),
        fold_buffers(c, batches) == (StreamView {
            peak: fold_buffers(c, batches).peak,
            ..c
        }),
        c.peak == 0 ==> fold_buffers(c, batches).peak == window_peak(batches),
    decreases batches.len(),
{
    if batches.len() > 0 {
        let c1 = on_buffer_spec(c, Some(batches[0])).0;
        lemma_metering_window(c1, batches.drop_first());
    }
}

} // verus!
