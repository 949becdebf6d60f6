//! The session controller: a one-way state machine
//! `Idle -> FormatNegotiated -> BufferPrimed -> Streaming -> Stopped`.
//! It negotiates the stream format, sizes and primes the latency buffer,
//! records the start of both streams, and ends the session terminally. The
//! caller performs the device work (enumeration, stream construction,
//! starting and stopping) and feeds the outcomes in as plain values.

use crate::buffer::LatencyBuffer;
use crate::format::OutputConfigRange;
use crate::format::StreamFormat;
use crate::format::config_supports;
use crate::format::find_output_config;
use crate::format::latency_samples;
use crate::format::spec_latency_samples;
use vstd::prelude::*;

verus! {

/// The controller's position in its one-way lifecycle.
#[derive(Clone, Copy, PartialEq, Eq, Structural, Debug)]
pub enum SessionState {
    Idle,
    FormatNegotiated,
    BufferPrimed,
    Streaming,
    Stopped,
}

/// The fatal failures that abort a session before streaming begins.
/// Transient overrun and underrun are not errors: the callbacks report them
/// as non-fatal diagnostics and recover on their own.
#[derive(Clone, Copy, PartialEq, Eq, Structural, Debug)]
pub enum SessionError {
    /// No input or no output endpoint was available.
    DeviceNotFound,
    /// The output endpoint offers no configuration compatible with the
    /// input format (or the input format itself is degenerate).
    FormatMismatch,
    /// An endpoint rejected stream construction or refused to start.
    StreamStartFailure,
}

/// Whether negotiation must succeed: both endpoints are present, the input
/// format is valid, and some output configuration supports it.
pub open spec fn negotiation_succeeds(
    input: Option<StreamFormat>,
    configs: Option<Seq<OutputConfigRange>>,
) -> bool {
    &&& input is Some
    &&& configs is Some
    &&& (input->0).valid()
    &&& exists|j: int|
        0 <= j < (configs->0).len() && config_supports((configs->0)[j], input->0)
}

/// The session controller. Created idle; every transition moves forward,
/// and `Stopped` is terminal.
pub struct Session {
    pub state: SessionState,
    pub format: Option<StreamFormat>,
}

impl Session {
    /// Once past `Idle`, the controller carries the negotiated, valid
    /// format.
    pub open spec fn well_formed(self) -> bool {
        &&& (self.state is Idle ==> self.format is None)
        &&& (!(self.state is Idle) ==> self.format is Some && (self.format->0).valid())
    }

    /// A fresh, idle controller.
    pub fn new() -> (s: Session)
        ensures
            s.state == SessionState::Idle,
            s.format.is_none(),
            s.well_formed(),
    {
        Session { state: SessionState::Idle, format: None }
    }

    /// `Idle -> FormatNegotiated`. `input` is the input endpoint's format
    /// (`None`: no input device); `configs` are the output endpoint's
    /// supported configurations (`None`: no output device). Succeeds exactly
    /// when both endpoints exist, the input format is valid, and the output
    /// offers a compatible configuration; otherwise reports which fatal
    /// error occurred and stays idle.
    pub fn negotiate(
        &mut self,
        input: Option<StreamFormat>,
        configs: Option<&Vec<OutputConfigRange>>,
    ) -> (r: Result<(), SessionError>)
        requires
            old(self).state == SessionState::Idle,
            old(self).well_formed(),
        ensures
            final(self).well_formed(),
            r is Ok <==> negotiation_succeeds(
                input,
                match configs {
                    Some(v) => Some(v@),
                    None => None,
                },
            ),
            r is Ok ==> final(self).state == SessionState::FormatNegotiated && final(self).format
                == input,
            r is Err ==> *final(self) == *old(self),
            (input is None || configs is None) ==> r == Err::<(), SessionError>(
                SessionError::DeviceNotFound,
            ),
            r is Err && input is Some && configs is Some ==> r == Err::<(), SessionError>(
                SessionError::FormatMismatch,
            ),
    {
        let fmt = match input {
            Some(f) => f,
            None => {
                return Err(SessionError::DeviceNotFound);
            },
        };
        let cfgs = match configs {
            Some(c) => c,
            None => {
                return Err(SessionError::DeviceNotFound);
            },
        };
        if fmt.channels == 0 || fmt.sample_rate == 0 {
            return Err(SessionError::FormatMismatch);
        }
        match find_output_config(cfgs, fmt) {
            Some(i) => {
                proof {
                    let cs: Option<Seq<OutputConfigRange>> = Some(cfgs@);
                    assert((i as int) < (cs->0).len());
                    assert(config_supports((cs->0)[i as int], input->0));
                }
                self.state = SessionState::FormatNegotiated;
                self.format = Some(fmt);
                Ok(())
            },
            None => {
                proof {
                    assert(!negotiation_succeeds(input, Some(cfgs@)));
                }
                Err(SessionError::FormatMismatch)
            },
        }
    }

    /// `FormatNegotiated -> BufferPrimed`. Sizes the latency buffer at twice
    /// the latency window of `latency_ms` milliseconds, constructs it, and
    /// primes it with one full window of the silence value `zero`, so
    /// playback has a standing latency window of data before capture
    /// produces anything.
    pub fn prepare_buffer<T: Copy>(&mut self, latency_ms: u32, zero: T) -> (buf: LatencyBuffer<
        T,
    >)
        requires
            old(self).state == SessionState::FormatNegotiated,
            old(self).well_formed(),
            2 * spec_latency_samples(old(self).format->0, latency_ms as nat) <= usize::MAX,
        ensures
            final(self).well_formed(),
            final(self).state == SessionState::BufferPrimed,
            final(self).format == old(self).format,
            buf.inv(),
            buf.capacity() == 2 * spec_latency_samples(old(self).format->0, latency_ms as nat),
            buf.contents() == Seq::new(
                spec_latency_samples(old(self).format->0, latency_ms as nat),
                |i: int| zero,
            ),
    {
        let fmt = match self.format {
            Some(f) => f,
            None => unreached(),
        };
        let window = latency_samples(fmt, latency_ms);
        let window_len: usize = window as usize;
        let mut buf: LatencyBuffer<T> = LatencyBuffer::new(2 * window_len, zero);
        buf.prime(window_len, zero);
        proof {
            assert(buf.contents() =~= Seq::new(
                spec_latency_samples(old(self).format->0, latency_ms as nat),
                |i: int| zero,
            ));
        }
        self.state = SessionState::BufferPrimed;
        buf
    }

    /// `BufferPrimed -> Streaming`. The caller reports whether each endpoint
    /// accepted and started its stream; the session starts streaming exactly
    /// when both did, and otherwise reports the fatal start failure and
    /// stays where it was.
    pub fn start(&mut self, input_started: bool, output_started: bool) -> (r: Result<
        (),
        SessionError,
    >)
        requires
            old(self).state == SessionState::BufferPrimed,
            old(self).well_formed(),
        ensures
            final(self).well_formed(),
            r is Ok <==> input_started && output_started,
            r is Ok ==> final(self).state == SessionState::Streaming,
            r is Ok ==> final(self).format == old(self).format,
            r is Err ==> r == Err::<(), SessionError>(SessionError::StreamStartFailure),
            r is Err ==> *final(self) == *old(self),
    {
        if input_started && output_started {
            self.state = SessionState::Streaming;
            Ok(())
        } else {
            Err(SessionError::StreamStartFailure)
        }
    }

    /// `Streaming -> Stopped`, after the run duration elapses or on an
    /// unrecoverable stream error. Terminal: no transition leaves `Stopped`.
    pub fn stop(&mut self)
        requires
            old(self).state == SessionState::Streaming,
            old(self).well_formed(),
        ensures
            final(self).well_formed(),
            final(self).state == SessionState::Stopped,
            final(self).format == old(self).format,
    {
        self.state = SessionState::Stopped;
    }
}

} // verus!
