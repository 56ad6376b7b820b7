use crate::probe::ProbeError;
use vstd::prelude::*;

verus! {

/// Why constructing or driving a decode session failed.
#[derive(Debug, Copy, Clone, PartialEq, Eq, Structural)]
pub enum DecodeError {
    /// The container has no stream classifiable as video.
    NoVideoStream,
    /// The selected stream's codec parameters map to no available decoder.
    UnsupportedCodec,
    /// The pixel-format conversion context could not be built.
    ScalerInitFailed,
    /// The decoder rejected a submitted packet mid-stream.
    PacketSubmitFailed,
    /// Rescaling a decoded frame into the RGBA layout failed mid-stream.
    ConversionFailed,
}

/// One decoded frame, converted into tightly packed 32-bit RGBA.
#[derive(Debug, Clone, PartialEq, Eq)]
pub struct RgbaFrame {
    pub width: u32,
    pub height: u32,
    pub data: Vec<u8>,
}

impl RgbaFrame {
    /// The presentation handoff contract: exactly four bytes per pixel.
    pub open spec fn wf(self) -> bool {
        self.data@.len() == self.width * self.height * 4
    }
}

/// Where a decode session stands in its lifecycle.
#[derive(Debug, Copy, Clone, PartialEq, Eq, Structural)]
pub enum SessionPhase {
    /// The container is open and the demultiplexer initialized.
    Opened,
    /// The video stream to decode has been chosen.
    StreamSelected,
    /// Decoder and rescaler are constructed; packets can be consumed.
    DecoderReady,
    /// At least one receive call has run and more packets may remain.
    Draining,
    /// The packet sequence is exhausted or the stream failed; no further
    /// frame will be produced.
    EndOfStream,
}

/// Where the current receive call stands in its packet/frame protocol.
#[derive(Debug, Copy, Clone, PartialEq, Eq, Structural)]
pub enum DrainStep {
    /// No receive call is in progress.
    Idle,
    /// The next packet from the demultiplexer has been requested.
    AwaitPacket,
    /// A matching packet is being submitted to the decoder.
    AwaitSubmit,
    /// The decoder is being asked whether a frame is ready.
    AwaitFrame,
    /// A decoded frame is being run through the rescaler.
    AwaitConvert,
    /// The call is complete; its frames await collection.
    Done,
}

/// What the driver must do next to advance the current receive call.
#[derive(Debug, Copy, Clone, PartialEq, Eq, Structural)]
pub enum ReceiveAction {
    /// Pull the next packet from the demultiplexer.
    PullPacket,
    /// Submit the current packet to the decoder.
    SubmitPacket,
    /// Ask the decoder whether another frame is ready.
    PollFrame,
    /// Run the ready frame through the rescaler.
    ConvertFrame,
    /// The call is complete: collect its frames.
    Finish,
}

/// The decode pipeline for one imported file, as an explicit state
/// machine.
///
/// The session owns every decision of the pull-based decode loop — which
/// packets to skip, when to submit, how long to drain the decoder, when
/// the stream ends, and how each failure stops the pipeline — while the
/// blocking demultiplexer, decoder and rescaler calls are performed by
/// the driver, which reports each outcome back and performs the next
/// [`ReceiveAction`] it is told. Exactly one session is meant to be live
/// at a time; importing a new file replaces it wholesale.
#[derive(Debug)]
pub struct DecodeSession {
    /// Ordinal of the chosen video stream; meaningful once the phase has
    /// passed `StreamSelected`.
    pub stream_index: usize,
    /// Lifecycle phase.
    pub phase: SessionPhase,
    /// Position inside the current receive call, if one is in progress.
    pub step: DrainStep,
    /// Frames drained and converted so far by the current receive call.
    pub pending: Vec<RgbaFrame>,
}

impl DecodeSession {
    /// Every accumulated frame meets the RGBA handoff contract, and a
    /// session between receive calls holds no frames.
    pub open spec fn wf(self) -> bool {
        &&& forall|i: int| 0 <= i < self.pending@.len() ==> (#[trigger] self.pending@[i]).wf()
        &&& (self.step is Idle ==> self.pending@.len() == 0)
    }

    /// Record the outcome of opening the container at the probed path.
    /// Probing and decoding are independent passes, so the container is
    /// re-opened here; an unopenable path surfaces as `OpenFailed` and
    /// no session is constructed.
    pub fn open(container_opened: bool) -> (r: Result<DecodeSession, ProbeError>)
        ensures
            container_opened ==> (r matches Ok(s) && {
                &&& s.wf()
                &&& s.phase is Opened
                &&& s.step is Idle
                &&& s.pending@.len() == 0
            }),
            !container_opened ==> r == Err::<DecodeSession, ProbeError>(ProbeError::OpenFailed),
    {
        if container_opened {
            Ok(DecodeSession {
                stream_index: 0,
                phase: SessionPhase::Opened,
                step: DrainStep::Idle,
                pending: Vec::new(),
            })
        } else {
            Err(ProbeError::OpenFailed)
        }
    }

    /// Record the demultiplexer's "best video stream" answer. A
    /// container with no video stream fails with `NoVideoStream`, the
    /// session does not advance, and no decoder is ever constructed.
    pub fn select_stream(&mut self, best_video: Option<usize>) -> (r: Result<(), DecodeError>)
        requires
            old(self).wf(),
            old(self).phase is Opened,
        ensures
            final(self).wf(),
            best_video matches Some(i) ==> {
                &&& r is Ok
                &&& final(self).phase is StreamSelected
                &&& final(self).stream_index == i
                &&& final(self).step == old(self).step
                &&& final(self).pending == old(self).pending
            },
            best_video is None ==> r == Err::<(), DecodeError>(DecodeError::NoVideoStream)
                && *final(self) == *old(self),
    {
        match best_video {
            Some(index) => {
                self.stream_index = index;
                self.phase = SessionPhase::StreamSelected;
                Ok(())
            },
            None => Err(DecodeError::NoVideoStream),
        }
    }

    /// Record whether a decoder could be instantiated from the selected
    /// stream's codec parameters and whether the rescaler to 32-bit RGBA
    /// at the decoder's own size could be built. Either failure abandons
    /// the import and the session does not advance.
    pub fn init_decoder(&mut self, decoder_ok: bool, scaler_ok: bool) -> (r: Result<
        (),
        DecodeError,
    >)
        requires
            old(self).wf(),
            old(self).phase is StreamSelected,
        ensures
            final(self).wf(),
            !decoder_ok ==> r == Err::<(), DecodeError>(DecodeError::UnsupportedCodec)
                && *final(self) == *old(self),
            decoder_ok && !scaler_ok ==> r == Err::<(), DecodeError>(
                DecodeError::ScalerInitFailed,
            ) && *final(self) == *old(self),
            decoder_ok && scaler_ok ==> {
                &&& r is Ok
                &&& final(self).phase is DecoderReady
                &&& final(self).stream_index == old(self).stream_index
                &&& final(self).step == old(self).step
                &&& final(self).pending == old(self).pending
            },
    {
        if !decoder_ok {
            Err(DecodeError::UnsupportedCodec)
        } else if !scaler_ok {
            Err(DecodeError::ScalerInitFailed)
        } else {
            self.phase = SessionPhase::DecoderReady;
            Ok(())
        }
    }

    /// Whether the session has reached end of stream. Callers must stop
    /// invoking receive calls once it has, to avoid spinning.
    pub fn at_end(&self) -> (b: bool)
        ensures
            b == (self.phase is EndOfStream),
    {
        match self.phase {
            SessionPhase::EndOfStream => true,
            _ => false,
        }
    }

    /// Begin one receive call. A session already at end of stream
    /// completes the call immediately with no frames — it never restarts
    /// the stream — and otherwise the driver is sent for the next packet.
    pub fn begin_receive(&mut self) -> (a: ReceiveAction)
        requires
            old(self).wf(),
            old(self).step is Idle,
            old(self).phase is DecoderReady || old(self).phase is Draining || old(
                self,
            ).phase is EndOfStream,
        ensures
            final(self).wf(),
            final(self).stream_index == old(self).stream_index,
            final(self).pending@.len() == 0,
            old(self).phase is EndOfStream ==> a == ReceiveAction::Finish
                && final(self).phase is EndOfStream && final(self).step is Done,
            !(old(self).phase is EndOfStream) ==> a == ReceiveAction::PullPacket
                && final(self).phase is Draining && final(self).step is AwaitPacket,
    {
        match self.phase {
            SessionPhase::EndOfStream => {
                self.step = DrainStep::Done;
                ReceiveAction::Finish
            },
            _ => {
                self.phase = SessionPhase::Draining;
                self.step = DrainStep::AwaitPacket;
                ReceiveAction::PullPacket
            },
        }
    }

    /// Decide what to do with the next demultiplexed packet: a packet
    /// from any other stream is discarded and another pulled, one from
    /// the selected video stream is submitted to the decoder.
    pub fn on_packet(&mut self, packet_stream: usize) -> (a: ReceiveAction)
        requires
            old(self).wf(),
            old(self).step is AwaitPacket,
        ensures
            final(self).wf(),
            packet_stream == old(self).stream_index ==> a == ReceiveAction::SubmitPacket && {
                &&& final(self).step is AwaitSubmit
                &&& final(self).phase == old(self).phase
                &&& final(self).stream_index == old(self).stream_index
                &&& final(self).pending == old(self).pending
            },
            packet_stream != old(self).stream_index ==> a == ReceiveAction::PullPacket
                && *final(self) == *old(self),
    {
        if packet_stream == self.stream_index {
            self.step = DrainStep::AwaitSubmit;
            ReceiveAction::SubmitPacket
        } else {
            ReceiveAction::PullPacket
        }
    }

    /// The packet sequence ran out before a matching packet was found:
    /// the session reaches end of stream and the call completes with
    /// whatever frames had accumulated.
    pub fn on_packets_exhausted(&mut self) -> (a: ReceiveAction)
        requires
            old(self).wf(),
            old(self).step is AwaitPacket,
        ensures
            final(self).wf(),
            a == ReceiveAction::Finish,
            final(self).phase is EndOfStream,
            final(self).step is Done,
            final(self).stream_index == old(self).stream_index,
            final(self).pending == old(self).pending,
    {
        self.phase = SessionPhase::EndOfStream;
        self.step = DrainStep::Done;
        ReceiveAction::Finish
    }

    /// Record whether the decoder accepted the submitted packet. A
    /// rejected packet is surfaced as `PacketSubmitFailed` and the
    /// session stops at end of stream rather than continuing in an
    /// undefined state.
    pub fn on_submit_outcome(&mut self, submit_ok: bool) -> (r: Result<
        ReceiveAction,
        DecodeError,
    >)
        requires
            old(self).wf(),
            old(self).step is AwaitSubmit,
        ensures
            final(self).wf(),
            final(self).stream_index == old(self).stream_index,
            submit_ok ==> r == Ok::<ReceiveAction, DecodeError>(ReceiveAction::PollFrame) && {
                &&& final(self).step is AwaitFrame
                &&& final(self).phase == old(self).phase
                &&& final(self).pending == old(self).pending
            },
            !submit_ok ==> r == Err::<ReceiveAction, DecodeError>(DecodeError::PacketSubmitFailed)
                && {
                &&& final(self).phase is EndOfStream
                &&& final(self).step is Idle
                &&& final(self).pending@.len() == 0
            },
    {
        if submit_ok {
            self.step = DrainStep::AwaitFrame;
            Ok(ReceiveAction::PollFrame)
        } else {
            self.phase = SessionPhase::EndOfStream;
            self.step = DrainStep::Idle;
            self.pending = Vec::new();
            Err(DecodeError::PacketSubmitFailed)
        }
    }

    /// Record whether the decoder has another frame ready from the
    /// current packet. One packet may yield zero, one or several frames;
    /// when no more are ready the call completes with what it drained.
    pub fn on_frame_poll(&mut self, frame_ready: bool) -> (a: ReceiveAction)
        requires
            old(self).wf(),
            old(self).step is AwaitFrame,
        ensures
            final(self).wf(),
            final(self).phase == old(self).phase,
            final(self).stream_index == old(self).stream_index,
            final(self).pending == old(self).pending,
            frame_ready ==> a == ReceiveAction::ConvertFrame && final(self).step is AwaitConvert,
            !frame_ready ==> a == ReceiveAction::Finish && final(self).step is Done,
    {
        if frame_ready {
            self.step = DrainStep::AwaitConvert;
            ReceiveAction::ConvertFrame
        } else {
            self.step = DrainStep::Done;
            ReceiveAction::Finish
        }
    }

    /// Accept one converted frame from the rescaler. The handoff
    /// contract demands exactly `width * height * 4` bytes of RGBA data;
    /// a buffer of any other size counts as a conversion failure, which
    /// aborts the drain and stops the session.
    pub fn on_converted(&mut self, width: u32, height: u32, data: Vec<u8>) -> (r: Result<
        ReceiveAction,
        DecodeError,
    >)
        requires
            old(self).wf(),
            old(self).step is AwaitConvert,
        ensures
            final(self).wf(),
            final(self).stream_index == old(self).stream_index,
            data@.len() == width * height * 4 ==> r == Ok::<ReceiveAction, DecodeError>(
                ReceiveAction::PollFrame,
            ) && {
                &&& final(self).step is AwaitFrame
                &&& final(self).phase == old(self).phase
                &&& final(self).pending@ == old(self).pending@.push(
                    (RgbaFrame { width, height, data }),
                )
            },
            data@.len() != width * height * 4 ==> r == Err::<ReceiveAction, DecodeError>(
                DecodeError::ConversionFailed,
            ) && {
                &&& final(self).phase is EndOfStream
                &&& final(self).step is Idle
                &&& final(self).pending@.len() == 0
            },
    {
        proof {
            assert((width as u128) * (height as u128) * 4 <= 0xffff_ffffu128 * 0xffff_ffffu128
                * 4) by (nonlinear_arith)
                requires
                    width as u128 <= 0xffff_ffffu128,
                    height as u128 <= 0xffff_ffffu128,
            ;
        }
        let expected: u128 = (width as u128) * (height as u128) * 4;
        if (data.len() as u128) == expected {
            self.pending.push(RgbaFrame { width, height, data });
            self.step = DrainStep::AwaitFrame;
            Ok(ReceiveAction::PollFrame)
        } else {
            self.phase = SessionPhase::EndOfStream;
            self.step = DrainStep::Idle;
            self.pending = Vec::new();
            Err(DecodeError::ConversionFailed)
        }
    }

    /// The rescaler itself failed on a decoded frame: the drain aborts,
    /// the error is surfaced, and the session stops at end of stream.
    pub fn on_convert_failed(&mut self) -> (e: DecodeError)
        requires
            old(self).wf(),
            old(self).step is AwaitConvert,
        ensures
            final(self).wf(),
            e == DecodeError::ConversionFailed,
            final(self).phase is EndOfStream,
            final(self).step is Idle,
            final(self).pending@.len() == 0,
            final(self).stream_index == old(self).stream_index,
    {
        self.phase = SessionPhase::EndOfStream;
        self.step = DrainStep::Idle;
        self.pending = Vec::new();
        DecodeError::ConversionFailed
    }

    /// Hand out the frames this receive call produced from its one
    /// matching packet, in decode order, leaving the session ready for
    /// the next call. An empty batch is not by itself end of stream: a
    /// packet often yields no visible frame while the decoder fills its
    /// internal buffers.
    pub fn frames_from_packet(&mut self) -> (frames: Vec<RgbaFrame>)
        requires
            old(self).wf(),
            old(self).step is Done,
        ensures
            final(self).wf(),
            frames == old(self).pending,
            forall|i: int| 0 <= i < frames@.len() ==> (#[trigger] frames@[i]).wf(),
            final(self).step is Idle,
            final(self).pending@.len() == 0,
            final(self).phase == old(self).phase,
            final(self).stream_index == old(self).stream_index,
    {
        let mut frames: Vec<RgbaFrame> = Vec::new();
        core::mem::swap(&mut frames, &mut self.pending);
        self.step = DrainStep::Idle;
        frames
    }
}

} // verus!
