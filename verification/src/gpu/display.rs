//! A sink that shows frames in a window.
//!
//! The producer hands frames to a render thread through a bounded queue.
//! This module holds the rules of that hand-over and the decisions of the
//! render loop; the window, the swapchain and the drawing belong to the
//! caller.

use crate::nodes_gpu::histogram::{shader_dimension, to_shader_dimension, PushConstantData};
use crate::pipeline_processing::buffers::CpuBuffer;
use crate::pipeline_processing::error::Error;
use crate::pipeline_processing::frame::Frame;
use crate::pipeline_processing::parametrizable::{
    flag_fault,
    is_parameter_error,
    value_named,
    ParameterType,
    ParameterTypeDescriptor,
    ParameterValue,
    Parameters,
    ParametersDescriptor,
};
use crate::pipeline_processing::payload::Payload;
use std::sync::Arc;
use vstd::prelude::*;

verus! {

/// Number of frames that may wait for the render thread.
pub const QUEUE_CAPACITY: usize = 10;

/// Vertices of the triangle strip that covers the window.
pub const STRIP_VERTICES: u32 = 4;

/// How finished images are handed to the screen.
#[derive(Clone, Copy, Debug, PartialEq, Eq, Structural)]
pub enum PresentMode {
    /// The newest image replaces one that still waits.
    Mailbox,
    /// Images are shown in the order in which they were finished.
    Fifo,
}

/// The present mode for the `mailbox` parameter.
pub fn present_mode(mailbox: bool) -> (mode: PresentMode)
    ensures
        mode == if mailbox {
            PresentMode::Mailbox
        } else {
            PresentMode::Fifo
        },
{
    if mailbox {
        PresentMode::Mailbox
    } else {
        PresentMode::Fifo
    }
}

/// What became of a frame offered to the queue.
#[derive(Clone, Copy, Debug, PartialEq, Eq, Structural)]
pub enum SendOutcome {
    /// The frame is in the queue.
    Sent,
    /// The queue is full; the frame is not in it.
    Full,
    /// The render thread is gone.
    Disconnected,
}

/// What the sink answers its producer.
#[derive(Clone, Copy, Debug, PartialEq, Eq, Structural)]
pub enum SinkReply {
    /// The frame was taken or dropped; more frames are welcome.
    Accepted,
    /// The window is gone; there is no more work.
    Finished,
}

/// The answer for the outcome of a send: a frame that found the queue
/// full is dropped without a word, a sink without render thread is done.
pub open spec fn reply_of(outcome: SendOutcome) -> SinkReply {
    match outcome {
        SendOutcome::Sent => SinkReply::Accepted,
        SendOutcome::Full => SinkReply::Accepted,
        SendOutcome::Disconnected => SinkReply::Finished,
    }
}

/// The payload that stands for an answer: the empty payload for
/// "accepted", none for "finished".
pub open spec fn payload_of(reply: SinkReply) -> Option<Payload> {
    match reply {
        SinkReply::Accepted => Some(Payload::Empty),
        SinkReply::Finished => None,
    }
}

/// What the producer sees of the queue when it offers a frame: a sink that
/// blocks waits for room, so it never finds the queue full.
pub open spec fn outcome_of(blocking: bool, connected: bool, waiting: nat) -> SendOutcome {
    if !connected {
        SendOutcome::Disconnected
    } else if waiting < QUEUE_CAPACITY || blocking {
        SendOutcome::Sent
    } else {
        SendOutcome::Full
    }
}

/// What the producer has to do to get a frame into the queue.
#[derive(Clone, Copy, Debug, PartialEq, Eq, Structural)]
pub enum Offer {
    /// Nothing more: the sink has answered.
    Answered(SinkReply),
    /// Wait until the render thread has taken a frame, then offer again.
    WaitForRoom,
}

/// The producer's side of the sink and the frames that wait in between.
#[derive(Debug)]
pub struct Display {
    blocking: bool,
    connected: bool,
    queue: Vec<Arc<Frame<CpuBuffer>>>,
}

impl Display {
    /// The frames that wait for the render thread, oldest first.
    pub closed spec fn spec_queue(&self) -> Seq<Arc<Frame<CpuBuffer>>> {
        self.queue@
    }

    pub closed spec fn spec_blocking(&self) -> bool {
        self.blocking
    }

    pub closed spec fn spec_connected(&self) -> bool {
        self.connected
    }

    /// The queue never holds more than its capacity.
    pub open spec fn wf(&self) -> bool {
        self.spec_queue().len() <= QUEUE_CAPACITY
    }

    /// The sink takes two flags: whether images are presented in mailbox
    /// mode, which they are not unless it is asked for, and whether a
    /// full queue blocks the producer, which it does unless told otherwise.
    pub fn describe_parameters() -> (declared: ParametersDescriptor)
        ensures
            declared@.len() == 2,
            declared@[0].name@ == "mailbox"@,
            declared@[0].descriptor == ParameterTypeDescriptor::WithDefault(
                ParameterType::BoolParameter,
                ParameterValue::BoolParameter(false),
            ),
            declared@[1].name@ == "blocking"@,
            declared@[1].descriptor == ParameterTypeDescriptor::WithDefault(
                ParameterType::BoolParameter,
                ParameterValue::BoolParameter(true),
            ),
    {
        ParametersDescriptor::new().with(
            "mailbox",
            ParameterTypeDescriptor::WithDefault(
                ParameterType::BoolParameter,
                ParameterValue::BoolParameter(false),
            ),
        ).with(
            "blocking",
            ParameterTypeDescriptor::WithDefault(
                ParameterType::BoolParameter,
                ParameterValue::BoolParameter(true),
            ),
        )
    }

    /// A sink with an empty queue and a render thread that listens.
    pub fn new(blocking: bool) -> (sink: Self)
        ensures
            sink.wf(),
            sink.spec_queue().len() == 0,
            sink.spec_blocking() == blocking,
            sink.spec_connected(),
    {
        Display { blocking, connected: true, queue: Vec::new() }
    }

    /// The sink for the given parameters, and the mode in which its
    /// window presents.
    pub fn from_parameters(parameters: Parameters) -> (sink: Result<(Self, PresentMode), Error>)
        ensures
            match sink {
                Ok((s, mode)) => {
                    &&& s.wf()
                    &&& s.spec_queue().len() == 0
                    &&& s.spec_connected()
                    &&& value_named(parameters@, "mailbox"@) == Some(
                        ParameterValue::BoolParameter(mode == PresentMode::Mailbox),
                    )
                    &&& value_named(parameters@, "blocking"@) == Some(
                        ParameterValue::BoolParameter(s.spec_blocking()),
                    )
                },
                Err(e) => match flag_fault(parameters@, "mailbox"@) {
                    Some(fault) => is_parameter_error(e, "mailbox"@, fault),
                    None => flag_fault(parameters@, "blocking"@) matches Some(fault)
                        && is_parameter_error(e, "blocking"@, fault),
                },
            },
    {
        let mut parameters = parameters;
        proof {
            reveal_strlit("mailbox");
            reveal_strlit("blocking");
            assert("mailbox"@.len() == 7 && "blocking"@.len() == 8);
        }
        let mailbox = match parameters.take_bool("mailbox") {
            Ok(flag) => flag,
            Err(e) => {
                return Err(e);
            },
        };
        let blocking = match parameters.take_bool("blocking") {
            Ok(flag) => flag,
            Err(e) => {
                return Err(e);
            },
        };
        Ok((Self::new(blocking), present_mode(mailbox)))
    }

    /// Number of frames that wait for the render thread.
    pub fn waiting(&self) -> (waiting: usize)
        ensures
            waiting == self.spec_queue().len(),
    {
        self.queue.len()
    }

    /// Offers the frame of a payload to the render thread.
    ///
    /// A payload that is no host frame is an error. A frame that finds
    /// room is queued. A frame that finds the queue full is dropped by a
    /// sink that does not block, and kept back by one that does. A sink
    /// whose render thread is gone takes nothing and says so.
    pub fn process(&mut self, input: &Payload) -> (offer: Result<Offer, Error>)
        requires
            old(self).wf(),
        ensures
            final(self).wf(),
            final(self).spec_blocking() == old(self).spec_blocking(),
            final(self).spec_connected() == old(self).spec_connected(),
            match offer {
                Err(e) => {
                    &&& !(input is CpuFrame)
                    &&& input.is_mismatch("Frame<CpuBuffer>"@, e)
                    &&& final(self).spec_queue() == old(self).spec_queue()
                },
                Ok(o) => {
                    &&& input matches Payload::CpuFrame(frame)
                    &&& match outcome_of(
                        old(self).spec_blocking(),
                        old(self).spec_connected(),
                        old(self).spec_queue().len(),
                    ) {
                        SendOutcome::Sent => if old(self).spec_queue().len() < QUEUE_CAPACITY {
                            &&& o == Offer::Answered(SinkReply::Accepted)
                            &&& final(self).spec_queue() == old(self).spec_queue().push(*frame)
                        } else {
                            &&& o == Offer::WaitForRoom
                            &&& final(self).spec_queue() == old(self).spec_queue()
                        },
                        outcome => {
                            &&& o == Offer::Answered(reply_of(outcome))
                            &&& final(self).spec_queue() == old(self).spec_queue()
                        },
                    }
                },
            },
    {
        let frame = match input.downcast_cpu_frame() {
            Ok(frame) => frame,
            Err(e) => {
                return Err(e);
            },
        };
        if !self.connected {
            return Ok(Offer::Answered(SinkReply::Finished));
        }
        if self.queue.len() < QUEUE_CAPACITY {
            self.queue.push(frame);
            Ok(Offer::Answered(SinkReply::Accepted))
        } else if self.blocking {
            Ok(Offer::WaitForRoom)
        } else {
            Ok(Offer::Answered(SinkReply::Accepted))
        }
    }

    /// Hands the oldest waiting frame to the render thread, if one waits.
    pub fn take(&mut self) -> (frame: Option<Arc<Frame<CpuBuffer>>>)
        requires
            old(self).wf(),
        ensures
            final(self).wf(),
            final(self).spec_blocking() == old(self).spec_blocking(),
            final(self).spec_connected() == old(self).spec_connected(),
            match frame {
                Some(f) => {
                    &&& old(self).spec_queue().len() > 0
                    &&& f == old(self).spec_queue()[0]
                    &&& final(self).spec_queue() == old(self).spec_queue().subrange(
                        1,
                        old(self).spec_queue().len() as int,
                    )
                },
                None => old(self).spec_queue().len() == 0 && final(self).spec_queue() == old(
                    self,
                ).spec_queue(),
            },
    {
        if self.queue.len() == 0 {
            None
        } else {
            let frame = self.queue.remove(0);
            assert(self.queue@ =~= old(self).queue@.subrange(1, old(self).queue@.len() as int));
            Some(frame)
        }
    }

    /// Notes that the render thread is gone. Frames that still wait are
    /// never shown.
    pub fn disconnect(&mut self)
        requires
            old(self).wf(),
        ensures
            final(self).wf(),
            !final(self).spec_connected(),
            final(self).spec_blocking() == old(self).spec_blocking(),
            final(self).spec_queue() == old(self).spec_queue(),
    {
        self.connected = false;
    }
}

/// The answer of the sink for the outcome of a send.
pub fn reply(outcome: SendOutcome) -> (reply: SinkReply)
    ensures
        reply == reply_of(outcome),
{
    match outcome {
        SendOutcome::Sent => SinkReply::Accepted,
        SendOutcome::Full => SinkReply::Accepted,
        SendOutcome::Disconnected => SinkReply::Finished,
    }
}

/// The payload that the sink hands back for an answer.
pub fn reply_payload(reply: SinkReply) -> (payload: Option<Payload>)
    ensures
        payload == payload_of(reply),
{
    match reply {
        SinkReply::Accepted => Some(Payload::empty()),
        SinkReply::Finished => None,
    }
}

/// A sink that does not block answers "accepted" to every frame for as
/// long as its render thread lives, however full the queue is, and never
/// makes its producer wait.
pub proof fn lemma_non_blocking_always_accepts(waiting: nat)
    ensures
        reply_of(outcome_of(false, true, waiting)) == SinkReply::Accepted,
        payload_of(reply_of(outcome_of(false, true, waiting))) == Some(Payload::Empty),
{
}

/// A sink that blocks never drops a frame: it never finds the queue full.
pub proof fn lemma_blocking_never_drops(connected: bool, waiting: nat)
    ensures
        outcome_of(true, connected, waiting) != SendOutcome::Full,
{
}

/// Whether the render loop goes on after an event.
#[derive(Clone, Copy, Debug, PartialEq, Eq, Structural)]
pub enum ControlFlow {
    Continue,
    Exit,
}

/// The window events the render loop reacts to.
#[derive(Clone, Copy, Debug, PartialEq, Eq, Structural)]
pub enum WindowEvent {
    CloseRequested,
    Resized,
    Other,
}

/// How recreating the swapchain went.
#[derive(Clone, Copy, Debug, PartialEq, Eq, Structural)]
pub enum RecreateOutcome {
    Recreated,
    /// The window has a size no swapchain can have, as while it is resized.
    UnsupportedDimensions,
}

/// How acquiring the next image of the swapchain went.
#[derive(Clone, Copy, Debug, PartialEq, Eq, Structural)]
pub enum AcquireOutcome {
    Acquired { suboptimal: bool },
    OutOfDate,
}

/// What the render thread found in the queue.
#[derive(Clone, Copy, Debug, PartialEq, Eq, Structural)]
pub enum Message {
    /// Nothing waits.
    Nothing,
    /// The producer has ended.
    Shutdown,
    /// A frame of this width and height.
    Frame { width: u64, height: u64 },
}

/// How submitting the drawing went.
#[derive(Clone, Copy, Debug, PartialEq, Eq, Structural)]
pub enum FlushOutcome {
    Flushed,
    OutOfDate,
    Failed,
}

/// What the render loop remembers from one redraw to the next.
#[derive(Clone, Copy, Debug, PartialEq, Eq, Structural)]
pub struct RenderLoop {
    /// Whether the swapchain has to be made anew before the next drawing.
    pub recreate_swapchain: bool,
    /// Width of the frame on show, as the shader is told.
    pub frame_width: u32,
    /// Height of the frame on show, as the shader is told.
    pub frame_height: u32,
}

impl RenderLoop {
    /// The loop before the first frame: a picture of one pixel.
    pub fn new() -> (state: Self)
        ensures
            state == (RenderLoop { recreate_swapchain: false, frame_width: 1, frame_height: 1 }),
    {
        RenderLoop { recreate_swapchain: false, frame_width: 1, frame_height: 1 }
    }

    /// Reacts to a window event: a close request ends the loop, a resize
    /// calls for a new swapchain.
    pub fn window_event(&mut self, event: WindowEvent) -> (flow: ControlFlow)
        ensures
            flow == if event == WindowEvent::CloseRequested {
                ControlFlow::Exit
            } else {
                ControlFlow::Continue
            },
            final(self).recreate_swapchain == (old(self).recreate_swapchain || event
                == WindowEvent::Resized),
            final(self).frame_width == old(self).frame_width,
            final(self).frame_height == old(self).frame_height,
    {
        match event {
            WindowEvent::CloseRequested => ControlFlow::Exit,
            WindowEvent::Resized => {
                self.recreate_swapchain = true;
                ControlFlow::Continue
            },
            WindowEvent::Other => ControlFlow::Continue,
        }
    }

    /// Takes note of a recreated swapchain and says whether to draw now.
    pub fn swapchain_recreated(&mut self, outcome: RecreateOutcome) -> (draw: bool)
        ensures
            draw == (outcome == RecreateOutcome::Recreated),
            final(self).recreate_swapchain == (old(self).recreate_swapchain && !draw),
            final(self).frame_width == old(self).frame_width,
            final(self).frame_height == old(self).frame_height,
    {
        match outcome {
            RecreateOutcome::Recreated => {
                self.recreate_swapchain = false;
                true
            },
            RecreateOutcome::UnsupportedDimensions => false,
        }
    }

    /// Takes note of how the next image was acquired and says whether to
    /// draw on it.
    pub fn image_acquired(&mut self, outcome: AcquireOutcome) -> (draw: bool)
        ensures
            draw == (outcome is Acquired),
            final(self).recreate_swapchain == (old(self).recreate_swapchain || outcome
                != AcquireOutcome::Acquired { suboptimal: false }),
            final(self).frame_width == old(self).frame_width,
            final(self).frame_height == old(self).frame_height,
    {
        match outcome {
            AcquireOutcome::Acquired { suboptimal } => {
                if suboptimal {
                    self.recreate_swapchain = true;
                }
                true
            },
            AcquireOutcome::OutOfDate => {
                self.recreate_swapchain = true;
                false
            },
        }
    }

    /// Takes what the queue held: a frame becomes the frame on show, the
    /// end of the producer ends the loop.
    pub fn message(&mut self, message: Message) -> (flow: ControlFlow)
        ensures
            flow == if message == Message::Shutdown {
                ControlFlow::Exit
            } else {
                ControlFlow::Continue
            },
            final(self).recreate_swapchain == old(self).recreate_swapchain,
            match message {
                Message::Frame { width, height } => {
                    &&& final(self).frame_width == shader_dimension(width)
                    &&& final(self).frame_height == shader_dimension(height)
                },
                _ => {
                    &&& final(self).frame_width == old(self).frame_width
                    &&& final(self).frame_height == old(self).frame_height
                },
            },
    {
        match message {
            Message::Nothing => ControlFlow::Continue,
            Message::Shutdown => ControlFlow::Exit,
            Message::Frame { width, height } => {
                self.frame_width = to_shader_dimension(width);
                self.frame_height = to_shader_dimension(height);
                ControlFlow::Continue
            },
        }
    }

    /// Takes note of how the drawing was submitted and says whether the
    /// next drawing waits for this one.
    pub fn flushed(&mut self, outcome: FlushOutcome) -> (chain: bool)
        ensures
            chain == (outcome == FlushOutcome::Flushed),
            final(self).recreate_swapchain == (old(self).recreate_swapchain || outcome
                == FlushOutcome::OutOfDate),
            final(self).frame_width == old(self).frame_width,
            final(self).frame_height == old(self).frame_height,
    {
        match outcome {
            FlushOutcome::Flushed => true,
            FlushOutcome::OutOfDate => {
                self.recreate_swapchain = true;
                false
            },
            FlushOutcome::Failed => false,
        }
    }

    /// What the fragment shader is pushed: the size of the frame on show.
    pub fn push_constants(&self) -> (constants: PushConstantData)
        ensures
            constants == (PushConstantData { width: self.frame_width, height: self.frame_height }),
    {
        PushConstantData { width: self.frame_width, height: self.frame_height }
    }
}

} // verus!
