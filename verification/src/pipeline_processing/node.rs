//! What a consumer asks of a node, and what a node says it can deliver.

use crate::pipeline_processing::error::Error;
use crate::pipeline_processing::processing_context::Priority;
use vstd::prelude::*;
use vstd::string::StringExecFns;

verus! {

/// Index of a node in its graph.
pub type NodeID = usize;

/// What a node can deliver.
#[derive(Clone, Copy, Debug, PartialEq, Eq, Structural)]
pub struct Caps {
    /// Number of frames in the stream; `None` when it does not end.
    pub frame_count: Option<u64>,
    /// Whether frames may be asked for in any order.
    pub random_access: bool,
}

/// A request for one frame.
#[derive(Clone, Copy, Debug)]
pub struct Request {
    frame_number: u64,
    priority: Priority,
}

impl Request {
    pub closed spec fn spec_frame_number(self) -> u64 {
        self.frame_number
    }

    pub closed spec fn spec_priority(self) -> Priority {
        self.priority
    }

    /// A request for frame `frame_number`, to be served at `priority`.
    pub fn new(priority: Priority, frame_number: u64) -> (request: Self)
        ensures
            request.spec_frame_number() == frame_number,
            request.spec_priority() == priority,
    {
        Request { frame_number, priority }
    }

    /// The frame asked for.
    pub fn frame_number(&self) -> (frame_number: u64)
        ensures
            frame_number == self.spec_frame_number(),
    {
        self.frame_number
    }

    /// The urgency of the request.
    pub fn priority(&self) -> (priority: Priority)
        ensures
            priority == self.spec_priority(),
    {
        self.priority
    }

    /// The same request for another frame; the priority follows the frame
    /// within the same output stream.
    pub fn with_frame_number(&self, frame_number: u64) -> (request: Self)
        ensures
            request.spec_frame_number() == frame_number,
            request.spec_priority().output() == self.spec_priority().output(),
            request.spec_priority().frame() == frame_number as int % 0x0100_0000_0000_0000,
    {
        Request { frame_number, priority: self.priority.for_frame(frame_number) }
    }
}

impl Caps {
    /// Whether a stream with these capabilities holds frame `frame_number`.
    pub open spec fn spec_holds(self, frame_number: u64) -> bool {
        match self.frame_count {
            Some(count) => frame_number < count,
            None => true,
        }
    }

    /// Whether a stream with these capabilities holds frame `frame_number`.
    pub fn holds(&self, frame_number: u64) -> (held: bool)
        ensures
            held == self.spec_holds(frame_number),
    {
        match self.frame_count {
            Some(count) => frame_number < count,
            None => true,
        }
    }
}

/// Whether a node with capabilities `caps` owes an answer to a request
/// for `frame_number`, given the frame it was asked for last, if any.
///
/// The frame must be one the stream holds. A node without random access
/// is, on top of that, asked for frames in strictly rising order only.
pub open spec fn admissible(caps: Caps, previous: Option<u64>, frame_number: u64) -> bool {
    &&& caps.spec_holds(frame_number)
    &&& caps.random_access || match previous {
        Some(last) => last < frame_number,
        None => true,
    }
}

impl Caps {
    /// Checks a request against the capabilities of the node it goes to.
    ///
    /// A frame number at or beyond the frame count is out of range. A
    /// frame number that does not rise, put to a node without random
    /// access, breaks the protocol between consumer and node.
    pub fn check_request(&self, previous: Option<u64>, frame_number: u64) -> (checked: Result<
        (),
        Error,
    >)
        ensures
            match checked {
                Ok(_) => admissible(*self, previous, frame_number),
                Err(e) => {
                    &&& !admissible(*self, previous, frame_number)
                    &&& match self.frame_count {
                        Some(count) if frame_number >= count => e == Error::FrameOutOfRange {
                            requested: frame_number,
                            available: count,
                        },
                        _ => e matches Error::Internal { message } && message@
                            == "frames of a stream without random access were asked for out of order"@,
                    }
                },
            },
    {
        match self.frame_count {
            Some(count) => {
                if frame_number >= count {
                    return Err(Error::FrameOutOfRange { requested: frame_number, available: count });
                }
            },
            None => {},
        }
        if !self.random_access {
            match previous {
                Some(last) => {
                    if last >= frame_number {
                        return Err(
                            Error::Internal {
                                message: String::from_str(
                                    "frames of a stream without random access were asked for out of order",
                                ),
                            },
                        );
                    }
                },
                None => {},
            }
        }
        Ok(())
    }
}

/// A node with random access owes an answer for every frame below its
/// frame count, whatever was asked before.
pub proof fn lemma_random_access_serves_any_order(
    caps: Caps,
    previous: Option<u64>,
    frame_number: u64,
)
    requires
        caps.random_access,
        caps.spec_holds(frame_number),
    ensures
        admissible(caps, previous, frame_number),
{
}

/// A node without random access owes an answer for every frame it holds
/// as long as the frame numbers rise strictly.
pub proof fn lemma_streaming_serves_rising_order(caps: Caps, previous: u64, frame_number: u64)
    requires
        !caps.random_access,
        caps.spec_holds(frame_number),
        previous < frame_number,
    ensures
        admissible(caps, Some(previous), frame_number),
        admissible(caps, None, frame_number),
{
}

} // verus!
