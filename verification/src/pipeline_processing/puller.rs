//! The puller of a sink: which frame to ask for next.
//!
//! A puller asks for the frames of its stream one after the other, by
//! rising frame number, and keeps a bounded number of requests in flight.
//! The first failure ends it.

use crate::pipeline_processing::node::{Caps, Request};
use crate::pipeline_processing::processing_context::Priority;
use vstd::prelude::*;

verus! {

/// Exit code of a pipeline whose puller ended without a failure.
pub const EXIT_OK: u8 = 0;

/// Exit code of a pipeline in which a pull failed.
pub const EXIT_FAILED: u8 = 1;

/// The state of a puller.
#[derive(Clone, Copy, Debug)]
pub struct Puller {
    output_priority: u8,
    caps: Caps,
    window: usize,
    next_frame: u64,
    in_flight: usize,
    failed: bool,
}

impl Puller {
    pub closed spec fn spec_output_priority(&self) -> u8 {
        self.output_priority
    }

    pub closed spec fn spec_caps(&self) -> Caps {
        self.caps
    }

    /// Number of requests that may be in flight at once.
    pub closed spec fn spec_window(&self) -> usize {
        self.window
    }

    /// The frame that is asked for next.
    pub closed spec fn spec_next_frame(&self) -> u64 {
        self.next_frame
    }

    /// Number of requests that were issued and have not come back.
    pub closed spec fn spec_in_flight(&self) -> usize {
        self.in_flight
    }

    /// Whether a pull has failed.
    pub closed spec fn spec_failed(&self) -> bool {
        self.failed
    }

    /// No more requests are in flight than the window allows.
    pub open spec fn wf(&self) -> bool {
        self.spec_in_flight() <= self.spec_window()
    }

    /// Whether the puller has a frame to ask for and room to ask.
    pub open spec fn spec_can_request(&self) -> bool {
        &&& !self.spec_failed()
        &&& self.spec_in_flight() < self.spec_window()
        &&& self.spec_next_frame() < u64::MAX
        &&& self.spec_caps().spec_holds(self.spec_next_frame())
    }

    /// A puller for the stream of a node with capabilities `caps`, whose
    /// requests carry the output priority `output_priority`.
    pub fn new(output_priority: u8, caps: Caps, window: usize) -> (puller: Self)
        ensures
            puller.wf(),
            puller.spec_output_priority() == output_priority,
            puller.spec_caps() == caps,
            puller.spec_window() == window,
            puller.spec_next_frame() == 0,
            puller.spec_in_flight() == 0,
            !puller.spec_failed(),
    {
        Puller { output_priority, caps, window, next_frame: 0, in_flight: 0, failed: false }
    }

    /// The next request, if there is a frame to ask for and room to ask.
    /// Requests come with rising frame numbers, each at the priority of
    /// its frame within the output stream of the puller.
    pub fn next_request(&mut self) -> (request: Option<Request>)
        requires
            old(self).wf(),
        ensures
            final(self).wf(),
            final(self).spec_output_priority() == old(self).spec_output_priority(),
            final(self).spec_caps() == old(self).spec_caps(),
            final(self).spec_window() == old(self).spec_window(),
            final(self).spec_failed() == old(self).spec_failed(),
            match request {
                Some(r) => {
                    &&& old(self).spec_can_request()
                    &&& r.spec_frame_number() == old(self).spec_next_frame()
                    &&& r.spec_priority() == Priority::spec_new(
                        old(self).spec_output_priority(),
                        old(self).spec_next_frame(),
                    )
                    &&& final(self).spec_next_frame() == old(self).spec_next_frame() + 1
                    &&& final(self).spec_in_flight() == old(self).spec_in_flight() + 1
                },
                None => {
                    &&& !old(self).spec_can_request()
                    &&& final(self).spec_next_frame() == old(self).spec_next_frame()
                    &&& final(self).spec_in_flight() == old(self).spec_in_flight()
                },
            },
    {
        if self.failed || self.in_flight >= self.window || self.next_frame == u64::MAX
            || !self.caps.holds(self.next_frame) {
            return None;
        }
        let frame = self.next_frame;
        self.next_frame = frame + 1;
        self.in_flight = self.in_flight + 1;
        Some(Request::new(Priority::new(self.output_priority, frame), frame))
    }

    /// Takes note that a request has come back, with a frame or with a
    /// failure. Says whether a request was in flight at all.
    pub fn completed(&mut self, succeeded: bool) -> (counted: bool)
        requires
            old(self).wf(),
        ensures
            final(self).wf(),
            final(self).spec_output_priority() == old(self).spec_output_priority(),
            final(self).spec_caps() == old(self).spec_caps(),
            final(self).spec_window() == old(self).spec_window(),
            final(self).spec_next_frame() == old(self).spec_next_frame(),
            counted == (old(self).spec_in_flight() > 0),
            final(self).spec_in_flight() == if counted {
                old(self).spec_in_flight() - 1
            } else {
                0
            },
            final(self).spec_failed() == (old(self).spec_failed() || (counted && !succeeded)),
    {
        if self.in_flight == 0 {
            return false;
        }
        self.in_flight = self.in_flight - 1;
        if !succeeded {
            self.failed = true;
        }
        true
    }

    /// Whether the puller is done: nothing is in flight and nothing more
    /// will be asked for.
    pub fn is_finished(&self) -> (finished: bool)
        ensures
            finished == (self.spec_in_flight() == 0 && (self.spec_failed() || self.spec_next_frame()
                == u64::MAX || !self.spec_caps().spec_holds(self.spec_next_frame()))),
    {
        self.in_flight == 0 && (self.failed || self.next_frame == u64::MAX || !self.caps.holds(
            self.next_frame,
        ))
    }

    /// The exit code of the pipeline: zero unless a pull has failed.
    pub fn exit_code(&self) -> (code: u8)
        ensures
            code == if self.spec_failed() {
                EXIT_FAILED
            } else {
                EXIT_OK
            },
    {
        if self.failed {
            EXIT_FAILED
        } else {
            EXIT_OK
        }
    }
}

} // verus!
