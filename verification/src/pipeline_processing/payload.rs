//! What travels along the edges of the graph: a shared handle to a frame,
//! or to nothing, tagged with the name of what it holds.

use crate::pipeline_processing::buffers::{CpuBuffer, GpuBuffer};
use crate::pipeline_processing::error::Error;
use crate::pipeline_processing::frame::Frame;
use std::sync::Arc;
use vstd::prelude::*;
use vstd::std_specs::convert::FromSpecImpl;
use vstd::string::StringExecFns;

verus! {

/// `Arc::clone`: a second handle to the same allocation. The value behind
/// the new handle is the value behind the old one; nothing is copied.
#[verifier::external_body]
fn share<T>(handle: &Arc<T>) -> (other: Arc<T>)
    ensures
        other == *handle,
{
    Arc::clone(handle)
}

/// A value a node hands to its consumers.
///
/// Frames are held behind shared handles, so a payload is cheap to clone
/// and every clone refers to the same frame.
#[derive(Debug)]
pub enum Payload {
    /// The unit value: an acknowledgement that carries no data.
    Empty,
    /// A frame in host memory.
    CpuFrame(Arc<Frame<CpuBuffer>>),
    /// A frame in device memory.
    GpuFrame(Arc<Frame<GpuBuffer>>),
    /// A value of some other type, known here by its type name only.
    Other { type_label: String },
}

impl Clone for Payload {
    fn clone(&self) -> (copy: Self)
        ensures
            copy == *self,
    {
        match self {
            Payload::Empty => Payload::Empty,
            Payload::CpuFrame(frame) => Payload::CpuFrame(share(frame)),
            Payload::GpuFrame(frame) => Payload::GpuFrame(share(frame)),
            Payload::Other { type_label } => Payload::Other { type_label: type_label.clone() },
        }
    }
}

impl From<Frame<CpuBuffer>> for Payload {
    fn from(frame: Frame<CpuBuffer>) -> (payload: Self) {
        Payload::CpuFrame(Arc::new(frame))
    }
}

impl FromSpecImpl<Frame<CpuBuffer>> for Payload {
    open spec fn obeys_from_spec() -> bool {
        true
    }

    open spec fn from_spec(frame: Frame<CpuBuffer>) -> Self {
        Payload::CpuFrame(Arc::new(frame))
    }
}

impl From<Frame<GpuBuffer>> for Payload {
    fn from(frame: Frame<GpuBuffer>) -> (payload: Self) {
        Payload::GpuFrame(Arc::new(frame))
    }
}

impl FromSpecImpl<Frame<GpuBuffer>> for Payload {
    open spec fn obeys_from_spec() -> bool {
        true
    }

    open spec fn from_spec(frame: Frame<GpuBuffer>) -> Self {
        Payload::GpuFrame(Arc::new(frame))
    }
}

impl Payload {
    /// The name of the type of the value held.
    pub open spec fn spec_type_label(self) -> Seq<char> {
        match self {
            Payload::Empty => "()"@,
            Payload::CpuFrame(_) => "Frame<CpuBuffer>"@,
            Payload::GpuFrame(_) => "Frame<GpuBuffer>"@,
            Payload::Other { type_label } => type_label@,
        }
    }

    /// The error of a downcast to `expected` that this payload cannot serve.
    pub open spec fn is_mismatch(self, expected: Seq<char>, error: Error) -> bool {
        error matches Error::WrongPayloadType { expected: e, actual: a } && e@ == expected && a@
            == self.spec_type_label()
    }

    /// A payload that carries the unit value.
    pub fn empty() -> (payload: Self)
        ensures
            payload == Payload::Empty,
    {
        Payload::Empty
    }

    /// The name of the type of the value held.
    pub fn type_label(&self) -> (name: String)
        ensures
            name@ == self.spec_type_label(),
    {
        match self {
            Payload::Empty => String::from_str("()"),
            Payload::CpuFrame(_) => String::from_str("Frame<CpuBuffer>"),
            Payload::GpuFrame(_) => String::from_str("Frame<GpuBuffer>"),
            Payload::Other { type_label } => type_label.clone(),
        }
    }

    fn mismatch(&self, expected: &'static str) -> (error: Error)
        ensures
            self.is_mismatch(expected@, error),
    {
        Error::WrongPayloadType { expected: String::from_str(expected), actual: self.type_label() }
    }

    /// A handle to the host frame held, or the type mismatch.
    pub fn downcast_cpu_frame(&self) -> (frame: Result<Arc<Frame<CpuBuffer>>, Error>)
        ensures
            match frame {
                Ok(f) => *self == Payload::CpuFrame(f),
                Err(e) => !(self is CpuFrame) && self.is_mismatch("Frame<CpuBuffer>"@, e),
            },
    {
        match self {
            Payload::CpuFrame(frame) => Ok(share(frame)),
            _ => Err(self.mismatch("Frame<CpuBuffer>")),
        }
    }

    /// A handle to the device frame held, or the type mismatch.
    pub fn downcast_gpu_frame(&self) -> (frame: Result<Arc<Frame<GpuBuffer>>, Error>)
        ensures
            match frame {
                Ok(f) => *self == Payload::GpuFrame(f),
                Err(e) => !(self is GpuFrame) && self.is_mismatch("Frame<GpuBuffer>"@, e),
            },
    {
        match self {
            Payload::GpuFrame(frame) => Ok(share(frame)),
            _ => Err(self.mismatch("Frame<GpuBuffer>")),
        }
    }

    /// Whether the payload carries the unit value.
    pub fn is_empty(&self) -> (empty: bool)
        ensures
            empty == (self is Empty),
    {
        match self {
            Payload::Empty => true,
            _ => false,
        }
    }
}

} // verus!
