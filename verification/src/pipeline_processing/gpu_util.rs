//! Bringing a payload onto the GPU.

use crate::pipeline_processing::buffers::{Backing, Buffer, CpuBuffer, GpuBuffer};
use crate::pipeline_processing::error::Error;
use crate::pipeline_processing::frame::Frame;
use crate::pipeline_processing::payload::Payload;
use std::sync::Arc;
use vstd::prelude::*;

verus! {

/// What has to happen before a payload can be bound as a device frame.
#[derive(Debug)]
pub enum DeviceCoercion {
    /// Nothing: the payload is this device frame.
    Resident(Arc<Frame<GpuBuffer>>),
    /// The payload is this host frame in device-mapped memory, which is
    /// bound where it is.
    Bind(Arc<Frame<CpuBuffer>>),
    /// The payload is this host frame in plain memory, which has to be
    /// copied to the device.
    Upload(Arc<Frame<CpuBuffer>>),
}

/// What a payload is to a consumer that binds device frames; `None` when
/// the payload is no frame.
pub open spec fn device_coercion(payload: Payload) -> Option<DeviceCoercion> {
    match payload {
        Payload::GpuFrame(frame) => Some(DeviceCoercion::Resident(frame)),
        Payload::CpuFrame(frame) => if frame.spec_storage().spec_backing()
            == Backing::DeviceMapped {
            Some(DeviceCoercion::Bind(frame))
        } else {
            Some(DeviceCoercion::Upload(frame))
        },
        _ => None,
    }
}

/// Says what has to be done to bind `payload` as a device frame.
pub fn ensure_gpu_buffer_frame(payload: &Payload) -> (coercion: Result<DeviceCoercion, Error>)
    ensures
        match coercion {
            Ok(c) => device_coercion(*payload) == Some(c),
            Err(e) => device_coercion(*payload) is None && payload.is_mismatch(
                "Frame<GpuBuffer>"@,
                e,
            ),
        },
{
    match payload.downcast_gpu_frame() {
        Ok(frame) => Ok(DeviceCoercion::Resident(frame)),
        Err(mismatch) => match payload.downcast_cpu_frame() {
            Ok(frame) => {
                if frame.storage().is_device_mapped() {
                    Ok(DeviceCoercion::Bind(frame))
                } else {
                    Ok(DeviceCoercion::Upload(frame))
                }
            },
            Err(_) => Err(mismatch),
        },
    }
}

/// The device frame for a host frame whose bytes the device holds under
/// `buffer`: the same interpretation over that buffer.
pub fn to_gpu_buffer_frame(frame: &Frame<CpuBuffer>, buffer: GpuBuffer) -> (uploaded: Option<
    Frame<GpuBuffer>,
>)
    ensures
        match uploaded {
            Some(device) => {
                &&& buffer.spec_len() == frame.spec_storage().spec_len()
                &&& device.spec_storage() == buffer
                &&& device.spec_interpretation() == frame.spec_interpretation()
            },
            None => buffer.spec_len() != frame.spec_storage().spec_len(),
        },
{
    let interpretation = *frame.interpretation();
    match Frame::new(buffer, interpretation) {
        Ok(device) => Some(device),
        Err(_) => None,
    }
}

/// Binding a payload as a device frame twice is binding it once: what
/// came out as a device frame is handed back unchanged when it is put
/// in again.
pub proof fn lemma_device_coercion_is_idempotent(payload: Payload, frame: Arc<Frame<GpuBuffer>>)
    requires
        device_coercion(payload) == Some(DeviceCoercion::Resident(frame)),
    ensures
        payload == Payload::GpuFrame(frame),
        device_coercion(Payload::GpuFrame(frame)) == device_coercion(payload),
{
}

} // verus!
