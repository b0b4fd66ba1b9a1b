//! The scheduling key of a pull, and the context that every node is built with.

use crate::pipeline_processing::buffers::{backing_for, Backing, Buffer, CpuBuffer, GpuBuffer};
use crate::pipeline_processing::error::Error;
use crate::pipeline_processing::frame::Frame;
use crate::pipeline_processing::payload::Payload;
use crate::text::{decimal_digits, parse_count, parsed_count, push_decimal};
use std::cmp::Ordering;
use std::sync::Arc;
use vstd::prelude::*;
use vstd::std_specs::cmp::PartialOrdSpecImpl;
use vstd::string::StringExecFns;

verus! {

/// Number of distinct frame numbers a key can hold: `2^56`.
pub const FRAME_SPAN: u64 = 0x0100_0000_0000_0000;

/// The low 56 bits of a key, which hold the frame number.
pub const FRAME_MASK: u64 = 0x00ff_ffff_ffff_ffff;

/// Scheduling key `(output_priority << 56) | frame_number`.
///
/// Keys are ordered as unsigned integers, so within one output stream an
/// earlier frame is more urgent, and streams are ranked by their output byte.
#[derive(Copy, Clone, Debug, Eq, Ord, Hash)]
pub struct Priority(u64);

impl View for Priority {
    type V = u64;

    closed spec fn view(&self) -> u64 {
        self.0
    }
}

/// The output-stream byte of a raw key.
pub open spec fn output_of(key: u64) -> int {
    key as int / FRAME_SPAN as int
}

/// The frame-number field of a raw key.
pub open spec fn frame_of(key: u64) -> int {
    key as int % FRAME_SPAN as int
}

/// The raw key with the given output byte and the frame number reduced to 56 bits.
pub open spec fn key_of(output_priority: u8, frame_number: u64) -> int {
    output_priority as int * FRAME_SPAN as int + frame_number as int % FRAME_SPAN as int
}

proof fn lemma_pack(output_priority: u8, frame_number: u64)
    ensures
        (((output_priority as u64) << 56) | (frame_number & FRAME_MASK)) as int == key_of(
            output_priority,
            frame_number,
        ),
{
    let o = output_priority as u64;
    let f = frame_number;
    assert(((o << 56) | (f & 0x00ff_ffff_ffff_ffffu64)) == o * 0x0100_0000_0000_0000u64 + f
        % 0x0100_0000_0000_0000u64) by (bit_vector)
        requires
            o < 256,
    ;
}

impl Priority {
    /// The output-stream byte held in the high 8 bits.
    pub open spec fn output(self) -> int {
        output_of(self@)
    }

    /// The frame number held in the low 56 bits.
    pub open spec fn frame(self) -> int {
        frame_of(self@)
    }

    /// The key of an output-stream byte and a frame number.
    pub closed spec fn spec_new(output_priority: u8, frame_number: u64) -> Priority {
        Priority(key_of(output_priority, frame_number) as u64)
    }

    /// The key of another frame of the same output stream.
    pub closed spec fn spec_for_frame(self, frame_number: u64) -> Priority {
        Priority(key_of(self.output() as u8, frame_number) as u64)
    }

    /// Packs an output-stream byte and a frame number; the frame number is
    /// reduced modulo `2^56`, the output byte is kept whole.
    pub fn new(output_priority: u8, frame_number: u64) -> (p: Self)
        ensures
            p == Priority::spec_new(output_priority, frame_number),
            p@ as int == key_of(output_priority, frame_number),
            p.output() == output_priority,
            p.frame() == frame_number as int % FRAME_SPAN as int,
    {
        proof {
            lemma_pack(output_priority, frame_number);
            lemma_key_fields(output_priority, frame_number);
        }
        Priority(((output_priority as u64) << 56) | (frame_number & FRAME_MASK))
    }

    /// The key of another frame of the same output stream.
    pub fn for_frame(self, frame_number: u64) -> (p: Self)
        ensures
            p == self.spec_for_frame(frame_number),
            p.output() == self.output(),
            p.frame() == frame_number as int % FRAME_SPAN as int,
    {
        let key = self.0;
        let replaced = (key & !FRAME_MASK) | (frame_number & FRAME_MASK);
        proof {
            assert(key / 0x0100_0000_0000_0000u64 < 256) by (bit_vector);
            lemma_key_fields(self.output() as u8, frame_number);
            assert(replaced == (key / 0x0100_0000_0000_0000u64) * 0x0100_0000_0000_0000u64
                + frame_number % 0x0100_0000_0000_0000u64) by (bit_vector)
                requires
                    replaced == (key & !0x00ff_ffff_ffff_ffffu64) | (frame_number
                        & 0x00ff_ffff_ffff_ffffu64),
            ;
        }
        Priority(replaced)
    }

    /// The frame number of the key.
    pub fn get_frame(&self) -> (frame_number: u64)
        ensures
            frame_number as int == self.frame(),
            frame_number < FRAME_SPAN,
    {
        let key = self.0;
        assert(key & 0x00ff_ffff_ffff_ffffu64 == key % 0x0100_0000_0000_0000u64) by (bit_vector);
        self.0 & FRAME_MASK
    }
}

impl Priority {
    /// The key written out: its output-stream byte and its frame number.
    pub open spec fn spec_text(self) -> Seq<char> {
        "Priority(output = "@ + decimal_digits(self.output() as nat) + ", frame = "@
            + decimal_digits(self.frame() as nat) + ")"@
    }

    /// The key written out: its output-stream byte and its frame number.
    pub fn to_string(&self) -> (text: String)
        ensures
            text@ == self.spec_text(),
    {
        let key = self.0;
        assert(key >> 56 == key / 0x0100_0000_0000_0000u64) by (bit_vector);
        assert(key & 0x00ff_ffff_ffff_ffffu64 == key % 0x0100_0000_0000_0000u64) by (bit_vector);
        let mut text = String::from_str("Priority(output = ");
        push_decimal(&mut text, self.0 >> 56);
        text.append(", frame = ");
        push_decimal(&mut text, self.0 & FRAME_MASK);
        text.append(")");
        text
    }
}

/// The raw key of an output byte and a frame number splits back into the
/// output byte and the frame number reduced to 56 bits.
proof fn lemma_key_fields(output_priority: u8, frame_number: u64)
    ensures
        0 <= key_of(output_priority, frame_number) <= u64::MAX,
        output_of(key_of(output_priority, frame_number) as u64) == output_priority,
        frame_of(key_of(output_priority, frame_number) as u64) == frame_number as int
            % FRAME_SPAN as int,
{
    let span = FRAME_SPAN as int;
    let low = frame_number as int % span;
    vstd::arithmetic::div_mod::lemma_fundamental_div_mod_converse(
        output_priority as int * span + low,
        span,
        output_priority as int,
        low,
    );
}

/// Putting a frame number below `2^56` into a key and reading it back
/// gives the frame number, and the key still belongs to the same output
/// stream.
pub proof fn lemma_for_frame_get_frame(p: Priority, frame_number: u64)
    requires
        frame_number < FRAME_SPAN,
    ensures
        p.spec_for_frame(frame_number).frame() == frame_number,
        p.spec_for_frame(frame_number).output() == p.output(),
{
    lemma_frame_wraps(p, frame_number);
}

/// A frame number of any size changes the frame field only, where it is
/// taken modulo `2^56`; the output-stream byte is left alone.
pub proof fn lemma_frame_wraps(p: Priority, frame_number: u64)
    ensures
        p.spec_for_frame(frame_number).output() == p.output(),
        p.spec_for_frame(frame_number).frame() == frame_number as int % FRAME_SPAN as int,
        Priority::spec_new(p.output() as u8, frame_number) == p.spec_for_frame(frame_number),
{
    let key = p@;
    assert(key / 0x0100_0000_0000_0000u64 < 256) by (bit_vector);
    lemma_key_fields(p.output() as u8, frame_number);
}

/// Keys are ordered first by output stream, then by frame number.
pub proof fn lemma_order_is_lexicographic(a: Priority, b: Priority)
    ensures
        a@ < b@ <==> (a.output() < b.output() || (a.output() == b.output() && a.frame()
            < b.frame())),
        a@ == b@ <==> (a.output() == b.output() && a.frame() == b.frame()),
{
    let span = FRAME_SPAN as int;
    vstd::arithmetic::div_mod::lemma_fundamental_div_mod(a@ as int, span);
    vstd::arithmetic::div_mod::lemma_fundamental_div_mod(b@ as int, span);
    assert(a@ as int == span * a.output() + a.frame());
    assert(b@ as int == span * b.output() + b.frame());
    assert(0 <= a.frame() < span && 0 <= b.frame() < span);
    if a.output() < b.output() {
        assert(span * a.output() + span <= span * b.output()) by (nonlinear_arith)
            requires
                a.output() < b.output(),
                span > 0,
        ;
    }
    if b.output() < a.output() {
        assert(span * b.output() + span <= span * a.output()) by (nonlinear_arith)
            requires
                b.output() < a.output(),
                span > 0,
        ;
    }
}

impl PartialEq for Priority {
    fn eq(&self, other: &Self) -> (r: bool) {
        self.0 == other.0
    }
}

impl vstd::std_specs::cmp::PartialEqSpecImpl for Priority {
    open spec fn obeys_eq_spec() -> bool {
        true
    }

    open spec fn eq_spec(&self, other: &Self) -> bool {
        self@ == other@
    }
}

impl PartialOrd for Priority {
    fn partial_cmp(&self, other: &Self) -> (r: Option<Ordering>) {
        if self.0 < other.0 {
            Some(Ordering::Less)
        } else if self.0 == other.0 {
            Some(Ordering::Equal)
        } else {
            Some(Ordering::Greater)
        }
    }
}

impl PartialOrdSpecImpl for Priority {
    open spec fn obeys_partial_cmp_spec() -> bool {
        true
    }

    open spec fn partial_cmp_spec(&self, other: &Self) -> Option<Ordering> {
        if self@ < other@ {
            Some(Ordering::Less)
        } else if self@ == other@ {
            Some(Ordering::Equal)
        } else {
            Some(Ordering::Greater)
        }
    }
}

/// What the host knows of one queue family of the device.
#[derive(Clone, Copy, Debug, PartialEq, Eq, Structural)]
pub struct QueueFamily {
    pub supports_graphics: bool,
    pub supports_compute: bool,
    pub explicitly_supports_transfers: bool,
}

/// What a node wants a queue for.
#[derive(Clone, Copy, Debug, PartialEq, Eq, Structural)]
pub enum QueueUse {
    Graphics,
    Compute,
    Transfer,
}

impl QueueFamily {
    pub open spec fn spec_serves(self, wanted: QueueUse) -> bool {
        match wanted {
            QueueUse::Graphics => self.supports_graphics,
            QueueUse::Compute => self.supports_compute,
            QueueUse::Transfer => self.explicitly_supports_transfers,
        }
    }

    /// Whether queues of this family can be used for `wanted`.
    pub fn serves(&self, wanted: QueueUse) -> (yes: bool)
        ensures
            yes == self.spec_serves(wanted),
    {
        match wanted {
            QueueUse::Graphics => self.supports_graphics,
            QueueUse::Compute => self.supports_compute,
            QueueUse::Transfer => self.explicitly_supports_transfers,
        }
    }
}

/// The first of `queues` that serves `wanted`, if there is one.
pub open spec fn first_serving(queues: Seq<QueueFamily>, wanted: QueueUse, found: Option<
    usize,
>) -> bool {
    match found {
        Some(i) => {
            &&& i < queues.len()
            &&& queues[i as int].spec_serves(wanted)
            &&& forall|j: int| 0 <= j < i ==> !(#[trigger] queues[j]).spec_serves(wanted)
        },
        None => forall|j: int| 0 <= j < queues.len() ==> !(#[trigger] queues[j]).spec_serves(
            wanted,
        ),
    }
}

/// The queue a node takes for `wanted`: the first one that serves it.
pub fn find_queue(queues: &Vec<QueueFamily>, wanted: QueueUse) -> (found: Option<usize>)
    ensures
        first_serving(queues@, wanted, found),
{
    let mut i: usize = 0;
    while i < queues.len()
        invariant
            i <= queues.len(),
            forall|j: int| 0 <= j < i ==> !(#[trigger] queues[j]).spec_serves(wanted),
        decreases queues.len() - i,
    {
        if queues[i].serves(wanted) {
            return Some(i);
        }
        i = i + 1;
    }
    None
}

/// What kind of device a physical device is.
#[derive(Clone, Copy, Debug, PartialEq, Eq, Structural)]
pub enum PhysicalDeviceType {
    IntegratedGpu,
    DiscreteGpu,
    VirtualGpu,
    Cpu,
    Other,
}

/// The extensions a device is opened with.
#[derive(Clone, Copy, Debug, PartialEq, Eq, Structural)]
pub struct DeviceExtensions {
    pub khr_swapchain: bool,
    pub khr_storage_buffer_storage_class: bool,
    pub khr_8bit_storage: bool,
    pub khr_shader_non_semantic_info: bool,
}

/// The extensions a pipeline needs of its device, and the one it takes
/// when the device has it.
pub fn device_extensions(supports_shader_non_semantic_info: bool) -> (extensions:
    DeviceExtensions)
    ensures
        extensions == (DeviceExtensions {
            khr_swapchain: true,
            khr_storage_buffer_storage_class: true,
            khr_8bit_storage: true,
            khr_shader_non_semantic_info: supports_shader_non_semantic_info,
        }),
{
    DeviceExtensions {
        khr_swapchain: true,
        khr_storage_buffer_storage_class: true,
        khr_8bit_storage: true,
        khr_shader_non_semantic_info: supports_shader_non_semantic_info,
    }
}

/// The first device at or after `start` that is not a CPU, if there is one.
pub open spec fn first_candidate(
    devices: Seq<PhysicalDeviceType>,
    start: int,
    found: Option<usize>,
) -> bool {
    match found {
        Some(i) => {
            &&& start <= i < devices.len()
            &&& devices[i as int] != PhysicalDeviceType::Cpu
            &&& forall|j: int| start <= j < i ==> #[trigger] devices[j] == PhysicalDeviceType::Cpu
        },
        None => forall|j: int|
            start <= j < devices.len() ==> #[trigger] devices[j] == PhysicalDeviceType::Cpu,
    }
}

/// The next device to try to open: devices are tried in the order in which
/// the instance lists them, and software devices are passed over. The
/// pipeline computes on the first device that opens.
pub fn next_candidate(devices: &Vec<PhysicalDeviceType>, start: usize) -> (found: Option<usize>)
    ensures
        first_candidate(devices@, start as int, found),
{
    let mut i: usize = start;
    while i < devices.len()
        invariant
            start <= i,
            forall|j: int|
                start <= j < i && j < devices.len() ==> #[trigger] devices@[j]
                    == PhysicalDeviceType::Cpu,
        decreases devices.len() - i,
    {
        match devices[i] {
            PhysicalDeviceType::Cpu => {},
            _ => {
                return Some(i);
            },
        }
        i = i + 1;
    }
    None
}

/// The first queue that draws and that the surface takes images from.
pub open spec fn first_presenting(
    queues: Seq<QueueFamily>,
    surface_support: Seq<bool>,
    found: Option<usize>,
) -> bool {
    match found {
        Some(i) => {
            &&& i < queues.len()
            &&& presents(queues, surface_support, i as int)
            &&& forall|j: int| 0 <= j < i ==> !#[trigger] presents(queues, surface_support, j)
        },
        None => forall|j: int|
            0 <= j < queues.len() ==> !#[trigger] presents(queues, surface_support, j),
    }
}

/// Whether queue `i` draws and is supported by the surface. A queue of
/// which the surface says nothing counts as unsupported.
pub open spec fn presents(queues: Seq<QueueFamily>, surface_support: Seq<bool>, i: int) -> bool {
    queues[i].supports_graphics && i < surface_support.len() && surface_support[i]
}

/// The queue a window is drawn with: the first queue that supports
/// graphics and that the surface of the window supports.
pub fn presentation_queue(queues: &Vec<QueueFamily>, surface_support: &Vec<bool>) -> (found:
    Option<usize>)
    ensures
        first_presenting(queues@, surface_support@, found),
{
    let mut i: usize = 0;
    while i < queues.len()
        invariant
            i <= queues.len(),
            forall|j: int| 0 <= j < i ==> !#[trigger] presents(queues@, surface_support@, j),
        decreases queues.len() - i,
    {
        if queues[i].supports_graphics && i < surface_support.len() && surface_support[i] {
            return Some(i);
        }
        i = i + 1;
    }
    None
}

/// The GPU a pipeline computes on: the queues of its device, in the order
/// in which the device lists them.
#[derive(Debug)]
pub struct VulkanContext {
    pub device_name: String,
    pub queues: Vec<QueueFamily>,
}

impl Clone for VulkanContext {
    fn clone(&self) -> (copy: Self)
        ensures
            copy.device_name@ == self.device_name@,
            copy.queues@ == self.queues@,
    {
        let mut queues: Vec<QueueFamily> = Vec::new();
        let mut i: usize = 0;
        while i < self.queues.len()
            invariant
                i <= self.queues.len(),
                queues@ == self.queues@.take(i as int),
            decreases self.queues.len() - i,
        {
            queues.push(self.queues[i]);
            assert(queues@ =~= self.queues@.take(i + 1));
            i = i + 1;
        }
        assert(queues@ =~= self.queues@);
        VulkanContext { device_name: self.device_name.clone(), queues }
    }
}

/// What has to happen before a payload can be read as a host frame.
#[derive(Debug)]
pub enum HostCoercion {
    /// Nothing: the payload is this host frame.
    Resident(Arc<Frame<CpuBuffer>>),
    /// The payload is this device frame, which has to be copied to the host.
    NeedsTransfer(Arc<Frame<GpuBuffer>>),
}

/// `num_cpus::get`: the number of CPUs the process may run on. It differs
/// from machine to machine, so nothing is promised of it.
#[verifier::external_body]
fn available_cpus() -> usize {
    num_cpus::get()
}

/// The characters of the thread-count setting, if it is set.
pub open spec fn setting_text(thread_setting: Option<&str>) -> Option<Seq<char>> {
    match thread_setting {
        Some(text) => Some(text@),
        None => None,
    }
}

/// The number of worker threads: the count the setting spells out, else
/// the number of CPUs.
pub open spec fn spec_thread_count(thread_setting: Option<Seq<char>>, cpus: usize) -> usize {
    match thread_setting {
        Some(text) => match parsed_count(text) {
            Some(n) => n,
            None => cpus,
        },
        None => cpus,
    }
}

/// The number of worker threads for a machine with `cpus` CPUs, given the
/// value of the thread-count setting if it is set.
pub fn thread_count(thread_setting: Option<&str>, cpus: usize) -> (threads: usize)
    ensures
        threads == spec_thread_count(setting_text(thread_setting), cpus),
{
    match thread_setting {
        Some(text) => match parse_count(text) {
            Some(n) => n,
            None => cpus,
        },
        None => cpus,
    }
}

/// What every node of one pipeline shares: the GPU, if there is one, and
/// the width of the worker pool.
#[derive(Debug)]
pub struct ProcessingContext {
    vulkan_device: Option<VulkanContext>,
    num_threads: usize,
}

impl Clone for ProcessingContext {
    fn clone(&self) -> (copy: Self)
        ensures
            copy.spec_queues() == self.spec_queues(),
            copy.spec_num_threads() == self.spec_num_threads(),
    {
        let vulkan_device = match &self.vulkan_device {
            Some(vulkan) => Some(vulkan.clone()),
            None => None,
        };
        ProcessingContext { vulkan_device, num_threads: self.num_threads }
    }
}

impl ProcessingContext {
    /// The queues of the GPU, or `None` without a GPU.
    pub closed spec fn spec_queues(&self) -> Option<Seq<QueueFamily>> {
        match self.vulkan_device {
            Some(vulkan) => Some(vulkan.queues@),
            None => None,
        }
    }

    pub closed spec fn spec_num_threads(&self) -> usize {
        self.num_threads
    }

    pub open spec fn has_gpu(&self) -> bool {
        self.spec_queues() is Some
    }

    /// What a payload is to a consumer that reads host frames; `None` when
    /// the payload cannot be read as one.
    pub open spec fn host_coercion(&self, payload: Payload) -> Option<HostCoercion> {
        match payload {
            Payload::CpuFrame(frame) => Some(HostCoercion::Resident(frame)),
            Payload::GpuFrame(frame) => if self.has_gpu() {
                Some(HostCoercion::NeedsTransfer(frame))
            } else {
                None
            },
            _ => None,
        }
    }

    /// A context with a worker pool of exactly `num_threads` threads.
    pub fn with_threads(vulkan_context: Option<VulkanContext>, num_threads: usize) -> (context:
        Self)
        ensures
            context.spec_num_threads() == num_threads,
            context.spec_queues() == match vulkan_context {
                Some(vulkan) => Some(vulkan.queues@),
                None => None,
            },
    {
        ProcessingContext { vulkan_device: vulkan_context, num_threads }
    }

    /// A context whose worker pool is as wide as the thread-count setting
    /// says, or as the machine has CPUs when the setting is absent or is
    /// not a count.
    pub fn new(vulkan_context: Option<VulkanContext>, thread_setting: Option<&str>) -> (context:
        Self)
        ensures
            context.spec_queues() == match vulkan_context {
                Some(vulkan) => Some(vulkan.queues@),
                None => None,
            },
            exists|cpus: usize|
                context.spec_num_threads() == #[trigger] spec_thread_count(
                    setting_text(thread_setting),
                    cpus,
                ),
    {
        let cpus = available_cpus();
        let threads = thread_count(thread_setting, cpus);
        assert(threads == spec_thread_count(setting_text(thread_setting), cpus));
        Self::with_threads(vulkan_context, threads)
    }

    /// A context for a device that has been opened already.
    pub fn from_vk_device_queues(
        device_name: String,
        queues: Vec<QueueFamily>,
        thread_setting: Option<&str>,
    ) -> (context: Self)
        ensures
            context.spec_queues() == Some(queues@),
            exists|cpus: usize|
                context.spec_num_threads() == #[trigger] spec_thread_count(
                    setting_text(thread_setting),
                    cpus,
                ),
    {
        Self::new(Some(VulkanContext { device_name, queues }), thread_setting)
    }

    /// A fresh host buffer of `len` zero bytes, device-mapped when the
    /// pipeline has a GPU, so that GPU nodes can use it without an upload.
    pub fn get_uninit_cpu_buffer(&self, len: usize) -> (buffer: CpuBuffer)
        ensures
            buffer@.len() == len,
            forall|i: int| 0 <= i < len ==> buffer@[i] == 0,
            buffer.spec_backing() == backing_for(self.has_gpu()),
    {
        match &self.vulkan_device {
            Some(_) => CpuBuffer::zeroed(len, Backing::DeviceMapped),
            None => CpuBuffer::zeroed(len, Backing::Heap),
        }
    }

    /// The GPU of the pipeline, or the error of a node that needs one.
    pub fn require_vulkan(&self) -> (vulkan: Result<&VulkanContext, Error>)
        ensures
            match vulkan {
                Ok(v) => self.spec_queues() == Some(v.queues@),
                Err(e) => !self.has_gpu() && e == Error::GpuUnavailable,
            },
    {
        match &self.vulkan_device {
            Some(vulkan) => Ok(vulkan),
            None => Err(Error::GpuUnavailable),
        }
    }

    /// Says what has to be done to read `payload` as a host frame.
    ///
    /// A host frame is handed back as it is. A device frame has to be
    /// copied, which takes a GPU. Anything else is not a frame.
    pub fn ensure_cpu_buffer_frame(&self, payload: &Payload) -> (coercion: Result<
        HostCoercion,
        Error,
    >)
        ensures
            match coercion {
                Ok(c) => self.host_coercion(*payload) == Some(c),
                Err(e) => {
                    &&& self.host_coercion(*payload) is None
                    &&& payload is GpuFrame ==> e == Error::GpuUnavailable
                    &&& !(payload is GpuFrame) ==> payload.is_mismatch("Frame<CpuBuffer>"@, e)
                },
            },
    {
        match payload.downcast_cpu_frame() {
            Ok(frame) => Ok(HostCoercion::Resident(frame)),
            Err(mismatch) => match payload.downcast_gpu_frame() {
                Ok(frame) => match self.require_vulkan() {
                    Ok(_) => Ok(HostCoercion::NeedsTransfer(frame)),
                    Err(e) => Err(e),
                },
                Err(_) => Err(mismatch),
            },
        }
    }

    /// The host frame for a device frame whose bytes the device has
    /// copied out: the same interpretation over those bytes.
    pub fn to_cpu_buffer_frame(&self, frame: &Frame<GpuBuffer>, bytes: Vec<u8>) -> (copied:
        Option<Frame<CpuBuffer>>)
        ensures
            match copied {
                Some(host) => {
                    &&& bytes@.len() == frame.spec_storage().spec_len()
                    &&& host.spec_storage()@ == bytes@
                    &&& host.spec_storage().spec_backing() == backing_for(self.has_gpu())
                    &&& host.spec_interpretation() == frame.spec_interpretation()
                },
                None => bytes@.len() != frame.spec_storage().spec_len(),
            },
    {
        let backing = match &self.vulkan_device {
            Some(_) => Backing::DeviceMapped,
            None => Backing::Heap,
        };
        let interpretation = *frame.interpretation();
        match Frame::new(CpuBuffer::from_vec(bytes, backing), interpretation) {
            Ok(host) => Some(host),
            Err(_) => None,
        }
    }

    /// The width of the worker pool.
    pub fn num_threads(&self) -> (threads: usize)
        ensures
            threads == self.spec_num_threads(),
    {
        self.num_threads
    }
}

/// Reading a payload as a host frame twice is reading it once: what came
/// out as a host frame is handed back unchanged when it is put in again.
pub proof fn lemma_host_coercion_is_idempotent(
    context: ProcessingContext,
    payload: Payload,
    frame: Arc<Frame<CpuBuffer>>,
)
    requires
        context.host_coercion(payload) == Some(HostCoercion::Resident(frame)),
    ensures
        payload == Payload::CpuFrame(frame),
        context.host_coercion(Payload::CpuFrame(frame)) == context.host_coercion(payload),
{
}

} // verus!
