//! A node that counts, on the GPU, how often each sample value occurs.

use crate::pipeline_processing::buffers::{Buffer, GpuBuffer};
use crate::pipeline_processing::error::Error;
use crate::pipeline_processing::frame::{
    Compression,
    Frame,
    FrameInterpretation,
    SampleInterpretation,
};
use crate::pipeline_processing::node::{Caps, NodeID};
use crate::pipeline_processing::parametrizable::{
    is_parameter_error,
    node_fault,
    value_named,
    ParameterType,
    ParameterTypeDescriptor,
    ParameterValue,
    Parameters,
    ParametersDescriptor,
};
use crate::pipeline_processing::processing_context::{
    find_queue,
    first_serving,
    ProcessingContext,
    QueueUse,
};
use vstd::prelude::*;
use vstd::string::StringExecFns;

verus! {

/// Width of a workgroup of every compute shader of the pipeline.
pub const WORKGROUP_WIDTH: u32 = 16;

/// Height of a workgroup of every compute shader of the pipeline.
pub const WORKGROUP_HEIGHT: u32 = 32;

/// Number of counters of a histogram: one for each value of a byte.
pub const HISTOGRAM_BINS: u64 = 256;

/// The parameters that every compute shader is pushed first.
#[derive(Clone, Copy, Debug, PartialEq, Eq, Structural)]
pub struct PushConstantData {
    pub width: u32,
    pub height: u32,
}

/// How device buffers of a node may be used.
#[derive(Clone, Copy, Debug, PartialEq, Eq, Structural)]
pub struct BufferUsage {
    pub storage_buffer: bool,
    pub storage_texel_buffer: bool,
    pub transfer_src: bool,
    pub transfer_dst: bool,
    pub vertex_buffer: bool,
}

/// One compute dispatch over a frame, ready to be recorded.
///
/// The input buffer goes to binding 0 of descriptor set 0, the output
/// buffer to binding 1.
#[derive(Clone, Copy, Debug, PartialEq, Eq)]
pub struct ComputePlan {
    /// Bytes of the device-local output buffer.
    pub output_len: usize,
    /// Usages the output buffer is allocated with.
    pub output_usage: BufferUsage,
    /// Whether the output buffer is filled with zeros before the dispatch.
    pub clear_output: bool,
    pub push_constants: PushConstantData,
    /// Workgroups to dispatch along x, y and z.
    pub groups: [u32; 3],
    /// The interpretation of the frame that the output buffer becomes.
    pub output_interpretation: FrameInterpretation,
}

/// Number of groups of `size` that cover `extent`.
pub open spec fn groups_for(extent: u32, size: u32) -> int {
    (extent + size - 1) / (size as int)
}

/// Number of groups of `size` that cover `extent`.
pub fn group_count(extent: u32, size: u32) -> (groups: u32)
    requires
        size > 0,
    ensures
        groups == groups_for(extent, size),
        groups as int * size >= extent,
        (groups as int - 1) * size < extent || groups == 0,
{
    let whole = extent / size;
    let rest = extent % size;
    proof {
        let e = extent as int;
        let s = size as int;
        vstd::arithmetic::div_mod::lemma_fundamental_div_mod(e, s);
        assert(e == s * (whole as int) + rest);
        if rest == 0 {
            vstd::arithmetic::div_mod::lemma_fundamental_div_mod_converse(
                e + s - 1,
                s,
                whole as int,
                s - 1,
            );
        } else {
            assert(s * (whole as int + 1) == s * (whole as int) + s) by (nonlinear_arith);
            vstd::arithmetic::div_mod::lemma_fundamental_div_mod_converse(
                e + s - 1,
                s,
                whole as int + 1,
                rest as int - 1,
            );
            assert(whole as int + 1 <= u32::MAX) by (nonlinear_arith)
                requires
                    e == s * (whole as int) + rest,
                    rest > 0,
                    s >= 2,
                    e <= u32::MAX,
                    whole >= 0,
            ;
        }
        assert((whole as int) * s == s * (whole as int)) by (nonlinear_arith);
        assert((whole as int + 1) * s == s * (whole as int) + s) by (nonlinear_arith);
        assert((whole as int - 1) * s == s * (whole as int) - s) by (nonlinear_arith);
    }
    if rest == 0 {
        whole
    } else {
        whole + 1
    }
}

/// The low 32 bits of a frame dimension, which is what a shader is told.
pub open spec fn shader_dimension(dimension: u64) -> u32 {
    (dimension % 0x1_0000_0000) as u32
}

/// The low 32 bits of a frame dimension.
pub fn to_shader_dimension(dimension: u64) -> (low: u32)
    ensures
        low == shader_dimension(dimension),
{
    (dimension % 0x1_0000_0000) as u32
}

/// The workgroups that cover a frame of the given shader dimensions.
pub open spec fn groups_over(width: u32, height: u32) -> Seq<u32> {
    seq![
        groups_for(width, WORKGROUP_WIDTH) as u32,
        groups_for(height, WORKGROUP_HEIGHT) as u32,
        1u32,
    ]
}

/// The workgroups that cover a frame of the given shader dimensions.
pub fn dispatch_groups(width: u32, height: u32) -> (groups: [u32; 3])
    ensures
        groups@ == groups_over(width, height),
{
    let groups = [group_count(width, WORKGROUP_WIDTH), group_count(height, WORKGROUP_HEIGHT), 1];
    assert(groups@ =~= groups_over(width, height));
    groups
}

/// The interpretation of a histogram: one row of counters, read as
/// single-precision samples, in the colours of the frame counted.
pub open spec fn histogram_interpretation(input: FrameInterpretation) -> FrameInterpretation {
    FrameInterpretation {
        width: HISTOGRAM_BINS,
        height: 1,
        fps: input.fps,
        color_interpretation: input.color_interpretation,
        sample_interpretation: SampleInterpretation::FP32,
        compression: input.compression,
    }
}

/// What the histogram node does with a frame of interpretation `input`.
pub open spec fn histogram_plan(input: FrameInterpretation) -> ComputePlan {
    let width = shader_dimension(input.width);
    let height = shader_dimension(input.height);
    ComputePlan {
        output_len: (histogram_interpretation(input).spec_required_bytes()) as usize,
        output_usage: BufferUsage {
            storage_buffer: true,
            storage_texel_buffer: true,
            transfer_src: true,
            transfer_dst: true,
            vertex_buffer: true,
        },
        clear_output: true,
        push_constants: PushConstantData { width, height },
        groups: [
            groups_for(width, WORKGROUP_WIDTH) as u32,
            groups_for(height, WORKGROUP_HEIGHT) as u32,
            1u32,
        ],
        output_interpretation: histogram_interpretation(input),
    }
}

/// What a GPU node learns when it is built: which queue it computes on.
pub open spec fn compute_queue_of(context: ProcessingContext, queue: Result<usize, Error>) -> bool {
    match context.spec_queues() {
        None => queue == Err::<usize, Error>(Error::GpuUnavailable),
        Some(queues) => match queue {
            Ok(index) => first_serving(queues, QueueUse::Compute, Some(index)),
            Err(e) => {
                &&& first_serving(queues, QueueUse::Compute, None)
                &&& e matches Error::GpuFailure { message }
                &&& message@ == "no queue of the device supports compute"@
            },
        },
    }
}

/// The queue a GPU node computes on: the first queue of the device that
/// supports compute. Without a GPU, or without such a queue, there is no
/// node.
pub fn compute_queue(context: &ProcessingContext) -> (queue: Result<usize, Error>)
    ensures
        compute_queue_of(*context, queue),
{
    let vulkan = match context.require_vulkan() {
        Ok(vulkan) => vulkan,
        Err(e) => {
            return Err(e);
        },
    };
    match find_queue(&vulkan.queues, QueueUse::Compute) {
        Some(index) => Ok(index),
        None => Err(
            Error::GpuFailure {
                message: String::from_str("no queue of the device supports compute"),
            },
        ),
    }
}

/// The frame that a finished dispatch leaves in its output buffer, if the
/// buffer is as long as the plan asked for.
pub fn output_frame(plan: &ComputePlan, output: GpuBuffer) -> (frame: Option<Frame<GpuBuffer>>)
    ensures
        match frame {
            Some(f) => {
                &&& output.spec_len() == plan.output_interpretation.spec_required_bytes()
                &&& f.spec_storage() == output
                &&& f.spec_interpretation() == plan.output_interpretation
            },
            None => output.spec_len() != plan.output_interpretation.spec_required_bytes(),
        },
{
    match Frame::new(output, plan.output_interpretation) {
        Ok(frame) => Some(frame),
        Err(_) => None,
    }
}

/// The node that computes histograms.
#[derive(Clone, Copy, Debug)]
pub struct Histogram {
    queue: usize,
    input: NodeID,
}

impl Histogram {
    /// Index of the queue the node computes on.
    pub closed spec fn spec_queue(&self) -> usize {
        self.queue
    }

    /// The node whose frames are counted.
    pub closed spec fn spec_input(&self) -> NodeID {
        self.input
    }

    /// The histogram node takes one parameter: its input.
    pub fn describe_parameters() -> (declared: ParametersDescriptor)
        ensures
            declared@.len() == 1,
            declared@[0].name@ == "input"@,
            declared@[0].descriptor == ParameterTypeDescriptor::Mandatory(
                ParameterType::NodeInputParameter,
            ),
    {
        ParametersDescriptor::new().with(
            "input",
            ParameterTypeDescriptor::Mandatory(ParameterType::NodeInputParameter),
        )
    }

    /// A histogram node on the first compute queue of the GPU. The GPU is
    /// looked for first, the input after it.
    pub fn from_parameters(parameters: Parameters, context: &ProcessingContext) -> (node: Result<
        Self,
        Error,
    >)
        ensures
            match node {
                Ok(n) => {
                    &&& compute_queue_of(*context, Ok(n.spec_queue()))
                    &&& value_named(parameters@, "input"@) == Some(
                        ParameterValue::NodeInputParameter(n.spec_input()),
                    )
                },
                Err(e) => compute_queue_of(*context, Err(e)) || {
                    &&& exists|queue: usize| compute_queue_of(*context, Ok(queue))
                    &&& node_fault(parameters@, "input"@) matches Some(fault)
                    &&& is_parameter_error(e, "input"@, fault)
                },
            },
    {
        let mut parameters = parameters;
        let queue = match compute_queue(context) {
            Ok(queue) => queue,
            Err(e) => {
                return Err(e);
            },
        };
        match parameters.take_node_input("input") {
            Ok(input) => Ok(Histogram { queue, input }),
            Err(e) => Err(e),
        }
    }

    /// The node whose frames are counted.
    pub fn input(&self) -> (input: NodeID)
        ensures
            input == self.spec_input(),
    {
        self.input
    }

    /// Index of the queue the node computes on.
    pub fn queue(&self) -> (queue: usize)
        ensures
            queue == self.spec_queue(),
    {
        self.queue
    }

    /// The dispatch that counts the samples of a frame: the counters are
    /// cleared, then one invocation per pixel adds to them.
    pub fn plan(&self, input: &FrameInterpretation) -> (plan: ComputePlan)
        ensures
            plan == histogram_plan(*input),
            plan.output_len == plan.output_interpretation.spec_required_bytes(),
    {
        let width = to_shader_dimension(input.width);
        let height = to_shader_dimension(input.height);
        let output_interpretation = FrameInterpretation {
            width: HISTOGRAM_BINS,
            height: 1,
            fps: input.fps,
            color_interpretation: input.color_interpretation,
            sample_interpretation: SampleInterpretation::FP32,
            compression: input.compression,
        };
        let output_len: usize = 1024 * (input.color_interpretation.samples_per_pixel() as usize);
        assert(output_interpretation.spec_required_bytes() == output_len) by {
            let spp = input.color_interpretation.spec_samples_per_pixel();
            assert(256 * 1 * spp * 32 / 8 == 1024 * spp);
        }
        let groups = dispatch_groups(width, height);
        let plan = ComputePlan {
            output_len,
            output_usage: BufferUsage {
                storage_buffer: true,
                storage_texel_buffer: true,
                transfer_src: true,
                transfer_dst: true,
                vertex_buffer: true,
            },
            clear_output: true,
            push_constants: PushConstantData { width, height },
            groups,
            output_interpretation,
        };
        assert(plan.groups@ =~= histogram_plan(*input).groups@);
        assert(plan.groups == histogram_plan(*input).groups);
        plan
    }

    /// What the node can deliver: what its input can.
    pub fn get_caps(&self, input: Caps) -> (caps: Caps)
        ensures
            caps == input,
    {
        input
    }
}

} // verus!
