//! A node that subtracts a dark frame from every frame, on the GPU.

use crate::nodes_gpu::histogram::{
    compute_queue,
    compute_queue_of,
    dispatch_groups,
    groups_for,
    shader_dimension,
    to_shader_dimension,
    BufferUsage,
    ComputePlan,
    PushConstantData,
    WORKGROUP_HEIGHT,
    WORKGROUP_WIDTH,
};
use crate::pipeline_processing::buffers::{Buffer, GpuBuffer};
use crate::pipeline_processing::error::{ConfigFault, Error, ParameterFault};
use crate::pipeline_processing::frame::{Frame, FrameInterpretation};
use crate::pipeline_processing::node::{Caps, NodeID};
use crate::pipeline_processing::parametrizable::{
    int_fault,
    is_parameter_error,
    node_fault,
    text_fault,
    value_named,
    ParameterType,
    ParameterTypeDescriptor,
    ParameterValue,
    Parameters,
    NamedValue,
    ParametersDescriptor,
};
use crate::pipeline_processing::processing_context::ProcessingContext;
use vstd::prelude::*;

verus! {

/// Binding of the dark frame in descriptor set 0, after the input buffer
/// at binding 0 and the output buffer at binding 1.
pub const DARKFRAME_BINDING: u32 = 2;

/// The low 32 bits of a dimension given as a parameter, which is never
/// negative.
pub open spec fn image_dimension(parameter: i64) -> u32 {
    (parameter as int % 0x1_0000_0000) as u32
}

/// What the calibration node does with a frame: one invocation per pixel
/// writes into an output buffer as long as the input, and the frame keeps
/// its interpretation.
pub open spec fn calibrate_plan(frame: Frame<GpuBuffer>) -> ComputePlan {
    let input = frame.spec_interpretation();
    let width = shader_dimension(input.width);
    let height = shader_dimension(input.height);
    ComputePlan {
        output_len: frame.spec_storage().spec_len() as usize,
        output_usage: BufferUsage {
            storage_buffer: true,
            storage_texel_buffer: true,
            transfer_src: true,
            transfer_dst: false,
            vertex_buffer: false,
        },
        clear_output: false,
        push_constants: PushConstantData { width, height },
        groups: [
            groups_for(width, WORKGROUP_WIDTH) as u32,
            groups_for(height, WORKGROUP_HEIGHT) as u32,
            1u32,
        ],
        output_interpretation: input,
    }
}

/// The parameters of a calibration node that could be taken: the path
/// of the dark frame, its width, its height and the input.
pub open spec fn calibrate_values(values: Seq<NamedValue>) -> Option<(String, i64, i64, NodeID)> {
    match (
        value_named(values, "darkframe"@),
        value_named(values, "width"@),
        value_named(values, "height"@),
        value_named(values, "input"@),
    ) {
        (
            Some(ParameterValue::StringParameter(darkframe)),
            Some(ParameterValue::IntRange(width)),
            Some(ParameterValue::IntRange(height)),
            Some(ParameterValue::NodeInputParameter(input)),
        ) => if 0 <= width && 0 <= height {
            Some((darkframe, width, height, input))
        } else {
            None
        },
        _ => None,
    }
}

/// The first parameter of a calibration node that cannot be taken, and
/// why: the dark frame, its width and its height are looked at in turn,
/// each dimension as soon as it is taken, and the input last.
pub open spec fn calibrate_fault(values: Seq<NamedValue>) -> Option<(Seq<char>, ParameterFault)> {
    match text_fault(values, "darkframe"@) {
        Some(fault) => Some(("darkframe"@, fault)),
        None => match dimension_fault(values, "width"@) {
            Some(fault) => Some(("width"@, fault)),
            None => match dimension_fault(values, "height"@) {
                Some(fault) => Some(("height"@, fault)),
                None => match node_fault(values, "input"@) {
                    Some(fault) => Some(("input"@, fault)),
                    None => None,
                },
            },
        },
    }
}

/// Why the value under `name` is no dimension, if it is none: it has to
/// be an integer that is not negative.
pub open spec fn dimension_fault(values: Seq<NamedValue>, name: Seq<char>) -> Option<
    ParameterFault,
> {
    match value_named(values, name) {
        Some(ParameterValue::IntRange(value)) => if value < 0 {
            Some(ParameterFault::OutOfRange { value, low: 0, high: i64::MAX })
        } else {
            None
        },
        _ => int_fault(values, name),
    }
}

/// The node that calibrates frames against a dark frame.
#[derive(Debug)]
pub struct Calibrate {
    queue: usize,
    input: NodeID,
    darkframe: String,
    darkframe_width: u32,
    darkframe_height: u32,
}

impl Calibrate {
    /// Index of the queue the node computes on.
    pub closed spec fn spec_queue(&self) -> usize {
        self.queue
    }

    /// The node whose frames are calibrated.
    pub closed spec fn spec_input(&self) -> NodeID {
        self.input
    }

    /// The path of the file that holds the dark frame.
    pub closed spec fn spec_darkframe_path(&self) -> String {
        self.darkframe
    }

    /// Width and height of the dark frame image.
    pub closed spec fn spec_darkframe(&self) -> (u32, u32) {
        (self.darkframe_width, self.darkframe_height)
    }

    /// The calibration node takes its input, the path of the dark frame
    /// and the size of the dark frame.
    pub fn describe_parameters() -> (declared: ParametersDescriptor)
        ensures
            declared@.len() == 4,
            declared@[0].name@ == "input"@,
            declared@[0].descriptor == ParameterTypeDescriptor::Mandatory(
                ParameterType::NodeInputParameter,
            ),
            declared@[1].name@ == "darkframe"@,
            declared@[1].descriptor == ParameterTypeDescriptor::Mandatory(
                ParameterType::StringParameter,
            ),
            declared@[2].name@ == "width"@,
            declared@[2].descriptor == ParameterTypeDescriptor::Mandatory(
                ParameterType::IntRange(0, i64::MAX),
            ),
            declared@[3].name@ == "height"@,
            declared@[3].descriptor == ParameterTypeDescriptor::Mandatory(
                ParameterType::IntRange(0, i64::MAX),
            ),
    {
        ParametersDescriptor::new().with(
            "input",
            ParameterTypeDescriptor::Mandatory(ParameterType::NodeInputParameter),
        ).with(
            "darkframe",
            ParameterTypeDescriptor::Mandatory(ParameterType::StringParameter),
        ).with(
            "width",
            ParameterTypeDescriptor::Mandatory(ParameterType::IntRange(0, i64::MAX)),
        ).with("height", ParameterTypeDescriptor::Mandatory(ParameterType::IntRange(0, i64::MAX)))
    }

    /// A calibration node on the first compute queue of the GPU. The GPU
    /// is looked for first, the parameters after it.
    pub fn from_parameters(parameters: Parameters, context: &ProcessingContext) -> (node: Result<
        Self,
        Error,
    >)
        ensures
            match node {
                Ok(n) => {
                    &&& compute_queue_of(*context, Ok(n.spec_queue()))
                    &&& calibrate_values(parameters@) matches Some((darkframe, width, height, input))
                    &&& n.spec_darkframe_path() == darkframe
                    &&& n.spec_darkframe() == (image_dimension(width), image_dimension(height))
                    &&& n.spec_input() == input
                },
                Err(e) => compute_queue_of(*context, Err(e)) || {
                    &&& exists|queue: usize| compute_queue_of(*context, Ok(queue))
                    &&& calibrate_fault(parameters@) matches Some((name, fault))
                    &&& is_parameter_error(e, name, fault)
                },
            },
    {
        let mut parameters = parameters;
        let ghost given = parameters@;
        proof {
            reveal_strlit("darkframe");
            reveal_strlit("width");
            reveal_strlit("height");
            reveal_strlit("input");
            assert("darkframe"@.len() == 9 && "width"@.len() == 5 && "height"@.len() == 6
                && "input"@.len() == 5);
            assert("width"@[0] == 'w' && "input"@[0] == 'i');
        }
        let queue = match compute_queue(context) {
            Ok(queue) => queue,
            Err(e) => {
                return Err(e);
            },
        };
        let darkframe = match parameters.take_string("darkframe") {
            Ok(path) => path,
            Err(e) => {
                return Err(e);
            },
        };
        let width = match parameters.take_int("width") {
            Ok(width) => width,
            Err(e) => {
                return Err(e);
            },
        };
        if width < 0 {
            return Err(out_of_range("width", width));
        }
        let height = match parameters.take_int("height") {
            Ok(height) => height,
            Err(e) => {
                return Err(e);
            },
        };
        if height < 0 {
            return Err(out_of_range("height", height));
        }
        let input = match parameters.take_node_input("input") {
            Ok(input) => input,
            Err(e) => {
                return Err(e);
            },
        };
        Ok(
            Calibrate {
                queue,
                input,
                darkframe,
                darkframe_width: to_shader_dimension(width as u64),
                darkframe_height: to_shader_dimension(height as u64),
            },
        )
    }

    /// The node whose frames are calibrated.
    pub fn input(&self) -> (input: NodeID)
        ensures
            input == self.spec_input(),
    {
        self.input
    }

    /// The path of the file that holds the dark frame.
    pub fn darkframe_path(&self) -> (path: &String)
        ensures
            *path == self.spec_darkframe_path(),
    {
        &self.darkframe
    }

    /// Index of the queue the node computes on.
    pub fn queue(&self) -> (queue: usize)
        ensures
            queue == self.spec_queue(),
    {
        self.queue
    }

    /// Width and height of the dark frame image.
    pub fn darkframe_dimensions(&self) -> (dimensions: (u32, u32))
        ensures
            dimensions == self.spec_darkframe(),
    {
        (self.darkframe_width, self.darkframe_height)
    }

    /// The dispatch that calibrates one frame.
    pub fn plan(&self, frame: &Frame<GpuBuffer>) -> (plan: ComputePlan)
        ensures
            plan == calibrate_plan(*frame),
            plan.output_len == plan.output_interpretation.spec_required_bytes(),
    {
        let input = *frame.interpretation();
        let width = to_shader_dimension(input.width);
        let height = to_shader_dimension(input.height);
        let groups = dispatch_groups(width, height);
        let plan = ComputePlan {
            output_len: frame.storage().len(),
            output_usage: BufferUsage {
                storage_buffer: true,
                storage_texel_buffer: true,
                transfer_src: true,
                transfer_dst: false,
                vertex_buffer: false,
            },
            clear_output: false,
            push_constants: PushConstantData { width, height },
            groups,
            output_interpretation: input,
        };
        assert(plan.groups@ =~= calibrate_plan(*frame).groups@);
        assert(plan.groups == calibrate_plan(*frame).groups);
        plan
    }

    /// What the node can deliver: what its input can.
    pub fn get_caps(&self, input: Caps) -> (caps: Caps)
        ensures
            caps == input,
    {
        input
    }
}

fn out_of_range(name: &str, value: i64) -> (error: Error)
    ensures
        is_parameter_error(
            error,
            name@,
            ParameterFault::OutOfRange { value, low: 0, high: i64::MAX },
        ),
{
    Error::Config(
        ConfigFault::Parameter {
            name: name.to_owned(),
            fault: ParameterFault::OutOfRange { value, low: 0, high: i64::MAX },
        },
    )
}

} // verus!
