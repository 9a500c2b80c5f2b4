//! Assembles the objects of one compute dispatch and records its commands.
//!
//! The output buffer can be mapped by the host and so cannot be bound as
//! storage. The shader therefore works on an intermediate storage buffer of
//! the same size, whose contents are copied into the output buffer once the
//! compute pass has ended.

use crate::command::{
    workgroups, CommandBuffer, CommandEncoderDescriptor, CommandView, ComputePassDescriptor,
    ComputePassView, PassCommandView,
};
use crate::device::{is_buffer, layout_compatible, Device};
use crate::resource::{
    BindGroup, BindGroupDescriptor, BindGroupDescriptorView, BindGroupEntry, BindGroupLayout,
    BindGroupLayoutDescriptor, BindGroupLayoutDescriptorView, BindGroupLayoutEntry, BindingResource,
    BindingType, Buffer, BufferBindingType, BufferDescriptor, BufferUsages, ComputePipeline,
    ComputePipelineDescriptor, PipelineCompilationOptions, PipelineLayout, PipelineLayoutDescriptor,
    PipelineLayoutDescriptorView, PushConstantRange, ResourceView, ShaderModule,
    ShaderModuleDescriptor, ShaderSource, ShaderStages,
};
use vstd::prelude::*;

verus! {

/// The workgroup counts of the one dispatch, along x, y and z. With a count
/// of zero along y and z the dispatch launches no workgroup, so the shader
/// body never runs.
pub open spec fn dispatch_size() -> (u32, u32, u32) {
    (1, 0, 0)
}

/// The usage of the intermediate buffer: storage for the shader, source for
/// the copy.
pub open spec fn intermediate_usage() -> BufferUsages {
    BufferUsages::spec_storage().spec_union(BufferUsages::spec_copy_src())
}

/// The descriptor of the intermediate buffer that stands in for an output
/// buffer of `size` bytes.
pub open spec fn intermediate_descriptor(size: u64) -> BufferDescriptor {
    BufferDescriptor {
        label: Some("buffer-intermediate"),
        size,
        usage: intermediate_usage(),
        mapped_at_creation: false,
    }
}

/// The descriptor of the shader module compiled from `shader`.
pub open spec fn shader_descriptor(shader: &'static str) -> ShaderModuleDescriptor {
    ShaderModuleDescriptor { label: Some("shader-main"), source: ShaderSource::Wgsl(shader) }
}

/// The one binding of the layout: slot 0, a read-write storage buffer that
/// the compute stage sees, without a dynamic offset or a minimum size.
pub open spec fn storage_entry() -> BindGroupLayoutEntry {
    BindGroupLayoutEntry {
        binding: 0,
        visibility: ShaderStages::spec_compute(),
        ty: BindingType::Buffer {
            ty: BufferBindingType::Storage { read_only: false },
            has_dynamic_offset: false,
            min_binding_size: None,
        },
        count: None,
    }
}

/// The descriptor of the bind-group layout.
pub open spec fn bind_group_layout_descriptor() -> BindGroupLayoutDescriptorView {
    BindGroupLayoutDescriptorView { label: Some("bind-group-layout"), entries: seq![storage_entry()] }
}

/// The descriptor of the pipeline layout: the one bind-group layout and no
/// push-constant range.
pub open spec fn pipeline_layout_descriptor(layout: BindGroupLayout) -> PipelineLayoutDescriptorView {
    PipelineLayoutDescriptorView {
        label: Some("pipeline-layout-descriptor"),
        bind_group_layouts: seq![layout],
        push_constant_ranges: Seq::<PushConstantRange>::empty(),
    }
}

/// The descriptor of the compute pipeline. No entry point is named, so the
/// shader's only compute entry point is the one that runs.
pub open spec fn compute_pipeline_descriptor(
    layout: PipelineLayout,
    module: ShaderModule,
) -> ComputePipelineDescriptor {
    ComputePipelineDescriptor {
        label: Some("compile-pipeline"),
        layout: Some(layout),
        module,
        entry_point: None,
        compilation_options: PipelineCompilationOptions::spec_default(),
        cache: None,
    }
}

/// The descriptor of the bind group: the whole of `buffer` at slot 0.
pub open spec fn bind_group_descriptor(layout: BindGroupLayout, buffer: Buffer) -> BindGroupDescriptorView {
    BindGroupDescriptorView {
        label: Some("bind-group"),
        layout,
        entries: seq![
            BindGroupEntry {
                binding: 0,
                resource: BindingResource::Buffer { buffer, offset: 0, size: None },
            },
        ],
    }
}

/// The descriptor of the command encoder.
pub open spec fn encoder_descriptor() -> CommandEncoderDescriptor {
    CommandEncoderDescriptor { label: Some("encoder") }
}

/// The handles of the objects that a dispatch creates on a device that
/// holds `base` objects already.
pub struct Assembly {
    pub intermediate: Buffer,
    pub shader: ShaderModule,
    pub bind_group_layout: BindGroupLayout,
    pub pipeline_layout: PipelineLayout,
    pub pipeline: ComputePipeline,
    pub bind_group: BindGroup,
}

/// The handles that the dispatch for `output` gets on a device that holds
/// `base` objects already: one object after the other, in the order of
/// creation.
pub open spec fn assembly(base: nat, output: Buffer) -> Assembly {
    Assembly {
        intermediate: Buffer {
            index: base as usize,
            size: output.size,
            usage: intermediate_usage(),
        },
        shader: ShaderModule { index: (base + 1) as usize },
        bind_group_layout: BindGroupLayout { index: (base + 2) as usize },
        pipeline_layout: PipelineLayout { index: (base + 3) as usize },
        pipeline: ComputePipeline { index: (base + 4) as usize },
        bind_group: BindGroup { index: (base + 5) as usize },
    }
}

/// What the dispatch for `output` creates, in order, on a device that holds
/// `base` objects already.
pub open spec fn assembled(base: nat, output: Buffer, shader: &'static str) -> Seq<ResourceView> {
    let made = assembly(base, output);
    seq![
        ResourceView::Buffer(intermediate_descriptor(output.size)),
        ResourceView::ShaderModule(shader_descriptor(shader)),
        ResourceView::BindGroupLayout(bind_group_layout_descriptor()),
        ResourceView::PipelineLayout(pipeline_layout_descriptor(made.bind_group_layout)),
        ResourceView::ComputePipeline(
            compute_pipeline_descriptor(made.pipeline_layout, made.shader),
        ),
        ResourceView::BindGroup(bind_group_descriptor(made.bind_group_layout, made.intermediate)),
    ]
}

/// The compute pass of the dispatch: the pipeline, the bind group at slot 0
/// without dynamic offsets, and the dispatch itself.
pub open spec fn compute_pass(pipeline: ComputePipeline, group: BindGroup) -> ComputePassView {
    ComputePassView {
        descriptor: ComputePassDescriptor::spec_default(),
        commands: seq![
            PassCommandView::SetPipeline(pipeline),
            PassCommandView::SetBindGroup { index: 0, group, offsets: Seq::<u32>::empty() },
            PassCommandView::DispatchWorkgroups {
                x: dispatch_size().0,
                y: dispatch_size().1,
                z: dispatch_size().2,
            },
        ],
    }
}

/// The copy that carries the whole intermediate buffer into the output
/// buffer.
pub open spec fn readback_copy(intermediate: Buffer, output: Buffer) -> CommandView {
    CommandView::CopyBufferToBuffer {
        source: intermediate,
        source_offset: 0,
        destination: output,
        destination_offset: 0,
        size: output.size,
    }
}

/// The commands of the dispatch for `output`, recorded on a device that
/// holds `base` objects already: the compute pass, then the copy.
pub open spec fn recorded(base: nat, output: Buffer) -> Seq<CommandView> {
    let made = assembly(base, output);
    seq![
        CommandView::ComputePass(compute_pass(made.pipeline, made.bind_group)),
        readback_copy(made.intermediate, output),
    ]
}

fn bind_group_layout_options() -> (options: BindGroupLayoutDescriptor)
    ensures
        options@ == bind_group_layout_descriptor(),
{
    let entry = BindGroupLayoutEntry {
        binding: 0,
        count: None,
        visibility: ShaderStages::compute(),
        ty: BindingType::Buffer {
            ty: BufferBindingType::Storage { read_only: false },
            has_dynamic_offset: false,
            min_binding_size: None,
        },
    };
    let options = BindGroupLayoutDescriptor {
        label: Some("bind-group-layout"),
        entries: vec![entry],
    };
    assert(options@.entries =~= seq![storage_entry()]);
    options
}

/// Records on `device` everything that running `shader` takes, and returns
/// the commands that run it and copy the result into `output`.
///
/// In order, this
/// 1. creates an intermediate working buffer as large as `output`,
/// 2. creates the shader module,
/// 3. creates the bind-group layout and the pipeline layout,
/// 4. creates the command encoder,
/// 5. creates the compute pipeline and the bind group,
/// 6. records a compute pass that sets both and dispatches,
/// 7. records, after the pass has ended, a copy of the intermediate buffer
///    into `output`,
/// 8. finishes the encoder.
pub fn construct_compute_shader(
    device: &mut Device,
    output: &Buffer,
    shader: &'static str,
) -> (commands: CommandBuffer)
    ensures
        final(device)@ == old(device)@ + assembled(old(device)@.len(), *output, shader),
        commands@ == recorded(old(device)@.len(), *output),
        commands.descriptor == encoder_descriptor(),
        // The intermediate buffer is exactly as large as the output buffer
        // when the copy is encoded, and the copy moves all of it.
        commands@.last() matches CommandView::CopyBufferToBuffer {
            source,
            destination,
            size,
            ..
        } && source.size == destination.size && destination == *output && size == output.size
            && is_buffer(final(device)@, source),
        // One compute pass, then one copy, and nothing else.
        commands@.len() == 2,
        commands@[0] is ComputePass,
        commands@[1] is CopyBufferToBuffer,
        // The pipeline is built against the layout that the bind group targets.
        layout_compatible(
            final(device)@,
            assembly(old(device)@.len(), *output).pipeline,
            0,
            assembly(old(device)@.len(), *output).bind_group,
        ),
        old(device).well_formed() ==> final(device).well_formed(),
        is_buffer(old(device)@, *output) ==> is_buffer(final(device)@, *output),
{
    let buffer = device.create_buffer(
        &BufferDescriptor {
            label: Some("buffer-intermediate"),
            size: output.size(),
            usage: BufferUsages::storage().union(BufferUsages::copy_src()),
            mapped_at_creation: false,
        },
    );

    let module = device.create_shader_module(
        ShaderModuleDescriptor { label: Some("shader-main"), source: ShaderSource::Wgsl(shader) },
    );
    let bind_group_layout = device.create_bind_group_layout(bind_group_layout_options());

    let pipeline_layout_options = PipelineLayoutDescriptor {
        label: Some("pipeline-layout-descriptor"),
        bind_group_layouts: vec![bind_group_layout],
        push_constant_ranges: Vec::new(),
    };
    assert(pipeline_layout_options@.bind_group_layouts =~= seq![bind_group_layout]);
    let pipeline_layout = device.create_pipeline_layout(pipeline_layout_options);

    let compute_pipeline_options = ComputePipelineDescriptor {
        label: Some("compile-pipeline"),
        layout: Some(pipeline_layout),
        module,
        entry_point: None,
        compilation_options: PipelineCompilationOptions::default(),
        cache: None,
    };

    let bind_group_options = BindGroupDescriptor {
        label: Some("bind-group"),
        layout: bind_group_layout,
        entries: vec![BindGroupEntry { binding: 0, resource: buffer.as_entire_binding() }],
    };
    assert(bind_group_options@ == bind_group_descriptor(bind_group_layout, buffer)) by {
        assert(bind_group_options@.entries =~= bind_group_descriptor(
            bind_group_layout,
            buffer,
        ).entries);
    }

    let mut encoder = device.create_command_encoder(
        &CommandEncoderDescriptor { label: Some("encoder") },
    );
    let compute_pipeline = device.create_compute_pipeline(&compute_pipeline_options);
    let bind_group = device.create_bind_group(bind_group_options);

    let mut pass = encoder.begin_compute_pass(&ComputePassDescriptor::default());
    pass.set_pipeline(&compute_pipeline);
    let offsets: Vec<u32> = Vec::new();
    pass.set_bind_group(0, &bind_group, offsets.as_slice());
    pass.dispatch_workgroups(1, 0, 0);
    assert(pass@.commands =~= compute_pass(compute_pipeline, bind_group).commands);
    encoder.end_compute_pass(pass);

    encoder.copy_buffer_to_buffer(&buffer, 0, output, 0, output.size());
    encoder.finish()
}

/// The dispatch launches no workgroup: with a count of zero along an axis
/// the shader body never runs, and the output shows what the intermediate
/// buffer held to begin with.
pub proof fn lemma_dispatch_launches_nothing()
    ensures
        workgroups(dispatch_size().0, dispatch_size().1, dispatch_size().2) == 0,
{
    assert(1 * 0 * 0 == 0) by (nonlinear_arith);
}

/// Why there are two buffers. A buffer that the host maps to read must not
/// be bound as storage, so an output buffer that is to be read back cannot
/// be the one the shader works on. The intermediate buffer can: it is
/// storage and a copy source, and is never mapped.
pub proof fn lemma_buffers_split(output: BufferUsages)
    requires
        output.allowed(),
        output.map_read,
    ensures
        !output.storage,
        output != intermediate_usage(),
        intermediate_usage().allowed(),
        intermediate_usage().storage,
        intermediate_usage().copy_src,
        !intermediate_usage().map_read,
{
}

} // verus!
