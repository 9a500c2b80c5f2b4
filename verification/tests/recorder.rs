use gpu_dispatch::command::{
    Command, CommandEncoder, CommandEncoderDescriptor, ComputePassDescriptor, PassCommand,
};
use gpu_dispatch::device::Device;
use gpu_dispatch::driver::output_buffer_descriptor;
use gpu_dispatch::recorder::construct_compute_shader;
use gpu_dispatch::resource::{
    BindGroup, BindGroupEntry, BindGroupLayout, BindGroupLayoutEntry, BindingResource,
    BindingType, Buffer, BufferBindingType, BufferDescriptor, BufferUsages, ComputePipeline,
    PipelineCompilationOptions, PipelineLayout, Resource, ShaderModule, ShaderSource,
    ShaderStages,
};

const SHADER: &str = "@compute @workgroup_size(1) fn main() {}";

fn output_of(device: &mut Device, size: u64) -> Buffer {
    device.create_buffer(&BufferDescriptor {
        label: Some("output-buffer"),
        size,
        usage: BufferUsages::map_read().union(BufferUsages::copy_dst()),
        mapped_at_creation: false,
    })
}

#[test]
fn intermediate_buffer_is_as_large_as_the_output() {
    for size in [0u64, 4, 48, 4096, u64::MAX] {
        let mut device = Device::new();
        let output = output_of(&mut device, size);
        let commands = construct_compute_shader(&mut device, &output, SHADER);
        match &device.resources()[1] {
            Resource::Buffer(desc) => assert_eq!(desc.size, size),
            other => panic!("expected the intermediate buffer, found {other:?}"),
        }
        match &commands.commands[1] {
            Command::CopyBufferToBuffer { source, destination, size: copied, .. } => {
                assert_eq!(source.size, destination.size);
                assert_eq!(source.size, size);
                assert_eq!(*copied, size);
            }
            other => panic!("expected the copy, found {other:?}"),
        }
    }
}

#[test]
fn one_compute_pass_then_one_copy() {
    let mut device = Device::new();
    let output = device.create_buffer(&output_buffer_descriptor());
    let commands = construct_compute_shader(&mut device, &output, SHADER);
    assert_eq!(commands.commands.len(), 2);
    assert!(matches!(commands.commands[0], Command::ComputePass(_)));
    assert!(matches!(commands.commands[1], Command::CopyBufferToBuffer { .. }));
    assert_eq!(commands.descriptor, CommandEncoderDescriptor { label: Some("encoder") });
}

#[test]
fn compute_pass_sets_pipeline_and_bind_group_then_dispatches() {
    let mut device = Device::new();
    let output = device.create_buffer(&output_buffer_descriptor());
    let commands = construct_compute_shader(&mut device, &output, SHADER);
    let Command::ComputePass(pass) = &commands.commands[0] else {
        panic!("expected a compute pass");
    };
    assert_eq!(pass.descriptor, ComputePassDescriptor { label: None, timestamp_writes: None });
    assert_eq!(
        pass.commands,
        vec![
            PassCommand::SetPipeline(ComputePipeline { index: 5 }),
            PassCommand::SetBindGroup { index: 0, group: BindGroup { index: 6 }, offsets: vec![] },
            PassCommand::DispatchWorkgroups { x: 1, y: 0, z: 0 },
        ]
    );
}

#[test]
fn copy_moves_the_whole_intermediate_buffer_into_the_output() {
    let mut device = Device::new();
    let output = device.create_buffer(&output_buffer_descriptor());
    let commands = construct_compute_shader(&mut device, &output, SHADER);
    assert_eq!(
        commands.commands[1],
        Command::CopyBufferToBuffer {
            source: Buffer {
                index: 1,
                size: 48,
                usage: BufferUsages::storage().union(BufferUsages::copy_src()),
            },
            source_offset: 0,
            destination: output,
            destination_offset: 0,
            size: 48,
        }
    );
}

#[test]
fn objects_are_created_in_order_with_their_descriptors() {
    let mut device = Device::new();
    let output = device.create_buffer(&output_buffer_descriptor());
    construct_compute_shader(&mut device, &output, SHADER);
    let made = device.resources();
    assert_eq!(made.len(), 7);

    let Resource::Buffer(intermediate) = &made[1] else { panic!("expected a buffer") };
    assert_eq!(intermediate.label, Some("buffer-intermediate"));
    assert_eq!(intermediate.size, 48);
    assert!(intermediate.usage.storage && intermediate.usage.copy_src);
    assert!(!intermediate.usage.map_read && !intermediate.usage.copy_dst);
    assert!(!intermediate.mapped_at_creation);

    let Resource::ShaderModule(module) = &made[2] else { panic!("expected a shader module") };
    assert_eq!(module.label, Some("shader-main"));
    assert_eq!(module.source, ShaderSource::Wgsl(SHADER));

    let Resource::BindGroupLayout(layout) = &made[3] else {
        panic!("expected a bind-group layout")
    };
    assert_eq!(layout.label, Some("bind-group-layout"));
    assert_eq!(
        layout.entries,
        vec![BindGroupLayoutEntry {
            binding: 0,
            visibility: ShaderStages { vertex: false, fragment: false, compute: true },
            ty: BindingType::Buffer {
                ty: BufferBindingType::Storage { read_only: false },
                has_dynamic_offset: false,
                min_binding_size: None,
            },
            count: None,
        }]
    );

    let Resource::PipelineLayout(pipeline_layout) = &made[4] else {
        panic!("expected a pipeline layout")
    };
    assert_eq!(pipeline_layout.label, Some("pipeline-layout-descriptor"));
    assert_eq!(pipeline_layout.bind_group_layouts, vec![BindGroupLayout { index: 3 }]);
    assert!(pipeline_layout.push_constant_ranges.is_empty());

    let Resource::ComputePipeline(pipeline) = &made[5] else {
        panic!("expected a compute pipeline")
    };
    assert_eq!(pipeline.label, Some("compile-pipeline"));
    assert_eq!(pipeline.layout, Some(PipelineLayout { index: 4 }));
    assert_eq!(pipeline.module, ShaderModule { index: 2 });
    assert_eq!(pipeline.entry_point, None);
    assert_eq!(
        pipeline.compilation_options,
        PipelineCompilationOptions { zero_initialize_workgroup_memory: true }
    );
    assert_eq!(pipeline.cache, None);

    let Resource::BindGroup(group) = &made[6] else { panic!("expected a bind group") };
    assert_eq!(group.label, Some("bind-group"));
    assert_eq!(group.layout, BindGroupLayout { index: 3 });
    assert_eq!(
        group.entries,
        vec![BindGroupEntry {
            binding: 0,
            resource: BindingResource::Buffer {
                buffer: Buffer {
                    index: 1,
                    size: 48,
                    usage: BufferUsages::storage().union(BufferUsages::copy_src()),
                },
                offset: 0,
                size: None,
            },
        }]
    );
}

#[test]
fn pipeline_layout_holds_the_layout_that_the_bind_group_targets() {
    let mut device = Device::new();
    let output = device.create_buffer(&output_buffer_descriptor());
    construct_compute_shader(&mut device, &output, SHADER);
    let made = device.resources();
    let Resource::ComputePipeline(pipeline) = &made[5] else { panic!("expected a pipeline") };
    let Resource::PipelineLayout(layout) = &made[pipeline.layout.unwrap().index] else {
        panic!("expected a pipeline layout")
    };
    let Resource::BindGroup(group) = &made[6] else { panic!("expected a bind group") };
    assert_eq!(layout.bind_group_layouts[0], group.layout);
}

#[test]
fn zero_sized_output_gives_a_zero_sized_buffer_and_a_zero_byte_copy() {
    let mut device = Device::new();
    let output = output_of(&mut device, 0);
    let commands = construct_compute_shader(&mut device, &output, SHADER);
    let Resource::Buffer(intermediate) = &device.resources()[1] else {
        panic!("expected a buffer")
    };
    assert_eq!(intermediate.size, 0);
    assert_eq!(commands.commands.len(), 2);
    let Command::CopyBufferToBuffer { source, size, source_offset, destination_offset, .. } =
        &commands.commands[1]
    else {
        panic!("expected the copy")
    };
    assert_eq!((source.size, *size, *source_offset, *destination_offset), (0, 0, 0, 0));
}

#[test]
fn recording_on_a_device_that_holds_objects_already_numbers_from_there() {
    let mut device = Device::new();
    for _ in 0..3 {
        output_of(&mut device, 8);
    }
    let output = output_of(&mut device, 16);
    assert_eq!(output.index, 3);
    let commands = construct_compute_shader(&mut device, &output, SHADER);
    assert_eq!(device.resources().len(), 10);
    let Command::ComputePass(pass) = &commands.commands[0] else { panic!("expected a pass") };
    assert_eq!(pass.commands[0], PassCommand::SetPipeline(ComputePipeline { index: 8 }));
    let Command::CopyBufferToBuffer { source, destination, .. } = &commands.commands[1] else {
        panic!("expected the copy")
    };
    assert_eq!(source.index, 4);
    assert_eq!(*destination, output);
}

#[test]
fn handles_carry_what_the_buffer_was_created_with() {
    let mut device = Device::new();
    let first = output_of(&mut device, 48);
    assert_eq!((first.index, first.size()), (0, 48));
    assert_eq!(first.usage(), BufferUsages::map_read().union(BufferUsages::copy_dst()));
    assert_eq!(
        first.as_entire_binding(),
        BindingResource::Buffer { buffer: first, offset: 0, size: None }
    );
    let second = output_of(&mut device, 7);
    assert_eq!((second.index, second.size()), (1, 7));
}

#[test]
fn encoder_records_in_the_order_of_encoding() {
    let mut device = Device::new();
    let a = output_of(&mut device, 8);
    let b = output_of(&mut device, 8);
    let mut encoder = CommandEncoder::new(CommandEncoderDescriptor { label: None });
    encoder.copy_buffer_to_buffer(&a, 0, &b, 4, 4);
    let mut pass = encoder.begin_compute_pass(&ComputePassDescriptor::default());
    pass.dispatch_workgroups(2, 3, 4);
    pass.set_bind_group(1, &BindGroup { index: 9 }, &[16, 32]);
    encoder.end_compute_pass(pass);
    let commands = encoder.finish();
    assert_eq!(commands.descriptor, CommandEncoderDescriptor { label: None });
    assert_eq!(commands.commands.len(), 2);
    assert_eq!(
        commands.commands[0],
        Command::CopyBufferToBuffer {
            source: a,
            source_offset: 0,
            destination: b,
            destination_offset: 4,
            size: 4,
        }
    );
    let Command::ComputePass(pass) = &commands.commands[1] else { panic!("expected a pass") };
    assert_eq!(
        pass.commands,
        vec![
            PassCommand::DispatchWorkgroups { x: 2, y: 3, z: 4 },
            PassCommand::SetBindGroup {
                index: 1,
                group: BindGroup { index: 9 },
                offsets: vec![16, 32],
            },
        ]
    );
}
