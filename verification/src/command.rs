//! Commands, the passes that group them, and the encoder that records them
//! into a command buffer.
//!
//! A compute pass is recorded on its own and enters the encoder as one
//! command when it ends, so nothing can be encoded in the middle of a pass.

use crate::resource::{BindGroup, Buffer, ComputePipeline};
use vstd::prelude::*;

verus! {

/// A set of queries that a pass can write into.
#[derive(Clone, Copy, Debug, PartialEq, Eq, Structural)]
pub struct QuerySet {
    pub index: usize,
}

/// Where a compute pass writes its timestamps.
#[derive(Clone, Copy, Debug, PartialEq, Eq, Structural)]
pub struct ComputePassTimestampWrites {
    pub query_set: QuerySet,
    pub beginning_of_pass_write_index: Option<u32>,
    pub end_of_pass_write_index: Option<u32>,
}

/// How a compute pass is begun.
#[derive(Clone, Copy, Debug, PartialEq, Eq)]
pub struct ComputePassDescriptor {
    pub label: Option<&'static str>,
    pub timestamp_writes: Option<ComputePassTimestampWrites>,
}

impl ComputePassDescriptor {
    pub open spec fn spec_default() -> ComputePassDescriptor {
        ComputePassDescriptor { label: None, timestamp_writes: None }
    }
}

impl Default for ComputePassDescriptor {
    /// A pass without a label that writes no timestamps.
    fn default() -> (desc: ComputePassDescriptor)
        ensures
            desc == ComputePassDescriptor::spec_default(),
    {
        ComputePassDescriptor { label: None, timestamp_writes: None }
    }
}

/// One command inside a compute pass.
#[derive(Clone, Debug, PartialEq, Eq)]
pub enum PassCommand {
    SetPipeline(ComputePipeline),
    SetBindGroup { index: u32, group: BindGroup, offsets: Vec<u32> },
    DispatchWorkgroups { x: u32, y: u32, z: u32 },
}

/// A pass command as a mathematical value.
pub enum PassCommandView {
    SetPipeline(ComputePipeline),
    SetBindGroup { index: u32, group: BindGroup, offsets: Seq<u32> },
    DispatchWorkgroups { x: u32, y: u32, z: u32 },
}

impl View for PassCommand {
    type V = PassCommandView;

    open spec fn view(&self) -> PassCommandView {
        match self {
            PassCommand::SetPipeline(pipeline) => PassCommandView::SetPipeline(*pipeline),
            PassCommand::SetBindGroup { index, group, offsets } => PassCommandView::SetBindGroup {
                index: *index,
                group: *group,
                offsets: offsets@,
            },
            PassCommand::DispatchWorkgroups { x, y, z } => PassCommandView::DispatchWorkgroups {
                x: *x,
                y: *y,
                z: *z,
            },
        }
    }
}

/// How many workgroups a dispatch of `x` by `y` by `z` launches.
pub open spec fn workgroups(x: u32, y: u32, z: u32) -> nat {
    (x * y * z) as nat
}

/// How many workgroups a dispatch of `x` by `y` by `z` launches. A count of
/// zero along any axis launches none.
pub fn workgroup_count(x: u32, y: u32, z: u32) -> (count: u128)
    ensures
        count == workgroups(x, y, z),
        (x == 0 || y == 0 || z == 0) <==> count == 0,
{
    assert(x * y <= 0xffff_ffff * 0xffff_ffff) by (nonlinear_arith)
        requires
            0 <= x <= 0xffff_ffff,
            0 <= y <= 0xffff_ffff,
    ;
    let plane: u64 = (x as u64) * (y as u64);
    assert(plane * z <= 0xffff_ffff * 0xffff_ffff * 0xffff_ffff) by (nonlinear_arith)
        requires
            0 <= plane <= 0xffff_ffff * 0xffff_ffff,
            0 <= z <= 0xffff_ffff,
    ;
    assert((x * y * z == 0) <==> (x == 0 || y == 0 || z == 0)) by (nonlinear_arith);
    (plane as u128) * (z as u128)
}

/// A compute pass: how it was begun and what was recorded in it, in order.
#[derive(Clone, Debug, PartialEq, Eq)]
pub struct ComputePass {
    pub descriptor: ComputePassDescriptor,
    pub commands: Vec<PassCommand>,
}

/// A compute pass as a mathematical value.
pub struct ComputePassView {
    pub descriptor: ComputePassDescriptor,
    pub commands: Seq<PassCommandView>,
}

impl View for ComputePass {
    type V = ComputePassView;

    open spec fn view(&self) -> ComputePassView {
        ComputePassView {
            descriptor: self.descriptor,
            commands: self.commands@.map_values(|command: PassCommand| command@),
        }
    }
}

impl ComputePass {
    fn record(&mut self, command: PassCommand)
        ensures
            final(self)@ == (ComputePassView {
                descriptor: old(self)@.descriptor,
                commands: old(self)@.commands.push(command@),
            }),
    {
        self.commands.push(command);
        assert(self@.commands =~= old(self)@.commands.push(command@));
    }

    /// Makes `pipeline` the one that later dispatches run.
    pub fn set_pipeline(&mut self, pipeline: &ComputePipeline)
        ensures
            final(self)@ == (ComputePassView {
                descriptor: old(self)@.descriptor,
                commands: old(self)@.commands.push(PassCommandView::SetPipeline(*pipeline)),
            }),
    {
        self.record(PassCommand::SetPipeline(*pipeline));
    }

    /// Binds `group` at slot `index`, with the dynamic offsets given.
    pub fn set_bind_group(&mut self, index: u32, group: &BindGroup, offsets: &[u32])
        ensures
            final(self)@ == (ComputePassView {
                descriptor: old(self)@.descriptor,
                commands: old(self)@.commands.push(
                    PassCommandView::SetBindGroup { index, group: *group, offsets: offsets@ },
                ),
            }),
    {
        let offsets = vstd::slice::slice_to_vec(offsets);
        self.record(PassCommand::SetBindGroup { index, group: *group, offsets });
    }

    /// Launches `x` by `y` by `z` workgroups of the pipeline that is set.
    pub fn dispatch_workgroups(&mut self, x: u32, y: u32, z: u32)
        ensures
            final(self)@ == (ComputePassView {
                descriptor: old(self)@.descriptor,
                commands: old(self)@.commands.push(PassCommandView::DispatchWorkgroups { x, y, z }),
            }),
    {
        self.record(PassCommand::DispatchWorkgroups { x, y, z });
    }
}

/// One command of a command buffer.
#[derive(Clone, Debug, PartialEq, Eq)]
pub enum Command {
    /// A compute pass, from its beginning to its end.
    ComputePass(ComputePass),
    /// A copy of `size` bytes from one buffer into another.
    CopyBufferToBuffer {
        source: Buffer,
        source_offset: u64,
        destination: Buffer,
        destination_offset: u64,
        size: u64,
    },
}

/// A command as a mathematical value.
pub enum CommandView {
    ComputePass(ComputePassView),
    CopyBufferToBuffer {
        source: Buffer,
        source_offset: u64,
        destination: Buffer,
        destination_offset: u64,
        size: u64,
    },
}

impl View for Command {
    type V = CommandView;

    open spec fn view(&self) -> CommandView {
        match self {
            Command::ComputePass(pass) => CommandView::ComputePass(pass@),
            Command::CopyBufferToBuffer {
                source,
                source_offset,
                destination,
                destination_offset,
                size,
            } => CommandView::CopyBufferToBuffer {
                source: *source,
                source_offset: *source_offset,
                destination: *destination,
                destination_offset: *destination_offset,
                size: *size,
            },
        }
    }
}

/// How a command encoder is created.
#[derive(Clone, Copy, Debug, PartialEq, Eq)]
pub struct CommandEncoderDescriptor {
    pub label: Option<&'static str>,
}

/// Records commands, in the order in which they are encoded.
#[derive(Debug)]
pub struct CommandEncoder {
    descriptor: CommandEncoderDescriptor,
    commands: Vec<Command>,
}

impl View for CommandEncoder {
    type V = Seq<CommandView>;

    closed spec fn view(&self) -> Seq<CommandView> {
        command_views(self.commands@)
    }
}

impl CommandEncoder {
    /// The descriptor the encoder was created with.
    pub closed spec fn descriptor(&self) -> CommandEncoderDescriptor {
        self.descriptor
    }

    /// An encoder with nothing recorded in it.
    pub fn new(descriptor: CommandEncoderDescriptor) -> (encoder: CommandEncoder)
        ensures
            encoder.descriptor() == descriptor,
            encoder@ == Seq::<CommandView>::empty(),
    {
        CommandEncoder { descriptor, commands: Vec::new() }
    }

    fn record(&mut self, command: Command)
        ensures
            final(self)@ == old(self)@.push(command@),
            final(self).descriptor() == old(self).descriptor(),
    {
        self.commands.push(command);
    }

    /// Begins a compute pass. Nothing reaches the encoder until the pass is
    /// handed back to [`CommandEncoder::end_compute_pass`].
    pub fn begin_compute_pass(&self, descriptor: &ComputePassDescriptor) -> (pass: ComputePass)
        ensures
            pass@ == (ComputePassView {
                descriptor: *descriptor,
                commands: Seq::<PassCommandView>::empty(),
            }),
    {
        let pass = ComputePass { descriptor: *descriptor, commands: Vec::new() };
        assert(pass@.commands =~= Seq::<PassCommandView>::empty());
        pass
    }

    /// Ends `pass` and records it as the next command.
    pub fn end_compute_pass(&mut self, pass: ComputePass)
        ensures
            final(self)@ == old(self)@.push(CommandView::ComputePass(pass@)),
            final(self).descriptor() == old(self).descriptor(),
    {
        self.record(Command::ComputePass(pass));
    }

    /// Records a copy of `size` bytes from `source` at `source_offset` into
    /// `destination` at `destination_offset`.
    pub fn copy_buffer_to_buffer(
        &mut self,
        source: &Buffer,
        source_offset: u64,
        destination: &Buffer,
        destination_offset: u64,
        size: u64,
    )
        ensures
            final(self)@ == old(self)@.push(
                CommandView::CopyBufferToBuffer {
                    source: *source,
                    source_offset,
                    destination: *destination,
                    destination_offset,
                    size,
                },
            ),
            final(self).descriptor() == old(self).descriptor(),
    {
        self.record(
            Command::CopyBufferToBuffer {
                source: *source,
                source_offset,
                destination: *destination,
                destination_offset,
                size,
            },
        );
    }

    /// Closes the encoder and hands out what was recorded.
    pub fn finish(self) -> (buffer: CommandBuffer)
        ensures
            buffer@ == self@,
            buffer.descriptor == self.descriptor(),
    {
        CommandBuffer { descriptor: self.descriptor, commands: self.commands }
    }
}

/// A finished, ordered list of commands, ready to be submitted.
#[derive(Clone, Debug, PartialEq, Eq)]
pub struct CommandBuffer {
    /// The descriptor of the encoder that recorded the commands.
    pub descriptor: CommandEncoderDescriptor,
    pub commands: Vec<Command>,
}

impl View for CommandBuffer {
    type V = Seq<CommandView>;

    open spec fn view(&self) -> Seq<CommandView> {
        command_views(self.commands@)
    }
}

/// The commands of `commands` as mathematical values, in the same order.
pub open spec fn command_views(commands: Seq<Command>) -> Seq<CommandView> {
    commands.map_values(|command: Command| command@)
}

} // verus!
