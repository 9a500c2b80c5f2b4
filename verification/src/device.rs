//! The record of what is to be created on a device, in order.
//!
//! Creating an object appends its descriptor to the record and hands back a
//! handle that names the new entry. An object may refer only to objects
//! created before it, each of the kind its descriptor asks for.

use crate::command::{CommandEncoder, CommandEncoderDescriptor};
use crate::resource::{
    BindGroup, BindGroupDescriptor, BindGroupEntry, BindGroupLayout, BindGroupLayoutDescriptor,
    BindingResource, Buffer, BufferDescriptor, ComputePipeline, ComputePipelineDescriptor,
    resource_views, PipelineLayout, PipelineLayoutDescriptor, Resource, ResourceView,
    ShaderModule, ShaderModuleDescriptor,
};
use vstd::prelude::*;

verus! {

/// Whether `buffer` names a buffer of `log`, with the size and usage that
/// the record holds for it.
pub open spec fn is_buffer(log: Seq<ResourceView>, buffer: Buffer) -> bool {
    &&& buffer.index < log.len()
    &&& log[buffer.index as int] matches ResourceView::Buffer(desc)
    &&& desc.size == buffer.size
    &&& desc.usage == buffer.usage
}

/// Whether `module` names a shader module of `log`.
pub open spec fn is_shader_module(log: Seq<ResourceView>, module: ShaderModule) -> bool {
    module.index < log.len() && log[module.index as int] is ShaderModule
}

/// Whether `layout` names a bind-group layout of `log`.
pub open spec fn is_bind_group_layout(log: Seq<ResourceView>, layout: BindGroupLayout) -> bool {
    layout.index < log.len() && log[layout.index as int] is BindGroupLayout
}

/// Whether `layout` names a pipeline layout of `log`.
pub open spec fn is_pipeline_layout(log: Seq<ResourceView>, layout: PipelineLayout) -> bool {
    layout.index < log.len() && log[layout.index as int] is PipelineLayout
}

/// Whether `pipeline` names a compute pipeline of `log`.
pub open spec fn is_compute_pipeline(log: Seq<ResourceView>, pipeline: ComputePipeline) -> bool {
    pipeline.index < log.len() && log[pipeline.index as int] is ComputePipeline
}

/// Whether `group` names a bind group of `log`.
pub open spec fn is_bind_group(log: Seq<ResourceView>, group: BindGroup) -> bool {
    group.index < log.len() && log[group.index as int] is BindGroup
}

/// Whether what `entry` binds was created in `earlier`.
pub open spec fn binds_from(entry: BindGroupEntry, earlier: Seq<ResourceView>) -> bool {
    match entry.resource {
        BindingResource::Buffer { buffer, .. } => is_buffer(earlier, buffer),
    }
}

/// Whether everything `resource` refers to was created in `earlier`.
pub open spec fn refers_into(resource: ResourceView, earlier: Seq<ResourceView>) -> bool {
    match resource {
        ResourceView::Buffer(_) => true,
        ResourceView::ShaderModule(_) => true,
        ResourceView::BindGroupLayout(_) => true,
        ResourceView::PipelineLayout(desc) => forall|i: int|
            0 <= i < desc.bind_group_layouts.len() ==> is_bind_group_layout(
                earlier,
                #[trigger] desc.bind_group_layouts[i],
            ),
        ResourceView::ComputePipeline(desc) => {
            &&& is_shader_module(earlier, desc.module)
            &&& desc.layout matches Some(layout) ==> is_pipeline_layout(earlier, layout)
        },
        ResourceView::BindGroup(desc) => {
            &&& is_bind_group_layout(earlier, desc.layout)
            &&& forall|i: int|
                0 <= i < desc.entries.len() ==> binds_from(#[trigger] desc.entries[i], earlier)
        },
    }
}

/// Whether every entry of `log` refers only to entries before it.
pub open spec fn well_formed(log: Seq<ResourceView>) -> bool {
    forall|i: int| 0 <= i < log.len() ==> refers_into(#[trigger] log[i], log.take(i))
}

/// Whether `pipeline` was built against a layout whose slot `index` is the
/// layout that `group` targets.
pub open spec fn layout_compatible(
    log: Seq<ResourceView>,
    pipeline: ComputePipeline,
    index: u32,
    group: BindGroup,
) -> bool {
    &&& is_compute_pipeline(log, pipeline)
    &&& is_bind_group(log, group)
    &&& log[pipeline.index as int]->ComputePipeline_0.layout matches Some(layout)
    &&& is_pipeline_layout(log, layout)
    &&& index < log[layout.index as int]->PipelineLayout_0.bind_group_layouts.len()
    &&& log[layout.index as int]->PipelineLayout_0.bind_group_layouts[index as int]
        == log[group.index as int]->BindGroup_0.layout
}

/// A device, as the ordered record of the objects created on it.
#[derive(Debug)]
pub struct Device {
    resources: Vec<Resource>,
}

impl View for Device {
    type V = Seq<ResourceView>;

    closed spec fn view(&self) -> Seq<ResourceView> {
        resource_views(self.resources@)
    }
}

impl Device {
    /// Whether every object refers only to objects created before it.
    pub open spec fn well_formed(&self) -> bool {
        self::well_formed(self@)
    }

    /// A device on which nothing has been created.
    pub fn new() -> (device: Device)
        ensures
            device@ == Seq::<ResourceView>::empty(),
            device.well_formed(),
    {
        Device { resources: Vec::new() }
    }

    /// What has been created so far, oldest first.
    pub fn resources(&self) -> (resources: &Vec<Resource>)
        ensures
            resource_views(resources@) == self@,
    {
        &self.resources
    }

    /// Gives up the device for the record of what was created on it.
    pub fn into_resources(self) -> (resources: Vec<Resource>)
        ensures
            resource_views(resources@) == self@,
    {
        self.resources
    }

    fn record(&mut self, resource: Resource) -> (index: usize)
        ensures
            final(self)@ == old(self)@.push(resource@),
            index == old(self)@.len(),
            old(self).well_formed() && refers_into(resource@, old(self)@) ==> final(self).well_formed(),
    {
        let index = self.resources.len();
        self.resources.push(resource);
        proof {
            if old(self).well_formed() && refers_into(resource@, old(self)@) {
                assert forall|i: int| 0 <= i < self@.len() implies refers_into(
                    #[trigger] self@[i],
                    self@.take(i),
                ) by {
                    if i < old(self)@.len() {
                        assert(self@[i] == old(self)@[i]);
                    }
                }
            }
        }
        index
    }

    /// Records the creation of a buffer.
    pub fn create_buffer(&mut self, desc: &BufferDescriptor) -> (buffer: Buffer)
        ensures
            final(self)@ == old(self)@.push(ResourceView::Buffer(*desc)),
            buffer.index == old(self)@.len(),
            buffer.size == desc.size,
            buffer.usage == desc.usage,
            old(self).well_formed() ==> final(self).well_formed(),
    {
        let index = self.record(Resource::Buffer(*desc));
        Buffer { index, size: desc.size, usage: desc.usage }
    }

    /// Records the creation of a shader module.
    pub fn create_shader_module(&mut self, desc: ShaderModuleDescriptor) -> (module: ShaderModule)
        ensures
            final(self)@ == old(self)@.push(ResourceView::ShaderModule(desc)),
            module.index == old(self)@.len(),
            old(self).well_formed() ==> final(self).well_formed(),
    {
        let index = self.record(Resource::ShaderModule(desc));
        ShaderModule { index }
    }

    /// Records the creation of a bind-group layout.
    pub fn create_bind_group_layout(&mut self, desc: BindGroupLayoutDescriptor) -> (layout:
        BindGroupLayout)
        ensures
            final(self)@ == old(self)@.push(ResourceView::BindGroupLayout(desc@)),
            layout.index == old(self)@.len(),
            old(self).well_formed() ==> final(self).well_formed(),
    {
        let index = self.record(Resource::BindGroupLayout(desc));
        BindGroupLayout { index }
    }

    /// Records the creation of a pipeline layout.
    pub fn create_pipeline_layout(&mut self, desc: PipelineLayoutDescriptor) -> (layout:
        PipelineLayout)
        ensures
            final(self)@ == old(self)@.push(ResourceView::PipelineLayout(desc@)),
            layout.index == old(self)@.len(),
            old(self).well_formed() && refers_into(ResourceView::PipelineLayout(desc@), old(self)@)
                ==> final(self).well_formed(),
    {
        let index = self.record(Resource::PipelineLayout(desc));
        PipelineLayout { index }
    }

    /// Records the creation of a compute pipeline.
    pub fn create_compute_pipeline(&mut self, desc: &ComputePipelineDescriptor) -> (pipeline:
        ComputePipeline)
        ensures
            final(self)@ == old(self)@.push(ResourceView::ComputePipeline(*desc)),
            pipeline.index == old(self)@.len(),
            old(self).well_formed() && refers_into(ResourceView::ComputePipeline(*desc), old(self)@)
                ==> final(self).well_formed(),
    {
        let index = self.record(Resource::ComputePipeline(*desc));
        ComputePipeline { index }
    }

    /// Records the creation of a bind group.
    pub fn create_bind_group(&mut self, desc: BindGroupDescriptor) -> (group: BindGroup)
        ensures
            final(self)@ == old(self)@.push(ResourceView::BindGroup(desc@)),
            group.index == old(self)@.len(),
            old(self).well_formed() && refers_into(ResourceView::BindGroup(desc@), old(self)@)
                ==> final(self).well_formed(),
    {
        let index = self.record(Resource::BindGroup(desc));
        BindGroup { index }
    }

    /// An encoder with nothing recorded in it.
    pub fn create_command_encoder(&self, desc: &CommandEncoderDescriptor) -> (encoder:
        CommandEncoder)
        ensures
            encoder.descriptor() == *desc,
            encoder@ == Seq::<crate::command::CommandView>::empty(),
    {
        CommandEncoder::new(*desc)
    }
}

} // verus!
