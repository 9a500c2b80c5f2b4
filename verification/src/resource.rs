//! Plain descriptions of the GPU objects a compute dispatch is built from.
//!
//! Nothing here owns GPU memory. A descriptor says what is to be created, a
//! handle says which creation on a [`crate::device::Device`] is meant.

use vstd::prelude::*;

verus! {

/// What a buffer may be used for.
#[derive(Clone, Copy, Debug, PartialEq, Eq, Structural)]
pub struct BufferUsages {
    pub map_read: bool,
    pub map_write: bool,
    pub copy_src: bool,
    pub copy_dst: bool,
    pub index: bool,
    pub vertex: bool,
    pub uniform: bool,
    pub storage: bool,
    pub indirect: bool,
    pub query_resolve: bool,
}

impl BufferUsages {
    pub open spec fn spec_empty() -> BufferUsages {
        BufferUsages {
            map_read: false,
            map_write: false,
            copy_src: false,
            copy_dst: false,
            index: false,
            vertex: false,
            uniform: false,
            storage: false,
            indirect: false,
            query_resolve: false,
        }
    }

    pub open spec fn spec_union(self, other: BufferUsages) -> BufferUsages {
        BufferUsages {
            map_read: self.map_read || other.map_read,
            map_write: self.map_write || other.map_write,
            copy_src: self.copy_src || other.copy_src,
            copy_dst: self.copy_dst || other.copy_dst,
            index: self.index || other.index,
            vertex: self.vertex || other.vertex,
            uniform: self.uniform || other.uniform,
            storage: self.storage || other.storage,
            indirect: self.indirect || other.indirect,
            query_resolve: self.query_resolve || other.query_resolve,
        }
    }

    pub open spec fn spec_contains(self, other: BufferUsages) -> bool {
        self.spec_union(other) == self
    }

    pub open spec fn spec_map_read() -> BufferUsages {
        BufferUsages { map_read: true, ..BufferUsages::spec_empty() }
    }

    pub open spec fn spec_copy_src() -> BufferUsages {
        BufferUsages { copy_src: true, ..BufferUsages::spec_empty() }
    }

    pub open spec fn spec_copy_dst() -> BufferUsages {
        BufferUsages { copy_dst: true, ..BufferUsages::spec_empty() }
    }

    pub open spec fn spec_storage() -> BufferUsages {
        BufferUsages { storage: true, ..BufferUsages::spec_empty() }
    }

    /// A host-readable buffer cannot also be bound as storage: the contents
    /// of a storage buffer reach the host only through a copy.
    pub open spec fn allowed(self) -> bool {
        !(self.map_read && self.storage)
    }

    /// No use at all.
    #[verifier::when_used_as_spec(spec_empty)]
    pub fn empty() -> (usage: BufferUsages)
        ensures
            usage == BufferUsages::spec_empty(),
    {
        BufferUsages {
            map_read: false,
            map_write: false,
            copy_src: false,
            copy_dst: false,
            index: false,
            vertex: false,
            uniform: false,
            storage: false,
            indirect: false,
            query_resolve: false,
        }
    }

    /// The buffer can be mapped into host memory for reading.
    #[verifier::when_used_as_spec(spec_map_read)]
    pub fn map_read() -> (usage: BufferUsages)
        ensures
            usage == BufferUsages::spec_map_read(),
    {
        let mut usage = BufferUsages::empty();
        usage.map_read = true;
        usage
    }

    /// The buffer can be the source of a copy.
    #[verifier::when_used_as_spec(spec_copy_src)]
    pub fn copy_src() -> (usage: BufferUsages)
        ensures
            usage == BufferUsages::spec_copy_src(),
    {
        let mut usage = BufferUsages::empty();
        usage.copy_src = true;
        usage
    }

    /// The buffer can be the destination of a copy.
    #[verifier::when_used_as_spec(spec_copy_dst)]
    pub fn copy_dst() -> (usage: BufferUsages)
        ensures
            usage == BufferUsages::spec_copy_dst(),
    {
        let mut usage = BufferUsages::empty();
        usage.copy_dst = true;
        usage
    }

    /// The buffer can be bound as a storage buffer.
    #[verifier::when_used_as_spec(spec_storage)]
    pub fn storage() -> (usage: BufferUsages)
        ensures
            usage == BufferUsages::spec_storage(),
    {
        let mut usage = BufferUsages::empty();
        usage.storage = true;
        usage
    }

    /// Every use that either side allows.
    #[verifier::when_used_as_spec(spec_union)]
    pub fn union(self, other: BufferUsages) -> (usage: BufferUsages)
        ensures
            usage == self.spec_union(other),
    {
        BufferUsages {
            map_read: self.map_read || other.map_read,
            map_write: self.map_write || other.map_write,
            copy_src: self.copy_src || other.copy_src,
            copy_dst: self.copy_dst || other.copy_dst,
            index: self.index || other.index,
            vertex: self.vertex || other.vertex,
            uniform: self.uniform || other.uniform,
            storage: self.storage || other.storage,
            indirect: self.indirect || other.indirect,
            query_resolve: self.query_resolve || other.query_resolve,
        }
    }

    /// Whether every use that `other` allows is allowed here too.
    #[verifier::when_used_as_spec(spec_contains)]
    pub fn contains(self, other: BufferUsages) -> (held: bool)
        ensures
            held == self.spec_contains(other),
    {
        (self.map_read || !other.map_read) && (self.map_write || !other.map_write) && (
        self.copy_src || !other.copy_src) && (self.copy_dst || !other.copy_dst) && (self.index
            || !other.index) && (self.vertex || !other.vertex) && (self.uniform || !other.uniform)
            && (self.storage || !other.storage) && (self.indirect || !other.indirect) && (
        self.query_resolve || !other.query_resolve)
    }
}

/// What a buffer is to be.
#[derive(Clone, Copy, Debug, PartialEq, Eq)]
pub struct BufferDescriptor {
    pub label: Option<&'static str>,
    /// Size in bytes.
    pub size: u64,
    pub usage: BufferUsages,
    pub mapped_at_creation: bool,
}

/// A buffer that was created: its place in the device's record, and the size
/// and usage it was created with.
#[derive(Clone, Copy, Debug, PartialEq, Eq, Structural)]
pub struct Buffer {
    pub index: usize,
    pub size: u64,
    pub usage: BufferUsages,
}

impl Buffer {
    /// Size in bytes, as given at creation.
    pub fn size(&self) -> (size: u64)
        ensures
            size == self.size,
    {
        self.size
    }

    /// The uses allowed at creation.
    pub fn usage(&self) -> (usage: BufferUsages)
        ensures
            usage == self.usage,
    {
        self.usage
    }

    /// The binding that exposes the whole buffer.
    pub fn as_entire_binding(&self) -> (resource: BindingResource)
        ensures
            resource == (BindingResource::Buffer { buffer: *self, offset: 0, size: None }),
    {
        BindingResource::Buffer { buffer: *self, offset: 0, size: None }
    }
}

/// The text of a shader, by the language it is written in.
#[derive(Clone, Copy, Debug, PartialEq, Eq)]
pub enum ShaderSource {
    Wgsl(&'static str),
}

/// What a shader module is to be.
#[derive(Clone, Copy, Debug, PartialEq, Eq)]
pub struct ShaderModuleDescriptor {
    pub label: Option<&'static str>,
    pub source: ShaderSource,
}

/// A shader module that was created.
#[derive(Clone, Copy, Debug, PartialEq, Eq, Structural)]
pub struct ShaderModule {
    pub index: usize,
}

/// The shader stages that can see a binding.
#[derive(Clone, Copy, Debug, PartialEq, Eq, Structural)]
pub struct ShaderStages {
    pub vertex: bool,
    pub fragment: bool,
    pub compute: bool,
}

impl ShaderStages {
    pub open spec fn spec_compute() -> ShaderStages {
        ShaderStages { vertex: false, fragment: false, compute: true }
    }

    /// The compute stage alone.
    #[verifier::when_used_as_spec(spec_compute)]
    pub fn compute() -> (stages: ShaderStages)
        ensures
            stages == ShaderStages::spec_compute(),
    {
        ShaderStages { vertex: false, fragment: false, compute: true }
    }
}

/// How a shader reaches a bound buffer.
#[derive(Clone, Copy, Debug, PartialEq, Eq, Structural)]
pub enum BufferBindingType {
    Uniform,
    Storage { read_only: bool },
}

/// What kind of resource a binding slot takes.
#[derive(Clone, Copy, Debug, PartialEq, Eq, Structural)]
pub enum BindingType {
    Buffer {
        ty: BufferBindingType,
        has_dynamic_offset: bool,
        /// The least size a bound buffer must have, if any is demanded.
        min_binding_size: Option<u64>,
    },
}

/// One slot of a bind-group layout.
#[derive(Clone, Copy, Debug, PartialEq, Eq, Structural)]
pub struct BindGroupLayoutEntry {
    pub binding: u32,
    pub visibility: ShaderStages,
    pub ty: BindingType,
    /// The length of the binding array, where the slot is one.
    pub count: Option<u32>,
}

/// What a bind-group layout is to be.
#[derive(Clone, Debug, PartialEq, Eq)]
pub struct BindGroupLayoutDescriptor {
    pub label: Option<&'static str>,
    pub entries: Vec<BindGroupLayoutEntry>,
}

/// A bind-group layout descriptor as a mathematical value.
pub struct BindGroupLayoutDescriptorView {
    pub label: Option<&'static str>,
    pub entries: Seq<BindGroupLayoutEntry>,
}

impl View for BindGroupLayoutDescriptor {
    type V = BindGroupLayoutDescriptorView;

    open spec fn view(&self) -> BindGroupLayoutDescriptorView {
        BindGroupLayoutDescriptorView { label: self.label, entries: self.entries@ }
    }
}

/// A bind-group layout that was created.
#[derive(Clone, Copy, Debug, PartialEq, Eq, Structural)]
pub struct BindGroupLayout {
    pub index: usize,
}

/// A range of push-constant memory and the stages that see it.
#[derive(Clone, Copy, Debug, PartialEq, Eq, Structural)]
pub struct PushConstantRange {
    pub stages: ShaderStages,
    pub start: u32,
    pub end: u32,
}

/// What a pipeline layout is to be.
#[derive(Clone, Debug, PartialEq, Eq)]
pub struct PipelineLayoutDescriptor {
    pub label: Option<&'static str>,
    pub bind_group_layouts: Vec<BindGroupLayout>,
    pub push_constant_ranges: Vec<PushConstantRange>,
}

/// A pipeline layout descriptor as a mathematical value.
pub struct PipelineLayoutDescriptorView {
    pub label: Option<&'static str>,
    pub bind_group_layouts: Seq<BindGroupLayout>,
    pub push_constant_ranges: Seq<PushConstantRange>,
}

impl View for PipelineLayoutDescriptor {
    type V = PipelineLayoutDescriptorView;

    open spec fn view(&self) -> PipelineLayoutDescriptorView {
        PipelineLayoutDescriptorView {
            label: self.label,
            bind_group_layouts: self.bind_group_layouts@,
            push_constant_ranges: self.push_constant_ranges@,
        }
    }
}

/// A pipeline layout that was created.
#[derive(Clone, Copy, Debug, PartialEq, Eq, Structural)]
pub struct PipelineLayout {
    pub index: usize,
}

/// How a pipeline's shader is compiled.
#[derive(Clone, Copy, Debug, PartialEq, Eq, Structural)]
pub struct PipelineCompilationOptions {
    /// Whether workgroup memory starts out zeroed.
    pub zero_initialize_workgroup_memory: bool,
}

impl PipelineCompilationOptions {
    pub open spec fn spec_default() -> PipelineCompilationOptions {
        PipelineCompilationOptions { zero_initialize_workgroup_memory: true }
    }
}

impl Default for PipelineCompilationOptions {
    fn default() -> (options: PipelineCompilationOptions)
        ensures
            options == PipelineCompilationOptions::spec_default(),
    {
        PipelineCompilationOptions { zero_initialize_workgroup_memory: true }
    }
}

/// A cache of compiled pipelines.
#[derive(Clone, Copy, Debug, PartialEq, Eq, Structural)]
pub struct PipelineCache {
    pub index: usize,
}

/// What a compute pipeline is to be.
#[derive(Clone, Copy, Debug, PartialEq, Eq)]
pub struct ComputePipelineDescriptor {
    pub label: Option<&'static str>,
    /// The layout to build against; without one it is derived from the shader.
    pub layout: Option<PipelineLayout>,
    pub module: ShaderModule,
    /// The entry point to run; without one the shader's only compute entry
    /// point is taken.
    pub entry_point: Option<&'static str>,
    pub compilation_options: PipelineCompilationOptions,
    pub cache: Option<PipelineCache>,
}

/// A compute pipeline that was created.
#[derive(Clone, Copy, Debug, PartialEq, Eq, Structural)]
pub struct ComputePipeline {
    pub index: usize,
}

/// What is bound to a slot.
#[derive(Clone, Copy, Debug, PartialEq, Eq, Structural)]
pub enum BindingResource {
    Buffer {
        buffer: Buffer,
        offset: u64,
        /// The length of the bound range; without one it runs to the buffer's end.
        size: Option<u64>,
    },
}

/// One slot of a bind group, filled.
#[derive(Clone, Copy, Debug, PartialEq, Eq, Structural)]
pub struct BindGroupEntry {
    pub binding: u32,
    pub resource: BindingResource,
}

/// What a bind group is to be.
#[derive(Clone, Debug, PartialEq, Eq)]
pub struct BindGroupDescriptor {
    pub label: Option<&'static str>,
    pub layout: BindGroupLayout,
    pub entries: Vec<BindGroupEntry>,
}

/// A bind group descriptor as a mathematical value.
pub struct BindGroupDescriptorView {
    pub label: Option<&'static str>,
    pub layout: BindGroupLayout,
    pub entries: Seq<BindGroupEntry>,
}

impl View for BindGroupDescriptor {
    type V = BindGroupDescriptorView;

    open spec fn view(&self) -> BindGroupDescriptorView {
        BindGroupDescriptorView { label: self.label, layout: self.layout, entries: self.entries@ }
    }
}

/// A bind group that was created.
#[derive(Clone, Copy, Debug, PartialEq, Eq, Structural)]
pub struct BindGroup {
    pub index: usize,
}

/// One creation on a device, by the kind of object created.
#[derive(Clone, Debug, PartialEq, Eq)]
pub enum Resource {
    Buffer(BufferDescriptor),
    ShaderModule(ShaderModuleDescriptor),
    BindGroupLayout(BindGroupLayoutDescriptor),
    PipelineLayout(PipelineLayoutDescriptor),
    ComputePipeline(ComputePipelineDescriptor),
    BindGroup(BindGroupDescriptor),
}

/// A creation as a mathematical value.
pub enum ResourceView {
    Buffer(BufferDescriptor),
    ShaderModule(ShaderModuleDescriptor),
    BindGroupLayout(BindGroupLayoutDescriptorView),
    PipelineLayout(PipelineLayoutDescriptorView),
    ComputePipeline(ComputePipelineDescriptor),
    BindGroup(BindGroupDescriptorView),
}

impl View for Resource {
    type V = ResourceView;

    open spec fn view(&self) -> ResourceView {
        match self {
            Resource::Buffer(desc) => ResourceView::Buffer(*desc),
            Resource::ShaderModule(desc) => ResourceView::ShaderModule(*desc),
            Resource::BindGroupLayout(desc) => ResourceView::BindGroupLayout(desc@),
            Resource::PipelineLayout(desc) => ResourceView::PipelineLayout(desc@),
            Resource::ComputePipeline(desc) => ResourceView::ComputePipeline(*desc),
            Resource::BindGroup(desc) => ResourceView::BindGroup(desc@),
        }
    }
}

/// The creations of `resources` as mathematical values, in the same order.
pub open spec fn resource_views(resources: Seq<Resource>) -> Seq<ResourceView> {
    resources.map_values(|resource: Resource| resource@)
}

} // verus!
