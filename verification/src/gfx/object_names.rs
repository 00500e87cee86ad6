use vstd::prelude::*;

verus! {

/// The kinds of driver objects that can be given a debug name.
#[derive(Clone, Copy, Debug, PartialEq, Eq, Structural)]
pub enum ObjectKind {
    Instance,
    PhysicalDevice,
    Device,
    Queue,
    Semaphore,
    CommandBuffer,
    Fence,
    DeviceMemory,
    Buffer,
    Image,
    Event,
    QueryPool,
    BufferView,
    ImageView,
    ShaderModule,
    PipelineCache,
    PipelineLayout,
    RenderPass,
    Pipeline,
    DescriptorSetLayout,
    Sampler,
    DescriptorPool,
    DescriptorSet,
    Framebuffer,
    CommandPool,
    SurfaceKhr,
    SwapchainKhr,
}

/// The driver's object type value of each kind of object.
pub open spec fn spec_object_type(kind: ObjectKind) -> i32 {
    match kind {
        ObjectKind::Instance => 1,
        ObjectKind::PhysicalDevice => 2,
        ObjectKind::Device => 3,
        ObjectKind::Queue => 4,
        ObjectKind::Semaphore => 5,
        ObjectKind::CommandBuffer => 6,
        ObjectKind::Fence => 7,
        ObjectKind::DeviceMemory => 8,
        ObjectKind::Buffer => 9,
        ObjectKind::Image => 10,
        ObjectKind::Event => 11,
        ObjectKind::QueryPool => 12,
        ObjectKind::BufferView => 13,
        ObjectKind::ImageView => 14,
        ObjectKind::ShaderModule => 15,
        ObjectKind::PipelineCache => 16,
        ObjectKind::PipelineLayout => 17,
        ObjectKind::RenderPass => 18,
        ObjectKind::Pipeline => 19,
        ObjectKind::DescriptorSetLayout => 20,
        ObjectKind::Sampler => 21,
        ObjectKind::DescriptorPool => 22,
        ObjectKind::DescriptorSet => 23,
        ObjectKind::Framebuffer => 24,
        ObjectKind::CommandPool => 25,
        ObjectKind::SurfaceKhr => 1000000000,
        ObjectKind::SwapchainKhr => 1000001000,
    }
}

/// The object type to name an object of kind `kind` with.
pub fn object_type_of(kind: ObjectKind) -> (r: i32)
    ensures
        r == spec_object_type(kind),
{
    match kind {
        ObjectKind::Instance => 1,
        ObjectKind::PhysicalDevice => 2,
        ObjectKind::Device => 3,
        ObjectKind::Queue => 4,
        ObjectKind::Semaphore => 5,
        ObjectKind::CommandBuffer => 6,
        ObjectKind::Fence => 7,
        ObjectKind::DeviceMemory => 8,
        ObjectKind::Buffer => 9,
        ObjectKind::Image => 10,
        ObjectKind::Event => 11,
        ObjectKind::QueryPool => 12,
        ObjectKind::BufferView => 13,
        ObjectKind::ImageView => 14,
        ObjectKind::ShaderModule => 15,
        ObjectKind::PipelineCache => 16,
        ObjectKind::PipelineLayout => 17,
        ObjectKind::RenderPass => 18,
        ObjectKind::Pipeline => 19,
        ObjectKind::DescriptorSetLayout => 20,
        ObjectKind::Sampler => 21,
        ObjectKind::DescriptorPool => 22,
        ObjectKind::DescriptorSet => 23,
        ObjectKind::Framebuffer => 24,
        ObjectKind::CommandPool => 25,
        ObjectKind::SurfaceKhr => 1000000000,
        ObjectKind::SwapchainKhr => 1000001000,
    }
}

} // verus!
