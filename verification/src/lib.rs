//! Bookkeeping and recording discipline of a backend-agnostic GPU API.
//!
//! The crate holds what such an API decides on the host before anything
//! reaches a backend: which parts of a mapped buffer may be viewed, in which
//! state a command encoder accepts which call, when a swap chain may hand out
//! a frame, and when a handle is given back. A backend is known here only by
//! the handles it gives out, which are carried and never looked into.

pub mod address;
pub mod buffer;
pub mod command;
pub mod descriptor;
pub mod device;
pub mod map_context;
pub mod pass;
pub mod push_constants;
pub mod resource;
pub mod swap_chain;

pub use address::{AddressRange, BufferAddress, BufferSize};
pub use buffer::{
    checked_range_to_offset_size, range_to_offset_size, BindingResource, Buffer, BufferAsyncError,
    BufferDescriptor, BufferSlice, BufferUsage, BufferView, BufferViewMut, MapMode, MapRequest, RangeBound,
};
pub use command::{
    BufferCopyView, Command, CommandBuffer, CommandEncoder, CommandEncoderDescriptor,
    ComputeCommand, DynamicOffset, EncoderEvent, EncoderState, Extent3d, Origin3d, PassKind,
    RecordError, RenderBundleDescriptor, RenderCommand, ShaderStage, TextureCopyView,
    TextureDataLayout,
};
pub use descriptor::{LoadOp, Maintain, Operations, ShaderModuleSource};
pub use device::{Adapter, Device, Instance, Queue, RequestDeviceError, Surface};
pub use map_context::{MapContext, MapError, MapState};
pub use pass::{ComputePass, RenderBundleEncoder, RenderPass};
pub use push_constants::{check_push_constants, PushConstantRange, StageMismatch};
pub use resource::{
    BindGroup, BindGroupLayout, ComputePipeline, PipelineLayout, RenderBundle, RenderPipeline,
    Resource, Sampler, ShaderModule, Texture, TextureView,
};
pub use swap_chain::{
    Present, PresentError, SwapChain, SwapChainError, SwapChainFrame, SwapChainStatus,
    SwapChainTexture,
};
