//! Instances, adapters, devices and queues: where everything else comes from.
//!
//! The backend does the making. What it made reaches these functions as a
//! handle, and they give it the resource that looks after it.

use vstd::prelude::*;
use std::sync::Arc;
use crate::buffer::{Buffer, BufferDescriptor};
use crate::command::{CommandBuffer, CommandEncoder, CommandEncoderDescriptor};
use crate::pass::RenderBundleEncoder;
use crate::resource::{
    BindGroup, BindGroupLayout, ComputePipeline, PipelineLayout, RenderPipeline, Resource,
    ResourceState, Sampler, ShaderModule, Texture,
};
use crate::swap_chain::SwapChain;

verus! {

/// A surface to present to. Nothing is asked of the backend when it goes.
pub type Surface<H> = Resource<H>;

/// Requesting a device failed.
#[derive(Clone, Copy, Debug, PartialEq, Eq, Structural)]
pub struct RequestDeviceError;

impl RequestDeviceError {
    /// The failure in words.
    pub fn message(&self) -> (text: String)
        ensures
            text@ == "Requesting a device failed"@,
    {
        "Requesting a device failed".to_string()
    }
}

/// The items of `items`, last first.
fn reversed<T>(items: Vec<T>) -> (out: Vec<T>)
    ensures
        out@ == items@.reverse(),
{
    let ghost all = items@;
    let mut items = items;
    let mut out: Vec<T> = Vec::new();
    while items.len() > 0
        invariant
            items@.len() + out@.len() == all.len(),
            forall|k: int| 0 <= k < items@.len() ==> items@[k] == all[k],
            forall|k: int| 0 <= k < out@.len() ==> out@[k] == all[all.len() - 1 - k],
        decreases items.len(),
    {
        let item = items.pop().unwrap();
        out.push(item);
    }
    assert(out@ =~= all.reverse());
    out
}

/// Calls `Arc::clone`: the result is one more reference to the value that
/// `shared` refers to.
#[verifier::external_body]
fn share<C>(shared: &Arc<C>) -> (another: Arc<C>)
    ensures
        another == *shared,
{
    Arc::clone(shared)
}

/// The backend in use, shared by all that was made through it.
#[derive(Debug)]
pub struct Instance<C> {
    context: Arc<C>,
}

/// A physical device that the backend offers.
#[derive(Debug)]
pub struct Adapter<H> {
    handle: H,
}

/// An open connection to a device.
#[derive(Debug)]
pub struct Device<H> {
    handle: H,
}

/// The queue of a device, to which finished commands are submitted.
#[derive(Debug)]
pub struct Queue<H> {
    handle: H,
}

impl<H> View for Adapter<H> {
    type V = H;

    closed spec fn view(&self) -> H {
        self.handle
    }
}

impl<H> View for Device<H> {
    type V = H;

    closed spec fn view(&self) -> H {
        self.handle
    }
}

impl<H> View for Queue<H> {
    type V = H;

    closed spec fn view(&self) -> H {
        self.handle
    }
}

impl<C> Instance<C> {
    /// The backend that the instance shares.
    pub closed spec fn backend(&self) -> C {
        *self.context
    }

    /// The instance of the backend `context`.
    pub fn new(context: C) -> (instance: Instance<C>)
        ensures
            instance.backend() == context,
    {
        Instance { context: Arc::new(context) }
    }

    /// One more reference to the backend, for a resource to keep it alive.
    pub fn context(&self) -> (context: Arc<C>)
        ensures
            *context == self.backend(),
    {
        share(&self.context)
    }

    /// The adapters behind the handles `found`, in their order.
    pub fn enumerate_adapters<A>(&self, found: Vec<A>) -> (adapters: Vec<Adapter<A>>)
        ensures
            adapters@.len() == found@.len(),
            forall|i: int| 0 <= i < found@.len() ==> (#[trigger] adapters@[i])@ == found@[i],
    {
        let ghost all = found@;
        let mut pending = reversed(found);
        let mut adapters: Vec<Adapter<A>> = Vec::new();
        while pending.len() > 0
            invariant
                pending@.len() + adapters@.len() == all.len(),
                forall|k: int| 0 <= k < pending@.len() ==> pending@[k] == all[all.len() - 1 - k],
                forall|k: int| 0 <= k < adapters@.len() ==> (#[trigger] adapters@[k])@ == all[k],
            decreases pending.len(),
        {
            let handle = pending.pop().unwrap();
            adapters.push(Adapter { handle });
        }
        adapters
    }

    /// The adapter that the backend answered a request with, if it found
    /// one.
    pub fn request_adapter<A>(&self, found: Option<A>) -> (adapter: Option<Adapter<A>>)
        ensures
            found is None <==> adapter is None,
            adapter matches Some(a) ==> Some(a@) == found,
    {
        match found {
            Some(handle) => Some(Adapter { handle }),
            None => None,
        }
    }

    /// The surface that the backend made under `handle`.
    pub fn create_surface<S>(&self, handle: S) -> (surface: Surface<S>)
        ensures
            surface@ == (ResourceState { handle, owned: true }),
    {
        Resource::owned(handle)
    }
}

impl<H> Adapter<H> {
    /// The handle.
    pub fn handle(&self) -> (handle: &H)
        ensures
            *handle == self@,
    {
        &self.handle
    }

    /// The device and its queue that the backend answered a request with, or
    /// the failure it answered with.
    pub fn request_device<D, Q>(&self, answer: Result<(D, Q), RequestDeviceError>) -> (result:
        Result<(Device<D>, Queue<Q>), RequestDeviceError>)
        ensures
            answer is Ok <==> result is Ok,
            result matches Ok(pair) ==> answer == Ok::<(D, Q), RequestDeviceError>(
                (pair.0@, pair.1@),
            ),
            result matches Err(e) ==> answer == Err::<(D, Q), RequestDeviceError>(e),
    {
        match answer {
            Ok((device, queue)) => Ok((Device { handle: device }, Queue { handle: queue })),
            Err(e) => Err(e),
        }
    }
}

impl<H> Device<H> {
    /// The handle.
    pub fn handle(&self) -> (handle: &H)
        ensures
            *handle == self@,
    {
        &self.handle
    }

    /// Releases the device and returns the handle for the backend to drop:
    /// none where the thread is unwinding from a failure.
    pub fn release(self, unwinding: bool) -> (dropped: Option<H>)
        ensures
            dropped == (if unwinding {
                None
            } else {
                Some(self@)
            }),
    {
        if unwinding {
            None
        } else {
            Some(self.handle)
        }
    }

    /// The shader module that the backend made under `handle`.
    pub fn create_shader_module<S>(&self, handle: S) -> (module: ShaderModule<S>)
        ensures
            module@ == (ResourceState { handle, owned: true }),
    {
        Resource::owned(handle)
    }

    /// An encoder that has recorded nothing.
    pub fn create_command_encoder(&self, desc: &CommandEncoderDescriptor) -> (encoder:
        CommandEncoder)
        ensures
            encoder@ == crate::command::EncoderState::Encoding,
    {
        CommandEncoder::new(desc)
    }

    /// A bundle encoder that has recorded nothing.
    pub fn create_render_bundle_encoder(&self) -> (encoder: RenderBundleEncoder)
        ensures
            encoder.is_open(),
    {
        RenderBundleEncoder::new()
    }

    /// The bind group that the backend made under `handle`.
    pub fn create_bind_group<G>(&self, handle: G) -> (group: BindGroup<G>)
        ensures
            group@ == (ResourceState { handle, owned: true }),
    {
        Resource::owned(handle)
    }

    /// The bind group layout that the backend made under `handle`.
    pub fn create_bind_group_layout<L>(&self, handle: L) -> (layout: BindGroupLayout<L>)
        ensures
            layout@ == (ResourceState { handle, owned: true }),
    {
        Resource::owned(handle)
    }

    /// The pipeline layout that the backend made under `handle`.
    pub fn create_pipeline_layout<L>(&self, handle: L) -> (layout: PipelineLayout<L>)
        ensures
            layout@ == (ResourceState { handle, owned: true }),
    {
        Resource::owned(handle)
    }

    /// The render pipeline that the backend made under `handle`.
    pub fn create_render_pipeline<P>(&self, handle: P) -> (pipeline: RenderPipeline<P>)
        ensures
            pipeline@ == (ResourceState { handle, owned: true }),
    {
        RenderPipeline::new(handle)
    }

    /// The compute pipeline that the backend made under `handle`.
    pub fn create_compute_pipeline<P>(&self, handle: P) -> (pipeline: ComputePipeline<P>)
        ensures
            pipeline@ == (ResourceState { handle, owned: true }),
    {
        ComputePipeline::new(handle)
    }

    /// The buffer that the backend made for `desc` under `handle`: mapped as
    /// a whole if `desc` asks for it, else not mapped, and with no view open.
    pub fn create_buffer<B>(&self, desc: &BufferDescriptor, handle: B) -> (buffer: Buffer<B>)
        ensures
            buffer@.handle == handle,
            buffer@.usage == desc.usage,
            buffer@.map == crate::buffer::created_state(desc.size, desc.mapped_at_creation),
            buffer@.map.wf(),
    {
        Buffer::new(handle, desc)
    }

    /// The texture that the backend made under `handle`. It owns its object.
    pub fn create_texture<T>(&self, handle: T) -> (texture: Texture<T>)
        ensures
            texture@ == (ResourceState { handle, owned: true }),
    {
        Texture::new(handle)
    }

    /// The sampler that the backend made under `handle`.
    pub fn create_sampler<S>(&self, handle: S) -> (sampler: Sampler<S>)
        ensures
            sampler@ == (ResourceState { handle, owned: true }),
    {
        Resource::owned(handle)
    }

    /// The swap chain that the backend made on a surface under `handle`, in
    /// place of `current`, the chain that the surface held, if it held one.
    /// The new chain is idle. No frame of the chain that it replaces may be
    /// out.
    pub fn create_swap_chain<S>(&self, current: Option<SwapChain<S>>, handle: S) -> (chain:
        SwapChain<S>)
        requires
            current matches Some(replaced) ==> !replaced@.frame_acquired,
        ensures
            chain@.handle == handle,
            !chain@.frame_acquired,
    {
        SwapChain::new(handle)
    }
}

impl<H> Queue<H> {
    /// The handle.
    pub fn handle(&self) -> (handle: &H)
        ensures
            *handle == self@,
    {
        &self.handle
    }

    /// Takes the handles out of `command_buffers` for the backend to run, in
    /// their order. None of them may have been submitted before.
    pub fn submit<B>(&self, command_buffers: Vec<CommandBuffer<B>>) -> (handles: Vec<B>)
        requires
            forall|i: int|
                0 <= i < command_buffers@.len() ==> (#[trigger] command_buffers@[i])@ is Some,
        ensures
            handles@.len() == command_buffers@.len(),
            forall|i: int|
                0 <= i < command_buffers@.len() ==> Some(#[trigger] handles@[i])
                    == command_buffers@[i]@,
    {
        let ghost all = command_buffers@;
        let mut pending = reversed(command_buffers);
        let mut handles: Vec<B> = Vec::new();
        while pending.len() > 0
            invariant
                pending@.len() + handles@.len() == all.len(),
                forall|k: int| 0 <= k < pending@.len() ==> pending@[k] == all[all.len() - 1 - k],
                forall|k: int| 0 <= k < all.len() ==> (#[trigger] all[k])@ is Some,
                forall|k: int| 0 <= k < handles@.len() ==> Some(#[trigger] handles@[k]) == all[k]@,
            decreases pending.len(),
        {
            let mut buffer = pending.pop().unwrap();
            let handle = buffer.take().unwrap();
            handles.push(handle);
        }
        handles
    }
}

} // verus!
