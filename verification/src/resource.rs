//! Handles of backend objects, and when they are given back.
//!
//! Every object that a backend makes is known to the host by a handle, which
//! the host never looks into. A resource owns its handle for as long as it
//! lives and gives it back exactly once, when it is released: releasing takes
//! the resource, so there is no second time. Two things keep a handle from
//! being dropped at release: the resource never owned the object, as with the
//! view of a swap chain's image, or the thread is unwinding from a failure,
//! when nothing more is asked of the backend.

use vstd::prelude::*;

verus! {

/// What a [`Resource`] stands for.
pub struct ResourceState<H> {
    pub handle: H,
    pub owned: bool,
}

impl<H> ResourceState<H> {
    /// The handle that the backend is to drop when the resource is released.
    pub open spec fn dropped_at_release(self, unwinding: bool) -> Option<H> {
        if self.owned && !unwinding {
            Some(self.handle)
        } else {
            None
        }
    }
}

/// A backend object, known by its handle.
#[derive(Debug)]
pub struct Resource<H> {
    handle: H,
    owned: bool,
}

impl<H> View for Resource<H> {
    type V = ResourceState<H>;

    closed spec fn view(&self) -> ResourceState<H> {
        ResourceState { handle: self.handle, owned: self.owned }
    }
}

/// A sampler.
pub type Sampler<H> = Resource<H>;

/// The layout of a bind group.
pub type BindGroupLayout<H> = Resource<H>;

/// A group of resources bound together.
pub type BindGroup<H> = Resource<H>;

/// A compiled shader module.
pub type ShaderModule<H> = Resource<H>;

/// The layout of a pipeline.
pub type PipelineLayout<H> = Resource<H>;

/// A finished render bundle.
pub type RenderBundle<H> = Resource<H>;

/// A view of a texture.
pub type TextureView<H> = Resource<H>;

impl<H> Resource<H> {
    /// The resource that owns the object behind `handle`.
    pub fn owned(handle: H) -> (resource: Resource<H>)
        ensures
            resource@.handle == handle,
            resource@.owned,
    {
        Resource { handle, owned: true }
    }

    /// A resource for an object that belongs to something else.
    pub fn borrowed(handle: H) -> (resource: Resource<H>)
        ensures
            resource@.handle == handle,
            !resource@.owned,
    {
        Resource { handle, owned: false }
    }

    /// The handle.
    pub fn handle(&self) -> (handle: &H)
        ensures
            *handle == self@.handle,
    {
        &self.handle
    }

    /// Whether the resource owns its object.
    pub fn is_owned(&self) -> (owned: bool)
        ensures
            owned == self@.owned,
    {
        self.owned
    }

    /// Takes the resource apart without asking anything of the backend.
    pub fn into_handle(self) -> (handle: H)
        ensures
            handle == self@.handle,
    {
        self.handle
    }

    /// Releases the resource and returns the handle for the backend to drop:
    /// none where the object is not owned or the thread is unwinding.
    pub fn release(self, unwinding: bool) -> (dropped: Option<H>)
        ensures
            dropped == self@.dropped_at_release(unwinding),
    {
        if self.owned && !unwinding {
            Some(self.handle)
        } else {
            None
        }
    }
}

/// A texture.
#[derive(Debug)]
pub struct Texture<H> {
    resource: Resource<H>,
}

impl<H> View for Texture<H> {
    type V = ResourceState<H>;

    closed spec fn view(&self) -> ResourceState<H> {
        self.resource@
    }
}

impl<H> Texture<H> {
    /// The texture that owns the object behind `handle`.
    pub fn new(handle: H) -> (texture: Texture<H>)
        ensures
            texture@.handle == handle,
            texture@.owned,
    {
        Texture { resource: Resource::owned(handle) }
    }

    /// The handle.
    pub fn handle(&self) -> (handle: &H)
        ensures
            *handle == self@.handle,
    {
        self.resource.handle()
    }

    /// The view that the backend made of this texture under `handle`. The
    /// view owns its object.
    pub fn create_view<V>(&self, handle: V) -> (view: TextureView<V>)
        ensures
            view@.handle == handle,
            view@.owned,
    {
        Resource::owned(handle)
    }

    /// Releases the texture and returns the handle for the backend to drop:
    /// none where the thread is unwinding.
    pub fn release(self, unwinding: bool) -> (dropped: Option<H>)
        ensures
            dropped == self@.dropped_at_release(unwinding),
    {
        self.resource.release(unwinding)
    }
}

/// A render pipeline.
#[derive(Debug)]
pub struct RenderPipeline<H> {
    resource: Resource<H>,
}

impl<H> View for RenderPipeline<H> {
    type V = ResourceState<H>;

    closed spec fn view(&self) -> ResourceState<H> {
        self.resource@
    }
}

impl<H> RenderPipeline<H> {
    /// The pipeline that owns the object behind `handle`.
    pub fn new(handle: H) -> (pipeline: RenderPipeline<H>)
        ensures
            pipeline@.handle == handle,
            pipeline@.owned,
    {
        RenderPipeline { resource: Resource::owned(handle) }
    }

    /// The handle.
    pub fn handle(&self) -> (handle: &H)
        ensures
            *handle == self@.handle,
    {
        self.resource.handle()
    }

    /// The layout of one of the pipeline's bind groups, which the backend
    /// gave under `handle`. The layout owns its object.
    pub fn get_bind_group_layout<L>(&self, handle: L) -> (layout: BindGroupLayout<L>)
        ensures
            layout@.handle == handle,
            layout@.owned,
    {
        Resource::owned(handle)
    }

    /// Releases the pipeline and returns the handle for the backend to drop:
    /// none where the thread is unwinding.
    pub fn release(self, unwinding: bool) -> (dropped: Option<H>)
        ensures
            dropped == self@.dropped_at_release(unwinding),
    {
        self.resource.release(unwinding)
    }
}

/// A compute pipeline.
#[derive(Debug)]
pub struct ComputePipeline<H> {
    resource: Resource<H>,
}

impl<H> View for ComputePipeline<H> {
    type V = ResourceState<H>;

    closed spec fn view(&self) -> ResourceState<H> {
        self.resource@
    }
}

impl<H> ComputePipeline<H> {
    /// The pipeline that owns the object behind `handle`.
    pub fn new(handle: H) -> (pipeline: ComputePipeline<H>)
        ensures
            pipeline@.handle == handle,
            pipeline@.owned,
    {
        ComputePipeline { resource: Resource::owned(handle) }
    }

    /// The handle.
    pub fn handle(&self) -> (handle: &H)
        ensures
            *handle == self@.handle,
    {
        self.resource.handle()
    }

    /// The layout of one of the pipeline's bind groups, which the backend
    /// gave under `handle`. The layout owns its object.
    pub fn get_bind_group_layout<L>(&self, handle: L) -> (layout: BindGroupLayout<L>)
        ensures
            layout@.handle == handle,
            layout@.owned,
    {
        Resource::owned(handle)
    }

    /// Releases the pipeline and returns the handle for the backend to drop:
    /// none where the thread is unwinding.
    pub fn release(self, unwinding: bool) -> (dropped: Option<H>)
        ensures
            dropped == self@.dropped_at_release(unwinding),
    {
        self.resource.release(unwinding)
    }
}

} // verus!
