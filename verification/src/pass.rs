//! Passes and render bundles: what is recorded while an encoder is held.
//!
//! A pass is opened on a [`CommandEncoder`] and borrows it, so that nothing
//! else can reach the encoder while the pass is open. Ending the pass gives
//! the borrow back. Its recording calls check nothing across calls: each
//! hands back the command as it was given. Ending a pass is safe to do more
//! than once: only the first end reaches the encoder.

use vstd::prelude::*;
use core::ops::Range;
use crate::address::BufferAddress;
use crate::buffer::BufferSlice;
use crate::command::{
    CommandEncoder, ComputeCommand, DynamicOffset, EncoderState, PassKind, RecordError,
    RenderBundleDescriptor, RenderCommand, ShaderStage,
};
use crate::resource::RenderBundle;

verus! {

/// A render pass in the making. It borrows its encoder until it is ended;
/// from then on the encoder takes commands again.
#[derive(Debug)]
pub struct RenderPass<'e> {
    parent: Option<&'e mut CommandEncoder>,
}

/// A compute pass in the making. It borrows its encoder until it is ended;
/// from then on the encoder takes commands again.
#[derive(Debug)]
pub struct ComputePass<'e> {
    parent: Option<&'e mut CommandEncoder>,
}

/// Records render commands that can be run in many render passes.
#[derive(Debug)]
pub struct RenderBundleEncoder {
    finished: bool,
}

/// How many of `calls` ends of a pass, one after the other, reach the
/// backend, for a pass that is open or not: the end of an open pass does,
/// and after an end the pass is not open.
pub open spec fn ends_forwarded(open: bool, calls: nat) -> nat
    decreases calls,
{
    if calls == 0 {
        0
    } else if open {
        1 + ends_forwarded(false, (calls - 1) as nat)
    } else {
        ends_forwarded(false, (calls - 1) as nat)
    }
}

/// However often an open pass is ended, at least once, exactly one end
/// reaches the backend; of a pass that has ended, none.
pub proof fn lemma_end_is_forwarded_once(calls: nat)
    ensures
        ends_forwarded(false, calls) == 0,
        calls >= 1 ==> ends_forwarded(true, calls) == 1,
    decreases calls,
{
    if calls > 0 {
        lemma_end_is_forwarded_once((calls - 1) as nat);
    }
}

impl<'e> RenderPass<'e> {
    /// The encoder that an open pass borrows has this pass open.
    #[verifier::type_invariant]
    spec fn holds_its_encoder(&self) -> bool {
        self.parent matches Some(encoder) ==> encoder@ == EncoderState::PassOpen(
            PassKind::Render,
        )
    }

    /// Whether the pass is still open.
    pub closed spec fn is_open(&self) -> bool {
        self.parent is Some
    }

    /// The encoder that the pass borrows while it is open.
    pub closed spec fn parent(self) -> &'e mut CommandEncoder
        recommends
            self.is_open(),
    {
        self.parent.unwrap()
    }

    /// The pass that `parent` has just opened.
    pub(crate) fn open(parent: &'e mut CommandEncoder) -> (pass: RenderPass<'e>)
        requires
            old(parent)@ == EncoderState::PassOpen(PassKind::Render),
        ensures
            pass.is_open(),
            *pass.parent() == *old(parent),
            *final(parent) == *final(pass.parent()),
    {
        RenderPass { parent: Some(parent) }
    }

    /// The encoder that the pass borrows, to look at; none once the pass has
    /// ended.
    pub fn encoder(&self) -> (encoder: Option<&CommandEncoder>)
        ensures
            encoder is Some <==> self.is_open(),
            encoder matches Some(e) ==> *e == *self.parent() && e@ == EncoderState::PassOpen(
                PassKind::Render,
            ),
    {
        proof {
            use_type_invariant(self);
        }
        match &self.parent {
            Some(encoder) => Some(&**encoder),
            None => None,
        }
    }

    /// Tells whether the pass takes commands, and if not, why.
    pub fn check_record(&self) -> (verdict: Result<(), RecordError>)
        ensures
            verdict is Ok <==> self.is_open(),
            verdict matches Err(e) ==> e == RecordError::PassEnded,
    {
        if self.parent.is_some() {
            Ok(())
        } else {
            Err(RecordError::PassEnded)
        }
    }

    /// Ends the pass and tells whether its end is to reach the backend. It
    /// is, the first time: the pass gives its encoder back, and the encoder
    /// takes commands again. Any later call changes nothing.
    pub fn end(&mut self) -> (forward: bool)
        ensures
            forward == old(self).is_open(),
            !final(self).is_open(),
            old(self).is_open() ==> final(old(self).parent())@ == EncoderState::Encoding,
    {
        self.release(false)
    }

    /// Lets the pass go, as when it leaves its scope, and tells whether its
    /// end is to reach the backend. It is for an open pass, unless the thread
    /// is unwinding from a failure: then nothing more is asked of the
    /// backend, and the encoder, given back, stays held by the pass that the
    /// backend was never told the end of.
    pub fn release(&mut self, unwinding: bool) -> (forward: bool)
        ensures
            forward == (old(self).is_open() && !unwinding),
            !final(self).is_open(),
            old(self).is_open() ==> final(old(self).parent())@ == (if unwinding {
                EncoderState::PassOpen(PassKind::Render)
            } else {
                EncoderState::Encoding
            }),
    {
        proof {
            use_type_invariant(&*self);
        }
        let mut parent: Option<&'e mut CommandEncoder> = None;
        core::mem::swap(&mut self.parent, &mut parent);
        match parent {
            Some(encoder) => {
                if unwinding {
                    false
                } else {
                    encoder.end_pass(PassKind::Render);
                    true
                }
            },
            None => false,
        }
    }

    /// Binds `bind_group` at `index`, with one offset for each of its bindings
    /// that takes one, in the order of their declaration.
    pub fn set_bind_group<'a, H>(
        &mut self,
        index: u32,
        bind_group: H,
        offsets: &'a [DynamicOffset],
    ) -> (command: RenderCommand<'a, H>)
        requires
            old(self).is_open(),
        ensures
            *final(self) == *old(self),
            command === (RenderCommand::SetBindGroup { index, bind_group, offsets }),
    {
        RenderCommand::SetBindGroup { index, bind_group, offsets }
    }

    /// Makes `pipeline` the pipeline of the draws that follow.
    pub fn set_pipeline<'a, H>(&mut self, pipeline: H) -> (command: RenderCommand<'a, H>)
        requires
            old(self).is_open(),
        ensures
            *final(self) == *old(self),
            command === RenderCommand::SetPipeline(pipeline),
    {
        RenderCommand::SetPipeline(pipeline)
    }

    /// Makes the part `slice` of `buffer` the source of indices for the indexed
    /// draws that follow.
    pub fn set_index_buffer<'a, H>(
        &mut self,
        buffer: H,
        slice: BufferSlice,
    ) -> (command: RenderCommand<'a, H>)
        requires
            old(self).is_open(),
        ensures
            *final(self) == *old(self),
            command === (RenderCommand::SetIndexBuffer {
                buffer,
                offset: slice.offset,
                size: slice.size,
            }),
    {
        RenderCommand::SetIndexBuffer {
            buffer,
            offset: slice.offset,
            size: slice.size,
        }
    }

    /// Makes the part `slice` of `buffer` the source of vertices in `slot` for
    /// the draws that follow.
    pub fn set_vertex_buffer<'a, H>(
        &mut self,
        slot: u32,
        buffer: H,
        slice: BufferSlice,
    ) -> (command: RenderCommand<'a, H>)
        requires
            old(self).is_open(),
        ensures
            *final(self) == *old(self),
            command === (RenderCommand::SetVertexBuffer {
                slot,
                buffer,
                offset: slice.offset,
                size: slice.size,
            }),
    {
        RenderCommand::SetVertexBuffer {
            slot,
            buffer,
            offset: slice.offset,
            size: slice.size,
        }
    }

    /// Draws the vertices `vertices` of the vertex buffers, once for each of
    /// `instances`.
    pub fn draw<'a, H>(
        &mut self,
        vertices: Range<u32>,
        instances: Range<u32>,
    ) -> (command: RenderCommand<'a, H>)
        requires
            old(self).is_open(),
        ensures
            *final(self) == *old(self),
            command === (RenderCommand::Draw { vertices, instances }),
    {
        RenderCommand::Draw { vertices, instances }
    }

    /// Draws the vertices that the indices `indices` name, each moved by
    /// `base_vertex`, once for each of `instances`.
    pub fn draw_indexed<'a, H>(
        &mut self,
        indices: Range<u32>,
        base_vertex: i32,
        instances: Range<u32>,
    ) -> (command: RenderCommand<'a, H>)
        requires
            old(self).is_open(),
        ensures
            *final(self) == *old(self),
            command === (RenderCommand::DrawIndexed { indices, base_vertex, instances }),
    {
        RenderCommand::DrawIndexed { indices, base_vertex, instances }
    }

    /// Draws what the arguments at `indirect_offset` in `indirect_buffer` say.
    pub fn draw_indirect<'a, H>(
        &mut self,
        indirect_buffer: H,
        indirect_offset: BufferAddress,
    ) -> (command: RenderCommand<'a, H>)
        requires
            old(self).is_open(),
        ensures
            *final(self) == *old(self),
            command === (RenderCommand::DrawIndirect { indirect_buffer, indirect_offset }),
    {
        RenderCommand::DrawIndirect { indirect_buffer, indirect_offset }
    }

    /// Draws, indexed, what the arguments at `indirect_offset` in
    /// `indirect_buffer` say.
    pub fn draw_indexed_indirect<'a, H>(
        &mut self,
        indirect_buffer: H,
        indirect_offset: BufferAddress,
    ) -> (command: RenderCommand<'a, H>)
        requires
            old(self).is_open(),
        ensures
            *final(self) == *old(self),
            command === (RenderCommand::DrawIndexedIndirect { indirect_buffer, indirect_offset }),
    {
        RenderCommand::DrawIndexedIndirect { indirect_buffer, indirect_offset }
    }

    /// Writes `data` into the push constants from the byte `offset` on, for the
    /// stages `stages`. Every byte written must be declared for exactly these
    /// stages: where declared ranges overlap with different stages, each part
    /// takes a call of its own.
    pub fn set_push_constants<'a, H>(
        &mut self,
        stages: ShaderStage,
        offset: u32,
        data: &'a [u32],
    ) -> (command: RenderCommand<'a, H>)
        requires
            old(self).is_open(),
        ensures
            *final(self) == *old(self),
            command === (RenderCommand::SetPushConstants { stages, offset, data }),
    {
        RenderCommand::SetPushConstants { stages, offset, data }
    }

    /// Sets the colour that blending refers to. Each part is the bits of a
    /// number of double width.
    pub fn set_blend_color<'a, H>(
        &mut self,
        r: u64,
        g: u64,
        b: u64,
        a: u64,
    ) -> (command: RenderCommand<'a, H>)
        requires
            old(self).is_open(),
        ensures
            *final(self) == *old(self),
            command === (RenderCommand::SetBlendColor { r, g, b, a }),
    {
        RenderCommand::SetBlendColor { r, g, b, a }
    }

    /// Sets the region outside of which fragments are dropped.
    pub fn set_scissor_rect<'a, H>(
        &mut self,
        x: u32,
        y: u32,
        width: u32,
        height: u32,
    ) -> (command: RenderCommand<'a, H>)
        requires
            old(self).is_open(),
        ensures
            *final(self) == *old(self),
            command === (RenderCommand::SetScissorRect { x, y, width, height }),
    {
        RenderCommand::SetScissorRect { x, y, width, height }
    }

    /// Sets the region that is drawn to. Each argument is the bits of a number
    /// of single width.
    pub fn set_viewport<'a, H>(
        &mut self,
        x: u32,
        y: u32,
        width: u32,
        height: u32,
        min_depth: u32,
        max_depth: u32,
    ) -> (command: RenderCommand<'a, H>)
        requires
            old(self).is_open(),
        ensures
            *final(self) == *old(self),
            command === (RenderCommand::SetViewport { x, y, width, height, min_depth, max_depth }),
    {
        RenderCommand::SetViewport { x, y, width, height, min_depth, max_depth }
    }

    /// Sets the value that stencil tests compare with.
    pub fn set_stencil_reference<'a, H>(
        &mut self,
        reference: u32,
    ) -> (command: RenderCommand<'a, H>)
        requires
            old(self).is_open(),
        ensures
            *final(self) == *old(self),
            command === RenderCommand::SetStencilReference(reference),
    {
        RenderCommand::SetStencilReference(reference)
    }

    /// Records a debug marker.
    pub fn insert_debug_marker<'a, H>(&mut self, label: &'a str) -> (command: RenderCommand<'a, H>)
        requires
            old(self).is_open(),
        ensures
            *final(self) == *old(self),
            command === RenderCommand::InsertDebugMarker(label),
    {
        RenderCommand::InsertDebugMarker(label)
    }

    /// Records the start of a debug group.
    pub fn push_debug_group<'a, H>(&mut self, label: &'a str) -> (command: RenderCommand<'a, H>)
        requires
            old(self).is_open(),
        ensures
            *final(self) == *old(self),
            command === RenderCommand::PushDebugGroup(label),
    {
        RenderCommand::PushDebugGroup(label)
    }

    /// Records the end of a debug group.
    pub fn pop_debug_group<'a, H>(&mut self) -> (command: RenderCommand<'a, H>)
        requires
            old(self).is_open(),
        ensures
            *final(self) == *old(self),
            command === RenderCommand::PopDebugGroup,
    {
        RenderCommand::PopDebugGroup
    }

    /// Runs the bundles `render_bundles`, in order.
    pub fn execute_bundles<'a, H>(
        &mut self,
        render_bundles: &'a [H],
    ) -> (command: RenderCommand<'a, H>)
        requires
            old(self).is_open(),
        ensures
            *final(self) == *old(self),
            command === RenderCommand::ExecuteBundles(render_bundles),
    {
        RenderCommand::ExecuteBundles(render_bundles)
    }

    /// Draws `count` times, each time what the next arguments from
    /// `indirect_offset` on in `indirect_buffer` say.
    pub fn multi_draw_indirect<'a, H>(
        &mut self,
        indirect_buffer: H,
        indirect_offset: BufferAddress,
        count: u32,
    ) -> (command: RenderCommand<'a, H>)
        requires
            old(self).is_open(),
        ensures
            *final(self) == *old(self),
            command === (RenderCommand::MultiDrawIndirect {
                indirect_buffer,
                indirect_offset,
                count,
            }),
    {
        RenderCommand::MultiDrawIndirect {
            indirect_buffer,
            indirect_offset,
            count,
        }
    }

    /// Draws `count` times, indexed, each time what the next arguments from
    /// `indirect_offset` on in `indirect_buffer` say.
    pub fn multi_draw_indexed_indirect<'a, H>(
        &mut self,
        indirect_buffer: H,
        indirect_offset: BufferAddress,
        count: u32,
    ) -> (command: RenderCommand<'a, H>)
        requires
            old(self).is_open(),
        ensures
            *final(self) == *old(self),
            command === (RenderCommand::MultiDrawIndexedIndirect {
                indirect_buffer,
                indirect_offset,
                count,
            }),
    {
        RenderCommand::MultiDrawIndexedIndirect {
            indirect_buffer,
            indirect_offset,
            count,
        }
    }

    /// Draws as often as the number at `count_offset` in `count_buffer` says,
    /// at most `max_count` times, each time what the next arguments from
    /// `indirect_offset` on in `indirect_buffer` say.
    pub fn multi_draw_indirect_count<'a, H>(
        &mut self,
        indirect_buffer: H,
        indirect_offset: BufferAddress,
        count_buffer: H,
        count_offset: BufferAddress,
        max_count: u32,
    ) -> (command: RenderCommand<'a, H>)
        requires
            old(self).is_open(),
        ensures
            *final(self) == *old(self),
            command === (RenderCommand::MultiDrawIndirectCount {
                indirect_buffer,
                indirect_offset,
                count_buffer,
                count_offset,
                max_count,
            }),
    {
        RenderCommand::MultiDrawIndirectCount {
            indirect_buffer,
            indirect_offset,
            count_buffer,
            count_offset,
            max_count,
        }
    }

    /// Draws, indexed, as often as the number at `count_offset` in
    /// `count_buffer` says, at most `max_count` times, each time what the next
    /// arguments from `indirect_offset` on in `indirect_buffer` say.
    pub fn multi_draw_indexed_indirect_count<'a, H>(
        &mut self,
        indirect_buffer: H,
        indirect_offset: BufferAddress,
        count_buffer: H,
        count_offset: BufferAddress,
        max_count: u32,
    ) -> (command: RenderCommand<'a, H>)
        requires
            old(self).is_open(),
        ensures
            *final(self) == *old(self),
            command === (RenderCommand::MultiDrawIndexedIndirectCount {
                indirect_buffer,
                indirect_offset,
                count_buffer,
                count_offset,
                max_count,
            }),
    {
        RenderCommand::MultiDrawIndexedIndirectCount {
            indirect_buffer,
            indirect_offset,
            count_buffer,
            count_offset,
            max_count,
        }
    }
}

impl<'e> ComputePass<'e> {
    /// The encoder that an open pass borrows has this pass open.
    #[verifier::type_invariant]
    spec fn holds_its_encoder(&self) -> bool {
        self.parent matches Some(encoder) ==> encoder@ == EncoderState::PassOpen(
            PassKind::Compute,
        )
    }

    /// Whether the pass is still open.
    pub closed spec fn is_open(&self) -> bool {
        self.parent is Some
    }

    /// The encoder that the pass borrows while it is open.
    pub closed spec fn parent(self) -> &'e mut CommandEncoder
        recommends
            self.is_open(),
    {
        self.parent.unwrap()
    }

    /// The pass that `parent` has just opened.
    pub(crate) fn open(parent: &'e mut CommandEncoder) -> (pass: ComputePass<'e>)
        requires
            old(parent)@ == EncoderState::PassOpen(PassKind::Compute),
        ensures
            pass.is_open(),
            *pass.parent() == *old(parent),
            *final(parent) == *final(pass.parent()),
    {
        ComputePass { parent: Some(parent) }
    }

    /// The encoder that the pass borrows, to look at; none once the pass has
    /// ended.
    pub fn encoder(&self) -> (encoder: Option<&CommandEncoder>)
        ensures
            encoder is Some <==> self.is_open(),
            encoder matches Some(e) ==> *e == *self.parent() && e@ == EncoderState::PassOpen(
                PassKind::Compute,
            ),
    {
        proof {
            use_type_invariant(self);
        }
        match &self.parent {
            Some(encoder) => Some(&**encoder),
            None => None,
        }
    }

    /// Tells whether the pass takes commands, and if not, why.
    pub fn check_record(&self) -> (verdict: Result<(), RecordError>)
        ensures
            verdict is Ok <==> self.is_open(),
            verdict matches Err(e) ==> e == RecordError::PassEnded,
    {
        if self.parent.is_some() {
            Ok(())
        } else {
            Err(RecordError::PassEnded)
        }
    }

    /// Ends the pass and tells whether its end is to reach the backend. It
    /// is, the first time: the pass gives its encoder back, and the encoder
    /// takes commands again. Any later call changes nothing.
    pub fn end(&mut self) -> (forward: bool)
        ensures
            forward == old(self).is_open(),
            !final(self).is_open(),
            old(self).is_open() ==> final(old(self).parent())@ == EncoderState::Encoding,
    {
        self.release(false)
    }

    /// Lets the pass go, as when it leaves its scope, and tells whether its
    /// end is to reach the backend. It is for an open pass, unless the thread
    /// is unwinding from a failure: then nothing more is asked of the
    /// backend, and the encoder, given back, stays held by the pass that the
    /// backend was never told the end of.
    pub fn release(&mut self, unwinding: bool) -> (forward: bool)
        ensures
            forward == (old(self).is_open() && !unwinding),
            !final(self).is_open(),
            old(self).is_open() ==> final(old(self).parent())@ == (if unwinding {
                EncoderState::PassOpen(PassKind::Compute)
            } else {
                EncoderState::Encoding
            }),
    {
        proof {
            use_type_invariant(&*self);
        }
        let mut parent: Option<&'e mut CommandEncoder> = None;
        core::mem::swap(&mut self.parent, &mut parent);
        match parent {
            Some(encoder) => {
                if unwinding {
                    false
                } else {
                    encoder.end_pass(PassKind::Compute);
                    true
                }
            },
            None => false,
        }
    }

    /// Binds `bind_group` at `index`, with one offset for each of its bindings
    /// that takes one, in the order of their declaration.
    pub fn set_bind_group<'a, H>(
        &mut self,
        index: u32,
        bind_group: H,
        offsets: &'a [DynamicOffset],
    ) -> (command: ComputeCommand<'a, H>)
        requires
            old(self).is_open(),
        ensures
            *final(self) == *old(self),
            command === (ComputeCommand::SetBindGroup { index, bind_group, offsets }),
    {
        ComputeCommand::SetBindGroup { index, bind_group, offsets }
    }

    /// Makes `pipeline` the pipeline of the dispatches that follow.
    pub fn set_pipeline<'a, H>(&mut self, pipeline: H) -> (command: ComputeCommand<'a, H>)
        requires
            old(self).is_open(),
        ensures
            *final(self) == *old(self),
            command === ComputeCommand::SetPipeline(pipeline),
    {
        ComputeCommand::SetPipeline(pipeline)
    }

    /// Records a debug marker.
    pub fn insert_debug_marker<'a, H>(&mut self, label: &'a str) -> (command: ComputeCommand<'a, H>)
        requires
            old(self).is_open(),
        ensures
            *final(self) == *old(self),
            command === ComputeCommand::InsertDebugMarker(label),
    {
        ComputeCommand::InsertDebugMarker(label)
    }

    /// Records the start of a debug group.
    pub fn push_debug_group<'a, H>(&mut self, label: &'a str) -> (command: ComputeCommand<'a, H>)
        requires
            old(self).is_open(),
        ensures
            *final(self) == *old(self),
            command === ComputeCommand::PushDebugGroup(label),
    {
        ComputeCommand::PushDebugGroup(label)
    }

    /// Records the end of a debug group.
    pub fn pop_debug_group<'a, H>(&mut self) -> (command: ComputeCommand<'a, H>)
        requires
            old(self).is_open(),
        ensures
            *final(self) == *old(self),
            command === ComputeCommand::PopDebugGroup,
    {
        ComputeCommand::PopDebugGroup
    }

    /// Starts `x` by `y` by `z` work groups.
    pub fn dispatch<'a, H>(&mut self, x: u32, y: u32, z: u32) -> (command: ComputeCommand<'a, H>)
        requires
            old(self).is_open(),
        ensures
            *final(self) == *old(self),
            command === (ComputeCommand::Dispatch { x, y, z }),
    {
        ComputeCommand::Dispatch { x, y, z }
    }

    /// Starts as many work groups as the arguments at `indirect_offset` in
    /// `indirect_buffer` say.
    pub fn dispatch_indirect<'a, H>(
        &mut self,
        indirect_buffer: H,
        indirect_offset: BufferAddress,
    ) -> (command: ComputeCommand<'a, H>)
        requires
            old(self).is_open(),
        ensures
            *final(self) == *old(self),
            command === (ComputeCommand::DispatchIndirect { indirect_buffer, indirect_offset }),
    {
        ComputeCommand::DispatchIndirect { indirect_buffer, indirect_offset }
    }

    /// Writes `data` into the push constants from the byte `offset` on.
    pub fn set_push_constants<'a, H>(
        &mut self,
        offset: u32,
        data: &'a [u32],
    ) -> (command: ComputeCommand<'a, H>)
        requires
            old(self).is_open(),
        ensures
            *final(self) == *old(self),
            command === (ComputeCommand::SetPushConstants { offset, data }),
    {
        ComputeCommand::SetPushConstants { offset, data }
    }
}

impl RenderBundleEncoder {
    /// Whether the encoder still takes commands.
    pub closed spec fn is_open(&self) -> bool {
        !self.finished
    }

    /// A bundle encoder that has recorded nothing.
    pub fn new() -> (encoder: RenderBundleEncoder)
        ensures
            encoder.is_open(),
    {
        RenderBundleEncoder { finished: false }
    }

    /// Tells whether the encoder takes commands or a finish, and if not, why.
    pub fn check_record(&self) -> (verdict: Result<(), RecordError>)
        ensures
            verdict is Ok <==> self.is_open(),
            verdict matches Err(e) ==> e == RecordError::Finished,
    {
        if self.finished {
            Err(RecordError::Finished)
        } else {
            Ok(())
        }
    }

    /// Finishes the encoder: `handle` is the bundle that the backend made of
    /// it. The bundle belongs to no command encoder.
    pub fn finish<H>(&mut self, desc: &RenderBundleDescriptor, handle: H) -> (bundle: RenderBundle<H>)
        requires
            old(self).is_open(),
        ensures
            !final(self).is_open(),
            bundle@.handle == handle,
            bundle@.owned,
    {
        self.finished = true;
        RenderBundle::owned(handle)
    }

    /// Binds `bind_group` at `index`, with one offset for each of its bindings
    /// that takes one, in the order of their declaration.
    pub fn set_bind_group<'a, H>(
        &mut self,
        index: u32,
        bind_group: H,
        offsets: &'a [DynamicOffset],
    ) -> (command: RenderCommand<'a, H>)
        requires
            old(self).is_open(),
        ensures
            *final(self) == *old(self),
            command === (RenderCommand::SetBindGroup { index, bind_group, offsets }),
    {
        RenderCommand::SetBindGroup { index, bind_group, offsets }
    }

    /// Makes `pipeline` the pipeline of the draws that follow.
    pub fn set_pipeline<'a, H>(&mut self, pipeline: H) -> (command: RenderCommand<'a, H>)
        requires
            old(self).is_open(),
        ensures
            *final(self) == *old(self),
            command === RenderCommand::SetPipeline(pipeline),
    {
        RenderCommand::SetPipeline(pipeline)
    }

    /// Makes the part `slice` of `buffer` the source of indices for the indexed
    /// draws that follow.
    pub fn set_index_buffer<'a, H>(
        &mut self,
        buffer: H,
        slice: BufferSlice,
    ) -> (command: RenderCommand<'a, H>)
        requires
            old(self).is_open(),
        ensures
            *final(self) == *old(self),
            command === (RenderCommand::SetIndexBuffer {
                buffer,
                offset: slice.offset,
                size: slice.size,
            }),
    {
        RenderCommand::SetIndexBuffer {
            buffer,
            offset: slice.offset,
            size: slice.size,
        }
    }

    /// Makes the part `slice` of `buffer` the source of vertices in `slot` for
    /// the draws that follow.
    pub fn set_vertex_buffer<'a, H>(
        &mut self,
        slot: u32,
        buffer: H,
        slice: BufferSlice,
    ) -> (command: RenderCommand<'a, H>)
        requires
            old(self).is_open(),
        ensures
            *final(self) == *old(self),
            command === (RenderCommand::SetVertexBuffer {
                slot,
                buffer,
                offset: slice.offset,
                size: slice.size,
            }),
    {
        RenderCommand::SetVertexBuffer {
            slot,
            buffer,
            offset: slice.offset,
            size: slice.size,
        }
    }

    /// Draws the vertices `vertices` of the vertex buffers, once for each of
    /// `instances`.
    pub fn draw<'a, H>(
        &mut self,
        vertices: Range<u32>,
        instances: Range<u32>,
    ) -> (command: RenderCommand<'a, H>)
        requires
            old(self).is_open(),
        ensures
            *final(self) == *old(self),
            command === (RenderCommand::Draw { vertices, instances }),
    {
        RenderCommand::Draw { vertices, instances }
    }

    /// Draws the vertices that the indices `indices` name, each moved by
    /// `base_vertex`, once for each of `instances`.
    pub fn draw_indexed<'a, H>(
        &mut self,
        indices: Range<u32>,
        base_vertex: i32,
        instances: Range<u32>,
    ) -> (command: RenderCommand<'a, H>)
        requires
            old(self).is_open(),
        ensures
            *final(self) == *old(self),
            command === (RenderCommand::DrawIndexed { indices, base_vertex, instances }),
    {
        RenderCommand::DrawIndexed { indices, base_vertex, instances }
    }

    /// Draws what the arguments at `indirect_offset` in `indirect_buffer` say.
    pub fn draw_indirect<'a, H>(
        &mut self,
        indirect_buffer: H,
        indirect_offset: BufferAddress,
    ) -> (command: RenderCommand<'a, H>)
        requires
            old(self).is_open(),
        ensures
            *final(self) == *old(self),
            command === (RenderCommand::DrawIndirect { indirect_buffer, indirect_offset }),
    {
        RenderCommand::DrawIndirect { indirect_buffer, indirect_offset }
    }

    /// Draws, indexed, what the arguments at `indirect_offset` in
    /// `indirect_buffer` say.
    pub fn draw_indexed_indirect<'a, H>(
        &mut self,
        indirect_buffer: H,
        indirect_offset: BufferAddress,
    ) -> (command: RenderCommand<'a, H>)
        requires
            old(self).is_open(),
        ensures
            *final(self) == *old(self),
            command === (RenderCommand::DrawIndexedIndirect { indirect_buffer, indirect_offset }),
    {
        RenderCommand::DrawIndexedIndirect { indirect_buffer, indirect_offset }
    }

    /// Writes `data` into the push constants from the byte `offset` on, for the
    /// stages `stages`. Every byte written must be declared for exactly these
    /// stages: where declared ranges overlap with different stages, each part
    /// takes a call of its own.
    pub fn set_push_constants<'a, H>(
        &mut self,
        stages: ShaderStage,
        offset: u32,
        data: &'a [u32],
    ) -> (command: RenderCommand<'a, H>)
        requires
            old(self).is_open(),
        ensures
            *final(self) == *old(self),
            command === (RenderCommand::SetPushConstants { stages, offset, data }),
    {
        RenderCommand::SetPushConstants { stages, offset, data }
    }
}

} // verus!
