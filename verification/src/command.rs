//! The recording discipline of command encoders, passes and bundles.
//!
//! A [`CommandEncoder`] is in one of three states: it takes commands, one of
//! its passes is open, or it is finished. While a pass is open the encoder
//! takes nothing but the end of that pass. Every recording call settles here
//! whether it is legal, and hands back the command that is to reach the
//! backend.

use vstd::prelude::*;
use core::ops::Range;
use crate::address::{BufferAddress, BufferSize};
use crate::pass::{ComputePass, RenderPass};

verus! {

/// Offset into a buffer that a bind group adds when it is bound.
pub type DynamicOffset = u32;

/// The two kinds of pass.
#[derive(Clone, Copy, Debug, PartialEq, Eq, Structural)]
pub enum PassKind {
    Render,
    Compute,
}

/// The state of a command encoder.
#[derive(Clone, Copy, Debug, PartialEq, Eq, Structural)]
pub enum EncoderState {
    /// Commands go straight into the encoder.
    Encoding,
    /// A pass of this kind is open and holds the encoder.
    PassOpen(PassKind),
    /// The encoder has been turned into a command buffer.
    Finished,
}

/// What can be asked of a command encoder.
#[derive(Clone, Copy, Debug, PartialEq, Eq, Structural)]
pub enum EncoderEvent {
    /// Record a command into the encoder itself.
    Record,
    /// Open a pass.
    Begin(PassKind),
    /// End the open pass.
    End(PassKind),
    /// Finish the encoder.
    Finish,
}

/// Why a recording call is refused.
#[derive(Clone, Copy, Debug, PartialEq, Eq, Structural)]
pub enum RecordError {
    /// A pass of this kind is open on the encoder.
    PassOpen(PassKind),
    /// The encoder or bundle encoder is finished.
    Finished,
    /// The pass has ended.
    PassEnded,
    /// The encoder does not have this pass open.
    NotTheOpenPass,
}

impl EncoderState {
    /// Whether the encoder takes `event` in this state.
    pub open spec fn accepts(self, event: EncoderEvent) -> bool {
        match self {
            EncoderState::Encoding => !(event is End),
            EncoderState::PassOpen(kind) => event == EncoderEvent::End(kind),
            EncoderState::Finished => false,
        }
    }

    /// The state after `event`, where it is accepted.
    pub open spec fn after(self, event: EncoderEvent) -> EncoderState {
        match event {
            EncoderEvent::Record => self,
            EncoderEvent::Begin(kind) => EncoderState::PassOpen(kind),
            EncoderEvent::End(_) => EncoderState::Encoding,
            EncoderEvent::Finish => EncoderState::Finished,
        }
    }

    /// Why `event` is refused, where it is.
    pub open spec fn refusal(self, event: EncoderEvent) -> RecordError {
        match self {
            EncoderState::Encoding => RecordError::NotTheOpenPass,
            EncoderState::PassOpen(kind) => if event is End {
                RecordError::NotTheOpenPass
            } else {
                RecordError::PassOpen(kind)
            },
            EncoderState::Finished => RecordError::Finished,
        }
    }

    /// The state after `events`, taken in order; `None` once one of them is
    /// refused.
    pub open spec fn run(self, events: Seq<EncoderEvent>) -> Option<EncoderState>
        decreases events.len(),
    {
        if events.len() == 0 {
            Some(self)
        } else if self.accepts(events.first()) {
            self.after(events.first()).run(events.drop_first())
        } else {
            None
        }
    }

    /// While a pass is open the encoder takes the end of that pass and
    /// nothing else: no command of its own, no second pass, no finish.
    pub proof fn lemma_open_pass_is_exclusive(kind: PassKind, event: EncoderEvent)
        ensures
            EncoderState::Encoding.accepts(EncoderEvent::Begin(kind)),
            EncoderState::Encoding.after(EncoderEvent::Begin(kind)) == EncoderState::PassOpen(kind),
            EncoderState::PassOpen(kind).accepts(event) <==> event == EncoderEvent::End(kind),
            !EncoderState::PassOpen(kind).accepts(EncoderEvent::Record),
            !EncoderState::PassOpen(kind).accepts(EncoderEvent::Begin(PassKind::Render)),
            !EncoderState::PassOpen(kind).accepts(EncoderEvent::Begin(PassKind::Compute)),
            !EncoderState::PassOpen(kind).accepts(EncoderEvent::Finish),
            EncoderState::PassOpen(kind).after(EncoderEvent::End(kind)) == EncoderState::Encoding,
    {
    }

    /// In a run that is accepted, what follows the opening of a pass is the
    /// end of that pass.
    pub proof fn lemma_pass_is_ended_before_anything_else(
        self,
        events: Seq<EncoderEvent>,
        i: int,
    )
        requires
            self.run(events) is Some,
            0 <= i < events.len() - 1,
            events[i] is Begin,
        ensures
            events[i + 1] == EncoderEvent::End(events[i]->Begin_0),
        decreases events.len(),
    {
        let rest = events.drop_first();
        if i == 0 {
            assert(rest.first() == events[1]);
            assert(self.after(events[0]).accepts(rest.first())) by {
                assert(self.after(events[0]).run(rest) is Some);
            }
        } else {
            assert(rest[i - 1] == events[i]);
            assert(rest[i] == events[i + 1]);
            self.after(events.first()).lemma_pass_is_ended_before_anything_else(rest, i - 1);
        }
    }

    /// In a run that is accepted, a finish is the last event: an encoder is
    /// finished at most once, and takes nothing after that.
    pub proof fn lemma_finish_is_last(self, events: Seq<EncoderEvent>, i: int)
        requires
            self.run(events) is Some,
            0 <= i < events.len(),
            events[i] == EncoderEvent::Finish,
        ensures
            i == events.len() - 1,
        decreases events.len(),
    {
        let rest = events.drop_first();
        if i == 0 {
            if rest.len() > 0 {
                assert(self.after(events[0]).run(rest) is Some);
                assert(self.after(events[0]).accepts(rest.first()));
            }
        } else {
            assert(rest[i - 1] == events[i]);
            self.after(events.first()).lemma_finish_is_last(rest, i - 1);
        }
    }
}

/// A size in three dimensions, in texels.
#[derive(Clone, Copy, Debug, PartialEq, Eq, Structural, Hash)]
pub struct Extent3d {
    pub width: u32,
    pub height: u32,
    pub depth: u32,
}

/// A place in three dimensions, in texels.
#[derive(Clone, Copy, Debug, PartialEq, Eq, Structural, Hash)]
pub struct Origin3d {
    pub x: u32,
    pub y: u32,
    pub z: u32,
}

/// How the texels of an image lie in a buffer.
#[derive(Clone, Copy, Debug, PartialEq, Eq, Structural, Hash)]
pub struct TextureDataLayout {
    pub offset: BufferAddress,
    pub bytes_per_row: u32,
    pub rows_per_image: u32,
}

/// A buffer as one side of a copy to or from a texture.
#[derive(Clone, Copy, Debug, PartialEq, Eq)]
pub struct BufferCopyView<H> {
    pub buffer: H,
    pub layout: TextureDataLayout,
}

/// A texture as one side of a copy.
#[derive(Clone, Copy, Debug, PartialEq, Eq)]
pub struct TextureCopyView<H> {
    pub texture: H,
    pub mip_level: u32,
    pub origin: Origin3d,
}

/// The shader stages that something is visible to, as a set of flags in the
/// bits of a number.
#[derive(Clone, Copy, Debug, PartialEq, Eq, Structural, Hash)]
pub struct ShaderStage {
    pub bits: u32,
}

/// A command that is recorded into an encoder itself.
#[derive(Debug, PartialEq, Eq)]
#[allow(inconsistent_fields)]
pub enum Command<'a, H> {
    CopyBufferToBuffer {
        source: H,
        source_offset: BufferAddress,
        destination: H,
        destination_offset: BufferAddress,
        copy_size: BufferAddress,
    },
    CopyBufferToTexture {
        source: BufferCopyView<H>,
        destination: TextureCopyView<H>,
        copy_size: Extent3d,
    },
    CopyTextureToBuffer {
        source: TextureCopyView<H>,
        destination: BufferCopyView<H>,
        copy_size: Extent3d,
    },
    CopyTextureToTexture {
        source: TextureCopyView<H>,
        destination: TextureCopyView<H>,
        copy_size: Extent3d,
    },
    InsertDebugMarker(&'a str),
    PushDebugGroup(&'a str),
    PopDebugGroup,
}

/// A command that is recorded into a render pass or a render bundle.
///
/// The viewport and the blend colour are numbers with a fraction; they are
/// held as the bits of their IEEE 754 form, single width for the viewport and
/// double width for the colour.
#[derive(Debug, PartialEq, Eq)]
#[allow(inconsistent_fields)]
pub enum RenderCommand<'a, H> {
    SetBindGroup { index: u32, bind_group: H, offsets: &'a [DynamicOffset] },
    SetPipeline(H),
    SetBlendColor { r: u64, g: u64, b: u64, a: u64 },
    SetIndexBuffer { buffer: H, offset: BufferAddress, size: Option<BufferSize> },
    SetVertexBuffer { slot: u32, buffer: H, offset: BufferAddress, size: Option<BufferSize> },
    SetScissorRect { x: u32, y: u32, width: u32, height: u32 },
    SetViewport { x: u32, y: u32, width: u32, height: u32, min_depth: u32, max_depth: u32 },
    SetStencilReference(u32),
    SetPushConstants { stages: ShaderStage, offset: u32, data: &'a [u32] },
    Draw { vertices: Range<u32>, instances: Range<u32> },
    DrawIndexed { indices: Range<u32>, base_vertex: i32, instances: Range<u32> },
    DrawIndirect { indirect_buffer: H, indirect_offset: BufferAddress },
    DrawIndexedIndirect { indirect_buffer: H, indirect_offset: BufferAddress },
    MultiDrawIndirect { indirect_buffer: H, indirect_offset: BufferAddress, count: u32 },
    MultiDrawIndexedIndirect { indirect_buffer: H, indirect_offset: BufferAddress, count: u32 },
    MultiDrawIndirectCount {
        indirect_buffer: H,
        indirect_offset: BufferAddress,
        count_buffer: H,
        count_offset: BufferAddress,
        max_count: u32,
    },
    MultiDrawIndexedIndirectCount {
        indirect_buffer: H,
        indirect_offset: BufferAddress,
        count_buffer: H,
        count_offset: BufferAddress,
        max_count: u32,
    },
    ExecuteBundles(&'a [H]),
    InsertDebugMarker(&'a str),
    PushDebugGroup(&'a str),
    PopDebugGroup,
}

/// A command that is recorded into a compute pass.
#[derive(Debug, PartialEq, Eq)]
#[allow(inconsistent_fields)]
pub enum ComputeCommand<'a, H> {
    SetBindGroup { index: u32, bind_group: H, offsets: &'a [DynamicOffset] },
    SetPipeline(H),
    SetPushConstants { offset: u32, data: &'a [u32] },
    Dispatch { x: u32, y: u32, z: u32 },
    DispatchIndirect { indirect_buffer: H, indirect_offset: BufferAddress },
    InsertDebugMarker(&'a str),
    PushDebugGroup(&'a str),
    PopDebugGroup,
}

/// Describes a command encoder to create.
#[derive(Clone, Debug, PartialEq, Eq, Hash, Default)]
pub struct CommandEncoderDescriptor<'a> {
    /// Name of the encoder for debugging.
    pub label: Option<&'a str>,
}

/// Describes a render bundle to create.
#[derive(Clone, Debug, PartialEq, Eq, Hash, Default)]
pub struct RenderBundleDescriptor<'a> {
    /// Name of the bundle for debugging.
    pub label: Option<&'a str>,
}

/// Records commands and passes, and is finished into a command buffer.
#[derive(Debug)]
pub struct CommandEncoder {
    state: EncoderState,
}

impl View for CommandEncoder {
    type V = EncoderState;

    closed spec fn view(&self) -> EncoderState {
        self.state
    }
}

/// A finished sequence of commands, to be submitted once.
#[derive(Debug)]
pub struct CommandBuffer<H> {
    id: Option<H>,
}

impl<H> View for CommandBuffer<H> {
    type V = Option<H>;

    closed spec fn view(&self) -> Option<H> {
        self.id
    }
}

impl CommandEncoder {
    /// An encoder that has recorded nothing.
    pub fn new(desc: &CommandEncoderDescriptor) -> (encoder: CommandEncoder)
        ensures
            encoder@ == EncoderState::Encoding,
    {
        CommandEncoder { state: EncoderState::Encoding }
    }

    /// The state of the encoder.
    pub fn state(&self) -> (state: EncoderState)
        ensures
            state == self@,
    {
        self.state
    }

    /// Tells whether the encoder takes `event`, and if not, why.
    pub fn check(&self, event: EncoderEvent) -> (verdict: Result<(), RecordError>)
        ensures
            verdict is Ok <==> self@.accepts(event),
            verdict matches Err(e) ==> e == self@.refusal(event),
    {
        match self.state {
            EncoderState::Encoding => match event {
                EncoderEvent::End(_) => Err(RecordError::NotTheOpenPass),
                _ => Ok(()),
            },
            EncoderState::PassOpen(kind) => match event {
                EncoderEvent::End(ended) => if ended == kind {
                    Ok(())
                } else {
                    Err(RecordError::NotTheOpenPass)
                },
                _ => Err(RecordError::PassOpen(kind)),
            },
            EncoderState::Finished => Err(RecordError::Finished),
        }
    }

    /// Finishes the encoder: `handle` is the command buffer that the backend
    /// made of it. The encoder takes nothing after this.
    pub fn finish<H>(&mut self, handle: H) -> (buffer: CommandBuffer<H>)
        requires
            old(self)@.accepts(EncoderEvent::Finish),
        ensures
            final(self)@ == EncoderState::Finished,
            buffer@ == Some(handle),
    {
        self.state = EncoderState::Finished;
        CommandBuffer { id: Some(handle) }
    }

    /// Opens a render pass, which borrows the encoder. The encoder takes
    /// nothing until the pass is ended.
    pub fn begin_render_pass<'e>(&'e mut self) -> (pass: RenderPass<'e>)
        requires
            old(self)@.accepts(EncoderEvent::Begin(PassKind::Render)),
        ensures
            pass.is_open(),
            pass.parent()@ == EncoderState::PassOpen(PassKind::Render),
            *final(self) == *final(pass.parent()),
    {
        self.state = EncoderState::PassOpen(PassKind::Render);
        RenderPass::open(self)
    }

    /// Opens a compute pass, which borrows the encoder. The encoder takes
    /// nothing until the pass is ended.
    pub fn begin_compute_pass<'e>(&'e mut self) -> (pass: ComputePass<'e>)
        requires
            old(self)@.accepts(EncoderEvent::Begin(PassKind::Compute)),
        ensures
            pass.is_open(),
            pass.parent()@ == EncoderState::PassOpen(PassKind::Compute),
            *final(self) == *final(pass.parent()),
    {
        self.state = EncoderState::PassOpen(PassKind::Compute);
        ComputePass::open(self)
    }

    /// Takes the encoder back from the pass of kind `kind` that is open on
    /// it.
    pub(crate) fn end_pass(&mut self, kind: PassKind)
        requires
            old(self)@.accepts(EncoderEvent::End(kind)),
        ensures
            final(self)@ == EncoderState::Encoding,
        no_unwind
    {
        self.state = EncoderState::Encoding;
    }

    /// Records a copy of `copy_size` bytes from one buffer to another.
    pub fn copy_buffer_to_buffer<'a, H>(
        &mut self,
        source: H,
        source_offset: BufferAddress,
        destination: H,
        destination_offset: BufferAddress,
        copy_size: BufferAddress,
    ) -> (command: Command<'a, H>)
        requires
            old(self)@.accepts(EncoderEvent::Record),
        ensures
            final(self)@ == old(self)@,
            command === (Command::CopyBufferToBuffer {
                source,
                source_offset,
                destination,
                destination_offset,
                copy_size,
            }),
    {
        Command::CopyBufferToBuffer {
            source,
            source_offset,
            destination,
            destination_offset,
            copy_size,
        }
    }

    /// Records a copy from a buffer to a texture.
    pub fn copy_buffer_to_texture<'a, H>(
        &mut self,
        source: BufferCopyView<H>,
        destination: TextureCopyView<H>,
        copy_size: Extent3d,
    ) -> (command: Command<'a, H>)
        requires
            old(self)@.accepts(EncoderEvent::Record),
        ensures
            final(self)@ == old(self)@,
            command === (Command::CopyBufferToTexture { source, destination, copy_size }),
    {
        Command::CopyBufferToTexture { source, destination, copy_size }
    }

    /// Records a copy from a texture to a buffer.
    pub fn copy_texture_to_buffer<'a, H>(
        &mut self,
        source: TextureCopyView<H>,
        destination: BufferCopyView<H>,
        copy_size: Extent3d,
    ) -> (command: Command<'a, H>)
        requires
            old(self)@.accepts(EncoderEvent::Record),
        ensures
            final(self)@ == old(self)@,
            command === (Command::CopyTextureToBuffer { source, destination, copy_size }),
    {
        Command::CopyTextureToBuffer { source, destination, copy_size }
    }

    /// Records a copy from one texture to another.
    pub fn copy_texture_to_texture<'a, H>(
        &mut self,
        source: TextureCopyView<H>,
        destination: TextureCopyView<H>,
        copy_size: Extent3d,
    ) -> (command: Command<'a, H>)
        requires
            old(self)@.accepts(EncoderEvent::Record),
        ensures
            final(self)@ == old(self)@,
            command === (Command::CopyTextureToTexture { source, destination, copy_size }),
    {
        Command::CopyTextureToTexture { source, destination, copy_size }
    }

    /// Records a debug marker.
    pub fn insert_debug_marker<'a, H>(&mut self, label: &'a str) -> (command: Command<'a, H>)
        requires
            old(self)@.accepts(EncoderEvent::Record),
        ensures
            final(self)@ == old(self)@,
            command === Command::InsertDebugMarker(label),
    {
        Command::InsertDebugMarker(label)
    }

    /// Records the start of a debug group.
    pub fn push_debug_group<'a, H>(&mut self, label: &'a str) -> (command: Command<'a, H>)
        requires
            old(self)@.accepts(EncoderEvent::Record),
        ensures
            final(self)@ == old(self)@,
            command === Command::PushDebugGroup(label),
    {
        Command::PushDebugGroup(label)
    }

    /// Records the end of a debug group.
    pub fn pop_debug_group<'a, H>(&mut self) -> (command: Command<'a, H>)
        requires
            old(self)@.accepts(EncoderEvent::Record),
        ensures
            final(self)@ == old(self)@,
            command === Command::PopDebugGroup,
    {
        Command::PopDebugGroup
    }
}

impl<H> CommandBuffer<H> {
    /// Whether the handle has been taken for submission.
    pub fn is_submitted(&self) -> (submitted: bool)
        ensures
            submitted == (self@ is None),
    {
        self.id.is_none()
    }

    /// Takes the handle for submission. Once taken it is gone: a second call
    /// returns `None`.
    pub fn take(&mut self) -> (handle: Option<H>)
        ensures
            handle == old(self)@,
            final(self)@ is None,
    {
        self.id.take()
    }

    /// Gives the handle back for the backend to drop, unless it was submitted
    /// or the thread is unwinding from a failure.
    pub fn release(self, unwinding: bool) -> (dropped: Option<H>)
        ensures
            dropped == (if unwinding {
                None
            } else {
                self@
            }),
    {
        if unwinding {
            None
        } else {
            self.id
        }
    }

}

} // verus!
