//! The presentation cycle of a swap chain.
//!
//! A swap chain is idle or has handed out a frame. A frame is the view of one
//! of the chain's images; the view does not own the image. Giving the frame
//! back presents the image. While a frame is out, the chain hands out no
//! second one and cannot be replaced.

use vstd::prelude::*;
use crate::resource::{Resource, ResourceState, TextureView};

verus! {

/// What the backend says of the image that it was asked for.
#[derive(Clone, Copy, Debug, PartialEq, Eq, Structural)]
pub enum SwapChainStatus {
    /// Here is the image.
    Good,
    /// Here is the image, of a chain that no longer fits its surface well.
    Suboptimal,
    /// No image came in time.
    Timeout,
    /// The surface has changed.
    Outdated,
    /// The chain is lost.
    Lost,
}

/// Why a swap chain has no frame to hand out.
#[derive(Clone, Copy, Debug, PartialEq, Eq, Structural)]
pub enum SwapChainError {
    /// A timeout was encountered while trying to acquire the next frame.
    Timeout,
    /// The underlying surface has changed, and therefore the swap chain must
    /// be updated.
    Outdated,
    /// The swap chain has been lost and needs to be recreated.
    Lost,
    /// There is no more memory left to allocate a new frame.
    OutOfMemory,
}

/// Why a call on a swap chain is refused.
#[derive(Clone, Copy, Debug, PartialEq, Eq, Structural)]
pub enum PresentError {
    /// A frame of the chain is still out.
    FrameAlive,
    /// No frame of the chain is out.
    NoFrame,
    /// The backend gave a status that yields a frame, and no image.
    NoImage,
}

impl SwapChainError {
    /// The failure in words.
    pub open spec fn description(self) -> Seq<char> {
        match self {
            SwapChainError::Timeout => "A timeout was encountered while trying to acquire the next frame"@,
            SwapChainError::Outdated => "The underlying surface has changed, and therefore the swap chain must be updated"@,
            SwapChainError::Lost => "The swap chain has been lost and needs to be recreated"@,
            SwapChainError::OutOfMemory => "There is no more memory left to allocate a new frame"@,
        }
    }

    /// The failure in words.
    pub fn message(&self) -> (text: String)
        ensures
            text@ == self.description(),
    {
        match self {
            SwapChainError::Timeout => "A timeout was encountered while trying to acquire the next frame".to_string(),
            SwapChainError::Outdated => "The underlying surface has changed, and therefore the swap chain must be updated".to_string(),
            SwapChainError::Lost => "The swap chain has been lost and needs to be recreated".to_string(),
            SwapChainError::OutOfMemory => "There is no more memory left to allocate a new frame".to_string(),
        }
    }
}

impl SwapChainStatus {
    /// Whether the status comes with an image to draw to.
    pub open spec fn yields_frame(self) -> bool {
        self is Good || self is Suboptimal
    }

    /// The failure that a status without an image stands for.
    pub open spec fn failure(self) -> SwapChainError
        recommends
            !self.yields_frame(),
    {
        match self {
            SwapChainStatus::Outdated => SwapChainError::Outdated,
            SwapChainStatus::Lost => SwapChainError::Lost,
            _ => SwapChainError::Timeout,
        }
    }
}

/// What a [`SwapChain`] stands for.
pub struct SwapChainState<H> {
    pub handle: H,
    pub frame_acquired: bool,
}

/// The images that are presented to a surface, one after the other.
#[derive(Debug)]
pub struct SwapChain<H> {
    handle: H,
    frame_acquired: bool,
}

impl<H> View for SwapChain<H> {
    type V = SwapChainState<H>;

    closed spec fn view(&self) -> SwapChainState<H> {
        SwapChainState { handle: self.handle, frame_acquired: self.frame_acquired }
    }
}

/// An image of a swap chain that can be drawn to.
#[derive(Debug)]
pub struct SwapChainTexture<V, D> {
    /// The view of the image.
    pub view: TextureView<V>,
    detail: D,
}

/// A frame that a swap chain has handed out.
#[derive(Debug)]
pub struct SwapChainFrame<V, D> {
    /// The image to draw the frame to.
    pub output: SwapChainTexture<V, D>,
    /// Whether the chain should be made anew for the images to fit again.
    pub suboptimal: bool,
}

/// The image to present, and what the backend needs to present it.
#[derive(Debug)]
pub struct Present<V, D> {
    pub view: V,
    pub detail: D,
}

impl<V, D> SwapChainTexture<V, D> {
    /// What the backend needs to present the image.
    pub closed spec fn detail(self) -> D {
        self.detail
    }

    /// What the view of the image stands for.
    pub closed spec fn image(self) -> ResourceState<V> {
        self.view@
    }

    /// Gives the image back to `chain`, which is idle after that, and returns
    /// what to present; nothing where the thread is unwinding from a failure.
    /// The view does not own the image, so nothing is dropped.
    pub fn release<H>(self, chain: &mut SwapChain<H>, unwinding: bool) -> (present: Option<
        Present<V, D>,
    >)
        requires
            old(chain)@.frame_acquired,
        ensures
            final(chain)@.handle == old(chain)@.handle,
            !final(chain)@.frame_acquired,
            unwinding ==> present is None,
            !unwinding ==> (present matches Some(p) && p.view == self.image().handle && p.detail
                == self.detail()),
    {
        chain.frame_acquired = false;
        if unwinding {
            None
        } else {
            let SwapChainTexture { view, detail } = self;
            Some(Present { view: view.into_handle(), detail })
        }
    }
}

impl<V, D> SwapChainFrame<V, D> {
    /// Gives the frame back to `chain`, which is idle after that, and returns
    /// what to present; nothing where the thread is unwinding from a failure.
    pub fn release<H>(self, chain: &mut SwapChain<H>, unwinding: bool) -> (present: Option<
        Present<V, D>,
    >)
        requires
            old(chain)@.frame_acquired,
        ensures
            final(chain)@.handle == old(chain)@.handle,
            !final(chain)@.frame_acquired,
            unwinding ==> present is None,
            !unwinding ==> (present matches Some(p) && p.view == self.output.image().handle
                && p.detail == self.output.detail()),
    {
        self.output.release(chain, unwinding)
    }
}

impl<H> SwapChain<H> {
    /// The swap chain that the backend made under `handle`. It is idle.
    pub fn new(handle: H) -> (chain: SwapChain<H>)
        ensures
            chain@.handle == handle,
            !chain@.frame_acquired,
    {
        SwapChain { handle, frame_acquired: false }
    }

    /// The handle.
    pub fn handle(&self) -> (handle: &H)
        ensures
            *handle == self@.handle,
    {
        &self.handle
    }

    /// Whether a frame of the chain is out.
    pub fn has_frame(&self) -> (acquired: bool)
        ensures
            acquired == self@.frame_acquired,
    {
        self.frame_acquired
    }

    /// Tells whether the chain may hand out a frame or be replaced, and if
    /// not, why: it may while no frame is out.
    pub fn check_idle(&self) -> (verdict: Result<(), PresentError>)
        ensures
            verdict is Ok <==> !self@.frame_acquired,
            verdict matches Err(e) ==> e == PresentError::FrameAlive,
    {
        if self.frame_acquired {
            Err(PresentError::FrameAlive)
        } else {
            Ok(())
        }
    }

    /// Tells whether a frame can be given back to the chain, and if not, why:
    /// it can while a frame is out.
    pub fn check_release(&self) -> (verdict: Result<(), PresentError>)
        ensures
            verdict is Ok <==> self@.frame_acquired,
            verdict matches Err(e) ==> e == PresentError::NoFrame,
    {
        if self.frame_acquired {
            Ok(())
        } else {
            Err(PresentError::NoFrame)
        }
    }

    /// Makes of the backend's answer the frame to draw next, or the reason why
    /// there is none. The answer is a status, what the backend needs to
    /// present an image, and with a status that yields a frame, the view of
    /// the image. With a frame the chain is no longer idle. A failure yields
    /// no frame and leaves the chain idle, so that nothing is presented for
    /// it, whether a view came with it or not. No frame may be out.
    pub fn get_current_frame<V, D>(
        &mut self,
        view: Option<V>,
        status: SwapChainStatus,
        detail: D,
    ) -> (result: Result<SwapChainFrame<V, D>, SwapChainError>)
        requires
            !old(self)@.frame_acquired,
            status.yields_frame() ==> view is Some,
        ensures
            final(self)@.handle == old(self)@.handle,
            final(self)@.frame_acquired == status.yields_frame(),
            result is Ok <==> status.yields_frame(),
            result matches Ok(frame) ==> {
                &&& frame.suboptimal == (status is Suboptimal)
                &&& frame.output.detail() == detail
                &&& frame.output.image() == (ResourceState { handle: view.unwrap(), owned: false })
            },
            result matches Err(e) ==> e == status.failure(),
    {
        match status {
            SwapChainStatus::Good => {
                self.frame_acquired = true;
                Ok(
                    SwapChainFrame {
                        output: SwapChainTexture { view: Resource::borrowed(view.unwrap()), detail },
                        suboptimal: false,
                    },
                )
            },
            SwapChainStatus::Suboptimal => {
                self.frame_acquired = true;
                Ok(
                    SwapChainFrame {
                        output: SwapChainTexture { view: Resource::borrowed(view.unwrap()), detail },
                        suboptimal: true,
                    },
                )
            },
            SwapChainStatus::Timeout => Err(SwapChainError::Timeout),
            SwapChainStatus::Outdated => Err(SwapChainError::Outdated),
            SwapChainStatus::Lost => Err(SwapChainError::Lost),
        }
    }

    /// Tells whether the backend's answer can be made a frame or a failure
    /// of: it cannot while a frame is out, and a status that yields a frame
    /// has to come with the view of the image.
    pub fn check_answer<V>(&self, view: &Option<V>, status: SwapChainStatus) -> (verdict: Result<
        (),
        PresentError,
    >)
        ensures
            verdict is Ok <==> !self@.frame_acquired && (status.yields_frame() ==> view is Some),
            self@.frame_acquired ==> verdict == Err::<(), PresentError>(PresentError::FrameAlive),
            !self@.frame_acquired ==> (verdict matches Err(e) ==> e == PresentError::NoImage),
    {
        if self.frame_acquired {
            return Err(PresentError::FrameAlive);
        }
        let yields = match status {
            SwapChainStatus::Good => true,
            SwapChainStatus::Suboptimal => true,
            _ => false,
        };
        if yields && view.is_none() {
            Err(PresentError::NoImage)
        } else {
            Ok(())
        }
    }
}

} // verus!
