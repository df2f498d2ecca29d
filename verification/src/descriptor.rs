//! Plain values that describe what to create or how to begin.

use vstd::prelude::*;

verus! {

/// Whether polling a device waits for the work that is under way.
#[derive(Clone, Copy, Debug, PartialEq, Eq, Structural)]
pub enum Maintain {
    /// Block until the work is done.
    Wait,
    /// Look once and return.
    Poll,
}

/// The source of a shader module.
#[derive(Clone, Copy, Debug)]
pub enum ShaderModuleSource<'a> {
    /// A SPIR-V module, as its words.
    SpirV(&'a [u32]),
    /// A WGSL module, as its text.
    Wgsl(&'a str),
}

/// What is done to an attachment when a render pass begins.
#[derive(Clone, Copy, Debug, Hash, PartialEq, Eq)]
pub enum LoadOp<V> {
    /// Fill it with this value.
    Clear(V),
    /// Keep what it holds.
    Load,
}

/// What is done to one aspect of an attachment at the two ends of a render
/// pass.
#[derive(Clone, Copy, Debug, Hash, PartialEq, Eq)]
pub struct Operations<V> {
    /// What the pass begins with.
    pub load: LoadOp<V>,
    /// Whether what the pass draws is kept.
    pub store: bool,
}

impl<V: Default> Default for LoadOp<V> {
    /// Clearing with the default value.
    fn default() -> (op: Self)
        ensures
            op matches LoadOp::Clear(value) && V::default.ensures((), value),
    {
        LoadOp::Clear(V::default())
    }
}

impl<V: Default> Default for Operations<V> {
    /// Clearing with the default value, and keeping what is drawn.
    fn default() -> (ops: Self)
        ensures
            ops.store,
            ops.load matches LoadOp::Clear(value) && V::default.ensures((), value),
    {
        Operations { load: LoadOp::default(), store: true }
    }
}

} // verus!
