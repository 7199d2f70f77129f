//! Data together with the surroundings it is shown in.

use crate::library::Library;
use std::sync::Arc;
use vstd::prelude::*;

verus! {

/// A piece of data with the context that a view of it may read but not
/// change.
#[derive(Debug, PartialEq, Eq)]
pub struct Ctx<C, T> {
    pub ctx: C,
    pub data: T,
}

/// The context that every screen shares.
#[derive(Debug)]
pub struct CommonCtx {
    pub library: Arc<Library>,
}

/// Data in the shared context.
pub type WithCtx<T> = Ctx<Arc<CommonCtx>, T>;

} // verus!
