use vstd::prelude::*;

use crate::pool::PoolId;

verus! {

/// Handle of a buffer owned by a `Device`.
#[derive(Clone, Copy, Debug, PartialEq, Eq, Structural, Hash)]
pub struct BufferId {
    pub id: PoolId,
}

impl BufferId {
    pub open spec fn raw(self) -> PoolId {
        self.id
    }

    /// The handle that never names a buffer.
    pub fn null() -> (r: BufferId)
        ensures
            r.id == (PoolId { index: u32::MAX, generation: 0 }),
            r.raw().is_null(),
    {
        BufferId { id: PoolId::null() }
    }
}

/// Handle of an image owned by a `Device`.
#[derive(Clone, Copy, Debug, PartialEq, Eq, Structural, Hash)]
pub struct ImageId {
    pub id: PoolId,
}

impl ImageId {
    pub open spec fn raw(self) -> PoolId {
        self.id
    }

    /// The handle that never names an image.
    pub fn null() -> (r: ImageId)
        ensures
            r.id == (PoolId { index: u32::MAX, generation: 0 }),
            r.raw().is_null(),
    {
        ImageId { id: PoolId::null() }
    }
}

/// Handle of a sampler owned by a `Device`.
#[derive(Clone, Copy, Debug, PartialEq, Eq, Structural, Hash)]
pub struct SamplerId {
    pub id: PoolId,
}

impl SamplerId {
    pub open spec fn raw(self) -> PoolId {
        self.id
    }

    /// The handle that never names a sampler.
    pub fn null() -> (r: SamplerId)
        ensures
            r.id == (PoolId { index: u32::MAX, generation: 0 }),
            r.raw().is_null(),
    {
        SamplerId { id: PoolId::null() }
    }
}

/// Handle of an image view owned by a `Device`.
#[derive(Clone, Copy, Debug, PartialEq, Eq, Structural, Hash)]
pub struct ImageViewId {
    pub id: PoolId,
}

impl ImageViewId {
    pub open spec fn raw(self) -> PoolId {
        self.id
    }

    /// The handle that never names an image view.
    pub fn null() -> (r: ImageViewId)
        ensures
            r.id == (PoolId { index: u32::MAX, generation: 0 }),
            r.raw().is_null(),
    {
        ImageViewId { id: PoolId::null() }
    }
}

/// Handle of a pipeline, tagged with its kind.
#[derive(Clone, Copy, Debug, PartialEq, Eq, Structural, Hash)]
pub enum Pipeline {
    Rasterization(PoolId),
    Compute(PoolId),
}

impl Pipeline {
    pub open spec fn raw(self) -> PoolId {
        match self {
            Pipeline::Rasterization(id) => id,
            Pipeline::Compute(id) => id,
        }
    }

    /// The handle that never names a pipeline.
    pub fn null() -> (r: Pipeline)
        ensures
            r == Pipeline::Rasterization(PoolId { index: u32::MAX, generation: 0 }),
            r.raw().is_null(),
    {
        Pipeline::Rasterization(PoolId::null())
    }

    /// The pool id, whatever the kind.
    pub fn get_raw(&self) -> (r: PoolId)
        ensures
            r == self.raw(),
    {
        match self {
            Pipeline::Compute(id) => *id,
            Pipeline::Rasterization(id) => *id,
        }
    }
}

} // verus!
