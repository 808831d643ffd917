use vstd::prelude::*;

verus! {

/// The four kinds of shader-visible slots of the bindless table.
#[derive(Clone, Copy, Debug, PartialEq, Eq, Structural, Hash)]
pub enum DescriptorCategory {
    BufferAddress,
    SampledImage,
    StorageImage,
    Sampler,
}

/// How an image view is exposed to shaders.
#[derive(Clone, Copy, Debug, PartialEq, Eq, Structural, Hash)]
pub enum ImageDescriptorType {
    SampledImage,
    StorageImage,
}

impl ImageDescriptorType {
    pub open spec fn category_spec(self) -> DescriptorCategory {
        match self {
            ImageDescriptorType::SampledImage => DescriptorCategory::SampledImage,
            ImageDescriptorType::StorageImage => DescriptorCategory::StorageImage,
        }
    }

    pub fn category(&self) -> (r: DescriptorCategory)
        ensures
            r == self.category_spec(),
    {
        match self {
            ImageDescriptorType::SampledImage => DescriptorCategory::SampledImage,
            ImageDescriptorType::StorageImage => DescriptorCategory::StorageImage,
        }
    }
}

/// One slot write that still has to reach the GPU-visible table.
#[derive(Clone, Copy, Debug, PartialEq, Eq, Structural, Hash)]
pub struct DescriptorWrite {
    pub category: DescriptorCategory,
    pub index: u32,
    /// A device address for buffers, a native view or sampler handle otherwise.
    pub value: u64,
}

/// Fixed-capacity table of shader-visible resource references, one array per
/// category. A slot is `None` until it is first written; a write overwrites
/// the slot whatever it held. Writes are also queued until they are uploaded.
pub struct BindlessTable {
    buffer_addresses: Vec<Option<u64>>,
    sampled_images: Vec<Option<u64>>,
    storage_images: Vec<Option<u64>>,
    samplers: Vec<Option<u64>>,
    pending: Vec<DescriptorWrite>,
}

fn empty_slots(n: u32) -> (r: Vec<Option<u64>>)
    ensures
        r@ == Seq::new(n as nat, |i: int| None::<u64>),
{
    let mut v: Vec<Option<u64>> = Vec::new();
    let mut k: u32 = 0;
    while k < n
        invariant
            k <= n,
            v@ == Seq::new(k as nat, |i: int| None::<u64>),
        decreases n - k,
    {
        v.push(None);
        k = k + 1;
        assert(v@ =~= Seq::new(k as nat, |i: int| None::<u64>));
    }
    v
}

impl BindlessTable {
    /// The slots of one category.
    pub closed spec fn slots(&self, c: DescriptorCategory) -> Seq<Option<u64>> {
        match c {
            DescriptorCategory::BufferAddress => self.buffer_addresses@,
            DescriptorCategory::SampledImage => self.sampled_images@,
            DescriptorCategory::StorageImage => self.storage_images@,
            DescriptorCategory::Sampler => self.samplers@,
        }
    }

    /// Writes made since the last upload, oldest first.
    pub closed spec fn pending(&self) -> Seq<DescriptorWrite> {
        self.pending@
    }

    pub open spec fn capacity(&self, c: DescriptorCategory) -> nat {
        self.slots(c).len()
    }

    /// `after` reads as `before` with slot `index` of category `c` set to `value`.
    pub open spec fn written(
        before: &Self,
        after: &Self,
        c: DescriptorCategory,
        index: u32,
        value: u64,
    ) -> bool {
        &&& (index as int) < before.capacity(c)
        &&& forall|c2: DescriptorCategory|
            #[trigger] after.slots(c2) == if c2 == c {
                before.slots(c2).update(index as int, Some(value))
            } else {
                before.slots(c2)
            }
    }

    /// A table with every slot unwritten; both image categories get
    /// `image_capacity` slots.
    pub fn new(buffer_capacity: u32, image_capacity: u32, sampler_capacity: u32) -> (r: Self)
        ensures
            r.capacity(DescriptorCategory::BufferAddress) == buffer_capacity,
            r.capacity(DescriptorCategory::SampledImage) == image_capacity,
            r.capacity(DescriptorCategory::StorageImage) == image_capacity,
            r.capacity(DescriptorCategory::Sampler) == sampler_capacity,
            forall|c: DescriptorCategory, i: int|
                0 <= i < r.capacity(c) ==> #[trigger] r.slots(c)[i] == None::<u64>,
            r.pending() == Seq::<DescriptorWrite>::empty(),
    {
        BindlessTable {
            buffer_addresses: empty_slots(buffer_capacity),
            sampled_images: empty_slots(image_capacity),
            storage_images: empty_slots(image_capacity),
            samplers: empty_slots(sampler_capacity),
            pending: Vec::new(),
        }
    }

    pub fn capacity_of(&self, c: DescriptorCategory) -> (r: usize)
        ensures
            r == self.capacity(c),
    {
        match c {
            DescriptorCategory::BufferAddress => self.buffer_addresses.len(),
            DescriptorCategory::SampledImage => self.sampled_images.len(),
            DescriptorCategory::StorageImage => self.storage_images.len(),
            DescriptorCategory::Sampler => self.samplers.len(),
        }
    }

    /// What slot `index` of category `c` holds.
    pub fn read(&self, c: DescriptorCategory, index: u32) -> (r: Option<u64>)
        requires
            index < self.capacity(c),
        ensures
            r == self.slots(c)[index as int],
    {
        let i = index as usize;
        match c {
            DescriptorCategory::BufferAddress => self.buffer_addresses[i],
            DescriptorCategory::SampledImage => self.sampled_images[i],
            DescriptorCategory::StorageImage => self.storage_images[i],
            DescriptorCategory::Sampler => self.samplers[i],
        }
    }

    /// Overwrites slot `index` of category `c` and queues the write.
    pub fn write(&mut self, c: DescriptorCategory, index: u32, value: u64)
        requires
            index < old(self).capacity(c),
        ensures
            Self::written(old(self), final(self), c, index, value),
            final(self).pending() == old(self).pending().push(
                DescriptorWrite { category: c, index, value },
            ),
    {
        let i = index as usize;
        match c {
            DescriptorCategory::BufferAddress => {
                self.buffer_addresses[i] = Some(value);
            },
            DescriptorCategory::SampledImage => {
                self.sampled_images[i] = Some(value);
            },
            DescriptorCategory::StorageImage => {
                self.storage_images[i] = Some(value);
            },
            DescriptorCategory::Sampler => {
                self.samplers[i] = Some(value);
            },
        }
        self.pending.push(DescriptorWrite { category: c, index, value });
    }

    /// Slot `index` of the buffer-address array now holds `address`.
    pub fn write_buffer(&mut self, address: u64, index: u32)
        requires
            index < old(self).capacity(DescriptorCategory::BufferAddress),
        ensures
            Self::written(old(self), final(self), DescriptorCategory::BufferAddress, index, address),
            final(self).pending() == old(self).pending().push(
                DescriptorWrite { category: DescriptorCategory::BufferAddress, index, value: address },
            ),
    {
        self.write(DescriptorCategory::BufferAddress, index, address)
    }

    /// Slot `index` of the sampled-image array now holds the view `view`.
    pub fn write_sampled_image(&mut self, view: u64, index: u32)
        requires
            index < old(self).capacity(DescriptorCategory::SampledImage),
        ensures
            Self::written(old(self), final(self), DescriptorCategory::SampledImage, index, view),
            final(self).pending() == old(self).pending().push(
                DescriptorWrite { category: DescriptorCategory::SampledImage, index, value: view },
            ),
    {
        self.write(DescriptorCategory::SampledImage, index, view)
    }

    /// Slot `index` of the storage-image array now holds the view `view`.
    pub fn write_storage_image(&mut self, view: u64, index: u32)
        requires
            index < old(self).capacity(DescriptorCategory::StorageImage),
        ensures
            Self::written(old(self), final(self), DescriptorCategory::StorageImage, index, view),
            final(self).pending() == old(self).pending().push(
                DescriptorWrite { category: DescriptorCategory::StorageImage, index, value: view },
            ),
    {
        self.write(DescriptorCategory::StorageImage, index, view)
    }

    /// Slot `index` of the sampler array now holds `sampler`.
    pub fn write_sampler(&mut self, sampler: u64, index: u32)
        requires
            index < old(self).capacity(DescriptorCategory::Sampler),
        ensures
            Self::written(old(self), final(self), DescriptorCategory::Sampler, index, sampler),
            final(self).pending() == old(self).pending().push(
                DescriptorWrite { category: DescriptorCategory::Sampler, index, value: sampler },
            ),
    {
        self.write(DescriptorCategory::Sampler, index, sampler)
    }

    /// Hands out the queued writes, oldest first, for an upload pass; the
    /// slots keep what they hold.
    pub fn take_pending(&mut self) -> (r: Vec<DescriptorWrite>)
        ensures
            r@ == old(self).pending(),
            final(self).pending() == Seq::<DescriptorWrite>::empty(),
            forall|c: DescriptorCategory| #[trigger] final(self).slots(c) == old(self).slots(c),
    {
        let mut r: Vec<DescriptorWrite> = Vec::new();
        std::mem::swap(&mut r, &mut self.pending);
        r
    }

    /// Writing the same value to the same slot twice reads as writing it once.
    pub proof fn lemma_write_idempotent(
        t0: &Self,
        t1: &Self,
        t2: &Self,
        c: DescriptorCategory,
        index: u32,
        value: u64,
    )
        requires
            Self::written(t0, t1, c, index, value),
            Self::written(t1, t2, c, index, value),
        ensures
            forall|c2: DescriptorCategory| #[trigger] t2.slots(c2) == t1.slots(c2),
    {
        assert forall|c2: DescriptorCategory| #[trigger] t2.slots(c2) == t1.slots(c2) by {
            if c2 == c {
                assert(t2.slots(c2) =~= t1.slots(c2));
            }
        }
    }

    /// A write leaves every other slot as it was.
    pub proof fn lemma_write_keeps_other_slots(
        t0: &Self,
        t1: &Self,
        c: DescriptorCategory,
        index: u32,
        value: u64,
        c2: DescriptorCategory,
        j: int,
    )
        requires
            Self::written(t0, t1, c, index, value),
            0 <= j < t0.capacity(c2),
            c2 != c || j != index,
        ensures
            t1.slots(c2)[j] == t0.slots(c2)[j],
            t1.capacity(c2) == t0.capacity(c2),
    {
        assert(t1.slots(c2) == (if c2 == c {
            t0.slots(c2).update(index as int, Some(value))
        } else {
            t0.slots(c2)
        }));
    }
}

} // verus!
