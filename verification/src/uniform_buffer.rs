//! Bookkeeping of the dynamic uniform buffers of the GPU renderer: how much
//! room one draw call's uniforms take once aligned, how many blocks have
//! been allocated, and where the next uniforms go.
use vstd::prelude::*;
use core::marker::PhantomData;

verus! {

/// The size of each block. Uniforms are copied into a block until it is
/// full, at which point a new block is allocated.
pub const BLOCK_SIZE: u32 = 65536;

/// The uniform data size of `T` as the renderer counts it, in 32 bits.
pub open spec fn uniforms_size<T>() -> u32 {
    (vstd::layout::size_of::<T>() as u64) as u32
}

/// `size` rounded up with the mask of `alignment`.
pub open spec fn aligned_size(size: u32, alignment: u32) -> u32 {
    ((size + (alignment - 1)) as u32) & !((alignment - 1) as u32)
}

/// The storage of the uniforms of type `T` for the draws of a frame.
pub struct BufferStorage<T> {
    phantom: PhantomData<T>,
    blocks: usize,
    aligned_uniforms_size: u32,
    cur_block: usize,
    cur_offset: u32,
}

impl<T> BufferStorage<T> {
    pub closed spec fn spec_aligned_uniforms_size(&self) -> u32 {
        self.aligned_uniforms_size
    }

    pub closed spec fn spec_blocks(&self) -> usize {
        self.blocks
    }

    pub closed spec fn spec_cur_block(&self) -> usize {
        self.cur_block
    }

    pub closed spec fn spec_cur_offset(&self) -> u32 {
        self.cur_offset
    }

    /// An empty storage whose uniforms are aligned to `uniform_alignment`.
    pub fn from_alignment(uniform_alignment: u32) -> (s: Self)
        requires
            uniform_alignment >= 1,
            uniforms_size::<T>() + (uniform_alignment - 1) <= u32::MAX,
        ensures
            s.spec_aligned_uniforms_size() == aligned_size(uniforms_size::<T>(), uniform_alignment),
            s.spec_blocks() == 0,
            s.spec_cur_block() == 0,
            s.spec_cur_offset() == 0,
    {
        let size: u64 = core::mem::size_of::<T>() as u64;
        let align_mask = uniform_alignment - 1;
        let aligned_uniforms_size = (size as u32 + align_mask) & !align_mask;
        BufferStorage {
            phantom: PhantomData,
            blocks: 0,
            aligned_uniforms_size,
            cur_block: 0,
            cur_offset: 0,
        }
    }

    pub fn aligned_uniforms_size(&self) -> (r: u32)
        ensures
            r == self.spec_aligned_uniforms_size(),
    {
        self.aligned_uniforms_size
    }

    /// The number of blocks allocated so far.
    pub fn block_count(&self) -> (r: usize)
        ensures
            r == self.spec_blocks(),
    {
        self.blocks
    }

    /// Records a newly allocated block at the end of the block list.
    pub fn allocate_block(&mut self)
        requires
            old(self).spec_blocks() < usize::MAX,
        ensures
            final(self).spec_blocks() == old(self).spec_blocks() + 1,
            final(self).spec_aligned_uniforms_size() == old(self).spec_aligned_uniforms_size(),
            final(self).spec_cur_block() == old(self).spec_cur_block(),
            final(self).spec_cur_offset() == old(self).spec_cur_offset(),
    {
        self.blocks = self.blocks + 1;
    }

    /// Starts writing from the first block again; the blocks are kept.
    pub fn recall(&mut self)
        ensures
            final(self).spec_cur_block() == 0,
            final(self).spec_cur_offset() == 0,
            final(self).spec_blocks() == old(self).spec_blocks(),
            final(self).spec_aligned_uniforms_size() == old(self).spec_aligned_uniforms_size(),
    {
        self.cur_block = 0;
        self.cur_offset = 0;
    }
}

/// The uniform storages of the renderer: transforms and color adjustments.
pub struct StagingBuffersStorage<U, C> {
    pub uniforms: BufferStorage<U>,
    pub colors: BufferStorage<C>,
}

impl<U, C> StagingBuffersStorage<U, C> {
    pub fn from_alignment(alignment: u32) -> (s: Self)
        requires
            alignment >= 1,
            uniforms_size::<U>() + (alignment - 1) <= u32::MAX,
            uniforms_size::<C>() + (alignment - 1) <= u32::MAX,
        ensures
            s.uniforms.spec_aligned_uniforms_size() == aligned_size(uniforms_size::<U>(), alignment),
            s.colors.spec_aligned_uniforms_size() == aligned_size(uniforms_size::<C>(), alignment),
            s.uniforms.spec_blocks() == 0 && s.colors.spec_blocks() == 0,
            s.uniforms.spec_cur_block() == 0 && s.uniforms.spec_cur_offset() == 0,
            s.colors.spec_cur_block() == 0 && s.colors.spec_cur_offset() == 0,
    {
        StagingBuffersStorage {
            uniforms: BufferStorage::from_alignment(alignment),
            colors: BufferStorage::from_alignment(alignment),
        }
    }

    pub fn recall(&mut self)
        ensures
            final(self).uniforms.spec_cur_block() == 0,
            final(self).uniforms.spec_cur_offset() == 0,
            final(self).colors.spec_cur_block() == 0,
            final(self).colors.spec_cur_offset() == 0,
            final(self).uniforms.spec_blocks() == old(self).uniforms.spec_blocks(),
            final(self).colors.spec_blocks() == old(self).colors.spec_blocks(),
            final(self).uniforms.spec_aligned_uniforms_size()
                == old(self).uniforms.spec_aligned_uniforms_size(),
            final(self).colors.spec_aligned_uniforms_size()
                == old(self).colors.spec_aligned_uniforms_size(),
    {
        self.uniforms.recall();
        self.colors.recall();
    }
}

/// With a power-of-two alignment, the aligned size is the least multiple of
/// the alignment that holds the uniforms.
pub proof fn law_aligned_size_is_least_multiple(size: u32, k: u32)
    requires
        k < 32,
        size + ((1u32 << k) - 1) <= u32::MAX,
    ensures
        aligned_size(size, 1u32 << k) % (1u32 << k) == 0,
        aligned_size(size, 1u32 << k) >= size,
        aligned_size(size, 1u32 << k) < size + (1u32 << k),
{
    let a: u32 = 1u32 << k;
    assert(a >= 1) by (bit_vector)
        requires
            k < 32,
            a == 1u32 << k,
    ;
    let m: u32 = (a - 1) as u32;
    let t: u32 = (size + m) as u32;
    assert(aligned_size(size, a) == t & !m);
    assert((t & !m) % a == 0 && (t & !m) <= t && t - (t & !m) <= m) by (bit_vector)
        requires
            k < 32,
            a == 1u32 << k,
            m == a - 1,
    ;
}

} // verus!
