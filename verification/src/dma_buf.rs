//! DMA-BUF frame layouts: the planes and memory objects that describe a GPU
//! frame, and how such a frame is laid out as one contiguous encoder input
//! buffer.
//!
//! DRM formats are fourcc codes and modifiers are the 64-bit values of the DRM
//! format-modifier space; the file descriptors themselves stay with the caller.
use vstd::prelude::*;
use crate::geometry::{FrameRate, PixelSize};

verus! {

/// DRM fourcc of two-plane 4:2:0 YUV (`NV12`).
pub const DRM_FORMAT_NV12: u32 = 0x3231564e;
/// DRM fourcc of 32-bit RGB with an ignored alpha byte (`XR24`).
pub const DRM_FORMAT_XRGB8888: u32 = 0x34325258;
/// DRM fourcc of a single 8-bit channel (`R8`).
pub const DRM_FORMAT_R8: u32 = 0x20203852;
/// DRM fourcc of two 8-bit channels (`GR88`).
pub const DRM_FORMAT_GR88: u32 = 0x38385247;
/// The DRM modifier that stands for "no explicit modifier".
pub const DRM_FORMAT_MOD_INVALID: u64 = 0x00ff_ffff_ffff_ffff;
/// The DRM modifier of linear memory.
pub const DRM_FORMAT_MOD_LINEAR: u64 = 0;

/// Largest number of memory objects an encoder input frame may span.
pub const MAX_DMA_BUF_OBJECTS: usize = 2;

/// One image plane of a DMA-BUF frame.
#[derive(Debug, Clone, Copy, PartialEq, Eq, Structural)]
pub struct DmaBufPlane {
    /// Index of the memory object that holds the plane.
    pub object_index: usize,
    /// Byte offset of the plane inside its memory object.
    pub offset: u32,
    /// Bytes per row.
    pub stride: u32,
    pub modifier: u64,
}

/// The layout of a DMA-BUF frame: its size, format, the length of each memory
/// object and its planes.
#[derive(Debug, Clone)]
pub struct DmaBufLayout {
    pub size: PixelSize,
    pub format: u32,
    pub object_sizes: Vec<usize>,
    pub planes: Vec<DmaBufPlane>,
}

/// What an encoder pipeline was negotiated for; every later input frame must
/// match it.
#[derive(Debug, Clone, Copy, PartialEq, Eq, Structural)]
pub struct DmaBufInputSignature {
    pub size: PixelSize,
    pub format: u32,
    pub modifier: u64,
    pub frame_rate: FrameRate,
}

/// Why a frame cannot be handed to the encoder.
#[derive(Debug, Clone, Copy, PartialEq, Eq, Structural)]
pub enum EncoderInputError {
    /// The frame still waits on a GPU readiness fence.
    UnresolvedReadinessFence,
    /// Only NV12 and XRGB8888 frames are encoded.
    UnsupportedFormat { format: u32 },
    PlaneCount { expected: usize, actual: usize },
    NoObjects,
    /// The planes of one frame use different modifiers.
    MixedModifiers,
    /// The frame differs from the one the pipeline was negotiated for.
    InputChanged { expected: DmaBufInputSignature, actual: DmaBufInputSignature },
    TooManyObjects { count: usize },
    /// The memory objects together are longer than the address space.
    ObjectSizesOverflow,
    MissingObject { plane: usize, object: usize },
    /// A plane starts at or after the end of its memory object.
    PlaneOffsetOutOfObject { plane: usize },
    /// A plane stride does not fit the signed 32-bit stride of video metadata.
    StrideTooLarge { plane: usize },
}

/// Where each plane of a frame starts in the buffer that concatenates all of
/// its memory objects, with the row strides to record in the video metadata.
#[derive(Debug, Clone)]
pub struct EncoderInputLayout {
    pub signature: DmaBufInputSignature,
    /// Offset of each plane from the start of the concatenated buffer.
    pub offsets: Vec<usize>,
    pub strides: Vec<i32>,
    /// Length of the concatenated buffer.
    pub total_size: usize,
}

/// Number of planes an encoder input frame of `format` has.
pub open spec fn spec_encoder_plane_count(format: u32) -> Option<nat> {
    if format == DRM_FORMAT_NV12 {
        Some(2)
    } else if format == DRM_FORMAT_XRGB8888 {
        Some(1)
    } else {
        None
    }
}

/// Total length of the first `n` memory objects.
pub open spec fn spec_bytes_before(sizes: Seq<usize>, n: int) -> int
    decreases n,
{
    if n <= 0 {
        0
    } else {
        spec_bytes_before(sizes, n - 1) + sizes[n - 1]
    }
}

/// Whether every plane uses the modifier of the first one.
pub open spec fn spec_uniform_modifier(planes: Seq<DmaBufPlane>) -> bool {
    forall|i: int| 0 <= i < planes.len() ==> #[trigger] planes[i].modifier == planes[0].modifier
}

/// The problem with plane `p`, if any.
pub open spec fn spec_plane_error(sizes: Seq<usize>, planes: Seq<DmaBufPlane>, p: int) -> Option<
    EncoderInputError,
> {
    let plane = planes[p];
    if plane.object_index >= sizes.len() {
        Some(EncoderInputError::MissingObject { plane: p as usize, object: plane.object_index })
    } else if plane.offset >= sizes[plane.object_index as int] {
        Some(EncoderInputError::PlaneOffsetOutOfObject { plane: p as usize })
    } else if plane.stride > i32::MAX {
        Some(EncoderInputError::StrideTooLarge { plane: p as usize })
    } else {
        None
    }
}

/// The problem with the first faulty plane at or after `from`.
pub open spec fn spec_first_plane_error(
    sizes: Seq<usize>,
    planes: Seq<DmaBufPlane>,
    from: int,
) -> Option<EncoderInputError>
    decreases planes.len() - from,
{
    if from < 0 || from >= planes.len() {
        None
    } else {
        match spec_plane_error(sizes, planes, from) {
            Some(e) => Some(e),
            None => spec_first_plane_error(sizes, planes, from + 1),
        }
    }
}

/// The signature of a frame with the given layout at `frame_rate`.
pub open spec fn spec_signature(frame: DmaBufLayout, frame_rate: FrameRate) -> DmaBufInputSignature {
    DmaBufInputSignature {
        size: frame.size,
        format: frame.format,
        modifier: frame.planes@[0].modifier,
        frame_rate,
    }
}

/// The first reason, in the order the checks are made, why `frame` cannot be
/// encoded.
pub open spec fn spec_encoder_input_error(
    frame: DmaBufLayout,
    has_readiness_fence: bool,
    frame_rate: FrameRate,
    expected: Option<DmaBufInputSignature>,
) -> Option<EncoderInputError> {
    let sizes = frame.object_sizes@;
    let planes = frame.planes@;
    if has_readiness_fence {
        Some(EncoderInputError::UnresolvedReadinessFence)
    } else if spec_encoder_plane_count(frame.format) is None {
        Some(EncoderInputError::UnsupportedFormat { format: frame.format })
    } else if planes.len() != spec_encoder_plane_count(frame.format)->0 {
        Some(
            EncoderInputError::PlaneCount {
                expected: spec_encoder_plane_count(frame.format)->0 as usize,
                actual: planes.len() as usize,
            },
        )
    } else if sizes.len() == 0 {
        Some(EncoderInputError::NoObjects)
    } else if !spec_uniform_modifier(planes) {
        Some(EncoderInputError::MixedModifiers)
    } else if expected is Some && expected->0 != spec_signature(frame, frame_rate) {
        Some(
            EncoderInputError::InputChanged {
                expected: expected->0,
                actual: spec_signature(frame, frame_rate),
            },
        )
    } else if sizes.len() > MAX_DMA_BUF_OBJECTS {
        Some(EncoderInputError::TooManyObjects { count: sizes.len() as usize })
    } else if spec_bytes_before(sizes, sizes.len() as int) > usize::MAX {
        Some(EncoderInputError::ObjectSizesOverflow)
    } else {
        spec_first_plane_error(sizes, planes, 0)
    }
}

proof fn lemma_first_plane_error_skips(sizes: Seq<usize>, planes: Seq<DmaBufPlane>, from: int, to: int)
    requires
        0 <= from <= to <= planes.len(),
        forall|j: int| from <= j < to ==> (#[trigger] spec_plane_error(sizes, planes, j)) is None,
    ensures
        spec_first_plane_error(sizes, planes, from) == spec_first_plane_error(sizes, planes, to),
    decreases to - from,
{
    if from < to {
        lemma_first_plane_error_skips(sizes, planes, from + 1, to);
    }
}

proof fn lemma_bytes_before_monotonic(sizes: Seq<usize>, i: int, j: int)
    requires
        0 <= i <= j <= sizes.len(),
    ensures
        spec_bytes_before(sizes, i) <= spec_bytes_before(sizes, j),
        i < j ==> spec_bytes_before(sizes, i) + sizes[i] <= spec_bytes_before(sizes, j),
    decreases j - i,
{
    if i < j {
        lemma_bytes_before_monotonic(sizes, i, j - 1);
    }
}

/// Checks that `frame` can be encoded and lays its planes out in the buffer
/// that concatenates its memory objects in order.
///
/// `frame_rate` is the rate the encoder input is tagged with, and `expected`
/// the signature of the running pipeline, if there is one.
pub fn encoder_input_layout(
    frame: &DmaBufLayout,
    has_readiness_fence: bool,
    frame_rate: FrameRate,
    expected: Option<DmaBufInputSignature>,
) -> (r: Result<EncoderInputLayout, EncoderInputError>)
    ensures
        match r {
            Ok(layout) => {
                &&& spec_encoder_input_error(*frame, has_readiness_fence, frame_rate, expected)
                    is None
                &&& layout.signature == spec_signature(*frame, frame_rate)
                &&& layout.total_size == spec_bytes_before(
                    frame.object_sizes@,
                    frame.object_sizes@.len() as int,
                )
                &&& layout.offsets@.len() == frame.planes@.len()
                &&& layout.strides@.len() == frame.planes@.len()
                &&& forall|p: int|
                    0 <= p < frame.planes@.len() ==> #[trigger] layout.offsets@[p]
                        == spec_bytes_before(
                        frame.object_sizes@,
                        frame.planes@[p].object_index as int,
                    ) + frame.planes@[p].offset
                &&& forall|p: int|
                    0 <= p < frame.planes@.len() ==> #[trigger] layout.strides@[p]
                        == frame.planes@[p].stride
            },
            Err(e) => spec_encoder_input_error(*frame, has_readiness_fence, frame_rate, expected)
                == Some(e),
        },
{
    let ghost sizes = frame.object_sizes@;
    let ghost planes = frame.planes@;
    if has_readiness_fence {
        return Err(EncoderInputError::UnresolvedReadinessFence);
    }
    let expected_planes: usize = if frame.format == DRM_FORMAT_NV12 {
        2
    } else if frame.format == DRM_FORMAT_XRGB8888 {
        1
    } else {
        return Err(EncoderInputError::UnsupportedFormat { format: frame.format });
    };
    if frame.planes.len() != expected_planes {
        return Err(
            EncoderInputError::PlaneCount { expected: expected_planes, actual: frame.planes.len() },
        );
    }
    if frame.object_sizes.len() == 0 {
        return Err(EncoderInputError::NoObjects);
    }
    let modifier = frame.planes[0].modifier;
    let mut i: usize = 0;
    while i < frame.planes.len()
        invariant
            i <= planes.len(),
            planes == frame.planes@,
            planes.len() >= 1,
            sizes == frame.object_sizes@,
            sizes.len() > 0,
            !has_readiness_fence,
            spec_encoder_plane_count(frame.format) == Some(planes.len()),
            modifier == planes[0].modifier,
            forall|j: int| 0 <= j < i ==> #[trigger] planes[j].modifier == modifier,
        decreases planes.len() - i,
    {
        if frame.planes[i].modifier != modifier {
            return Err(EncoderInputError::MixedModifiers);
        }
        i = i + 1;
    }
    let signature = DmaBufInputSignature {
        size: frame.size,
        format: frame.format,
        modifier,
        frame_rate,
    };
    match expected {
        Some(e) => {
            if e != signature {
                return Err(EncoderInputError::InputChanged { expected: e, actual: signature });
            }
        },
        None => {},
    }
    let object_count = frame.object_sizes.len();
    if object_count > MAX_DMA_BUF_OBJECTS {
        return Err(EncoderInputError::TooManyObjects { count: object_count });
    }
    proof {
        reveal_with_fuel(spec_bytes_before, 3);
    }
    let first_size = frame.object_sizes[0];
    let total_size: usize = if object_count == 2 {
        match first_size.checked_add(frame.object_sizes[1]) {
            Some(t) => t,
            None => return Err(EncoderInputError::ObjectSizesOverflow),
        }
    } else {
        first_size
    };
    assert(total_size == spec_bytes_before(sizes, sizes.len() as int));
    assert(spec_encoder_input_error(*frame, has_readiness_fence, frame_rate, expected)
        == spec_first_plane_error(sizes, planes, 0));
    let mut offsets: Vec<usize> = Vec::new();
    let mut strides: Vec<i32> = Vec::new();
    let mut p: usize = 0;
    while p < frame.planes.len()
        invariant
            p <= planes.len(),
            planes == frame.planes@,
            sizes == frame.object_sizes@,
            1 <= sizes.len() <= 2,
            object_count == sizes.len(),
            spec_encoder_input_error(*frame, has_readiness_fence, frame_rate, expected)
                == spec_first_plane_error(sizes, planes, 0),
            signature == spec_signature(*frame, frame_rate),
            total_size == spec_bytes_before(sizes, sizes.len() as int),
            first_size == sizes[0],
            offsets@.len() == p,
            strides@.len() == p,
            forall|j: int| 0 <= j < p ==> (#[trigger] spec_plane_error(sizes, planes, j)) is None,
            forall|j: int|
                0 <= j < p ==> #[trigger] offsets@[j] == spec_bytes_before(
                    sizes,
                    planes[j].object_index as int,
                ) + planes[j].offset,
            forall|j: int| 0 <= j < p ==> #[trigger] strides@[j] == planes[j].stride,
        decreases planes.len() - p,
    {
        let plane = frame.planes[p];
        if plane.object_index >= object_count {
            proof {
                lemma_first_plane_error_skips(sizes, planes, 0, p as int);
            }
            return Err(
                EncoderInputError::MissingObject { plane: p, object: plane.object_index },
            );
        }
        let object_size = frame.object_sizes[plane.object_index];
        if (plane.offset as usize) >= object_size {
            proof {
                lemma_first_plane_error_skips(sizes, planes, 0, p as int);
            }
            return Err(EncoderInputError::PlaneOffsetOutOfObject { plane: p });
        }
        if plane.stride > 0x7fff_ffff {
            proof {
                lemma_first_plane_error_skips(sizes, planes, 0, p as int);
            }
            return Err(EncoderInputError::StrideTooLarge { plane: p });
        }
        let base: usize = if plane.object_index == 0 {
            0
        } else {
            first_size
        };
        proof {
            reveal_with_fuel(spec_bytes_before, 2);
            assert(base == spec_bytes_before(sizes, plane.object_index as int));
            lemma_bytes_before_monotonic(sizes, plane.object_index as int, sizes.len() as int);
        }
        offsets.push(base + plane.offset as usize);
        strides.push(plane.stride as i32);
        p = p + 1;
    }
    proof {
        lemma_first_plane_error_skips(sizes, planes, 0, planes.len() as int);
    }
    let layout = EncoderInputLayout { signature, offsets, strides, total_size };
    Ok(layout)
}

/// Number of occupied slots among the first `n`.
pub open spec fn spec_occupied<T>(slots: Seq<Option<T>>, n: int) -> nat
    decreases n,
{
    if n <= 0 {
        0
    } else {
        spec_occupied(slots, n - 1) + if slots[n - 1] is Some { 1nat } else { 0nat }
    }
}

/// The index of the first free slot, if there is one.
pub open spec fn spec_first_free<T>(slots: Seq<Option<T>>) -> Option<int> {
    if exists|i: int| 0 <= i < slots.len() && slots[i] is None {
        Some(choose|i: int| 0 <= i < slots.len() && slots[i] is None && forall|j: int| 0 <= j < i ==> slots[j] is Some)
    } else {
        None
    }
}

/// What the next acquisition from a pool does.
#[derive(Debug, Clone, Copy, PartialEq, Eq)]
pub enum PoolAcquire {
    /// Hand out the frame in this slot again.
    Reuse(usize),
    /// Allocate a new frame and store it.
    Allocate,
    /// Every slot is in use.
    Exhausted,
}

/// What an acquisition decides for a pool whose slots are `slots`, whose
/// released slots are `available` (in release order) and whose capacity is
/// `capacity`.
pub open spec fn spec_pool_decision<T>(slots: Seq<Option<T>>, available: Seq<usize>, capacity: usize) -> PoolAcquire {
    if available.len() > 0 {
        PoolAcquire::Reuse(available[0])
    } else if spec_occupied(slots, slots.len() as int) < capacity {
        PoolAcquire::Allocate
    } else {
        PoolAcquire::Exhausted
    }
}

/// A lease that came back to the pool: its slot, whether the frame may be
/// used again, and whether waiting on its readiness fence succeeded (true
/// when it had none).
#[derive(Debug, Clone, Copy, PartialEq, Eq)]
pub struct PoolRelease {
    pub slot: usize,
    pub reusable: bool,
    pub fence_ok: bool,
}

/// A release's fence wait failed; the release at this position of the
/// batch freed its slot, and the ones after it were not applied.
#[derive(Debug, Clone, Copy, PartialEq, Eq)]
pub struct FenceWaitFailed {
    pub release: usize,
}

/// The slots and available slots after one release.
pub open spec fn spec_release_one<T>(slots: Seq<Option<T>>, available: Seq<usize>, r: PoolRelease) -> (
    Seq<Option<T>>,
    Seq<usize>,
) {
    if r.reusable && r.fence_ok && slots[r.slot as int] is Some {
        (slots, available.push(r.slot))
    } else {
        (slots.update(r.slot as int, None), available)
    }
}

/// The slots and available slots after the first `n` releases, in order.
pub open spec fn spec_apply_releases<T>(
    slots: Seq<Option<T>>,
    available: Seq<usize>,
    releases: Seq<PoolRelease>,
    n: int,
) -> (Seq<Option<T>>, Seq<usize>)
    decreases n,
{
    if n <= 0 {
        (slots, available)
    } else {
        let before = spec_apply_releases(slots, available, releases, n - 1);
        spec_release_one(before.0, before.1, releases[n - 1])
    }
}

/// Whether the fence wait of a release failed on a frame that was to be reused.
pub open spec fn spec_fence_failed(r: PoolRelease) -> bool {
    r.reusable && !r.fence_ok
}

/// A bounded pool of reusable output frames. A frame is handed out with a
/// lease; its slot becomes available again only when the lease is released
/// as reusable.
pub struct DmaBufPool<T> {
    pub capacity: usize,
    pub slots: Vec<Option<T>>,
    /// Released slots in release order.
    pub available: Vec<usize>,
}

impl<T> DmaBufPool<T> {
    /// Number of slots that hold a frame.
    pub open spec fn occupied(self) -> nat {
        spec_occupied(self.slots@, self.slots@.len() as int)
    }

    /// The pool's invariant: no more slots than the capacity, every available
    /// slot holds a frame, and no slot is available twice.
    pub open spec fn wf(self) -> bool {
        &&& self.slots@.len() <= self.capacity
        &&& forall|i: int|
            0 <= i < self.available@.len() ==> (#[trigger] self.available@[i]) < self.slots@.len()
                && self.slots@[self.available@[i] as int] is Some
        &&& forall|i: int, j: int|
            0 <= i < j < self.available@.len() ==> #[trigger] self.available@[i]
                != #[trigger] self.available@[j]
    }

    /// An empty pool of at most `capacity` frames.
    pub fn new(capacity: usize) -> (pool: Self)
        ensures
            pool.wf(),
            pool.capacity == capacity,
            pool.slots@.len() == 0,
            pool.available@.len() == 0,
            pool.occupied() == 0,
    {
        DmaBufPool { capacity, slots: Vec::new(), available: Vec::new() }
    }

    /// Applies a released lease of `slot`. A lease released as not reusable,
    /// or whose readiness fence could not be waited on (`fence_ok` false),
    /// drops the slot's frame; otherwise the slot becomes available last.
    /// Returns whether the slot was kept.
    pub fn release(&mut self, slot: usize, reusable: bool, fence_ok: bool) -> (kept: bool)
        requires
            old(self).wf(),
            slot < old(self).slots@.len(),
            !old(self).available@.contains(slot),
        ensures
            final(self).wf(),
            final(self).capacity == old(self).capacity,
            kept == (reusable && fence_ok && old(self).slots@[slot as int] is Some),
            kept ==> final(self).slots@ == old(self).slots@ && final(self).available@
                == old(self).available@.push(slot),
            !kept ==> final(self).slots@ == old(self).slots@.update(slot as int, None)
                && final(self).available@ == old(self).available@,
            final(self).occupied() == if !kept && old(self).slots@[slot as int] is Some {
                old(self).occupied() - 1
            } else {
                old(self).occupied() as int
            },
            final(self).occupied() <= final(self).capacity,
    {
        proof {
            lemma_occupied_bounds(self.slots@, self.slots@.len() as int);
            if !(reusable && fence_ok && self.slots@[slot as int] is Some) {
                lemma_occupied_update(self.slots@, slot as int, None, self.slots@.len() as int);
            }
        }
        if reusable && fence_ok && self.slots[slot].is_some() {
            self.available.push(slot);
            true
        } else {
            self.slots.set(slot, None);
            proof {
                assert forall|i: int| 0 <= i < self.available@.len() implies (#[trigger] self.available@[i]) < self.slots@.len()
                    && self.slots@[self.available@[i] as int] is Some by {
                    assert(old(self).available@[i] != slot);
                }
            }
            false
        }
    }

    /// Decides the next acquisition: the longest-available slot is reused;
    /// without one a frame is allocated unless every slot of the capacity is
    /// occupied. A reused slot stops being available.
    pub fn acquire(&mut self) -> (r: PoolAcquire)
        requires
            old(self).wf(),
        ensures
            final(self).wf(),
            final(self).capacity == old(self).capacity,
            final(self).slots@ == old(self).slots@,
            final(self).occupied() <= final(self).capacity,
            r == spec_pool_decision(old(self).slots@, old(self).available@, old(self).capacity),
            match r {
                PoolAcquire::Reuse(slot) => old(self).available@.len() > 0 && slot
                    == old(self).available@[0] && final(self).available@
                    == old(self).available@.drop_first(),
                PoolAcquire::Allocate => old(self).available@.len() == 0 && spec_occupied(
                    old(self).slots@,
                    old(self).slots@.len() as int,
                ) < old(self).capacity && final(self).available@ == old(self).available@,
                PoolAcquire::Exhausted => old(self).available@.len() == 0 && spec_occupied(
                    old(self).slots@,
                    old(self).slots@.len() as int,
                ) == old(self).capacity && final(self).available@ == old(self).available@,
            },
    {
        proof {
            lemma_occupied_bounds(self.slots@, self.slots@.len() as int);
        }
        if self.available.len() > 0 {
            let slot = self.available.remove(0);
            proof {
                assert forall|i: int, j: int|
                    0 <= i < j < self.available@.len() implies #[trigger] self.available@[i]
                        != #[trigger] self.available@[j] by {
                    assert(self.available@[i] == old(self).available@[i + 1]);
                    assert(self.available@[j] == old(self).available@[j + 1]);
                }
                assert forall|i: int| 0 <= i < self.available@.len() implies (#[trigger] self.available@[i]) < self.slots@.len()
                    && self.slots@[self.available@[i] as int] is Some by {
                    assert(self.available@[i] == old(self).available@[i + 1]);
                }
            }
            return PoolAcquire::Reuse(slot);
        }
        let mut active: usize = 0;
        let mut i: usize = 0;
        while i < self.slots.len()
            invariant
                i <= self.slots@.len(),
                active == spec_occupied(self.slots@, i as int),
                active <= i,
            decreases self.slots@.len() - i,
        {
            if self.slots[i].is_some() {
                active = active + 1;
            }
            i = i + 1;
        }
        proof {
            lemma_occupied_bounds(self.slots@, self.slots@.len() as int);
        }
        if active == self.capacity {
            PoolAcquire::Exhausted
        } else {
            PoolAcquire::Allocate
        }
    }

    /// Takes back the leases released since the last acquisition, in
    /// release order, then decides the acquisition. A lease released as not
    /// reusable frees its slot; a reusable one whose fence wait failed frees
    /// its slot too and ends the acquisition with that failure, leaving the
    /// later releases unapplied; any other makes its slot available. When
    /// every release was applied, the decision is that of `acquire`; after an
    /// `Allocate` the caller allocates one frame and stores it.
    pub fn acquire_after_releases(&mut self, releases: &[PoolRelease]) -> (r: Result<PoolAcquire, FenceWaitFailed>)
        requires
            old(self).wf(),
            forall|i: int| 0 <= i < releases@.len() ==> (#[trigger] releases@[i]).slot < old(self).slots@.len(),
            forall|i: int| 0 <= i < releases@.len() ==> !old(self).available@.contains(#[trigger] releases@[i].slot),
            forall|i: int, j: int|
                0 <= i < j < releases@.len() ==> (#[trigger] releases@[i]).slot != (#[trigger] releases@[j]).slot,
        ensures
            final(self).wf(),
            final(self).capacity == old(self).capacity,
            final(self).occupied() <= final(self).capacity,
            match r {
                Err(failed) => {
                    let applied = spec_apply_releases(
                        old(self).slots@,
                        old(self).available@,
                        releases@,
                        failed.release + 1,
                    );
                    &&& failed.release < releases@.len()
                    &&& spec_fence_failed(releases@[failed.release as int])
                    &&& forall|j: int| 0 <= j < failed.release ==> !spec_fence_failed(#[trigger] releases@[j])
                    &&& final(self).slots@ == applied.0
                    &&& final(self).available@ == applied.1
                },
                Ok(decision) => {
                    let applied = spec_apply_releases(
                        old(self).slots@,
                        old(self).available@,
                        releases@,
                        releases@.len() as int,
                    );
                    &&& forall|j: int| 0 <= j < releases@.len() ==> !spec_fence_failed(#[trigger] releases@[j])
                    &&& decision == spec_pool_decision(applied.0, applied.1, old(self).capacity)
                    &&& final(self).slots@ == applied.0
                    &&& final(self).available@ == if decision is Reuse {
                        applied.1.drop_first()
                    } else {
                        applied.1
                    }
                },
            },
    {
        let mut i: usize = 0;
        while i < releases.len()
            invariant
                i <= releases@.len(),
                self.wf(),
                self.capacity == old(self).capacity,
                self.slots@.len() == old(self).slots@.len(),
                (self.slots@, self.available@) == spec_apply_releases(
                    old(self).slots@,
                    old(self).available@,
                    releases@,
                    i as int,
                ),
                forall|j: int| 0 <= j < i ==> !spec_fence_failed(#[trigger] releases@[j]),
                forall|j: int| 0 <= j < releases@.len() ==> (#[trigger] releases@[j]).slot < old(self).slots@.len(),
                forall|j: int| i <= j < releases@.len() ==> !self.available@.contains(#[trigger] releases@[j].slot),
                forall|a: int, b: int|
                    0 <= a < b < releases@.len() ==> (#[trigger] releases@[a]).slot != (#[trigger] releases@[b]).slot,
            decreases releases@.len() - i,
        {
            let release = releases[i];
            let ghost before = self.available@;
            let kept = self.release(release.slot, release.reusable, release.fence_ok);
            proof {
                assert forall|j: int| i + 1 <= j < releases@.len() implies !self.available@.contains(
                    #[trigger] releases@[j].slot,
                ) by {
                    assert(releases@[i as int].slot != releases@[j].slot);
                    if kept {
                        if self.available@.contains(releases@[j].slot) {
                            let k = choose|k: int| 0 <= k < self.available@.len() && self.available@[k] == releases@[j].slot;
                            if k < before.len() {
                                assert(before[k] == releases@[j].slot);
                            }
                        }
                    }
                }
            }
            if release.reusable && !release.fence_ok {
                return Err(FenceWaitFailed { release: i });
            }
            i = i + 1;
        }
        let decision = self.acquire();
        Ok(decision)
    }

    /// Stores a newly allocated frame in the first free slot, or in a new slot
    /// when none is free, and returns the slot. A frame is allocated only
    /// when fewer frames than the capacity are held (`acquire` answered
    /// `Allocate`).
    pub fn store(&mut self, frame: T) -> (slot: usize)
        requires
            old(self).wf(),
            old(self).occupied() < old(self).capacity,
        ensures
            final(self).wf(),
            final(self).occupied() == old(self).occupied() + 1,
            final(self).occupied() <= final(self).capacity,
            final(self).capacity == old(self).capacity,
            final(self).available@ == old(self).available@,
            match spec_first_free(old(self).slots@) {
                Some(free) => slot == free && final(self).slots@ == old(self).slots@.update(
                    free,
                    Some(frame),
                ),
                None => slot == old(self).slots@.len() && final(self).slots@ == old(self).slots@.push(
                    Some(frame),
                ),
            },
    {
        let mut i: usize = 0;
        while i < self.slots.len()
            invariant
                i <= self.slots@.len(),
                self.slots@ == old(self).slots@,
                self.available@ == old(self).available@,
                self.capacity == old(self).capacity,
                self.wf(),
                old(self).occupied() < old(self).capacity,
                forall|j: int| 0 <= j < i ==> (#[trigger] self.slots@[j]) is Some,
            decreases self.slots@.len() - i,
        {
            if self.slots[i].is_none() {
                proof {
                    let w = choose|w: int| 0 <= w < old(self).slots@.len() && old(self).slots@[w] is None && forall|j: int| 0 <= j < w ==> old(self).slots@[j] is Some;
                    if w < i {
                    } else if w > i {
                        assert(old(self).slots@[i as int] is Some);
                    }
                    assert(w == i);
                }
                proof {
                    lemma_occupied_update(self.slots@, i as int, Some(frame), self.slots@.len() as int);
                }
                self.slots.set(i, Some(frame));
                proof {
                    assert forall|k: int| 0 <= k < self.available@.len() implies (#[trigger] self.available@[k]) < self.slots@.len()
                        && self.slots@[self.available@[k] as int] is Some by {
                        assert(old(self).slots@[self.available@[k] as int] is Some);
                    }
                }
                return i;
            }
            i = i + 1;
        }
        proof {
            lemma_occupied_bounds(self.slots@, self.slots@.len() as int);
            lemma_occupied_push(self.slots@, Some(frame));
        }
        self.slots.push(Some(frame));
        proof {
            assert forall|k: int| 0 <= k < self.available@.len() implies (#[trigger] self.available@[k]) < self.slots@.len()
                && self.slots@[self.available@[k] as int] is Some by {
                assert(old(self).slots@[self.available@[k] as int] is Some);
            }
        }
        self.slots.len() - 1
    }
}

proof fn lemma_occupied_bounds<T>(slots: Seq<Option<T>>, n: int)
    requires
        0 <= n <= slots.len(),
    ensures
        spec_occupied(slots, n) <= n,
        (forall|j: int| 0 <= j < n ==> (#[trigger] slots[j]) is Some) ==> spec_occupied(slots, n) == n,
    decreases n,
{
    if n > 0 {
        lemma_occupied_bounds(slots, n - 1);
    }
}

proof fn lemma_occupied_update<T>(slots: Seq<Option<T>>, i: int, v: Option<T>, n: int)
    requires
        0 <= i < slots.len(),
        0 <= n <= slots.len(),
    ensures
        spec_occupied(slots.update(i, v), n) == spec_occupied(slots, n) - (if i < n && slots[i] is Some {
            1int
        } else {
            0int
        }) + (if i < n && v is Some {
            1int
        } else {
            0int
        }),
    decreases n,
{
    if n > 0 {
        lemma_occupied_update(slots, i, v, n - 1);
    }
}

proof fn lemma_occupied_prefix<T>(slots: Seq<Option<T>>, v: Option<T>, n: int)
    requires
        0 <= n <= slots.len(),
    ensures
        spec_occupied(slots.push(v), n) == spec_occupied(slots, n),
    decreases n,
{
    if n > 0 {
        lemma_occupied_prefix(slots, v, n - 1);
    }
}

proof fn lemma_occupied_push<T>(slots: Seq<Option<T>>, v: Option<T>)
    ensures
        spec_occupied(slots.push(v), slots.len() + 1int) == spec_occupied(slots, slots.len() as int) + (
        if v is Some {
            1int
        } else {
            0int
        }),
{
    lemma_occupied_prefix(slots, v, slots.len() as int);
}

/// A pool never holds more frames than its capacity: a pool starts empty,
/// releasing and acquiring never add a frame, and a frame is stored only
/// after an acquisition found fewer frames than the capacity.
pub proof fn occupied_slots_never_exceed_capacity<T>(pool: DmaBufPool<T>)
    requires
        pool.wf(),
    ensures
        pool.occupied() <= pool.slots@.len() <= pool.capacity,
{
    lemma_occupied_bounds(pool.slots@, pool.slots@.len() as int);
}

/// A slot that is handed out is never handed out again before its lease is
/// released: acquisitions reuse only available slots, and an acquired slot
/// leaves the available ones.
pub proof fn handed_out_slot_is_not_reused<T>(available: Seq<usize>, slot: usize)
    requires
        !available.contains(slot),
    ensures
        available.len() > 0 ==> available[0] != slot,
        available.len() > 0 ==> !available.drop_first().contains(slot),
{
    if available.len() > 0 {
        assert(available.contains(available[0]));
        if available.drop_first().contains(slot) {
            let i = choose|i: int| 0 <= i < available.drop_first().len() && available.drop_first()[i] == slot;
            assert(available[i + 1] == slot);
        }
    }
}

/// A slot whose lease was released as not reusable is emptied, so the next
/// allocation stores its replacement there (or in an earlier free slot).
pub proof fn invalidated_slot_is_replaced<T>(slots: Seq<Option<T>>, slot: int)
    requires
        0 <= slot < slots.len(),
    ensures
        spec_first_free(slots.update(slot, None)) is Some,
        spec_first_free(slots.update(slot, None))->0 <= slot,
{
    let s = slots.update(slot, None);
    assert(s[slot] is None);
    let w = choose|w: int| 0 <= w < s.len() && s[w] is None && forall|j: int| 0 <= j < w ==> s[j] is Some;
    if exists|i: int| 0 <= i < s.len() && s[i] is None {
        lemma_first_free_exists(s, slot);
    }
}

proof fn lemma_first_free_exists<T>(slots: Seq<Option<T>>, n: int)
    requires
        0 <= n < slots.len(),
        slots[n] is None,
    ensures
        exists|w: int| 0 <= w <= n && slots[w] is None && forall|j: int| 0 <= j < w ==> slots[j] is Some,
        spec_first_free(slots) is Some && spec_first_free(slots)->0 <= n,
    decreases n,
{
    if exists|j: int| 0 <= j < n && slots[j] is None {
        let j = choose|j: int| 0 <= j < n && slots[j] is None;
        lemma_first_free_exists(slots, j);
    } else {
        assert(forall|j: int| 0 <= j < n ==> slots[j] is Some);
    }
    let w = choose|w: int| 0 <= w < slots.len() && slots[w] is None && forall|j: int| 0 <= j < w ==> slots[j] is Some;
    let v = choose|v: int| 0 <= v <= n && slots[v] is None && forall|j: int| 0 <= j < v ==> slots[j] is Some;
    if w > v {
        assert(slots[v] is Some);
    }
}

/// Why caps do not describe an encoder input.
#[derive(Debug, Clone, Copy, PartialEq, Eq)]
pub enum CapsSignatureError {
    NegativeFrameRateNumerator,
    NegativeFrameRateDenominator,
    NegativeWidth,
    NegativeHeight,
    InvalidFrameRate,
}

/// The signature described by fixed DMA-BUF caps: their width, height, the
/// fourcc and modifier of their DRM format, and their frame rate.
pub fn input_signature_from_caps(
    width: i32,
    height: i32,
    fourcc: u32,
    modifier: u64,
    rate_numerator: i32,
    rate_denominator: i32,
) -> (r: Result<DmaBufInputSignature, CapsSignatureError>)
    ensures
        match r {
            Ok(sig) => width >= 0 && height >= 0 && rate_numerator > 0 && rate_denominator > 0
                && sig == (DmaBufInputSignature {
                size: PixelSize { width: width as u32, height: height as u32 },
                format: fourcc,
                modifier,
                frame_rate: FrameRate {
                    numerator: rate_numerator as u32,
                    denominator: rate_denominator as u32,
                },
            }),
            Err(CapsSignatureError::NegativeFrameRateNumerator) => rate_numerator < 0,
            Err(CapsSignatureError::NegativeFrameRateDenominator) => rate_numerator >= 0
                && rate_denominator < 0,
            Err(CapsSignatureError::NegativeWidth) => rate_numerator >= 0 && rate_denominator >= 0
                && width < 0,
            Err(CapsSignatureError::NegativeHeight) => rate_numerator >= 0 && rate_denominator >= 0
                && width >= 0 && height < 0,
            Err(CapsSignatureError::InvalidFrameRate) => rate_numerator >= 0 && rate_denominator
                >= 0 && width >= 0 && height >= 0 && (rate_numerator == 0 || rate_denominator == 0),
        },
{
    if rate_numerator < 0 {
        return Err(CapsSignatureError::NegativeFrameRateNumerator);
    }
    if rate_denominator < 0 {
        return Err(CapsSignatureError::NegativeFrameRateDenominator);
    }
    if width < 0 {
        return Err(CapsSignatureError::NegativeWidth);
    }
    if height < 0 {
        return Err(CapsSignatureError::NegativeHeight);
    }
    let frame_rate = match FrameRate::new(rate_numerator as u32, rate_denominator as u32) {
        Some(rate) => rate,
        None => return Err(CapsSignatureError::InvalidFrameRate),
    };
    Ok(
        DmaBufInputSignature {
            size: PixelSize { width: width as u32, height: height as u32 },
            format: fourcc,
            modifier,
            frame_rate,
        },
    )
}

/// Size of the chroma plane of an NV12 frame: half the width and height,
/// rounded down.
pub fn nv12_chroma_size(size: PixelSize) -> (c: PixelSize)
    ensures
        c == (PixelSize { width: size.width / 2, height: size.height / 2 }),
{
    PixelSize { width: size.width / 2, height: size.height / 2 }
}

/// Why a luma and a chroma buffer do not form an NV12 frame.
#[derive(Debug, Clone, Copy, PartialEq, Eq)]
pub enum SeparateNv12Error {
    /// Each buffer must have exactly one plane.
    PlaneCount { luma: usize, chroma: usize },
    MixedModifiers { luma: u64, chroma: u64 },
}

/// An NV12 frame made of an R8 luma buffer and a GR88 chroma buffer: the
/// objects of both, luma first, and the luma plane followed by the chroma
/// plane, whose object index moves past the luma objects.
pub fn combine_separate_nv12(size: PixelSize, luma: &DmaBufLayout, chroma: &DmaBufLayout) -> (r: Result<
    DmaBufLayout,
    SeparateNv12Error,
>)
    requires
        chroma.planes@.len() == 1 ==> chroma.planes@[0].object_index + luma.object_sizes@.len()
            <= usize::MAX,
    ensures
        match r {
            Ok(frame) => {
                let luma_plane = luma.planes@[0];
                let chroma_plane = chroma.planes@[0];
                &&& luma.planes@.len() == 1 && chroma.planes@.len() == 1
                &&& luma_plane.modifier == chroma_plane.modifier
                &&& frame.size == size
                &&& frame.format == DRM_FORMAT_NV12
                &&& frame.object_sizes@ == luma.object_sizes@ + chroma.object_sizes@
                &&& frame.planes@ == seq![
                    luma_plane,
                    DmaBufPlane {
                        object_index: (chroma_plane.object_index + luma.object_sizes@.len()) as usize,
                        ..chroma_plane
                    },
                ]
            },
            Err(SeparateNv12Error::PlaneCount { luma: l, chroma: c }) => l == luma.planes@.len() && c
                == chroma.planes@.len() && (l != 1 || c != 1),
            Err(SeparateNv12Error::MixedModifiers { luma: l, chroma: c }) => luma.planes@.len() == 1
                && chroma.planes@.len() == 1 && l == luma.planes@[0].modifier && c
                == chroma.planes@[0].modifier && l != c,
        },
{
    if luma.planes.len() != 1 || chroma.planes.len() != 1 {
        return Err(
            SeparateNv12Error::PlaneCount { luma: luma.planes.len(), chroma: chroma.planes.len() },
        );
    }
    let luma_plane = luma.planes[0];
    let chroma_plane = chroma.planes[0];
    if luma_plane.modifier != chroma_plane.modifier {
        return Err(
            SeparateNv12Error::MixedModifiers {
                luma: luma_plane.modifier,
                chroma: chroma_plane.modifier,
            },
        );
    }
    let mut object_sizes: Vec<usize> = Vec::new();
    let mut i: usize = 0;
    while i < luma.object_sizes.len()
        invariant
            i <= luma.object_sizes@.len(),
            object_sizes@ == luma.object_sizes@.take(i as int),
        decreases luma.object_sizes@.len() - i,
    {
        object_sizes.push(luma.object_sizes[i]);
        assert(luma.object_sizes@.take(i as int + 1) =~= luma.object_sizes@.take(i as int).push(
            luma.object_sizes@[i as int],
        ));
        i = i + 1;
    }
    assert(luma.object_sizes@.take(luma.object_sizes@.len() as int) =~= luma.object_sizes@);
    let mut j: usize = 0;
    while j < chroma.object_sizes.len()
        invariant
            j <= chroma.object_sizes@.len(),
            object_sizes@ == luma.object_sizes@ + chroma.object_sizes@.take(j as int),
        decreases chroma.object_sizes@.len() - j,
    {
        object_sizes.push(chroma.object_sizes[j]);
        assert(chroma.object_sizes@.take(j as int + 1) =~= chroma.object_sizes@.take(j as int).push(
            chroma.object_sizes@[j as int],
        ));
        j = j + 1;
    }
    assert(chroma.object_sizes@.take(chroma.object_sizes@.len() as int) =~= chroma.object_sizes@);
    let moved = DmaBufPlane {
        object_index: chroma_plane.object_index + luma.object_sizes.len(),
        offset: chroma_plane.offset,
        stride: chroma_plane.stride,
        modifier: chroma_plane.modifier,
    };
    let planes = vec![luma_plane, moved];
    Ok(DmaBufLayout { size, format: DRM_FORMAT_NV12, object_sizes, planes })
}

/// Why a decoded plane cannot be described.
#[derive(Debug, Clone, Copy, PartialEq, Eq)]
pub enum DecodedPlaneError {
    /// The plane's first byte is not in exactly one memory object.
    SpansMemories { count: usize },
    OffsetOverflow,
    OffsetTooLarge,
    NegativeStride,
}

/// The plane of a decoded frame whose first byte lies in the `memory_count`
/// memory objects from `memory_start`, `skip` bytes into the first of them,
/// which itself starts `memory_offset` bytes into its DMA-BUF.
pub fn decoded_plane(
    memory_start: usize,
    memory_count: usize,
    memory_offset: usize,
    skip: usize,
    stride: i32,
    modifier: u64,
) -> (r: Result<DmaBufPlane, DecodedPlaneError>)
    ensures
        match r {
            Ok(plane) => memory_count == 1 && memory_offset + skip <= u32::MAX && stride >= 0
                && plane == (DmaBufPlane {
                object_index: memory_start,
                offset: (memory_offset + skip) as u32,
                stride: stride as u32,
                modifier,
            }),
            Err(DecodedPlaneError::SpansMemories { count }) => count == memory_count && memory_count
                != 1,
            Err(DecodedPlaneError::OffsetOverflow) => memory_count == 1 && memory_offset + skip
                > usize::MAX,
            Err(DecodedPlaneError::OffsetTooLarge) => memory_count == 1 && memory_offset + skip
                <= usize::MAX && memory_offset + skip > u32::MAX,
            Err(DecodedPlaneError::NegativeStride) => memory_count == 1 && memory_offset + skip
                <= u32::MAX && stride < 0,
        },
{
    if memory_count != 1 {
        return Err(DecodedPlaneError::SpansMemories { count: memory_count });
    }
    let offset = match memory_offset.checked_add(skip) {
        Some(o) => o,
        None => return Err(DecodedPlaneError::OffsetOverflow),
    };
    if offset > 0xffff_ffff {
        return Err(DecodedPlaneError::OffsetTooLarge);
    }
    if stride < 0 {
        return Err(DecodedPlaneError::NegativeStride);
    }
    Ok(
        DmaBufPlane {
            object_index: memory_start,
            offset: offset as u32,
            stride: stride as u32,
            modifier,
        },
    )
}


/// The plane `decoded_plane` describes; see there.
pub open spec fn spec_decoded_plane(location: DecodedPlaneLocation, modifier: u64) -> Result<
    DmaBufPlane,
    DecodedPlaneError,
> {
    if location.memory_count != 1 {
        Err(DecodedPlaneError::SpansMemories { count: location.memory_count })
    } else if location.memory_offset + location.skip > usize::MAX {
        Err(DecodedPlaneError::OffsetOverflow)
    } else if location.memory_offset + location.skip > u32::MAX {
        Err(DecodedPlaneError::OffsetTooLarge)
    } else if location.stride < 0 {
        Err(DecodedPlaneError::NegativeStride)
    } else {
        Ok(
            DmaBufPlane {
                object_index: location.memory_start,
                offset: (location.memory_offset + location.skip) as u32,
                stride: location.stride as u32,
                modifier,
            },
        )
    }
}

/// Where the first byte of a decoded plane lies: in the `memory_count`
/// memory objects from `memory_start`, `skip` bytes into the first, which
/// starts `memory_offset` bytes into its DMA-BUF; and the plane's stride.
#[derive(Debug, Clone, Copy, PartialEq, Eq)]
pub struct DecodedPlaneLocation {
    pub memory_start: usize,
    pub memory_count: usize,
    pub memory_offset: usize,
    pub skip: usize,
    pub stride: i32,
}

/// Why a decoded frame cannot be described as a DMA-BUF layout.
#[derive(Debug, Clone, Copy, PartialEq, Eq)]
pub enum DecodedFrameError {
    NoPlanes,
    NoMemoryObjects,
    Plane { plane_index: usize, error: DecodedPlaneError },
}

/// The first `count` planes of a decoded frame, or the error of the first
/// plane that cannot be described.
pub open spec fn spec_decoded_planes(locations: Seq<DecodedPlaneLocation>, count: int, modifier: u64) -> Result<
    Seq<DmaBufPlane>,
    DecodedFrameError,
>
    decreases count,
{
    if count <= 0 {
        Ok(Seq::empty())
    } else {
        match spec_decoded_planes(locations, count - 1, modifier) {
            Err(e) => Err(e),
            Ok(before) => match spec_decoded_plane(locations[count - 1], modifier) {
                Err(error) => Err(DecodedFrameError::Plane { plane_index: (count - 1) as usize, error }),
                Ok(plane) => Ok(before.push(plane)),
            },
        }
    }
}

proof fn lemma_decoded_plane_error_persists(locations: Seq<DecodedPlaneLocation>, k: int, m: int, modifier: u64)
    requires
        1 <= k <= m,
        spec_decoded_planes(locations, k, modifier) is Err,
    ensures
        spec_decoded_planes(locations, m, modifier) == spec_decoded_planes(locations, k, modifier),
    decreases m - k,
{
    if m > k {
        lemma_decoded_plane_error_persists(locations, k, m - 1, modifier);
    }
}

/// The layout of a frame a decoder produced: a frame without planes or
/// without memory objects is refused, then each plane is located in order,
/// all sharing the frame's modifier.
pub fn decoded_frame_layout(
    size: PixelSize,
    format: u32,
    modifier: u64,
    object_sizes: Vec<usize>,
    locations: &[DecodedPlaneLocation],
) -> (r: Result<DmaBufLayout, DecodedFrameError>)
    ensures
        locations@.len() == 0 ==> r == Err::<DmaBufLayout, DecodedFrameError>(DecodedFrameError::NoPlanes),
        locations@.len() > 0 && object_sizes@.len() == 0 ==> r == Err::<DmaBufLayout, DecodedFrameError>(
            DecodedFrameError::NoMemoryObjects,
        ),
        locations@.len() > 0 && object_sizes@.len() > 0 ==> match spec_decoded_planes(
            locations@,
            locations@.len() as int,
            modifier,
        ) {
            Err(e) => r == Err::<DmaBufLayout, DecodedFrameError>(e),
            Ok(planes) => r matches Ok(layout) && layout.size == size && layout.format == format
                && layout.object_sizes@ == object_sizes@ && layout.planes@ == planes,
        },
{
    if locations.len() == 0 {
        return Err(DecodedFrameError::NoPlanes);
    }
    if object_sizes.len() == 0 {
        return Err(DecodedFrameError::NoMemoryObjects);
    }
    let mut planes: Vec<DmaBufPlane> = Vec::new();
    let mut i: usize = 0;
    while i < locations.len()
        invariant
            i <= locations@.len(),
            object_sizes@.len() > 0,
            spec_decoded_planes(locations@, i as int, modifier) == Ok::<Seq<DmaBufPlane>, DecodedFrameError>(planes@),
        decreases locations@.len() - i,
    {
        let location = locations[i];
        match decoded_plane(
            location.memory_start,
            location.memory_count,
            location.memory_offset,
            location.skip,
            location.stride,
            modifier,
        ) {
            Ok(plane) => {
                planes.push(plane);
            },
            Err(error) => {
                proof {
                    lemma_decoded_plane_error_persists(locations@, i as int + 1, locations@.len() as int, modifier);
                }
                return Err(DecodedFrameError::Plane { plane_index: i, error });
            },
        }
        i = i + 1;
    }
    Ok(DmaBufLayout { size, format, object_sizes, planes })
}

} // verus!
