//! Exporting KMS framebuffers as DMA-BUF frames: how the up to four planes of
//! a framebuffer map to memory objects, which failures make plane capture
//! impossible, and the reference counts that decide when a GEM handle is
//! closed.
use vstd::prelude::*;
use std::collections::HashMap;
use crate::dma_buf::DmaBufPlane;
use crate::kms_plane::KmsPlaneType;

verus! {

broadcast use {vstd::std_specs::hash::group_hash_axioms, vstd::seq_lib::group_seq_properties};

/// Why a plane of the current frame could not be captured.
#[derive(Debug, Clone, Copy, PartialEq, Eq)]
pub enum KmsPlaneCaptureError {
    QueryPlane,
    QueryFramebuffer,
    ExportBuffer { object_index: usize },
    QueryBufferSize { object_index: usize },
    CloneCachedBuffer,
    CloseBuffer { object_index: usize },
    /// The kernel returned no GEM handle for a framebuffer plane.
    MissingBufferHandle { plane_index: usize },
    /// The plane moved to another CRTC or framebuffer during capture.
    SnapshotChanged,
}

/// Whether a plane's export errors mean the process may not read
/// framebuffers at all: a primary plane without a GEM handle. Capture then
/// fails as a whole instead of reporting a plane issue.
pub fn primary_framebuffer_handle_is_unavailable(
    plane_type: KmsPlaneType,
    errors: &[KmsPlaneCaptureError],
) -> (r: bool)
    ensures
        r == (plane_type == KmsPlaneType::Primary && exists|i: int|
            0 <= i < errors@.len() && (#[trigger] errors@[i]) is MissingBufferHandle),
{
    match plane_type {
        KmsPlaneType::Primary => {},
        _ => return false,
    }
    let mut i: usize = 0;
    while i < errors.len()
        invariant
            i <= errors@.len(),
            plane_type == KmsPlaneType::Primary,
            forall|j: int| 0 <= j < i ==> !((#[trigger] errors@[j]) is MissingBufferHandle),
        decreases errors@.len() - i,
    {
        match errors[i] {
            KmsPlaneCaptureError::MissingBufferHandle { .. } => {
                assert(errors@[i as int] is MissingBufferHandle);
                return true;
            },
            _ => {},
        }
        i = i + 1;
    }
    false
}

/// What the kernel reports of a framebuffer: per plane an optional GEM
/// handle, a pitch and an offset, and one modifier.
#[derive(Debug, Clone, Copy, PartialEq, Eq)]
pub struct FramebufferDescriptor {
    pub width: u32,
    pub height: u32,
    pub format: u32,
    pub handles: [Option<u32>; 4],
    pub pitches: [u32; 4],
    pub offsets: [u32; 4],
    pub modifier: u64,
}

/// The planes of a framebuffer as DMA-BUF planes, the distinct GEM handles
/// in order of first use (one memory object each), and the first plane whose
/// missing handle is an error.
#[derive(Debug, Clone)]
pub struct FramebufferPlanes {
    pub handles: Vec<u32>,
    pub planes: Vec<DmaBufPlane>,
    pub missing_handle: Option<usize>,
}

/// Number of leading planes that have a handle.
pub open spec fn spec_plane_count(handles: Seq<Option<u32>>) -> int
    decreases handles.len(),
{
    if handles.len() == 0 || handles[0] is None {
        0
    } else {
        1 + spec_plane_count(handles.drop_first())
    }
}

/// The distinct values of `s` in order of first occurrence.
pub open spec fn spec_distinct(s: Seq<u32>) -> Seq<u32>
    decreases s.len(),
{
    if s.len() == 0 {
        Seq::empty()
    } else {
        let rest = spec_distinct(s.drop_last());
        if rest.contains(s.last()) {
            rest
        } else {
            rest.push(s.last())
        }
    }
}

/// The handle of each of the first `n` planes.
pub open spec fn spec_handles(handles: Seq<Option<u32>>, n: int) -> Seq<u32> {
    Seq::new(n as nat, |i: int| handles[i]->0)
}

/// Whether `planes` describes the first `n` planes of `d` over the memory
/// objects `objects`: each plane uses the object of its handle.
pub open spec fn spec_planes_match(d: FramebufferDescriptor, n: int, objects: Seq<u32>, planes: Seq<DmaBufPlane>) -> bool {
    &&& planes.len() == n
    &&& forall|p: int|
        0 <= p < n ==> {
            &&& (#[trigger] planes[p]).object_index < objects.len()
            &&& objects[planes[p].object_index as int] == d.handles@[p]->0
            &&& planes[p].offset == d.offsets@[p]
            &&& planes[p].stride == d.pitches@[p]
            &&& planes[p].modifier == d.modifier
        }
}

/// Maps the planes of a framebuffer to memory objects; planes end at the
/// first plane without a handle, which is an error for the first plane or
/// when that plane has a pitch.
pub fn framebuffer_planes(d: &FramebufferDescriptor) -> (r: FramebufferPlanes)
    ensures
        ({
            let n = spec_plane_count(d.handles@);
            &&& r.handles@ == spec_distinct(spec_handles(d.handles@, n))
            &&& spec_planes_match(*d, n, r.handles@, r.planes@)
            &&& r.missing_handle == (if n < 4 && (n == 0 || d.pitches@[n] != 0) {
                Some(n as usize)
            } else {
                None::<usize>
            })
        }),
{
    let mut handles: Vec<u32> = Vec::new();
    let mut planes: Vec<DmaBufPlane> = Vec::new();
    let mut p: usize = 0;
    let ghost hs = d.handles@;
    proof {
        lemma_plane_count_bounds(hs);
    }
    while p < 4
        invariant
            hs == d.handles@,
            hs.len() == 4,
            p <= 4,
            forall|j: int| 0 <= j < p ==> (#[trigger] hs[j]) is Some,
            p <= spec_plane_count(hs) || (forall|j: int| 0 <= j < p ==> (#[trigger] hs[j]) is Some),
            handles@ == spec_distinct(spec_handles(hs, p as int)),
            spec_planes_match(*d, p as int, handles@, planes@),
        decreases 4 - p,
    {
        let handle = match d.handles[p] {
            Some(h) => h,
            None => {
                proof {
                    lemma_plane_count_stops(hs, p as int);
                }
                let missing = if p == 0 || d.pitches[p] != 0 { Some(p) } else { None };
                return FramebufferPlanes { handles, planes, missing_handle: missing };
            },
        };
        let ghost prefix = spec_handles(hs, p as int);
        let ghost next = spec_handles(hs, p as int + 1);
        assert(next.drop_last() =~= prefix);
        assert(next.last() == handle);
        let mut k: usize = 0;
        while k < handles.len() && handles[k] != handle
            invariant
                k <= handles@.len(),
                forall|j: int| 0 <= j < k ==> handles@[j] != handle,
            decreases handles@.len() - k,
        {
            k = k + 1;
        }
        if k == handles.len() {
            assert(!handles@.contains(handle));
            handles.push(handle);
        } else {
            assert(handles@.contains(handle));
        }
        let ghost before_planes = planes@;
        planes.push(
            DmaBufPlane {
                object_index: k,
                offset: d.offsets[p],
                stride: d.pitches[p],
                modifier: d.modifier,
            },
        );
        proof {
            assert forall|q: int| 0 <= q < p + 1 implies {
                &&& (#[trigger] planes@[q]).object_index < handles@.len()
                &&& handles@[planes@[q].object_index as int] == d.handles@[q]->0
                &&& planes@[q].offset == d.offsets@[q]
                &&& planes@[q].stride == d.pitches@[q]
                &&& planes@[q].modifier == d.modifier
            } by {
                if q < p {
                    assert(planes@[q] == before_planes[q]);
                }
            }
        }
        p = p + 1;
    }
    proof {
        lemma_full_plane_count(hs);
    }
    FramebufferPlanes { handles, planes, missing_handle: None }
}

proof fn lemma_plane_count_bounds(hs: Seq<Option<u32>>)
    ensures
        0 <= spec_plane_count(hs) <= hs.len(),
        forall|j: int| 0 <= j < spec_plane_count(hs) ==> (#[trigger] hs[j]) is Some,
    decreases hs.len(),
{
    if hs.len() > 0 && hs[0] is Some {
        lemma_plane_count_bounds(hs.drop_first());
        assert forall|j: int| 0 <= j < spec_plane_count(hs) implies (#[trigger] hs[j]) is Some by {
            if j > 0 {
                assert(hs[j] == hs.drop_first()[j - 1]);
            }
        }
    }
}

proof fn lemma_plane_count_stops(hs: Seq<Option<u32>>, p: int)
    requires
        0 <= p < hs.len(),
        hs[p] is None,
        forall|j: int| 0 <= j < p ==> (#[trigger] hs[j]) is Some,
    ensures
        spec_plane_count(hs) == p,
    decreases p,
{
    if p > 0 {
        assert forall|j: int| 0 <= j < p - 1 implies (#[trigger] hs.drop_first()[j]) is Some by {
            assert(hs.drop_first()[j] == hs[j + 1]);
        }
        lemma_plane_count_stops(hs.drop_first(), p - 1);
    }
}

proof fn lemma_full_plane_count(hs: Seq<Option<u32>>)
    requires
        forall|j: int| 0 <= j < hs.len() ==> (#[trigger] hs[j]) is Some,
    ensures
        spec_plane_count(hs) == hs.len(),
    decreases hs.len(),
{
    if hs.len() > 0 {
        assert forall|j: int| 0 <= j < hs.len() - 1 implies (#[trigger] hs.drop_first()[j]) is Some by {
            assert(hs.drop_first()[j] == hs[j + 1]);
        }
        lemma_full_plane_count(hs.drop_first());
    }
}

/// Counts after one more use of each of `handles`, in order.
pub open spec fn spec_retain(counts: Map<u32, u64>, handles: Seq<u32>) -> Map<u32, u64>
    decreases handles.len(),
{
    if handles.len() == 0 {
        counts
    } else {
        let r = spec_retain(counts, handles.drop_last());
        let h = handles.last();
        r.insert(h, if r.contains_key(h) { (r[h] + 1) as u64 } else { 1 })
    }
}

/// Counts after one use fewer of each of `handles`, in order, and the handles
/// whose count reached zero. Handles without a count are left alone.
pub open spec fn spec_release(counts: Map<u32, u64>, handles: Seq<u32>) -> (Map<u32, u64>, Seq<u32>)
    decreases handles.len(),
{
    if handles.len() == 0 {
        (counts, Seq::empty())
    } else {
        let (r, closed) = spec_release(counts, handles.drop_last());
        let h = handles.last();
        if !r.contains_key(h) {
            (r, closed)
        } else if r[h] == 1 {
            (r.remove(h), closed.push(h))
        } else {
            (r.insert(h, (r[h] - 1) as u64), closed)
        }
    }
}

/// Retaining distinct handles adds one use to each of them and changes no
/// other count.
pub proof fn lemma_retain_key(counts: Map<u32, u64>, handles: Seq<u32>, h: u32)
    requires
        spec_no_duplicates(handles),
        forall|i: int|
            0 <= i < handles.len() && counts.contains_key(#[trigger] handles[i]) ==> counts[handles[i]]
                < u64::MAX,
    ensures
        spec_retain(counts, handles).contains_key(h) == (counts.contains_key(h) || handles.contains(h)),
        spec_retain(counts, handles).contains_key(h) ==> spec_retain(counts, handles)[h] == if handles.contains(h) {
            if counts.contains_key(h) { counts[h] + 1 } else { 1int }
        } else {
            counts[h] as int
        },
    decreases handles.len(),
{
    if handles.len() > 0 {
        let rest = handles.drop_last();
        let last = handles.last();
        assert(spec_no_duplicates(rest));
        assert forall|i: int|
            0 <= i < rest.len() && counts.contains_key(#[trigger] rest[i]) implies counts[rest[i]] < u64::MAX by {
            assert(rest[i] == handles[i]);
        }
        lemma_retain_key(counts, rest, h);
        lemma_retain_key(counts, rest, last);
        assert(!rest.contains(last)) by {
            if rest.contains(last) {
                let a = choose|a: int| 0 <= a < rest.len() && rest[a] == last;
                assert(handles[a] == handles[handles.len() - 1]);
            }
        }
        assert(handles =~= rest.push(last));
        assert(handles.contains(h) == (rest.contains(h) || h == last)) by {
            if handles.contains(h) {
                let a = choose|a: int| 0 <= a < handles.len() && handles[a] == h;
                if a < rest.len() {
                    assert(rest[a] == h);
                }
            }
            if rest.contains(h) {
                let a = choose|a: int| 0 <= a < rest.len() && rest[a] == h;
                assert(handles[a] == h);
            }
            if h == last {
                assert(handles[handles.len() - 1] == h);
            }
        }
        if counts.contains_key(last) {
            assert(counts[handles[handles.len() - 1]] < u64::MAX);
        }
    }
}

/// Whether no value occurs twice in `s`.
pub open spec fn spec_no_duplicates(s: Seq<u32>) -> bool {
    forall|i: int, j: int| 0 <= i < j < s.len() ==> s[i] != s[j]
}

/// Reference counts of the GEM handles that cached framebuffers keep open: a
/// handle is closed when the last cached framebuffer that uses it goes away.
pub struct HandleReferences {
    pub counts: HashMap<u32, u64>,
}

impl HandleReferences {
    /// Every handle in the table is in use.
    pub open spec fn wf(self) -> bool {
        forall|h: u32| #[trigger] self.counts@.contains_key(h) ==> self.counts@[h] > 0
    }

    pub fn new() -> (r: Self)
        ensures
            r.wf(),
            r.counts@ == Map::<u32, u64>::empty(),
    {
        HandleReferences { counts: HashMap::new() }
    }

    /// Whether `handle` is kept open by a cached framebuffer.
    pub fn is_referenced(&self, handle: u32) -> (r: bool)
        ensures
            r == self.counts@.contains_key(handle),
    {
        self.counts.contains_key(&handle)
    }

    /// Counts one more use of each of `handles`.
    pub fn retain(&mut self, handles: &[u32])
        requires
            old(self).wf(),
            spec_no_duplicates(handles@),
            forall|i: int|
                0 <= i < handles@.len() && old(self).counts@.contains_key(#[trigger] handles@[i])
                    ==> old(self).counts@[handles@[i]] < u64::MAX,
        ensures
            final(self).wf(),
            final(self).counts@ == spec_retain(old(self).counts@, handles@),
    {
        let mut i: usize = 0;
        while i < handles.len()
            invariant
                i <= handles@.len(),
                self.counts@ == spec_retain(old(self).counts@, handles@.take(i as int)),
                self.wf(),
                spec_no_duplicates(handles@),
                forall|k: int|
                    0 <= k < handles@.len() && old(self).counts@.contains_key(#[trigger] handles@[k])
                        ==> old(self).counts@[handles@[k]] < u64::MAX,
            decreases handles@.len() - i,
        {
            let h = handles[i];
            assert(handles@.take(i as int + 1).drop_last() =~= handles@.take(i as int));
            assert(handles@.take(i as int + 1).last() == h);
            proof {
                let t = handles@.take(i as int);
                assert(spec_no_duplicates(t));
                assert(!t.contains(h)) by {
                    if t.contains(h) {
                        let a = choose|a: int| 0 <= a < t.len() && t[a] == h;
                        assert(handles@[a] == handles@[i as int]);
                    }
                }
                lemma_retain_key(old(self).counts@, t, h);
            }
            let next: u64 = match self.counts.get(&h) {
                Some(count) => *count + 1,
                None => 1,
            };
            self.counts.insert(h, next);
            i = i + 1;
        }
        assert(handles@.take(handles@.len() as int) =~= handles@);
    }

    /// Counts one use fewer of each of `handles` and returns the handles no
    /// cached framebuffer uses any more, which the caller closes.
    pub fn release(&mut self, handles: &[u32]) -> (closed: Vec<u32>)
        requires
            old(self).wf(),
        ensures
            final(self).wf(),
            (final(self).counts@, closed@) == spec_release(old(self).counts@, handles@),
    {
        let mut closed: Vec<u32> = Vec::new();
        let mut i: usize = 0;
        while i < handles.len()
            invariant
                i <= handles@.len(),
                (self.counts@, closed@) == spec_release(old(self).counts@, handles@.take(i as int)),
                self.wf(),
            decreases handles@.len() - i,
        {
            let h = handles[i];
            assert(handles@.take(i as int + 1).drop_last() =~= handles@.take(i as int));
            assert(handles@.take(i as int + 1).last() == h);
            let current: Option<u64> = match self.counts.get(&h) {
                Some(count) => Some(*count),
                None => None,
            };
            match current {
                None => {},
                Some(count) => {
                    if count == 1 {
                        self.counts.remove(&h);
                        closed.push(h);
                    } else {
                        self.counts.insert(h, count - 1);
                    }
                },
            }
            i = i + 1;
        }
        assert(handles@.take(handles@.len() as int) =~= handles@);
        closed
    }

    /// The positions in `handles` of the handles no cached framebuffer keeps
    /// open, which the caller closes after a failed export.
    pub fn unreferenced(&self, handles: &[u32]) -> (r: Vec<usize>)
        ensures
            forall|k: int| 0 <= k < r@.len() ==> (#[trigger] r@[k]) < handles@.len(),
            forall|k: int, l: int| 0 <= k < l < r@.len() ==> #[trigger] r@[k] < #[trigger] r@[l],
            forall|i: int|
                0 <= i < handles@.len() ==> (r@.contains(i as usize) <==> !self.counts@.contains_key(
                    #[trigger] handles@[i],
                )),
    {
        let mut r: Vec<usize> = Vec::new();
        let mut i: usize = 0;
        while i < handles.len()
            invariant
                i <= handles@.len(),
                forall|k: int| 0 <= k < r@.len() ==> (#[trigger] r@[k]) < i,
                forall|k: int, l: int| 0 <= k < l < r@.len() ==> #[trigger] r@[k] < #[trigger] r@[l],
                forall|j: int|
                    0 <= j < i ==> (r@.contains(j as usize) <==> !self.counts@.contains_key(
                        #[trigger] handles@[j],
                    )),
            decreases handles@.len() - i,
        {
            let ghost old_r = r@;
            if !self.counts.contains_key(&handles[i]) {
                r.push(i);
            }
            proof {
                assert(!old_r.contains(i)) by {
                    if old_r.contains(i) {
                        let k = choose|k: int| 0 <= k < old_r.len() && old_r[k] == i;
                        assert(old_r[k] < i);
                    }
                }
                assert forall|j: int| 0 <= j < i + 1 implies (r@.contains(j as usize) <==> !self.counts@.contains_key(
                    #[trigger] handles@[j],
                )) by {
                    if j < i {
                        assert(old_r.contains(j as usize) <==> !self.counts@.contains_key(handles@[j]));
                        assert(r@.contains(j as usize) <==> old_r.contains(j as usize));
                    }
                }
            }
            i = i + 1;
        }
        r
    }
}

/// Releasing distinct handles takes one use from each of them that has a count,
/// drops the ones whose count was one, and reports those as closed.
pub proof fn lemma_release_key(counts: Map<u32, u64>, handles: Seq<u32>, h: u32)
    requires
        spec_no_duplicates(handles),
        forall|g: u32| #[trigger] counts.contains_key(g) ==> counts[g] > 0,
    ensures
        spec_release(counts, handles).0.contains_key(h) == (counts.contains_key(h) && !(
        handles.contains(h) && counts[h] == 1)),
        spec_release(counts, handles).0.contains_key(h) ==> spec_release(counts, handles).0[h] == if handles.contains(h) {
            counts[h] - 1
        } else {
            counts[h] as int
        },
        spec_release(counts, handles).1 == handles.filter(|g: u32| counts.contains_key(g) && counts[g] == 1),
    decreases handles.len(),
{
    reveal(Seq::filter);
    if handles.len() > 0 {
        let rest = handles.drop_last();
        let last = handles.last();
        assert(spec_no_duplicates(rest));
        lemma_release_key(counts, rest, h);
        lemma_release_key(counts, rest, last);
        assert(!rest.contains(last)) by {
            if rest.contains(last) {
                let a = choose|a: int| 0 <= a < rest.len() && rest[a] == last;
                assert(handles[a] == handles[handles.len() - 1]);
            }
        }
        assert(handles.contains(h) == (rest.contains(h) || h == last)) by {
            if handles.contains(h) {
                let a = choose|a: int| 0 <= a < handles.len() && handles[a] == h;
                if a < rest.len() {
                    assert(rest[a] == h);
                }
            }
            if rest.contains(h) {
                let a = choose|a: int| 0 <= a < rest.len() && rest[a] == h;
                assert(handles[a] == h);
            }
            if h == last {
                assert(handles[handles.len() - 1] == h);
            }
        }
    }
}

/// Filtering with two predicates that agree on the elements of `s` gives the
/// same sequence.
proof fn lemma_filter_agrees(s: Seq<u32>, p: spec_fn(u32) -> bool, q: spec_fn(u32) -> bool)
    requires
        forall|i: int| 0 <= i < s.len() ==> p(#[trigger] s[i]) == q(s[i]),
    ensures
        s.filter(p) == s.filter(q),
    decreases s.len(),
{
    reveal(Seq::filter);
    if s.len() > 0 {
        let rest = s.drop_last();
        assert forall|i: int| 0 <= i < rest.len() implies p(#[trigger] rest[i]) == q(rest[i]) by {
            assert(rest[i] == s[i]);
        }
        lemma_filter_agrees(rest, p, q);
        assert(p(s[s.len() - 1]) == q(s[s.len() - 1]));
    }
}

/// Releasing the handles of a framebuffer right after retaining them restores
/// every count, and closes exactly the handles that were not open before, in
/// their order.
pub proof fn release_undoes_retain(counts: Map<u32, u64>, handles: Seq<u32>)
    requires
        spec_no_duplicates(handles),
        forall|g: u32| #[trigger] counts.contains_key(g) ==> counts[g] > 0,
        forall|i: int|
            0 <= i < handles.len() && counts.contains_key(#[trigger] handles[i]) ==> counts[handles[i]]
                < u64::MAX,
    ensures
        spec_release(spec_retain(counts, handles), handles).0 == counts,
        spec_release(spec_retain(counts, handles), handles).1 == handles.filter(
            |g: u32| !counts.contains_key(g),
        ),
{
    let retained = spec_retain(counts, handles);
    assert forall|g: u32| #[trigger] retained.contains_key(g) implies retained[g] > 0 by {
        lemma_retain_key(counts, handles, g);
    }
    let released = spec_release(retained, handles);
    assert forall|g: u32| #[trigger] released.0.contains_key(g) == counts.contains_key(g) && (
    counts.contains_key(g) ==> released.0[g] == counts[g]) by {
        lemma_retain_key(counts, handles, g);
        lemma_release_key(retained, handles, g);
    }
    assert(released.0 =~= counts);
    lemma_release_key(retained, handles, 0);
    assert forall|i: int| 0 <= i < handles.len() implies (|g: u32| retained.contains_key(g) && retained[g] == 1)(
        #[trigger] handles[i],
    ) == (|g: u32| !counts.contains_key(g))(handles[i]) by {
        let g = handles[i];
        assert(handles.contains(g));
        lemma_retain_key(counts, handles, g);
    }
    lemma_filter_agrees(
        handles,
        |g: u32| retained.contains_key(g) && retained[g] == 1,
        |g: u32| !counts.contains_key(g),
    );
}

/// Whether two reports of a framebuffer describe the same memory: same size,
/// format, handles, pitches, offsets and modifier.
pub open spec fn spec_same_descriptor(a: FramebufferDescriptor, b: FramebufferDescriptor) -> bool {
    &&& a.width == b.width
    &&& a.height == b.height
    &&& a.format == b.format
    &&& a.handles@ == b.handles@
    &&& a.pitches@ == b.pitches@
    &&& a.offsets@ == b.offsets@
    &&& a.modifier == b.modifier
}

/// Whether two framebuffer reports describe the same memory.
pub fn same_descriptor(a: &FramebufferDescriptor, b: &FramebufferDescriptor) -> (r: bool)
    ensures
        r == spec_same_descriptor(*a, *b),
{
    if a.width != b.width || a.height != b.height || a.format != b.format || a.modifier != b.modifier {
        return false;
    }
    let mut i: usize = 0;
    while i < 4
        invariant
            i <= 4,
            forall|j: int| 0 <= j < i ==> a.handles@[j] == b.handles@[j] && a.pitches@[j]
                == b.pitches@[j] && a.offsets@[j] == b.offsets@[j],
        decreases 4 - i,
    {
        let same_handle = match (a.handles[i], b.handles[i]) {
            (Some(x), Some(y)) => x == y,
            (None, None) => true,
            _ => false,
        };
        if !same_handle || a.pitches[i] != b.pitches[i] || a.offsets[i] != b.offsets[i] {
            return false;
        }
        i = i + 1;
    }
    assert(a.handles@ =~= b.handles@);
    assert(a.pitches@ =~= b.pitches@);
    assert(a.offsets@ =~= b.offsets@);
    true
}

/// An exported framebuffer kept for reuse: what the kernel reported of it,
/// the GEM handles its memory objects came from, and the generation key that
/// names this export.
pub struct CachedFramebuffer {
    pub descriptor: FramebufferDescriptor,
    pub handles: Vec<u32>,
    pub key: u64,
}

/// The exports of framebuffers, by framebuffer id, and the generation key the
/// next export gets.
pub struct FramebufferCache {
    pub entries: HashMap<u32, CachedFramebuffer>,
    pub next_generation: u64,
}

/// The key of the cached export of `framebuffer`, when the kernel still
/// reports the same memory for it.
pub open spec fn spec_cached_key(
    entries: Map<u32, CachedFramebuffer>,
    framebuffer: u32,
    descriptor: FramebufferDescriptor,
) -> Option<u64> {
    if entries.contains_key(framebuffer) && spec_same_descriptor(entries[framebuffer].descriptor, descriptor) {
        Some(entries[framebuffer].key)
    } else {
        None
    }
}

/// The generation after `generation`, wrapping to 0 after the largest.
pub open spec fn spec_next_generation(generation: u64) -> u64 {
    if generation == u64::MAX {
        0
    } else {
        (generation + 1) as u64
    }
}

impl FramebufferCache {
    pub fn new() -> (c: Self)
        ensures
            c.entries@ == Map::<u32, CachedFramebuffer>::empty(),
            c.next_generation == 0,
    {
        FramebufferCache { entries: HashMap::new(), next_generation: 0 }
    }

    /// The cached export of `framebuffer` is reused when the kernel reports
    /// the same memory for it as when it was exported; the result is its key.
    /// Otherwise (not cached, or the memory changed) the framebuffer is
    /// exported anew.
    pub fn cached_key(&self, framebuffer: u32, descriptor: &FramebufferDescriptor) -> (r: Option<u64>)
        ensures
            r == spec_cached_key(self.entries@, framebuffer, *descriptor),
    {
        match self.entries.get(&framebuffer) {
            Some(entry) => {
                if same_descriptor(&entry.descriptor, descriptor) {
                    Some(entry.key)
                } else {
                    None
                }
            },
            None => None,
        }
    }

    /// Caches a new export of `framebuffer` under the next generation key,
    /// which then advances (wrapping). Returns the key and, when the
    /// framebuffer had an older export, the handles of that export, which the
    /// caller releases.
    pub fn insert(&mut self, framebuffer: u32, descriptor: FramebufferDescriptor, handles: Vec<u32>) -> (r: (
        u64,
        Option<Vec<u32>>,
    ))
        ensures
            r.0 == old(self).next_generation,
            final(self).next_generation == spec_next_generation(old(self).next_generation),
            final(self).entries@ == old(self).entries@.insert(
                framebuffer,
                CachedFramebuffer { descriptor, handles, key: r.0 },
            ),
            match r.1 {
                Some(replaced) => old(self).entries@.contains_key(framebuffer) && replaced@
                    == old(self).entries@[framebuffer].handles@,
                None => !old(self).entries@.contains_key(framebuffer),
            },
    {
        let key = self.next_generation;
        self.next_generation = if key == u64::MAX {
            0
        } else {
            key + 1
        };
        let replaced = self.entries.insert(framebuffer, CachedFramebuffer { descriptor, handles, key });
        match replaced {
            Some(entry) => (key, Some(entry.handles)),
            None => (key, None),
        }
    }

    /// Drops the cached export of a framebuffer that is no longer shown and
    /// returns its handles, which the caller releases.
    pub fn evict(&mut self, framebuffer: u32) -> (r: Option<Vec<u32>>)
        ensures
            final(self).entries@ == old(self).entries@.remove(framebuffer),
            final(self).next_generation == old(self).next_generation,
            match r {
                Some(handles) => old(self).entries@.contains_key(framebuffer) && handles@
                    == old(self).entries@[framebuffer].handles@,
                None => !old(self).entries@.contains_key(framebuffer),
            },
    {
        match self.entries.remove(&framebuffer) {
            Some(entry) => Some(entry.handles),
            None => None,
        }
    }
}

/// A framebuffer just exported is reused on the next capture while the kernel
/// reports the same memory for it, under the key it was exported with.
pub proof fn export_is_reused_while_unchanged(
    entries: Map<u32, CachedFramebuffer>,
    framebuffer: u32,
    descriptor: FramebufferDescriptor,
    handles: Vec<u32>,
    key: u64,
    later: FramebufferDescriptor,
)
    ensures
        spec_cached_key(
            entries.insert(framebuffer, CachedFramebuffer { descriptor, handles, key }),
            framebuffer,
            later,
        ) == if spec_same_descriptor(descriptor, later) {
            Some(key)
        } else {
            None::<u64>
        },
{
}

} // verus!
