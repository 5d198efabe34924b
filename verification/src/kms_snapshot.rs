//! One snapshot of the planes scanned out on a CRTC: the planes that show
//! something, bottom to top, and the planes that could not be inspected.
use vstd::prelude::*;
use crate::kms_plane::{
    KmsCursorHotspot, KmsPlaneBlend, KmsPlaneColor, KmsPlanePlacement, KmsPlaneProperties,
    KmsPlaneType, KmsPropertyError,
};

verus! {

broadcast use {vstd::seq_lib::to_multiset_build, vstd::seq_lib::to_multiset_insert};

/// A plane that can be attached to the captured CRTC.
#[derive(Debug, Clone, Copy, PartialEq, Eq)]
pub struct KnownPlane {
    pub id: u32,
    pub plane_type: KmsPlaneType,
}

/// What querying one known plane found.
#[derive(Debug, Clone, Copy, PartialEq, Eq)]
pub enum PlaneState {
    /// The plane itself could not be queried.
    QueryFailed,
    /// The plane is on another CRTC or shows no framebuffer.
    Inactive,
    /// The plane shows `framebuffer` on the CRTC; its properties, if they
    /// could be read.
    Active { framebuffer: u32, properties: Result<KmsPlaneProperties, KmsPropertyError> },
}

/// A plane that shows a framebuffer on the captured CRTC.
#[derive(Debug, Clone, Copy, PartialEq, Eq)]
pub struct KmsActivePlane {
    pub id: u32,
    pub plane_type: KmsPlaneType,
    pub framebuffer: u32,
    pub placement: KmsPlanePlacement,
    pub blend: KmsPlaneBlend,
    pub color: KmsPlaneColor,
    pub cursor_hotspot: Option<KmsCursorHotspot>,
}

/// Why a plane is missing from a snapshot.
#[derive(Debug, Clone, Copy, PartialEq, Eq)]
pub enum KmsPlaneIssueKind {
    QueryPlane,
    Property(KmsPropertyError),
}

/// A plane that could not be captured.
#[derive(Debug, Clone, Copy, PartialEq, Eq)]
pub struct KmsPlaneIssue {
    pub plane_id: u32,
    pub plane_type: KmsPlaneType,
    pub error: KmsPlaneIssueKind,
}

/// The active plane that a known plane contributes, if any: it shows a
/// framebuffer, its properties could be read, and it has a visible placement.
pub open spec fn spec_active_plane(known: KnownPlane, state: PlaneState) -> Option<KmsActivePlane> {
    match state {
        PlaneState::Active { framebuffer, properties: Ok(p) } => match p.placement {
            Some(placement) => Some(
                KmsActivePlane {
                    id: known.id,
                    plane_type: p.plane_type,
                    framebuffer,
                    placement,
                    blend: p.blend,
                    color: p.color,
                    cursor_hotspot: p.cursor_hotspot,
                },
            ),
            None => None,
        },
        _ => None,
    }
}

/// The issue that a known plane contributes, if any.
pub open spec fn spec_plane_issue(known: KnownPlane, state: PlaneState) -> Option<KmsPlaneIssue> {
    match state {
        PlaneState::QueryFailed => Some(
            KmsPlaneIssue {
                plane_id: known.id,
                plane_type: known.plane_type,
                error: KmsPlaneIssueKind::QueryPlane,
            },
        ),
        PlaneState::Active { properties: Err(e), .. } => Some(
            KmsPlaneIssue {
                plane_id: known.id,
                plane_type: known.plane_type,
                error: KmsPlaneIssueKind::Property(e),
            },
        ),
        _ => None,
    }
}

/// The active planes among the first `n` known planes, in plane order.
pub open spec fn spec_active_planes(known: Seq<KnownPlane>, states: Seq<PlaneState>, n: int) -> Seq<
    KmsActivePlane,
>
    decreases n,
{
    if n <= 0 {
        Seq::empty()
    } else {
        let rest = spec_active_planes(known, states, n - 1);
        match spec_active_plane(known[n - 1], states[n - 1]) {
            Some(v) => rest.push(v),
            None => rest,
        }
    }
}

/// The issues of the first `n` known planes, in plane order.
pub open spec fn spec_plane_issues(known: Seq<KnownPlane>, states: Seq<PlaneState>, n: int) -> Seq<
    KmsPlaneIssue,
>
    decreases n,
{
    if n <= 0 {
        Seq::empty()
    } else {
        let rest = spec_plane_issues(known, states, n - 1);
        match spec_plane_issue(known[n - 1], states[n - 1]) {
            Some(v) => rest.push(v),
            None => rest,
        }
    }
}

/// Whether plane `a` is drawn below plane `b`: lower z position, then lower id.
pub open spec fn spec_below(a: KmsActivePlane, b: KmsActivePlane) -> bool {
    a.placement.zpos < b.placement.zpos || (a.placement.zpos == b.placement.zpos && a.id <= b.id)
}

/// Assembles a snapshot from what querying each known plane found
/// (`states[i]` for `known[i]`): the active planes ordered by z position then
/// id, and the issues in plane order.
pub fn assemble_plane_snapshot(known: &[KnownPlane], states: &[PlaneState]) -> (r: (
    Vec<KmsActivePlane>,
    Vec<KmsPlaneIssue>,
))
    requires
        known@.len() == states@.len(),
    ensures
        r.0@.to_multiset() == spec_active_planes(known@, states@, known@.len() as int).to_multiset(),
        forall|i: int, j: int| 0 <= i < j < r.0@.len() ==> spec_below(#[trigger] r.0@[i], #[trigger] r.0@[j]),
        r.1@ == spec_plane_issues(known@, states@, known@.len() as int),
{
    let mut planes: Vec<KmsActivePlane> = Vec::new();
    let mut issues: Vec<KmsPlaneIssue> = Vec::new();
    let mut i: usize = 0;
    while i < known.len()
        invariant
            i <= known@.len(),
            known@.len() == states@.len(),
            planes@.to_multiset() == spec_active_planes(known@, states@, i as int).to_multiset(),
            forall|a: int, b: int| 0 <= a < b < planes@.len() ==> spec_below(#[trigger] planes@[a], #[trigger] planes@[b]),
            issues@ == spec_plane_issues(known@, states@, i as int),
        decreases known@.len() - i,
    {
        let k = known[i];
        match states[i] {
            PlaneState::QueryFailed => {
                issues.push(KmsPlaneIssue { plane_id: k.id, plane_type: k.plane_type, error: KmsPlaneIssueKind::QueryPlane });
            },
            PlaneState::Inactive => {},
            PlaneState::Active { framebuffer, properties } => {
                match properties {
                    Err(e) => {
                        issues.push(KmsPlaneIssue { plane_id: k.id, plane_type: k.plane_type, error: KmsPlaneIssueKind::Property(e) });
                    },
                    Ok(p) => {
                        match p.placement {
                            None => {},
                            Some(placement) => {
                                let plane = KmsActivePlane {
                                    id: k.id,
                                    plane_type: p.plane_type,
                                    framebuffer,
                                    placement,
                                    blend: p.blend,
                                    color: p.color,
                                    cursor_hotspot: p.cursor_hotspot,
                                };
                                let mut pos: usize = 0;
                                while pos < planes.len() && (planes[pos].placement.zpos < plane.placement.zpos
                                    || (planes[pos].placement.zpos == plane.placement.zpos && planes[pos].id <= plane.id))
                                    invariant
                                        pos <= planes@.len(),
                                        forall|a: int| 0 <= a < pos ==> spec_below(#[trigger] planes@[a], plane),
                                    decreases planes@.len() - pos,
                                {
                                    pos = pos + 1;
                                }
                                proof {
                                    assert forall|b: int| pos <= b < planes@.len() implies spec_below(plane, #[trigger] planes@[b]) by {
                                        assert(!spec_below(planes@[pos as int], plane));
                                        if b > pos {
                                            assert(spec_below(planes@[pos as int], planes@[b]));
                                        }
                                    }
                                }
                                let ghost before = planes@;
                                planes.insert(pos, plane);
                                proof {
                                    assert forall|a: int, b: int| 0 <= a < b < planes@.len() implies spec_below(#[trigger] planes@[a], #[trigger] planes@[b]) by {
                                        if b < pos {
                                            assert(planes@[a] == before[a] && planes@[b] == before[b]);
                                        } else if b == pos {
                                            assert(planes@[a] == before[a]);
                                        } else if a < pos {
                                            assert(planes@[a] == before[a] && planes@[b] == before[b - 1]);
                                        } else if a == pos {
                                            assert(planes@[b] == before[b - 1]);
                                        } else {
                                            assert(planes@[a] == before[a - 1] && planes@[b] == before[b - 1]);
                                        }
                                    }
                                }
                            },
                        }
                    },
                }
            },
        }
        i = i + 1;
    }
    (planes, issues)
}

} // verus!
