//! Importing DMA-BUF frames into EGL: the attribute list handed to
//! `eglCreateImage` for a `EGL_LINUX_DMA_BUF_EXT` image, the color hints of
//! YUV planes, and the lookup of an extension in an extension string.
use vstd::prelude::*;
use vstd::string::StringSliceAdditionalSpecFns;
use crate::dma_buf::{DmaBufPlane, DRM_FORMAT_MOD_INVALID};
use crate::geometry::PixelSize;
use crate::kms_plane::{KmsColorEncoding, KmsColorRange, KmsPlaneColor};
use crate::video_caps::{
    ITU_REC2020_EXT, ITU_REC601_EXT, ITU_REC709_EXT, SAMPLE_RANGE_HINT_EXT, YUV_COLOR_SPACE_HINT_EXT,
    YUV_FULL_RANGE_EXT, YUV_NARROW_RANGE_EXT,
};

verus! {

/// `EGL_WIDTH`.
pub const EGL_WIDTH: usize = 0x3057;
/// `EGL_HEIGHT`.
pub const EGL_HEIGHT: usize = 0x3056;
/// `EGL_NONE`, which ends an attribute list.
pub const EGL_NONE: usize = 0x3038;
/// `EGL_LINUX_DRM_FOURCC_EXT`.
pub const LINUX_DRM_FOURCC_EXT: usize = 0x3271;
/// Most planes an EGL DMA-BUF import describes.
pub const MAX_EGL_DMA_BUF_PLANES: usize = 4;

/// `EGL_DMA_BUF_PLANEn_FD_EXT`.
pub open spec fn spec_plane_fd_token(plane: int) -> usize {
    if plane == 0 { 0x3272 } else if plane == 1 { 0x3275 } else if plane == 2 { 0x3278 } else { 0x3440 }
}

/// `EGL_DMA_BUF_PLANEn_OFFSET_EXT`.
pub open spec fn spec_plane_offset_token(plane: int) -> usize {
    if plane == 0 { 0x3273 } else if plane == 1 { 0x3276 } else if plane == 2 { 0x3279 } else { 0x3441 }
}

/// `EGL_DMA_BUF_PLANEn_PITCH_EXT`.
pub open spec fn spec_plane_pitch_token(plane: int) -> usize {
    if plane == 0 { 0x3274 } else if plane == 1 { 0x3277 } else if plane == 2 { 0x327A } else { 0x3442 }
}

/// `EGL_DMA_BUF_PLANEn_MODIFIER_LO_EXT`.
pub open spec fn spec_plane_modifier_lo_token(plane: int) -> usize {
    if plane == 0 { 0x3443 } else if plane == 1 { 0x3445 } else if plane == 2 { 0x3447 } else { 0x3449 }
}

/// `EGL_DMA_BUF_PLANEn_MODIFIER_HI_EXT`.
pub open spec fn spec_plane_modifier_hi_token(plane: int) -> usize {
    if plane == 0 { 0x3444 } else if plane == 1 { 0x3446 } else if plane == 2 { 0x3448 } else { 0x344A }
}

fn plane_tokens(plane: usize) -> (t: (usize, usize, usize, usize, usize))
    requires
        plane < MAX_EGL_DMA_BUF_PLANES,
    ensures
        t == (
            spec_plane_fd_token(plane as int),
            spec_plane_offset_token(plane as int),
            spec_plane_pitch_token(plane as int),
            spec_plane_modifier_lo_token(plane as int),
            spec_plane_modifier_hi_token(plane as int),
        ),
{
    if plane == 0 {
        (0x3272, 0x3273, 0x3274, 0x3443, 0x3444)
    } else if plane == 1 {
        (0x3275, 0x3276, 0x3277, 0x3445, 0x3446)
    } else if plane == 2 {
        (0x3278, 0x3279, 0x327A, 0x3447, 0x3448)
    } else {
        (0x3440, 0x3441, 0x3442, 0x3449, 0x344A)
    }
}

/// The EGL color-space hint of a KMS color encoding.
pub fn color_space_hint(encoding: KmsColorEncoding) -> (hint: usize)
    ensures
        hint == (match encoding {
            KmsColorEncoding::Bt601 => ITU_REC601_EXT,
            KmsColorEncoding::Bt709 => ITU_REC709_EXT,
            KmsColorEncoding::Bt2020 => ITU_REC2020_EXT,
        }),
{
    match encoding {
        KmsColorEncoding::Bt601 => ITU_REC601_EXT,
        KmsColorEncoding::Bt709 => ITU_REC709_EXT,
        KmsColorEncoding::Bt2020 => ITU_REC2020_EXT,
    }
}

/// The EGL sample-range hint of a KMS color range.
pub fn sample_range_hint(range: KmsColorRange) -> (hint: usize)
    ensures
        hint == (match range {
            KmsColorRange::Limited => YUV_NARROW_RANGE_EXT,
            KmsColorRange::Full => YUV_FULL_RANGE_EXT,
        }),
{
    match range {
        KmsColorRange::Limited => YUV_NARROW_RANGE_EXT,
        KmsColorRange::Full => YUV_FULL_RANGE_EXT,
    }
}

/// Why a DMA-BUF frame cannot be described to EGL.
#[derive(Debug, Clone, Copy, PartialEq, Eq)]
pub enum EglImportError {
    MissingDmaBufPlanes,
    TooManyDmaBufPlanes { count: usize, maximum: usize },
    /// A plane names a memory object the frame does not have.
    MissingDmaBufObject { plane_index: usize, object_index: usize },
    /// A plane carries an explicit modifier but the display cannot import
    /// modifiers.
    UnsupportedFormat { format: u32, modifier: u64 },
}

/// The low 32 bits of a modifier.
pub open spec fn spec_modifier_lo(modifier: u64) -> usize {
    (modifier % 0x1_0000_0000) as usize
}

/// The high 32 bits of a modifier.
pub open spec fn spec_modifier_hi(modifier: u64) -> usize {
    (modifier / 0x1_0000_0000) as usize
}

/// The attributes of plane `index`: its file descriptor, offset and pitch,
/// then the modifier in two halves when the plane has an explicit one.
pub open spec fn spec_plane_attributes(
    index: int,
    plane: DmaBufPlane,
    format: u32,
    object_fds: Seq<i32>,
    supports_modifiers: bool,
) -> Result<Seq<usize>, EglImportError> {
    if plane.object_index >= object_fds.len() {
        Err(EglImportError::MissingDmaBufObject { plane_index: index as usize, object_index: plane.object_index })
    } else {
        let base = seq![
            spec_plane_fd_token(index),
            object_fds[plane.object_index as int] as usize,
            spec_plane_offset_token(index),
            plane.offset as usize,
            spec_plane_pitch_token(index),
            plane.stride as usize,
        ];
        if plane.modifier == DRM_FORMAT_MOD_INVALID {
            Ok(base)
        } else if !supports_modifiers {
            Err(EglImportError::UnsupportedFormat { format, modifier: plane.modifier })
        } else {
            Ok(
                base + seq![
                    spec_plane_modifier_lo_token(index),
                    spec_modifier_lo(plane.modifier),
                    spec_plane_modifier_hi_token(index),
                    spec_modifier_hi(plane.modifier),
                ],
            )
        }
    }
}

/// The attributes of the first `count` planes, in plane order; the first
/// plane that cannot be described decides the error.
pub open spec fn spec_planes_attributes(
    planes: Seq<DmaBufPlane>,
    count: int,
    format: u32,
    object_fds: Seq<i32>,
    supports_modifiers: bool,
) -> Result<Seq<usize>, EglImportError>
    decreases count,
{
    if count <= 0 {
        Ok(Seq::empty())
    } else {
        match spec_planes_attributes(planes, count - 1, format, object_fds, supports_modifiers) {
            Err(e) => Err(e),
            Ok(before) => match spec_plane_attributes(
                count - 1,
                planes[count - 1],
                format,
                object_fds,
                supports_modifiers,
            ) {
                Err(e) => Err(e),
                Ok(attributes) => Ok(before + attributes),
            },
        }
    }
}

/// The attributes before the planes: size and format, then the color hints
/// when given.
pub open spec fn spec_import_prefix(size: PixelSize, format: u32, color: Option<KmsPlaneColor>) -> Seq<usize> {
    seq![EGL_WIDTH, size.width as usize, EGL_HEIGHT, size.height as usize, LINUX_DRM_FOURCC_EXT, format as usize]
        + match color {
        Some(c) => seq![
            YUV_COLOR_SPACE_HINT_EXT,
            match c.encoding {
                KmsColorEncoding::Bt601 => ITU_REC601_EXT,
                KmsColorEncoding::Bt709 => ITU_REC709_EXT,
                KmsColorEncoding::Bt2020 => ITU_REC2020_EXT,
            },
            SAMPLE_RANGE_HINT_EXT,
            match c.range {
                KmsColorRange::Limited => YUV_NARROW_RANGE_EXT,
                KmsColorRange::Full => YUV_FULL_RANGE_EXT,
            },
        ],
        None => Seq::empty(),
    }
}

/// The attribute list that imports a DMA-BUF frame: size and format, the
/// color hints when given, each plane's attributes, and `EGL_NONE`.
pub open spec fn spec_import_attributes(
    size: PixelSize,
    format: u32,
    planes: Seq<DmaBufPlane>,
    object_fds: Seq<i32>,
    color: Option<KmsPlaneColor>,
    supports_modifiers: bool,
) -> Result<Seq<usize>, EglImportError> {
    if planes.len() == 0 {
        Err(EglImportError::MissingDmaBufPlanes)
    } else if planes.len() > MAX_EGL_DMA_BUF_PLANES {
        Err(EglImportError::TooManyDmaBufPlanes { count: planes.len() as usize, maximum: MAX_EGL_DMA_BUF_PLANES })
    } else {
        match spec_planes_attributes(planes, planes.len() as int, format, object_fds, supports_modifiers) {
            Err(e) => Err(e),
            Ok(plane_attributes) => Ok(spec_import_prefix(size, format, color) + plane_attributes + seq![EGL_NONE]),
        }
    }
}

proof fn lemma_plane_error_persists(
    planes: Seq<DmaBufPlane>,
    k: int,
    m: int,
    format: u32,
    object_fds: Seq<i32>,
    supports_modifiers: bool,
)
    requires
        1 <= k <= m,
        spec_planes_attributes(planes, k, format, object_fds, supports_modifiers) is Err,
    ensures
        spec_planes_attributes(planes, m, format, object_fds, supports_modifiers) == spec_planes_attributes(
            planes,
            k,
            format,
            object_fds,
            supports_modifiers,
        ),
    decreases m - k,
{
    if m > k {
        lemma_plane_error_persists(planes, k, m - 1, format, object_fds, supports_modifiers);
    }
}

fn split_modifier(modifier: u64) -> (halves: (usize, usize))
    ensures
        halves.0 == spec_modifier_lo(modifier),
        halves.1 == spec_modifier_hi(modifier),
{
    let lo = modifier as u32;
    let hi = (modifier >> 32u64) as u32;
    assert(lo == modifier % 0x1_0000_0000) by (bit_vector)
        requires
            lo == modifier as u32,
    ;
    assert(hi == modifier / 0x1_0000_0000) by (bit_vector)
        requires
            hi == (modifier >> 32u64) as u32,
    ;
    (lo as usize, hi as usize)
}

fn push_plane_attributes(
    attributes: &mut Vec<usize>,
    index: usize,
    plane: DmaBufPlane,
    format: u32,
    object_fds: &[i32],
    supports_modifiers: bool,
) -> (r: Result<(), EglImportError>)
    requires
        index < MAX_EGL_DMA_BUF_PLANES,
    ensures
        match spec_plane_attributes(index as int, plane, format, object_fds@, supports_modifiers) {
            Ok(added) => r is Ok && final(attributes)@ == old(attributes)@ + added,
            Err(e) => r == Err::<(), EglImportError>(e),
        },
{
    if plane.object_index >= object_fds.len() {
        return Err(EglImportError::MissingDmaBufObject { plane_index: index, object_index: plane.object_index });
    }
    if plane.modifier != DRM_FORMAT_MOD_INVALID && !supports_modifiers {
        return Err(EglImportError::UnsupportedFormat { format, modifier: plane.modifier });
    }
    let (fd_token, offset_token, pitch_token, lo_token, hi_token) = plane_tokens(index);
    let ghost before = attributes@;
    attributes.push(fd_token);
    attributes.push(#[verifier::truncate] (object_fds[plane.object_index] as usize));
    attributes.push(offset_token);
    attributes.push(plane.offset as usize);
    attributes.push(pitch_token);
    attributes.push(plane.stride as usize);
    let ghost base = seq![
        spec_plane_fd_token(index as int),
        object_fds@[plane.object_index as int] as usize,
        spec_plane_offset_token(index as int),
        plane.offset as usize,
        spec_plane_pitch_token(index as int),
        plane.stride as usize,
    ];
    assert(attributes@ =~= before + base);
    if plane.modifier != DRM_FORMAT_MOD_INVALID {
        let (lo, hi) = split_modifier(plane.modifier);
        attributes.push(lo_token);
        attributes.push(lo);
        attributes.push(hi_token);
        attributes.push(hi);
        assert(attributes@ =~= before + (base + seq![
            spec_plane_modifier_lo_token(index as int),
            spec_modifier_lo(plane.modifier),
            spec_plane_modifier_hi_token(index as int),
            spec_modifier_hi(plane.modifier),
        ]));
    }
    Ok(())
}

/// The attribute list that imports a frame of `size` and `format` with the
/// given planes into EGL; `object_fds` holds the file descriptor of each
/// memory object. See `spec_import_attributes`.
pub fn dma_buf_import_attributes(
    size: PixelSize,
    format: u32,
    planes: &[DmaBufPlane],
    object_fds: &[i32],
    color: Option<KmsPlaneColor>,
    supports_modifiers: bool,
) -> (r: Result<Vec<usize>, EglImportError>)
    ensures
        match r {
            Ok(attributes) => spec_import_attributes(size, format, planes@, object_fds@, color, supports_modifiers)
                == Ok::<Seq<usize>, EglImportError>(attributes@),
            Err(e) => spec_import_attributes(size, format, planes@, object_fds@, color, supports_modifiers)
                == Err::<Seq<usize>, EglImportError>(e),
        },
{
    if planes.len() == 0 {
        return Err(EglImportError::MissingDmaBufPlanes);
    }
    if planes.len() > MAX_EGL_DMA_BUF_PLANES {
        return Err(EglImportError::TooManyDmaBufPlanes { count: planes.len(), maximum: MAX_EGL_DMA_BUF_PLANES });
    }
    let mut attributes: Vec<usize> = vec![
        EGL_WIDTH,
        size.width as usize,
        EGL_HEIGHT,
        size.height as usize,
        LINUX_DRM_FOURCC_EXT,
        format as usize,
    ];
    if let Some(c) = color {
        attributes.push(YUV_COLOR_SPACE_HINT_EXT);
        attributes.push(color_space_hint(c.encoding));
        attributes.push(SAMPLE_RANGE_HINT_EXT);
        attributes.push(sample_range_hint(c.range));
    }
    let ghost prefix = attributes@;
    assert(prefix =~= spec_import_prefix(size, format, color));
    let mut i: usize = 0;
    while i < planes.len()
        invariant
            i <= planes@.len() <= MAX_EGL_DMA_BUF_PLANES,
            prefix == spec_import_prefix(size, format, color),
            spec_planes_attributes(planes@, i as int, format, object_fds@, supports_modifiers) matches Ok(done)
                && attributes@ == prefix + done,
        decreases planes@.len() - i,
    {
        let ghost done = attributes@.skip(prefix.len() as int);
        proof {
            assert(prefix + done =~= attributes@);
        }
        let ghost before = attributes@;
        match push_plane_attributes(&mut attributes, i, planes[i], format, object_fds, supports_modifiers) {
            Ok(()) => {},
            Err(e) => {
                proof {
                    lemma_plane_error_persists(planes@, i as int + 1, planes@.len() as int, format, object_fds@, supports_modifiers);
                }
                return Err(e);
            },
        }
        proof {
            let added = attributes@.skip(before.len() as int);
            assert(attributes@ =~= before + added);
            assert(prefix + (done + added) =~= attributes@);
        }
        i = i + 1;
    }
    let ghost planes_done = attributes@;
    attributes.push(EGL_NONE);
    proof {
        let done = spec_planes_attributes(planes@, planes@.len() as int, format, object_fds@, supports_modifiers)->Ok_0;
        assert(planes_done == prefix + done);
        assert(attributes@ =~= prefix + done + seq![EGL_NONE]);
    }
    Ok(attributes)
}

/// The pieces of `s` between ASCII whitespace bytes, as `split` yields them:
/// empty pieces included, and one piece for an empty string.
pub open spec fn spec_whitespace_pieces(s: Seq<u8>) -> Seq<Seq<u8>>
    decreases s.len(),
{
    if s.len() == 0 {
        seq![Seq::empty()]
    } else {
        let rest = spec_whitespace_pieces(s.drop_last());
        if spec_is_ascii_whitespace(s.last()) {
            rest.push(Seq::empty())
        } else {
            rest.update(rest.len() - 1, rest.last().push(s.last()))
        }
    }
}

/// ASCII whitespace as Rust's `u8::is_ascii_whitespace` defines it: space,
/// tab, line feed, form feed and carriage return.
pub open spec fn spec_is_ascii_whitespace(b: u8) -> bool {
    b == 0x20 || b == 0x09 || b == 0x0A || b == 0x0C || b == 0x0D
}

proof fn lemma_pieces_nonempty(s: Seq<u8>)
    ensures
        spec_whitespace_pieces(s).len() >= 1,
    decreases s.len(),
{
    if s.len() > 0 {
        lemma_pieces_nonempty(s.drop_last());
    }
}

fn bytes_equal(a: &[u8], b: &[u8]) -> (r: bool)
    ensures
        r == (a@ == b@),
{
    if a.len() != b.len() {
        return false;
    }
    let mut i: usize = 0;
    while i < a.len()
        invariant
            a@.len() == b@.len(),
            i <= a@.len(),
            forall|j: int| 0 <= j < i ==> a@[j] == b@[j],
        decreases a@.len() - i,
    {
        if a[i] != b[i] {
            return false;
        }
        i = i + 1;
    }
    assert(a@ =~= b@);
    true
}

/// Whether `expected` is one of the whitespace-separated names of an EGL
/// extension string.
pub fn has_extension(extensions: &[u8], expected: &str) -> (r: bool)
    ensures
        r == spec_whitespace_pieces(extensions@).contains(expected.spec_bytes()),
{
    let wanted = expected.as_bytes();
    let mut piece: Vec<u8> = Vec::new();
    let mut found = false;
    let mut i: usize = 0;
    while i < extensions.len()
        invariant
            i <= extensions@.len(),
            wanted@ == expected.spec_bytes(),
            spec_whitespace_pieces(extensions@.take(i as int)).len() >= 1,
            piece@ == spec_whitespace_pieces(extensions@.take(i as int)).last(),
            found == spec_whitespace_pieces(extensions@.take(i as int)).drop_last().contains(wanted@),
        decreases extensions@.len() - i,
    {
        let b = extensions[i];
        let ghost pieces = spec_whitespace_pieces(extensions@.take(i as int));
        proof {
            assert(extensions@.take(i as int + 1).drop_last() == extensions@.take(i as int));
            assert(extensions@.take(i as int + 1).last() == b);
        }
        if b == 0x20 || b == 0x09 || b == 0x0A || b == 0x0C || b == 0x0D {
            if bytes_equal(piece.as_slice(), wanted) {
                found = true;
            }
            piece = Vec::new();
            proof {
                let next = spec_whitespace_pieces(extensions@.take(i as int + 1));
                assert(next == pieces.push(Seq::<u8>::empty()));
                assert(next.drop_last() =~= pieces);
                assert(pieces =~= pieces.drop_last().push(pieces.last()));
                vstd::seq_lib::lemma_seq_contains_after_push(pieces.drop_last(), pieces.last(), wanted@);
            }
        } else {
            piece.push(b);
            proof {
                let next = spec_whitespace_pieces(extensions@.take(i as int + 1));
                assert(next == pieces.update(pieces.len() - 1, pieces.last().push(b)));
                assert(next.drop_last() =~= pieces.drop_last());
            }
        }
        i = i + 1;
    }
    proof {
        assert(extensions@.take(i as int) == extensions@);
    }
    let last = bytes_equal(piece.as_slice(), wanted);
    proof {
        let pieces = spec_whitespace_pieces(extensions@);
        assert(pieces =~= pieces.drop_last().push(pieces.last()));
        vstd::seq_lib::lemma_seq_contains_after_push(pieces.drop_last(), pieces.last(), wanted@);
    }
    found || last
}

} // verus!
