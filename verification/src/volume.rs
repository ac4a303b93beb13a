//! Description of one loaded 3D scan, and the rules that decide whether a
//! scan file can be loaded at all.
//!
//! The voxel samples themselves never enter this crate: they go straight
//! from the decoder to the GPU.  What the view logic reads — the shape, the
//! physical spacing and the mask flag — is held here, with the spacing in
//! fixed-point milliunits per voxel step.

use vstd::prelude::*;

verus! {

/// Largest accepted spacing, in milliunits per voxel (one million units).
pub const SPACING_MAX: i64 = 1_000_000_000;

/// An immutable description of one loaded volume.
#[derive(Clone, Copy, Debug, PartialEq, Eq)]
pub struct Image3D {
    /// Voxel counts `(nx, ny, nz)`; the sample buffer the decoder hands the
    /// GPU is `nx * ny * nz` scalars with x varying fastest.
    pub shape: (u32, u32, u32),
    /// Physical distance per voxel along each axis, in milliunits; positive.
    pub spacing: (i64, i64, i64),
    /// True for a label/segmentation volume, false for an intensity volume.
    pub is_mask: bool,
}

/// Why a load attempt was rejected.
#[derive(Clone, Copy, Debug, PartialEq, Eq, Structural)]
pub enum LoadError {
    /// The file name carries no recognized scan-container suffix.
    UnsupportedFormat,
    /// The stored voxel datatype has no conversion to the working scalar.
    UnsupportedSampleType,
}

/// The voxel count of `v` along `axis`.
pub open spec fn dim_spec(v: Image3D, axis: int) -> int {
    if axis == 0 {
        v.shape.0 as int
    } else if axis == 1 {
        v.shape.1 as int
    } else {
        v.shape.2 as int
    }
}

/// The spacing of `v` along `axis`, in milliunits.
pub open spec fn spacing_spec(v: Image3D, axis: int) -> int {
    if axis == 0 {
        v.spacing.0 as int
    } else if axis == 1 {
        v.spacing.1 as int
    } else {
        v.spacing.2 as int
    }
}

impl Image3D {
    /// Each spacing component is positive and small enough that scaling it
    /// by `SCALE` stays far inside the `i64` range.
    pub open spec fn wf(self) -> bool {
        &&& 1 <= self.spacing.0 <= SPACING_MAX
        &&& 1 <= self.spacing.1 <= SPACING_MAX
        &&& 1 <= self.spacing.2 <= SPACING_MAX
    }

    pub fn new(shape: (u32, u32, u32), spacing: (i64, i64, i64), is_mask: bool) -> (r: Image3D)
        requires
            1 <= spacing.0 <= SPACING_MAX,
            1 <= spacing.1 <= SPACING_MAX,
            1 <= spacing.2 <= SPACING_MAX,
        ensures
            r == (Image3D { shape, spacing, is_mask }),
            r.wf(),
    {
        Image3D { shape, spacing, is_mask }
    }

    /// The voxel count along `axis`.
    pub fn dim(&self, axis: u32) -> (r: u32)
        requires
            axis < 3,
        ensures
            r as int == dim_spec(*self, axis as int),
    {
        match axis {
            0 => self.shape.0,
            1 => self.shape.1,
            _ => self.shape.2,
        }
    }
}

/// `s` ends in `suffix`.
pub open spec fn has_suffix(s: Seq<u8>, suffix: Seq<u8>) -> bool {
    &&& s.len() >= suffix.len()
    &&& s.subrange(s.len() - suffix.len(), s.len() as int) == suffix
}

pub open spec fn nii_suffix() -> Seq<u8> {
    seq![46u8, 110u8, 105u8, 105u8]
}

pub open spec fn nii_gz_suffix() -> Seq<u8> {
    seq![110u8, 105u8, 105u8, 46u8, 103u8, 122u8]
}

pub open spec fn hdr_gz_suffix() -> Seq<u8> {
    seq![104u8, 100u8, 114u8, 46u8, 103u8, 122u8]
}

/// The file name (as bytes) carries one of the recognized scan-container
/// suffixes: `.nii`, `nii.gz` or `hdr.gz`.
pub open spec fn supported_scan_name_spec(s: Seq<u8>) -> bool {
    ||| has_suffix(s, nii_suffix())
    ||| has_suffix(s, nii_gz_suffix())
    ||| has_suffix(s, hdr_gz_suffix())
}

/// What loading a scan decides, before any sample is decoded: rejected
/// names and sample types, and otherwise whether the datatype marks the
/// volume as a mask.
pub open spec fn validate_scan_spec(name: Seq<u8>, datatype: i16) -> Result<bool, LoadError> {
    if !supported_scan_name_spec(name) {
        Err(LoadError::UnsupportedFormat)
    } else {
        classify_datatype_spec(datatype)
    }
}

/// The datatype codes with a defined conversion to the working scalar:
/// code 4 (16-bit integers) decodes as an intensity image, code 64
/// (64-bit floating point) as a mask.
pub open spec fn classify_datatype_spec(datatype: i16) -> Result<bool, LoadError> {
    if datatype == 4 {
        Ok(false)
    } else if datatype == 64 {
        Ok(true)
    } else {
        Err(LoadError::UnsupportedSampleType)
    }
}

fn ends_with_bytes(name: &Vec<u8>, suffix: &Vec<u8>) -> (r: bool)
    ensures
        r == has_suffix(name@, suffix@),
{
    if name.len() < suffix.len() {
        return false;
    }
    let start: usize = name.len() - suffix.len();
    let mut i: usize = 0;
    while i < suffix.len()
        invariant
            0 <= i <= suffix@.len(),
            start == name@.len() - suffix@.len(),
            name@.len() >= suffix@.len(),
            name@.len() <= usize::MAX,
            forall|j: int| 0 <= j < i ==> name@[start + j] == suffix@[j],
        decreases suffix@.len() - i,
    {
        assert(start + i < name@.len());
        if name[start + i] != suffix[i] {
            assert(name@.subrange(start as int, name@.len() as int)[i as int] != suffix@[i as int]);
            return false;
        }
        i += 1;
    }
    proof {
        assert(name@.subrange(start as int, name@.len() as int) =~= suffix@);
    }
    true
}

/// The file name (as bytes) carries a recognized scan-container suffix.
pub fn supported_scan_name(name: &Vec<u8>) -> (r: bool)
    ensures
        r == supported_scan_name_spec(name@),
{
    let mut nii: Vec<u8> = Vec::new();
    nii.push(46);
    nii.push(110);
    nii.push(105);
    nii.push(105);
    let mut nii_gz: Vec<u8> = Vec::new();
    nii_gz.push(110);
    nii_gz.push(105);
    nii_gz.push(105);
    nii_gz.push(46);
    nii_gz.push(103);
    nii_gz.push(122);
    let mut hdr_gz: Vec<u8> = Vec::new();
    hdr_gz.push(104);
    hdr_gz.push(100);
    hdr_gz.push(114);
    hdr_gz.push(46);
    hdr_gz.push(103);
    hdr_gz.push(122);
    proof {
        assert(nii@ =~= nii_suffix());
        assert(nii_gz@ =~= nii_gz_suffix());
        assert(hdr_gz@ =~= hdr_gz_suffix());
    }
    ends_with_bytes(name, &nii) || ends_with_bytes(name, &nii_gz) || ends_with_bytes(
        name,
        &hdr_gz,
    )
}

/// Which volumes a stored datatype code decodes to: `Ok(is_mask)` for the
/// two supported codes, `Err` otherwise.
pub fn classify_datatype(datatype: i16) -> (r: Result<bool, LoadError>)
    ensures
        r == classify_datatype_spec(datatype),
{
    if datatype == 4 {
        Ok(false)
    } else if datatype == 64 {
        Ok(true)
    } else {
        Err(LoadError::UnsupportedSampleType)
    }
}

/// Decide a load request from the file name and the stored datatype code:
/// `Ok(is_mask)` exactly when both are supported, and otherwise the error
/// naming what was not.
pub fn validate_scan(name: &Vec<u8>, datatype: i16) -> (r: Result<bool, LoadError>)
    ensures
        r == validate_scan_spec(name@, datatype),
{
    if !supported_scan_name(name) {
        Err(LoadError::UnsupportedFormat)
    } else {
        classify_datatype(datatype)
    }
}

} // verus!
