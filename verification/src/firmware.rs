//! Firmware images and their validation metadata.
//!
//! A firmware image is a fixed-size binary blob that bootstraps the emulated
//! hardware. Recognition of a blob (a fingerprint lookup against the table of
//! known dumps) is performed by the emulation engine; this module fixes what
//! the rest of the system does with the outcome of that lookup: a candidate
//! is acceptable exactly when it was recognized, is not a known bad dump, and
//! matches the requested region.

use vstd::prelude::*;

verus! {

/// Exact byte length of every firmware image; no other length is accepted.
pub const BIOS_SIZE: usize = 512 * 1024;

/// Compatibility class of media and firmware (broadcast-standard variant).
#[derive(Clone, Copy, Debug, PartialEq, Eq, Structural)]
pub enum Region {
    NtscJ,
    NtscU,
    Pal,
}

/// Metadata derived deterministically from a recognized firmware image.
#[derive(Clone, Copy, Debug, PartialEq, Eq, Structural)]
pub struct FirmwareMetadata {
    pub region: Region,
    pub version_major: u8,
    pub version_minor: u8,
    /// True for dumps that are recognized but known to be defective; such an
    /// image is never used, whatever its region.
    pub known_bad: bool,
}

/// A validated firmware image: exactly `BIOS_SIZE` bytes plus the metadata
/// under which it was accepted. Constructed only by the locator, on
/// successful validation; read-only thereafter.
pub struct FirmwareImage {
    data: Vec<u8>,
    metadata: FirmwareMetadata,
}

impl FirmwareImage {
    /// The image's bytes.
    pub closed spec fn bytes(self) -> Seq<u8> {
        self.data@
    }

    /// The metadata under which the image was accepted.
    pub closed spec fn meta(self) -> FirmwareMetadata {
        self.metadata
    }

    /// A firmware image always holds exactly `BIOS_SIZE` bytes.
    pub closed spec fn wf(self) -> bool {
        self.data@.len() == BIOS_SIZE
    }

    pub(crate) fn from_parts(data: Vec<u8>, metadata: FirmwareMetadata) -> (img: FirmwareImage)
        requires
            data@.len() == BIOS_SIZE,
        ensures
            img.wf(),
            img.bytes() == data@,
            img.meta() == metadata,
    {
        FirmwareImage { data, metadata }
    }

    /// Read access to the image bytes.
    pub fn data(&self) -> (d: &Vec<u8>)
        ensures
            d@ == self.bytes(),
    {
        &self.data
    }

    /// The validated metadata.
    pub fn metadata(&self) -> (m: FirmwareMetadata)
        ensures
            m == self.meta(),
    {
        self.metadata
    }

    /// Byte length of the image; always `BIOS_SIZE`.
    pub fn len(&self) -> (n: usize)
        requires
            self.wf(),
        ensures
            n == BIOS_SIZE,
    {
        self.data.len()
    }
}

/// Whether the outcome of the engine's fingerprint lookup qualifies a
/// candidate for `region`: the blob was recognized, is not a known bad dump,
/// and its region matches.
pub open spec fn spec_accepts(region: Region, looked: Option<FirmwareMetadata>) -> bool {
    looked matches Some(md) && !md.known_bad && md.region == region
}

/// Acceptance decision over a lookup outcome, as `spec_accepts` states it.
/// Absence of recognition is a valid "not a match" outcome, never an error.
pub fn accepts(region: Region, looked: Option<FirmwareMetadata>) -> (r: bool)
    ensures
        r == spec_accepts(region, looked),
{
    match looked {
        Some(md) => !md.known_bad && md.region == region,
        None => false,
    }
}

/// A known bad dump is rejected even when its region matches exactly.
pub proof fn lemma_known_bad_rejected(region: Region, md: FirmwareMetadata)
    requires
        md.known_bad,
    ensures
        !spec_accepts(region, Some(md)),
{
}

/// A dump whose region differs from the requested one is rejected, sound or
/// not.
pub proof fn lemma_region_mismatch_rejected(region: Region, md: FirmwareMetadata)
    requires
        md.region != region,
    ensures
        !spec_accepts(region, Some(md)),
{
}

} // verus!
