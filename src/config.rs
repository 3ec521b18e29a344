//! The manifest as a launcher reads it back.
use vstd::prelude::*;
use crate::manifest::{manifest_of, opt_view, BuildRequest, Manifest};
use crate::quardle::Error;

verus! {

/// The fields of a manifest file, as decoded, before they are checked.
pub struct QuarkConfig {
    pub quardle: String,
    pub kernel: String,
    pub initramfs: String,
    pub kernel_cmdline: String,
    pub image: String,
    pub kaps: String,
    pub offline: bool,
    pub bundle: Option<String>,
}

/// `c` and `m` hold the same fields.
pub open spec fn same_fields(c: &QuarkConfig, m: &Manifest) -> bool {
    &&& c.quardle@ == m.quardle@
    &&& c.kernel@ == m.kernel@
    &&& c.initramfs@ == m.initramfs@
    &&& c.kernel_cmdline@ == m.kernel_cmdline@
    &&& c.image@ == m.image@
    &&& c.kaps@ == m.kaps@
    &&& c.offline == m.offline
    &&& opt_view(c.bundle) == opt_view(m.bundle)
}

/// A decoded manifest is consistent when it names a bundle exactly in
/// offline mode.
pub open spec fn consistent(c: &QuarkConfig) -> bool {
    c.bundle is Some <==> c.offline
}

impl QuarkConfig {
    /// The fields of a manifest, as they are written out.
    pub fn from_manifest(m: &Manifest) -> (r: QuarkConfig)
        ensures
            same_fields(&r, m),
    {
        let bundle = match &m.bundle {
            Some(b) => Some(b.clone()),
            None => None,
        };
        QuarkConfig {
            quardle: m.quardle.clone(),
            kernel: m.kernel.clone(),
            initramfs: m.initramfs.clone(),
            kernel_cmdline: m.kernel_cmdline.clone(),
            image: m.image.clone(),
            kaps: m.kaps.clone(),
            offline: m.offline,
            bundle,
        }
    }

    /// The manifest these fields describe; a serialization error when they
    /// name a bundle outside offline mode, or none in offline mode.
    pub fn into_manifest(self) -> (r: Result<Manifest, Error>)
        ensures
            r is Ok <==> consistent(&self),
            r matches Ok(m) ==> same_fields(&self, &m),
            r matches Err(e) ==> e == Error::Serialization,
    {
        if self.bundle.is_some() != self.offline {
            return Err(Error::Serialization);
        }
        Ok(Manifest {
            quardle: self.quardle,
            kernel: self.kernel,
            initramfs: self.initramfs,
            kernel_cmdline: self.kernel_cmdline,
            image: self.image,
            kaps: self.kaps,
            offline: self.offline,
            bundle: self.bundle,
        })
    }
}

/// The fields written out for the manifest of any request read back as a
/// consistent record, so decoding them yields a manifest with the same
/// fields as the one the build used.
pub proof fn lemma_written_fields_read_back(req: &BuildRequest, m: &Manifest, c: &QuarkConfig)
    requires
        manifest_of(req, m),
        same_fields(c, m),
    ensures
        consistent(c),
{
}

} // verus!
