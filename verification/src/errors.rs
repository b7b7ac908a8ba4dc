//! The failure kinds that icon resolution can report.

use vstd::prelude::*;

verus! {

/// Every way a resolution request can fail. Each stage reports its own kind
/// and the pipeline hands it to the caller unchanged; only shortcut-target
/// resolution is recovered internally and never surfaces as an error.
#[derive(Clone, Copy, Debug, PartialEq, Eq, Structural)]
pub enum IconError {
    /// The process id could not be mapped to an executable path.
    ProcessLookup,
    /// No ancestor of the given path sits directly under the apps container.
    PackageRootNotFound,
    /// The package manifest file could not be read as text.
    ManifestRead,
    /// The manifest holds no visual-elements block with a square logo entry.
    IconDeclarationNotFound,
    /// The asset directory holds no file matching the declared stem.
    IconAssetNotFound,
    /// An external shell invocation failed or could not be started.
    ExternalProcess,
    /// The platform could not extract a raw icon resource from the file.
    IconExtraction,
    /// The bitmap could not be serialized as PNG.
    ImageEncode,
    /// The bytes could not be decoded back into a bitmap or binary payload.
    ImageDecode,
}

impl IconError {
    /// A short, stable description of the failure kind.
    pub fn describe(&self) -> (r: &'static str)
        ensures
            r@.len() > 0,
    {
        let r: &'static str = match self {
            IconError::ProcessLookup => "process lookup failed",
            IconError::PackageRootNotFound => "package root not found",
            IconError::ManifestRead => "manifest not readable",
            IconError::IconDeclarationNotFound => "icon declaration not found",
            IconError::IconAssetNotFound => "icon asset not found",
            IconError::ExternalProcess => "external process failed",
            IconError::IconExtraction => "icon extraction failed",
            IconError::ImageEncode => "image encoding failed",
            IconError::ImageDecode => "image decoding failed",
        };
        proof {
            reveal_strlit("process lookup failed");
            reveal_strlit("package root not found");
            reveal_strlit("manifest not readable");
            reveal_strlit("icon declaration not found");
            reveal_strlit("icon asset not found");
            reveal_strlit("external process failed");
            reveal_strlit("icon extraction failed");
            reveal_strlit("image encoding failed");
            reveal_strlit("image decoding failed");
        }
        r
    }
}

} // verus!
