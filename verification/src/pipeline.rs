//! The resolution pipeline: classifies an input path into one of three
//! strategies and, step by step, tells the caller which external action to
//! perform next. The caller performs the action (a shell lookup, a file
//! read, a raw icon extraction) and feeds its outcome back in; every
//! decision between the actions is made and verified here.

use vstd::prelude::*;
use vstd::string::StringExecFns;
use crate::assets::first_match;
use crate::assets::asset_query_for;
use crate::assets::rel_dir_of;
use crate::assets::search_dir_spec;
use crate::assets::stem_of;
use crate::errors::IconError;
use crate::manifest::extract_icon_declaration;
use crate::manifest::icon_declaration_of;
use crate::paths::apps_container;
use crate::paths::find_package_root;
use crate::paths::last_segment;
use crate::paths::manifest_path_for;
use crate::paths::manifest_file_suffix;
use crate::paths::package_root_of;
use crate::shortcut::shortcut_target_or_fallback;
use crate::text::ends_with_spec;
use crate::text::matches_at;
use crate::text::trim_spec;
use crate::text::contains_pat;
use crate::text::ends_with_pat;

verus! {

/// The three resolution strategies an input path can fall under.
#[derive(Clone, Copy, Debug, PartialEq, Eq, Structural)]
pub enum IconSource {
    /// The path lies inside the apps-container layout: resolve through the
    /// package manifest.
    Packaged,
    /// The path names a shortcut file: resolve its target first.
    Shortcut,
    /// Any other path: extract the icon from the file itself.
    Direct,
}

/// The extension that marks a shortcut file.
pub open spec fn shortcut_suffix() -> Seq<char> {
    ".lnk"@
}

/// The path contains the apps-container marker segment somewhere.
pub open spec fn contains_marker(p: Seq<char>) -> bool {
    exists|i: int| matches_at(p, apps_container(), i)
}

/// Which strategy a path falls under: the apps-container marker wins over
/// the shortcut extension, and everything else resolves directly.
pub open spec fn classify_spec(p: Seq<char>) -> IconSource {
    if contains_marker(p) {
        IconSource::Packaged
    } else if ends_with_spec(p, shortcut_suffix()) {
        IconSource::Shortcut
    } else {
        IconSource::Direct
    }
}

/// Classifies an input path into its resolution strategy.
pub fn classify_path(path: &str) -> (r: IconSource)
    ensures
        r == classify_spec(path@),
{
    if contains_pat(path, "WindowsApps") {
        proof {
            let w = choose|i: int| matches_at(path@, "WindowsApps"@, i);
            assert(matches_at(path@, apps_container(), w));
        }
        IconSource::Packaged
    } else if ends_with_pat(path, ".lnk") {
        proof {
            if contains_marker(path@) {
                let w = choose|i: int| matches_at(path@, apps_container(), i);
                assert(matches_at(path@, "WindowsApps"@, w));
            }
        }
        IconSource::Shortcut
    } else {
        proof {
            if contains_marker(path@) {
                let w = choose|i: int| matches_at(path@, apps_container(), i);
                assert(matches_at(path@, "WindowsApps"@, w));
            }
        }
        IconSource::Direct
    }
}

/// The next external action the caller must perform for resolution to move
/// forward, or the verdict that ends the request.
#[derive(Debug)]
pub enum PipeAction {
    /// Read the stored target of this shortcut file through shell
    /// indirection, then report the outcome to `on_shortcut_outcome`.
    ResolveShortcut(String),
    /// Read this manifest file as text, then report the outcome together
    /// with the package root to `on_manifest_text`.
    ReadManifest {
        /// The manifest file directly under the package root.
        manifest_path: String,
        /// The package root it belongs to.
        package_root: String,
    },
    /// List the files under `directory` whose names start with `stem` and
    /// end with the image extension, then hand the listing to
    /// `on_asset_listing`.
    ListAssets {
        /// The absolute directory to list.
        directory: String,
        /// The filename stem a match must start with.
        stem: String,
    },
    /// Extract the icon directly from this file with the platform primitive.
    LoadDirectIcon(String),
    /// Read this resolved asset file and decode it as an image.
    LoadIconFile(String),
    /// Resolution failed with this error.
    Fail(IconError),
}

/// What the first action for input path `p` must be, by strategy: packaged
/// paths go to their manifest (or fail when no ancestor sits under the apps
/// container), shortcut paths go to target resolution, and the rest load
/// directly.
pub open spec fn initial_action_ok(a: PipeAction, p: Seq<char>) -> bool {
    match classify_spec(p) {
        IconSource::Packaged => match package_root_of(p) {
            None => (a matches PipeAction::Fail(e) && e == IconError::PackageRootNotFound),
            Some(root) => (a matches PipeAction::ReadManifest { manifest_path, package_root }
                && package_root@ == root && manifest_path@ == root + manifest_file_suffix()),
        },
        IconSource::Shortcut => (a matches PipeAction::ResolveShortcut(s) && s@ == p),
        IconSource::Direct => (a matches PipeAction::LoadDirectIcon(s) && s@ == p),
    }
}

/// Starts a resolution request for a path and returns the first action.
pub fn start_resolution(path: &str) -> (a: PipeAction)
    ensures
        initial_action_ok(a, path@),
{
    match classify_path(path) {
        IconSource::Packaged => match find_package_root(path) {
            None => PipeAction::Fail(IconError::PackageRootNotFound),
            Some(root) => {
                let manifest_path = manifest_path_for(root.as_str());
                PipeAction::ReadManifest { manifest_path, package_root: root }
            },
        },
        IconSource::Shortcut => PipeAction::ResolveShortcut(String::from_str(path)),
        IconSource::Direct => PipeAction::LoadDirectIcon(String::from_str(path)),
    }
}

/// Starts a resolution request for the executable path that a process id
/// was mapped to. A process id adds nothing beyond its path lookup: this
/// promises exactly what `start_resolution` promises of the same path, so
/// both entries take the same code path from here on.
pub fn start_resolution_for_process(resolved_path: &str) -> (a: PipeAction)
    ensures
        initial_action_ok(a, resolved_path@),
{
    start_resolution(resolved_path)
}

/// Continues after a shortcut-target read: the trimmed target on success,
/// the original path on failure, and either way the icon is loaded directly
/// from the chosen path. The resolved target is not re-classified against
/// the apps-container marker; that mirrors the documented behavior.
pub fn on_shortcut_outcome(original_path: &str, target: Option<&str>) -> (a: PipeAction)
    ensures
        (a matches PipeAction::LoadDirectIcon(s) && (match target {
            Some(t) => s@ == trim_spec(t@),
            None => s@ == original_path@,
        })),
{
    PipeAction::LoadDirectIcon(shortcut_target_or_fallback(original_path, target))
}

/// Continues after the manifest read: an unreadable manifest fails the
/// request, and otherwise the declared icon path is extracted and turned
/// into the asset search to run next.
pub fn on_manifest_text(package_root: &str, text: Option<&str>) -> (a: PipeAction)
    ensures
        (match text {
            None => (a matches PipeAction::Fail(e) && e == IconError::ManifestRead),
            Some(m) => match icon_declaration_of(m@) {
                None => (a matches PipeAction::Fail(e) && e == IconError::IconDeclarationNotFound),
                Some(decl) => (a matches PipeAction::ListAssets { directory, stem } && directory@
                    == search_dir_spec(package_root@, rel_dir_of(decl)) && stem@ == stem_of(
                    last_segment(decl),
                )),
            },
        }),
{
    match text {
        None => PipeAction::Fail(IconError::ManifestRead),
        Some(m) => match extract_icon_declaration(m) {
            Err(e) => PipeAction::Fail(e),
            Ok(decl) => {
                let q = asset_query_for(decl.as_str(), package_root);
                PipeAction::ListAssets { directory: q.directory, stem: q.stem }
            },
        },
    }
}

/// Continues after the asset listing: the first listed file wins, and an
/// empty listing fails the request.
pub fn on_asset_listing(listing: &Vec<String>) -> (a: PipeAction)
    ensures
        listing@.len() == 0 ==> (a matches PipeAction::Fail(e) && e
            == IconError::IconAssetNotFound),
        listing@.len() > 0 ==> (a matches PipeAction::LoadIconFile(s) && s@ == listing@[0]@),
{
    match first_match(listing) {
        Ok(s) => PipeAction::LoadIconFile(s),
        Err(e) => PipeAction::Fail(e),
    }
}

} // verus!
