use app_icon_resolver::assets::asset_query_for;
use app_icon_resolver::assets::first_match;
use app_icon_resolver::errors::IconError;
use app_icon_resolver::manifest::extract_icon_declaration;
use app_icon_resolver::paths::find_package_root;
use app_icon_resolver::paths::manifest_path_for;
use app_icon_resolver::paths::parent_dir;
use app_icon_resolver::paths::last_segment_of;
use app_icon_resolver::pipeline::classify_path;
use app_icon_resolver::pipeline::on_asset_listing;
use app_icon_resolver::pipeline::on_manifest_text;
use app_icon_resolver::pipeline::on_shortcut_outcome;
use app_icon_resolver::pipeline::start_resolution;
use app_icon_resolver::pipeline::start_resolution_for_process;
use app_icon_resolver::pipeline::IconSource;
use app_icon_resolver::pipeline::PipeAction;
use app_icon_resolver::shortcut::shortcut_target_or_fallback;
use app_icon_resolver::text::split_lines;
use app_icon_resolver::text::trim_ws;

#[test]
fn classify_direct_path() {
    assert_eq!(classify_path("C:\\Tools\\app.exe"), IconSource::Direct);
}

#[test]
fn classify_packaged_path() {
    assert_eq!(
        classify_path("C:\\Program Files\\WindowsApps\\Pkg_1.0\\App\\app.exe"),
        IconSource::Packaged
    );
}

#[test]
fn classify_shortcut_path() {
    assert_eq!(classify_path("C:\\Users\\u\\Desktop\\app.lnk"), IconSource::Shortcut);
}

#[test]
fn marker_takes_precedence_over_shortcut_extension() {
    assert_eq!(
        classify_path("C:\\Program Files\\WindowsApps\\Pkg_1.0\\x.lnk"),
        IconSource::Packaged
    );
}

#[test]
fn process_entry_matches_path_entry_on_direct_path() {
    let p = "C:\\Tools\\app.exe";
    let by_path = start_resolution(p);
    let by_process = start_resolution_for_process(p);
    match (by_path, by_process) {
        (PipeAction::LoadDirectIcon(a), PipeAction::LoadDirectIcon(b)) => assert_eq!(a, b),
        other => panic!("expected matching direct actions, got {:?}", other),
    }
}

#[test]
fn process_entry_matches_path_entry_on_shortcut_path() {
    let p = "C:\\Users\\u\\app.lnk";
    let by_path = start_resolution(p);
    let by_process = start_resolution_for_process(p);
    match (by_path, by_process) {
        (PipeAction::ResolveShortcut(a), PipeAction::ResolveShortcut(b)) => {
            assert_eq!(a, p);
            assert_eq!(b, p);
        },
        other => panic!("expected matching shortcut actions, got {:?}", other),
    }
}

#[test]
fn start_resolution_packaged_reads_manifest() {
    let a = start_resolution("C:\\Program Files\\WindowsApps\\Pkg_1.0\\App\\app.exe");
    match a {
        PipeAction::ReadManifest { manifest_path, package_root } => {
            assert_eq!(package_root, "C:\\Program Files\\WindowsApps\\Pkg_1.0");
            assert_eq!(
                manifest_path,
                "C:\\Program Files\\WindowsApps\\Pkg_1.0\\AppxManifest.xml"
            );
        },
        other => panic!("expected a manifest read, got {:?}", other),
    }
}

#[test]
fn start_resolution_fails_without_package_root() {
    let a = start_resolution("WindowsApps");
    match a {
        PipeAction::Fail(e) => assert_eq!(e, IconError::PackageRootNotFound),
        other => panic!("expected a failure, got {:?}", other),
    }
}

#[test]
fn ancestor_search_finds_package_root() {
    let root = find_package_root("C:\\Program Files\\WindowsApps\\Pkg_1.0\\App\\app.exe");
    assert_eq!(root.as_deref(), Some("C:\\Program Files\\WindowsApps\\Pkg_1.0"));
}

#[test]
fn ancestor_search_picks_closest_qualifying_ancestor() {
    let root = find_package_root("C:\\WindowsApps\\A\\WindowsApps\\B\\x.exe");
    assert_eq!(root.as_deref(), Some("C:\\WindowsApps\\A\\WindowsApps\\B"));
}

#[test]
fn ancestor_search_fails_off_layout() {
    assert_eq!(find_package_root("C:\\Tools\\app.exe"), None);
}

#[test]
fn parent_and_segment_walk() {
    assert_eq!(parent_dir("C:\\a\\b"), Some("C:\\a"));
    assert_eq!(parent_dir("plain"), None);
    assert_eq!(last_segment_of("C:\\a\\b"), "b");
    assert_eq!(last_segment_of("plain"), "plain");
}

#[test]
fn manifest_path_is_under_the_root() {
    assert_eq!(
        manifest_path_for("C:\\WindowsApps\\Pkg"),
        "C:\\WindowsApps\\Pkg\\AppxManifest.xml"
    );
}

const MANIFEST: &str = "<Package>\n  <Applications><Application>\n    <uap:VisualElements DisplayName=\"Demo\" Square150x150Logo=\"Assets\\Icon.png\" Square44x44Logo=\"Assets\\Small.png\">\n    </uap:VisualElements>\n  </Application></Applications>\n</Package>\n";

#[test]
fn manifest_extraction_declared_path() {
    assert_eq!(extract_icon_declaration(MANIFEST), Ok(String::from("Assets\\Icon.png")));
}

#[test]
fn manifest_extraction_full_scenario() {
    let root = "C:\\Program Files\\WindowsApps\\Pkg_1.0";
    let a = on_manifest_text(root, Some(MANIFEST));
    let (directory, stem) = match a {
        PipeAction::ListAssets { directory, stem } => (directory, stem),
        other => panic!("expected an asset listing, got {:?}", other),
    };
    assert_eq!(directory, "C:\\Program Files\\WindowsApps\\Pkg_1.0\\Assets");
    assert_eq!(stem, "Icon");
    let listing = vec![String::from(
        "C:\\Program Files\\WindowsApps\\Pkg_1.0\\Assets\\Icon.scale-200.png",
    )];
    match on_asset_listing(&listing) {
        PipeAction::LoadIconFile(p) => {
            assert_eq!(p, "C:\\Program Files\\WindowsApps\\Pkg_1.0\\Assets\\Icon.scale-200.png");
        },
        other => panic!("expected an icon file, got {:?}", other),
    }
}

#[test]
fn missing_declaration_is_an_error_not_a_crash() {
    assert_eq!(
        extract_icon_declaration("<Package>nothing visual here</Package>"),
        Err(IconError::IconDeclarationNotFound)
    );
}

#[test]
fn unreadable_manifest_fails() {
    match on_manifest_text("C:\\WindowsApps\\Pkg", None) {
        PipeAction::Fail(e) => assert_eq!(e, IconError::ManifestRead),
        other => panic!("expected a failure, got {:?}", other),
    }
}

#[test]
fn close_marker_without_open_marker_is_missing() {
    assert_eq!(
        extract_icon_declaration("</uap:VisualElements> and nothing else"),
        Err(IconError::IconDeclarationNotFound)
    );
}

#[test]
fn declaration_without_logo_attribute_is_missing() {
    let m = "<uap:VisualElements DisplayName=\"Demo\"></uap:VisualElements>";
    assert_eq!(extract_icon_declaration(m), Err(IconError::IconDeclarationNotFound));
}

#[test]
fn empty_logo_value_is_skipped_for_a_later_match() {
    let m = "<uap:VisualElements Square150x150Logo=\"\" Square150x150Logo=\"B.png\"></uap:VisualElements>";
    assert_eq!(extract_icon_declaration(m), Ok(String::from("B.png")));
}

#[test]
fn asset_query_with_bare_filename() {
    let q = asset_query_for("Icon", "C:\\WindowsApps\\Pkg");
    assert_eq!(q.directory, "C:\\WindowsApps\\Pkg");
    assert_eq!(q.stem, "Icon");
}

#[test]
fn asset_query_stem_stops_at_first_dot() {
    let q = asset_query_for("Assets\\Icon.scale.png", "C:\\WindowsApps\\Pkg");
    assert_eq!(q.directory, "C:\\WindowsApps\\Pkg\\Assets");
    assert_eq!(q.stem, "Icon");
}

#[test]
fn no_match_case_reports_missing_asset() {
    let empty: Vec<String> = vec![];
    assert_eq!(first_match(&empty), Err(IconError::IconAssetNotFound));
    match on_asset_listing(&empty) {
        PipeAction::Fail(e) => assert_eq!(e, IconError::IconAssetNotFound),
        other => panic!("expected a failure, got {:?}", other),
    }
}

#[test]
fn ambiguous_match_takes_listing_order_not_sorted_order() {
    let listing = vec![String::from("b.png"), String::from("a.png")];
    assert_eq!(first_match(&listing), Ok(String::from("b.png")));
    match on_asset_listing(&listing) {
        PipeAction::LoadIconFile(p) => assert_eq!(p, "b.png"),
        other => panic!("expected an icon file, got {:?}", other),
    }
}

#[test]
fn shortcut_fallback_keeps_the_original_path() {
    let original = "C:\\Users\\u\\app.lnk";
    assert_eq!(shortcut_target_or_fallback(original, None), original);
    match on_shortcut_outcome(original, None) {
        PipeAction::LoadDirectIcon(p) => assert_eq!(p, original),
        other => panic!("expected a direct load, got {:?}", other),
    }
}

#[test]
fn shortcut_target_is_trimmed() {
    let a = on_shortcut_outcome("C:\\u\\s.lnk", Some("  C:\\Target\\app.exe\r\n"));
    match a {
        PipeAction::LoadDirectIcon(p) => assert_eq!(p, "C:\\Target\\app.exe"),
        other => panic!("expected a direct load, got {:?}", other),
    }
}

#[test]
fn trimming_removes_surrounding_whitespace_only() {
    assert_eq!(trim_ws("  a b\t\r\n"), "a b");
    assert_eq!(trim_ws(""), "");
    assert_eq!(trim_ws(" \t "), "");
    assert_eq!(trim_ws("x"), "x");
}

#[test]
fn trimming_matches_the_standard_trim() {
    let samples = ["\u{00A0}x\u{3000}", " mixed\u{2009}ws\u{0085}", "\u{1680}\u{2028}", "plain"];
    for s in samples {
        assert_eq!(trim_ws(s), s.trim());
    }
}

#[test]
fn split_lines_strips_line_endings() {
    assert_eq!(split_lines("a\r\nb\r\n"), vec!["a", "b"]);
    assert_eq!(split_lines("one"), vec!["one"]);
    assert_eq!(split_lines("x\ny"), vec!["x", "y"]);
    let none: Vec<String> = vec![];
    assert_eq!(split_lines(""), none);
}

#[test]
fn error_descriptions_are_not_empty() {
    assert!(!IconError::IconAssetNotFound.describe().is_empty());
    assert!(!IconError::ProcessLookup.describe().is_empty());
}
