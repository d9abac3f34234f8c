use venv_bin::entries::{
    build_path_config, prefixed, render, transform, workspace_context, PathConfigSpec, WorkspaceContext,
};
use venv_bin::error::VenvError;
use venv_bin::layout::{directory_action, DirAction, EnvironmentLayout, PlatformFamily};
use venv_bin::plan::{parent, plan_venv, render_config};
use venv_bin::text::{blank, join, split_chars};
use venv_bin::version::{decimal_string, VersionDescriptor};

fn strings(v: &[&str]) -> Vec<String> {
    v.iter().map(|s| s.to_string()).collect()
}

fn ws(root: &str, paths: &[&str]) -> Option<WorkspaceContext> {
    Some(WorkspaceContext { workspace_root: root.to_string(), additional_relative_paths: strings(paths) })
}

#[test]
fn parse_three_components() {
    let v = VersionDescriptor::parse("3.11.4").unwrap();
    assert_eq!(v.major, 3);
    assert_eq!(v.minor, 11);
    assert_eq!(v.raw, "3.11.4");
}

#[test]
fn parse_two_components() {
    let v = VersionDescriptor::parse("3.8").unwrap();
    assert_eq!((v.major, v.minor), (3, 8));
    assert_eq!(v.raw, "3.8");
}

#[test]
fn parse_leading_zeros() {
    let v = VersionDescriptor::parse("03.011").unwrap();
    assert_eq!((v.major, v.minor), (3, 11));
}

#[test]
fn parse_rejects_bad_strings() {
    for bad in ["", "3", "3.", ".3", "3..1", "3.x", "a.b", "3.11.", "3.11.4b1", " 3.11", "3,11", "-3.1"] {
        assert_eq!(VersionDescriptor::parse(bad).err(), Some(VenvError::InvalidVersionFormat), "{bad}");
    }
}

#[test]
fn parse_largest_numbers() {
    let v = VersionDescriptor::parse("18446744073709551615.0").unwrap();
    assert_eq!(v.major, u64::MAX);
    assert_eq!(
        VersionDescriptor::parse("18446744073709551616.0").err(),
        Some(VenvError::InvalidVersionFormat)
    );
}

#[test]
fn decimal_rendering() {
    assert_eq!(decimal_string(0), "0");
    assert_eq!(decimal_string(7), "7");
    assert_eq!(decimal_string(10), "10");
    assert_eq!(decimal_string(311), "311");
    assert_eq!(decimal_string(u64::MAX), "18446744073709551615");
}

#[test]
fn split_keeps_empty_pieces() {
    assert_eq!(split_chars("a\n\nb", '\n'), strings(&["a", "", "b"]));
    assert_eq!(split_chars("", '\n'), strings(&[""]));
    assert_eq!(split_chars("x\n", '\n'), strings(&["x", ""]));
    assert_eq!(split_chars("é.ü", '.'), strings(&["é", "ü"]));
}

#[test]
fn join_paths() {
    assert_eq!(join("/prefix", "a"), "/prefix/a");
    assert_eq!(join("/prefix/", "a"), "/prefix/a");
    assert_eq!(join("", "a"), "a");
}

#[test]
fn blank_lines() {
    assert!(blank(""));
    assert!(blank(" \t\r"));
    assert!(!blank(" a "));
    assert!(blank("\u{a0}\u{3000}\u{2028}\u{85}"));
    assert!(!blank("\u{200b}"));
}

#[test]
fn prefix_applied() {
    assert_eq!(prefixed(&Some("/p".to_string()), "x"), "/p/x");
    assert_eq!(prefixed(&None, "x"), "x");
}

#[test]
fn transform_prefix_on_every_entry() {
    let out = transform(&strings(&["a", " ", "b"]), &Some("P".to_string()), &ws("/ws", &["c"]));
    assert_eq!(out, strings(&["P/a", "P/b", "P//ws/c"]));
    assert!(out.iter().all(|e| e.starts_with("P")));
}

#[test]
fn transform_drops_unicode_blank_lines() {
    let out = transform(&strings(&["a", "\u{3000}", "\u{a0} ", "b"]), &None, &None);
    assert_eq!(out, strings(&["a", "b"]));
}

#[test]
fn transform_keeps_order_and_duplicates() {
    let out = transform(&strings(&["z", "a", "z"]), &None, &ws("/w", &["y", "b"]));
    assert_eq!(out, strings(&["z", "a", "z", "/w/y", "/w/b"]));
}

#[test]
fn render_one_entry_per_line() {
    assert_eq!(render(&strings(&["a", "b"])), "a\nb\n");
    assert_eq!(render(&Vec::new()), "");
}

#[test]
fn pth_blank_line_dropped_with_prefix() {
    let text = build_path_config("a\n\nb", &Some("/prefix".to_string()), &None);
    assert_eq!(text, "/prefix/a\n/prefix/b\n");
}

#[test]
fn pth_workspace_paths_trail() {
    let text = build_path_config("first\n", &None, &ws("/ws", &["sub/x", "sub/y"]));
    let lines: Vec<&str> = text.lines().collect();
    assert_eq!(lines, vec!["first", "/ws/sub/x", "/ws/sub/y"]);
}

#[test]
fn workspace_context_cases() {
    assert_eq!(
        workspace_context(None, Some(strings(&["a"]))).err(),
        Some(VenvError::WorkspacePathsWithoutRoot)
    );
    assert!(workspace_context(Some("/ws".to_string()), None).unwrap().is_none());
    assert!(workspace_context(None, None).unwrap().is_none());
    let w = workspace_context(Some("/ws".to_string()), Some(strings(&["a"]))).unwrap().unwrap();
    assert_eq!(w.workspace_root, "/ws");
    assert_eq!(w.additional_relative_paths, strings(&["a"]));
}

#[test]
fn parent_directories() {
    assert_eq!(parent("/usr/bin/python3"), "/usr/bin");
    assert_eq!(parent("/python3"), "/");
    assert_eq!(parent("python3"), "");
}

#[test]
fn config_text() {
    assert_eq!(
        render_config("/usr/bin/python3", "3.11.4"),
        "home = /usr/bin\ninclude-system-site-packages = false\nversion = 3.11.4\nexecutable = /usr/bin/python3\n"
    );
}

#[test]
fn unix_layout() {
    let v = VersionDescriptor::parse("3.11.4").unwrap();
    let l = EnvironmentLayout::new("/venv", &v, PlatformFamily::Unix);
    assert_eq!(l.bin_dir, "/venv/bin");
    assert_eq!(l.lib_dir, "/venv/lib/python3.11");
    assert_eq!(l.site_packages_dir, "/venv/lib/python3.11/site-packages");
    assert_eq!(l.interpreter_link, "/venv/bin/python");
    assert_eq!(l.config_file, "/venv/pyvenv.cfg");
    assert_eq!(l.path_config_file, "/venv/lib/python3.11/site-packages/venv_paths.pth");
    assert_eq!(l.path_config_staging, "/venv/lib/python3.11/site-packages/venv_paths.pth.tmp");
}

#[test]
fn windows_layout() {
    let v = VersionDescriptor::parse("3.12").unwrap();
    let l = EnvironmentLayout::new("C:/venv", &v, PlatformFamily::Windows);
    assert_eq!(l.bin_dir, "C:/venv/Scripts");
    assert_eq!(l.site_packages_dir, "C:/venv/Lib/site-packages");
    assert_eq!(l.interpreter_link, "C:/venv/Scripts/python.exe");
}

#[test]
fn plan_version_names_site_packages() {
    let p = plan_venv("/usr/bin/python3", "3.11.4", "/venv", PlatformFamily::Unix, None, None).unwrap();
    assert!(p.layout.site_packages_dir.contains("3.11"));
    assert!(p.config.contains("\nversion = 3.11.4\n"));
    assert_eq!(p.version.raw, "3.11.4");
    assert!(p.workspace.is_none());
}

#[test]
fn plan_paths_without_root_fail() {
    let r = plan_venv("/usr/bin/python3", "3.11.4", "/venv", PlatformFamily::Unix, None, Some(strings(&["sub/x"])));
    assert_eq!(r.err(), Some(VenvError::WorkspacePathsWithoutRoot));
}

#[test]
fn plan_bad_version_first() {
    let r = plan_venv("/usr/bin/python3", "3", "/venv", PlatformFamily::Unix, None, Some(strings(&["sub/x"])));
    assert_eq!(r.err(), Some(VenvError::InvalidVersionFormat));
}

#[test]
fn plan_twice_is_the_same() {
    let a = plan_venv("/usr/bin/python3", "3.9.1", "/v", PlatformFamily::Unix, Some("/ws".to_string()), Some(strings(&["x"]))).unwrap();
    let b = plan_venv("/usr/bin/python3", "3.9.1", "/v", PlatformFamily::Unix, Some("/ws".to_string()), Some(strings(&["x"]))).unwrap();
    assert_eq!(a.config, b.config);
    assert_eq!(a.layout.interpreter_link, b.layout.interpreter_link);
    assert_eq!(a.layout.path_config_file, b.layout.path_config_file);
    let w = a.workspace.unwrap();
    assert_eq!(w.workspace_root, "/ws");
}

#[test]
fn layout_directories_in_order() {
    let v = VersionDescriptor::parse("3.10.2").unwrap();
    let l = EnvironmentLayout::new("/v", &v, PlatformFamily::Unix);
    assert_eq!(
        l.directories(),
        strings(&["/v", "/v/bin", "/v/lib", "/v/lib/python3.10", "/v/lib/python3.10/site-packages"])
    );
    let w = EnvironmentLayout::new("C:/v", &v, PlatformFamily::Windows);
    assert_eq!(w.directories(), strings(&["C:/v", "C:/v/Scripts", "C:/v/Lib", "C:/v/Lib/site-packages"]));
}

#[test]
fn directory_actions() {
    assert_eq!(directory_action(None), Ok(DirAction::Create));
    assert_eq!(directory_action(Some(true)), Ok(DirAction::Keep));
    assert_eq!(directory_action(Some(false)), Err(VenvError::LayoutPathCollision));
}

#[test]
fn path_config_spec_holds_its_parts() {
    let s = PathConfigSpec::new("deps.pth".to_string(), Some("/p".to_string()));
    assert_eq!(s.source_file, "deps.pth");
    assert_eq!(s.entry_prefix, Some("/p".to_string()));
}
