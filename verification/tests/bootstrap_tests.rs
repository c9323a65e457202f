use std::path::PathBuf;

use dsh_desktop::bootstrap::{
    archive_name, archive_url, extracted_top_dir, node_bin, npm_cli_from_node, parse_node_version_ok, platform_arch,
};

#[test]
fn archive_name_for_macos_arm64_is_tar_xz() {
    assert_eq!(archive_name("24.19.0", "darwin", "arm64"), "node-v24.19.0-darwin-arm64.tar.xz");
}

#[test]
fn archive_name_for_windows_x64_is_zip() {
    assert_eq!(archive_name("24.19.0", "win", "x64"), "node-v24.19.0-win-x64.zip");
}

#[test]
fn archive_url_points_at_official_dist() {
    assert_eq!(
        archive_url("24.19.0", "darwin", "arm64"),
        "https://nodejs.org/dist/v24.19.0/node-v24.19.0-darwin-arm64.tar.xz"
    );
}

#[test]
fn extracted_top_dir_matches_archive_stem() {
    assert_eq!(extracted_top_dir("24.19.0", "darwin", "arm64"), "node-v24.19.0-darwin-arm64");
    assert_eq!(extracted_top_dir("24.19.0", "win", "x64"), "node-v24.19.0-win-x64");
}

#[test]
fn node_bin_points_into_version_dir() {
    let tc = PathBuf::from("/home/u/.dsh/toolchain");
    let name = "node";
    assert_eq!(
        PathBuf::from(node_bin("/home/u/.dsh/toolchain", "24.19.0", false)),
        tc.join("node-24.19.0").join("bin").join(name)
    );
}

#[test]
fn npm_cli_from_node_derives_lib_path() {
    let node = "/x/toolchain/node-24.19.0/bin/node";
    assert_eq!(
        PathBuf::from(npm_cli_from_node(node, false)),
        PathBuf::from("/x/toolchain/node-24.19.0/lib/node_modules/npm/bin/npm-cli.js")
    );
}

#[test]
fn platform_arch_maps_native_values() {
    for (native_os, native_arch) in [("macos", "aarch64"), ("macos", "x86_64"), ("windows", "x86_64")] {
        let (os, arch) = platform_arch(native_os, native_arch).expect("supported platform");
        assert!(os == "darwin" || os == "win");
        assert!(arch == "x64" || arch == "arm64");
    }
}

#[test]
fn node_version_parse_accepts_22_or_newer() {
    assert!(parse_node_version_ok("v22.9.0\n"));
    assert!(parse_node_version_ok("v24.19.0\n"));
}

#[test]
fn node_version_parse_rejects_older_or_garbage() {
    assert!(!parse_node_version_ok("v20.3.1\n"));
    assert!(!parse_node_version_ok("v18.0.0\n"));
    assert!(!parse_node_version_ok("garbage"));
    assert!(!parse_node_version_ok(""));
}
