use monitor_controller::packaging::{
    deploy_targets, format_archive_dir_name, get_platform_bundle_dir, parse_build_variant, prepare_bundle_args, str_contains,
    BuildVariant, VariantError,
};

fn args(a: &[&str]) -> Vec<String> {
    a.iter().map(|s| s.to_string()).collect()
}

#[test]
fn variant_defaults_to_dev() {
    assert_eq!(parse_build_variant(&args(&["xtask", "bundle"])), Ok(BuildVariant::Dev));
    assert_eq!(parse_build_variant(&args(&["xtask", "--dev"])), Ok(BuildVariant::Dev));
}

#[test]
fn variant_flags_select_release_and_production() {
    assert_eq!(parse_build_variant(&args(&["xtask", "--release"])), Ok(BuildVariant::Release));
    assert_eq!(parse_build_variant(&args(&["xtask", "--production"])), Ok(BuildVariant::Production));
    assert_eq!(parse_build_variant(&args(&["xtask", "--release", "--production"])), Ok(BuildVariant::Production));
}

#[test]
fn contradicting_variant_flags_are_errors() {
    assert_eq!(
        parse_build_variant(&args(&["xtask", "--dev", "--production"])),
        Err(VariantError::DevWithProduction)
    );
    assert_eq!(parse_build_variant(&args(&["xtask", "--release", "--dev"])), Err(VariantError::DevWithRelease));
    assert_eq!(VariantError::DevWithProduction.message(), "--dev and --production cannot be used together");
    assert_eq!(VariantError::DevWithRelease.message(), "--dev and --release cannot be used together");
}

#[test]
fn variant_names() {
    assert_eq!(BuildVariant::Dev.suffix(), "dev");
    assert_eq!(BuildVariant::Release.suffix(), "release");
    assert_eq!(BuildVariant::Production.suffix(), "production");
    assert_eq!(BuildVariant::Production.display_name(), "Production");
    assert!(!BuildVariant::Dev.needs_release_flag());
    assert!(BuildVariant::Release.needs_release_flag());
    assert!(BuildVariant::Production.needs_release_flag());
    assert!(BuildVariant::Production.is_production());
    assert!(!BuildVariant::Release.is_production());
}

#[test]
fn platform_bundle_dirs() {
    assert_eq!(get_platform_bundle_dir("windows", "x86_64"), "Windows_X86-64");
    assert_eq!(get_platform_bundle_dir("windows", "x86"), "Windows_X86");
    assert_eq!(get_platform_bundle_dir("macos", "aarch64"), "MacOS_AArch64");
    assert_eq!(get_platform_bundle_dir("macos", "x86_64"), "MacOS_X86-64");
    assert_eq!(get_platform_bundle_dir("linux", "x86_64"), "Linux_X86-64");
    assert_eq!(get_platform_bundle_dir("linux", "aarch64"), "Linux_AArch64");
    assert_eq!(get_platform_bundle_dir("freebsd", "x86_64"), "Unknown");
}

#[test]
fn archive_dir_name_layout() {
    assert_eq!(
        format_archive_dir_name("Linux_X86-64", "0.3.1", BuildVariant::Release),
        "MCM_Linux_X86-64_v0.3.1-Release"
    );
}

#[test]
fn bundle_args_for_a_plain_dev_bundle() {
    assert_eq!(
        prepare_bundle_args(&args(&["xtask", "bundle", "--dev"]), true, BuildVariant::Dev),
        args(&["bundle", "monitor_controller_max"])
    );
}

#[test]
fn bundle_args_insert_the_command_before_options() {
    assert_eq!(
        prepare_bundle_args(&args(&["xtask", "--release"]), true, BuildVariant::Release),
        args(&["bundle", "monitor_controller_max", "--release"])
    );
    assert_eq!(
        prepare_bundle_args(&args(&["xtask"]), true, BuildVariant::Dev),
        args(&["bundle", "monitor_controller_max"])
    );
}

#[test]
fn bundle_args_put_the_package_first_after_another_command() {
    assert_eq!(
        prepare_bundle_args(&args(&["xtask", "check"]), true, BuildVariant::Dev),
        args(&["monitor_controller_max", "check"])
    );
}

#[test]
fn bundle_args_for_production_add_release_and_feature_once() {
    assert_eq!(
        prepare_bundle_args(&args(&["xtask", "bundle", "--production"]), true, BuildVariant::Production),
        args(&["bundle", "monitor_controller_max", "--release", "--features", "monitor_controller_max/production"])
    );
    let already = args(&[
        "xtask",
        "bundle",
        "monitor_controller_max",
        "--release",
        "--features",
        "foo,monitor_controller_max/production",
    ]);
    assert_eq!(prepare_bundle_args(&already, true, BuildVariant::Production), already[1..].to_vec());
}

#[test]
fn passthrough_args_are_forwarded_as_given() {
    assert_eq!(
        prepare_bundle_args(&args(&["xtask", "clippy", "--dev"]), false, BuildVariant::Dev),
        args(&["clippy"])
    );
    assert_eq!(prepare_bundle_args(&args(&[]), false, BuildVariant::Dev), Vec::<String>::new());
}

#[test]
fn substring_search() {
    assert!(str_contains("foo,monitor_controller_max/production", "monitor_controller_max/production"));
    assert!(str_contains("abc", ""));
    assert!(!str_contains("ab", "abc"));
    assert!(!str_contains("monitor_controller_max", "production"));
}

fn targets(os: &str, variant: BuildVariant) -> Vec<(String, bool, bool)> {
    deploy_targets(os, variant).into_iter().map(|t| (t.path, t.home_relative, t.best_effort)).collect()
}

#[test]
fn deploy_targets_by_platform_and_variant() {
    let dev = (r"C:\Plugins\VST Dev".to_string(), false, false);
    let system = (r"C:\Program Files\Common Files\VST3".to_string(), false, true);
    assert_eq!(targets("windows", BuildVariant::Dev), vec![dev.clone()]);
    assert_eq!(targets("windows", BuildVariant::Release), vec![dev, system.clone()]);
    assert_eq!(targets("windows", BuildVariant::Production), vec![system]);
    assert_eq!(targets("macos", BuildVariant::Dev), vec![("/Plugins/VST Dev".to_string(), false, false)]);
    assert_eq!(
        targets("macos", BuildVariant::Release),
        vec![
            ("/Library/Audio/Plug-Ins/VST3".to_string(), false, false),
            ("Library/Audio/Plug-Ins/VST3".to_string(), true, false),
        ]
    );
    assert!(targets("linux", BuildVariant::Release).is_empty());
}
