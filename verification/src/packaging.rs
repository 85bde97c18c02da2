//! Build and packaging rules of the plugin: build variants, the arguments
//! handed to the bundler, and the names of platform and archive folders.
use vstd::prelude::*;
use vstd::string::{StrSliceExecFns, StringExecFns};
use crate::channel_names::str_eq;
use crate::channel_set::{string_views, lemma_map_push};

verus! {

/// A build variant.
#[derive(Clone, Copy, Debug, PartialEq, Eq)]
pub enum BuildVariant {
    Dev,
    Release,
    Production,
}

impl BuildVariant {
    /// Suffix of the platform bundle folder.
    pub fn suffix(self) -> (s: &'static str)
        ensures
            s@ == match self {
                BuildVariant::Dev => "dev"@,
                BuildVariant::Release => "release"@,
                BuildVariant::Production => "production"@,
            },
    {
        match self {
            BuildVariant::Dev => "dev",
            BuildVariant::Release => "release",
            BuildVariant::Production => "production",
        }
    }

    /// Name shown to the user and used in archive names.
    pub fn display_name(self) -> (s: &'static str)
        ensures
            s@ == display_name_of(self),
    {
        match self {
            BuildVariant::Dev => "Dev",
            BuildVariant::Release => "Release",
            BuildVariant::Production => "Production",
        }
    }

    /// Whether the build is optimised (`--release`).
    pub fn needs_release_flag(self) -> (r: bool)
        ensures
            r == needs_release(self),
    {
        matches!(self, BuildVariant::Release | BuildVariant::Production)
    }

    /// Whether this is the production build.
    pub fn is_production(self) -> (r: bool)
        ensures
            r == (self == BuildVariant::Production),
    {
        matches!(self, BuildVariant::Production)
    }
}

pub open spec fn display_name_of(v: BuildVariant) -> Seq<char> {
    match v {
        BuildVariant::Dev => "Dev"@,
        BuildVariant::Release => "Release"@,
        BuildVariant::Production => "Production"@,
    }
}

pub open spec fn needs_release(v: BuildVariant) -> bool {
    v == BuildVariant::Release || v == BuildVariant::Production
}

/// Contradicting variant flags on the command line.
#[derive(Clone, Copy, Debug, PartialEq, Eq)]
pub enum VariantError {
    /// `--dev` together with `--production`.
    DevWithProduction,
    /// `--dev` together with `--release`.
    DevWithRelease,
}

impl VariantError {
    /// The message shown for the error.
    pub fn message(self) -> (s: &'static str)
        ensures
            s@ == match self {
                VariantError::DevWithProduction => "--dev and --production cannot be used together"@,
                VariantError::DevWithRelease => "--dev and --release cannot be used together"@,
            },
    {
        match self {
            VariantError::DevWithProduction => "--dev and --production cannot be used together",
            VariantError::DevWithRelease => "--dev and --release cannot be used together",
        }
    }
}

/// The variant that the flags `--dev`, `--release` and `--production` among
/// the arguments select: Production wins over Release, Dev is the default,
/// and Dev may not be combined with either of the others.
pub open spec fn variant_of(args: Seq<Seq<char>>) -> Result<BuildVariant, VariantError> {
    let dev = args.contains("--dev"@);
    let release = args.contains("--release"@);
    let production = args.contains("--production"@);
    if production {
        if dev { Err(VariantError::DevWithProduction) } else { Ok(BuildVariant::Production) }
    } else if dev {
        if release { Err(VariantError::DevWithRelease) } else { Ok(BuildVariant::Dev) }
    } else if release {
        Ok(BuildVariant::Release)
    } else {
        Ok(BuildVariant::Dev)
    }
}

/// Whether one of the strings equals `target`.
fn any_equals(args: &[String], target: &str) -> (r: bool)
    ensures
        r == string_views(args@).contains(target@),
{
    let mut i: usize = 0;
    while i < args.len()
        invariant
            i <= args@.len(),
            forall|k: int| 0 <= k < i ==> args@[k]@ != target@,
        decreases args@.len() - i,
    {
        if str_eq(args[i].as_str(), target) {
            assert(string_views(args@)[i as int] == target@);
            return true;
        }
        i = i + 1;
    }
    proof {
        if string_views(args@).contains(target@) {
            let k = choose|k: int| 0 <= k < string_views(args@).len() && string_views(args@)[k] == target@;
            assert(args@[k]@ == target@);
        }
    }
    false
}

/// The build variant the command line asks for.
pub fn parse_build_variant(args: &[String]) -> (r: Result<BuildVariant, VariantError>)
    ensures
        r == variant_of(string_views(args@)),
{
    let has_dev = any_equals(args, "--dev");
    let has_release = any_equals(args, "--release");
    let has_production = any_equals(args, "--production");
    if has_production {
        if has_dev {
            return Err(VariantError::DevWithProduction);
        }
        return Ok(BuildVariant::Production);
    }
    if has_dev {
        if has_release {
            return Err(VariantError::DevWithRelease);
        }
        return Ok(BuildVariant::Dev);
    }
    if has_release {
        Ok(BuildVariant::Release)
    } else {
        Ok(BuildVariant::Dev)
    }
}

/// Folder name of the bundles for an operating system and CPU architecture
/// (as `std::env::consts` names them); "Unknown" for other targets.
pub open spec fn platform_dir_of(os: Seq<char>, arch: Seq<char>) -> Seq<char> {
    if os == "windows"@ && arch == "x86_64"@ {
        "Windows_X86-64"@
    } else if os == "windows"@ && arch == "x86"@ {
        "Windows_X86"@
    } else if os == "macos"@ && arch == "aarch64"@ {
        "MacOS_AArch64"@
    } else if os == "macos"@ && arch == "x86_64"@ {
        "MacOS_X86-64"@
    } else if os == "linux"@ && arch == "x86_64"@ {
        "Linux_X86-64"@
    } else if os == "linux"@ && arch == "aarch64"@ {
        "Linux_AArch64"@
    } else {
        "Unknown"@
    }
}

/// The bundle folder name of the target `os` / `arch`.
pub fn get_platform_bundle_dir(os: &str, arch: &str) -> (s: &'static str)
    ensures
        s@ == platform_dir_of(os@, arch@),
{
    if str_eq(os, "windows") && str_eq(arch, "x86_64") {
        "Windows_X86-64"
    } else if str_eq(os, "windows") && str_eq(arch, "x86") {
        "Windows_X86"
    } else if str_eq(os, "macos") && str_eq(arch, "aarch64") {
        "MacOS_AArch64"
    } else if str_eq(os, "macos") && str_eq(arch, "x86_64") {
        "MacOS_X86-64"
    } else if str_eq(os, "linux") && str_eq(arch, "x86_64") {
        "Linux_X86-64"
    } else if str_eq(os, "linux") && str_eq(arch, "aarch64") {
        "Linux_AArch64"
    } else {
        "Unknown"
    }
}

/// A folder a build is deployed to.
pub struct DeployTarget {
    /// The folder; relative to the user's home folder when `home_relative`.
    pub path: String,
    pub home_relative: bool,
    /// A failure there is reported and the deployment goes on.
    pub best_effort: bool,
}

/// The deploy folders of a build variant on an operating system (as
/// `std::env::consts::OS` names it), as (path, home-relative, best effort):
/// on Windows the development folder for Dev and Release and the system
/// VST3 folder (best effort) for Release and Production; on macOS the
/// development folder for Dev, otherwise the system and the user VST3
/// folders; nothing elsewhere.
pub open spec fn deploy_plan(os: Seq<char>, variant: BuildVariant) -> Seq<(Seq<char>, bool, bool)> {
    let win_dev = ("C:\\Plugins\\VST Dev"@, false, false);
    let win_system = ("C:\\Program Files\\Common Files\\VST3"@, false, true);
    if os == "windows"@ {
        match variant {
            BuildVariant::Dev => seq![win_dev],
            BuildVariant::Release => seq![win_dev, win_system],
            BuildVariant::Production => seq![win_system],
        }
    } else if os == "macos"@ {
        match variant {
            BuildVariant::Dev => seq![("/Plugins/VST Dev"@, false, false)],
            _ => seq![("/Library/Audio/Plug-Ins/VST3"@, false, false), ("Library/Audio/Plug-Ins/VST3"@, true, false)],
        }
    } else {
        Seq::empty()
    }
}

fn deploy_target(path: &str, home_relative: bool, best_effort: bool) -> (t: DeployTarget)
    ensures
        t.path@ == path@,
        t.home_relative == home_relative,
        t.best_effort == best_effort,
{
    DeployTarget { path: String::from_str(path), home_relative, best_effort }
}

/// The folders a build of `variant` is deployed to on operating system `os`.
pub fn deploy_targets(os: &str, variant: BuildVariant) -> (v: Vec<DeployTarget>)
    ensures
        v@.len() == deploy_plan(os@, variant).len(),
        forall|i: int| 0 <= i < v@.len() ==> (v@[i].path@, v@[i].home_relative, v@[i].best_effort)
            == #[trigger] deploy_plan(os@, variant)[i],
{
    let mut v: Vec<DeployTarget> = Vec::new();
    if str_eq(os, "windows") {
        let dev = "C:\\Plugins\\VST Dev";
        let system = "C:\\Program Files\\Common Files\\VST3";
        match variant {
            BuildVariant::Dev => {
                v.push(deploy_target(dev, false, false));
            },
            BuildVariant::Release => {
                v.push(deploy_target(dev, false, false));
                v.push(deploy_target(system, false, true));
            },
            BuildVariant::Production => {
                v.push(deploy_target(system, false, true));
            },
        }
    } else if str_eq(os, "macos") {
        match variant {
            BuildVariant::Dev => {
                v.push(deploy_target("/Plugins/VST Dev", false, false));
            },
            _ => {
                v.push(deploy_target("/Library/Audio/Plug-Ins/VST3", false, false));
                v.push(deploy_target("Library/Audio/Plug-Ins/VST3", true, false));
            },
        }
    }
    v
}

/// Name of the archive folder of a build: `MCM_<platform>_v<version>-<Variant>`.
pub fn format_archive_dir_name(platform_label: &str, version: &str, variant: BuildVariant) -> (s: String)
    ensures
        s@ == "MCM_"@ + platform_label@ + "_v"@ + version@ + "-"@ + display_name_of(variant),
{
    let mut s = String::from_str("MCM_");
    s.append(platform_label);
    s.append("_v");
    s.append(version);
    s.append("-");
    s.append(variant.display_name());
    s
}


/// The name of the plugin's package.
pub open spec fn plugin_package() -> Seq<char> {
    "monitor_controller_max"@
}

/// The cargo feature that makes a production build.
pub open spec fn production_feature() -> Seq<char> {
    "monitor_controller_max/production"@
}

/// Whether an argument selects the Dev or the Production variant.
pub open spec fn is_variant_flag(a: Seq<char>) -> bool {
    a == "--dev"@ || a == "--production"@
}

/// The arguments after the program name, without `--dev` and `--production`.
pub open spec fn forwarded_of(args: Seq<Seq<char>>) -> Seq<Seq<char>>
    decreases args.len(),
{
    if args.len() <= 1 {
        Seq::empty()
    } else if is_variant_flag(args.last()) {
        forwarded_of(args.drop_last())
    } else {
        forwarded_of(args.drop_last()).push(args.last())
    }
}

/// Whether `t` occurs in `s` as a contiguous run.
pub open spec fn contains_text(s: Seq<char>, t: Seq<char>) -> bool {
    exists|i: int| 0 <= i && i + t.len() <= s.len() && #[trigger] occurs_at(s, t, i)
}

/// Whether `t` occurs in `s` at position `i`.
pub open spec fn occurs_at(s: Seq<char>, t: Seq<char>, i: int) -> bool {
    s.subrange(i, i + t.len()) == t
}

/// `bundle` in front when there is no command (no argument, or an option first).
pub open spec fn with_bundle_command(f: Seq<Seq<char>>) -> Seq<Seq<char>> {
    if f.len() == 0 || (f[0].len() > 0 && f[0][0] == '-') { f.insert(0, "bundle"@) } else { f }
}

/// The plugin's package named when it is not: after `bundle` when that is the
/// command, else first.
pub open spec fn with_plugin_target(f: Seq<Seq<char>>) -> Seq<Seq<char>> {
    if f.contains(plugin_package()) {
        f
    } else if f.len() > 0 && f[0] == "bundle"@ {
        f.insert(1, plugin_package())
    } else {
        f.insert(0, plugin_package())
    }
}

/// `--release` appended when the variant needs it and it is missing.
pub open spec fn with_release_flag(f: Seq<Seq<char>>, v: BuildVariant) -> Seq<Seq<char>> {
    if needs_release(v) && !f.contains("--release"@) { f.push("--release"@) } else { f }
}

/// Whether some `--features` argument is followed by one naming the
/// production feature.
pub open spec fn has_production_feature(f: Seq<Seq<char>>) -> bool {
    exists|i: int| 0 <= i && i + 1 < f.len() && #[trigger] f[i] == "--features"@
        && contains_text(f[i + 1], production_feature())
}

/// The production feature appended for a production build that lacks it.
pub open spec fn with_production_feature(f: Seq<Seq<char>>, v: BuildVariant) -> Seq<Seq<char>> {
    if v == BuildVariant::Production && !has_production_feature(f) {
        f + seq!["--features"@, production_feature()]
    } else {
        f
    }
}

/// The arguments handed to the bundler for a command line: the forwarded
/// arguments, with the bundle command and the plugin's package when the
/// bundle is to be copied, then the release flag and the production feature
/// as the variant needs them.
pub open spec fn bundle_args_of(args: Seq<Seq<char>>, should_copy: bool, v: BuildVariant) -> Seq<Seq<char>> {
    let f = forwarded_of(args);
    let targeted = if should_copy { with_plugin_target(with_bundle_command(f)) } else { f };
    with_production_feature(with_release_flag(targeted, v), v)
}

/// Whether `t` occurs in `s` (`str::contains` with a string pattern).
pub fn str_contains(s: &str, t: &str) -> (r: bool)
    ensures
        r == contains_text(s@, t@),
{
    let n = s.unicode_len();
    let m = t.unicode_len();
    if m > n {
        return false;
    }
    let last = n - m;
    let mut i: usize = 0;
    loop
        invariant
            n == s@.len(),
            m == t@.len(),
            last == n - m,
            i <= last,
            forall|k: int| 0 <= k < i ==> !#[trigger] occurs_at(s@, t@, k),
        ensures
            forall|k: int| 0 <= k <= last ==> !#[trigger] occurs_at(s@, t@, k),
        decreases last - i,
    {
        if str_eq(s.substring_char(i, i + m), t) {
            assert(occurs_at(s@, t@, i as int));
            return true;
        }
        if i == last {
            break;
        }
        i = i + 1;
    }
    proof {
        if contains_text(s@, t@) {
            let k = choose|k: int| 0 <= k && k + t@.len() <= s@.len() && #[trigger] occurs_at(s@, t@, k);
            assert(occurs_at(s@, t@, k));
        }
    }
    false
}

fn forwarded_args(raw_args: &[String]) -> (f: Vec<String>)
    ensures
        string_views(f@) == forwarded_of(string_views(raw_args@)),
{
    let mut f: Vec<String> = Vec::new();
    if raw_args.len() == 0 {
        proof {
            assert(string_views(f@) =~= Seq::<Seq<char>>::empty());
        }
        return f;
    }
    let ghost sv = string_views(raw_args@);
    proof {
        assert(string_views(f@) =~= forwarded_of(sv.subrange(0, 1)));
    }
    let mut i: usize = 1;
    while i < raw_args.len()
        invariant
            1 <= i <= raw_args@.len(),
            sv == string_views(raw_args@),
            string_views(f@) == forwarded_of(sv.subrange(0, i as int)),
        decreases raw_args@.len() - i,
    {
        let a = raw_args[i].as_str();
        proof {
            assert(sv.subrange(0, i + 1).drop_last() =~= sv.subrange(0, i as int));
            assert(sv.subrange(0, i + 1).last() == a@);
        }
        if !str_eq(a, "--dev") && !str_eq(a, "--production") {
            let ghost before = f@;
            let copy = String::from_str(a);
            f.push(copy);
            proof {
                lemma_map_push(before, copy, |s: String| s@);
            }
        }
        i = i + 1;
    }
    proof {
        assert(sv.subrange(0, raw_args@.len() as int) =~= sv);
    }
    f
}

fn push_str(f: &mut Vec<String>, s: &str)
    ensures
        string_views(final(f)@) == string_views(old(f)@).push(s@),
{
    let ghost before = f@;
    let owned = String::from_str(s);
    f.push(owned);
    proof {
        lemma_map_push(before, owned, |x: String| x@);
    }
}

fn insert_str(f: &mut Vec<String>, i: usize, s: &str)
    requires
        i <= old(f)@.len(),
    ensures
        string_views(final(f)@) == string_views(old(f)@).insert(i as int, s@),
{
    let owned = String::from_str(s);
    f.insert(i, owned);
    proof {
        assert(string_views(f@) =~= string_views(old(f)@).insert(i as int, s@));
    }
}

fn has_feature_pair(f: &Vec<String>) -> (r: bool)
    ensures
        r == has_production_feature(string_views(f@)),
{
    let ghost sv = string_views(f@);
    if f.len() < 2 {
        return false;
    }
    let mut k: usize = 0;
    while k < f.len() - 1
        invariant
            sv == string_views(f@),
            f@.len() >= 2,
            k + 1 <= f@.len(),
            forall|j: int| 0 <= j < k ==> !(#[trigger] sv[j] == "--features"@ && contains_text(sv[j + 1], production_feature())),
        decreases f@.len() - k,
    {
        proof { reveal_strlit("monitor_controller_max/production"); }
        if str_eq(f[k].as_str(), "--features") && str_contains(f[k + 1].as_str(), "monitor_controller_max/production") {
            assert(sv[k as int] == "--features"@);
            return true;
        }
        k = k + 1;
    }
    false
}

/// The arguments for the bundler (see `bundle_args_of`).
pub fn prepare_bundle_args(raw_args: &[String], should_copy: bool, variant: BuildVariant) -> (f: Vec<String>)
    ensures
        string_views(f@) == bundle_args_of(string_views(raw_args@), should_copy, variant),
{
    let mut forwarded = forwarded_args(raw_args);
    if should_copy {
        let first_is_option = forwarded.len() > 0 && {
            let first = forwarded[0].as_str();
            first.unicode_len() > 0 && first.get_char(0) == '-'
        };
        if forwarded.len() == 0 || first_is_option {
            insert_str(&mut forwarded, 0, "bundle");
        }
        if !any_equals(forwarded.as_slice(), "monitor_controller_max") {
            if forwarded.len() > 0 && str_eq(forwarded[0].as_str(), "bundle") {
                insert_str(&mut forwarded, 1, "monitor_controller_max");
            } else {
                insert_str(&mut forwarded, 0, "monitor_controller_max");
            }
        }
    }
    if variant.needs_release_flag() && !any_equals(forwarded.as_slice(), "--release") {
        push_str(&mut forwarded, "--release");
    }
    if variant.is_production() {
        if !has_feature_pair(&forwarded) {
            push_str(&mut forwarded, "--features");
            push_str(&mut forwarded, "monitor_controller_max/production");
        }
    }
    forwarded
}

} // verus!

verus! {

/// Law: a production build always reaches the bundler as a release build
/// with the production feature, whatever the command line holds.
pub proof fn law_production_args_are_release_with_feature(args: Seq<Seq<char>>, should_copy: bool)
    ensures
        bundle_args_of(args, should_copy, BuildVariant::Production).contains("--release"@),
        has_production_feature(bundle_args_of(args, should_copy, BuildVariant::Production)),
{
    let f = forwarded_of(args);
    let targeted = if should_copy { with_plugin_target(with_bundle_command(f)) } else { f };
    let r = with_release_flag(targeted, BuildVariant::Production);
    assert(r.contains("--release"@)) by {
        if !targeted.contains("--release"@) {
            assert(r[r.len() - 1] == "--release"@);
        }
    }
    let out = with_production_feature(r, BuildVariant::Production);
    if !has_production_feature(r) {
        let k = r.len() as int;
        assert(out[k] == "--features"@);
        assert(out[k + 1] == production_feature());
        assert(occurs_at(production_feature(), production_feature(), 0)) by {
            assert(production_feature().subrange(0, production_feature().len() as int) =~= production_feature());
        }
        assert(contains_text(out[k + 1], production_feature()));
        let j = choose|j: int| 0 <= j < r.len() && r[j] == "--release"@;
        assert(out[j] == r[j]);
    }
}

} // verus!
