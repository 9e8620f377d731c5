//! Path text of the pipeline: the deterministic locations where build
//! artifacts are produced and placed, the conversion of path separators
//! for manifest embedding, the relative-path computation the generated
//! bridge manifest needs, and the probe order for finding the project
//! root.

use crate::text::find_char_from;
use vstd::prelude::*;
use vstd::string::{StrSliceExecFns, StringExecFns};

verus! {

/// Build-profile directory name for release builds.
pub const PROFILE_RELEASE: &'static str = "release";

/// Build-profile directory name for debug builds.
pub const PROFILE_DEBUG: &'static str = "debug";

/// Path segment between a module root and a per-target build directory.
pub const TARGET_SEG: &'static str = "/target/";

/// File name of the shared library the bridge project builds.
pub const BRIDGE_LIB_FILE: &'static str = "/libpanpan_jni.so";

/// Directory, inside the application template, that holds one
/// per-architecture library directory each.
pub const JNI_LIBS_SEG: &'static str = "/app/src/main/jniLibs/";

/// Canonical file name an artifact is placed under.
pub const PLACED_LIB_FILE: &'static str = "/libpanpan.so";

/// Path, inside the application template, of the assembled bundle.
pub const BUNDLE_SEG: &'static str = "/app/build/outputs/apk/debug/app-debug.apk";

/// The build-profile directory name: `release` or `debug`.
pub open spec fn profile_name_text(release: bool) -> Seq<char> {
    if release {
        PROFILE_RELEASE@
    } else {
        PROFILE_DEBUG@
    }
}

pub fn profile_name(release: bool) -> (r: &'static str)
    ensures
        r@ == profile_name_text(release),
{
    if release {
        PROFILE_RELEASE
    } else {
        PROFILE_DEBUG
    }
}

/// The deterministic path where the toolchain leaves the shared library
/// built for one target triple.
pub open spec fn artifact_path_text(crate_path: Seq<char>, triple: Seq<char>, release: bool) -> Seq<
    char,
> {
    crate_path + TARGET_SEG@ + triple + "/"@ + profile_name_text(release) + BRIDGE_LIB_FILE@
}

pub fn artifact_path(crate_path: &str, triple: &str, release: bool) -> (r: String)
    ensures
        r@ == artifact_path_text(crate_path@, triple@, release),
{
    let mut s = String::new();
    s.append(crate_path);
    s.append(TARGET_SEG);
    s.append(triple);
    s.append("/");
    s.append(profile_name(release));
    s.append(BRIDGE_LIB_FILE);
    proof {
        assert(s@ =~= artifact_path_text(crate_path@, triple@, release));
    }
    s
}

/// The per-architecture library directory, inside the application
/// template, that one architecture's artifact is placed in.
pub open spec fn jni_libs_dir_text(android_template: Seq<char>, abi: Seq<char>) -> Seq<char> {
    android_template + JNI_LIBS_SEG@ + abi
}

pub fn jni_libs_dir(android_template: &str, abi: &str) -> (r: String)
    ensures
        r@ == jni_libs_dir_text(android_template@, abi@),
{
    let mut s = String::new();
    s.append(android_template);
    s.append(JNI_LIBS_SEG);
    s.append(abi);
    proof {
        assert(s@ =~= jni_libs_dir_text(android_template@, abi@));
    }
    s
}

/// The canonical destination file for a placed artifact.
pub open spec fn placed_library_path_text(dir: Seq<char>) -> Seq<char> {
    dir + PLACED_LIB_FILE@
}

pub fn placed_library_path(dir: &str) -> (r: String)
    ensures
        r@ == placed_library_path_text(dir@),
{
    let mut s = String::new();
    s.append(dir);
    s.append(PLACED_LIB_FILE);
    proof {
        assert(s@ =~= placed_library_path_text(dir@));
    }
    s
}

/// Where the packaging system leaves the assembled bundle.
pub open spec fn bundle_path_text(android_template: Seq<char>) -> Seq<char> {
    android_template + BUNDLE_SEG@
}

pub fn bundle_path(android_template: &str) -> (r: String)
    ensures
        r@ == bundle_path_text(android_template@),
{
    let mut s = String::new();
    s.append(android_template);
    s.append(BUNDLE_SEG);
    proof {
        assert(s@ =~= bundle_path_text(android_template@));
    }
    s
}

/// Packaging task name for release builds.
pub const TASK_RELEASE: &'static str = "assembleRelease";

/// Packaging task name for debug builds.
pub const TASK_DEBUG: &'static str = "assembleDebug";

/// Bundle file name a release packaging run produces.
pub const BUNDLE_RELEASE_FILE: &'static str = "app-release-unsigned.apk";

/// Bundle file name a debug packaging run produces.
pub const BUNDLE_DEBUG_FILE: &'static str = "app-debug.apk";

/// Directory, inside the application template, under which the
/// packaging system leaves bundles, one subdirectory per profile.
pub const BUNDLE_OUT_SEG: &'static str = "/app/build/outputs/apk/";

/// The packaging task the profile asks for.
pub open spec fn packaging_task_text(release: bool) -> Seq<char> {
    if release {
        TASK_RELEASE@
    } else {
        TASK_DEBUG@
    }
}

pub fn packaging_task_name(release: bool) -> (r: &'static str)
    ensures
        r@ == packaging_task_text(release),
{
    if release {
        TASK_RELEASE
    } else {
        TASK_DEBUG
    }
}

/// The bundle file name the profile's packaging run produces.
pub open spec fn bundle_file_text(release: bool) -> Seq<char> {
    if release {
        BUNDLE_RELEASE_FILE@
    } else {
        BUNDLE_DEBUG_FILE@
    }
}

pub fn bundle_file_name(release: bool) -> (r: &'static str)
    ensures
        r@ == bundle_file_text(release),
{
    if release {
        BUNDLE_RELEASE_FILE
    } else {
        BUNDLE_DEBUG_FILE
    }
}

/// Where the packaging system leaves the profile's bundle, under the
/// application template directory.
pub open spec fn profiled_bundle_path_text(android_dir: Seq<char>, release: bool) -> Seq<char> {
    android_dir + BUNDLE_OUT_SEG@ + profile_name_text(release) + "/"@ + bundle_file_text(release)
}

pub fn profiled_bundle_path(android_dir: &str, release: bool) -> (r: String)
    ensures
        r@ == profiled_bundle_path_text(android_dir@, release),
{
    let mut s = String::new();
    s.append(android_dir);
    s.append(BUNDLE_OUT_SEG);
    s.append(profile_name(release));
    s.append("/");
    s.append(bundle_file_name(release));
    proof {
        assert(s@ =~= profiled_bundle_path_text(android_dir@, release));
    }
    s
}

/// Where a built binary of a generated or conventional runner project
/// lands: the project's build directory, the profile's subdirectory,
/// then the binary's file name.
pub open spec fn runner_binary_path_text(
    runner_dir: Seq<char>,
    release: bool,
    file_name: Seq<char>,
) -> Seq<char> {
    runner_dir + TARGET_SEG@ + profile_name_text(release) + "/"@ + file_name
}

pub fn runner_binary_path(runner_dir: &str, release: bool, file_name: &str) -> (r: String)
    ensures
        r@ == runner_binary_path_text(runner_dir@, release, file_name@),
{
    let mut s = String::new();
    s.append(runner_dir);
    s.append(TARGET_SEG);
    s.append(profile_name(release));
    s.append("/");
    s.append(file_name);
    proof {
        assert(s@ =~= runner_binary_path_text(runner_dir@, release, file_name@));
    }
    s
}

/// `s` with every backslash turned into a forward slash, so that a path
/// can be embedded in a manifest whatever separator it came with.
pub open spec fn backslashes_to_forward(s: Seq<char>) -> Seq<char> {
    Seq::new(
        s.len(),
        |i: int|
            if s[i] == '\\' {
                '/'
            } else {
                s[i]
            },
    )
}

pub fn replace_backslashes(s: &str) -> (r: String)
    ensures
        r@ == backslashes_to_forward(s@),
{
    let chars = crate::text::chars_of(s);
    let n = chars.len();
    let mut out = String::new();
    let mut i: usize = 0;
    while i < n
        invariant
            n == s@.len(),
            chars@ == s@,
            i <= n,
            out@ == backslashes_to_forward(s@).subrange(0, i as int),
        decreases n - i,
    {
        let j = find_char_from(&chars, i, '\\');
        let piece = s.substring_char(i, j);
        out.append(piece);
        if j < n {
            out.append("/");
            proof {
                reveal_strlit("/");
                crate::text::lemma_find_char_holds(s@, i as int, '\\');
                assert(out@ =~= backslashes_to_forward(s@).subrange(0, j as int + 1));
            }
            i = j + 1;
        } else {
            proof {
                crate::text::lemma_find_char_holds(s@, i as int, '\\');
                assert(out@ =~= backslashes_to_forward(s@).subrange(0, j as int));
            }
            i = j;
            proof {
                assert(i == n);
            }
        }
    }
    proof {
        assert(out@ =~= backslashes_to_forward(s@));
    }
    out
}

/// Relies on pathdiff::diff_paths: constructs a relative path from the
/// `base` directory to `path` by comparing their components, or `None`
/// where none exists. The result is platform-dependent path text, so
/// nothing further is assumed of it here; callers state what holds of
/// every outcome.
#[verifier::external_body]
fn diff_paths_str(path: &str, base: &str) -> (r: Option<String>) {
    pathdiff::diff_paths(path, base).map(|p| p.display().to_string())
}

/// The path text the generated bridge manifest refers to the shared
/// engine module by: the path of that module relative to the generated
/// project's directory, computed by the path-diffing call, falling back
/// to the module path itself where no relative path exists; separators
/// are normalized to forward slashes. `None` exactly when no engine
/// module was found beside the game module.
/// The reference text built from what the path-diffing call returned:
/// the relative path when one exists, the module path itself when none
/// does, with separators normalized either way.
pub fn engine_reference_from(diff: Option<String>, engine_path: &str) -> (r: String)
    ensures
        match diff {
            Some(d) => r@ == backslashes_to_forward(d@),
            None => r@ == backslashes_to_forward(engine_path@),
        },
{
    match diff {
        Some(d) => replace_backslashes(d.as_str()),
        None => replace_backslashes(engine_path),
    }
}

pub fn engine_module_reference(engine_path: Option<&str>, generated_dir: &str) -> (r: Option<
    String,
>)
    ensures
        r is Some <==> engine_path is Some,
        r is Some ==> exists|rel: Seq<char>| r->Some_0@ == backslashes_to_forward(rel),
{
    match engine_path {
        None => None,
        Some(pp) => Some(engine_reference_from(diff_paths_str(pp, generated_dir), pp)),
    }
}

/// The index of the first ancestor directory that holds the project
/// marker, probing outward from the working directory: `has_marker[i]`
/// answers the probe for the i-th ancestor. `Some(i)` names the first
/// ancestor whose probe succeeded; `None` says none did, on which the
/// root search fails.
pub fn project_root_index(has_marker: &Vec<bool>) -> (r: Option<usize>)
    ensures
        match r {
            Some(i) => {
                &&& i < has_marker@.len()
                &&& has_marker@[i as int]
                &&& forall|j: int| 0 <= j < i ==> !has_marker@[j]
            },
            None => forall|j: int| 0 <= j < has_marker@.len() ==> !has_marker@[j],
        },
{
    let n = has_marker.len();
    let mut i: usize = 0;
    while i < n
        invariant
            i <= n,
            n == has_marker@.len(),
            forall|j: int| 0 <= j < i ==> !has_marker@[j],
        decreases n - i,
    {
        if has_marker[i] {
            return Some(i);
        }
        i += 1;
    }
    None
}

} // verus!
