//! Runtime identifiers of the native daemon sidecar: file names, package paths, which RIDs a
//! host builds, and the MSBuild platform values of a RID.
use vstd::prelude::*;

use crate::command::string_views;
use crate::text::{concat, concat3, str_eq};

verus! {

/// The sidecar file name of a supported RID: `dhara-sd.exe` on Windows RIDs, `dhara-sd`
/// elsewhere; `None` for an unsupported RID.
pub open spec fn spec_native_lib_filename(rid: Seq<char>) -> Option<Seq<char>> {
    if rid == "win-x64"@ || rid == "win-arm64"@ {
        Some("dhara-sd.exe"@)
    } else if rid == "linux-x64"@ || rid == "linux-arm64"@ || rid == "osx-arm64"@ {
        Some("dhara-sd"@)
    } else {
        None
    }
}

/// True when `rid` is the RID of the host itself (no cross-compilation).
pub open spec fn spec_is_native(rid: Seq<char>, os: Seq<char>, arch: Seq<char>) -> bool {
    if os == "windows"@ {
        (arch == "x86_64"@ && rid == "win-x64"@) || (arch == "aarch64"@ && rid == "win-arm64"@)
    } else if os == "linux"@ {
        (arch == "x86_64"@ && rid == "linux-x64"@) || (arch == "aarch64"@ && rid == "linux-arm64"@)
    } else if os == "macos"@ {
        rid == "osx-arm64"@
    } else {
        false
    }
}

/// True when the host can build `rid`: its own RID, or `win-arm64` from Windows x64 (MSVC
/// cross-compiles ARM64 from an x64 host).
pub open spec fn spec_is_buildable(rid: Seq<char>, os: Seq<char>, arch: Seq<char>) -> bool {
    spec_is_native(rid, os, arch) || (os == "windows"@ && arch == "x86_64"@ && rid == "win-arm64"@)
}

/// The RIDs of `all` the host stages: only its own, or also the cross-native ones.
pub open spec fn spec_staging(all: Seq<Seq<char>>, include_cross_native: bool, os: Seq<char>, arch: Seq<char>) -> Seq<Seq<char>> {
    if include_cross_native {
        all.filter(|r: Seq<char>| spec_is_buildable(r, os, arch))
    } else {
        all.filter(|r: Seq<char>| spec_is_native(r, os, arch))
    }
}

/// The MSBuild `Platform` of a supported RID (`None` when not needed); `Err` for an unknown RID.
pub open spec fn spec_platform(rid: Seq<char>) -> Result<Option<Seq<char>>, ()> {
    if rid == "win-x64"@ {
        Ok(Some("x64"@))
    } else if rid == "win-arm64"@ {
        Ok(Some("ARM64"@))
    } else if rid == "win-x86"@ {
        Ok(Some("x86"@))
    } else if rid == "linux-x64"@ || rid == "linux-arm64"@ || rid == "osx-arm64"@ {
        Ok(None)
    } else {
        Err(())
    }
}

/// The MSBuild `PlatformTarget` of a supported RID (`None` when not needed); `Err` for an
/// unknown RID.
pub open spec fn spec_platform_target(rid: Seq<char>) -> Result<Option<Seq<char>>, ()> {
    if rid == "win-x64"@ {
        Ok(Some("x64"@))
    } else if rid == "win-arm64"@ {
        Ok(Some("arm64"@))
    } else if rid == "win-x86"@ {
        Ok(Some("x86"@))
    } else if rid == "linux-x64"@ || rid == "linux-arm64"@ || rid == "osx-arm64"@ {
        Ok(None)
    } else {
        Err(())
    }
}

/// A platform lookup result as characters.
pub open spec fn platform_view(r: Result<Option<&'static str>, String>) -> Result<Option<Seq<char>>, ()> {
    match r {
        Ok(Some(v)) => Ok(Some(v@)),
        Ok(None) => Ok(None),
        Err(_) => Err(()),
    }
}

/// Sidecar daemon file name placed under `runtimes/{rid}/native/`.
///
/// NuGet packs `dhara-sd` (not the FFI cdylib). Windows uses `.exe`; other RIDs use the
/// extensionless binary name until UDS transports ship.
pub fn native_lib_filename(rid: &str) -> (r: Result<&'static str, String>)
    ensures
        match r {
            Ok(name) => spec_native_lib_filename(rid@) == Some(name@),
            Err(e) => spec_native_lib_filename(rid@) is None && e@
                == "unsupported runtime identifier for daemon sidecar name: "@ + rid@,
        },
{
    if str_eq(rid, "win-x64") || str_eq(rid, "win-arm64") {
        Ok("dhara-sd.exe")
    } else if str_eq(rid, "linux-x64") || str_eq(rid, "linux-arm64") || str_eq(rid, "osx-arm64") {
        Ok("dhara-sd")
    } else {
        Err(concat("unsupported runtime identifier for daemon sidecar name: ", rid))
    }
}

/// Package-relative path for a daemon sidecar entry inside a `.nupkg`:
/// `runtimes/{rid}/native/{file}`.
pub fn package_native_path(rid: &str) -> (r: Result<String, String>)
    ensures
        match r {
            Ok(p) => spec_native_lib_filename(rid@) matches Some(name) && p@ == "runtimes/"@ + rid@
                + "/native/"@ + name,
            Err(e) => spec_native_lib_filename(rid@) is None && e@
                == "unsupported runtime identifier for daemon sidecar name: "@ + rid@,
        },
{
    let name = native_lib_filename(rid)?;
    let mut p = concat3("runtimes/", rid, "/native/");
    p.append(name);
    Ok(p)
}

/// True when `rid` is the host's own RID (see `spec_is_native`).
pub fn is_rid_native_on_host(rid: &str, host_os: &str, host_arch: &str) -> (r: bool)
    ensures
        r == spec_is_native(rid@, host_os@, host_arch@),
{
    if str_eq(host_os, "windows") {
        (str_eq(host_arch, "x86_64") && str_eq(rid, "win-x64")) || (str_eq(host_arch, "aarch64") && str_eq(
            rid,
            "win-arm64",
        ))
    } else if str_eq(host_os, "linux") {
        (str_eq(host_arch, "x86_64") && str_eq(rid, "linux-x64")) || (str_eq(host_arch, "aarch64")
            && str_eq(rid, "linux-arm64"))
    } else if str_eq(host_os, "macos") {
        str_eq(rid, "osx-arm64")
    } else {
        false
    }
}

/// True when the host can build `rid`, cross-compiling included (see `spec_is_buildable`).
pub fn is_rid_buildable_on_host(rid: &str, host_os: &str, host_arch: &str) -> (r: bool)
    ensures
        r == spec_is_buildable(rid@, host_os@, host_arch@),
{
    if is_rid_native_on_host(rid, host_os, host_arch) {
        return true;
    }
    str_eq(host_os, "windows") && str_eq(host_arch, "x86_64") && str_eq(rid, "win-arm64")
}

/// RIDs to stage on a host with OS `host_os` and CPU `host_arch` (the values of
/// `std::env::consts::OS` and `ARCH`).
///
/// When `include_cross_native` is false (default for local `build run`), only the host-native
/// RID is built (for example `win-x64` on Windows x64). When true, also includes cross-compiled
/// targets buildable on this host (for example `win-arm64` from Windows x64 via MSVC).
pub fn staging_runtimes_on_host(
    all_runtimes: &[String],
    include_cross_native: bool,
    host_os: &str,
    host_arch: &str,
) -> (r: Vec<String>)
    ensures
        string_views(r@) == spec_staging(string_views(all_runtimes@), include_cross_native, host_os@, host_arch@),
{
    let ghost all = string_views(all_runtimes@);
    let ghost pred = |x: Seq<char>|
        if include_cross_native {
            spec_is_buildable(x, host_os@, host_arch@)
        } else {
            spec_is_native(x, host_os@, host_arch@)
        };
    let mut out: Vec<String> = Vec::new();
    let mut i: usize = 0;
    assert(string_views(out@) =~= all.take(0).filter(pred));
    while i < all_runtimes.len()
        invariant
            i <= all_runtimes@.len(),
            all == string_views(all_runtimes@),
            pred == (|x: Seq<char>|
                if include_cross_native {
                    spec_is_buildable(x, host_os@, host_arch@)
                } else {
                    spec_is_native(x, host_os@, host_arch@)
                }),
            string_views(out@) == all.take(i as int).filter(pred),
        decreases all_runtimes.len() - i,
    {
        let rid = all_runtimes[i].as_str();
        let keep = if include_cross_native {
            is_rid_buildable_on_host(rid, host_os, host_arch)
        } else {
            is_rid_native_on_host(rid, host_os, host_arch)
        };
        let ghost before = out@;
        proof {
            assert(all.take(i + 1) =~= all.take(i as int).push(all[i as int]));
            assert(all[i as int] == all_runtimes@[i as int]@);
            assert(keep == pred(all[i as int]));
            all.take(i as int).lemma_filter_push(all[i as int], pred);
        }
        if keep {
            out.push(all_runtimes[i].clone());
            proof {
                crate::command::lemma_string_views_push(before, all_runtimes@[i as int]);
            }
        }
        i += 1;
    }
    proof {
        assert(all.take(all.len() as int) =~= all);
        if include_cross_native {
            assert(pred =~= (|r: Seq<char>| spec_is_buildable(r, host_os@, host_arch@)));
        } else {
            assert(pred =~= (|r: Seq<char>| spec_is_native(r, host_os@, host_arch@)));
        }
    }
    out
}

/// MSBuild `Platform` value when required for a RID.
pub fn platform(runtime: &str) -> (r: Result<Option<&'static str>, String>)
    ensures
        platform_view(r) == spec_platform(runtime@),
        r matches Err(e) ==> e@ == "unsupported runtime for Platform inference: "@ + runtime@,
{
    if str_eq(runtime, "win-x64") {
        Ok(Some("x64"))
    } else if str_eq(runtime, "win-arm64") {
        Ok(Some("ARM64"))
    } else if str_eq(runtime, "win-x86") {
        Ok(Some("x86"))
    } else if str_eq(runtime, "linux-x64") || str_eq(runtime, "linux-arm64") || str_eq(runtime, "osx-arm64") {
        Ok(None)
    } else {
        Err(concat("unsupported runtime for Platform inference: ", runtime))
    }
}

/// MSBuild `PlatformTarget` value when required for a RID.
pub fn platform_target(runtime: &str) -> (r: Result<Option<&'static str>, String>)
    ensures
        platform_view(r) == spec_platform_target(runtime@),
        r matches Err(e) ==> e@ == "unsupported runtime for PlatformTarget inference: "@ + runtime@,
{
    if str_eq(runtime, "win-x64") {
        Ok(Some("x64"))
    } else if str_eq(runtime, "win-arm64") {
        Ok(Some("arm64"))
    } else if str_eq(runtime, "win-x86") {
        Ok(Some("x86"))
    } else if str_eq(runtime, "linux-x64") || str_eq(runtime, "linux-arm64") || str_eq(runtime, "osx-arm64") {
        Ok(None)
    } else {
        Err(concat("unsupported runtime for PlatformTarget inference: ", runtime))
    }
}

/// Every RID native to a host is buildable on it, so host-only staging never stages a RID that
/// cross-native staging would leave out.
pub proof fn law_native_is_buildable(rid: Seq<char>, os: Seq<char>, arch: Seq<char>)
    ensures
        spec_is_native(rid, os, arch) ==> spec_is_buildable(rid, os, arch),
{
}

/// A RID with a sidecar name is one the MSBuild platform lookups know.
pub proof fn law_named_rids_have_platforms(rid: Seq<char>)
    ensures
        spec_native_lib_filename(rid) is Some ==> (spec_platform(rid) is Ok && spec_platform_target(rid) is Ok),
{
}

/// The operating-system part of a RID for a host OS (`std::env::consts::OS`).
pub open spec fn rid_os_word(os: Seq<char>) -> Seq<char> {
    if os == "windows"@ {
        "win"@
    } else if os == "linux"@ {
        "linux"@
    } else {
        "osx"@
    }
}

/// The CPU part of a RID for a host CPU (`std::env::consts::ARCH`): `x64` for `x86_64`, `arm64`
/// for `aarch64`.
pub open spec fn rid_arch_word(arch: Seq<char>) -> Seq<char> {
    if arch == "x86_64"@ {
        "x64"@
    } else {
        "arm64"@
    }
}

/// A Windows or Linux host's native RID names the host's own OS and CPU, `<os>-<cpu>`, and is
/// the only RID native to it; a host with another CPU has none. A macOS host's native RID is
/// `osx-arm64`; any other OS has none. So a Windows ARM64 host's native RID is `win-arm64`,
/// never `win-x64`.
pub proof fn law_native_rid_names_the_host(rid: Seq<char>, os: Seq<char>, arch: Seq<char>)
    ensures
        os == "windows"@ || os == "linux"@ ==> (spec_is_native(rid, os, arch) <==> ((arch == "x86_64"@ || arch
            == "aarch64"@) && rid == rid_os_word(os) + "-"@ + rid_arch_word(arch))),
        os == "macos"@ ==> (spec_is_native(rid, os, arch) <==> rid == rid_os_word(os) + "-"@ + "arm64"@),
        os != "windows"@ && os != "linux"@ && os != "macos"@ ==> !spec_is_native(rid, os, arch),
{
    reveal_strlit("windows");
    reveal_strlit("linux");
    reveal_strlit("macos");
    reveal_strlit("x86_64");
    reveal_strlit("aarch64");
    reveal_strlit("win");
    reveal_strlit("osx");
    reveal_strlit("-");
    reveal_strlit("x64");
    reveal_strlit("arm64");
    reveal_strlit("win-x64");
    reveal_strlit("win-arm64");
    reveal_strlit("linux-x64");
    reveal_strlit("linux-arm64");
    reveal_strlit("osx-arm64");
    assert("win"@ + "-"@ + "x64"@ =~= "win-x64"@);
    assert("win"@ + "-"@ + "arm64"@ =~= "win-arm64"@);
    assert("linux"@ + "-"@ + "x64"@ =~= "linux-x64"@);
    assert("linux"@ + "-"@ + "arm64"@ =~= "linux-arm64"@);
    assert("osx"@ + "-"@ + "arm64"@ =~= "osx-arm64"@);
    assert("windows"@.len() != "linux"@.len() && "windows"@.len() != "macos"@.len());
    assert("linux"@[0] != "macos"@[0]);
    assert("x86_64"@.len() != "aarch64"@.len());
    if os == "windows"@ || os == "linux"@ {
        let ow = rid_os_word(os);
        if arch == "x86_64"@ {
            assert(rid_arch_word(arch) == "x64"@);
        } else if arch == "aarch64"@ {
            assert(rid_arch_word(arch) == "arm64"@);
        }
        if os == "windows"@ {
            assert(ow == "win"@);
        } else {
            assert(ow == "linux"@);
        }
    } else if os == "macos"@ {
        assert(rid_os_word(os) == "osx"@);
    }
}

/// The sidecar of a supported RID is the `dhara-sd` binary, with `.exe` exactly on Windows
/// RIDs (`win-...`); and every RID native to a host has a sidecar.
pub proof fn law_sidecar_name(rid: Seq<char>, os: Seq<char>, arch: Seq<char>)
    ensures
        spec_native_lib_filename(rid) matches Some(n) ==> n == "dhara-sd"@ + (if crate::text::has_prefix(rid, "win-"@) {
            ".exe"@
        } else {
            Seq::<char>::empty()
        }),
        spec_is_native(rid, os, arch) ==> spec_native_lib_filename(rid) is Some,
{
    reveal_strlit("dhara-sd");
    reveal_strlit("dhara-sd.exe");
    reveal_strlit(".exe");
    reveal_strlit("win-");
    reveal_strlit("win-x64");
    reveal_strlit("win-arm64");
    reveal_strlit("linux-x64");
    reveal_strlit("linux-arm64");
    reveal_strlit("osx-arm64");
    assert("dhara-sd"@ + ".exe"@ =~= "dhara-sd.exe"@);
    assert("dhara-sd"@ + Seq::<char>::empty() =~= "dhara-sd"@);
    if rid == "win-x64"@ || rid == "win-arm64"@ {
        assert(rid.subrange(0, 4) =~= "win-"@);
    } else if rid == "linux-x64"@ || rid == "linux-arm64"@ || rid == "osx-arm64"@ {
        assert(rid.subrange(0, 4)[0] != "win-"@[0]);
    }
}

/// Host-only staging stages exactly the configured RIDs native to the host, and cross-native
/// staging exactly those the host can build (so everything host-only staging stages, and on
/// Windows x64 also `win-arm64`).
pub proof fn law_staging_picks(all: Seq<Seq<char>>, os: Seq<char>, arch: Seq<char>, r: Seq<char>)
    ensures
        spec_staging(all, false, os, arch).contains(r) <==> (all.contains(r) && spec_is_native(r, os, arch)),
        spec_staging(all, true, os, arch).contains(r) <==> (all.contains(r) && spec_is_buildable(r, os, arch)),
{
    broadcast use vstd::seq_lib::group_filter_ensures;

    let pn = |x: Seq<char>| spec_is_native(x, os, arch);
    let pb = |x: Seq<char>| spec_is_buildable(x, os, arch);
    assert(spec_staging(all, false, os, arch) == all.filter(pn));
    assert(spec_staging(all, true, os, arch) == all.filter(pb));
    if all.filter(pn).contains(r) {
        let i = choose|i: int| 0 <= i < all.filter(pn).len() && all.filter(pn)[i] == r;
        assert(pn(all.filter(pn)[i]));
        all.lemma_filter_contains_rev(pn, r);
    }
    if all.filter(pb).contains(r) {
        let i = choose|i: int| 0 <= i < all.filter(pb).len() && all.filter(pb)[i] == r;
        assert(pb(all.filter(pb)[i]));
        all.lemma_filter_contains_rev(pb, r);
    }
    if all.contains(r) {
        let i = choose|i: int| 0 <= i < all.len() && all[i] == r;
        if pn(r) {
            all.lemma_filter_contains(pn, i);
        }
        if pb(r) {
            all.lemma_filter_contains(pb, i);
        }
    }
}

} // verus!
