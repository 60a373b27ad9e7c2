//! What a build asks cargo for, and where its artifacts go.
use vstd::prelude::*;

use rand::RngCore;

use crate::target::{NodePlatform, Target};
use crate::text::{contains, contains_exec, replace_char, replace_char_exec, views};

verus! {

/// Cargo's feature flags for the chosen feature options.
pub open spec fn feature_args_spec(
    all_features: bool,
    no_default_features: bool,
    features: Seq<Seq<char>>,
) -> Seq<Seq<char>> {
    if all_features {
        seq!["--all-features"@]
    } else if no_default_features {
        seq!["--no-default-features"@]
    } else if features.len() > 0 {
        seq!["--features"@] + features
    } else {
        seq![]
    }
}

/// Cargo's feature flags: all features, else no default features, else the
/// listed ones.
pub fn feature_args(all_features: bool, no_default_features: bool, features: &Vec<String>) -> (r:
    Vec<String>)
    ensures
        views(r@) == feature_args_spec(all_features, no_default_features, views(features@)),
{
    let mut args: Vec<String> = Vec::new();
    if all_features {
        args.push("--all-features".to_string());
    } else if no_default_features {
        args.push("--no-default-features".to_string());
    } else if features.len() > 0 {
        args.push("--features".to_string());
        let mut i: usize = 0;
        while i < features.len()
            invariant
                i <= features@.len(),
                views(args@) == seq!["--features"@] + views(features@.subrange(0, i as int)),
            decreases features@.len() - i,
        {
            let ghost before = args@;
            args.push(features[i].clone());
            i += 1;
            assert(views(args@) =~= views(before).push(features@[i - 1]@));
            assert(views(features@.subrange(0, i as int)) =~= views(
                features@.subrange(0, i - 1),
            ).push(features@[i - 1]@));
        }
        assert(features@.subrange(0, features@.len() as int) =~= features@);
    }
    assert(views(args@) =~= feature_args_spec(all_features, no_default_features, views(features@)));
    args
}

/// Cargo's package flags: `-p` with the package, then `--bin` for a binary.
pub open spec fn package_args_spec(package: Option<Seq<char>>, bin: bool) -> Seq<Seq<char>> {
    (match package {
        Some(p) => seq!["-p"@, p],
        None => seq![],
    }) + if bin {
        seq!["--bin"@]
    } else {
        seq![]
    }
}

/// Cargo's package flags.
pub fn package_args(package: &Option<String>, bin: bool) -> (r: Vec<String>)
    ensures
        views(r@) == package_args_spec(
            match package {
                Some(p) => Some(p@),
                None => None,
            },
            bin,
        ),
{
    let mut args: Vec<String> = Vec::new();
    match package {
        Some(p) => {
            args.push("-p".to_string());
            args.push(p.clone());
        },
        None => {},
    }
    if bin {
        args.push("--bin".to_string());
    }
    assert(views(args@) =~= package_args_spec(
        match package {
            Some(p) => Some(p@),
            None => None,
        },
        bin,
    ));
    args
}

/// `RUSTFLAGS` for a build: the existing flags, plus dynamic C runtime
/// linking on musl and symbol stripping when asked, each unless present.
pub open spec fn rust_flags_spec(existing: Seq<char>, target: Seq<char>, strip: bool) -> Seq<char> {
    let with_crt = if contains(target, "musl"@) && !contains(existing, "target-feature=-crt-static"@) {
        existing + " -C target-feature=-crt-static"@
    } else {
        existing
    };
    if strip && !contains(with_crt, "link-arg=-s"@) {
        with_crt + " -C link-arg=-s"@
    } else {
        with_crt
    }
}

/// `RUSTFLAGS` for a build, from the existing ones.
pub fn rust_flags(existing: &str, target: &str, strip: bool) -> (r: String)
    ensures
        r@ == rust_flags_spec(existing@, target@, strip),
{
    let mut flags = existing.to_string();
    if contains_exec(target, "musl") && !contains_exec(existing, "target-feature=-crt-static") {
        flags.append(" -C target-feature=-crt-static");
    }
    if strip && !contains_exec(flags.as_str(), "link-arg=-s") {
        flags.append(" -C link-arg=-s");
    }
    flags
}

/// A library build needs a `cdylib` target; a binary build needs none.
pub fn check_package(bin: bool, has_cdylib_target: bool) -> (r: bool)
    ensures
        r == (bin || has_cdylib_target),
{
    bin || has_cdylib_target
}

/// Whether a target's crate types include `cdylib`.
pub open spec fn is_cdylib(crate_types: Seq<Seq<char>>) -> bool {
    exists|k: int| 0 <= k < crate_types.len() && crate_types[k] == "cdylib"@
}

/// The first target, of targets given by their crate types, that is a `cdylib`.
pub fn find_cdylib(targets: &Vec<Vec<String>>) -> (r: Option<usize>)
    ensures
        match r {
            Some(i) => i < targets@.len() && is_cdylib(views(targets@[i as int]@)) && forall|j: int|
                0 <= j < i ==> !is_cdylib(views(#[trigger] targets@[j]@)),
            None => forall|j: int|
                0 <= j < targets@.len() ==> !is_cdylib(views(#[trigger] targets@[j]@)),
        },
{
    let mut i: usize = 0;
    while i < targets.len()
        invariant
            i <= targets@.len(),
            forall|j: int| 0 <= j < i ==> !is_cdylib(views(#[trigger] targets@[j]@)),
        decreases targets@.len() - i,
    {
        let types = &targets[i];
        let mut k: usize = 0;
        while k < types.len()
            invariant
                i < targets@.len(),
                k <= types@.len(),
                types == targets@[i as int],
                forall|j: int| 0 <= j < i ==> !is_cdylib(views(#[trigger] targets@[j]@)),
                forall|m: int| 0 <= m < k ==> views(types@)[m] != "cdylib"@,
            decreases types@.len() - k,
        {
            if crate::text::text_eq(types[k].as_str(), "cdylib") {
                assert(views(types@)[k as int] == "cdylib"@);
                assert(is_cdylib(views(targets@[i as int]@)));
                return Some(i);
            }
            k += 1;
        }
        i += 1;
    }
    None
}

/// Where the artifacts go: the output directory, else the working
/// directory, else the manifest's directory, else `./`.
pub fn resolve_output_dir(
    output_dir: Option<String>,
    cwd: Option<String>,
    manifest_dir: Option<String>,
) -> (r: String)
    ensures
        r@ == match (output_dir, cwd, manifest_dir) {
            (Some(o), _, _) => o@,
            (None, Some(c), _) => c@,
            (None, None, Some(m)) => m@,
            (None, None, None) => "./"@,
        },
{
    match output_dir {
        Some(o) => o,
        None => match cwd {
            Some(c) => c,
            None => match manifest_dir {
                Some(m) => m,
                None => "./".to_string(),
            },
        },
    }
}

/// The name the artifact is built under: the package's for a binary, the
/// library target's with `-` written `_` otherwise.
pub open spec fn artifact_base(is_binary: bool, package_name: Seq<char>, lib_name: Seq<char>) -> Seq<char> {
    if is_binary {
        package_name
    } else {
        replace_char(lib_name, '-', '_')
    }
}

/// The file cargo writes for the artifact.
pub open spec fn source_artifact(platform: NodePlatform, is_binary: bool, base: Seq<char>) -> Seq<char> {
    if is_binary {
        if platform == NodePlatform::Windows {
            base + ".exe"@
        } else {
            base
        }
    } else {
        match platform {
            NodePlatform::Darwin => "lib"@ + base + ".dylib"@,
            NodePlatform::Windows => base + ".dll"@,
            _ => "lib"@ + base + ".so"@,
        }
    }
}

/// The file the artifact is copied to: the same name for a binary, else
/// `index.node`, or `index.<platform-arch-abi>.node` with the platform in it.
pub open spec fn dest_artifact(
    is_binary: bool,
    source: Seq<char>,
    with_platform: bool,
    platform_arch_abi: Seq<char>,
) -> Seq<char> {
    if is_binary {
        source
    } else if with_platform {
        "index"@ + "."@ + platform_arch_abi + ".node"@
    } else {
        "index"@ + ".node"@
    }
}

/// The source and destination file names of the built artifact.
pub fn artifact_names(
    target: &Target,
    is_binary: bool,
    package_name: &str,
    lib_name: &str,
    with_platform: bool,
) -> (r: (String, String))
    ensures
        r.0@ == source_artifact(
            target.platform,
            is_binary,
            artifact_base(is_binary, package_name@, lib_name@),
        ),
        r.1@ == dest_artifact(is_binary, r.0@, with_platform, target.platform_arch_abi@),
{
    proof {
        reveal_strlit("_");
    }
    let name = if is_binary {
        package_name.to_string()
    } else {
        replace_char_exec(lib_name, '-', "_")
    };
    let is_windows = match target.platform {
        NodePlatform::Windows => true,
        _ => false,
    };
    let src_name = if is_binary {
        if is_windows {
            name.concat(".exe")
        } else {
            name
        }
    } else {
        match target.platform {
            NodePlatform::Darwin => "lib".to_string().concat(name.as_str()).concat(".dylib"),
            NodePlatform::Windows => name.concat(".dll"),
            _ => "lib".to_string().concat(name.as_str()).concat(".so"),
        }
    };
    let dest_name = if is_binary {
        src_name.clone()
    } else if with_platform {
        "index".to_string().concat(".").concat(target.platform_arch_abi.as_str()).concat(".node")
    } else {
        "index".to_string().concat(".node")
    };
    (src_name, dest_name)
}

/// Upper-case hexadecimal digits.
pub open spec fn hex_digits() -> Seq<char> {
    "0123456789ABCDEF"@
}

/// Two upper-case hexadecimal digits per byte.
pub open spec fn hex_upper(b: Seq<u8>) -> Seq<char>
    decreases b.len(),
{
    if b.len() == 0 {
        seq![]
    } else {
        hex_upper(b.drop_last()) + seq![
            hex_digits()[(b.last() / 16) as int],
            hex_digits()[(b.last() % 16) as int],
        ]
    }
}

/// The name of the file that collects type definitions during a build.
pub open spec fn type_def_file_name_spec(b: Seq<u8>) -> Seq<char> {
    "type_def."@ + hex_upper(b) + ".tmp"@
}

/// `type_def.<HEX>.tmp`, naming the bytes `b` in upper-case hexadecimal.
pub fn type_def_file_name(b: &Vec<u8>) -> (r: String)
    ensures
        r@ == type_def_file_name_spec(b@),
{
    let digits = "0123456789ABCDEF";
    proof {
        reveal_strlit("0123456789ABCDEF");
    }
    let mut hex = String::new();
    let mut i: usize = 0;
    while i < b.len()
        invariant
            i <= b@.len(),
            digits@ == hex_digits(),
            digits@.len() == 16,
            hex@ == hex_upper(b@.subrange(0, i as int)),
        decreases b@.len() - i,
    {
        let byte = b[i];
        let hi = (byte / 16) as usize;
        let lo = (byte % 16) as usize;
        hex.append(digits.substring_char(hi, hi + 1));
        hex.append(digits.substring_char(lo, lo + 1));
        i += 1;
        assert(b@.subrange(0, i as int).drop_last() =~= b@.subrange(0, i - 1));
        assert(hex@ =~= hex_upper(b@.subrange(0, i as int)));
    }
    assert(b@.subrange(0, b@.len() as int) =~= b@);
    "type_def.".to_string().concat(hex.as_str()).concat(".tmp")
}

/// Relies on rand's `thread_rng` and `ThreadRng::fill_bytes`, which
/// overwrites the bytes of the buffer in place, so its length is kept. Nothing
/// is claimed of the values. (It panics only if the operating system's random
/// source fails: when `thread_rng` is first used on a thread, or when the
/// generator reseeds itself from it.)
#[verifier::external_body]
fn random_bytes(len: usize) -> (r: Vec<u8>)
    ensures
        r@.len() == len,
{
    let mut data = vec![0u8; len];
    rand::thread_rng().fill_bytes(&mut data);
    data
}

/// A fresh name for the type-definition file: sixteen random bytes in hexadecimal.
pub fn intermediate_type_file_name() -> (r: String)
    ensures
        exists|b: Seq<u8>| b.len() == 16 && r@ == type_def_file_name_spec(b),
{
    let bytes = random_bytes(16);
    type_def_file_name(&bytes)
}

/// The package to build: the workspace's root package if there is one, else
/// the first package named `wanted`, if a name is given.
pub fn select_package(root: Option<usize>, names: &Vec<String>, wanted: &Option<String>) -> (r:
    Option<usize>)
    ensures
        root is Some ==> r == root,
        root is None && wanted is None ==> r is None,
        root is None && wanted is Some ==> match r {
            Some(i) => i < names@.len() && names@[i as int]@ == wanted->0@ && forall|j: int|
                0 <= j < i ==> (#[trigger] names@[j])@ != wanted->0@,
            None => forall|j: int| 0 <= j < names@.len() ==> (#[trigger] names@[j])@ != wanted->0@,
        },
{
    if root.is_some() {
        return root;
    }
    match wanted {
        None => None,
        Some(w) => {
            let mut i: usize = 0;
            while i < names.len()
                invariant
                    i <= names@.len(),
                    root is None,
                    *wanted == Some(*w),
                    forall|j: int| 0 <= j < i ==> (#[trigger] names@[j])@ != w@,
                decreases names@.len() - i,
            {
                if names[i].eq(w) {
                    return Some(i);
                }
                i += 1;
            }
            None
        },
    }
}

} // verus!
