//! Header staging decisions for the binding generator: which include-name
//! spelling a header should use for a target, and which generator triple a
//! toolchain triple maps to.

use crate::text::{
    chars_to_string, ends_with, replace_all, spec_ends_with, spec_replace_all, str_eq,
    str_to_chars,
};
use vstd::prelude::*;

verus! {

/// The header text prepared for a target: on a target whose environment
/// spells the platform header with a capital, every lower-case spelling is
/// capitalized; on every other target the opposite replacement is made.
pub open spec fn spec_preprocess_header(content: Seq<char>, target: Option<Seq<char>>) -> Seq<
    char,
> {
    let msvc = match target {
        Some(t) => spec_ends_with(t, "-msvc"@),
        None => false,
    };
    if msvc {
        spec_replace_all(content, "windows.h"@, "Windows.h"@)
    } else {
        spec_replace_all(content, "Windows.h"@, "windows.h"@)
    }
}

/// Rewrite the platform-header include spelling in a header's text for the
/// given target.
pub fn preprocess_header(content: &str, target: Option<&str>) -> (r: String)
    ensures
        r@ == spec_preprocess_header(
            content@,
            match target {
                Some(t) => Some(t@),
                None => None,
            },
        ),
{
    let c = str_to_chars(content);
    let msvc = match target {
        Some(t) => {
            let tc = str_to_chars(t);
            let suffix = str_to_chars("-msvc");
            ends_with(&tc, &suffix)
        },
        None => false,
    };
    let lower = str_to_chars("windows.h");
    let upper = str_to_chars("Windows.h");
    let out = if msvc {
        replace_all(&c, &lower, &upper)
    } else {
        replace_all(&c, &upper, &lower)
    };
    chars_to_string(&out)
}

/// The target translation table: the toolchain's target triple against the
/// code generator's.
pub open spec fn spec_rust_to_llvm_target(target: Seq<char>) -> Option<Seq<char>> {
    if target == "x86_64-pc-windows-gnu"@ {
        Some("x86_64-w64-mingw32"@)
    } else if target == "i686-pc-windows-gnu"@ {
        Some("i686-w64-mingw32"@)
    } else if target == "aarch64-pc-windows-gnu"@ {
        Some("aarch64-w64-mingw32"@)
    } else if target == "x86_64-pc-windows-gnullvm"@ {
        Some("x86_64-w64-mingw32"@)
    } else if target == "i686-pc-windows-gnullvm"@ {
        Some("i686-w64-mingw32"@)
    } else if target == "aarch64-pc-windows-gnullvm "@ {
        Some("aarch64-w64-mingw32"@)
    } else if target == "x86_64-pc-windows-msvc"@ {
        Some("x86_64-windows-msvc"@)
    } else if target == "i686-pc-windows-msvc"@ {
        Some("i686-windows-msvc"@)
    } else if target == "aarch64-pc-windows-msvc"@ {
        Some("aarch64-windows-msvc"@)
    } else {
        None
    }
}

/// Translate a toolchain target triple to the code generator's triple.
pub fn rust_to_llvm_target(target: &str) -> (r: Option<&'static str>)
    ensures
        match r {
            Some(t) => spec_rust_to_llvm_target(target@) == Some(t@),
            None => spec_rust_to_llvm_target(target@) is None,
        },
{
    if str_eq(target, "x86_64-pc-windows-gnu") {
        Some("x86_64-w64-mingw32")
    } else if str_eq(target, "i686-pc-windows-gnu") {
        Some("i686-w64-mingw32")
    } else if str_eq(target, "aarch64-pc-windows-gnu") {
        Some("aarch64-w64-mingw32")
    } else if str_eq(target, "x86_64-pc-windows-gnullvm") {
        Some("x86_64-w64-mingw32")
    } else if str_eq(target, "i686-pc-windows-gnullvm") {
        Some("i686-w64-mingw32")
    } else if str_eq(target, "aarch64-pc-windows-gnullvm ") {
        Some("aarch64-w64-mingw32")
    } else if str_eq(target, "x86_64-pc-windows-msvc") {
        Some("x86_64-windows-msvc")
    } else if str_eq(target, "i686-pc-windows-msvc") {
        Some("i686-windows-msvc")
    } else if str_eq(target, "aarch64-pc-windows-msvc") {
        Some("aarch64-windows-msvc")
    } else {
        None
    }
}

} // verus!
