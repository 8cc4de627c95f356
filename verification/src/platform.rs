//! Platform tags and the mapping from an operating system and architecture to a tag.

use vstd::prelude::*;
use crate::text::str_eq;

verus! {

/// The key by which a recipe is chosen.
#[derive(Clone, Copy, Debug, PartialEq, Eq, Structural)]
pub enum PlatformTag {
    LinuxAmd64,
    LinuxArm64,
    MacOS,
    Windows,
}

/// The tag of an operating system and architecture, if the pair has one:
/// linux on x86_64 and on aarch64 have one each, macos and windows have one
/// whatever the architecture, and no other pair has any.
pub open spec fn platform_tag_of(os: Seq<char>, arch: Seq<char>) -> Option<PlatformTag> {
    if os == "linux"@ {
        if arch == "x86_64"@ {
            Some(PlatformTag::LinuxAmd64)
        } else if arch == "aarch64"@ {
            Some(PlatformTag::LinuxArm64)
        } else {
            None
        }
    } else if os == "macos"@ {
        Some(PlatformTag::MacOS)
    } else if os == "windows"@ {
        Some(PlatformTag::Windows)
    } else {
        None
    }
}

/// Computes the tag of an operating system and architecture.
pub fn platform_tag(os: &str, arch: &str) -> (r: Option<PlatformTag>)
    ensures
        r == platform_tag_of(os@, arch@),
{
    if str_eq(os, "linux") {
        if str_eq(arch, "x86_64") {
            Some(PlatformTag::LinuxAmd64)
        } else if str_eq(arch, "aarch64") {
            Some(PlatformTag::LinuxArm64)
        } else {
            None
        }
    } else if str_eq(os, "macos") {
        Some(PlatformTag::MacOS)
    } else if str_eq(os, "windows") {
        Some(PlatformTag::Windows)
    } else {
        None
    }
}

/// The operating system names are pairwise distinct, so the mapping reads as a
/// table: linux/x86_64 and linux/aarch64 have their tags, macos and windows
/// have theirs for every architecture, and freebsd has none.
pub proof fn lemma_platform_table(arch: Seq<char>)
    ensures
        platform_tag_of("linux"@, "x86_64"@) == Some(PlatformTag::LinuxAmd64),
        platform_tag_of("linux"@, "aarch64"@) == Some(PlatformTag::LinuxArm64),
        platform_tag_of("macos"@, arch) == Some(PlatformTag::MacOS),
        platform_tag_of("windows"@, arch) == Some(PlatformTag::Windows),
        platform_tag_of("freebsd"@, arch) == None::<PlatformTag>,
        arch != "x86_64"@ && arch != "aarch64"@ ==> platform_tag_of("linux"@, arch)
            == None::<PlatformTag>,
{
    reveal_strlit("linux");
    reveal_strlit("macos");
    reveal_strlit("windows");
    reveal_strlit("freebsd");
    reveal_strlit("x86_64");
    reveal_strlit("aarch64");
    assert("linux"@.len() == 5);
    assert("macos"@.len() == 5);
    assert("windows"@.len() == 7);
    assert("freebsd"@.len() == 7);
    assert("x86_64"@.len() == 6);
    assert("aarch64"@.len() == 7);
    assert("linux"@[0] == 'l');
    assert("macos"@[0] == 'm');
    assert("freebsd"@[0] == 'f');
    assert("windows"@[0] == 'w');
}

} // verus!
