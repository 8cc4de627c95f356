//! Template expansion: artifact addresses and commands with placeholders for
//! the version, the operating system and the architecture.

use vstd::prelude::*;
use vstd::string::*;
use crate::text::{chars_of, opt_view};

verus! {

/// `String::push`: appends the character to the end of the string.
pub assume_specification[ String::push ](s: &mut String, ch: char)
    ensures
        final(s)@ == old(s)@.push(ch),
;

/// The placeholder of the version: `{version}`.
pub open spec fn version_key() -> Seq<char> {
    seq!['{', 'v', 'e', 'r', 's', 'i', 'o', 'n', '}']
}

/// The placeholder of the operating system: `{os}`.
pub open spec fn os_key() -> Seq<char> {
    seq!['{', 'o', 's', '}']
}

/// The placeholder of the architecture: `{arch}`.
pub open spec fn arch_key() -> Seq<char> {
    seq!['{', 'a', 'r', 'c', 'h', '}']
}

/// A value in front of an expansion, where there is one.
pub open spec fn prepend(head: Seq<char>, rest: Option<Seq<char>>) -> Option<Seq<char>> {
    match rest {
        Some(r) => Some(head + r),
        None => None,
    }
}

/// The template with each placeholder replaced by its value. An opening
/// brace that begins none of the three placeholders makes the template
/// invalid, and it has no expansion.
pub open spec fn expand_of(t: Seq<char>, version: Seq<char>, os: Seq<char>, arch: Seq<char>) -> Option<
    Seq<char>,
>
    decreases t.len(),
{
    if t.len() == 0 {
        Some(Seq::empty())
    } else if t[0] != '{' {
        prepend(seq![t[0]], expand_of(t.skip(1), version, os, arch))
    } else if version_key().is_prefix_of(t) {
        prepend(version, expand_of(t.skip(9), version, os, arch))
    } else if os_key().is_prefix_of(t) {
        prepend(os, expand_of(t.skip(4), version, os, arch))
    } else if arch_key().is_prefix_of(t) {
        prepend(arch, expand_of(t.skip(6), version, os, arch))
    } else {
        None
    }
}

/// Whether a template holds no opening brace but those of the three placeholders.
pub open spec fn valid_template(t: Seq<char>) -> bool {
    expand_of(t, Seq::empty(), Seq::empty(), Seq::empty()) is Some
}

/// Whether every template of a list is valid.
pub open spec fn valid_templates(ts: Seq<Seq<char>>) -> bool {
    forall|i: int| 0 <= i < ts.len() ==> valid_template(#[trigger] ts[i])
}

/// A template has an expansion for some values exactly if it has one for
/// every value: validity is a property of the template alone.
pub proof fn lemma_valid_expands(t: Seq<char>, version: Seq<char>, os: Seq<char>, arch: Seq<char>)
    ensures
        expand_of(t, version, os, arch) is Some <==> valid_template(t),
    decreases t.len(),
{
    if t.len() == 0 {
    } else if t[0] != '{' {
        lemma_valid_expands(t.skip(1), version, os, arch);
    } else if version_key().is_prefix_of(t) {
        lemma_valid_expands(t.skip(9), version, os, arch);
    } else if os_key().is_prefix_of(t) {
        lemma_valid_expands(t.skip(4), version, os, arch);
    } else if arch_key().is_prefix_of(t) {
        lemma_valid_expands(t.skip(6), version, os, arch);
    }
}

/// A template without an opening brace expands to itself.
pub proof fn lemma_plain_expands(t: Seq<char>, version: Seq<char>, os: Seq<char>, arch: Seq<char>)
    requires
        forall|i: int| 0 <= i < t.len() ==> t[i] != '{',
    ensures
        expand_of(t, version, os, arch) == Some(t),
    decreases t.len(),
{
    if t.len() > 0 {
        lemma_plain_expands(t.skip(1), version, os, arch);
        assert(seq![t[0]] + t.skip(1) =~= t);
    } else {
        assert(t =~= Seq::<char>::empty());
    }
}

/// Whether the key stands in the text at the position.
fn key_at(t: &Vec<char>, i: usize, key: &Vec<char>) -> (r: bool)
    requires
        i <= t.len(),
    ensures
        r == key@.is_prefix_of(t@.skip(i as int)),
{
    if key.len() > t.len() - i {
        return false;
    }
    let mut k: usize = 0;
    while k < key.len()
        invariant
            k <= key.len(),
            i <= t.len(),
            key.len() <= t.len() - i,
            forall|j: int| 0 <= j < k ==> key[j] == t[i + j],
        decreases key.len() - k,
    {
        if key[k] != t[i + k] {
            assert(t@.skip(i as int).subrange(0, key.len() as int)[k as int] == t[i + k]);
            return false;
        }
        k += 1;
    }
    assert(key@ =~= t@.skip(i as int).subrange(0, key.len() as int));
    true
}

/// Expands a template, or finds it invalid.
pub fn expand(template: &str, version: &str, os: &str, arch: &str) -> (r: Option<String>)
    ensures
        opt_view(r) == expand_of(template@, version@, os@, arch@),
{
    let t = chars_of(template);
    let version_chars: Vec<char> = vec!['{', 'v', 'e', 'r', 's', 'i', 'o', 'n', '}'];
    let os_chars: Vec<char> = vec!['{', 'o', 's', '}'];
    let arch_chars: Vec<char> = vec!['{', 'a', 'r', 'c', 'h', '}'];
    assert(version_chars@ =~= version_key());
    assert(os_chars@ =~= os_key());
    assert(arch_chars@ =~= arch_key());
    let mut out = String::new();
    let mut i: usize = 0;
    assert(t@.skip(0) =~= t@);
    assert(out@ + expand_of(t@, version@, os@, arch@).unwrap() =~= expand_of(
        t@,
        version@,
        os@,
        arch@,
    ).unwrap());
    while i < t.len()
        invariant
            i <= t.len(),
            t@ == template@,
            version_chars@ == version_key(),
            os_chars@ == os_key(),
            arch_chars@ == arch_key(),
            expand_of(template@, version@, os@, arch@) == prepend(
                out@,
                expand_of(t@.skip(i as int), version@, os@, arch@),
            ),
        decreases t.len() - i,
    {
        let ghost rest = t@.skip(i as int);
        let ghost before = out@;
        assert(rest.len() > 0 && rest[0] == t[i as int]);
        if t[i] != '{' {
            out.push(t[i]);
            proof {
                assert(rest.skip(1) =~= t@.skip(i + 1));
                let tail = expand_of(rest.skip(1), version@, os@, arch@);
                if tail is Some {
                    assert(before + (seq![t[i as int]] + tail.unwrap()) =~= before.push(t[i as int])
                        + tail.unwrap());
                }
            }
            i += 1;
        } else if key_at(&t, i, &version_chars) {
            out.append(version);
            proof {
                assert(rest.skip(9) =~= t@.skip(i + 9));
                let tail = expand_of(rest.skip(9), version@, os@, arch@);
                if tail is Some {
                    assert(before + (version@ + tail.unwrap()) =~= (before + version@)
                        + tail.unwrap());
                }
            }
            i += 9;
        } else if key_at(&t, i, &os_chars) {
            out.append(os);
            proof {
                assert(rest.skip(4) =~= t@.skip(i + 4));
                let tail = expand_of(rest.skip(4), version@, os@, arch@);
                if tail is Some {
                    assert(before + (os@ + tail.unwrap()) =~= (before + os@) + tail.unwrap());
                }
            }
            i += 4;
        } else if key_at(&t, i, &arch_chars) {
            out.append(arch);
            proof {
                assert(rest.skip(6) =~= t@.skip(i + 6));
                let tail = expand_of(rest.skip(6), version@, os@, arch@);
                if tail is Some {
                    assert(before + (arch@ + tail.unwrap()) =~= (before + arch@) + tail.unwrap());
                }
            }
            i += 6;
        } else {
            return None;
        }
    }
    assert(t@.skip(i as int) =~= Seq::<char>::empty());
    assert(out@ + Seq::<char>::empty() =~= out@);
    Some(out)
}

/// Whether a template is valid.
pub fn is_valid(template: &str) -> (r: bool)
    ensures
        r == valid_template(template@),
{
    let r = expand(template, "", "", "");
    proof {
        lemma_valid_expands(template@, ""@, ""@, ""@);
    }
    r.is_some()
}

} // verus!
