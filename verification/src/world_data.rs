//! How resource nodes are extracted, and the names shown for them.

use crate::reader::push_char;
use crate::strings::{
    chars_occur_at, chars_to_string, occurs_at, seq_ends_with, seq_starts_with, str_eq,
    str_to_chars,
};
use vstd::prelude::*;

verus! {

/// How a resource node is worked.
#[derive(Debug, Clone, Copy, PartialEq, Eq, Structural)]
pub enum ExtractionMethod {
    Miner,
    OilExtractor,
    ResourceWellExtractor,
    ResourceWellCore,
    ManualDeposit,
}

impl Default for ExtractionMethod {
    fn default() -> (r: Self)
        ensures
            r == ExtractionMethod::Miner,
    {
        ExtractionMethod::Miner
    }
}

/// Node types of the world table decide the method; other nodes are worked
/// by an oil extractor when they hold crude oil, else by a miner.
pub open spec fn spec_extraction_method(resource: Seq<char>, node_type: Seq<char>) -> ExtractionMethod {
    if node_type == "frackingSatellite"@ {
        ExtractionMethod::ResourceWellExtractor
    } else if node_type == "frackingCore"@ {
        ExtractionMethod::ResourceWellCore
    } else if node_type == "deposit"@ {
        ExtractionMethod::ManualDeposit
    } else if resource == "Crude Oil"@ {
        ExtractionMethod::OilExtractor
    } else {
        ExtractionMethod::Miner
    }
}

pub fn extraction_method(resource: &str, node_type: &str) -> (r: ExtractionMethod)
    ensures
        r == spec_extraction_method(resource@, node_type@),
{
    if str_eq(node_type, "frackingSatellite") {
        ExtractionMethod::ResourceWellExtractor
    } else if str_eq(node_type, "frackingCore") {
        ExtractionMethod::ResourceWellCore
    } else if str_eq(node_type, "deposit") {
        ExtractionMethod::ManualDeposit
    } else if str_eq(resource, "Crude Oil") {
        ExtractionMethod::OilExtractor
    } else {
        ExtractionMethod::Miner
    }
}

/// The Unicode upper-case mapping of a character (one or more characters),
/// as std's `char::to_uppercase` yields it.
pub uninterp spec fn uppercase_mapping(c: char) -> Seq<char>;

/// `char::to_uppercase` of std, collected into a string: the result is the
/// character's upper-case mapping.
#[verifier::external_body]
fn char_to_uppercase(c: char) -> (r: String)
    ensures
        r@ == uppercase_mapping(c),
{
    c.to_uppercase().collect::<String>()
}

/// The first character upper-cased, the rest unchanged.
pub open spec fn spec_capitalize(value: Seq<char>) -> Seq<char> {
    if value.len() == 0 {
        Seq::empty()
    } else {
        uppercase_mapping(value[0]) + value.skip(1)
    }
}

pub fn capitalize(value: &str) -> (r: String)
    ensures
        r@ == spec_capitalize(value@),
{
    let chars = str_to_chars(value);
    if chars.len() == 0 {
        return String::new();
    }
    let mut r = char_to_uppercase(chars[0]);
    let rest = chars_to_string(&chars, 1, chars.len());
    crate::strings::push_str_to(&mut r, rest.as_str());
    assert(chars@.subrange(1, chars@.len() as int) =~= value@.skip(1));
    r
}

/// `s` without `prefix` where it begins with it.
pub open spec fn strip_prefix_or_keep(s: Seq<char>, prefix: Seq<char>) -> Seq<char> {
    if seq_starts_with(s, prefix) {
        s.skip(prefix.len() as int)
    } else {
        s
    }
}

/// `s` without `suffix` where it ends with it.
pub open spec fn strip_suffix_or_keep(s: Seq<char>, suffix: Seq<char>) -> Seq<char> {
    if seq_ends_with(s, suffix) {
        s.take(s.len() - suffix.len())
    } else {
        s
    }
}

/// Replacement of the non-overlapping occurrences of `from` in `s[i..]`,
/// scanning from the left.
pub open spec fn replace_from(s: Seq<char>, from: Seq<char>, to: Seq<char>, i: int) -> Seq<char>
    decreases s.len() - i,
{
    if i < 0 || i >= s.len() || from.len() == 0 {
        s.skip(i)
    } else if occurs_at(s, from, i) {
        to + replace_from(s, from, to, i + from.len())
    } else {
        seq![s[i]] + replace_from(s, from, to, i + 1)
    }
}

/// `str::replace` for a non-empty pattern.
pub open spec fn replace_all(s: Seq<char>, from: Seq<char>, to: Seq<char>) -> Seq<char> {
    replace_from(s, from, to, 0)
}

/// The display name of a resource descriptor: without `Desc_` in front and
/// `_C` at the end, with `Ore` written as ` Ore`.
pub open spec fn spec_display_name_from_descriptor(value: Seq<char>) -> Seq<char> {
    replace_all(
        strip_suffix_or_keep(strip_prefix_or_keep(value, "Desc_"@), "_C"@),
        "Ore"@,
        " Ore"@,
    )
}

/// Appends `from` replaced by `to` over `s[start..]`.
fn push_replaced(out: &mut String, s: &Vec<char>, from: &Vec<char>, to: &str, start: usize)
    requires
        start <= s@.len(),
        from@.len() > 0,
    ensures
        final(out)@ == old(out)@ + replace_from(s@, from@, to@, start as int),
{
    let ghost base = old(out)@;
    let mut i = start;
    while i < s.len()
        invariant
            start <= i <= s@.len(),
            from@.len() > 0,
            base + replace_from(s@, from@, to@, start as int) == out@ + replace_from(
                s@,
                from@,
                to@,
                i as int,
            ),
        decreases s@.len() - i,
    {
        let ghost before = out@;
        if chars_occur_at(s, from, i) {
            crate::strings::push_str_to(out, to);
            proof {
                assert(before + (to@ + replace_from(s@, from@, to@, i + from@.len())) =~= (before
                    + to@) + replace_from(s@, from@, to@, i + from@.len()));
            }
            i = i + from.len();
        } else {
            push_char(out, s[i]);
            proof {
                assert(before + (seq![s@[i as int]] + replace_from(s@, from@, to@, i + 1)) =~= (
                before.push(s@[i as int])) + replace_from(s@, from@, to@, i + 1));
            }
            i = i + 1;
        }
    }
    assert(s@.skip(i as int) =~= Seq::<char>::empty());
    assert(out@ + Seq::<char>::empty() =~= out@);
}

pub fn display_name_from_descriptor(value: &str) -> (r: String)
    ensures
        r@ == spec_display_name_from_descriptor(value@),
{
    let chars = str_to_chars(value);
    let prefix = str_to_chars("Desc_");
    let suffix = str_to_chars("_C");
    let pattern = str_to_chars("Ore");
    let mut start: usize = 0;
    if chars_occur_at(&chars, &prefix, 0) {
        start = prefix.len();
    }
    let mut end: usize = chars.len();
    if end - start >= suffix.len() && chars_occur_at(
        &chars,
        &suffix,
        chars.len() - suffix.len(),
    ) {
        end = chars.len() - suffix.len();
    }
    let ghost stripped = strip_suffix_or_keep(strip_prefix_or_keep(value@, "Desc_"@), "_C"@);
    let core = chars_to_string(&chars, start, end);
    proof {
        reveal_strlit("Desc_");
        reveal_strlit("_C");
        reveal_strlit("Ore");
        let p = strip_prefix_or_keep(value@, "Desc_"@);
        assert(p =~= value@.subrange(start as int, value@.len() as int));
        if seq_ends_with(p, "_C"@) {
            assert(p.subrange(p.len() - 2, p.len() as int) =~= value@.subrange(
                value@.len() - 2,
                value@.len() as int,
            ));
        } else if end != chars@.len() {
            assert(p.subrange(p.len() - 2, p.len() as int) =~= value@.subrange(
                value@.len() - 2,
                value@.len() as int,
            ));
        }
        assert(core@ =~= stripped);
    }
    let core_chars = str_to_chars(core.as_str());
    let mut r = String::new();
    push_replaced(&mut r, &core_chars, &pattern, " Ore", 0);
    assert(r@ =~= spec_display_name_from_descriptor(value@));
    r
}

} // verus!
