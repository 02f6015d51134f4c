//! Map-view rules that do not depend on drawing: filter normalisation,
//! resource icons and colours, extractor rates, the resource order of the
//! side panel.

use crate::localization::{spec_text, text};
use crate::storage::Language;
use crate::strings::{
    chars_to_string, eq_ignore_ascii_case_spec, seq_contains, str_contains, str_eq,
    str_eq_ignore_ascii_case, str_to_chars,
};
use crate::world_data::ExtractionMethod;
use vstd::prelude::*;

verus! {

/// The resource filter value that selects every resource.
pub const ALL_RESOURCES_FILTER: &'static str = "__all_resources__";

/// The purity filter value that selects every purity.
pub const ALL_PURITY_FILTER: &'static str = "__all_purities__";

/// Whether a stored resource filter means "all resources": the internal
/// value, or the "all resources" label of one of the four languages in any
/// ASCII case.
pub open spec fn means_all_resources(value: Seq<char>) -> bool {
    value == "__all_resources__"@ || eq_ignore_ascii_case_spec(value, "Alle Ressourcen"@)
        || eq_ignore_ascii_case_spec(value, "All resources"@) || eq_ignore_ascii_case_spec(
        value,
        "Toutes les ressources"@,
    ) || eq_ignore_ascii_case_spec(value, "Todos los recursos"@)
}

/// Whether a stored purity filter means "all purities".
pub open spec fn means_all_purities(value: Seq<char>) -> bool {
    value == "__all_purities__"@ || eq_ignore_ascii_case_spec(value, "Alle Reinheiten"@)
        || eq_ignore_ascii_case_spec(value, "All purities"@) || eq_ignore_ascii_case_spec(
        value,
        "Toutes les puretés"@,
    ) || eq_ignore_ascii_case_spec(value, "Todas las purezas"@)
}

pub open spec fn spec_normalize_resource_filter(value: Seq<char>) -> Seq<char> {
    if means_all_resources(value) {
        "__all_resources__"@
    } else {
        value
    }
}

pub open spec fn spec_normalize_purity_filter(value: Seq<char>) -> Seq<char> {
    if means_all_purities(value) {
        "__all_purities__"@
    } else {
        value
    }
}

/// Maps the localized "all resources" labels of older settings to the
/// internal value; any other filter stays as it is.
pub fn normalize_resource_filter(value: &str) -> (r: String)
    ensures
        r@ == spec_normalize_resource_filter(value@),
{
    if str_eq(value, ALL_RESOURCES_FILTER) || str_eq_ignore_ascii_case(value, "Alle Ressourcen")
        || str_eq_ignore_ascii_case(value, "All resources") || str_eq_ignore_ascii_case(
        value,
        "Toutes les ressources",
    ) || str_eq_ignore_ascii_case(value, "Todos los recursos") {
        String::from_str(ALL_RESOURCES_FILTER)
    } else {
        String::from_str(value)
    }
}

/// Maps the localized "all purities" labels of older settings to the
/// internal value; any other filter stays as it is.
pub fn normalize_purity_filter(value: &str) -> (r: String)
    ensures
        r@ == spec_normalize_purity_filter(value@),
{
    if str_eq(value, ALL_PURITY_FILTER) || str_eq_ignore_ascii_case(value, "Alle Reinheiten")
        || str_eq_ignore_ascii_case(value, "All purities") || str_eq_ignore_ascii_case(
        value,
        "Toutes les puretés",
    ) || str_eq_ignore_ascii_case(value, "Todas las purezas") {
        String::from_str(ALL_PURITY_FILTER)
    } else {
        String::from_str(value)
    }
}

/// Normalising a filter twice gives what normalising it once gives.
pub proof fn law_filter_normalization_is_idempotent(value: Seq<char>)
    ensures
        spec_normalize_resource_filter(spec_normalize_resource_filter(value))
            == spec_normalize_resource_filter(value),
        spec_normalize_purity_filter(spec_normalize_purity_filter(value))
            == spec_normalize_purity_filter(value),
{
}

/// The part of a type path after its last `/` (all of it when it has none).
pub open spec fn spec_short_type_name(value: Seq<char>) -> Seq<char> {
    if exists|i: int| 0 <= i < value.len() && value[i] == '/' {
        let i = choose|i: int|
            0 <= i < value.len() && value[i] == '/' && forall|j: int|
                i < j < value.len() ==> value[j] != '/';
        value.skip(i + 1)
    } else {
        value
    }
}

pub fn short_type_name(value: &str) -> (r: String)
    ensures
        r@ == spec_short_type_name(value@),
{
    let chars = str_to_chars(value);
    let mut i = chars.len();
    while i > 0
        invariant
            i <= chars@.len(),
            chars@ == value@,
            forall|j: int| i <= j < chars@.len() ==> chars@[j] != '/',
        decreases i,
    {
        if chars[i - 1] == '/' {
            let r = chars_to_string(&chars, i, chars.len());
            proof {
                let k = (i - 1) as int;
                let c = choose|c: int|
                    0 <= c < value@.len() && value@[c] == '/' && forall|j: int|
                        c < j < value@.len() ==> value@[j] != '/';
                assert(c == k) by {
                    if c < k {
                        assert(value@[k] == '/');
                    } else if c > k {
                        assert(value@[c] == '/');
                    }
                }
                assert(r@ =~= value@.skip(k + 1));
            }
            return r;
        }
        i = i - 1;
    }
    let r = chars_to_string(&chars, 0, chars.len());
    assert(r@ =~= value@);
    r
}

/// The icon file shown for each resource.
pub open spec fn resource_icon_table() -> Seq<(Seq<char>, Seq<char>)> {
    seq![
        ("Bauxite"@, "Bauxite.webp"@),
        ("Caterium Ore"@, "Caterium_Ore.webp"@),
        ("Coal"@, "Coal.webp"@),
        ("Copper Ore"@, "Copper_Ore.webp"@),
        ("Crude Oil"@, "Crude_Oil.webp"@),
        ("Iron Ore"@, "Iron_Ore.webp"@),
        ("Limestone"@, "Limestone.webp"@),
        ("Nitrogen Gas"@, "Nitrogen_Gas.webp"@),
        ("Raw Quartz"@, "Raw_Quartz.webp"@),
        ("SAM"@, "SAM_Ore.webp"@),
        ("Sulfur"@, "Sulfur.webp"@),
        ("Uranium"@, "Uranium.webp"@),
        ("Water"@, "Water.webp"@),
    ]
}

pub fn resource_icon_files() -> (r: [(&'static str, &'static str); 13])
    ensures
        forall|i: int|
            0 <= i < 13 ==> (#[trigger] r@[i]).0@ == resource_icon_table()[i].0 && r@[i].1@
                == resource_icon_table()[i].1,
{
    let r = [
        ("Bauxite", "Bauxite.webp"),
        ("Caterium Ore", "Caterium_Ore.webp"),
        ("Coal", "Coal.webp"),
        ("Copper Ore", "Copper_Ore.webp"),
        ("Crude Oil", "Crude_Oil.webp"),
        ("Iron Ore", "Iron_Ore.webp"),
        ("Limestone", "Limestone.webp"),
        ("Nitrogen Gas", "Nitrogen_Gas.webp"),
        ("Raw Quartz", "Raw_Quartz.webp"),
        ("SAM", "SAM_Ore.webp"),
        ("Sulfur", "Sulfur.webp"),
        ("Uranium", "Uranium.webp"),
        ("Water", "Water.webp"),
    ];
    r
}

/// Items per minute a miner of the given tier extracts from a normal node
/// at 100% clock: tier 1 60, tier 2 120, every other tier 240.
pub open spec fn spec_miner_base_rate(miner_level: u8) -> u32 {
    if miner_level == 1 {
        60
    } else if miner_level == 2 {
        120
    } else {
        240
    }
}

pub fn miner_base_rate(miner_level: u8) -> (r: u32)
    ensures
        r == spec_miner_base_rate(miner_level),
{
    match miner_level {
        1 => 60,
        2 => 120,
        _ => 240,
    }
}

/// The per-minute rate of an extractor kind on a normal node at 100% clock:
/// oil pump 120, resource-well extractor 60, pressurizer 0, miner Mk3 240,
/// Mk2 120, anything else 60.
pub open spec fn spec_extractor_normal_rate(kind: Seq<char>) -> u32 {
    if seq_contains(kind, "OilPump"@) {
        120
    } else if seq_contains(kind, "FrackingExtractor"@) {
        60
    } else if seq_contains(kind, "FrackingSmasher"@) {
        0
    } else if seq_contains(kind, "Mk3"@) {
        240
    } else if seq_contains(kind, "Mk2"@) {
        120
    } else {
        60
    }
}

pub fn extractor_normal_rate(extractor_kind: &str) -> (r: u32)
    ensures
        r == spec_extractor_normal_rate(extractor_kind@),
{
    if str_contains(extractor_kind, "OilPump") {
        120
    } else if str_contains(extractor_kind, "FrackingExtractor") {
        60
    } else if str_contains(extractor_kind, "FrackingSmasher") {
        0
    } else if str_contains(extractor_kind, "Mk3") {
        240
    } else if str_contains(extractor_kind, "Mk2") {
        120
    } else {
        60
    }
}

/// Node colour by purity: pure green, impure red, anything else yellow.
/// How much a node of the purity yields, in percent of a normal node:
/// impure nodes half, pure nodes double.
pub open spec fn spec_purity_percent(purity: Seq<char>) -> u32 {
    if purity == "Impure"@ {
        50
    } else if purity == "Pure"@ {
        200
    } else {
        100
    }
}

pub fn purity_percent(purity: &str) -> (r: u32)
    ensures
        r == spec_purity_percent(purity@),
{
    if str_eq(purity, "Impure") {
        50
    } else if str_eq(purity, "Pure") {
        200
    } else {
        100
    }
}

pub open spec fn spec_purity_rgb(purity: Seq<char>) -> (u8, u8, u8) {
    if purity == "Pure"@ {
        (0x09, 0xE5, 0x89)
    } else if purity == "Impure"@ {
        (0xEA, 0x6E, 0x7F)
    } else {
        (0xEA, 0xD5, 0x6E)
    }
}

pub fn purity_rgb(purity: &str) -> (r: (u8, u8, u8))
    ensures
        r == spec_purity_rgb(purity@),
{
    if str_eq(purity, "Pure") {
        (0x09, 0xE5, 0x89)
    } else if str_eq(purity, "Impure") {
        (0xEA, 0x6E, 0x7F)
    } else {
        (0xEA, 0xD5, 0x6E)
    }
}

/// Colour of the occupancy ring: green when occupied, grey otherwise.
pub fn occupancy_rgb(occupied: bool) -> (r: (u8, u8, u8))
    ensures
        r == (if occupied {
            (0x08u8, 0xC4u8, 0x62u8)
        } else {
            (0xB9u8, 0xC2u8, 0xC6u8)
        }),
{
    if occupied {
        (0x08, 0xC4, 0x62)
    } else {
        (0xB9, 0xC2, 0xC6)
    }
}

/// Background of a node badge: dark when claimed, light grey otherwise.
pub fn claimed_background_rgb(claimed: bool) -> (r: (u8, u8, u8))
    ensures
        r == (if claimed {
            (0x34u8, 0x3Fu8, 0x49u8)
        } else {
            (0x7Au8, 0x88u8, 0x95u8)
        }),
{
    if claimed {
        (0x34, 0x3F, 0x49)
    } else {
        (0x7A, 0x88, 0x95)
    }
}

/// The label of an extraction method in the node details.
pub open spec fn spec_extraction_method_label(method: ExtractionMethod, language: Language) -> Seq<
    char,
> {
    match method {
        ExtractionMethod::Miner => spec_text(language, "miner"@),
        ExtractionMethod::OilExtractor => spec_text(language, "oil_extractor"@),
        ExtractionMethod::ResourceWellExtractor => spec_text(language, "well_extractor"@),
        ExtractionMethod::ResourceWellCore => "Resource Well Pressurizer"@,
        ExtractionMethod::ManualDeposit => spec_text(language, "manual_deposit"@),
    }
}

pub fn extraction_method_label(method: ExtractionMethod, language: Language) -> (r: &'static str)
    ensures
        r@ == spec_extraction_method_label(method, language),
{
    match method {
        ExtractionMethod::Miner => text(language, "miner"),
        ExtractionMethod::OilExtractor => text(language, "oil_extractor"),
        ExtractionMethod::ResourceWellExtractor => text(language, "well_extractor"),
        ExtractionMethod::ResourceWellCore => "Resource Well Pressurizer",
        ExtractionMethod::ManualDeposit => text(language, "manual_deposit"),
    }
}

/// The texts of a vector of strings.
pub open spec fn string_views(v: Seq<String>) -> Seq<Seq<char>> {
    v.map_values(|s: String| s@)
}

/// Whether `v` holds a string equal to `s`.
pub fn strings_contain(v: &Vec<String>, s: &str) -> (r: bool)
    ensures
        r == string_views(v@).contains(s@),
{
    let mut i: usize = 0;
    while i < v.len()
        invariant
            i <= v@.len(),
            forall|j: int| 0 <= j < i ==> v@[j]@ != s@,
        decreases v@.len() - i,
    {
        if str_eq(v[i].as_str(), s) {
            assert(string_views(v@)[i as int] == s@);
            return true;
        }
        i = i + 1;
    }
    assert forall|j: int| 0 <= j < string_views(v@).len() implies string_views(v@)[j] != s@ by {
        assert(string_views(v@)[j] == v@[j]@);
    }
    false
}

/// The first index of a string equal to `s`.
pub fn first_index_of(v: &Vec<String>, s: &str) -> (r: Option<usize>)
    ensures
        match r {
            Some(k) => k < v@.len() && v@[k as int]@ == s@ && forall|j: int|
                0 <= j < k ==> v@[j]@ != s@,
            None => forall|j: int| 0 <= j < v@.len() ==> v@[j]@ != s@,
        },
{
    let mut i: usize = 0;
    while i < v.len()
        invariant
            i <= v@.len(),
            forall|j: int| 0 <= j < i ==> v@[j]@ != s@,
        decreases v@.len() - i,
    {
        if str_eq(v[i].as_str(), s) {
            return Some(i);
        }
        i = i + 1;
    }
    None
}

/// The saved order, without resources that are not present.
pub open spec fn keep_present(order: Seq<Seq<char>>, present: Seq<Seq<char>>) -> Seq<Seq<char>>
    decreases order.len(),
{
    if order.len() == 0 {
        Seq::empty()
    } else {
        let before = keep_present(order.drop_last(), present);
        if present.contains(order.last()) {
            before.push(order.last())
        } else {
            before
        }
    }
}

/// `acc` followed by each present resource it does not hold yet, in the
/// order of `present`.
pub open spec fn add_missing(acc: Seq<Seq<char>>, present: Seq<Seq<char>>) -> Seq<Seq<char>>
    decreases present.len(),
{
    if present.len() == 0 {
        acc
    } else {
        let before = add_missing(acc, present.drop_last());
        if before.contains(present.last()) {
            before
        } else {
            before.push(present.last())
        }
    }
}

/// The order of the resource panel: the saved order of the resources that
/// are present, then the other present resources in the order given.
pub open spec fn spec_reconcile_order(order: Seq<Seq<char>>, present: Seq<Seq<char>>) -> Seq<Seq<char>> {
    add_missing(keep_present(order, present), present)
}

/// Reconciles the saved resource order with the resources present in the
/// summary (`present` in the summary's key order).
pub fn reconcile_resource_order(order: &Vec<String>, present: &Vec<String>) -> (r: Vec<String>)
    ensures
        string_views(r@) == spec_reconcile_order(string_views(order@), string_views(present@)),
{
    let ghost o = string_views(order@);
    let ghost p = string_views(present@);
    let mut r: Vec<String> = Vec::new();
    let mut i: usize = 0;
    while i < order.len()
        invariant
            i <= order@.len(),
            o == string_views(order@),
            p == string_views(present@),
            string_views(r@) == keep_present(o.take(i as int), p),
        decreases order@.len() - i,
    {
        proof {
            assert(o.take(i + 1).drop_last() =~= o.take(i as int));
            assert(o.take(i + 1).last() == order@[i as int]@);
        }
        if strings_contain(present, order[i].as_str()) {
            r.push(order[i].clone());
            assert(string_views(r@) =~= keep_present(o.take(i + 1), p));
        }
        i = i + 1;
    }
    assert(o.take(i as int) =~= o);
    let ghost kept = string_views(r@);
    let mut j: usize = 0;
    while j < present.len()
        invariant
            j <= present@.len(),
            p == string_views(present@),
            string_views(r@) == add_missing(kept, p.take(j as int)),
        decreases present@.len() - j,
    {
        proof {
            assert(p.take(j + 1).drop_last() =~= p.take(j as int));
            assert(p.take(j + 1).last() == present@[j as int]@);
        }
        if !strings_contain(&r, present[j].as_str()) {
            r.push(present[j].clone());
            assert(string_views(r@) =~= add_missing(kept, p.take(j + 1)));
        }
        j = j + 1;
    }
    assert(p.take(j as int) =~= p);
    r
}

proof fn lemma_keep_present_members(order: Seq<Seq<char>>, present: Seq<Seq<char>>)
    ensures
        forall|x: Seq<char>| #[trigger] keep_present(order, present).contains(x) ==> present.contains(
            x,
        ) && order.contains(x),
    decreases order.len(),
{
    if order.len() > 0 {
        lemma_keep_present_members(order.drop_last(), present);
        assert forall|x: Seq<char>| #[trigger]
            keep_present(order, present).contains(x) implies present.contains(x) && order.contains(
            x,
        ) by {
            let before = keep_present(order.drop_last(), present);
            if before.contains(x) {
                let k = choose|k: int| 0 <= k < order.drop_last().len() && order.drop_last()[k] == x;
                assert(order[k] == x);
            } else {
                assert(x == order.last());
                assert(order[order.len() - 1] == x);
            }
        }
    }
}

proof fn lemma_add_missing_members(acc: Seq<Seq<char>>, present: Seq<Seq<char>>)
    ensures
        forall|x: Seq<char>| #[trigger]
            add_missing(acc, present).contains(x) <==> acc.contains(x) || present.contains(x),
    decreases present.len(),
{
    if present.len() > 0 {
        let before = add_missing(acc, present.drop_last());
        let last = present.last();
        let n = present.len() - 1;
        lemma_add_missing_members(acc, present.drop_last());
        assert forall|x: Seq<char>| #[trigger]
            add_missing(acc, present).contains(x) <==> acc.contains(x) || present.contains(x) by {
            if present.contains(x) {
                let k = choose|k: int| 0 <= k < present.len() && present[k] == x;
                if k < n {
                    assert(present.drop_last()[k] == x);
                } else {
                    assert(x == last);
                }
            }
            if present.drop_last().contains(x) {
                let k = choose|k: int| 0 <= k < n && present.drop_last()[k] == x;
                assert(present[k] == x);
            }
            if x == last {
                assert(present[n] == x);
            }
            if !before.contains(last) {
                let pushed = before.push(last);
                assert(pushed[before.len() as int] == last);
                if pushed.contains(x) {
                    let k = choose|k: int| 0 <= k < pushed.len() && pushed[k] == x;
                    if k < before.len() {
                        assert(before[k] == x);
                    }
                }
                if before.contains(x) {
                    let k = choose|k: int| 0 <= k < before.len() && before[k] == x;
                    assert(pushed[k] == x);
                }
            }
        }
    }
}

/// The reconciled panel order holds exactly the present resources.
pub proof fn law_reconciled_order_lists_present_resources(
    order: Seq<Seq<char>>,
    present: Seq<Seq<char>>,
)
    ensures
        forall|x: Seq<char>| #[trigger]
            spec_reconcile_order(order, present).contains(x) <==> present.contains(x),
{
    lemma_keep_present_members(order, present);
    lemma_add_missing_members(keep_present(order, present), present);
}

proof fn lemma_keep_present_keeps_present(order: Seq<Seq<char>>, present: Seq<Seq<char>>)
    requires
        forall|k: int| 0 <= k < order.len() ==> present.contains(#[trigger] order[k]),
    ensures
        keep_present(order, present) == order,
    decreases order.len(),
{
    if order.len() > 0 {
        let rest = order.drop_last();
        assert forall|k: int| 0 <= k < rest.len() implies present.contains(#[trigger] rest[k]) by {
            assert(rest[k] == order[k]);
        }
        lemma_keep_present_keeps_present(rest, present);
        assert(present.contains(order[order.len() - 1]));
        assert(rest.push(order.last()) =~= order);
    }
}

proof fn lemma_add_missing_nothing_missing(acc: Seq<Seq<char>>, present: Seq<Seq<char>>)
    requires
        forall|k: int| 0 <= k < present.len() ==> acc.contains(#[trigger] present[k]),
    ensures
        add_missing(acc, present) == acc,
    decreases present.len(),
{
    if present.len() > 0 {
        let rest = present.drop_last();
        assert forall|k: int| 0 <= k < rest.len() implies acc.contains(#[trigger] rest[k]) by {
            assert(rest[k] == present[k]);
        }
        lemma_add_missing_nothing_missing(acc, rest);
        assert(acc.contains(present[present.len() - 1]));
    }
}

/// Reconciling an order that was already reconciled with the same present
/// resources changes nothing, so the panel does not ask again for the
/// order to be saved.
pub proof fn law_reconciling_twice_changes_nothing(order: Seq<Seq<char>>, present: Seq<Seq<char>>)
    ensures
        spec_reconcile_order(spec_reconcile_order(order, present), present) == spec_reconcile_order(
            order,
            present,
        ),
{
    let once = spec_reconcile_order(order, present);
    law_reconciled_order_lists_present_resources(order, present);
    assert forall|k: int| 0 <= k < once.len() implies present.contains(#[trigger] once[k]) by {
        assert(once.contains(once[k]));
    }
    lemma_keep_present_keeps_present(once, present);
    assert forall|k: int| 0 <= k < present.len() implies once.contains(#[trigger] present[k]) by {
        assert(present.contains(present[k]));
    }
    lemma_add_missing_nothing_missing(once, present);
}

/// The order after dragging the resource at `from` onto `target`: it is
/// taken out and put in at the target's first position in what remains,
/// or at `min(to, length)` where the target no longer occurs.
pub open spec fn spec_moved_order(order: Seq<Seq<char>>, from: int, to: int, target: Seq<char>) -> Seq<
    Seq<char>,
> {
    let rest = order.remove(from);
    let at = if rest.contains(target) {
        rest.index_of_first(target)->Some_0
    } else if to < rest.len() {
        to
    } else {
        rest.len() as int
    };
    rest.insert(at, order[from])
}

/// Drags `dragged` onto `target` in the resource order. Returns whether
/// both were found; only then the order changes.
pub fn move_resource(order: &mut Vec<String>, dragged: &str, target: &str) -> (moved: bool)
    ensures
        moved == (string_views(old(order)@).contains(dragged@) && string_views(
            old(order)@,
        ).contains(target@)),
        moved ==> string_views(final(order)@) == spec_moved_order(
            string_views(old(order)@),
            string_views(old(order)@).index_of_first(dragged@)->Some_0,
            string_views(old(order)@).index_of_first(target@)->Some_0,
            target@,
        ),
        !moved ==> final(order)@ == old(order)@,
{
    let ghost o = string_views(order@);
    let from = first_index_of(order, dragged);
    let to = first_index_of(order, target);
    proof {
        o.index_of_first_ensures(dragged@);
        o.index_of_first_ensures(target@);
        assert forall|j: int| 0 <= j < o.len() implies o[j] == order@[j]@ by {}
    }
    match (from, to) {
        (Some(from), Some(to)) => {
            proof {
                assert(o[from as int] == dragged@);
                assert(o[to as int] == target@);
                assert(o.contains(dragged@));
                assert(o.contains(target@));
                let fi = o.index_of_first(dragged@)->Some_0;
                let ti = o.index_of_first(target@)->Some_0;
                assert(o[fi] == dragged@);
                assert(o[ti] == target@);
                if fi < from {
                    assert(order@[fi]@ == dragged@);
                }
                if ti < to {
                    assert(order@[ti]@ == target@);
                }
                assert(o.index_of_first(dragged@) == Some(from as int));
                assert(o.index_of_first(target@) == Some(to as int));
            }
            let item = order.remove(from);
            let ghost rest = string_views(order@);
            proof {
                assert(rest =~= o.remove(from as int));
                rest.index_of_first_ensures(target@);
            }
            let insert_at = match first_index_of(order, target) {
                Some(k) => {
                    proof {
                        assert(rest[k as int] == target@);
                        assert(rest.contains(target@));
                        let ri = rest.index_of_first(target@)->Some_0;
                        assert(rest[ri] == target@);
                        if ri < k {
                            assert(order@[ri]@ == target@);
                        }
                        assert(rest.index_of_first(target@) == Some(k as int));
                    }
                    k
                },
                None => {
                    proof {
                        if rest.contains(target@) {
                            let k = choose|k: int| 0 <= k < rest.len() && rest[k] == target@;
                            assert(order@[k]@ == target@);
                        }
                    }
                    if to < order.len() {
                        to
                    } else {
                        order.len()
                    }
                },
            };
            order.insert(insert_at, item);
            assert(string_views(order@) =~= rest.insert(insert_at as int, o[from as int]));
            true
        },
        _ => {
            proof {
                if o.contains(dragged@) {
                    let k = choose|k: int| 0 <= k < o.len() && o[k] == dragged@;
                    assert(from is Some);
                }
                if o.contains(target@) {
                    let k = choose|k: int| 0 <= k < o.len() && o[k] == target@;
                    assert(to is Some);
                }
            }
            false
        },
    }
}

/// Dragging a resource only reorders the panel: the same resources, each as
/// often as before.
pub proof fn law_move_keeps_resources(order: Seq<Seq<char>>, from: int, to: int, target: Seq<char>)
    requires
        0 <= from < order.len(),
        0 <= to,
    ensures
        spec_moved_order(order, from, to, target).to_multiset() == order.to_multiset(),
{
    broadcast use vstd::seq_lib::group_to_multiset_ensures;

    let rest = order.remove(from);
    let at = if rest.contains(target) {
        rest.index_of_first(target)->Some_0
    } else if to < rest.len() {
        to
    } else {
        rest.len() as int
    };
    rest.index_of_first_ensures(target);
    assert(0 <= at <= rest.len());
    let moved = rest.insert(at, order[from]);
    assert(moved.remove(at) =~= rest);
    assert(moved[at] == order[from]);
    assert(rest.to_multiset() =~= order.to_multiset().remove(order[from]));
    assert(rest.to_multiset() =~= moved.to_multiset().remove(order[from]));
    assert(moved.to_multiset().count(order[from]) > 0);
    assert(order.to_multiset().count(order[from]) > 0);
    assert(moved.to_multiset() =~= order.to_multiset());
}

} // verus!
