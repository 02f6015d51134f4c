//! Recognition of the save objects the tracker reads (extractors, rails,
//! foundations) and the reading of power shards out of inventory
//! properties, over a plain model of the save's property lists.

use crate::strings::{seq_contains, str_contains, str_eq};
use vstd::prelude::*;

verus! {

/// Whether an actor type path names a resource extractor: a miner, oil pump
/// or resource-well extractor, but not the hand-held equipment miner.
pub open spec fn spec_is_resource_extractor(type_path: Seq<char>) -> bool {
    !seq_contains(type_path, "Equip_"@) && (seq_contains(type_path, "ResourceMiner"@)
        || seq_contains(type_path, "Build_Miner"@) || seq_contains(type_path, "ResourceExtractor"@)
        || seq_contains(type_path, "OilPump"@) || seq_contains(type_path, "FrackingExtractor"@)
        || seq_contains(type_path, "FrackingSmasher"@))
}

pub fn is_resource_extractor(type_path: &str) -> (r: bool)
    ensures
        r == spec_is_resource_extractor(type_path@),
{
    !str_contains(type_path, "Equip_") && (str_contains(type_path, "ResourceMiner")
        || str_contains(type_path, "Build_Miner") || str_contains(type_path, "ResourceExtractor")
        || str_contains(type_path, "OilPump") || str_contains(type_path, "FrackingExtractor")
        || str_contains(type_path, "FrackingSmasher"))
}

pub fn is_rail_track(type_path: &str) -> (r: bool)
    ensures
        r == seq_contains(type_path@, "Build_RailroadTrack"@),
{
    str_contains(type_path, "Build_RailroadTrack")
}

pub fn is_foundation_buildable(type_path: &str) -> (r: bool)
    ensures
        r == seq_contains(type_path@, "/Buildable/Building/Foundation/"@),
{
    str_contains(type_path, "/Buildable/Building/Foundation/")
}

/// Actors of the lightweight-buildable subsystem hold the foundations.
pub fn is_lightweight_subsystem(type_path: &str) -> (r: bool)
    ensures
        r == (type_path@ == "/Script/FactoryGame.FGLightweightBuildableSubsystem"@),
{
    str_eq(type_path, "/Script/FactoryGame.FGLightweightBuildableSubsystem")
}

/// Conveyor chain actors hold the belts.
pub fn is_conveyor_chain(type_path: &str) -> (r: bool)
    ensures
        r == seq_contains(type_path@, "FGConveyorChainActor"@),
{
    str_contains(type_path, "FGConveyorChainActor")
}

/// A reference to another save object.
#[derive(Debug, Clone)]
pub struct ObjectRef {
    pub level_name: String,
    pub path_name: String,
}

/// The property values the tracker reads; every other kind is `Other`.
#[derive(Debug)]
pub enum PropertyValue {
    Int(i32),
    Int64(i64),
    UInt32(u32),
    Object(ObjectRef),
    InventoryItem { item_name: String },
    StructArray(Vec<PropList>),
    Other,
}

/// A named property.
#[derive(Debug)]
pub struct Property {
    pub name: String,
    pub value: PropertyValue,
}

/// The properties of an object or of one struct element.
#[derive(Debug)]
pub struct PropList {
    pub props: Vec<Property>,
}

/// The index of the first property named `name`.
pub open spec fn first_named(props: Seq<Property>, name: Seq<char>) -> Option<int>
    decreases props.len(),
{
    if props.len() == 0 {
        None
    } else if props[0].name@ == name {
        Some(0)
    } else {
        match first_named(props.skip(1), name) {
            Some(i) => Some(i + 1),
            None => None,
        }
    }
}

proof fn lemma_first_named_bounds(props: Seq<Property>, name: Seq<char>)
    ensures
        first_named(props, name) matches Some(i) ==> 0 <= i < props.len() && props[i].name@ == name
            && forall|j: int| 0 <= j < i ==> props[j].name@ != name,
        first_named(props, name) is None ==> forall|j: int|
            0 <= j < props.len() ==> props[j].name@ != name,
    decreases props.len(),
{
    if props.len() > 0 {
        lemma_first_named_bounds(props.skip(1), name);
        assert forall|j: int| 0 < j < props.len() implies props[j] == props.skip(1)[j - 1] by {}
    }
}

/// Finds the first property named `name`.
pub fn find_property(props: &Vec<Property>, name: &str) -> (r: Option<usize>)
    ensures
        r matches Some(i) ==> i < props@.len(),
        match first_named(props@, name@) {
            Some(i) => r matches Some(k) && k as int == i,
            None => r is None,
        },
{
    proof {
        lemma_first_named_bounds(props@, name@);
    }
    let mut i: usize = 0;
    while i < props.len()
        invariant
            i <= props@.len(),
            forall|j: int| 0 <= j < i ==> props@[j].name@ != name@,
            first_named(props@, name@) matches Some(k) ==> k >= i && 0 <= k < props@.len()
                && props@[k].name@ == name@ && forall|j: int| 0 <= j < k ==> props@[j].name@
                != name@,
            first_named(props@, name@) is None ==> forall|j: int|
                0 <= j < props@.len() ==> props@[j].name@ != name@,
        decreases props@.len() - i,
    {
        if str_eq(props[i].name.as_str(), name) {
            return Some(i);
        }
        i = i + 1;
    }
    None
}

/// The object reference held by the first property named `name`, where that
/// property holds one.
pub open spec fn spec_property_object_ref(props: Seq<Property>, name: Seq<char>) -> Option<ObjectRef> {
    match first_named(props, name) {
        Some(i) => match props[i].value {
            PropertyValue::Object(r) => Some(r),
            _ => None,
        },
        None => None,
    }
}

pub fn property_object_ref<'a>(object: &'a PropList, property_name: &str) -> (r: Option<
    &'a ObjectRef,
>)
    ensures
        match spec_property_object_ref(object.props@, property_name@) {
            Some(o) => r matches Some(x) && *x == o,
            None => r is None,
        },
{
    match find_property(&object.props, property_name) {
        Some(i) => match &object.props[i].value {
            PropertyValue::Object(object_ref) => Some(object_ref),
            _ => None,
        },
        None => None,
    }
}

/// The item count a `NumItems` value stands for: negative counts are zero,
/// 64-bit counts keep their low 32 bits, other kinds count as zero.
pub open spec fn num_items_value(v: PropertyValue) -> u32 {
    match v {
        PropertyValue::Int(n) => if n < 0 {
            0
        } else {
            n as u32
        },
        PropertyValue::Int64(n) => if n < 0 {
            0
        } else {
            n as u32
        },
        PropertyValue::UInt32(n) => n,
        _ => 0,
    }
}

/// Reading the properties of one inventory stack in order: `Item` holding an
/// inventory item sets whether the stack holds power shards (its item name
/// contains `CrystalShard`), `NumItems` sets the count; later ones win.
pub open spec fn stack_info(props: Seq<Property>) -> (bool, u32)
    decreases props.len(),
{
    if props.len() == 0 {
        (false, 0)
    } else {
        let before = stack_info(props.drop_last());
        let p = props.last();
        if p.name@ == "Item"@ {
            match p.value {
                PropertyValue::InventoryItem { item_name } => (
                    seq_contains(item_name@, "CrystalShard"@),
                    before.1,
                ),
                _ => before,
            }
        } else if p.name@ == "NumItems"@ {
            (before.0, num_items_value(p.value))
        } else {
            before
        }
    }
}

/// Power shards over the stacks, adding with saturation at `u32::MAX`.
pub open spec fn shard_total(stacks: Seq<PropList>) -> u32
    decreases stacks.len(),
{
    if stacks.len() == 0 {
        0
    } else {
        let before = shard_total(stacks.drop_last());
        let (is_shard, n) = stack_info(stacks.last().props@);
        if is_shard {
            if before as int + n as int > u32::MAX {
                u32::MAX
            } else {
                (before + n) as u32
            }
        } else {
            before
        }
    }
}

/// The power shards an inventory holds (at most 3), when its first
/// `mInventoryStacks` property is an array of stacks.
pub open spec fn spec_power_shard_count(props: Seq<Property>) -> Option<u8> {
    match first_named(props, "mInventoryStacks"@) {
        Some(i) => match props[i].value {
            PropertyValue::StructArray(items) => {
                let total = shard_total(items@);
                Some(if total > 3 {
                    3u8
                } else {
                    total as u8
                })
            },
            _ => None,
        },
        None => None,
    }
}

fn num_items(value: &PropertyValue) -> (r: u32)
    ensures
        r == num_items_value(*value),
{
    match value {
        PropertyValue::Int(n) => if *n < 0 {
            0
        } else {
            *n as u32
        },
        PropertyValue::Int64(n) => if *n < 0 {
            0
        } else {
            *n as u32
        },
        PropertyValue::UInt32(n) => *n,
        _ => 0,
    }
}

fn read_stack(item: &PropList) -> (r: (bool, u32))
    ensures
        r == stack_info(item.props@),
{
    let mut is_power_shard = false;
    let mut item_count: u32 = 0;
    let mut i: usize = 0;
    while i < item.props.len()
        invariant
            i <= item.props@.len(),
            (is_power_shard, item_count) == stack_info(item.props@.take(i as int)),
        decreases item.props@.len() - i,
    {
        let property = &item.props[i];
        proof {
            assert(item.props@.take(i + 1).drop_last() =~= item.props@.take(i as int));
            assert(item.props@.take(i + 1).last() == item.props@[i as int]);
        }
        if str_eq(property.name.as_str(), "Item") {
            if let PropertyValue::InventoryItem { item_name } = &property.value {
                is_power_shard = str_contains(item_name.as_str(), "CrystalShard");
            }
        } else if str_eq(property.name.as_str(), "NumItems") {
            item_count = num_items(&property.value);
        }
        i = i + 1;
    }
    assert(item.props@.take(i as int) =~= item.props@);
    (is_power_shard, item_count)
}

/// Counts the power shards in an inventory object (at most 3).
pub fn power_shard_count(object: &PropList) -> (r: Option<u8>)
    ensures
        r == spec_power_shard_count(object.props@),
{
    let index = find_property(&object.props, "mInventoryStacks");
    let index = match index {
        Some(i) => i,
        None => {
            return None;
        },
    };
    let items = match &object.props[index].value {
        PropertyValue::StructArray(items) => items,
        _ => {
            return None;
        },
    };
    let mut count: u32 = 0;
    let mut i: usize = 0;
    while i < items.len()
        invariant
            i <= items@.len(),
            count == shard_total(items@.take(i as int)),
        decreases items@.len() - i,
    {
        let (is_power_shard, item_count) = read_stack(&items[i]);
        proof {
            assert(items@.take(i + 1).drop_last() =~= items@.take(i as int));
            assert(items@.take(i + 1).last() == items@[i as int]);
        }
        if is_power_shard {
            count = count.saturating_add(item_count);
        }
        i = i + 1;
    }
    assert(items@.take(i as int) =~= items@);
    Some(if count > 3 {
        3u8
    } else {
        count as u8
    })
}

/// The first property named `name` sits at `i` when `i` holds that name
/// and no earlier property does.
proof fn lemma_first_named_at(props: Seq<Property>, name: Seq<char>, i: int)
    requires
        0 <= i < props.len(),
        props[i].name@ == name,
        forall|j: int| 0 <= j < i ==> props[j].name@ != name,
    ensures
        first_named(props, name) == Some(i),
    decreases i,
{
    if i > 0 {
        assert forall|j: int| 0 <= j < i - 1 implies props.skip(1)[j].name@ != name by {
            assert(props.skip(1)[j] == props[j + 1]);
        }
        lemma_first_named_at(props.skip(1), name, i - 1);
    }
}

/// An inventory whose stack list is `stacks` before and `stacks` with one
/// more stack appended after; nothing else changes.
pub open spec fn inventory_with_stack_added(
    before: Seq<Property>,
    after: Seq<Property>,
    stacks: Vec<PropList>,
    more: Vec<PropList>,
    stack: PropList,
) -> bool {
    &&& first_named(before, "mInventoryStacks"@) matches Some(i)
    &&& before[i].value == PropertyValue::StructArray(stacks)
    &&& more@ == stacks@.push(stack)
    &&& after == before.update(
        i,
        Property { name: before[i].name, value: PropertyValue::StructArray(more) },
    )
}

/// A stack of `n` items of the item `item_name`: its `Item` property, then
/// its `NumItems` property.
pub open spec fn is_item_stack(stack: PropList, item_name: String, n: i32) -> bool {
    &&& stack.props@.len() == 2
    &&& stack.props@[0].name@ == "Item"@
    &&& stack.props@[0].value == PropertyValue::InventoryItem { item_name }
    &&& stack.props@[1].name@ == "NumItems"@
    &&& stack.props@[1].value == PropertyValue::Int(n)
    &&& n >= 0
}

proof fn lemma_stack_added_lookup(
    before: Seq<Property>,
    after: Seq<Property>,
    stacks: Vec<PropList>,
    more: Vec<PropList>,
    stack: PropList,
)
    requires
        inventory_with_stack_added(before, after, stacks, more, stack),
    ensures
        first_named(after, "mInventoryStacks"@) == first_named(before, "mInventoryStacks"@),
        spec_power_shard_count(before) == Some(
            if shard_total(stacks@) > 3 {
                3u8
            } else {
                shard_total(stacks@) as u8
            },
        ),
        spec_power_shard_count(after) == Some(
            if shard_total(more@) > 3 {
                3u8
            } else {
                shard_total(more@) as u8
            },
        ),
        more@.drop_last() == stacks@,
        more@.last() == stack,
{
    let i = first_named(before, "mInventoryStacks"@)->Some_0;
    lemma_first_named_bounds(before, "mInventoryStacks"@);
    assert forall|j: int| 0 <= j < i implies after[j].name@ != "mInventoryStacks"@ by {
        assert(after[j] == before[j]);
    }
    lemma_first_named_at(after, "mInventoryStacks"@, i);
    assert(more@.drop_last() =~= stacks@);
}

/// Adding a stack of `n` power shards to an inventory that holds `c < 3`
/// shards gives `c + n` shards, counting at most three.
pub proof fn law_shard_stack_adds_its_items(
    before: Seq<Property>,
    after: Seq<Property>,
    stacks: Vec<PropList>,
    more: Vec<PropList>,
    stack: PropList,
    item_name: String,
    n: i32,
    c: u8,
)
    requires
        inventory_with_stack_added(before, after, stacks, more, stack),
        is_item_stack(stack, item_name, n),
        seq_contains(item_name@, "CrystalShard"@),
        spec_power_shard_count(before) == Some(c),
        c < 3,
    ensures
        spec_power_shard_count(after) == Some(
            if c + n > 3 {
                3u8
            } else {
                (c + n) as u8
            },
        ),
{
    lemma_stack_added_lookup(before, after, stacks, more, stack);
    reveal_with_fuel(stack_info, 3);
    reveal_strlit("Item");
    reveal_strlit("NumItems");
    assert("Item"@ != "NumItems"@) by {
        assert("Item"@.len() != "NumItems"@.len());
    }
    assert(stack.props@.drop_last().drop_last() =~= Seq::<Property>::empty());
    assert(stack.props@.drop_last().last() == stack.props@[0]);
    assert(stack_info(stack.props@) == (true, n as u32));
    assert(shard_total(stacks@) == c as u32);
}

/// Adding a stack of something that is not a power shard leaves the
/// shard count as it was.
pub proof fn law_other_stack_adds_nothing(
    before: Seq<Property>,
    after: Seq<Property>,
    stacks: Vec<PropList>,
    more: Vec<PropList>,
    stack: PropList,
    item_name: String,
    n: i32,
)
    requires
        inventory_with_stack_added(before, after, stacks, more, stack),
        is_item_stack(stack, item_name, n),
        !seq_contains(item_name@, "CrystalShard"@),
    ensures
        spec_power_shard_count(after) == spec_power_shard_count(before),
{
    lemma_stack_added_lookup(before, after, stacks, more, stack);
    reveal_with_fuel(stack_info, 3);
    reveal_strlit("Item");
    reveal_strlit("NumItems");
    assert("Item"@ != "NumItems"@) by {
        assert("Item"@.len() != "NumItems"@.len());
    }
    assert(stack.props@.drop_last().drop_last() =~= Seq::<Property>::empty());
    assert(stack.props@.drop_last().last() == stack.props@[0]);
    assert(stack_info(stack.props@) == (false, n as u32));
}

/// An inventory whose stack list is empty holds no power shards.
pub proof fn law_empty_inventory_has_no_shards(props: Seq<Property>, stacks: Vec<PropList>)
    requires
        first_named(props, "mInventoryStacks"@) matches Some(i) && props[i].value
            == PropertyValue::StructArray(stacks),
        stacks@.len() == 0,
    ensures
        spec_power_shard_count(props) == Some(0u8),
{
}

/// Whether an object instance name marks a potential (power-shard) inventory.
pub open spec fn is_inventory_potential_name(name: Seq<char>) -> bool {
    seq_contains(name, "InventoryPotential"@)
}

/// The instance names of each level's objects, as character sequences.
pub open spec fn level_names(levels: Seq<Vec<String>>) -> Seq<Seq<Seq<char>>> {
    Seq::new(levels.len(), |l: int| Seq::new(levels[l]@.len(), |o: int| levels[l]@[o]@))
}

/// Position `(l2, o2)` comes before `(l, o)`: levels in order, then objects.
pub open spec fn position_before(l2: int, o2: int, l: int, o: int) -> bool {
    l2 < l || (l2 == l && o2 < o)
}

/// `(l, o)` is a position of `name`, and no later position holds `name`.
pub open spec fn is_last_position(names: Seq<Seq<Seq<char>>>, name: Seq<char>, l: int, o: int) -> bool {
    &&& 0 <= l < names.len()
    &&& 0 <= o < names[l].len()
    &&& names[l][o] == name
    &&& forall|l2: int, o2: int|
        0 <= l2 < names.len() && 0 <= o2 < names[l2].len() && #[trigger] names[l2][o2] == name
            ==> !position_before(l, o, l2, o2)
}

/// The index of every potential inventory: exactly one entry per distinct
/// potential-inventory name, each at the last position holding that name.
pub open spec fn is_inventory_index(names: Seq<Seq<Seq<char>>>, entries: Seq<(String, usize, usize)>) -> bool {
    &&& forall|k: int|
        0 <= k < entries.len() ==> is_inventory_potential_name(#[trigger] entries[k].0@)
            && is_last_position(names, entries[k].0@, entries[k].1 as int, entries[k].2 as int)
    &&& forall|l: int, o: int|
        0 <= l < names.len() && 0 <= o < names[l].len() && is_inventory_potential_name(
            #[trigger] names[l][o],
        ) ==> exists|k: int| 0 <= k < entries.len() && #[trigger] entries[k].0@ == names[l][o]
    &&& forall|j: int, k: int|
        0 <= j < entries.len() && 0 <= k < entries.len() && j != k ==> #[trigger] entries[j].0@
            != #[trigger] entries[k].0@
}

/// Invariant of the scan, once every position before `(l, o)` was looked at.
spec fn index_upto(
    names: Seq<Seq<Seq<char>>>,
    entries: Seq<(String, usize, usize)>,
    l: int,
    o: int,
) -> bool {
    &&& forall|k: int|
        0 <= k < entries.len() ==> {
            let (n, el, eo) = #[trigger] entries[k];
            &&& is_inventory_potential_name(n@)
            &&& 0 <= el < names.len()
            &&& 0 <= eo < names[el as int].len()
            &&& names[el as int][eo as int] == n@
            &&& position_before(el as int, eo as int, l, o)
            &&& forall|l2: int, o2: int|
                0 <= l2 < names.len() && 0 <= o2 < names[l2].len() && #[trigger] names[l2][o2]
                    == n@ && position_before(l2, o2, l, o) ==> !position_before(
                    el as int,
                    eo as int,
                    l2,
                    o2,
                )
        }
    &&& forall|l2: int, o2: int|
        0 <= l2 < names.len() && 0 <= o2 < names[l2].len() && position_before(l2, o2, l, o)
            && is_inventory_potential_name(#[trigger] names[l2][o2]) ==> exists|k: int|
            0 <= k < entries.len() && #[trigger] entries[k].0@ == names[l2][o2]
    &&& forall|j: int, k: int|
        0 <= j < entries.len() && 0 <= k < entries.len() && j != k ==> #[trigger] entries[j].0@
            != #[trigger] entries[k].0@
}

/// The entry holding `name`, if any.
fn find_entry(entries: &Vec<(String, usize, usize)>, name: &String) -> (r: Option<usize>)
    ensures
        r matches Some(k) ==> k < entries@.len() && entries@[k as int].0@ == name@,
        r is None ==> forall|k: int| 0 <= k < entries@.len() ==> entries@[k].0@ != name@,
{
    let mut k: usize = 0;
    while k < entries.len()
        invariant
            k <= entries@.len(),
            forall|j: int| 0 <= j < k ==> entries@[j].0@ != name@,
        decreases entries@.len() - k,
    {
        if entries[k].0 == *name {
            return Some(k);
        }
        k = k + 1;
    }
    None
}

/// Indexes the potential inventories by instance name. `levels` holds the
/// instance names of each level's object headers; each entry is a name with
/// its (level, object) position, the last one where names repeat.
pub fn inventory_potential_indices(levels: &Vec<Vec<String>>) -> (entries: Vec<(String, usize, usize)>)
    ensures
        is_inventory_index(level_names(levels@), entries@),
{
    let ghost names = level_names(levels@);
    let mut entries: Vec<(String, usize, usize)> = Vec::new();
    let mut level_index: usize = 0;
    while level_index < levels.len()
        invariant
            level_index <= levels@.len(),
            names == level_names(levels@),
            index_upto(names, entries@, level_index as int, 0),
        decreases levels@.len() - level_index,
    {
        let level = &levels[level_index];
        let mut object_index: usize = 0;
        while object_index < level.len()
            invariant
                level_index < levels@.len(),
                object_index <= level@.len(),
                *level == levels@[level_index as int],
                names == level_names(levels@),
                index_upto(names, entries@, level_index as int, object_index as int),
            decreases level@.len() - object_index,
        {
            let instance_name = &level[object_index];
            assert(names[level_index as int][object_index as int] == instance_name@);
            if str_contains(instance_name.as_str(), "InventoryPotential") {
                let ghost old_entries = entries@;
                let entry = (instance_name.clone(), level_index, object_index);
                let ghost mut slot: int = 0;
                match find_entry(&entries, instance_name) {
                    Some(k) => {
                        entries.set(k, entry);
                        proof {
                            slot = k as int;
                        }
                    },
                    None => {
                        entries.push(entry);
                        proof {
                            slot = entries@.len() - 1;
                        }
                    },
                }
                assert(entries@[slot].0@ == instance_name@);
                proof {
                    let l = level_index as int;
                    let o = object_index as int;
                    assert forall|l2: int, o2: int|
                        0 <= l2 < names.len() && 0 <= o2 < names[l2].len() && position_before(
                            l2,
                            o2,
                            l,
                            o + 1,
                        ) && is_inventory_potential_name(#[trigger] names[l2][o2]) implies exists|
                        k: int,
                    | 0 <= k < entries@.len() && #[trigger] entries@[k].0@ == names[l2][o2] by {
                        if l2 == l && o2 == o {
                            assert(entries@[slot].0@ == names[l2][o2]);
                        } else {
                            let k1 = choose|k1: int|
                                0 <= k1 < old_entries.len() && #[trigger] old_entries[k1].0@
                                    == names[l2][o2];
                            if old_entries[k1].0@ == instance_name@ {
                                assert(entries@[k1].0@ == names[l2][o2]);
                            } else {
                                assert(entries@[k1] == old_entries[k1]);
                            }
                        }
                    }
                }
            }
            object_index = object_index + 1;
        }
        level_index = level_index + 1;
    }
    entries
}

/// The highest clock speed an extractor reaches, in percent: 100 plus 50
/// for each power shard, counting at most three shards.
pub fn max_overclock_percent(power_shards: u8) -> (r: u16)
    ensures
        r == 100 + 50 * (if power_shards > 3 {
            3
        } else {
            power_shards as int
        }),
{
    let shards: u16 = if power_shards > 3 {
        3
    } else {
        power_shards as u16
    };
    100 + 50 * shards
}

} // verus!
