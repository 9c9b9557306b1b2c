//! Module (equipment) data extracted from the local player's container
//! snapshot: each module is the list of its known effect ids with their
//! levels.
use vstd::prelude::*;

use crate::messages::SyncContainerData;
use crate::messages::ModInfoEntry;
use crate::messages::ItemEntry;
use crate::messages::Package;

verus! {

/// A module loadout: the extracted modules.
#[derive(Debug, Clone)]
pub struct ModuleData {
    /// The extracted modules.
    pub modules: Vec<Module>,
}

/// One module: its effects.
#[derive(Debug, Clone)]
pub struct Module {
    /// The module's effects with their levels.
    pub effects: Vec<ModuleEffect>,
}

/// One module effect: a known effect id and its level.
#[derive(Debug, Clone, Copy, PartialEq, Eq, Structural)]
pub struct ModuleEffect {
    /// The effect id.
    pub id: i32,
    /// The effect's level.
    pub level: u32,
}

/// The model of a module: its effect list.
pub type ModuleModel = Seq<ModuleEffect>;

/// The model of a module.
pub open spec fn module_model(m: Module) -> ModuleModel {
    m.effects@
}

/// Whether an effect id is one of the known module effects.
pub open spec fn spec_is_valid_effect_id(effect_id: i32) -> bool {
    ||| effect_id == 1110
    ||| effect_id == 1111
    ||| effect_id == 1112
    ||| effect_id == 1113
    ||| effect_id == 1114
    ||| effect_id == 1205
    ||| effect_id == 1206
    ||| effect_id == 1307
    ||| effect_id == 1308
    ||| effect_id == 1407
    ||| effect_id == 1408
    ||| effect_id == 1409
    ||| effect_id == 1410
    ||| effect_id == 2104
    ||| effect_id == 2105
    ||| effect_id == 2204
    ||| effect_id == 2205
    ||| effect_id == 2304
    ||| effect_id == 2404
    ||| effect_id == 2405
    ||| effect_id == 2406
}

/// Whether an effect id is one of the known module effects.
pub fn is_valid_effect_id(effect_id: i32) -> (r: bool)
    ensures
        r == spec_is_valid_effect_id(effect_id),
{
    match effect_id {
        1110 | 1111 | 1112 | 1113 | 1114 | 1205 | 1206 | 1307 | 1308 | 1407 | 1408 | 1409 | 1410
            | 2104 | 2105 | 2204 | 2205 | 2304 | 2404 | 2405 | 2406 => true,
        _ => false,
    }
}

/// The index of the first module-info entry with the given key, or -1.
pub open spec fn spec_mod_info_idx(infos: Seq<ModInfoEntry>, key: i64) -> int
    decreases infos.len(),
{
    if infos.len() == 0 {
        -1
    } else if infos[0].key == key {
        0
    } else {
        let r = spec_mod_info_idx(infos.subrange(1, infos.len() as int), key);
        if r < 0 {
            -1
        } else {
            1 + r
        }
    }
}

/// The link levels recorded for an item key, or the empty list when none
/// are.
pub open spec fn spec_link_nums_for(infos: Seq<ModInfoEntry>, key: i64) -> Seq<i32> {
    let i = spec_mod_info_idx(infos, key);
    if i >= 0 {
        infos[i].info.init_link_nums@
    } else {
        Seq::empty()
    }
}

/// The effects of one item from position `i` on: part id `j` paired with
/// link level `j`, kept when the part id is a known effect; only as many
/// positions as both lists hold.
pub open spec fn spec_effects_from(parts: Seq<i32>, links: Seq<i32>, i: int) -> Seq<ModuleEffect>
    decreases parts.len() - i,
    when 0 <= i
{
    if i < parts.len() && i < links.len() {
        let rest = spec_effects_from(parts, links, i + 1);
        if spec_is_valid_effect_id(parts[i]) {
            seq![ModuleEffect { id: parts[i], level: links[i] as u32 }] + rest
        } else {
            rest
        }
    } else {
        Seq::empty()
    }
}

/// The effects of one item: each module part paired with its link level,
/// kept when the part id is a known effect.
pub open spec fn spec_effects_of(parts: Seq<i32>, links: Seq<i32>) -> Seq<ModuleEffect> {
    spec_effects_from(parts, links, 0)
}

/// `spec_mod_info_idx` finds the first entry with the given key, and -1
/// exactly when no entry has it.
pub proof fn lemma_mod_info_idx(infos: Seq<ModInfoEntry>, key: i64)
    ensures
        spec_mod_info_idx(infos, key) == -1 ==> forall|j: int|
            0 <= j < infos.len() ==> (#[trigger] infos[j]).key != key,
        spec_mod_info_idx(infos, key) != -1 ==> {
            let i = spec_mod_info_idx(infos, key);
            &&& 0 <= i < infos.len()
            &&& infos[i].key == key
            &&& forall|j: int| 0 <= j < i ==> (#[trigger] infos[j]).key != key
        },
    decreases infos.len(),
{
    if infos.len() == 0 {
    } else if infos[0].key == key {
    } else {
        let tail = infos.subrange(1, infos.len() as int);
        lemma_mod_info_idx(tail, key);
        assert(forall|j: int| 1 <= j < infos.len() ==> (#[trigger] infos[j]) == tail[j - 1]);
        let r = spec_mod_info_idx(tail, key);
        if r < 0 {
            assert forall|j: int| 0 <= j < infos.len() implies (#[trigger] infos[j]).key != key by {
                if j >= 1 {
                    assert(infos[j] == tail[j - 1]);
                }
            }
        } else {
            assert(spec_mod_info_idx(infos, key) == 1 + r);
            assert(infos[1 + r] == tail[r]);
            assert forall|j: int| 0 <= j < 1 + r implies (#[trigger] infos[j]).key != key by {
                if j >= 1 {
                    assert(tail[j - 1].key != key);
                }
            }
        }
    }
}

/// The modules contributed by one item: when the item is a module with at
/// least one part, its effects — and only when at least one effect id is
/// known does it yield a module.
pub open spec fn spec_modules_of_item(entry: ItemEntry, infos: Seq<ModInfoEntry>) -> Seq<
    ModuleModel,
> {
    match entry.item.mod_new_attr {
        Option::None => Seq::empty(),
        Option::Some(attr) => {
            if attr.mod_parts@.len() == 0 {
                Seq::empty()
            } else {
                let effects = spec_effects_of(
                    attr.mod_parts@,
                    spec_link_nums_for(infos, entry.key),
                );
                if effects.len() > 0 {
                    seq![effects]
                } else {
                    Seq::empty()
                }
            }
        },
    }
}

/// The modules contributed by the items from position `i` on.
pub open spec fn spec_modules_of_items(
    items: Seq<ItemEntry>,
    infos: Seq<ModInfoEntry>,
    i: int,
) -> Seq<ModuleModel>
    decreases items.len() - i,
    when 0 <= i
{
    if i < items.len() {
        spec_modules_of_item(items[i], infos) + spec_modules_of_items(items, infos, i + 1)
    } else {
        Seq::empty()
    }
}

/// The modules contributed by the packages from position `i` on.
pub open spec fn spec_modules_of_packages(
    pkgs: Seq<Package>,
    infos: Seq<ModInfoEntry>,
    i: int,
) -> Seq<ModuleModel>
    decreases pkgs.len() - i,
    when 0 <= i
{
    if i < pkgs.len() {
        spec_modules_of_items(pkgs[i].items@, infos, 0) + spec_modules_of_packages(
            pkgs,
            infos,
            i + 1,
        )
    } else {
        Seq::empty()
    }
}

/// The modules of a container snapshot: nothing without player data, a
/// module table and an item package; otherwise every module of every item
/// of every package.
pub open spec fn spec_extract_modules(sync: SyncContainerData) -> Seq<ModuleModel> {
    match sync.v_data {
        Option::None => Seq::empty(),
        Option::Some(v) => {
            if v.mod_data is None || v.item_package is None {
                Seq::empty()
            } else {
                spec_modules_of_packages(v.item_package->0.packages@, v.mod_data->0.mod_infos@, 0)
            }
        },
    }
}

/// Index of the first module-info entry with the given key, if any.
fn find_mod_info(infos: &Vec<ModInfoEntry>, key: i64) -> (r: Option<usize>)
    ensures
        match r {
            Some(i) => spec_mod_info_idx(infos@, key) == i && i < infos@.len()
                && infos@[i as int].key == key,
            None => spec_mod_info_idx(infos@, key) == -1,
        },
{
    let n = infos.len();
    let mut i: usize = 0;
    while i < n
        invariant
            n == infos@.len(),
            i <= n,
            forall|j: int| 0 <= j < i ==> (#[trigger] infos@[j]).key != key,
        decreases n - i,
    {
        if infos[i].key == key {
            proof {
                lemma_mod_info_idx(infos@, key);
            }
            return Some(i);
        }
        i += 1;
    }
    proof {
        lemma_mod_info_idx(infos@, key);
    }
    None
}

/// The known effects of one item: part ids paired with link levels.
fn effects_of(parts: &Vec<i32>, links: &Vec<i32>) -> (effects: Vec<ModuleEffect>)
    ensures
        effects@ =~= spec_effects_of(parts@, links@),
{
    let mut effects: Vec<ModuleEffect> = Vec::new();
    let mut i: usize = 0;
    loop
        invariant
            i <= parts@.len(),
            effects@ + spec_effects_from(parts@, links@, i as int) =~= spec_effects_of(
                parts@,
                links@,
            ),
        ensures
            effects@ =~= spec_effects_of(parts@, links@),
        decreases parts@.len() - i,
    {
        if i >= parts.len() || i >= links.len() {
            proof {
                assert(spec_effects_from(parts@, links@, i as int) =~= Seq::<ModuleEffect>::empty());
            }
            break ;
        }
        let part_id = parts[i];
        if is_valid_effect_id(part_id) {
            let level =
                #[verifier::truncate]
                (links[i] as u32);
            effects.push(ModuleEffect { id: part_id, level });
            proof {
                assert(effects@ + spec_effects_from(parts@, links@, i + 1) =~= effects@.drop_last()
                    + spec_effects_from(parts@, links@, i as int));
            }
        } else {
            proof {
                assert(spec_effects_from(parts@, links@, i as int) == spec_effects_from(
                    parts@,
                    links@,
                    i + 1,
                ));
            }
        }
        i += 1;
    }
    effects
}

/// Extract the module loadout from a container snapshot.
pub fn extract_modules(sync_data: &SyncContainerData) -> (modules: Vec<Module>)
    ensures
        modules@.map_values(|m: Module| module_model(m)) =~= spec_extract_modules(*sync_data),
{
    let mut modules: Vec<Module> = Vec::new();
    let v_data = match &sync_data.v_data {
        Some(v) => v,
        None => {
            return modules;
        },
    };
    let mod_infos = match &v_data.mod_data {
        Some(m) => &m.mod_infos,
        None => {
            return modules;
        },
    };
    let item_package = match &v_data.item_package {
        Some(p) => p,
        None => {
            return modules;
        },
    };
    let ghost infos = mod_infos@;
    let ghost pkgs = item_package.packages@;
    let mut pi: usize = 0;
    loop
        invariant
            infos == mod_infos@,
            pkgs == item_package.packages@,
            pi <= pkgs.len(),
            modules@.map_values(|m: Module| module_model(m)) + spec_modules_of_packages(
                pkgs,
                infos,
                pi as int,
            ) =~= spec_modules_of_packages(pkgs, infos, 0),
        ensures
            modules@.map_values(|m: Module| module_model(m)) =~= spec_modules_of_packages(
                pkgs,
                infos,
                0,
            ),
        decreases pkgs.len() - pi,
    {
        if pi >= item_package.packages.len() {
            break ;
        }
        let package = &item_package.packages[pi];
        let ghost items = package.items@;
        let mut ii: usize = 0;
        loop
            invariant
                infos == mod_infos@,
                pkgs == item_package.packages@,
                pi < pkgs.len(),
                items == pkgs[pi as int].items@,
                items == package.items@,
                ii <= items.len(),
                modules@.map_values(|m: Module| module_model(m)) + spec_modules_of_items(
                    items,
                    infos,
                    ii as int,
                ) + spec_modules_of_packages(pkgs, infos, pi + 1) =~= spec_modules_of_packages(
                    pkgs,
                    infos,
                    0,
                ),
            ensures
                modules@.map_values(|m: Module| module_model(m)) + spec_modules_of_packages(
                    pkgs,
                    infos,
                    pi + 1,
                ) =~= spec_modules_of_packages(pkgs, infos, 0),
            decreases items.len() - ii,
        {
            if ii >= package.items.len() {
                break ;
            }
            let entry = &package.items[ii];
            let ghost pre_modules = modules@;
            if let Some(mod_new_attr) = &entry.item.mod_new_attr {
                if mod_new_attr.mod_parts.len() > 0 {
                    let empty_links: Vec<i32> = Vec::new();
                    let links: &Vec<i32> = match find_mod_info(mod_infos, entry.key) {
                        Some(idx) => &mod_infos[idx].info.init_link_nums,
                        None => &empty_links,
                    };
                    proof {
                        assert(links@ == spec_link_nums_for(infos, entry.key@));
                    }
                    let effects = effects_of(&mod_new_attr.mod_parts, links);
                    if effects.len() > 0 {
                        modules.push(Module { effects });
                        proof {
                            assert(modules@.map_values(|m: Module| module_model(m))
                                =~= pre_modules.map_values(|m: Module| module_model(m))
                                + spec_modules_of_item(items[ii as int], infos));
                        }
                    }
                }
            }
            proof {
                assert(spec_modules_of_items(items, infos, ii as int) == spec_modules_of_item(
                    items[ii as int],
                    infos,
                ) + spec_modules_of_items(items, infos, ii + 1));
                assert(modules@.map_values(|m: Module| module_model(m)) + spec_modules_of_items(
                    items,
                    infos,
                    ii + 1,
                ) =~= pre_modules.map_values(|m: Module| module_model(m)) + spec_modules_of_items(
                    items,
                    infos,
                    ii as int,
                ));
            }
            ii += 1;
        }
        pi += 1;
    }
    proof {
        assert(spec_extract_modules(*sync_data) == spec_modules_of_packages(pkgs, infos, 0));
    }
    modules
}

} // verus!
