//! Static knowledge about tracked monsters and player classes: which base
//! ids are location-tracked, which need a location number, and the names
//! behind location and class ids.
use vstd::prelude::*;

verus! {

/// Whether a monster base id is one of the location-tracked bosses and
/// magical creatures.
pub open spec fn spec_is_location_tracked_mob(mob_id: u32) -> bool {
    ||| mob_id == 10007
    ||| mob_id == 10009
    ||| mob_id == 10010
    ||| mob_id == 10018
    ||| mob_id == 10029
    ||| mob_id == 10032
    ||| mob_id == 10056
    ||| mob_id == 10059
    ||| mob_id == 10069
    ||| mob_id == 10077
    ||| mob_id == 10081
    ||| mob_id == 10084
    ||| mob_id == 10085
    ||| mob_id == 10086
    ||| mob_id == 10900
    ||| mob_id == 10901
    ||| mob_id == 10902
    ||| mob_id == 10903
    ||| mob_id == 10904
}

/// Whether a monster base id is one of the location-tracked bosses and
/// magical creatures.
pub fn is_location_tracked_mob(mob_id: u32) -> (r: bool)
    ensures
        r == spec_is_location_tracked_mob(mob_id),
{
    match mob_id {
        10007 | 10009 | 10010 | 10018 | 10029 | 10032 | 10056 | 10059 | 10069 | 10077 | 10081
            | 10084 | 10085 | 10086 | 10900 | 10901 | 10902 | 10903 | 10904 => true,
        _ => false,
    }
}

/// Whether sightings of this monster carry a location number.
pub open spec fn spec_requires_location_number(mob_id: u32) -> bool {
    mob_id == 10900 || mob_id == 10901 || mob_id == 10904
}

/// Whether sightings of this monster carry a location number.
pub fn requires_location_number(mob_id: u32) -> (r: bool)
    ensures
        r == spec_requires_location_number(mob_id),
{
    match mob_id {
        10900 | 10901 | 10904 => true,
        _ => false,
    }
}

/// The name of a monster's numbered location, where one is known.
pub open spec fn spec_location_name(mob_id: u32, location_image: i32) -> Option<Seq<char>> {
    if mob_id == 10904 {
        if location_image == 1 {
            Some("Cliff Ruins"@)
        } else if location_image == 2 {
            Some("Scout NW"@)
        } else if location_image == 3 {
            Some("Scout E"@)
        } else if location_image == 4 {
            Some("Scout NE"@)
        } else if location_image == 5 {
            Some("Kana"@)
        } else if location_image == 6 {
            Some("Farm"@)
        } else if location_image == 7 {
            Some("Tent"@)
        } else if location_image == 8 {
            Some("Andra"@)
        } else {
            None
        }
    } else if mob_id == 10900 {
        if location_image == 1 {
            Some("Beach"@)
        } else if location_image == 2 {
            Some("Cliff Ruins"@)
        } else if location_image == 3 {
            Some("Muku"@)
        } else if location_image == 4 {
            Some("Old Kana"@)
        } else if location_image == 5 {
            Some("Brigand Leader"@)
        } else if location_image == 6 {
            Some("Ruins E"@)
        } else {
            None
        }
    } else if mob_id == 10901 {
        if location_image == 1 {
            Some("Beach"@)
        } else if location_image == 2 {
            Some("Lone"@)
        } else if location_image == 3 {
            Some("Cliff Ruins"@)
        } else if location_image == 4 {
            Some("Scout N"@)
        } else if location_image == 5 {
            Some("Scout E"@)
        } else if location_image == 6 {
            Some("Kana Road"@)
        } else if location_image == 7 {
            Some("Muku"@)
        } else if location_image == 8 {
            Some("Farm"@)
        } else if location_image == 9 {
            Some("Brigand Leader"@)
        } else if location_image == 10 {
            Some("Ruins N"@)
        } else if location_image == 11 {
            Some("Ruins E"@)
        } else {
            None
        }
    } else {
        None
    }
}

/// The name of a monster's numbered location, where one is known.
pub fn get_location_name(mob_id: u32, location_image: i32) -> (r: Option<&'static str>)
    ensures
        match r {
            Some(s) => spec_location_name(mob_id, location_image) == Some(s@),
            None => spec_location_name(mob_id, location_image) is None,
        },
{
    match mob_id {
        10904 => match location_image {
            1 => Some("Cliff Ruins"),
            2 => Some("Scout NW"),
            3 => Some("Scout E"),
            4 => Some("Scout NE"),
            5 => Some("Kana"),
            6 => Some("Farm"),
            7 => Some("Tent"),
            8 => Some("Andra"),
            _ => None,
        },
        10900 => match location_image {
            1 => Some("Beach"),
            2 => Some("Cliff Ruins"),
            3 => Some("Muku"),
            4 => Some("Old Kana"),
            5 => Some("Brigand Leader"),
            6 => Some("Ruins E"),
            _ => None,
        },
        10901 => match location_image {
            1 => Some("Beach"),
            2 => Some("Lone"),
            3 => Some("Cliff Ruins"),
            4 => Some("Scout N"),
            5 => Some("Scout E"),
            6 => Some("Kana Road"),
            7 => Some("Muku"),
            8 => Some("Farm"),
            9 => Some("Brigand Leader"),
            10 => Some("Ruins N"),
            11 => Some("Ruins E"),
            _ => None,
        },
        _ => None,
    }
}

/// The display name of a boss or magical creature, where one is known.
pub open spec fn spec_mob_name(mob_id: u32) -> Option<Seq<char>> {
    if mob_id == 10007 {
        Some("Storm Goblin King"@)
    } else if mob_id == 10009 {
        Some("Frost Ogre"@)
    } else if mob_id == 10010 {
        Some("Tempest Ogre"@)
    } else if mob_id == 10018 {
        Some("Inferno Ogre"@)
    } else if mob_id == 10029 {
        Some("Muku King"@)
    } else if mob_id == 10032 {
        Some("Golden Juggernaut"@)
    } else if mob_id == 10056 {
        Some("Brigand Leader"@)
    } else if mob_id == 10059 {
        Some("Muku Chief"@)
    } else if mob_id == 10069 {
        Some("Phantom Arachnocrab"@)
    } else if mob_id == 10077 {
        Some("Venobzzar Incubator"@)
    } else if mob_id == 10081 {
        Some("Iron Fang"@)
    } else if mob_id == 10084 {
        Some("Celestial Flier"@)
    } else if mob_id == 10085 {
        Some("Lizardman King"@)
    } else if mob_id == 10086 {
        Some("Goblin King"@)
    } else if mob_id == 10900 {
        Some("Golden Nappo"@)
    } else if mob_id == 10901 {
        Some("Silver Nappo"@)
    } else if mob_id == 10902 {
        Some("Lovely Boarlet"@)
    } else if mob_id == 10903 {
        Some("Breezy Boarlet"@)
    } else if mob_id == 10904 {
        Some("Loyal Boarlet"@)
    } else {
        None
    }
}

/// The display name of a boss or magical creature, where one is known.
pub fn get_boss_or_magical_creature_name(mob_id: u32) -> (r: Option<&'static str>)
    ensures
        match r {
            Some(s) => spec_mob_name(mob_id) == Some(s@),
            None => spec_mob_name(mob_id) is None,
        },
{
    match mob_id {
        10007 => Some("Storm Goblin King"),
        10009 => Some("Frost Ogre"),
        10010 => Some("Tempest Ogre"),
        10018 => Some("Inferno Ogre"),
        10029 => Some("Muku King"),
        10032 => Some("Golden Juggernaut"),
        10056 => Some("Brigand Leader"),
        10059 => Some("Muku Chief"),
        10069 => Some("Phantom Arachnocrab"),
        10077 => Some("Venobzzar Incubator"),
        10081 => Some("Iron Fang"),
        10084 => Some("Celestial Flier"),
        10085 => Some("Lizardman King"),
        10086 => Some("Goblin King"),
        10900 => Some("Golden Nappo"),
        10901 => Some("Silver Nappo"),
        10902 => Some("Lovely Boarlet"),
        10903 => Some("Breezy Boarlet"),
        10904 => Some("Loyal Boarlet"),
        _ => None,
    }
}

/// The display name of a player class, where one is known.
pub open spec fn spec_class_name(class_id: i32) -> Option<Seq<char>> {
    if class_id == 1 {
        Some("Stormblade"@)
    } else if class_id == 2 {
        Some("Frost Mage"@)
    } else if class_id == 3 {
        Some("Fire Axe"@)
    } else if class_id == 4 {
        Some("Wind Knight"@)
    } else if class_id == 5 {
        Some("Verdant Oracle"@)
    } else if class_id == 8 {
        Some("Gunner"@)
    } else if class_id == 9 {
        Some("Heavy Guardian"@)
    } else if class_id == 10 {
        Some("Spirit Dancer"@)
    } else if class_id == 11 {
        Some("Marksman"@)
    } else if class_id == 12 {
        Some("Shield Knight"@)
    } else if class_id == 13 {
        Some("Beat Performer"@)
    } else {
        None
    }
}

/// The display name of a player class, where one is known.
pub fn get_class_name(class_id: i32) -> (r: Option<&'static str>)
    ensures
        match r {
            Some(s) => spec_class_name(class_id) == Some(s@),
            None => spec_class_name(class_id) is None,
        },
{
    match class_id {
        1 => Some("Stormblade"),
        2 => Some("Frost Mage"),
        3 => Some("Fire Axe"),
        4 => Some("Wind Knight"),
        5 => Some("Verdant Oracle"),
        8 => Some("Gunner"),
        9 => Some("Heavy Guardian"),
        10 => Some("Spirit Dancer"),
        11 => Some("Marksman"),
        12 => Some("Shield Knight"),
        13 => Some("Beat Performer"),
        _ => None,
    }
}

} // verus!
