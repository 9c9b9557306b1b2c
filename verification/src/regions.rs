//! Region knowledge keyed by account-id prefix: which region an account
//! prefix selects, which prefixes are known but not served, and the
//! names regions go by in queries, topics and the interface.
use vstd::prelude::*;
use vstd::string::StringExecFns;
use vstd::utf8::encode_utf8;
use vstd::utf8::encode_utf8_decode_utf8;

use crate::settings::MobTimersRegion;

verus! {

/// What is known about one region entry.
#[derive(Debug, Clone, Copy)]
pub struct RegionInfo {
    /// The account-id prefix selecting the region.
    pub prefix: &'static str,
    /// The region's short name.
    pub name: &'static str,
    /// The region's display name.
    pub display_name: &'static str,
    /// Whether the region is served.
    pub enabled: bool,
    /// The region value itself.
    pub region: Option<MobTimersRegion>,
}

/// The account-id prefix of a region.
pub open spec fn spec_region_prefix(r: MobTimersRegion) -> Seq<char> {
    match r {
        MobTimersRegion::DEV => "0_"@,
        MobTimersRegion::CN => "1_"@,
        MobTimersRegion::INT => "2_"@,
        MobTimersRegion::TW => "3_"@,
        MobTimersRegion::NA => "4_"@,
        MobTimersRegion::JPKR => "5_"@,
        MobTimersRegion::SEA => "6_"@,
    }
}

/// The short name of a region.
pub open spec fn spec_region_name(r: MobTimersRegion) -> Seq<char> {
    match r {
        MobTimersRegion::DEV => "DEV"@,
        MobTimersRegion::CN => "CN"@,
        MobTimersRegion::INT => "INT"@,
        MobTimersRegion::TW => "TW"@,
        MobTimersRegion::NA => "NA"@,
        MobTimersRegion::JPKR => "JPKR"@,
        MobTimersRegion::SEA => "SEA"@,
    }
}

/// The display name of a region.
pub open spec fn spec_region_display_name(r: MobTimersRegion) -> Seq<char> {
    match r {
        MobTimersRegion::DEV => "DEV"@,
        MobTimersRegion::CN => "CN"@,
        MobTimersRegion::INT => "INT"@,
        MobTimersRegion::TW => "TW"@,
        MobTimersRegion::NA => "NA"@,
        MobTimersRegion::JPKR => "JP/KR"@,
        MobTimersRegion::SEA => "SEA"@,
    }
}

/// The lowercase short name of a region, as its topic suffix.
pub open spec fn spec_region_suffix(r: MobTimersRegion) -> Seq<char> {
    match r {
        MobTimersRegion::DEV => "dev"@,
        MobTimersRegion::CN => "cn"@,
        MobTimersRegion::INT => "int"@,
        MobTimersRegion::TW => "tw"@,
        MobTimersRegion::NA => "na"@,
        MobTimersRegion::JPKR => "jpkr"@,
        MobTimersRegion::SEA => "sea"@,
    }
}

/// Whether the region is served.
pub open spec fn spec_region_enabled(r: MobTimersRegion) -> bool {
    r == MobTimersRegion::NA || r == MobTimersRegion::SEA
}

/// Whether two pieces of text are equal.
fn str_eq(a: &str, b: &str) -> (r: bool)
    ensures
        r == (a@ == b@),
{
    let ab = a.as_bytes();
    let bb = b.as_bytes();
    if ab.len() != bb.len() {
        proof {
            encode_utf8_decode_utf8(a@);
            encode_utf8_decode_utf8(b@);
        }
        return false;
    }
    let n = ab.len();
    let mut i: usize = 0;
    while i < n
        invariant
            n == ab@.len(),
            n == bb@.len(),
            i <= n,
            ab@ == encode_utf8(a@),
            bb@ == encode_utf8(b@),
            forall|j: int| 0 <= j < i ==> ab@[j] == bb@[j],
        decreases n - i,
    {
        if ab[i] != bb[i] {
            proof {
                encode_utf8_decode_utf8(a@);
                encode_utf8_decode_utf8(b@);
                assert(ab@ != bb@);
            }
            return false;
        }
        i += 1;
    }
    proof {
        assert(ab@ =~= bb@);
        encode_utf8_decode_utf8(a@);
        encode_utf8_decode_utf8(b@);
        assert(a@ == b@);
    }
    true
}

/// The served region an account-id prefix selects, if any: a known
/// prefix of a region that is not served gives nothing, as does an
/// unknown prefix.
pub fn get_mob_timers_region_from_prefix(prefix: &str) -> (r: Option<MobTimersRegion>)
    ensures
        r == (if prefix@ == spec_region_prefix(MobTimersRegion::NA) {
            Some(MobTimersRegion::NA)
        } else if prefix@ == spec_region_prefix(MobTimersRegion::SEA) {
            Some(MobTimersRegion::SEA)
        } else {
            None::<MobTimersRegion>
        }),
{
    if str_eq(prefix, "4_") {
        Some(MobTimersRegion::NA)
    } else if str_eq(prefix, "6_") {
        Some(MobTimersRegion::SEA)
    } else {
        None
    }
}

/// Whether an account-id prefix is known but belongs to a region that
/// is not served.
pub fn is_prefix_known_but_disabled(prefix: &str) -> (r: bool)
    ensures
        r == (exists|reg: MobTimersRegion|
            prefix@ == spec_region_prefix(reg) && !spec_region_enabled(reg)),
{
    let r = str_eq(prefix, "0_") || str_eq(prefix, "1_") || str_eq(prefix, "2_") || str_eq(
        prefix,
        "3_",
    ) || str_eq(prefix, "5_");
    proof {
        if r {
            if prefix@ == "0_"@ {
                assert(spec_region_prefix(MobTimersRegion::DEV) == prefix@ && !spec_region_enabled(
                    MobTimersRegion::DEV,
                ));
            } else if prefix@ == "1_"@ {
                assert(spec_region_prefix(MobTimersRegion::CN) == prefix@ && !spec_region_enabled(
                    MobTimersRegion::CN,
                ));
            } else if prefix@ == "2_"@ {
                assert(spec_region_prefix(MobTimersRegion::INT) == prefix@ && !spec_region_enabled(
                    MobTimersRegion::INT,
                ));
            } else if prefix@ == "3_"@ {
                assert(spec_region_prefix(MobTimersRegion::TW) == prefix@ && !spec_region_enabled(
                    MobTimersRegion::TW,
                ));
            } else {
                assert(spec_region_prefix(MobTimersRegion::JPKR) == prefix@ && !spec_region_enabled(
                    MobTimersRegion::JPKR,
                ));
            }
        } else {
            assert forall|reg: MobTimersRegion|
                prefix@ == spec_region_prefix(reg) implies spec_region_enabled(reg) by {
                match reg {
                    MobTimersRegion::DEV => assert(prefix@ != "0_"@),
                    MobTimersRegion::CN => assert(prefix@ != "1_"@),
                    MobTimersRegion::INT => assert(prefix@ != "2_"@),
                    MobTimersRegion::TW => assert(prefix@ != "3_"@),
                    MobTimersRegion::JPKR => assert(prefix@ != "5_"@),
                    _ => {},
                }
            }
        }
    }
    r
}

/// What is known about a region.
pub fn get_region_info(region: &MobTimersRegion) -> (r: Option<RegionInfo>)
    ensures
        r matches Some(info) && info.prefix@ == spec_region_prefix(*region) && info.name@
            == spec_region_name(*region) && info.display_name@ == spec_region_display_name(*region)
            && info.enabled == spec_region_enabled(*region) && info.region == Some(*region),
{
    let info = match region {
        MobTimersRegion::DEV => RegionInfo {
            prefix: "0_",
            name: "DEV",
            display_name: "DEV",
            enabled: false,
            region: Some(MobTimersRegion::DEV),
        },
        MobTimersRegion::CN => RegionInfo {
            prefix: "1_",
            name: "CN",
            display_name: "CN",
            enabled: false,
            region: Some(MobTimersRegion::CN),
        },
        MobTimersRegion::INT => RegionInfo {
            prefix: "2_",
            name: "INT",
            display_name: "INT",
            enabled: false,
            region: Some(MobTimersRegion::INT),
        },
        MobTimersRegion::TW => RegionInfo {
            prefix: "3_",
            name: "TW",
            display_name: "TW",
            enabled: false,
            region: Some(MobTimersRegion::TW),
        },
        MobTimersRegion::NA => RegionInfo {
            prefix: "4_",
            name: "NA",
            display_name: "NA",
            enabled: true,
            region: Some(MobTimersRegion::NA),
        },
        MobTimersRegion::JPKR => RegionInfo {
            prefix: "5_",
            name: "JPKR",
            display_name: "JP/KR",
            enabled: false,
            region: Some(MobTimersRegion::JPKR),
        },
        MobTimersRegion::SEA => RegionInfo {
            prefix: "6_",
            name: "SEA",
            display_name: "SEA",
            enabled: true,
            region: Some(MobTimersRegion::SEA),
        },
    };
    Some(info)
}

/// The topic name for a region: the base name alone for North America,
/// else the base name with the region's lowercase suffix.
pub fn get_topic_name(region: &MobTimersRegion, base_name: &str) -> (r: String)
    ensures
        r@ == (if *region == MobTimersRegion::NA {
            base_name@
        } else {
            base_name@ + "_"@ + spec_region_suffix(*region)
        }),
{
    match region {
        MobTimersRegion::NA => base_name.to_owned(),
        MobTimersRegion::DEV => base_name.to_owned().concat("_").concat("dev"),
        MobTimersRegion::CN => base_name.to_owned().concat("_").concat("cn"),
        MobTimersRegion::INT => base_name.to_owned().concat("_").concat("int"),
        MobTimersRegion::TW => base_name.to_owned().concat("_").concat("tw"),
        MobTimersRegion::JPKR => base_name.to_owned().concat("_").concat("jpkr"),
        MobTimersRegion::SEA => base_name.to_owned().concat("_").concat("sea"),
    }
}

/// The region's short name for queries.
pub fn get_region_string(region: &MobTimersRegion) -> (r: String)
    ensures
        r@ == spec_region_name(*region),
{
    match region {
        MobTimersRegion::DEV => String::from_str("DEV"),
        MobTimersRegion::CN => String::from_str("CN"),
        MobTimersRegion::INT => String::from_str("INT"),
        MobTimersRegion::TW => String::from_str("TW"),
        MobTimersRegion::NA => String::from_str("NA"),
        MobTimersRegion::JPKR => String::from_str("JPKR"),
        MobTimersRegion::SEA => String::from_str("SEA"),
    }
}

/// The region's display name; no chosen region shows as automatic.
pub fn get_region_display_name(region: &Option<MobTimersRegion>) -> (r: &'static str)
    ensures
        r@ == (match region {
            Option::None => "Auto"@,
            Option::Some(reg) => spec_region_display_name(*reg),
        }),
{
    match region {
        None => "Auto",
        Some(MobTimersRegion::DEV) => "DEV",
        Some(MobTimersRegion::CN) => "CN",
        Some(MobTimersRegion::INT) => "INT",
        Some(MobTimersRegion::TW) => "TW",
        Some(MobTimersRegion::NA) => "NA",
        Some(MobTimersRegion::JPKR) => "JP/KR",
        Some(MobTimersRegion::SEA) => "SEA",
    }
}

} // verus!
