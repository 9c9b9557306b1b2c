//! Capture-device selection: derive a readable name for a capture device
//! and pick a default interface by physical/operational heuristics. The
//! enumeration itself (capture library, OS interface list) happens
//! outside; this module decides on plain descriptions of what was found.
use vstd::prelude::*;
use vstd::string::StringExecFns;
use vstd::string::StringSliceAdditionalSpecFns;

verus! {

/// The rough kind of a network interface, as the OS reports it.
#[derive(Debug, Clone, Copy, PartialEq, Eq, Structural)]
pub enum InterfaceKind {
    /// A wired Ethernet interface.
    Ethernet,
    /// An 802.11 wireless interface.
    Wireless,
    /// Anything else.
    Other,
}

/// One capture-capable device, described by plain values: its name, its
/// optional description, and what the OS reports about the interface
/// backing it.
#[derive(Debug, Clone)]
pub struct DeviceDescriptor {
    /// The device name.
    pub name: String,
    /// The device description, when the backend offers one.
    pub description: Option<String>,
    /// Whether an OS interface was matched to this device at all.
    pub has_interface: bool,
    /// Whether that interface is the default-route interface.
    pub is_default_route: bool,
    /// Whether that interface is operationally up.
    pub is_up: bool,
    /// Whether that interface holds a non-loopback, non-link-local IPv4
    /// address.
    pub has_valid_ipv4: bool,
    /// The interface's kind.
    pub kind: InterfaceKind,
}

/// The UTF-8 bytes of a character sequence.
pub open spec fn spec_str_bytes(s: Seq<char>) -> Seq<u8> {
    vstd::utf8::encode_utf8(s)
}

/// Whether `needle` occurs as a contiguous byte run inside `hay`.
pub open spec fn spec_contains_bytes(hay: Seq<u8>, needle: Seq<u8>) -> bool {
    exists|i: int|
        0 <= i && i + needle.len() <= hay.len() && #[trigger] hay.subrange(i, i + needle.len())
            == needle
}

/// The byte with ASCII uppercase letters folded to lowercase.
pub open spec fn spec_ascii_lower(b: u8) -> u8 {
    if 65 <= b <= 90 {
        (b + 32) as u8
    } else {
        b
    }
}

/// The bytes with ASCII uppercase letters folded to lowercase.
pub open spec fn spec_ascii_lower_bytes(s: Seq<u8>) -> Seq<u8> {
    s.map_values(|b: u8| spec_ascii_lower(b))
}

/// Whether `needle` occurs in `hay`, ignoring ASCII case.
pub open spec fn spec_contains_ci(hay: Seq<u8>, needle: Seq<u8>) -> bool {
    spec_contains_bytes(spec_ascii_lower_bytes(hay), spec_ascii_lower_bytes(needle))
}

/// The virtual-adapter keywords of the denylist, lowercase, as bytes:
/// "tunnel", "vpn", "hyper-v", "bluetooth", "wan miniport", "loopback".
pub open spec fn spec_denylist() -> Seq<Seq<u8>> {
    seq![
        seq![0x74u8, 0x75, 0x6e, 0x6e, 0x65, 0x6c],
        seq![0x76u8, 0x70, 0x6e],
        seq![0x68u8, 0x79, 0x70, 0x65, 0x72, 0x2d, 0x76],
        seq![0x62u8, 0x6c, 0x75, 0x65, 0x74, 0x6f, 0x6f, 0x74, 0x68],
        seq![0x77u8, 0x61, 0x6e, 0x20, 0x6d, 0x69, 0x6e, 0x69, 0x70, 0x6f, 0x72, 0x74],
        seq![0x6cu8, 0x6f, 0x6f, 0x70, 0x62, 0x61, 0x63, 0x6b],
    ]
}

/// Whether a device looks like a virtual adapter: its name or
/// description holds one of the denylist keywords, ignoring case.
pub open spec fn spec_looks_virtual(d: DeviceDescriptor) -> bool {
    exists|k: int|
        0 <= k < spec_denylist().len() && (spec_contains_ci(
            spec_str_bytes(d.name@),
            spec_denylist()[k],
        ) || (d.description matches Some(desc) && spec_contains_ci(
            spec_str_bytes(desc@),
            spec_denylist()[k],
        )))
}

/// Whether a device is usable at all: matched to an interface that is up
/// with a valid IPv4 address.
pub open spec fn spec_usable(d: DeviceDescriptor) -> bool {
    d.has_interface && d.is_up && d.has_valid_ipv4
}

/// The first index from `i` on whose device satisfies `pred`, or -1.
pub open spec fn spec_first_matching(
    devices: Seq<DeviceDescriptor>,
    pred: spec_fn(DeviceDescriptor) -> bool,
    i: int,
) -> int
    decreases devices.len() - i,
    when 0 <= i
{
    if i >= devices.len() {
        -1
    } else if pred(devices[i]) {
        i
    } else {
        spec_first_matching(devices, pred, i + 1)
    }
}

/// A usable default-route device.
pub open spec fn pred_default() -> spec_fn(DeviceDescriptor) -> bool {
    |d: DeviceDescriptor| spec_usable(d) && d.is_default_route
}

/// A usable Ethernet device.
pub open spec fn pred_ethernet() -> spec_fn(DeviceDescriptor) -> bool {
    |d: DeviceDescriptor| spec_usable(d) && d.kind == InterfaceKind::Ethernet
}

/// A usable wireless device.
pub open spec fn pred_wireless() -> spec_fn(DeviceDescriptor) -> bool {
    |d: DeviceDescriptor| spec_usable(d) && d.kind == InterfaceKind::Wireless
}

/// A device that does not look like a virtual adapter.
pub open spec fn pred_physical() -> spec_fn(DeviceDescriptor) -> bool {
    |d: DeviceDescriptor| !spec_looks_virtual(d)
}

/// The selected device index: the default-route interface when usable,
/// else the first usable Ethernet interface, else the first usable
/// wireless one, else the first not matching the virtual-adapter
/// denylist; `None` when nothing qualifies (the caller then falls back
/// to index 0).
pub open spec fn spec_select_best(devices: Seq<DeviceDescriptor>) -> Option<int> {
    let by_default = spec_first_matching(devices, pred_default(), 0);
    let by_ethernet = spec_first_matching(devices, pred_ethernet(), 0);
    let by_wireless = spec_first_matching(devices, pred_wireless(), 0);
    let by_physical = spec_first_matching(devices, pred_physical(), 0);
    if by_default >= 0 {
        Some(by_default)
    } else if by_ethernet >= 0 {
        Some(by_ethernet)
    } else if by_wireless >= 0 {
        Some(by_wireless)
    } else if by_physical >= 0 {
        Some(by_physical)
    } else {
        None
    }
}

/// Which text names a capture device.
#[verifier::ext_equal]
pub ghost enum CleanNameChoice {
    /// The device name itself, with any capture-backend prefix stripped.
    StrippedName,
    /// The device description.
    Description,
    /// The fixed fallback text.
    Unknown,
}

/// The capture-backend name-mangling prefix, as bytes: "\Device\NPF_".
pub open spec fn spec_npf_prefix() -> Seq<u8> {
    seq![0x5cu8, 0x44, 0x65, 0x76, 0x69, 0x63, 0x65, 0x5c, 0x4e, 0x50, 0x46, 0x5f]
}

/// The name bytes with the capture-backend prefix stripped, where
/// present on a character boundary.
pub open spec fn spec_strip_npf(nb: Seq<u8>) -> Seq<u8> {
    if nb.len() >= 12 && nb.subrange(0, 12) == spec_npf_prefix() && vstd::utf8::is_char_boundary(
        nb,
        12,
    ) {
        nb.skip(12)
    } else {
        nb
    }
}

/// How many times the byte `x` occurs in `s`.
pub open spec fn spec_count_byte(s: Seq<u8>, x: u8) -> int
    decreases s.len(),
{
    if s.len() == 0 {
        0int
    } else {
        spec_count_byte(s.drop_last(), x) + if s.last() == x {
            1int
        } else {
            0int
        }
    }
}

/// Whether the bytes are wrapped in braces.
pub open spec fn spec_braced(b: Seq<u8>) -> bool {
    b.len() >= 2 && b[0] == 0x7b && b[b.len() - 1] == 0x7d
}

/// Whether the bytes are a braced GUID: braces around 36 characters with
/// exactly four dashes.
pub open spec fn spec_guid_braced(b: Seq<u8>) -> bool {
    spec_braced(b) && b.len() == 38 && spec_count_byte(b.subrange(1, b.len() - 1), 0x2d) == 4
}

/// Which text names a device: the stripped name when it is brace-wrapped
/// but not a GUID, else the description, else the fixed fallback.
pub open spec fn spec_clean_choice(nb: Seq<u8>, has_description: bool) -> CleanNameChoice {
    let st = spec_strip_npf(nb);
    if spec_braced(st) && !spec_guid_braced(st) {
        CleanNameChoice::StrippedName
    } else if has_description {
        CleanNameChoice::Description
    } else {
        CleanNameChoice::Unknown
    }
}

/// How many times the byte `x` occurs in `s`.
fn count_byte(s: &[u8], x: u8) -> (r: usize)
    ensures
        r == spec_count_byte(s@, x),
{
    let n = s.len();
    let mut count: usize = 0;
    let mut j: usize = 0;
    while j < n
        invariant
            n == s@.len(),
            j <= n,
            count <= j,
            count == spec_count_byte(s@.take(j as int), x),
        decreases n - j,
    {
        proof {
            assert(s@.take(j + 1).drop_last() =~= s@.take(j as int));
            assert(s@.take(j + 1).last() == s@[j as int]);
        }
        if s[j] == x {
            count += 1;
        }
        j += 1;
    }
    proof {
        assert(s@.take(n as int) =~= s@);
    }
    count
}

/// Derive a human-readable name for a capture device: strip the capture
/// backend's name-mangling prefix, and fall back to the description (or
/// a fixed text) when what remains is a bare GUID or carries no braces
/// at all.
pub fn clean_device_name(name: &str, description: Option<&str>) -> (r: String)
    ensures
        ({
            let nb = spec_str_bytes(name@);
            match spec_clean_choice(nb, description is Some) {
                CleanNameChoice::StrippedName => spec_str_bytes(r@) == spec_strip_npf(nb),
                CleanNameChoice::Description => r@ == description->0@,
                CleanNameChoice::Unknown => r@ == "Unknown device"@,
            }
        }),
{
    let nb = name.as_bytes();
    let has_prefix = nb.len() >= 12 && nb[0] == 0x5c && nb[1] == 0x44 && nb[2] == 0x65 && nb[3]
        == 0x76 && nb[4] == 0x69 && nb[5] == 0x63 && nb[6] == 0x65 && nb[7] == 0x5c && nb[8]
        == 0x4e && nb[9] == 0x50 && nb[10] == 0x46 && nb[11] == 0x5f && name.is_char_boundary(12);
    proof {
        if nb@.len() >= 12 {
            if nb@.subrange(0, 12) == spec_npf_prefix() {
                assert(forall|t: int| 0 <= t < 12 ==> nb@[t] == spec_npf_prefix()[t]);
            } else {
                if nb@[0] == 0x5c && nb@[1] == 0x44 && nb@[2] == 0x65 && nb@[3] == 0x76 && nb@[4]
                    == 0x69 && nb@[5] == 0x63 && nb@[6] == 0x65 && nb@[7] == 0x5c && nb@[8] == 0x4e
                    && nb@[9] == 0x50 && nb@[10] == 0x46 && nb@[11] == 0x5f {
                    assert(nb@.subrange(0, 12) =~= spec_npf_prefix());
                }
            }
        }
    }
    let device_name: &str = if has_prefix {
        name.split_at(12).1
    } else {
        name
    };
    let ghost st = spec_strip_npf(spec_str_bytes(name@));
    proof {
        assert(device_name.spec_bytes() == st);
    }
    let db = device_name.as_bytes();
    let braced = db.len() >= 2 && db[0] == 0x7b && db[db.len() - 1] == 0x7d;
    let guid = braced && db.len() == 38 && count_byte(
        vstd::slice::slice_subrange(db, 1, db.len() - 1),
        0x2d,
    ) == 4;
    if braced && !guid {
        return device_name.to_owned();
    }
    match description {
        Some(d) => d.to_owned(),
        None => {
            let r = String::from_str("Unknown device");
            r
        },
    }
}

/// Whether `needle` occurs in `hay`, ignoring ASCII case.
fn contains_ci(hay: &[u8], needle: &[u8]) -> (r: bool)
    ensures
        r == spec_contains_ci(hay@, needle@),
{
    let hay_len = hay.len();
    let needle_len = needle.len();
    if needle_len > hay_len {
        proof {
            assert(spec_ascii_lower_bytes(hay@).len() == hay@.len());
            assert(spec_ascii_lower_bytes(needle@).len() == needle@.len());
        }
        return false;
    }
    let mut i: usize = 0;
    while i <= hay_len - needle_len
        invariant
            needle_len == needle@.len(),
            hay_len == hay@.len(),
            needle_len <= hay_len,
            i <= hay_len - needle_len + 1,
            forall|s: int|
                0 <= s < i ==> #[trigger] spec_ascii_lower_bytes(hay@).subrange(
                    s,
                    s + needle@.len(),
                ) != spec_ascii_lower_bytes(needle@),
        decreases hay_len - i,
    {
        let mut j: usize = 0;
        let mut all_eq = true;
        while j < needle_len
            invariant_except_break
                all_eq,
                forall|t: int|
                    0 <= t < j ==> spec_ascii_lower(hay@[i + t]) == spec_ascii_lower(needle@[t]),
            invariant
                needle_len == needle@.len(),
                hay_len == hay@.len(),
                needle_len <= hay_len,
                i + needle_len <= hay_len,
                j <= needle_len,
            ensures
                all_eq == (spec_ascii_lower_bytes(hay@).subrange(i as int, i + needle@.len())
                    =~= spec_ascii_lower_bytes(needle@)),
            decreases needle_len - j,
        {
            let hb = hay[i + j];
            let nb = needle[j];
            let hl: u8 = if 65 <= hb && hb <= 90 {
                hb + 32
            } else {
                hb
            };
            let nl: u8 = if 65 <= nb && nb <= 90 {
                nb + 32
            } else {
                nb
            };
            if hl != nl {
                all_eq = false;
                proof {
                    let lh = spec_ascii_lower_bytes(hay@);
                    let ln = spec_ascii_lower_bytes(needle@);
                    assert(spec_ascii_lower(hay@[i + j]) != spec_ascii_lower(needle@[j as int]));
                    assert(lh.subrange(i as int, i + ln.len())[j as int] == lh[i + j]);
                    assert(lh.subrange(i as int, i + ln.len()) != ln);
                }
                break ;
            }
            j += 1;
        }
        proof {
            if all_eq {
                let lh = spec_ascii_lower_bytes(hay@);
                let ln = spec_ascii_lower_bytes(needle@);
                assert(lh.subrange(i as int, i + ln.len()) =~= ln);
                assert(spec_contains_ci(hay@, needle@));
            }
        }
        if all_eq {
            return true;
        }
        i += 1;
    }
    proof {
        let lh = spec_ascii_lower_bytes(hay@);
        let ln = spec_ascii_lower_bytes(needle@);
        assert forall|s: int| 0 <= s && s + ln.len() <= lh.len() implies #[trigger] lh.subrange(
            s,
            s + ln.len(),
        ) != ln by {
            assert(s < i);
        }
    }
    false
}

/// Whether a device looks like a virtual adapter, by the keyword
/// denylist.
fn looks_virtual(d: &DeviceDescriptor) -> (r: bool)
    ensures
        r == spec_looks_virtual(*d),
{
    let mut k: usize = 0;
    while k < 6
        invariant
            forall|m: int|
                0 <= m < k ==> !spec_contains_ci(spec_str_bytes(d.name@), spec_denylist()[m]) && !(
                d.description matches Some(desc) && spec_contains_ci(
                    spec_str_bytes(desc@),
                    spec_denylist()[m],
                )),
        decreases 6 - k,
    {
        let kw: Vec<u8> = match k {
            0 => vec![0x74u8, 0x75, 0x6e, 0x6e, 0x65, 0x6c],
            1 => vec![0x76u8, 0x70, 0x6e],
            2 => vec![0x68u8, 0x79, 0x70, 0x65, 0x72, 0x2d, 0x76],
            3 => vec![0x62u8, 0x6c, 0x75, 0x65, 0x74, 0x6f, 0x6f, 0x74, 0x68],
            4 => vec![0x77u8, 0x61, 0x6e, 0x20, 0x6d, 0x69, 0x6e, 0x69, 0x70, 0x6f, 0x72, 0x74],
            _ => vec![0x6cu8, 0x6f, 0x6f, 0x70, 0x62, 0x61, 0x63, 0x6b],
        };
        proof {
            assert(kw@ =~= spec_denylist()[k as int]);
        }
        if contains_ci(d.name.as_str().as_bytes(), kw.as_slice()) {
            return true;
        }
        match &d.description {
            Some(desc) => {
                if contains_ci(desc.as_str().as_bytes(), kw.as_slice()) {
                    return true;
                }
            },
            None => {},
        }
        k += 1;
    }
    false
}

/// The first device index satisfying the given checked property.
fn first_matching_exec(
    devices: &Vec<DeviceDescriptor>,
    which: u8,
) -> (r: Option<usize>)
    requires
        which < 4,
    ensures
        ({
            let pred = if which == 0 {
                pred_default()
            } else if which == 1 {
                pred_ethernet()
            } else if which == 2 {
                pred_wireless()
            } else {
                pred_physical()
            };
            match r {
                Some(i) => spec_first_matching(devices@, pred, 0) == i && i < devices@.len(),
                None => spec_first_matching(devices@, pred, 0) == -1,
            }
        }),
{
    let ghost pred = if which == 0 {
        pred_default()
    } else if which == 1 {
        pred_ethernet()
    } else if which == 2 {
        pred_wireless()
    } else {
        pred_physical()
    };
    let n = devices.len();
    let mut i: usize = 0;
    while i < n
        invariant
            n == devices@.len(),
            i <= n,
            which < 4,
            pred == (if which == 0 {
                pred_default()
            } else if which == 1 {
                pred_ethernet()
            } else if which == 2 {
                pred_wireless()
            } else {
                pred_physical()
            }),
            spec_first_matching(devices@, pred, i as int) == spec_first_matching(devices@, pred, 0),
        decreases n - i,
    {
        let d = &devices[i];
        let hit = if which == 0 {
            d.has_interface && d.is_up && d.has_valid_ipv4 && d.is_default_route
        } else if which == 1 {
            d.has_interface && d.is_up && d.has_valid_ipv4 && d.kind == InterfaceKind::Ethernet
        } else if which == 2 {
            d.has_interface && d.is_up && d.has_valid_ipv4 && d.kind == InterfaceKind::Wireless
        } else {
            !looks_virtual(d)
        };
        proof {
            assert(hit == pred(devices@[i as int]));
        }
        if hit {
            return Some(i);
        }
        i += 1;
    }
    None
}

/// Pick the best capture device: the usable default-route interface,
/// else the first usable Ethernet, else the first usable wireless one,
/// else the first that does not look like a virtual adapter; `None` when
/// nothing qualifies.
pub fn select_best_device(devices: &Vec<DeviceDescriptor>) -> (r: Option<usize>)
    ensures
        match r {
            Some(i) => spec_select_best(devices@) == Some(i as int),
            None => spec_select_best(devices@) is None,
        },
{
    if devices.len() == 0 {
        return None;
    }
    if let Some(i) = first_matching_exec(devices, 0) {
        return Some(i);
    }
    if let Some(i) = first_matching_exec(devices, 1) {
        return Some(i);
    }
    if let Some(i) = first_matching_exec(devices, 2) {
        return Some(i);
    }
    if let Some(i) = first_matching_exec(devices, 3) {
        return Some(i);
    }
    None
}

} // verus!
