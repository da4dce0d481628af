//! Which input device a recording opens: the configured microphone (or the clamshell
//! microphone), the system default with a guard against Bluetooth defaults, and the
//! fallback when the configured microphone has disappeared.

use vstd::prelude::*;
use crate::audio::explicit_selection;
use crate::text::{opt_str_view, str_eq_ignore_ascii_case, str_equals};

verus! {

/// An input device as the device choice sees it: its name, whether it is the system
/// default, and what kind of device its name identifies.
#[derive(Clone, Debug, PartialEq, Eq)]
pub struct InputDeviceInfo {
    pub name: String,
    pub is_default: bool,
    pub is_bluetooth: bool,
    pub is_builtin: bool,
    pub is_virtual: bool,
    pub is_continuity_camera: bool,
}

/// What a search for a device looks for.
#[derive(Clone, Debug, PartialEq, Eq)]
pub enum DeviceQuery {
    /// The device with exactly this name.
    Named(String),
    /// The system default device.
    SystemDefault,
    /// A built-in microphone.
    Builtin,
    /// A device that is not Bluetooth, virtual or a Continuity Camera.
    Usable,
}

/// How early a device comes in the fallback order: built-in, then non-Bluetooth, then
/// Bluetooth.
pub open spec fn fallback_rank(d: InputDeviceInfo) -> u8 {
    if d.is_builtin {
        0
    } else if !d.is_bluetooth {
        1
    } else {
        2
    }
}

/// A device that is not Bluetooth, virtual or a Continuity Camera.
pub open spec fn usable(d: InputDeviceInfo) -> bool {
    !d.is_bluetooth && !d.is_virtual && !d.is_continuity_camera
}

pub open spec fn matches_query(d: InputDeviceInfo, q: DeviceQuery) -> bool {
    match q {
        DeviceQuery::Named(n) => d.name@ == n@,
        DeviceQuery::SystemDefault => d.is_default,
        DeviceQuery::Builtin => d.is_builtin,
        DeviceQuery::Usable => usable(d),
    }
}

/// The position of the first device that satisfies `p`.
pub open spec fn first_index(devices: Seq<InputDeviceInfo>, p: spec_fn(InputDeviceInfo) -> bool) -> Option<
    int,
>
    decreases devices.len(),
{
    if devices.len() == 0 {
        None
    } else if p(devices[0]) {
        Some(0)
    } else {
        match first_index(devices.drop_first(), p) {
            Some(i) => Some(i + 1),
            None => None,
        }
    }
}

proof fn lemma_first_index_is(devices: Seq<InputDeviceInfo>, p: spec_fn(InputDeviceInfo) -> bool, i: int)
    requires
        0 <= i < devices.len(),
        p(devices[i]),
        forall|j: int| 0 <= j < i ==> !p(#[trigger] devices[j]),
    ensures
        first_index(devices, p) == Some(i),
    decreases i,
{
    if i > 0 {
        let rest = devices.drop_first();
        assert(!p(devices[0]));
        assert forall|j: int| 0 <= j < i - 1 implies !p(#[trigger] rest[j]) by {
            assert(rest[j] == devices[j + 1]);
        }
        assert(rest[i - 1] == devices[i]);
        lemma_first_index_is(rest, p, i - 1);
    }
}

proof fn lemma_first_index_none(devices: Seq<InputDeviceInfo>, p: spec_fn(InputDeviceInfo) -> bool)
    requires
        forall|j: int| 0 <= j < devices.len() ==> !p(#[trigger] devices[j]),
    ensures
        first_index(devices, p) is None,
    decreases devices.len(),
{
    if devices.len() > 0 {
        let rest = devices.drop_first();
        assert(!p(devices[0]));
        assert forall|j: int| 0 <= j < rest.len() implies !p(#[trigger] rest[j]) by {
            assert(rest[j] == devices[j + 1]);
        }
        lemma_first_index_none(rest, p);
    }
}

proof fn lemma_first_index_found(devices: Seq<InputDeviceInfo>, p: spec_fn(InputDeviceInfo) -> bool)
    ensures
        first_index(devices, p) matches Some(i) ==> 0 <= i < devices.len() && p(devices[i]),
    decreases devices.len(),
{
    if devices.len() > 0 && !p(devices[0]) {
        let rest = devices.drop_first();
        lemma_first_index_found(rest, p);
        if first_index(rest, p) is Some {
            let i = first_index(rest, p)->0;
            assert(rest[i] == devices[i + 1]);
        }
    }
}

/// The predicate of a query.
pub open spec fn query_pred(q: DeviceQuery) -> spec_fn(InputDeviceInfo) -> bool {
    |d: InputDeviceInfo| matches_query(d, q)
}

/// The position of the first device that the query matches.
pub open spec fn first_match(devices: Seq<InputDeviceInfo>, q: DeviceQuery) -> Option<int> {
    first_index(devices, query_pred(q))
}

/// The first device that the query matches.
pub fn find_device(devices: &Vec<InputDeviceInfo>, q: &DeviceQuery) -> (r: Option<usize>)
    ensures
        match r {
            Some(i) => first_match(devices@, *q) == Some(i as int) && i < devices@.len(),
            None => first_match(devices@, *q) is None,
        },
{
    let mut i: usize = 0;
    while i < devices.len()
        invariant
            i <= devices.len(),
            forall|j: int| 0 <= j < i ==> !matches_query(#[trigger] devices@[j], *q),
        decreases devices.len() - i,
    {
        let d = &devices[i];
        let hit = match q {
            DeviceQuery::Named(n) => str_equals(d.name.as_str(), n.as_str()),
            DeviceQuery::SystemDefault => d.is_default,
            DeviceQuery::Builtin => d.is_builtin,
            DeviceQuery::Usable => !d.is_bluetooth && !d.is_virtual && !d.is_continuity_camera,
        };
        if hit {
            proof {
                lemma_first_index_is(devices@, query_pred(*q), i as int);
            }
            return Some(i);
        }
        i = i + 1;
    }
    proof {
        lemma_first_index_none(devices@, query_pred(*q));
    }
    None
}

/// The device a recording uses: in clamshell mode with a clamshell microphone set, that
/// microphone; with an explicitly selected microphone, that one (strictly); otherwise the
/// system default, except that a Bluetooth default gives way to a built-in microphone, else
/// to any usable one.
pub open spec fn effective_device(
    devices: Seq<InputDeviceInfo>,
    clamshell_active: bool,
    clamshell_microphone: Option<Seq<char>>,
    selected_microphone: Option<Seq<char>>,
) -> Option<int> {
    if clamshell_active && clamshell_microphone is Some {
        first_match_name(devices, clamshell_microphone->0)
    } else if explicit_selection(selected_microphone) {
        first_match_name(devices, selected_microphone->0)
    } else {
        match first_match(devices, DeviceQuery::SystemDefault) {
            Some(k) => if devices[k].is_bluetooth {
                match first_match(devices, DeviceQuery::Builtin) {
                    Some(b) => Some(b),
                    None => match first_match(devices, DeviceQuery::Usable) {
                        Some(u) => Some(u),
                        None => Some(k),
                    },
                }
            } else {
                Some(k)
            },
            None => None,
        }
    }
}

/// The predicate of a device name.
pub open spec fn name_pred(name: Seq<char>) -> spec_fn(InputDeviceInfo) -> bool {
    |d: InputDeviceInfo| d.name@ == name
}

/// The position of the first device with the given name.
pub open spec fn first_match_name(devices: Seq<InputDeviceInfo>, name: Seq<char>) -> Option<int> {
    first_index(devices, name_pred(name))
}

fn find_named(devices: &Vec<InputDeviceInfo>, name: &str) -> (r: Option<usize>)
    ensures
        match r {
            Some(i) => first_match_name(devices@, name@) == Some(i as int) && i < devices@.len(),
            None => first_match_name(devices@, name@) is None,
        },
{
    let mut i: usize = 0;
    while i < devices.len()
        invariant
            i <= devices.len(),
            forall|j: int| 0 <= j < i ==> (#[trigger] devices@[j]).name@ != name@,
        decreases devices.len() - i,
    {
        if str_equals(devices[i].name.as_str(), name) {
            proof {
                lemma_first_index_is(devices@, name_pred(name@), i as int);
            }
            return Some(i);
        }
        i = i + 1;
    }
    proof {
        lemma_first_index_none(devices@, name_pred(name@));
    }
    None
}

/// The device a recording uses, from the device list and the microphone settings.
pub fn get_effective_device_from_list(
    devices: &Vec<InputDeviceInfo>,
    clamshell_active: bool,
    clamshell_microphone: Option<&str>,
    selected_microphone: Option<&str>,
) -> (r: Option<usize>)
    ensures
        r.is_some() ==> r.unwrap() < devices@.len(),
        match effective_device(
            devices@,
            clamshell_active,
            opt_str_view(clamshell_microphone),
            opt_str_view(selected_microphone),
        ) {
            Some(i) => r matches Some(x) && x as int == i,
            None => r is None,
        },
{
    if clamshell_active {
        match clamshell_microphone {
            Some(name) => {
                return find_named(devices, name);
            },
            None => {},
        }
    }
    match selected_microphone {
        Some(name) => {
            if !str_eq_ignore_ascii_case(name, "default") {
                return find_named(devices, name);
            }
        },
        None => {},
    }
    match find_device(devices, &DeviceQuery::SystemDefault) {
        Some(k) => {
            if devices[k].is_bluetooth {
                match find_device(devices, &DeviceQuery::Builtin) {
                    Some(b) => Some(b),
                    None => match find_device(devices, &DeviceQuery::Usable) {
                        Some(u) => Some(u),
                        None => Some(k),
                    },
                }
            } else {
                Some(k)
            }
        },
        None => None,
    }
}

/// A fallback candidate of the given rank: not the failed device, not virtual, not a
/// Continuity Camera.
pub open spec fn fallback_candidate(d: InputDeviceInfo, failed: Seq<char>, rank: u8) -> bool {
    d.name@ != failed && !d.is_virtual && !d.is_continuity_camera && fallback_rank(d) == rank
}

/// The predicate of a fallback candidate of the given rank.
pub open spec fn candidate_pred(failed: Seq<char>, rank: u8) -> spec_fn(InputDeviceInfo) -> bool {
    |d: InputDeviceInfo| fallback_candidate(d, failed, rank)
}

/// The position of the first fallback candidate of the given rank.
pub open spec fn first_candidate(devices: Seq<InputDeviceInfo>, failed: Seq<char>, rank: u8) -> Option<
    int,
> {
    first_index(devices, candidate_pred(failed, rank))
}

fn find_candidate(devices: &Vec<InputDeviceInfo>, failed: &str, rank: u8) -> (r: Option<usize>)
    ensures
        match r {
            Some(i) => first_candidate(devices@, failed@, rank) == Some(i as int) && i
                < devices@.len(),
            None => first_candidate(devices@, failed@, rank) is None,
        },
{
    let mut i: usize = 0;
    while i < devices.len()
        invariant
            i <= devices.len(),
            forall|j: int| 0 <= j < i ==> !fallback_candidate(#[trigger] devices@[j], failed@, rank),
        decreases devices.len() - i,
    {
        let d = &devices[i];
        let d_rank: u8 = if d.is_builtin {
            0
        } else if !d.is_bluetooth {
            1
        } else {
            2
        };
        if !str_equals(d.name.as_str(), failed) && !d.is_virtual && !d.is_continuity_camera
            && d_rank == rank {
            proof {
                lemma_first_index_is(devices@, candidate_pred(failed@, rank), i as int);
            }
            return Some(i);
        }
        i = i + 1;
    }
    proof {
        lemma_first_index_none(devices@, candidate_pred(failed@, rank));
    }
    None
}

/// The fallback for a microphone that failed: the first candidate of the best rank
/// (built-in, then other non-Bluetooth, then Bluetooth).
pub open spec fn fallback_device(devices: Seq<InputDeviceInfo>, failed: Seq<char>) -> Option<int> {
    match first_candidate(devices, failed, 0) {
        Some(i) => Some(i),
        None => match first_candidate(devices, failed, 1) {
            Some(i) => Some(i),
            None => first_candidate(devices, failed, 2),
        },
    }
}

/// The device to fall back to when `failed_device_name` is unavailable.
pub fn find_fallback_device_from_list(devices: &Vec<InputDeviceInfo>, failed_device_name: &str) -> (r:
    Option<usize>)
    ensures
        r.is_some() ==> r.unwrap() < devices@.len(),
        match fallback_device(devices@, failed_device_name@) {
            Some(i) => r matches Some(x) && x as int == i,
            None => r is None,
        },
{
    let r0 = find_candidate(devices, failed_device_name, 0);
    if r0.is_some() {
        return r0;
    }
    let r1 = find_candidate(devices, failed_device_name, 1);
    if r1.is_some() {
        return r1;
    }
    find_candidate(devices, failed_device_name, 2)
}

/// The device a stream opens and under which name; `persist_fallback` asks to remember a
/// fallback as the new selection.
#[derive(Clone, Debug, PartialEq, Eq)]
pub struct DeviceOpenTarget {
    pub device_index: Option<usize>,
    pub device_name: String,
    pub persist_fallback: bool,
}

/// The device a stream opens: the effective device when there is one; when an explicitly
/// selected microphone is missing, its fallback (remembered only when allowed), else the
/// system default by name; with nothing selected and no default found, the best available
/// device (built-in, else usable, else the default).
pub open spec fn open_target(
    devices: Seq<InputDeviceInfo>,
    clamshell_active: bool,
    clamshell_microphone: Option<Seq<char>>,
    selected_microphone: Option<Seq<char>>,
    target_device_name: Seq<char>,
    allow_persist_fallback: bool,
) -> (Option<int>, Seq<char>, bool) {
    let chosen = effective_device(
        devices,
        clamshell_active,
        clamshell_microphone,
        selected_microphone,
    );
    if chosen is None && explicit_selection(selected_microphone) {
        match fallback_device(devices, target_device_name) {
            Some(f) => (Some(f), devices[f].name@, allow_persist_fallback),
            None => (None, "Default"@, false),
        }
    } else if chosen is Some {
        (chosen, devices[chosen->0].name@, false)
    } else {
        let best = match first_match(devices, DeviceQuery::Builtin) {
            Some(b) => Some(b),
            None => match first_match(devices, DeviceQuery::Usable) {
                Some(u) => Some(u),
                None => first_match(devices, DeviceQuery::SystemDefault),
            },
        };
        match best {
            Some(b) => (Some(b), devices[b].name@, false),
            None => (None, "Default"@, false),
        }
    }
}

/// Chooses the device a stream opens.
pub fn resolve_device_open_target(
    devices: &Vec<InputDeviceInfo>,
    clamshell_active: bool,
    clamshell_microphone: Option<&str>,
    selected_microphone: Option<&str>,
    target_device_name: &str,
    allow_persist_fallback: bool,
) -> (r: DeviceOpenTarget)
    ensures
        ({
            let t = open_target(
                devices@,
                clamshell_active,
                opt_str_view(clamshell_microphone),
                opt_str_view(selected_microphone),
                target_device_name@,
                allow_persist_fallback,
            );
            &&& match t.0 {
                Some(i) => r.device_index matches Some(x) && x as int == i,
                None => r.device_index is None,
            }
            &&& r.device_name@ == t.1
            &&& r.persist_fallback == t.2
        }),
{
    let chosen = get_effective_device_from_list(
        devices,
        clamshell_active,
        clamshell_microphone,
        selected_microphone,
    );
    let has_explicit_device = match selected_microphone {
        Some(name) => !str_eq_ignore_ascii_case(name, "default"),
        None => false,
    };
    let ghost chosen_spec = effective_device(
        devices@,
        clamshell_active,
        opt_str_view(clamshell_microphone),
        opt_str_view(selected_microphone),
    );
    assert(has_explicit_device == explicit_selection(opt_str_view(selected_microphone)));
    assert(chosen.is_none() == chosen_spec is None);
    let ghost t = open_target(
        devices@,
        clamshell_active,
        opt_str_view(clamshell_microphone),
        opt_str_view(selected_microphone),
        target_device_name@,
        allow_persist_fallback,
    );
    if chosen.is_none() && has_explicit_device {
        let found = find_fallback_device_from_list(devices, target_device_name);
        match found {
            Some(f) => {
                let r = DeviceOpenTarget {
                    device_index: Some(f),
                    device_name: devices[f].name.clone(),
                    persist_fallback: allow_persist_fallback,
                };
                assert(t.0 == Some(f as int));
                assert(r.device_name@ == t.1);
                r
            },
            None => {
                let r = DeviceOpenTarget {
                    device_index: None,
                    device_name: "Default".to_string(),
                    persist_fallback: false,
                };
                assert(t.0 is None);
                r
            },
        }
    } else {
        match chosen {
            Some(k) => {
                let r = DeviceOpenTarget {
                    device_index: Some(k),
                    device_name: devices[k].name.clone(),
                    persist_fallback: false,
                };
                assert(t.0 == Some(k as int));
                assert(r.device_name@ == t.1);
                r
            },
            None => {
                let best = match find_device(devices, &DeviceQuery::Builtin) {
                    Some(b) => Some(b),
                    None => match find_device(devices, &DeviceQuery::Usable) {
                        Some(u) => Some(u),
                        None => find_device(devices, &DeviceQuery::SystemDefault),
                    },
                };
                match best {
                    Some(b) => {
                        let r = DeviceOpenTarget {
                            device_index: Some(b),
                            device_name: devices[b].name.clone(),
                            persist_fallback: false,
                        };
                        assert(t.0 == Some(b as int));
                        assert(r.device_name@ == t.1);
                        r
                    },
                    None => {
                        let r = DeviceOpenTarget {
                            device_index: None,
                            device_name: "Default".to_string(),
                            persist_fallback: false,
                        };
                        assert(t.0 is None);
                        r
                    },
                }
            },
        }
    }
}

/// An explicitly selected microphone that is present is always the one opened, and a
/// fallback is never remembered unless remembering was allowed.
pub proof fn law_selected_microphone_wins(
    devices: Seq<InputDeviceInfo>,
    clamshell_microphone: Option<Seq<char>>,
    selected_microphone: Option<Seq<char>>,
    target_device_name: Seq<char>,
    allow_persist_fallback: bool,
)
    requires
        explicit_selection(selected_microphone),
        exists|i: int| 0 <= i < devices.len() && devices[i].name@ == selected_microphone->0,
    ensures
        ({
            let t = open_target(
                devices,
                false,
                clamshell_microphone,
                selected_microphone,
                target_device_name,
                allow_persist_fallback,
            );
            t.0 is Some && t.1 == selected_microphone->0 && !t.2
        }),
        !allow_persist_fallback ==> !open_target(
            devices,
            false,
            clamshell_microphone,
            selected_microphone,
            target_device_name,
            allow_persist_fallback,
        ).2,
{
    let name = selected_microphone->0;
    let i = choose|i: int| 0 <= i < devices.len() && devices[i].name@ == name;
    lemma_first_index_found(devices, name_pred(name));
    if first_match_name(devices, name) is None {
        if forall|j: int| 0 <= j < i ==> !name_pred(name)(#[trigger] devices[j]) {
            lemma_first_index_is(devices, name_pred(name), i);
        } else {
            let j = choose|j: int| 0 <= j < i && name_pred(name)(#[trigger] devices[j]);
            lemma_first_index_none_contra(devices, name_pred(name), j);
        }
    }
}

proof fn lemma_first_index_none_contra(devices: Seq<InputDeviceInfo>, p: spec_fn(InputDeviceInfo) -> bool, j: int)
    requires
        0 <= j < devices.len(),
        p(devices[j]),
    ensures
        first_index(devices, p) is Some,
    decreases devices.len(),
{
    if !p(devices[0]) {
        let rest = devices.drop_first();
        assert(rest[j - 1] == devices[j]);
        lemma_first_index_none_contra(rest, p, j - 1);
    }
}

/// With neither a clamshell microphone in use nor a microphone explicitly selected, a
/// Bluetooth system default gives way when the machine has no built-in microphone: the
/// device chosen instead is the first one that is neither Bluetooth, nor virtual (a
/// loopback driver), nor a Continuity Camera; the Bluetooth default is kept only when no
/// such device exists.
pub proof fn law_bluetooth_default_yields_to_a_real_microphone(
    devices: Seq<InputDeviceInfo>,
    clamshell_active: bool,
    clamshell_microphone: Option<Seq<char>>,
    selected_microphone: Option<Seq<char>>,
    d: int,
)
    requires
        !(clamshell_active && clamshell_microphone is Some),
        !explicit_selection(selected_microphone),
        0 <= d < devices.len(),
        devices[d].is_default,
        devices[d].is_bluetooth,
        forall|j: int| 0 <= j < d ==> !(#[trigger] devices[j]).is_default,
        forall|j: int| 0 <= j < devices.len() ==> !(#[trigger] devices[j]).is_builtin,
    ensures
        effective_device(devices, clamshell_active, clamshell_microphone, selected_microphone)
            matches Some(i) && 0 <= i < devices.len() && (if i == d {
            forall|j: int|
                0 <= j < devices.len() ==> (#[trigger] devices[j]).is_bluetooth || devices[j].is_virtual
                    || devices[j].is_continuity_camera
        } else {
            &&& !devices[i].is_bluetooth
            &&& !devices[i].is_virtual
            &&& !devices[i].is_continuity_camera
            &&& forall|j: int|
                0 <= j < i ==> (#[trigger] devices[j]).is_bluetooth || devices[j].is_virtual
                    || devices[j].is_continuity_camera
        }),
{
    lemma_first_index_is(devices, query_pred(DeviceQuery::SystemDefault), d);
    assert forall|j: int| 0 <= j < devices.len() implies !(query_pred(DeviceQuery::Builtin))(
        #[trigger] devices[j],
    ) by {}
    lemma_first_index_none(devices, query_pred(DeviceQuery::Builtin));
    let u = first_match(devices, DeviceQuery::Usable);
    lemma_first_index_found(devices, query_pred(DeviceQuery::Usable));
    match u {
        Some(i) => {
            if i == d {
                assert(devices[d].is_bluetooth);
            }
            assert forall|j: int| 0 <= j < i implies (#[trigger] devices[j]).is_bluetooth
                || devices[j].is_virtual || devices[j].is_continuity_camera by {
                lemma_first_index_minimal(devices, query_pred(DeviceQuery::Usable), j);
            }
        },
        None => {
            assert forall|j: int| 0 <= j < devices.len() implies (
            #[trigger] devices[j]).is_bluetooth || devices[j].is_virtual
                || devices[j].is_continuity_camera by {
                if !(devices[j].is_bluetooth || devices[j].is_virtual
                    || devices[j].is_continuity_camera) {
                    lemma_first_index_found(devices, query_pred(DeviceQuery::Usable));
                    lemma_first_index_none_absent(devices, query_pred(DeviceQuery::Usable), j);
                }
            }
        },
    }
}

/// No device before the first one that satisfies `p` satisfies it.
proof fn lemma_first_index_minimal(devices: Seq<InputDeviceInfo>, p: spec_fn(InputDeviceInfo) -> bool, j: int)
    requires
        first_index(devices, p) matches Some(i) && 0 <= j < i,
    ensures
        !p(devices[j]),
    decreases j,
{
    lemma_first_index_found(devices, p);
    if j > 0 {
        let rest = devices.drop_first();
        assert(rest[j - 1] == devices[j]);
        lemma_first_index_minimal(rest, p, j - 1);
    }
}

/// When the first device that satisfies `p` is absent, no device satisfies it.
proof fn lemma_first_index_none_absent(
    devices: Seq<InputDeviceInfo>,
    p: spec_fn(InputDeviceInfo) -> bool,
    j: int,
)
    requires
        0 <= j < devices.len(),
        p(devices[j]),
    ensures
        first_index(devices, p) is Some,
    decreases j,
{
    if j > 0 && !p(devices[0]) {
        let rest = devices.drop_first();
        assert(rest[j - 1] == devices[j]);
        lemma_first_index_none_absent(rest, p, j - 1);
    }
}

/// With neither a clamshell microphone in use nor a microphone explicitly selected, the
/// first system default device is used when it is not Bluetooth; a Bluetooth default gives
/// way to the first built-in microphone when there is one.
pub proof fn law_default_microphone_choice(
    devices: Seq<InputDeviceInfo>,
    clamshell_active: bool,
    clamshell_microphone: Option<Seq<char>>,
    selected_microphone: Option<Seq<char>>,
    d: int,
    b: int,
)
    requires
        !(clamshell_active && clamshell_microphone is Some),
        !explicit_selection(selected_microphone),
        0 <= d < devices.len(),
        devices[d].is_default,
        forall|j: int| 0 <= j < d ==> !(#[trigger] devices[j]).is_default,
        0 <= b < devices.len(),
        devices[b].is_builtin,
        forall|j: int| 0 <= j < b ==> !(#[trigger] devices[j]).is_builtin,
    ensures
        !devices[d].is_bluetooth ==> effective_device(
            devices,
            clamshell_active,
            clamshell_microphone,
            selected_microphone,
        ) == Some(d),
        devices[d].is_bluetooth ==> effective_device(
            devices,
            clamshell_active,
            clamshell_microphone,
            selected_microphone,
        ) == Some(b),
{
    lemma_first_index_is(devices, query_pred(DeviceQuery::SystemDefault), d);
    lemma_first_index_is(devices, query_pred(DeviceQuery::Builtin), b);
}

} // verus!


