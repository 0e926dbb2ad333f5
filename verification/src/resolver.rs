//! Matching device records against the configured or default selection.
//!
//! A device record carries, as plain values, what the selection logic reads
//! from a hotplug or enumeration record: the device node path and the names
//! of the record's input-class properties. The caller enumerates devices and
//! canonicalizes configured paths; everything decided from those values is
//! decided here.

use vstd::prelude::*;
use crate::errors::KbError;

verus! {

/// What the device-selection logic reads from one kernel device record.
#[derive(Debug, Clone)]
pub struct DeviceRecord {
    /// The device node path, where the record has one.
    pub devnode: Option<String>,
    /// The names of the record's properties.
    pub properties: Vec<String>,
}

/// The part of `path` after its last `/` (the whole of it if it has none;
/// empty if it ends in `/`).
pub open spec fn file_name_of(path: Seq<char>) -> Seq<char>
    decreases path.len(),
{
    if path.len() == 0 {
        path
    } else if path.last() == '/' {
        Seq::empty()
    } else {
        file_name_of(path.drop_last()).push(path.last())
    }
}

/// Does `s` begin with `prefix`?
pub open spec fn starts_with(s: Seq<char>, prefix: Seq<char>) -> bool {
    s.len() >= prefix.len() && s.subrange(0, prefix.len() as int) == prefix
}

/// Is `p` one of the recognized input-class properties (keyboard, mouse,
/// touchpad, joystick)?
pub open spec fn is_monitored_property(p: Seq<char>) -> bool {
    ||| p == "ID_INPUT_KEYBOARD"@
    ||| p == "ID_INPUT_MOUSE"@
    ||| p == "ID_INPUT_TOUCHPAD"@
    ||| p == "ID_INPUT_JOYSTICK"@
}

/// Does the record carry at least one recognized input-class property?
pub open spec fn has_monitored_property(props: Seq<String>) -> bool {
    exists|i: int| 0 <= i < props.len() && is_monitored_property(#[trigger] props[i]@)
}

/// Does the record match the default heuristic: it has a device node whose
/// name begins with the input-event prefix, and it carries a recognized
/// input-class property?
pub open spec fn is_default_device(device: DeviceRecord) -> bool {
    &&& device.devnode is Some
    &&& starts_with(file_name_of(device.devnode->Some_0@), "event"@)
    &&& has_monitored_property(device.properties@)
}

/// Does `s` hold a string whose characters are `x`?
pub open spec fn seq_contains_string(s: Seq<String>, x: Seq<char>) -> bool {
    exists|i: int| 0 <= i < s.len() && #[trigger] s[i]@ == x
}

/// Does the record's device node stand in the canonicalized explicit paths?
pub open spec fn is_explicit_match(device: DeviceRecord, canons: Seq<String>) -> bool {
    device.devnode matches Some(d) && seq_contains_string(canons, d@)
}

/// No two of the canonicalized explicit paths are equal.
pub open spec fn canons_unique(canons: Seq<String>) -> bool {
    forall|i: int, j: int| 0 <= i < j < canons.len() ==> (#[trigger] canons[i]@) != (#[trigger] canons[j]@)
}

/// Does `canons[j]` repeat one of the entries before it?
pub open spec fn dup_at(canons: Seq<String>, j: int) -> bool {
    exists|i: int| 0 <= i < j && (#[trigger] canons[i]@) == canons[j]@
}

/// Is `e` the duplicate-configuration error for the first provided path
/// whose canonical form repeats an earlier one?
pub open spec fn duplicate_report(provided: Seq<String>, canons: Seq<String>, e: KbError) -> bool {
    exists|j: int|
        {
            &&& 0 <= j < canons.len()
            &&& dup_at(canons, j)
            &&& forall|k: int| 0 <= k < j ==> !dup_at(canons, k)
            &&& e == (KbError::DuplicateDevice { provided: provided[j], canon: canons[j] })
        }
}

/// The defaults not already covered by the canonicalized explicit paths, in
/// the order they were enumerated in.
pub open spec fn remaining_defaults(defaults: Seq<String>, canons: Seq<String>) -> Seq<String>
    decreases defaults.len(),
{
    if defaults.len() == 0 {
        Seq::empty()
    } else if seq_contains_string(canons, defaults.last()@) {
        remaining_defaults(defaults.drop_last(), canons)
    } else {
        remaining_defaults(defaults.drop_last(), canons).push(defaults.last())
    }
}

/// Index just past the last `/` of `s` (0 if it has none).
fn after_last_slash(s: &str) -> (i: usize)
    ensures
        i <= s@.len(),
        file_name_of(s@) == s@.skip(i as int),
{
    let n: usize = s.unicode_len();
    proof {
        assert(s@.take(n as int) =~= s@);
        assert(s@.skip(n as int) =~= Seq::<char>::empty());
        assert(file_name_of(s@) + Seq::<char>::empty() =~= file_name_of(s@));
    }
    let mut i: usize = n;
    loop
        invariant
            i <= n,
            n == s@.len(),
            file_name_of(s@) == file_name_of(s@.take(i as int)) + s@.skip(i as int),
        ensures
            i <= n,
            n == s@.len(),
            file_name_of(s@) == s@.skip(i as int),
        decreases i,
    {
        if i == 0 {
            proof {
                assert(s@.take(0).len() == 0);
                assert(Seq::<char>::empty() + s@.skip(0) =~= s@.skip(0));
            }
            break;
        }
        let c = s.get_char(i - 1);
        proof {
            assert(s@.take(i as int).last() == s@[i - 1]);
        }
        if c == '/' {
            proof {
                assert(file_name_of(s@.take(i as int)) =~= Seq::<char>::empty());
                assert(Seq::<char>::empty() + s@.skip(i as int) =~= s@.skip(i as int));
            }
            break;
        }
        proof {
            let prev = s@.take(i as int);
            assert(prev.drop_last() =~= s@.take(i - 1));
            assert(file_name_of(prev) == file_name_of(s@.take(i - 1)).push(s@[i - 1]));
            assert(s@.skip(i - 1) =~= seq![s@[i - 1]] + s@.skip(i as int));
            assert(file_name_of(s@.take(i - 1)) + (seq![s@[i - 1]] + s@.skip(i as int)) =~= (
            file_name_of(s@.take(i - 1)).push(s@[i - 1])) + s@.skip(i as int));
        }
        i = i - 1;
    }
    i
}

/// Does the file name of `path` begin with the input-event prefix?
fn has_event_file_name(path: &str) -> (r: bool)
    ensures
        r == starts_with(file_name_of(path@), "event"@),
{
    let start = after_last_slash(path);
    let n: usize = path.unicode_len();
    proof {
        reveal_strlit("event");
    }
    if n - start < 5 {
        return false;
    }
    let r = path.get_char(start) == 'e' && path.get_char(start + 1) == 'v' && path.get_char(
        start + 2,
    ) == 'e' && path.get_char(start + 3) == 'n' && path.get_char(start + 4) == 't';
    proof {
        let fname = path@.skip(start as int);
        if r {
            assert(fname.subrange(0, 5) =~= "event"@);
        } else {
            if fname.subrange(0, 5) == "event"@ {
                assert(fname.subrange(0, 5)[0] == 'e');
                assert(fname.subrange(0, 5)[1] == 'v');
                assert(fname.subrange(0, 5)[2] == 'e');
                assert(fname.subrange(0, 5)[3] == 'n');
                assert(fname.subrange(0, 5)[4] == 't');
                assert(false);
            }
        }
    }
    r
}

/// Does `v` hold a string equal to `x`?
fn contains_string(v: &Vec<String>, x: &String) -> (r: bool)
    ensures
        r == seq_contains_string(v@, x@),
{
    let mut i: usize = 0;
    while i < v.len()
        invariant
            i <= v@.len(),
            forall|k: int| 0 <= k < i ==> (#[trigger] v@[k]@) != x@,
        decreases v@.len() - i,
    {
        if v[i].eq(x) {
            return true;
        }
        i = i + 1;
    }
    false
}

/// Does the record carry at least one recognized input-class property?
fn has_monitored_property_exec(props: &Vec<String>) -> (r: bool)
    ensures
        r == has_monitored_property(props@),
{
    let keyboard = String::from_str("ID_INPUT_KEYBOARD");
    let mouse = String::from_str("ID_INPUT_MOUSE");
    let touchpad = String::from_str("ID_INPUT_TOUCHPAD");
    let joystick = String::from_str("ID_INPUT_JOYSTICK");
    let mut i: usize = 0;
    while i < props.len()
        invariant
            i <= props@.len(),
            keyboard@ == "ID_INPUT_KEYBOARD"@,
            mouse@ == "ID_INPUT_MOUSE"@,
            touchpad@ == "ID_INPUT_TOUCHPAD"@,
            joystick@ == "ID_INPUT_JOYSTICK"@,
            forall|k: int| 0 <= k < i ==> !is_monitored_property(#[trigger] props@[k]@),
        decreases props@.len() - i,
    {
        let p = &props[i];
        if p.eq(&keyboard) || p.eq(&mouse) || p.eq(&touchpad) || p.eq(&joystick) {
            return true;
        }
        i = i + 1;
    }
    false
}

/// The record's device node when it matches the default heuristic: its node
/// name begins with the input-event prefix and it carries at least one
/// recognized input-class property.
pub fn get_devnode_if_default(device: &DeviceRecord) -> (r: Option<String>)
    ensures
        r == if is_default_device(*device) {
            device.devnode
        } else {
            None::<String>
        },
{
    let devnode = match &device.devnode {
        Some(d) => d,
        None => {
            return None;
        },
    };
    if !has_event_file_name(devnode.as_str()) {
        return None;
    }
    if has_monitored_property_exec(&device.properties) {
        Some(devnode.clone())
    } else {
        None
    }
}

/// The record's device node when it is monitored: an explicitly configured
/// path (already canonicalized by the caller) always matches; otherwise the
/// default heuristic decides.
pub fn get_devnode_if_monitored(device: &DeviceRecord, cli_canons: &Vec<String>) -> (r: Option<
    String,
>)
    ensures
        r == if is_explicit_match(*device, cli_canons@) {
            device.devnode
        } else if is_default_device(*device) {
            device.devnode
        } else {
            None::<String>
        },
{
    match &device.devnode {
        Some(d) => {
            if contains_string(cli_canons, d) {
                return Some(d.clone());
            }
        },
        None => {
            return None;
        },
    }
    get_devnode_if_default(device)
}

/// The device nodes of the records matching the default heuristic, in
/// enumeration order.
pub open spec fn default_devices_spec(records: Seq<DeviceRecord>) -> Seq<String>
    decreases records.len(),
{
    if records.len() == 0 {
        Seq::empty()
    } else if is_default_device(records.last()) {
        default_devices_spec(records.drop_last()).push(records.last().devnode->Some_0)
    } else {
        default_devices_spec(records.drop_last())
    }
}

/// Collect the device nodes of the records matching the default heuristic.
pub fn get_default_devices(records: &Vec<DeviceRecord>) -> (r: Vec<String>)
    ensures
        r@ == default_devices_spec(records@),
{
    let mut out: Vec<String> = Vec::new();
    let mut i: usize = 0;
    while i < records.len()
        invariant
            i <= records@.len(),
            out@ == default_devices_spec(records@.take(i as int)),
        decreases records@.len() - i,
    {
        proof {
            assert(records@.take(i + 1).drop_last() =~= records@.take(i as int));
            assert(records@.take(i + 1).last() == records@[i as int]);
        }
        match get_devnode_if_default(&records[i]) {
            Some(d) => {
                out.push(d);
            },
            None => {},
        }
        i = i + 1;
    }
    proof {
        assert(records@.take(records@.len() as int) =~= records@);
    }
    out
}

/// The initial device list: the explicitly provided paths, then whichever
/// defaults they do not already cover. `canons` holds the canonical form of
/// each provided path, in the same order; two provided paths canonicalizing
/// identically are a configuration error, reported for the first repeated
/// entry.
pub fn normalize_devices(provided: Vec<String>, canons: &Vec<String>, defaults: Vec<String>) -> (r:
    Result<Vec<String>, KbError>)
    requires
        canons@.len() == provided@.len(),
    ensures
        canons_unique(canons@) ==> (r matches Ok(v) && v@ == provided@ + remaining_defaults(
            defaults@,
            canons@,
        )),
        !canons_unique(canons@) ==> (r matches Err(e) && duplicate_report(provided@, canons@, e)),
{
    // Reject duplicates among the canonicalized provided paths, reporting
    // the first repeated entry.
    let mut j: usize = 0;
    while j < canons.len()
        invariant
            j <= canons@.len(),
            canons@.len() == provided@.len(),
            forall|k: int| 0 <= k < j ==> !dup_at(canons@, k),
        decreases canons@.len() - j,
    {
        let mut i: usize = 0;
        while i < j
            invariant
                i <= j < canons@.len(),
                canons@.len() == provided@.len(),
                forall|k: int| 0 <= k < j ==> !dup_at(canons@, k),
                forall|k: int| 0 <= k < i ==> (#[trigger] canons@[k]@) != canons@[j as int]@,
            decreases j - i,
        {
            if canons[i].eq(&canons[j]) {
                proof {
                    assert(dup_at(canons@, j as int));
                    assert(!canons_unique(canons@));
                }
                return Err(KbError::DuplicateDevice {
                    provided: provided[j].clone(),
                    canon: canons[j].clone(),
                });
            }
            i = i + 1;
        }
        j = j + 1;
    }

    proof {
        assert forall|a: int, b: int|
            0 <= a < b < canons@.len() implies (#[trigger] canons@[a]@) != (#[trigger] canons@[b]@) by {
            assert(!dup_at(canons@, b));
        }
        assert(provided@ + remaining_defaults(defaults@.take(0), canons@) =~= provided@);
    }

    // Keep the defaults not covered by a provided path, in order.
    let mut out = provided;
    let mut d: usize = 0;
    while d < defaults.len()
        invariant
            d <= defaults@.len(),
            out@ == provided@ + remaining_defaults(defaults@.take(d as int), canons@),
        decreases defaults@.len() - d,
    {
        proof {
            assert(defaults@.take(d + 1).drop_last() =~= defaults@.take(d as int));
            assert(defaults@.take(d + 1).last() == defaults@[d as int]);
        }
        if !contains_string(canons, &defaults[d]) {
            let dev = defaults[d].clone();
            out.push(dev);
        }
        d = d + 1;
    }
    proof {
        assert(defaults@.take(defaults@.len() as int) =~= defaults@);
    }
    Ok(out)
}

} // verus!
