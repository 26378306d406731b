//! Audio-device bookkeeping: four-character codes, the set of devices
//! that appeared or went away, and which output to switch to then.
use vstd::prelude::*;
use crate::engine::{names_builtin_speaker, names_virtual, is_builtin_speaker_name, is_external_output_name};
use crate::text::char_string;
use std::collections::HashSet;
use vstd::std_specs::iter::IteratorSpec;

verus! {

/// The character whose code is the byte `b` (Latin-1).
pub open spec fn byte_char(b: int) -> char {
    b as char
}

/// The four characters of a four-character code, most significant byte first.
pub open spec fn fourcc_spec(value: u32) -> Seq<char> {
    seq![
        byte_char(value as int / 0x1000000),
        byte_char((value as int / 0x10000) % 0x100),
        byte_char((value as int / 0x100) % 0x100),
        byte_char(value as int % 0x100),
    ]
}

/// The code whose bytes, most significant first, are `b`.
pub open spec fn code_of(b: [u8; 4]) -> u32 {
    (b[0] as int * 0x1000000 + b[1] as int * 0x10000 + b[2] as int * 0x100 + b[3] as int) as u32
}

/// The four-character code whose big-endian bytes are `b`.
pub fn fourcc_code(b: [u8; 4]) -> (r: u32)
    ensures
        r == code_of(b),
        r as int == b[0] as int * 0x1000000 + b[1] as int * 0x10000 + b[2] as int * 0x100
            + b[3] as int,
{
    let r: u32 = (b[0] as u32) * 0x1000000 + (b[1] as u32) * 0x10000 + (b[2] as u32) * 0x100 + (
    b[3] as u32);
    r
}

/// Writes a four-character code as its four characters, most significant
/// byte first, each byte read as a Latin-1 character.
pub fn fourcc(value: u32) -> (r: String)
    ensures
        r@ == fourcc_spec(value),
{
    let b0 = (value / 0x1000000) as u8;
    let b1 = ((value / 0x10000) % 0x100) as u8;
    let b2 = ((value / 0x100) % 0x100) as u8;
    let b3 = (value % 0x100) as u8;
    let mut r = char_string(b0 as char);
    let c1 = char_string(b1 as char);
    let c2 = char_string(b2 as char);
    let c3 = char_string(b3 as char);
    r.append(c1.as_str());
    r.append(c2.as_str());
    r.append(c3.as_str());
    assert(r@ =~= fourcc_spec(value));
    r
}

/// Data source of the built-in output when headphones are plugged: `hdpn`.
pub const SOURCE_HEADPHONES: u32 = 0x6864706e;

/// Data source of the built-in output when the speakers play: `ispk`.
pub const SOURCE_SPEAKERS: u32 = 0x6973706b;

/// Transport type of built-in devices: `bltn`.
pub const TRANSPORT_BUILTIN: u32 = 0x626c746e;

/// The label of a data source: `HEADPHONES`, `SPEAKERS`, `none` for 0 and
/// `other` for anything else.
pub fn data_source_label(source: u32) -> (r: &'static str)
    ensures
        source == SOURCE_HEADPHONES ==> r@ == "HEADPHONES"@,
        source == SOURCE_SPEAKERS ==> r@ == "SPEAKERS"@,
        source == 0 ==> r@ == "none"@,
        source != SOURCE_HEADPHONES && source != SOURCE_SPEAKERS && source != 0 ==> r@
            == "other"@,
{
    if source == SOURCE_HEADPHONES {
        "HEADPHONES"
    } else if source == SOURCE_SPEAKERS {
        "SPEAKERS"
    } else if source == 0 {
        "none"
    } else {
        "other"
    }
}

/// Whether a device with this transport type and data source is the
/// built-in output playing through headphones.
pub fn is_builtin_headphone(transport: u32, source: u32) -> (r: bool)
    ensures
        r == (transport == TRANSPORT_BUILTIN && source == SOURCE_HEADPHONES),
{
    transport == TRANSPORT_BUILTIN && source == SOURCE_HEADPHONES
}

/// The devices that appeared and those that went away between two polls.
pub struct DeviceChange {
    /// Devices present now and not before, each once.
    pub added: Vec<u32>,
    /// Devices present before and not now, each once.
    pub removed: Vec<u32>,
}

/// `r` holds, each once, the members of `a` that are not members of `b`.
pub open spec fn is_difference(r: Seq<u32>, a: Set<u32>, b: Set<u32>) -> bool {
    &&& r.no_duplicates()
    &&& forall|x: u32| r.contains(x) <==> (a.contains(x) && !b.contains(x))
}

/// The members of `a` that are not members of `b`, each once, in the
/// order in which `a` hands them out.
fn difference(a: &HashSet<u32>, b: &HashSet<u32>) -> (r: Vec<u32>)
    ensures
        is_difference(r@, a@, b@),
{
    broadcast use vstd::std_specs::hash::group_hash_axioms;
    let mut r: Vec<u32> = Vec::new();
    let ghost keys: Seq<u32> = a.iter().remaining().unref();
    assert(keys.to_set() == a@);
    for x in it: a.iter()
        invariant
            it.seq().unref() == keys,
            keys.no_duplicates(),
            keys.to_set() == a@,
            r@.no_duplicates(),
            forall|y: u32| r@.contains(y) <==> (keys.take(it.index()).contains(y) && !b@.contains(y)),
    {
        let ghost before = r@;
        let ghost i = it.index();
        assert(keys[i] == *x);
        let fresh = !b.contains(x);
        if fresh {
            r.push(*x);
        }
        proof {
            let y0 = *x;
            assert(keys.take(i + 1) =~= keys.take(i).push(y0));
            assert(!keys.take(i).contains(y0)) by {
                if keys.take(i).contains(y0) {
                    let k = choose|k: int| 0 <= k < i && #[trigger] keys.take(i)[k] == y0;
                    assert(keys[k] == keys[i]);
                }
            }
            if fresh {
                assert(r@ =~= before.push(y0));
            } else {
                assert(r@ =~= before);
            }
            assert forall|y: u32| r@.contains(y) <==> (keys.take(i + 1).contains(y) && !b@.contains(
                y,
            )) by {
                if before.contains(y) {
                    let k = choose|k: int| 0 <= k < before.len() && #[trigger] before[k] == y;
                    assert(r@[k] == y);
                }
                if r@.contains(y) && y != y0 {
                    let k = choose|k: int| 0 <= k < r@.len() && #[trigger] r@[k] == y;
                    if fresh && k == before.len() {
                    } else {
                        assert(before[k] == y);
                    }
                }
                if keys.take(i + 1).contains(y) && y != y0 {
                    let k = choose|k: int| 0 <= k < i + 1 && #[trigger] keys.take(i + 1)[k] == y;
                    assert(keys.take(i)[k] == y);
                }
                if y == y0 && fresh {
                    assert(r@[r@.len() - 1] == y);
                }
                assert(keys.take(i + 1)[i] == y0);
            }
        }
    }
    assert(keys.take(keys.len() as int) =~= keys);
    r
}

/// Compares the devices known before with those present now.
pub fn device_list_change(known: &HashSet<u32>, current: &HashSet<u32>) -> (r: DeviceChange)
    ensures
        is_difference(r.added@, current@, known@),
        is_difference(r.removed@, known@, current@),
{
    DeviceChange { added: difference(current, known), removed: difference(known, current) }
}

/// Which output to switch to after the device list changed.
#[derive(Debug, Clone, Copy, PartialEq, Eq, Structural)]
pub enum OutputTarget {
    /// A device was plugged in: switch to an external output.
    External,
    /// A device went away: switch back to the built-in speakers.
    Builtin,
}

/// The output to switch to: an external one when a device appeared, the
/// built-in speakers when one went away only, none when nothing changed.
pub fn switch_target(change: &DeviceChange) -> (r: Option<OutputTarget>)
    ensures
        change.added@.len() > 0 ==> r == Some(OutputTarget::External),
        change.added@.len() == 0 && change.removed@.len() > 0 ==> r == Some(
            OutputTarget::Builtin,
        ),
        change.added@.len() == 0 && change.removed@.len() == 0 ==> r is None,
{
    if change.added.len() > 0 {
        Some(OutputTarget::External)
    } else if change.removed.len() > 0 {
        Some(OutputTarget::Builtin)
    } else {
        None
    }
}

/// One poll of the device list: compares the devices present now with
/// those known before and picks the output to switch to. When the list
/// changed, the devices present now become the known ones.
pub fn monitor_step(known: &mut HashSet<u32>, current: HashSet<u32>) -> (r: (
    DeviceChange,
    Option<OutputTarget>,
))
    ensures
        is_difference(r.0.added@, current@, old(known)@),
        is_difference(r.0.removed@, old(known)@, current@),
        r.0.added@.len() > 0 ==> r.1 == Some(OutputTarget::External),
        r.0.added@.len() == 0 && r.0.removed@.len() > 0 ==> r.1 == Some(OutputTarget::Builtin),
        r.0.added@.len() == 0 && r.0.removed@.len() == 0 ==> r.1 is None,
        r.1 is Some ==> final(known)@ == current@,
        r.1 is None ==> final(known)@ == old(known)@,
{
    let change = device_list_change(known, &current);
    let target = switch_target(&change);
    if target.is_some() {
        *known = current;
    }
    (change, target)
}

/// Whether a device called `name` is one to switch to for `target`: a
/// device that is not virtual, and is the built-in speakers exactly when
/// the target is the built-in output.
pub open spec fn fits_target_spec(target: OutputTarget, name: Seq<char>) -> bool {
    match target {
        OutputTarget::External => !names_virtual(name) && !names_builtin_speaker(name),
        OutputTarget::Builtin => !names_virtual(name) && names_builtin_speaker(name),
    }
}

/// Whether the device of this name is one to switch to for `target`.
pub fn fits_target(target: OutputTarget, name: &str) -> (r: bool)
    ensures
        r == fits_target_spec(target, name@),
        target == OutputTarget::External ==> r == (!names_virtual(name@) && !names_builtin_speaker(
            name@,
        )),
        target == OutputTarget::Builtin ==> r == (!names_virtual(name@) && names_builtin_speaker(
            name@,
        )),
{
    match target {
        OutputTarget::External => is_external_output_name(name),
        OutputTarget::Builtin => is_builtin_speaker_name(name),
    }
}

} // verus!
