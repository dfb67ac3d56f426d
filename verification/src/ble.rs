//! Bluetooth presence: what the scanner does with what it sees. The
//! scan itself is left to the caller; nothing is advertised and no
//! device is connected to.

use vstd::prelude::*;
use vstd::string::StringExecFns;
use crate::text::{contains_text, str_contains};

verus! {

/// How the scanner starts.
#[derive(Clone, Copy, Debug, PartialEq, Eq)]
pub enum BleStartup {
    /// There is no adapter: warn, and leave Bluetooth alone.
    Disabled,
    /// Scan passively on the first adapter.
    Scan,
}

/// How the scanner starts on a machine with `adapters` Bluetooth
/// adapters.
pub fn ble_startup(adapters: usize) -> (startup: BleStartup)
    ensures
        startup == if adapters == 0 {
            BleStartup::Disabled
        } else {
            BleStartup::Scan
        },
{
    if adapters == 0 {
        BleStartup::Disabled
    } else {
        BleStartup::Scan
    }
}

/// The warning of a node without a Bluetooth adapter.
pub fn no_adapters_warning() -> (line: &'static str)
    ensures
        line@ == "No Bluetooth adapters found. BLE features will be disabled."@,
{
    "No Bluetooth adapters found. BLE features will be disabled."
}

/// Whether a device with this advertised name is a node of the mesh: the
/// name holds `GhostMesh`.
pub open spec fn is_mesh_name(local_name: Seq<char>) -> bool {
    contains_text(local_name, "GhostMesh"@)
}

/// Tests whether a device with this advertised name is a node of the
/// mesh.
pub fn is_mesh_peer(local_name: &str) -> (found: bool)
    ensures
        found == is_mesh_name(local_name@),
{
    str_contains(local_name, "GhostMesh")
}

/// What is reported of a device that was updated: nothing, unless it
/// advertises a name of the mesh.
pub open spec fn sighting(local_name: Option<Seq<char>>, device: Seq<char>) -> Option<Seq<char>> {
    match local_name {
        Some(name) => if is_mesh_name(name) {
            Some("Found GhostMesh Peer via BLE: "@ + name + " ("@ + device + ")"@)
        } else {
            None
        },
        None => None,
    }
}

/// The line to report for the device `device` after an update, given the
/// name that it advertises, if any.
pub fn ble_sighting(local_name: Option<&str>, device: &str) -> (line: Option<String>)
    ensures
        match line {
            Some(text) => sighting(
                match local_name {
                    Some(name) => Some(name@),
                    None => None,
                },
                device@,
            ) == Some(text@),
            None => sighting(
                match local_name {
                    Some(name) => Some(name@),
                    None => None,
                },
                device@,
            ) is None,
        },
{
    match local_name {
        Some(name) => if is_mesh_peer(name) {
            let mut text = String::from_str("Found GhostMesh Peer via BLE: ");
            text.append(name);
            text.append(" (");
            text.append(device);
            text.append(")");
            Some(text)
        } else {
            None
        },
        None => None,
    }
}

} // verus!
