//! Keeping the launch-at-login registration in step with the setting.

use vstd::prelude::*;

verus! {

/// What has to be done to the registration.
#[derive(Clone, Copy, Debug, PartialEq, Eq, Structural)]
pub enum RepairAction {
    /// The registration matches the setting.
    Keep,
    /// The entry is missing and has to be written.
    Enable,
    /// An entry exists that the setting does not want.
    Disable,
}

/// The action that brings the actual registration to the expected one.
pub open spec fn repair_for(expected_enabled: bool, actual_enabled: bool) -> RepairAction {
    if expected_enabled && !actual_enabled {
        RepairAction::Enable
    } else if !expected_enabled && actual_enabled {
        RepairAction::Disable
    } else {
        RepairAction::Keep
    }
}

impl RepairAction {
    /// Whether the configuration was found as expected, so that nothing was
    /// repaired.
    pub fn verified(&self) -> (r: bool)
        ensures
            r == (*self == RepairAction::Keep),
    {
        match self {
            RepairAction::Keep => true,
            _ => false,
        }
    }
}

/// Whether launch at login is registered where the platform keeps no
/// registration at all: never.
pub fn is_enabled() -> (r: Result<bool, String>)
    ensures
        r matches Ok(enabled) && !enabled,
{
    Ok(false)
}

/// Compares the registration found with the one expected and says how to
/// repair it.
pub fn verify_and_repair(expected_enabled: bool, actual_enabled: bool) -> (r: RepairAction)
    ensures
        r == repair_for(expected_enabled, actual_enabled),
{
    if expected_enabled && !actual_enabled {
        RepairAction::Enable
    } else if !expected_enabled && actual_enabled {
        RepairAction::Disable
    } else {
        RepairAction::Keep
    }
}

/// A repair is planned exactly when the registration differs from the
/// setting, and carrying it out leaves nothing to repair.
pub proof fn repair_settles(expected_enabled: bool, actual_enabled: bool)
    ensures
        repair_for(expected_enabled, actual_enabled) == RepairAction::Keep <==> expected_enabled
            == actual_enabled,
        repair_for(expected_enabled, expected_enabled) == RepairAction::Keep,
{
}

} // verus!
