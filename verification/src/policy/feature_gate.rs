use vstd::prelude::*;

use crate::errors::PolicyReason;
use crate::protocol::message_type::MessageType;

verus! {

/// Operations that V1 keeps off unless enabled here.
#[derive(Debug, Clone, Copy, PartialEq, Eq, Structural)]
pub struct FeatureFlags {
    pub save_text_file: bool,
    pub chmod_file: bool,
    pub extract_archive: bool,
    pub delete_permanently: bool,
    pub chown: bool,
}

impl FeatureFlags {
    pub open spec fn all_disabled(f: FeatureFlags) -> bool {
        !f.save_text_file && !f.chmod_file && !f.extract_archive && !f.delete_permanently && !f.chown
    }
}

impl Default for FeatureFlags {
    fn default() -> (f: Self)
        ensures
            FeatureFlags::all_disabled(f),
    {
        FeatureFlags {
            save_text_file: false,
            chmod_file: false,
            extract_archive: false,
            delete_permanently: false,
            chown: false,
        }
    }
}

#[derive(Debug, Clone, Copy, PartialEq, Eq, Structural)]
pub enum FeatureGateResult {
    Allowed,
    Disabled { operation: DisabledOperation, reason: PolicyReason },
}

#[derive(Debug, Clone, Copy, PartialEq, Eq, Structural)]
pub enum DisabledOperation {
    SaveTextFile,
    ChmodFile,
    ExtractArchive,
    DeletePermanently,
    Chown,
}

/// The operation a message asks for, when that operation is gated and its
/// flag is off.
pub open spec fn gated_operation(m: MessageType, flags: FeatureFlags) -> Option<DisabledOperation> {
    if m == MessageType::SaveTextFile && !flags.save_text_file {
        Some(DisabledOperation::SaveTextFile)
    } else if m == MessageType::ChmodFile && !flags.chmod_file {
        Some(DisabledOperation::ChmodFile)
    } else if m == MessageType::ExtractArchive && !flags.extract_archive {
        Some(DisabledOperation::ExtractArchive)
    } else if m == MessageType::DeletePermanently && !flags.delete_permanently {
        Some(DisabledOperation::DeletePermanently)
    } else {
        None
    }
}

pub struct FeatureGate;

impl FeatureGate {
    pub fn check(message_type: MessageType, flags: &FeatureFlags) -> (res: FeatureGateResult)
        ensures
            res == match gated_operation(message_type, *flags) {
                Some(operation) => FeatureGateResult::Disabled {
                    operation,
                    reason: PolicyReason::FeatureDisabled,
                },
                None => FeatureGateResult::Allowed,
            },
    {
        let disabled = match message_type {
            MessageType::SaveTextFile if !flags.save_text_file => Some(
                DisabledOperation::SaveTextFile,
            ),
            MessageType::ChmodFile if !flags.chmod_file => Some(DisabledOperation::ChmodFile),
            MessageType::ExtractArchive if !flags.extract_archive => Some(
                DisabledOperation::ExtractArchive,
            ),
            MessageType::DeletePermanently if !flags.delete_permanently => Some(
                DisabledOperation::DeletePermanently,
            ),
            _ => None,
        };
        match disabled {
            Some(operation) => FeatureGateResult::Disabled {
                operation,
                reason: PolicyReason::FeatureDisabled,
            },
            None => FeatureGateResult::Allowed,
        }
    }
}

} // verus!
