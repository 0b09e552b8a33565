//! Tables between engine enumerations and their native counterparts.
use vstd::prelude::*;

use crate::bridge::engine::{
    DataPath, DataPathView, FailureCategory, FailureCode, FailureOrigin, FailurePhase, PairingStep,
    PathPolicy, RecoveryAction, Role, TransferDirection, TransferMode,
};
use crate::bridge::models::{
    FfiDataPathKind, FfiFailureCategory, FfiFailureCode, FfiFailurePhase, FfiInviteRole,
    FfiPairingStep, FfiRecoveryAction, FfiTransferDirection, FfiTransferMode,
};
use crate::common::{FfiFailureOrigin, FfiPathPolicy};

verus! {

/// The native direction of an engine transfer; `Unknown` where there is none.
pub open spec fn direction_of(direction: Option<TransferDirection>) -> FfiTransferDirection {
    match direction {
        Some(TransferDirection::Send) => FfiTransferDirection::Send,
        Some(TransferDirection::Receive) => FfiTransferDirection::Receive,
        None => FfiTransferDirection::Unknown,
    }
}

/// Projects an optional engine direction.
pub fn ffi_direction(direction: Option<TransferDirection>) -> (r: FfiTransferDirection)
    ensures
        r == direction_of(direction),
{
    match direction {
        Some(TransferDirection::Send) => FfiTransferDirection::Send,
        Some(TransferDirection::Receive) => FfiTransferDirection::Receive,
        None => FfiTransferDirection::Unknown,
    }
}

/// The [`FfiTransferMode`] that stands for a [`TransferMode`].
pub open spec fn mode_of(value: TransferMode) -> FfiTransferMode {
    match value {
        TransferMode::Manual => FfiTransferMode::Manual,
        TransferMode::Invite => FfiTransferMode::Invite,
        TransferMode::ShowManual => FfiTransferMode::ShowManual,
        TransferMode::ShowInvite => FfiTransferMode::ShowInvite,
        TransferMode::Mdns => FfiTransferMode::Mdns,
        TransferMode::Room => FfiTransferMode::Room,
    }
}

/// Projects the pairing mode of a source.
pub fn ffi_transfer_mode(value: TransferMode) -> (r: FfiTransferMode)
    ensures
        r == mode_of(value),
{
    match value {
        TransferMode::Manual => FfiTransferMode::Manual,
        TransferMode::Invite => FfiTransferMode::Invite,
        TransferMode::ShowManual => FfiTransferMode::ShowManual,
        TransferMode::ShowInvite => FfiTransferMode::ShowInvite,
        TransferMode::Mdns => FfiTransferMode::Mdns,
        TransferMode::Room => FfiTransferMode::Room,
    }
}

/// The [`FfiPairingStep`] that stands for a [`PairingStep`].
pub open spec fn pairing_step_of(value: PairingStep) -> FfiPairingStep {
    match value {
        PairingStep::Joining => FfiPairingStep::Joining,
        PairingStep::Matched => FfiPairingStep::Matched,
        PairingStep::Exchanged => FfiPairingStep::Exchanged,
    }
}

/// Projects a pairing step.
pub fn ffi_pairing_step(value: PairingStep) -> (r: FfiPairingStep)
    ensures
        r == pairing_step_of(value),
{
    match value {
        PairingStep::Joining => FfiPairingStep::Joining,
        PairingStep::Matched => FfiPairingStep::Matched,
        PairingStep::Exchanged => FfiPairingStep::Exchanged,
    }
}

/// The [`PathPolicy`] that stands for a [`FfiPathPolicy`].
pub open spec fn path_policy_of(value: FfiPathPolicy) -> PathPolicy {
    match value {
        FfiPathPolicy::Auto => PathPolicy::Auto,
        FfiPathPolicy::RelayOnly => PathPolicy::RelayOnly,
        FfiPathPolicy::DirectOnly => PathPolicy::DirectOnly,
    }
}

/// Maps a requested path policy onto the engine's.
pub fn path_policy(value: FfiPathPolicy) -> (r: PathPolicy)
    ensures
        r == path_policy_of(value),
{
    match value {
        FfiPathPolicy::Auto => PathPolicy::Auto,
        FfiPathPolicy::RelayOnly => PathPolicy::RelayOnly,
        FfiPathPolicy::DirectOnly => PathPolicy::DirectOnly,
    }
}

/// The [`FfiPathPolicy`] that stands for a [`PathPolicy`].
pub open spec fn ffi_path_policy_of(value: PathPolicy) -> FfiPathPolicy {
    match value {
        PathPolicy::Auto => FfiPathPolicy::Auto,
        PathPolicy::RelayOnly => FfiPathPolicy::RelayOnly,
        PathPolicy::DirectOnly => FfiPathPolicy::DirectOnly,
    }
}

/// Projects an engine path policy.
pub fn ffi_path_policy(value: PathPolicy) -> (r: FfiPathPolicy)
    ensures
        r == ffi_path_policy_of(value),
{
    match value {
        PathPolicy::Auto => FfiPathPolicy::Auto,
        PathPolicy::RelayOnly => FfiPathPolicy::RelayOnly,
        PathPolicy::DirectOnly => FfiPathPolicy::DirectOnly,
    }
}

/// The [`FfiFailureCode`] that stands for a [`FailureCode`].
pub open spec fn failure_code_of(value: FailureCode) -> FfiFailureCode {
    match value {
        FailureCode::UserCanceled => FfiFailureCode::UserCanceled,
        FailureCode::PeerCanceled => FfiFailureCode::PeerCanceled,
        FailureCode::NetworkLost => FfiFailureCode::NetworkLost,
        FailureCode::PeerUnreachable => FfiFailureCode::PeerUnreachable,
        FailureCode::AuthenticationFailed => FfiFailureCode::AuthenticationFailed,
        FailureCode::PermissionDenied => FfiFailureCode::PermissionDenied,
        FailureCode::DiskFull => FfiFailureCode::DiskFull,
        FailureCode::HashMismatch => FfiFailureCode::HashMismatch,
        FailureCode::ProtocolError => FfiFailureCode::ProtocolError,
        FailureCode::DestinationConflict => FfiFailureCode::DestinationConflict,
        FailureCode::UnsupportedFeature => FfiFailureCode::UnsupportedFeature,
        FailureCode::Timeout => FfiFailureCode::Timeout,
        FailureCode::InternalError => FfiFailureCode::InternalError,
        FailureCode::Unknown => FfiFailureCode::Unknown,
    }
}

/// Projects a failure code.
pub fn ffi_failure_code(value: FailureCode) -> (r: FfiFailureCode)
    ensures
        r == failure_code_of(value),
{
    match value {
        FailureCode::UserCanceled => FfiFailureCode::UserCanceled,
        FailureCode::PeerCanceled => FfiFailureCode::PeerCanceled,
        FailureCode::NetworkLost => FfiFailureCode::NetworkLost,
        FailureCode::PeerUnreachable => FfiFailureCode::PeerUnreachable,
        FailureCode::AuthenticationFailed => FfiFailureCode::AuthenticationFailed,
        FailureCode::PermissionDenied => FfiFailureCode::PermissionDenied,
        FailureCode::DiskFull => FfiFailureCode::DiskFull,
        FailureCode::HashMismatch => FfiFailureCode::HashMismatch,
        FailureCode::ProtocolError => FfiFailureCode::ProtocolError,
        FailureCode::DestinationConflict => FfiFailureCode::DestinationConflict,
        FailureCode::UnsupportedFeature => FfiFailureCode::UnsupportedFeature,
        FailureCode::Timeout => FfiFailureCode::Timeout,
        FailureCode::InternalError => FfiFailureCode::InternalError,
        FailureCode::Unknown => FfiFailureCode::Unknown,
    }
}

/// The [`FfiFailureCategory`] that stands for a [`FailureCategory`].
pub open spec fn failure_category_of(value: FailureCategory) -> FfiFailureCategory {
    match value {
        FailureCategory::User => FfiFailureCategory::User,
        FailureCategory::Network => FfiFailureCategory::Network,
        FailureCategory::Authentication => FfiFailureCategory::Authentication,
        FailureCategory::Permission => FfiFailureCategory::Permission,
        FailureCategory::Storage => FfiFailureCategory::Storage,
        FailureCategory::Integrity => FfiFailureCategory::Integrity,
        FailureCategory::Protocol => FfiFailureCategory::Protocol,
        FailureCategory::Unsupported => FfiFailureCategory::Unsupported,
        FailureCategory::Internal => FfiFailureCategory::Internal,
        FailureCategory::Unknown => FfiFailureCategory::Unknown,
    }
}

/// Projects a failure class.
pub fn ffi_failure_category(value: FailureCategory) -> (r: FfiFailureCategory)
    ensures
        r == failure_category_of(value),
{
    match value {
        FailureCategory::User => FfiFailureCategory::User,
        FailureCategory::Network => FfiFailureCategory::Network,
        FailureCategory::Authentication => FfiFailureCategory::Authentication,
        FailureCategory::Permission => FfiFailureCategory::Permission,
        FailureCategory::Storage => FfiFailureCategory::Storage,
        FailureCategory::Integrity => FfiFailureCategory::Integrity,
        FailureCategory::Protocol => FfiFailureCategory::Protocol,
        FailureCategory::Unsupported => FfiFailureCategory::Unsupported,
        FailureCategory::Internal => FfiFailureCategory::Internal,
        FailureCategory::Unknown => FfiFailureCategory::Unknown,
    }
}

/// The [`FfiFailureOrigin`] that stands for a [`FailureOrigin`].
pub open spec fn failure_origin_of(value: FailureOrigin) -> FfiFailureOrigin {
    match value {
        FailureOrigin::Local => FfiFailureOrigin::Local,
        FailureOrigin::Peer => FfiFailureOrigin::Peer,
        FailureOrigin::Unknown => FfiFailureOrigin::Unknown,
    }
}

/// Projects the side of a failure.
pub fn ffi_failure_origin(value: FailureOrigin) -> (r: FfiFailureOrigin)
    ensures
        r == failure_origin_of(value),
{
    match value {
        FailureOrigin::Local => FfiFailureOrigin::Local,
        FailureOrigin::Peer => FfiFailureOrigin::Peer,
        FailureOrigin::Unknown => FfiFailureOrigin::Unknown,
    }
}

/// The [`FfiFailurePhase`] that stands for a [`FailurePhase`].
pub open spec fn failure_phase_of(value: FailurePhase) -> FfiFailurePhase {
    match value {
        FailurePhase::Setup => FfiFailurePhase::Setup,
        FailurePhase::Binding => FfiFailurePhase::Binding,
        FailurePhase::Advertising => FfiFailurePhase::Advertising,
        FailurePhase::Pairing => FfiFailurePhase::Pairing,
        FailurePhase::Connecting => FfiFailurePhase::Connecting,
        FailurePhase::Authenticating => FfiFailurePhase::Authenticating,
        FailurePhase::Negotiating => FfiFailurePhase::Negotiating,
        FailurePhase::Transferring => FfiFailurePhase::Transferring,
        FailurePhase::Verifying => FfiFailurePhase::Verifying,
        FailurePhase::Committing => FfiFailurePhase::Committing,
        FailurePhase::Acknowledging => FfiFailurePhase::Acknowledging,
        FailurePhase::CleaningUp => FfiFailurePhase::CleaningUp,
    }
}

/// Projects the step of a failure.
pub fn ffi_failure_phase(value: FailurePhase) -> (r: FfiFailurePhase)
    ensures
        r == failure_phase_of(value),
{
    match value {
        FailurePhase::Setup => FfiFailurePhase::Setup,
        FailurePhase::Binding => FfiFailurePhase::Binding,
        FailurePhase::Advertising => FfiFailurePhase::Advertising,
        FailurePhase::Pairing => FfiFailurePhase::Pairing,
        FailurePhase::Connecting => FfiFailurePhase::Connecting,
        FailurePhase::Authenticating => FfiFailurePhase::Authenticating,
        FailurePhase::Negotiating => FfiFailurePhase::Negotiating,
        FailurePhase::Transferring => FfiFailurePhase::Transferring,
        FailurePhase::Verifying => FfiFailurePhase::Verifying,
        FailurePhase::Committing => FfiFailurePhase::Committing,
        FailurePhase::Acknowledging => FfiFailurePhase::Acknowledging,
        FailurePhase::CleaningUp => FfiFailurePhase::CleaningUp,
    }
}

/// The [`FfiRecoveryAction`] that stands for a [`RecoveryAction`].
pub open spec fn recovery_action_of(value: RecoveryAction) -> FfiRecoveryAction {
    match value {
        RecoveryAction::Retry => FfiRecoveryAction::Retry,
        RecoveryAction::Resume => FfiRecoveryAction::Resume,
        RecoveryAction::ChooseFolder => FfiRecoveryAction::ChooseFolder,
        RecoveryAction::OpenSettings => FfiRecoveryAction::OpenSettings,
        RecoveryAction::RePair => FfiRecoveryAction::RePair,
        RecoveryAction::UpdateApp => FfiRecoveryAction::UpdateApp,
        RecoveryAction::SwitchPairingMethod => FfiRecoveryAction::SwitchPairingMethod,
        RecoveryAction::DiscardPartial => FfiRecoveryAction::DiscardPartial,
        RecoveryAction::NoAction => FfiRecoveryAction::NoAction,
    }
}

/// Projects a suggested recovery.
pub fn ffi_recovery_action(value: RecoveryAction) -> (r: FfiRecoveryAction)
    ensures
        r == recovery_action_of(value),
{
    match value {
        RecoveryAction::Retry => FfiRecoveryAction::Retry,
        RecoveryAction::Resume => FfiRecoveryAction::Resume,
        RecoveryAction::ChooseFolder => FfiRecoveryAction::ChooseFolder,
        RecoveryAction::OpenSettings => FfiRecoveryAction::OpenSettings,
        RecoveryAction::RePair => FfiRecoveryAction::RePair,
        RecoveryAction::UpdateApp => FfiRecoveryAction::UpdateApp,
        RecoveryAction::SwitchPairingMethod => FfiRecoveryAction::SwitchPairingMethod,
        RecoveryAction::DiscardPartial => FfiRecoveryAction::DiscardPartial,
        RecoveryAction::NoAction => FfiRecoveryAction::NoAction,
    }
}

/// The class of a data path and the detail shown beside it.
pub open spec fn data_path_of(path: DataPathView) -> (FfiDataPathKind, Seq<char>) {
    match path {
        DataPathView::Direct { addr } => (FfiDataPathKind::Direct, addr),
        DataPathView::Relay { url } => (FfiDataPathKind::Relay, url),
        DataPathView::Other { description } => (FfiDataPathKind::Other, description),
    }
}

/// Projects a data path.
pub fn ffi_data_path(path: &DataPath) -> (r: (FfiDataPathKind, String))
    ensures
        (r.0, r.1@) == data_path_of(path@),
{
    match path {
        DataPath::Direct { addr } => (FfiDataPathKind::Direct, addr.clone()),
        DataPath::Relay { url } => (FfiDataPathKind::Relay, url.clone()),
        DataPath::Other { description } => (FfiDataPathKind::Other, description.clone()),
    }
}

/// The engine role behind a native invite role.
pub open spec fn core_role_of(role: FfiInviteRole) -> Option<Role> {
    match role {
        FfiInviteRole::Send => Some(Role::Send),
        FfiInviteRole::Receive => Some(Role::Receive),
        FfiInviteRole::Unknown => None,
    }
}

/// Maps a native invite role onto the engine's.
pub fn core_invite_role(role: FfiInviteRole) -> (r: Option<Role>)
    ensures
        r == core_role_of(role),
{
    match role {
        FfiInviteRole::Send => Some(Role::Send),
        FfiInviteRole::Receive => Some(Role::Receive),
        FfiInviteRole::Unknown => None,
    }
}

/// The native role that stands for an optional engine role.
pub open spec fn ffi_role_of(role: Option<Role>) -> FfiInviteRole {
    match role {
        Some(Role::Send) => FfiInviteRole::Send,
        Some(Role::Receive) => FfiInviteRole::Receive,
        None => FfiInviteRole::Unknown,
    }
}

/// Projects an optional engine role.
pub fn ffi_invite_role(role: Option<Role>) -> (r: FfiInviteRole)
    ensures
        r == ffi_role_of(role),
{
    match role {
        Some(Role::Send) => FfiInviteRole::Send,
        Some(Role::Receive) => FfiInviteRole::Receive,
        None => FfiInviteRole::Unknown,
    }
}

/// Invite roles survive a trip through the engine in both directions.
pub proof fn invite_roles_round_trip(native: FfiInviteRole, engine: Option<Role>)
    ensures
        ffi_role_of(core_role_of(native)) == native,
        core_role_of(ffi_role_of(engine)) == engine,
{
}

/// Path policies survive a trip through the engine in both directions.
pub proof fn path_policies_round_trip(native: FfiPathPolicy, engine: PathPolicy)
    ensures
        ffi_path_policy_of(path_policy_of(native)) == native,
        path_policy_of(ffi_path_policy_of(engine)) == engine,
{
}

/// Modes, steps, policies and failures keep their names on the way to clients.
pub proof fn projected_values_keep_their_names(
    mode: TransferMode,
    step: PairingStep,
    client_policy: FfiPathPolicy,
    policy: PathPolicy,
    code: FailureCode,
    category: FailureCategory,
    origin: FailureOrigin,
    phase: FailurePhase,
    action: RecoveryAction,
)
    ensures
        mode_of(mode) is Manual <==> mode is Manual,
        mode_of(mode) is Invite <==> mode is Invite,
        mode_of(mode) is ShowManual <==> mode is ShowManual,
        mode_of(mode) is ShowInvite <==> mode is ShowInvite,
        mode_of(mode) is Mdns <==> mode is Mdns,
        mode_of(mode) is Room <==> mode is Room,
        pairing_step_of(step) is Joining <==> step is Joining,
        pairing_step_of(step) is Matched <==> step is Matched,
        pairing_step_of(step) is Exchanged <==> step is Exchanged,
        path_policy_of(client_policy) is Auto <==> client_policy is Auto,
        path_policy_of(client_policy) is RelayOnly <==> client_policy is RelayOnly,
        path_policy_of(client_policy) is DirectOnly <==> client_policy is DirectOnly,
        ffi_path_policy_of(policy) is Auto <==> policy is Auto,
        ffi_path_policy_of(policy) is RelayOnly <==> policy is RelayOnly,
        ffi_path_policy_of(policy) is DirectOnly <==> policy is DirectOnly,
        failure_code_of(code) is UserCanceled <==> code is UserCanceled,
        failure_code_of(code) is PeerCanceled <==> code is PeerCanceled,
        failure_code_of(code) is NetworkLost <==> code is NetworkLost,
        failure_code_of(code) is PeerUnreachable <==> code is PeerUnreachable,
        failure_code_of(code) is AuthenticationFailed <==> code is AuthenticationFailed,
        failure_code_of(code) is PermissionDenied <==> code is PermissionDenied,
        failure_code_of(code) is DiskFull <==> code is DiskFull,
        failure_code_of(code) is HashMismatch <==> code is HashMismatch,
        failure_code_of(code) is ProtocolError <==> code is ProtocolError,
        failure_code_of(code) is DestinationConflict <==> code is DestinationConflict,
        failure_code_of(code) is UnsupportedFeature <==> code is UnsupportedFeature,
        failure_code_of(code) is Timeout <==> code is Timeout,
        failure_code_of(code) is InternalError <==> code is InternalError,
        failure_code_of(code) is Unknown <==> code is Unknown,
        failure_category_of(category) is User <==> category is User,
        failure_category_of(category) is Network <==> category is Network,
        failure_category_of(category) is Authentication <==> category is Authentication,
        failure_category_of(category) is Permission <==> category is Permission,
        failure_category_of(category) is Storage <==> category is Storage,
        failure_category_of(category) is Integrity <==> category is Integrity,
        failure_category_of(category) is Protocol <==> category is Protocol,
        failure_category_of(category) is Unsupported <==> category is Unsupported,
        failure_category_of(category) is Internal <==> category is Internal,
        failure_category_of(category) is Unknown <==> category is Unknown,
        failure_origin_of(origin) is Local <==> origin is Local,
        failure_origin_of(origin) is Peer <==> origin is Peer,
        failure_origin_of(origin) is Unknown <==> origin is Unknown,
        failure_phase_of(phase) is Setup <==> phase is Setup,
        failure_phase_of(phase) is Binding <==> phase is Binding,
        failure_phase_of(phase) is Advertising <==> phase is Advertising,
        failure_phase_of(phase) is Pairing <==> phase is Pairing,
        failure_phase_of(phase) is Connecting <==> phase is Connecting,
        failure_phase_of(phase) is Authenticating <==> phase is Authenticating,
        failure_phase_of(phase) is Negotiating <==> phase is Negotiating,
        failure_phase_of(phase) is Transferring <==> phase is Transferring,
        failure_phase_of(phase) is Verifying <==> phase is Verifying,
        failure_phase_of(phase) is Committing <==> phase is Committing,
        failure_phase_of(phase) is Acknowledging <==> phase is Acknowledging,
        failure_phase_of(phase) is CleaningUp <==> phase is CleaningUp,
        recovery_action_of(action) is Retry <==> action is Retry,
        recovery_action_of(action) is Resume <==> action is Resume,
        recovery_action_of(action) is ChooseFolder <==> action is ChooseFolder,
        recovery_action_of(action) is OpenSettings <==> action is OpenSettings,
        recovery_action_of(action) is RePair <==> action is RePair,
        recovery_action_of(action) is UpdateApp <==> action is UpdateApp,
        recovery_action_of(action) is SwitchPairingMethod <==> action is SwitchPairingMethod,
        recovery_action_of(action) is DiscardPartial <==> action is DiscardPartial,
        recovery_action_of(action) is NoAction <==> action is NoAction,
{
}

/// A direction is told exactly where the engine knows it, and a role where the
/// client gives it.
pub proof fn directions_and_roles_are_told(direction: Option<TransferDirection>, role: FfiInviteRole)
    ensures
        direction_of(direction) is Send <==> direction is Some && direction->0 is Send,
        direction_of(direction) is Receive <==> direction is Some && direction->0 is Receive,
        direction_of(direction) is Unknown <==> direction is None,
        core_role_of(role) is None <==> role is Unknown,
        role is Send ==> core_role_of(role) is Some && core_role_of(role)->0 is Send,
        role is Receive ==> core_role_of(role) is Some && core_role_of(role)->0 is Receive,
{
}

/// A data path is told by its kind and its own address.
pub proof fn data_paths_keep_their_address(address: Seq<char>)
    ensures
        data_path_of(DataPathView::Direct { addr: address }) == (FfiDataPathKind::Direct, address),
        data_path_of(DataPathView::Relay { url: address }) == (FfiDataPathKind::Relay, address),
        data_path_of(DataPathView::Other { description: address }) == (
            FfiDataPathKind::Other,
            address,
        ),
{
}

} // verus!
