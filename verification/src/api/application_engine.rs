//! The application engine of a native host: what it does around the engine's
//! snapshot and the durable store, and the relationships that wait for a
//! decision.
use vstd::prelude::*;

use crate::api::contract::{
    ApplicationErrorView, FfiApplicationCommandEnvelope, FfiApplicationEffectEnvelope,
    FfiApplicationError, FfiApplicationErrorCode, FfiApplicationSnapshot, FfiApplyOutcome,
    FfiPreparedRelationship, FfiRememberedRelationship, FfiRememberedRelationshipMaterial,
    MaterialView, PreparedRelationshipView, RememberedView, MAX_PENDING_RELATIONSHIPS,
};
use crate::api::contract_engine::{
    ApplyError, ApplyOutcome, DeviceEntryView, EffectEnvelope, EngineSnapshot, EngineStoreError,
    PreparedDeviceView, PreparedRememberedDevice, RememberedDeviceRecord,
};
use crate::api::contract_map::{
    apply_error, apply_error_code_of, apply_error_of, command_identifiers, command_identifiers_of,
    ffi_apply_outcome, ffi_apply_outcome_of, ffi_effect_envelope, ffi_effect_envelope_of,
    ffi_remembered_of, ffi_remembered_relationship, ffi_remembered_relationships, ffi_snapshot,
    ffi_snapshot_of, identifier, invalid_input, invalid_input_of, state_unavailable,
    state_unavailable_of, store_error, store_error_code_of, store_error_of, Identifier,
    IdentifierKind,
};
use crate::paths::{can_be_absolute, path_is_absolute};
use crate::text_map::TextMap;

verus! {

broadcast use vstd::seq_lib::group_seq_properties;

/// The value of a field, unless it is empty.
pub open spec fn non_empty_text(value: Seq<char>) -> Option<Seq<char>> {
    if value.len() == 0 {
        None
    } else {
        Some(value)
    }
}

/// The value of a field, unless it is empty. Blanks count as a value.
pub fn non_empty_string(value: &str) -> (r: Option<&str>)
    ensures
        (match r {
            Some(text) => Some(text@),
            None => None,
        }) == non_empty_text(value@),
{
    if value.is_empty() {
        None
    } else {
        Some(value)
    }
}

/// What an event or a durable operation was refused with.
pub enum EngineRefusal {
    Apply(ApplyError),
    Store(EngineStoreError),
}

/// The native form of a refusal.
pub open spec fn refusal_of(refusal: EngineRefusal) -> ApplicationErrorView {
    match refusal {
        EngineRefusal::Apply(error) => apply_error_of(error@),
        EngineRefusal::Store(error) => store_error_of(error@),
    }
}

/// The state around the engine.
#[verifier::ext_equal]
pub struct ApplicationEngineView {
    /// Whether the state is durable.
    pub persistent: bool,
    /// The prepared relationships, by identifier.
    pub pending: Map<Seq<char>, PreparedDeviceView>,
}

/// The refusal to keep relationships in an engine whose state is not durable.
pub open spec fn not_persistent() -> ApplicationErrorView {
    state_unavailable_of("Relationship persistence requires a persistent application Engine"@)
}

impl ApplicationEngineView {
    /// At most [`MAX_PENDING_RELATIONSHIPS`] wait, and none without durable
    /// state.
    pub open spec fn wf(self) -> bool {
        &&& self.pending.dom().finite()
        &&& self.pending.dom().len() <= MAX_PENDING_RELATIONSHIPS
        &&& !self.persistent ==> self.pending =~= Map::empty()
    }

    /// Why no relationship can be prepared now, if none can.
    pub open spec fn prepare_refusal(self) -> Option<ApplicationErrorView> {
        if self.pending.dom().len() >= MAX_PENDING_RELATIONSHIPS {
            Some(invalid_input_of("too many pending Relationships"@))
        } else if !self.persistent {
            Some(not_persistent())
        } else {
            None
        }
    }

    /// Why a relationship cannot be committed now, if it cannot.
    pub open spec fn commit_refusal(self, id: Seq<char>) -> Option<ApplicationErrorView> {
        if !self.pending.contains_key(id) {
            Some(invalid_input_of("prepared Relationship is missing or expired"@))
        } else if !self.persistent {
            Some(not_persistent())
        } else {
            None
        }
    }
}

/// The application engine of a native host.
pub struct FfiApplicationEngine {
    persistent: bool,
    pending: TextMap<PreparedRememberedDevice>,
}

impl View for FfiApplicationEngine {
    type V = ApplicationEngineView;

    closed spec fn view(&self) -> ApplicationEngineView {
        ApplicationEngineView {
            persistent: self.persistent,
            pending: self.pending@.map_values(|device: PreparedRememberedDevice| device@),
        }
    }
}

/// Whether a state directory can be used: it has to be absolute.
pub fn require_state_directory(absolute: bool) -> (r: Result<(), FfiApplicationError>)
    ensures
        match r {
            Ok(_) => absolute,
            Err(error) => !absolute && error@ == invalid_input_of(
                "persistent Engine state directory must be absolute"@,
            ),
        },
{
    if absolute {
        Ok(())
    } else {
        Err(invalid_input("persistent Engine state directory must be absolute"))
    }
}

/// Checks a state directory before it is opened.
pub fn check_state_directory(state_directory: &str) -> (r: Result<(), FfiApplicationError>)
    ensures
        can_be_absolute(state_directory@, r is Ok),
        r matches Err(error) ==> error@ == invalid_input_of(
            "persistent Engine state directory must be absolute"@,
        ),
{
    require_state_directory(path_is_absolute(state_directory))
}

/// The engine's answer to one record of a durable device.
pub open spec fn present_record(record: Option<DeviceEntryView>, missing: Seq<char>) -> Result<
    RememberedView,
    ApplicationErrorView,
> {
    match record {
        Some(record) => Ok(ffi_remembered_of(record)),
        None => Err(state_unavailable_of(missing)),
    }
}

/// The view of an optional record.
pub open spec fn record_view(record: Option<RememberedDeviceRecord>) -> Option<DeviceEntryView> {
    match record {
        Some(record) => Some(record@),
        None => None,
    }
}

/// The view of a reported relationship.
pub open spec fn remembered_result(
    result: Result<FfiRememberedRelationship, FfiApplicationError>,
) -> Result<RememberedView, ApplicationErrorView> {
    match result {
        Ok(relationship) => Ok(relationship@),
        Err(error) => Err(error@),
    }
}

fn report_record(record: &Option<RememberedDeviceRecord>, missing: &str) -> (r: Result<
    FfiRememberedRelationship,
    FfiApplicationError,
>)
    ensures
        remembered_result(r) == present_record(record_view(*record), missing@),
{
    match record {
        Some(record) => Ok(ffi_remembered_relationship(record)),
        None => Err(state_unavailable(missing)),
    }
}

impl FfiApplicationEngine {
    /// An engine in memory, for contract tests and transient previews.
    pub fn new() -> (r: Self)
        ensures
            r@ == (ApplicationEngineView { persistent: false, pending: Map::empty() }),
            r@.wf(),
    {
        let r = FfiApplicationEngine { persistent: false, pending: TextMap::new() };
        assert(r@.pending =~= Map::empty());
        r
    }

    /// The single durable engine of a checked state directory. `opened` is what
    /// came of opening it.
    pub fn open_persistent(opened: &Result<(), EngineStoreError>) -> (r: Result<
        Self,
        FfiApplicationError,
    >)
        ensures
            match (r, *opened) {
                (Ok(engine), Ok(_)) => engine@ == (ApplicationEngineView {
                    persistent: true,
                    pending: Map::empty(),
                }) && engine@.wf(),
                (Err(error), Err(cause)) => error@ == store_error_of(cause@),
                _ => false,
            },
    {
        match opened {
            Ok(_) => {
                let engine = FfiApplicationEngine { persistent: true, pending: TextMap::new() };
                assert(engine@.pending =~= Map::empty());
                Ok(engine)
            },
            Err(cause) => Err(store_error(cause)),
        }
    }

    /// The snapshot that clients show.
    pub fn snapshot(&self, snapshot: &EngineSnapshot) -> (r: FfiApplicationSnapshot)
        ensures
            r@ == ffi_snapshot_of(snapshot@),
    {
        ffi_snapshot(snapshot)
    }

    /// Reports what came of applying an event.
    pub fn apply(&self, outcome: &Result<ApplyOutcome, EngineRefusal>) -> (r: Result<
        FfiApplyOutcome,
        FfiApplicationError,
    >)
        ensures
            match (r, *outcome) {
                (Ok(shown), Ok(outcome)) => shown == ffi_apply_outcome_of(outcome),
                (Err(error), Err(refusal)) => error@ == refusal_of(refusal),
                _ => false,
            },
    {
        match outcome {
            Ok(outcome) => Ok(ffi_apply_outcome(*outcome)),
            Err(EngineRefusal::Apply(error)) => Err(apply_error(error)),
            Err(EngineRefusal::Store(error)) => Err(store_error(error)),
        }
    }

    /// Reports what the engine decided on a command.
    pub fn decide(&self, decision: &Result<EffectEnvelope, ApplyError>) -> (r: Result<
        FfiApplicationEffectEnvelope,
        FfiApplicationError,
    >)
        ensures
            match (r, *decision) {
                (Ok(shown), Ok(effect)) => shown@ == ffi_effect_envelope_of(effect@),
                (Err(error), Err(refusal)) => error@ == apply_error_of(refusal@),
                _ => false,
            },
    {
        match decision {
            Ok(effect) => Ok(ffi_effect_envelope(effect)),
            Err(error) => Err(apply_error(error)),
        }
    }

    /// Why no relationship can be prepared now, if none can. The store is asked
    /// to prepare one only where nothing stands against it.
    pub fn prepare_refusal(&self) -> (r: Option<FfiApplicationError>)
        ensures
            (match r {
                Some(error) => Some(error@),
                None => None,
            }) == self@.prepare_refusal(),
    {
        assert(self@.pending.dom() =~= self.pending@.dom());
        if self.pending.len() >= MAX_PENDING_RELATIONSHIPS {
            Some(invalid_input("too many pending Relationships"))
        } else if !self.persistent {
            Some(
                state_unavailable(
                    "Relationship persistence requires a persistent application Engine",
                ),
            )
        } else {
            None
        }
    }

    /// Keeps a prepared relationship until it is committed or discarded.
    /// `prepared` is what the store made of the request.
    pub fn prepare_relationship(
        &mut self,
        prepared: Result<PreparedRememberedDevice, EngineStoreError>,
    ) -> (r: Result<FfiPreparedRelationship, FfiApplicationError>)
        requires
            old(self)@.wf(),
        ensures
            final(self)@.wf(),
            match r {
                Ok(relationship) => {
                    &&& old(self)@.prepare_refusal() is None
                    &&& prepared matches Ok(device) && relationship@ == (PreparedRelationshipView {
                        relationship_id: device@.id,
                        label: device@.label,
                    }) && final(self)@ == (ApplicationEngineView {
                        pending: old(self)@.pending.insert(device@.id, device@),
                        ..old(self)@
                    })
                },
                Err(error) => {
                    &&& final(self)@ == old(self)@
                    &&& match old(self)@.prepare_refusal() {
                        Some(refusal) => error@ == refusal,
                        None => prepared matches Err(cause) && error@ == store_error_of(cause@),
                    }
                },
            },
    {
        if let Some(error) = self.prepare_refusal() {
            return Err(error);
        }
        match prepared {
            Err(cause) => Err(store_error(&cause)),
            Ok(device) => {
                let ghost before = self@;
                let relationship = FfiPreparedRelationship {
                    relationship_id: device.id.clone(),
                    label: device.label.clone(),
                };
                let id = device.id.clone();
                self.pending.insert(id, device);
                assert(self@.pending =~= before.pending.insert(device@.id, device@));
                Ok(relationship)
            },
        }
    }

    /// Drops a prepared relationship; one that does not wait is no error.
    pub fn discard_prepared_relationship(&mut self, relationship_id: &str) -> (r: Result<
        (),
        FfiApplicationError,
    >)
        requires
            old(self)@.wf(),
        ensures
            final(self)@.wf(),
            match r {
                Ok(_) => old(self)@.persistent && final(self)@ == (ApplicationEngineView {
                    pending: old(self)@.pending.remove(relationship_id@),
                    ..old(self)@
                }),
                Err(error) => !old(self)@.persistent && error@ == not_persistent() && final(self)@
                    == old(self)@,
            },
    {
        if !self.persistent {
            return Err(
                state_unavailable(
                    "Relationship persistence requires a persistent application Engine",
                ),
            );
        }
        let ghost before = self@;
        self.pending.remove(relationship_id);
        assert(self@.pending =~= before.pending.remove(relationship_id@));
        Ok(())
    }

    /// The prepared relationship that a commit is about, or why it cannot be
    /// committed.
    pub fn relationship_to_commit(&self, relationship_id: &str) -> (r: Result<
        PreparedRememberedDevice,
        FfiApplicationError,
    >)
        ensures
            match r {
                Ok(device) => self@.commit_refusal(relationship_id@) is None && device@
                    == self@.pending[relationship_id@],
                Err(error) => self@.commit_refusal(relationship_id@) == Some(error@),
            },
    {
        match self.pending.get(relationship_id) {
            None => Err(invalid_input("prepared Relationship is missing or expired")),
            Some(device) => if self.persistent {
                Ok(device.clone())
            } else {
                Err(
                    state_unavailable(
                        "Relationship persistence requires a persistent application Engine",
                    ),
                )
            },
        }
    }

    /// Ends the wait of a relationship that the store committed. `record` is
    /// what the store then holds of it. A refused commit keeps it waiting.
    pub fn commit_relationship(
        &mut self,
        relationship_id: &str,
        committed: &Result<(), EngineStoreError>,
        record: &Option<RememberedDeviceRecord>,
    ) -> (r: Result<FfiRememberedRelationship, FfiApplicationError>)
        requires
            old(self)@.wf(),
        ensures
            final(self)@.wf(),
            match old(self)@.commit_refusal(relationship_id@) {
                Some(refusal) => final(self)@ == old(self)@ && remembered_result(r) == Err::<
                    RememberedView,
                    ApplicationErrorView,
                >(refusal),
                None => match *committed {
                    Err(cause) => final(self)@ == old(self)@ && remembered_result(r) == Err::<
                        RememberedView,
                        ApplicationErrorView,
                    >(store_error_of(cause@)),
                    Ok(_) => final(self)@ == (ApplicationEngineView {
                        pending: old(self)@.pending.remove(relationship_id@),
                        ..old(self)@
                    }) && remembered_result(r) == present_record(
                        record_view(*record),
                        "committed Relationship is missing"@,
                    ),
                },
            },
    {
        if let Err(error) = self.relationship_to_commit(relationship_id) {
            return Err(error);
        }
        if let Err(cause) = committed {
            return Err(store_error(cause));
        }
        let ghost before = self@;
        self.pending.remove(relationship_id);
        assert(self@.pending =~= before.pending.remove(relationship_id@));
        report_record(record, "committed Relationship is missing")
    }

    fn require_persistent(&self) -> (r: Result<(), FfiApplicationError>)
        ensures
            match r {
                Ok(_) => self@.persistent,
                Err(error) => !self@.persistent && error@ == not_persistent(),
            },
    {
        if self.persistent {
            Ok(())
        } else {
            Err(
                state_unavailable(
                    "Relationship persistence requires a persistent application Engine",
                ),
            )
        }
    }

    /// The durable relationships, without their credentials.
    pub fn relationships(&self, records: &Vec<RememberedDeviceRecord>) -> (r: Result<
        Vec<FfiRememberedRelationship>,
        FfiApplicationError,
    >)
        ensures
            match r {
                Ok(list) => self@.persistent && list@.map_values(
                    |x: FfiRememberedRelationship| x@,
                ) == records@.map_values(|x: RememberedDeviceRecord| x@).map_values(
                    |x: DeviceEntryView| ffi_remembered_of(x),
                ),
                Err(error) => !self@.persistent && error@ == not_persistent(),
            },
    {
        match self.require_persistent() {
            Err(error) => Err(error),
            Ok(_) => Ok(ffi_remembered_relationships(records)),
        }
    }

    /// One relationship with its credential, for an immediate authentication.
    pub fn load_relationship(
        &self,
        record: &Option<RememberedDeviceRecord>,
        credential: &Result<Vec<u8>, EngineStoreError>,
    ) -> (r: Result<Option<FfiRememberedRelationshipMaterial>, FfiApplicationError>)
        ensures
            match r {
                Ok(Some(material)) => self@.persistent && (*record matches Some(found)
                    && *credential matches Ok(bytes) && material@ == (MaterialView {
                    relationship: ffi_remembered_of(found@),
                    opaque_credential: bytes@,
                })),
                Ok(None) => self@.persistent && *record is None,
                Err(error) => if self@.persistent {
                    *record is Some && (*credential matches Err(cause) && error@ == store_error_of(
                        cause@,
                    ))
                } else {
                    error@ == not_persistent()
                },
            },
    {
        if let Err(error) = self.require_persistent() {
            return Err(error);
        }
        match record {
            None => Ok(None),
            Some(record) => match credential {
                Err(cause) => Err(store_error(cause)),
                Ok(bytes) => {
                    let opaque_credential = bytes.clone();
                    assert(opaque_credential@ =~= bytes@);
                    Ok(
                        Some(
                            FfiRememberedRelationshipMaterial {
                                relationship: ffi_remembered_relationship(record),
                                opaque_credential,
                            },
                        ),
                    )
                },
            },
        }
    }

    /// Reports a rotated relationship. `record` is what the store holds of it
    /// afterwards.
    pub fn rotate_relationship(
        &self,
        rotated: &Result<(), EngineStoreError>,
        record: &Option<RememberedDeviceRecord>,
    ) -> (r: Result<FfiRememberedRelationship, FfiApplicationError>)
        ensures
            remembered_result(r) == (if !self@.persistent {
                Err(not_persistent())
            } else {
                match *rotated {
                    Err(cause) => Err(store_error_of(cause@)),
                    Ok(_) => present_record(
                        record_view(*record),
                        "rotated Relationship is missing"@,
                    ),
                }
            }),
    {
        if let Err(error) = self.require_persistent() {
            return Err(error);
        }
        match rotated {
            Err(cause) => Err(store_error(cause)),
            Ok(_) => report_record(record, "rotated Relationship is missing"),
        }
    }

    /// Reports a renamed relationship.
    pub fn rename_relationship(&self, renamed: &Result<RememberedDeviceRecord, EngineStoreError>) -> (r:
        Result<FfiRememberedRelationship, FfiApplicationError>)
        ensures
            remembered_result(r) == (if !self@.persistent {
                Err(not_persistent())
            } else {
                match *renamed {
                    Err(cause) => Err(store_error_of(cause@)),
                    Ok(record) => Ok(ffi_remembered_of(record@)),
                }
            }),
    {
        if let Err(error) = self.require_persistent() {
            return Err(error);
        }
        match renamed {
            Err(cause) => Err(store_error(cause)),
            Ok(record) => Ok(ffi_remembered_relationship(record)),
        }
    }

    /// Reports a revoked relationship as it last was.
    pub fn revoke_relationship(&self, revoked: &Result<RememberedDeviceRecord, EngineStoreError>) -> (r:
        Result<FfiRememberedRelationship, FfiApplicationError>)
        ensures
            remembered_result(r) == (if !self@.persistent {
                Err(not_persistent())
            } else {
                match *revoked {
                    Err(cause) => Err(store_error_of(cause@)),
                    Ok(record) => Ok(ffi_remembered_of(record@)),
                }
            }),
    {
        self.rename_relationship(revoked)
    }
}

/// The identifiers that the engine has to accept before a command counts: the
/// command's own identity first.
pub fn command_envelope_identifiers(envelope: &FfiApplicationCommandEnvelope) -> (r: Vec<Identifier>)
    ensures
        r@.map_values(|x: Identifier| x@) == seq![
            identifier(IdentifierKind::Command, envelope@.command_id),
        ] + command_identifiers_of(envelope@.command),
{
    let mut ids: Vec<Identifier> = Vec::new();
    ids.push(
        Identifier { kind: IdentifierKind::Command, text: envelope.command_id.clone() },
    );
    let mut rest = command_identifiers(&envelope.command);
    let ghost named = ids@;
    let ghost others = rest@;
    ids.append(&mut rest);
    assert(ids@ =~= named + others);
    assert(ids@.map_values(|x: Identifier| x@) =~= named.map_values(|x: Identifier| x@)
        + others.map_values(|x: Identifier| x@));
    assert(named.map_values(|x: Identifier| x@) =~= seq![
        identifier(IdentifierKind::Command, envelope@.command_id),
    ]);
    ids
}

/// Where the limit is reached, discarding a relationship that waits makes room
/// for another.
pub proof fn discarding_makes_room(engine: ApplicationEngineView, id: Seq<char>)
    requires
        engine.wf(),
        engine.persistent,
        engine.pending.contains_key(id),
    ensures
        (ApplicationEngineView { pending: engine.pending.remove(id), ..engine }).prepare_refusal()
            is None,
{
    let rest = engine.pending.remove(id);
    assert(rest.dom() =~= engine.pending.dom().remove(id));
}

/// A relationship can be prepared exactly in a persistent engine with room for it,
/// and committed exactly where it was prepared.
pub proof fn relationships_are_prepared_then_committed(engine: ApplicationEngineView, id: Seq<char>)
    requires
        engine.wf(),
    ensures
        engine.prepare_refusal() is None <==> engine.persistent && engine.pending.dom().len()
            < 64,
        engine.commit_refusal(id) is None <==> engine.pending.contains_key(id),
        !engine.persistent ==> !engine.pending.contains_key(id),
        engine.pending.dom().len() >= 64 ==> engine.prepare_refusal()
            == Some(
            ApplicationErrorView::Failed {
                code: FfiApplicationErrorCode::InvalidInput,
                reason: "too many pending Relationships"@,
            },
        ),
        !engine.pending.contains_key(id) ==> engine.commit_refusal(id) == Some(
            ApplicationErrorView::Failed {
                code: FfiApplicationErrorCode::InvalidInput,
                reason: "prepared Relationship is missing or expired"@,
            },
        ),
        !engine.persistent && engine.pending.dom().len() < 64
            ==> engine.prepare_refusal() == Some(
            ApplicationErrorView::Failed {
                code: FfiApplicationErrorCode::StateUnavailable,
                reason: "Relationship persistence requires a persistent application Engine"@,
            },
        ),
{
}

/// A record that was stored is shown, and one that is missing is told as such. An
/// empty text is none.
pub proof fn stored_records_are_shown(record: DeviceEntryView, missing: Seq<char>, text: Seq<char>)
    ensures
        present_record(Some(record), missing) == Ok::<RememberedView, ApplicationErrorView>(
            ffi_remembered_of(record),
        ),
        present_record(None, missing) == Err::<RememberedView, ApplicationErrorView>(
            ApplicationErrorView::Failed {
                code: FfiApplicationErrorCode::StateUnavailable,
                reason: missing,
            },
        ),
        text.len() > 0 ==> non_empty_text(text) == Some(text),
        text.len() == 0 ==> non_empty_text(text) is None,
{
}

/// What the engine refuses is told by its kind: an event that cannot be applied by
/// its code, and a store that fails by its own.
pub proof fn refusals_are_told_by_their_kind(refusal: EngineRefusal)
    ensures
        refusal matches EngineRefusal::Apply(error) ==> refusal_of(refusal) == (
        ApplicationErrorView::Failed {
            code: apply_error_code_of(error@.code),
            reason: error@.message,
        }),
        refusal matches EngineRefusal::Store(error) ==> refusal_of(refusal) == (
        ApplicationErrorView::Failed {
            code: store_error_code_of(error@.kind),
            reason: error@.message,
        }),
{
}

} // verus!
