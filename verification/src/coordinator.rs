//! Split-phase coordinator for idle-only managed native writes.

use crate::authority;
use crate::authority::{
    AdmissionReceipt, AdmissionResult, AuthorityError, AuthorityRecovery, ClaimRequest,
    ControllerBirthReservation, CreateResolution, DaemonAuthority, PreparedDispatch,
    ProbeAuthorization, QuarantinedBirthReservation, ReconciliationPhase,
};
use crate::authority_model::AuthorityModel;
use crate::controller::{
    Controller, ControllerCommand, ControllerIdleGuard, ControllerProbeError,
    ControllerReconcileError, ControllerWriteError, IdleProbeResult, IdleProbeScope, NativeTurnFact,
    NativeWriteDisposition, ObservationScope, ReconciliationDisposition, ReconciliationScope,
};
use crate::ident::{ControllerBirthId, EntropyError, RequestNonce, VerifierRef};
use crate::persist::Persist;
use crate::protocol;
use crate::records::{IdempotentWrite, ThreadCreateResolution};
use crate::timestamp::Timestamp;
use vstd::prelude::*;

verus! {

/// Controller work that the coordinator gives out after a durable reservation.
/// The coordinator keeps what is needed to conclude it.
pub struct ReservedControllerWrite {
    pub lane: ControllerIdleGuard,
    pub command: ControllerCommand,
}

pub enum CoordinatedProbe {
    Ready(Box<ReservedControllerWrite>),
    HeldBeforeNativeWrite,
    IdleStateUnproven,
}

/// The state of a coordinator.
pub struct CoordinatorModel {
    pub authority: AuthorityModel,
    pub probing: Option<PreparedDispatch>,
    pub writing: Option<PreparedDispatch>,
    pub observing: Option<ObservationScope>,
    pub reconciling: Option<ReconciliationScope>,
}

impl CoordinatorModel {
    pub open spec fn with_authority(self, authority: AuthorityModel) -> CoordinatorModel {
        CoordinatorModel { authority, ..self }
    }

    /// A probe, a write or a follow-up is outstanding.
    pub open spec fn pending(self) -> bool {
        self.probing is Some || self.writing is Some || self.observing is Some
            || self.reconciling is Some
    }

    pub open spec fn prepare(
        self,
        receipt: AdmissionReceipt,
        turn_write_id: Result<RequestNonce, EntropyError>,
        probe_id: Result<RequestNonce, EntropyError>,
    ) -> (CoordinatorModel, Result<IdleProbeScope, AuthorityError>) {
        if self.probing is Some || self.writing is Some {
            (self, Err(AuthorityError::Conflict))
        } else {
            let (authority, outcome) = self.authority.prepare(receipt, turn_write_id, probe_id);
            match outcome {
                Err(error) => (self.with_authority(authority), Err(error)),
                Ok((prepared, scope)) => (
                    CoordinatorModel { authority, probing: Some(prepared), ..self },
                    Ok(scope),
                ),
            }
        }
    }

    pub open spec fn authorize(self, result: Result<IdleProbeResult, ControllerProbeError>) -> (
        CoordinatorModel,
        Result<CoordinatedProbe, AuthorityError>,
    ) {
        match self.probing {
            None => (self, Err(AuthorityError::Conflict)),
            Some(prepared) => {
                let (authority, outcome) = self.authority.authorize(prepared, result);
                let cleared = CoordinatorModel { authority, probing: None, ..self };
                match outcome {
                    Err(error) => (cleared, Err(error)),
                    Ok(ProbeAuthorization::Ready(authorized)) => (
                        CoordinatorModel { writing: Some(authorized.prepared), ..cleared },
                        Ok(
                            CoordinatedProbe::Ready(
                                Box::new(
                                    ReservedControllerWrite {
                                        lane: authorized.lane,
                                        command: authorized.command,
                                    },
                                ),
                            ),
                        ),
                    ),
                    Ok(ProbeAuthorization::HeldBeforeNativeWrite) => (
                        cleared,
                        Ok(CoordinatedProbe::HeldBeforeNativeWrite),
                    ),
                    Ok(ProbeAuthorization::IdleStateUnproven) => (
                        cleared,
                        Ok(CoordinatedProbe::IdleStateUnproven),
                    ),
                }
            },
        }
    }

    pub open spec fn conclude(
        self,
        disposition: Result<NativeWriteDisposition, ControllerWriteError>,
        evidence_ref: Result<VerifierRef, EntropyError>,
        fact_ref: Result<VerifierRef, EntropyError>,
    ) -> (CoordinatorModel, Result<(), AuthorityError>) {
        match self.writing {
            None => (self, Err(AuthorityError::Conflict)),
            Some(prepared) => {
                let (authority, outcome) = self.authority.conclude(
                    prepared,
                    disposition,
                    evidence_ref,
                    fact_ref,
                );
                let cleared = CoordinatorModel { authority, writing: None, ..self };
                match outcome {
                    Err(error) => (cleared, Err(error)),
                    Ok(conclusion) => (
                        CoordinatorModel {
                            observing: conclusion.observation_scope,
                            reconciling: conclusion.reconciliation_scope,
                            ..cleared
                        },
                        Ok(()),
                    ),
                }
            },
        }
    }

    pub open spec fn record_polled(
        self,
        fact: Option<NativeTurnFact>,
        evidence_ref: Result<VerifierRef, EntropyError>,
    ) -> (CoordinatorModel, Result<Option<IdempotentWrite>, AuthorityError>) {
        match (self.observing, fact) {
            (None, _) => (self, Err(AuthorityError::Conflict)),
            (Some(_), None) => (self, Ok(None)),
            (Some(scope), Some(fact)) => {
                let (authority, outcome) = self.authority.observe(scope, fact, evidence_ref);
                match outcome {
                    Err(error) => (self.with_authority(authority), Err(error)),
                    Ok(record) => (
                        CoordinatorModel {
                            authority,
                            observing: if fact is Terminal || record.reconciliation is Some {
                                None
                            } else {
                                self.observing
                            },
                            reconciling: record.reconciliation,
                            ..self
                        },
                        Ok(Some(record.write)),
                    ),
                }
            },
        }
    }

    pub open spec fn record_reconciled(
        self,
        disposition: Result<ReconciliationDisposition, ControllerReconcileError>,
        fact_ref: Result<VerifierRef, EntropyError>,
    ) -> (CoordinatorModel, Result<IdempotentWrite, AuthorityError>) {
        match self.reconciling {
            None => (self, Err(AuthorityError::Conflict)),
            Some(scope) => {
                let (authority, outcome) = self.authority.reconcile(scope, disposition, fact_ref);
                match outcome {
                    Err(error) => (self.with_authority(authority), Err(error)),
                    Ok((write, ReconciliationPhase::Reconciling)) => (
                        self.with_authority(authority),
                        Ok(write),
                    ),
                    Ok((write, ReconciliationPhase::Observing(scope))) => (
                        CoordinatorModel {
                            authority,
                            reconciling: None,
                            observing: Some(*scope),
                            ..self
                        },
                        Ok(write),
                    ),
                    Ok((write, ReconciliationPhase::Closed)) => (
                        CoordinatorModel { authority, reconciling: None, ..self },
                        Ok(write),
                    ),
                }
            },
        }
    }
}

/// The last element, where there is one.
pub open spec fn last_of<T>(list: Seq<T>) -> Option<T> {
    if list.len() == 0 {
        None
    } else {
        Some(list.last())
    }
}

/// A recovered coordinator: at most one follow-up may be left, and it is taken
/// up.
pub open spec fn coordinator_recovered(
    after: AuthorityModel,
    recovery: Result<AuthorityRecovery, AuthorityError>,
    result: Result<CoordinatorModel, AuthorityError>,
) -> bool {
    match recovery {
        Err(error) => result == Err::<CoordinatorModel, AuthorityError>(error),
        Ok(recovery) => result == if recovery.observation_scopes@.len()
            + recovery.reconciliation_scopes@.len() > 1 {
            Err::<CoordinatorModel, AuthorityError>(AuthorityError::Conflict)
        } else {
            Ok(
                CoordinatorModel {
                    authority: after,
                    probing: None,
                    writing: None,
                    observing: last_of(recovery.observation_scopes@),
                    reconciling: last_of(recovery.reconciliation_scopes@),
                },
            )
        },
    }
}

pub struct HostCoordinator<P: Persist> {
    authority: DaemonAuthority<P>,
    probing: Option<PreparedDispatch>,
    writing: Option<PreparedDispatch>,
    observing: Option<ObservationScope>,
    reconciling: Option<ReconciliationScope>,
}

impl<P: Persist> View for HostCoordinator<P> {
    type V = CoordinatorModel;

    closed spec fn view(&self) -> CoordinatorModel {
        CoordinatorModel {
            authority: self.authority@,
            probing: self.probing,
            writing: self.writing,
            observing: self.observing,
            reconciling: self.reconciling,
        }
    }
}

impl<P: Persist> HostCoordinator<P> {
    pub fn new(authority: DaemonAuthority<P>) -> (coordinator: Self)
        ensures
            coordinator@ == (CoordinatorModel {
                authority: authority@,
                probing: None,
                writing: None,
                observing: None,
                reconciling: None,
            }),
    {
        HostCoordinator { authority, probing: None, writing: None, observing: None, reconciling: None }
    }

    /// Recover authority and take up the one follow-up that may be left.
    pub fn recover(authority: DaemonAuthority<P>) -> (result: Result<Self, AuthorityError>)
        ensures
            exists|after: AuthorityModel, recovery: Result<AuthorityRecovery, AuthorityError>|
                #[trigger] authority::recovery_of(authority@, after, recovery)
                    && coordinator_recovered(
                    after,
                    recovery,
                    match result {
                        Ok(coordinator) => Ok(coordinator@),
                        Err(error) => Err(error),
                    },
                ),
    {
        let mut authority = authority;
        let ghost before = authority@;
        let recovered = authority.recover();
        let ghost recovery = recovered;
        assert(authority::recovery_of(before, authority@, recovery));
        let (observing, reconciling) = match recovered {
            Ok(recovery) => recovery.into_followup_scopes(),
            Err(error) => return Err(error),
        };
        let mut observing = observing;
        let mut reconciling = reconciling;
        if observing.len() > 1 || reconciling.len() > 1 || (observing.len() == 1
            && reconciling.len() == 1) {
            return Err(AuthorityError::Conflict);
        }
        let observing = observing.pop();
        let reconciling = reconciling.pop();
        Ok(HostCoordinator { authority, probing: None, writing: None, observing, reconciling })
    }

    /// The authority, for inspection and for the private native adapter.
    pub fn authority_mut(&mut self) -> (authority: &mut DaemonAuthority<P>)
        ensures
            authority@ == old(self)@.authority,
            final(self)@ == old(self)@.with_authority(final(authority)@),
    {
        &mut self.authority
    }

    /// Admit one claim.
    pub fn admit_claim(&mut self, request: &ClaimRequest) -> (result: Result<
        AdmissionResult,
        AuthorityError,
    >)
        ensures
            exists|verifier_ref: Result<VerifierRef, EntropyError>|
                authority::admitted(
                    #[trigger] old(self)@.authority.accept_claim(
                        request.arm_id@,
                        request.request_id@,
                        request.signal_id@,
                        protocol::event_models(request.events@),
                        verifier_ref,
                    ),
                    final(self)@.authority,
                    result,
                ),
            final(self)@ == old(self)@.with_authority(final(self)@.authority),
    {
        assert(self@.authority == self.authority@);
        let result = self.authority.admit_claim(request);
        assert(self@.authority == self.authority@);
        result
    }

    pub fn reserve_controller_birth(&mut self, arm_id: &str) -> (result: Result<
        ControllerBirthReservation,
        AuthorityError,
    >)
        ensures
            exists|
                birth_id: Result<ControllerBirthId, EntropyError>,
                create_attempt_id: Result<RequestNonce, EntropyError>,
                verifier_ref: Result<VerifierRef, EntropyError>,
            |
                (final(self)@.authority, result) == #[trigger] old(self)@.authority.reserve_birth(
                    arm_id@,
                    birth_id,
                    create_attempt_id,
                    verifier_ref,
                ),
            final(self)@ == old(self)@.with_authority(final(self)@.authority),
    {
        assert(self@.authority == self.authority@);
        let result = self.authority.reserve_controller_birth(arm_id);
        assert(self@.authority == self.authority@);
        result
    }

    pub fn resolve_thread_create(
        &mut self,
        reservation: ControllerBirthReservation,
        resolution: ThreadCreateResolution,
    ) -> (result: Result<CreateResolution, AuthorityError>)
        ensures
            exists|evidence_ref: Result<VerifierRef, EntropyError>|
                (final(self)@.authority, result) == #[trigger] old(self)@.authority.resolve_create(
                    reservation,
                    resolution,
                    evidence_ref,
                ),
            final(self)@ == old(self)@.with_authority(final(self)@.authority),
    {
        assert(self@.authority == self.authority@);
        let result = self.authority.resolve_thread_create(reservation, resolution);
        assert(self@.authority == self.authority@);
        result
    }

    pub fn resolve_quarantined_thread_create(
        &mut self,
        reservation: QuarantinedBirthReservation,
        resolution: ThreadCreateResolution,
    ) -> (result: Result<IdempotentWrite, AuthorityError>)
        ensures
            exists|evidence_ref: Result<VerifierRef, EntropyError>|
                (final(self)@.authority, result)
                    == #[trigger] old(self)@.authority.resolve_quarantined(
                    reservation,
                    resolution,
                    evidence_ref,
                ),
            final(self)@ == old(self)@.with_authority(final(self)@.authority),
    {
        assert(self@.authority == self.authority@);
        let result = self.authority.resolve_quarantined_thread_create(reservation, resolution);
        assert(self@.authority == self.authority@);
        result
    }

    pub fn set_now(&mut self, now: Timestamp)
        ensures
            final(self)@ == old(self)@.with_authority(
                (AuthorityModel { now, ..old(self)@.authority }),
            ),
    {
        self.authority.set_now(now);
    }

    /// Record dispatch preparation and return only an exact probe scope.
    pub fn prepare(&mut self, receipt: AdmissionReceipt) -> (result: Result<
        IdleProbeScope,
        AuthorityError,
    >)
        ensures
            exists|
                turn_write_id: Result<RequestNonce, EntropyError>,
                probe_id: Result<RequestNonce, EntropyError>,
            |
                (final(self)@, result) == #[trigger] old(self)@.prepare(
                    receipt,
                    turn_write_id,
                    probe_id,
                ),
    {
        let turn_write_id = RequestNonce::random();
        let probe_id = RequestNonce::random();
        self.prepare_with(receipt, turn_write_id, probe_id)
    }

    /// [`Self::prepare`] with the random values that were drawn.
    pub fn prepare_with(
        &mut self,
        receipt: AdmissionReceipt,
        turn_write_id: Result<RequestNonce, EntropyError>,
        probe_id: Result<RequestNonce, EntropyError>,
    ) -> (result: Result<IdleProbeScope, AuthorityError>)
        ensures
            (final(self)@, result) == old(self)@.prepare(receipt, turn_write_id, probe_id),
    {
        if self.probing.is_some() || self.writing.is_some() {
            return Err(AuthorityError::Conflict);
        }
        match self.authority.prepare_handle_claimed_signal_with(receipt, turn_write_id, probe_id) {
            Ok((prepared, scope)) => {
                self.probing = Some(prepared);
                Ok(scope)
            },
            Err(error) => Err(error),
        }
    }

    /// Validate one exact probe. Active and unproven results clear the pending
    /// action after a durable zero-write conclusion.
    pub fn authorize_probe(&mut self, result: Result<IdleProbeResult, ControllerProbeError>) -> (
        authorized: Result<CoordinatedProbe, AuthorityError>)
        ensures
            (final(self)@, authorized) == old(self)@.authorize(result),
    {
        let prepared = match self.probing.take() {
            Some(prepared) => prepared,
            None => return Err(AuthorityError::Conflict),
        };
        match self.authority.authorize_probe(prepared, result) {
            Ok(ProbeAuthorization::Ready(authorized)) => {
                let (prepared, lane, command) = (*authorized).into_parts();
                self.writing = Some(prepared);
                Ok(CoordinatedProbe::Ready(Box::new(ReservedControllerWrite { lane, command })))
            },
            Ok(ProbeAuthorization::HeldBeforeNativeWrite) => Ok(
                CoordinatedProbe::HeldBeforeNativeWrite,
            ),
            Ok(ProbeAuthorization::IdleStateUnproven) => Ok(CoordinatedProbe::IdleStateUnproven),
            Err(error) => Err(error),
        }
    }

    /// Conclude the one outstanding native write.
    pub fn conclude_native_write(
        &mut self,
        disposition: Result<NativeWriteDisposition, ControllerWriteError>,
    ) -> (result: Result<(), AuthorityError>)
        ensures
            exists|
                evidence_ref: Result<VerifierRef, EntropyError>,
                fact_ref: Result<VerifierRef, EntropyError>,
            |
                (final(self)@, result) == #[trigger] old(self)@.conclude(
                    disposition,
                    evidence_ref,
                    fact_ref,
                ),
    {
        let evidence_ref = VerifierRef::random();
        let fact_ref = VerifierRef::random();
        self.conclude_native_write_with(disposition, evidence_ref, fact_ref)
    }

    /// [`Self::conclude_native_write`] with the random values that were drawn.
    pub fn conclude_native_write_with(
        &mut self,
        disposition: Result<NativeWriteDisposition, ControllerWriteError>,
        evidence_ref: Result<VerifierRef, EntropyError>,
        fact_ref: Result<VerifierRef, EntropyError>,
    ) -> (result: Result<(), AuthorityError>)
        ensures
            (final(self)@, result) == old(self)@.conclude(disposition, evidence_ref, fact_ref),
    {
        let prepared = match self.writing.take() {
            Some(prepared) => prepared,
            None => return Err(AuthorityError::Conflict),
        };
        match self.authority.conclude_native_write_with(
            prepared,
            disposition,
            evidence_ref,
            fact_ref,
        ) {
            Ok(conclusion) => {
                let (observing, reconciling) = conclusion.into_scopes();
                self.observing = observing;
                self.reconciling = reconciling;
                Ok(())
            },
            Err(error) => Err(error),
        }
    }

    /// Poll the controller for the observed turn and record what it reports.
    pub fn poll_and_record_exact<C: Controller>(&mut self, controller: &mut C) -> (result: Result<
        Option<IdempotentWrite>,
        AuthorityError,
    >)
        requires
            old(self)@.observing is Some ==> old(controller).can_poll(),
        ensures
            match old(self)@.observing {
                None => *final(controller) == *old(controller) && final(self)@ == old(self)@
                    && result == Err::<Option<IdempotentWrite>, AuthorityError>(
                    AuthorityError::Conflict,
                ),
                Some(scope) => exists|
                    fact: Option<NativeTurnFact>,
                    evidence_ref: Result<VerifierRef, EntropyError>,
                | C::polled(*old(controller), scope, fact, *final(controller)) && (
                final(self)@, result) == #[trigger] old(self)@.record_polled(fact, evidence_ref),
            },
    {
        let scope = match self.observing.take() {
            Some(scope) => scope,
            None => return Err(AuthorityError::Conflict),
        };
        let fact = controller.poll_exact_observation(&scope);
        self.observing = Some(scope);
        let evidence_ref = VerifierRef::random();
        self.record_polled_with(fact, evidence_ref)
    }

    /// Record what a poll of the observed turn reported.
    pub fn record_polled_with(
        &mut self,
        fact: Option<NativeTurnFact>,
        evidence_ref: Result<VerifierRef, EntropyError>,
    ) -> (result: Result<Option<IdempotentWrite>, AuthorityError>)
        ensures
            (final(self)@, result) == old(self)@.record_polled(fact, evidence_ref),
    {
        let scope = match self.observing.take() {
            Some(scope) => scope,
            None => return Err(AuthorityError::Conflict),
        };
        let fact = match fact {
            Some(fact) => fact,
            None => {
                self.observing = Some(scope);
                return Ok(None);
            },
        };
        let terminal = match fact {
            NativeTurnFact::Terminal { .. } => true,
            _ => false,
        };
        match self.authority.record_exact_observation_with(&scope, fact, evidence_ref) {
            Ok(record) => {
                if !terminal && record.reconciliation.is_none() {
                    self.observing = Some(scope);
                }
                self.reconciling = record.reconciliation;
                Ok(Some(record.write))
            },
            Err(error) => {
                self.observing = Some(scope);
                Err(error)
            },
        }
    }

    /// Reconcile the unknown turn with the controller and record the outcome.
    pub fn reconcile_and_record<C: Controller>(&mut self, controller: &mut C) -> (result: Result<
        IdempotentWrite,
        AuthorityError,
    >)
        ensures
            match old(self)@.reconciling {
                None => *final(controller) == *old(controller) && final(self)@ == old(self)@
                    && result == Err::<IdempotentWrite, AuthorityError>(AuthorityError::Conflict),
                Some(scope) => exists|
                    disposition: Result<ReconciliationDisposition, ControllerReconcileError>,
                    fact_ref: Result<VerifierRef, EntropyError>,
                | C::reconciled(*old(controller), scope, disposition, *final(controller)) && (
                final(self)@, result) == #[trigger] old(self)@.record_reconciled(
                    disposition,
                    fact_ref,
                ),
            },
    {
        let scope = match self.reconciling.take() {
            Some(scope) => scope,
            None => return Err(AuthorityError::Conflict),
        };
        let disposition = controller.reconcile_exact(&scope);
        self.reconciling = Some(scope);
        let fact_ref = VerifierRef::random();
        self.record_reconciled_with(disposition, fact_ref)
    }

    /// Record the outcome of a reconciliation.
    pub fn record_reconciled_with(
        &mut self,
        disposition: Result<ReconciliationDisposition, ControllerReconcileError>,
        fact_ref: Result<VerifierRef, EntropyError>,
    ) -> (result: Result<IdempotentWrite, AuthorityError>)
        ensures
            (final(self)@, result) == old(self)@.record_reconciled(disposition, fact_ref),
    {
        let scope = match self.reconciling.take() {
            Some(scope) => scope,
            None => return Err(AuthorityError::Conflict),
        };
        match self.authority.record_reconciliation_with(&scope, disposition, fact_ref) {
            Ok((write, phase)) => {
                match phase {
                    ReconciliationPhase::Reconciling => {
                        self.reconciling = Some(scope);
                    },
                    ReconciliationPhase::Observing(observed) => {
                        self.observing = Some(*observed);
                    },
                    ReconciliationPhase::Closed => {},
                }
                Ok(write)
            },
            Err(error) => {
                self.reconciling = Some(scope);
                Err(error)
            },
        }
    }

    pub fn has_pending_native_authority(&self) -> (pending: bool)
        ensures
            pending == self@.pending(),
    {
        self.probing.is_some() || self.writing.is_some() || self.observing.is_some()
            || self.reconciling.is_some()
    }
}

} // verus!
