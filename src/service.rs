use crate::applications::{
    ApplicantProfile, ApplicationId, ApplicationSubmission, VacancyApplicationStatus,
};
use crate::compliance::{
    first_violation, sanitized_multiplier, ComplianceGuard, ComplianceViolation,
};
use crate::evaluation::{
    scored, ApplicationDecision, EvaluationConfig, EvaluationEngine, EvaluationOutcome,
};
use crate::text::{decimal_text, push_decimal};
use std::sync::atomic::{AtomicU64, Ordering};
use std::sync::Arc;
use vstd::prelude::*;

verus! {

/// The stored unit: a profile, its status and its latest evaluation.
#[derive(Debug, Clone, PartialEq, Eq)]
pub struct ApplicationRecord {
    pub profile: ApplicantProfile,
    pub status: VacancyApplicationStatus,
    pub evaluation: Option<EvaluationOutcome>,
}

/// What an application's status lookup shows.
#[derive(Debug, Clone, PartialEq, Eq)]
pub struct ApplicationStatusView {
    pub application_id: ApplicationId,
    pub status: &'static str,
    pub decision_rationale: String,
    pub total_score: Option<i16>,
}

impl ApplicationRecord {
    pub open spec fn rationale_text(&self) -> Seq<char> {
        match self.evaluation {
            Some(outcome) => outcome.decision.summary_text(),
            None => "pending evaluation"@,
        }
    }

    /// The decision's summary, or "pending evaluation" before any evaluation.
    pub fn decision_rationale(&self) -> (r: String)
        ensures
            r@ == self.rationale_text(),
    {
        match &self.evaluation {
            Some(outcome) => outcome.decision.summary(),
            None => String::from_str("pending evaluation"),
        }
    }

    pub fn status_view(&self) -> (r: ApplicationStatusView)
        ensures
            r.application_id == self.profile.application_id,
            r.status == self.status.spec_label(),
            r.decision_rationale@ == self.rationale_text(),
            r.total_score == match self.evaluation {
                Some(o) => Some(o.total_score),
                None => None::<i16>,
            },
    {
        ApplicationStatusView {
            application_id: ApplicationId(self.profile.application_id.0.clone()),
            status: self.status.label(),
            decision_rationale: self.decision_rationale(),
            total_score: match &self.evaluation {
                Some(outcome) => Some(outcome.total_score),
                None => None,
            },
        }
    }
}

/// The view of an application that is not stored (yet): submitted and pending
/// evaluation, without a score.
pub fn pending_view(application_id: &ApplicationId) -> (r: ApplicationStatusView)
    ensures
        r.application_id == *application_id,
        r.status == VacancyApplicationStatus::Submitted.spec_label(),
        r.decision_rationale@ == "pending evaluation"@,
        r.total_score is None,
{
    ApplicationStatusView {
        application_id: ApplicationId(application_id.0.clone()),
        status: VacancyApplicationStatus::Submitted.label(),
        decision_rationale: String::from_str("pending evaluation"),
        total_score: None,
    }
}

#[derive(Debug, Clone, PartialEq, Eq)]
pub enum RepositoryError {
    Conflict,
    NotFound,
    Unavailable(String),
}

/// Storage of application records, supplied by the caller.
pub trait ApplicationRepository {
    /// Stores a new record; `Conflict` where its identifier is taken.
    fn insert(&self, record: ApplicationRecord) -> Result<ApplicationRecord, RepositoryError>;

    /// Replaces a stored record; `NotFound` where none has its identifier.
    fn update(&self, record: ApplicationRecord) -> Result<(), RepositoryError>;

    fn fetch(&self, id: &ApplicationId) -> Result<Option<ApplicationRecord>, RepositoryError>;

    fn pending(&self, limit: usize) -> Result<Vec<ApplicationRecord>, RepositoryError>;
}

/// An outbound notice about an application.
#[derive(Debug, Clone, PartialEq, Eq)]
pub struct AppFolioAlert {
    pub template: String,
    pub application_id: ApplicationId,
    /// Detail entries as key and value, with distinct keys in ascending order.
    pub details: Vec<(String, String)>,
}

#[derive(Debug, Clone, PartialEq, Eq)]
pub enum AlertError {
    Transport(String),
}

/// Delivery of alerts, supplied by the caller.
pub trait AlertPublisher {
    fn publish(&self, alert: AppFolioAlert) -> Result<(), AlertError>;
}

#[derive(Debug, Clone, PartialEq, Eq)]
pub enum ApplicationServiceError {
    Compliance(ComplianceViolation),
    Repository(RepositoryError),
    Alert(AlertError),
}

/// `n` in decimal, padded with leading zeros to at least `width` digits.
pub open spec fn zero_padded(n: nat, width: nat) -> Seq<char> {
    let digits = decimal_text(n);
    if digits.len() < width {
        Seq::new((width - digits.len()) as nat, |i: int| '0') + digits
    } else {
        digits
    }
}

/// The identifier with sequence number `n`: "app-" and `n` padded to six digits.
pub open spec fn application_id_text(n: u64) -> Seq<char> {
    "app-"@ + zero_padded(n as nat, 6)
}

/// The identifier for sequence number `n`.
pub fn application_id_for(n: u64) -> (r: ApplicationId)
    ensures
        r.0@ == application_id_text(n),
{
    let mut digits = String::new();
    push_decimal(&mut digits, n);
    let len = digits.unicode_len();
    let mut id = String::from_str("app-");
    let mut pad: usize = len;
    while pad < 6
        invariant
            len <= pad <= 6 || (len > 6 && pad == len),
            len == decimal_text(n as nat).len(),
            id@ == "app-"@ + Seq::new((pad - len) as nat, |i: int| '0'),
        decreases 6 - pad,
    {
        id.append("0");
        proof {
            reveal_strlit("0");
        }
        pad += 1;
        assert(id@ =~= "app-"@ + Seq::new((pad - len) as nat, |i: int| '0'));
    }
    id.append(digits.as_str());
    proof {
        if len < 6 {
            assert(pad == 6);
        } else {
            assert(Seq::new((pad - len) as nat, |i: int| '0') =~= Seq::<char>::empty());
        }
        assert(id@ =~= application_id_text(n));
    }
    ApplicationId(id)
}

/// A source of fresh application identifiers.
pub trait ApplicationIdGenerator {
    fn next_application_id(&self) -> ApplicationId;
}

/// Hands out application sequence numbers, each one above the last, safe for
/// concurrent use.
#[derive(Debug)]
pub struct ApplicationIdSequence {
    next: AtomicU64,
}

impl ApplicationIdSequence {
    pub fn new() -> (r: Self) {
        ApplicationIdSequence { next: AtomicU64::new(1) }
    }

    /// A fresh identifier. Which number it carries depends on the calls before it.
    pub fn next_id(&self) -> (r: ApplicationId)
        ensures
            exists|n: u64| r.0@ == application_id_text(n),
    {
        let n = self.next.fetch_add(1, Ordering::Relaxed);
        application_id_for(n)
    }
}

impl ApplicationIdGenerator for ApplicationIdSequence {
    fn next_application_id(&self) -> ApplicationId {
        self.next_id()
    }
}

/// The status that a decision gives an application.
pub open spec fn spec_status_for(d: ApplicationDecision) -> VacancyApplicationStatus {
    match d {
        ApplicationDecision::Approved => VacancyApplicationStatus::Approved,
        ApplicationDecision::Denied(_) => VacancyApplicationStatus::Denied,
        _ => VacancyApplicationStatus::UnderReview,
    }
}

pub fn status_for(d: &ApplicationDecision) -> (r: VacancyApplicationStatus)
    ensures
        r == spec_status_for(*d),
{
    match d {
        ApplicationDecision::Approved => VacancyApplicationStatus::Approved,
        ApplicationDecision::Denied(_) => VacancyApplicationStatus::Denied,
        _ => VacancyApplicationStatus::UnderReview,
    }
}

/// `a` is the alert announcing that application `id` was approved.
pub open spec fn is_approval_alert(a: AppFolioAlert, id: ApplicationId) -> bool {
    &&& a.template@ == "applicant_approved"@
    &&& a.application_id == id
    &&& a.details@.len() == 1
    &&& a.details@[0].0@ == "decision"@
    &&& a.details@[0].1@ == "approved"@
}

/// The alert sent when an application is approved.
pub fn approval_alert(application_id: &ApplicationId) -> (r: AppFolioAlert)
    ensures
        is_approval_alert(r, *application_id),
{
    let mut details: Vec<(String, String)> = Vec::new();
    details.push((String::from_str("decision"), String::from_str("approved")));
    AppFolioAlert {
        template: String::from_str("applicant_approved"),
        application_id: ApplicationId(application_id.0.clone()),
        details,
    }
}

/// The record after an evaluation: the outcome's status and the outcome itself.
pub fn evaluated_record(record: ApplicationRecord, outcome: &EvaluationOutcome) -> (r:
    ApplicationRecord)
    ensures
        r.profile == record.profile,
        r.status == spec_status_for(outcome.decision),
        r.evaluation matches Some(e) && e.agrees_with(*outcome),
{
    let status = status_for(&outcome.decision);
    ApplicationRecord { profile: record.profile, status, evaluation: Some(outcome.duplicate()) }
}

/// The record stored for a new submission: the guard's profile under identifier `id`,
/// submitted and not yet evaluated.
pub fn submitted_record(profile: ApplicantProfile, id: ApplicationId) -> (r: ApplicationRecord)
    ensures
        r.profile.application_id == id,
        r.profile.lawful_factors == profile.lawful_factors,
        r.profile.household == profile.household,
        r.profile.listing == profile.listing,
        r.profile.declared_income == profile.declared_income,
        r.profile.rental_history == profile.rental_history,
        r.profile.credit_score == profile.credit_score,
        r.profile.criminal_history == profile.criminal_history,
        r.profile.accommodations == profile.accommodations,
        r.status == VacancyApplicationStatus::Submitted,
        r.evaluation is None,
{
    let mut profile = profile;
    profile.application_id = id;
    ApplicationRecord { profile, status: VacancyApplicationStatus::Submitted, evaluation: None }
}

/// What a repository lookup gives: the stored record, `NotFound` where none is
/// stored, and the repository's own failure otherwise.
pub fn record_of_fetched(fetched: Result<Option<ApplicationRecord>, RepositoryError>) -> (r: Result<
    ApplicationRecord,
    ApplicationServiceError,
>)
    ensures
        fetched matches Ok(Some(x)) ==> r == Ok::<ApplicationRecord, ApplicationServiceError>(x),
        fetched matches Ok(None) ==> r == Err::<ApplicationRecord, ApplicationServiceError>(
            ApplicationServiceError::Repository(RepositoryError::NotFound),
        ),
        fetched matches Err(e) ==> r == Err::<ApplicationRecord, ApplicationServiceError>(
            ApplicationServiceError::Repository(e),
        ),
{
    match fetched {
        Ok(Some(record)) => Ok(record),
        Ok(None) => Err(ApplicationServiceError::Repository(RepositoryError::NotFound)),
        Err(e) => Err(ApplicationServiceError::Repository(e)),
    }
}

/// The decisions of an evaluation, given what the repository returned for the
/// application: the record to store, the outcome, and the alert to send, which is
/// there exactly when the application is approved.
pub fn evaluation_step(
    engine: &EvaluationEngine,
    fetched: Result<Option<ApplicationRecord>, RepositoryError>,
) -> (r: Result<(ApplicationRecord, EvaluationOutcome, Option<AppFolioAlert>), ApplicationServiceError>)
    ensures
        fetched matches Err(e) ==> r matches Err(x) && x == ApplicationServiceError::Repository(e),
        fetched matches Ok(None) ==> r matches Err(x) && x == ApplicationServiceError::Repository(
            RepositoryError::NotFound,
        ),
        fetched matches Ok(Some(rec)) ==> r matches Ok((u, o, a)) && {
            &&& scored(o, rec.profile, engine.spec_config())
            &&& u.profile == rec.profile
            &&& u.status == spec_status_for(o.decision)
            &&& u.evaluation matches Some(e) && e.agrees_with(o)
            &&& (a is Some <==> o.decision is Approved)
            &&& (a matches Some(x) ==> is_approval_alert(x, o.application_id))
        },
{
    let record = match record_of_fetched(fetched) {
        Ok(record) => record,
        Err(e) => return Err(e),
    };
    let outcome = engine.score(&record.profile);
    let updated = evaluated_record(record, &outcome);
    let alert = match outcome.decision {
        ApplicationDecision::Approved => Some(approval_alert(&outcome.application_id)),
        _ => None,
    };
    Ok((updated, outcome, alert))
}

/// The status view that a lookup gives: the record's view, the pending view for an
/// application that is not stored, and other failures unchanged.
pub fn status_of_lookup(
    application_id: &ApplicationId,
    found: Result<ApplicationRecord, ApplicationServiceError>,
) -> (r: Result<ApplicationStatusView, ApplicationServiceError>)
    ensures
        found matches Ok(rec) ==> r matches Ok(v) && v.application_id == rec.profile.application_id
            && v.status == rec.status.spec_label() && v.decision_rationale@ == rec.rationale_text()
            && v.total_score == match rec.evaluation {
            Some(o) => Some(o.total_score),
            None => None::<i16>,
        },
        found matches Err(ApplicationServiceError::Repository(RepositoryError::NotFound)) ==> r matches Ok(
            v,
        ) && v.application_id == *application_id && v.status
            == VacancyApplicationStatus::Submitted.spec_label() && v.decision_rationale@
            == "pending evaluation"@ && v.total_score is None,
        (found is Err && !(found matches Err(ApplicationServiceError::Repository(
            RepositoryError::NotFound,
        )))) ==> r == Err::<ApplicationStatusView, ApplicationServiceError>(found->Err_0),
{
    match found {
        Ok(record) => Ok(record.status_view()),
        Err(ApplicationServiceError::Repository(RepositoryError::NotFound)) => Ok(
            pending_view(application_id),
        ),
        Err(e) => Err(e),
    }
}

/// Guard, store, evaluate, store and alert, over the caller's repository and alert
/// publisher.
pub struct VacancyApplicationService<R, A, G = ApplicationIdSequence> {
    guard: ComplianceGuard,
    repository: Arc<R>,
    alerts: Arc<A>,
    engine: EvaluationEngine,
    ids: G,
}

impl<R: ApplicationRepository, A: AlertPublisher> VacancyApplicationService<
    R,
    A,
    ApplicationIdSequence,
> {
    /// A service whose guard and engine both follow `config`.
    pub fn new(repository: Arc<R>, alerts: Arc<A>, config: EvaluationConfig) -> (r: Self)
        ensures
            r.wf(),
            r.spec_guard() == ComplianceGuard::spec_from_config(config),
            r.spec_engine().spec_config() == config,
    {
        VacancyApplicationService {
            guard: ComplianceGuard::from_config(&config),
            repository,
            alerts,
            engine: EvaluationEngine::new(config),
            ids: ApplicationIdSequence::new(),
        }
    }

    /// A service with the given guard, kept where its multiplier equals the one that
    /// `config` gives and replaced by the guard of `config` otherwise.
    pub fn with_guard(
        guard: ComplianceGuard,
        repository: Arc<R>,
        alerts: Arc<A>,
        config: EvaluationConfig,
    ) -> (r: Self)
        requires
            guard.wf(),
        ensures
            r.wf(),
            r.spec_engine().spec_config() == config,
            r.spec_guard().spec_policy().multiplier().spec_same_value(
                sanitized_multiplier(config.deposit_cap_multiplier),
            ),
    {
        let configured = ComplianceGuard::from_config(&config);
        let guard = if guard.policy().deposit_cap_multiplier().same_value(
            configured.policy().deposit_cap_multiplier(),
        ) {
            guard
        } else {
            configured
        };
        VacancyApplicationService {
            guard,
            repository,
            alerts,
            engine: EvaluationEngine::new(config),
            ids: ApplicationIdSequence::new(),
        }
    }
}

impl<R: ApplicationRepository, A: AlertPublisher, G: ApplicationIdGenerator> VacancyApplicationService<
    R,
    A,
    G,
> {
    pub closed spec fn spec_guard(&self) -> ComplianceGuard {
        self.guard
    }

    pub closed spec fn spec_engine(&self) -> EvaluationEngine {
        self.engine
    }

    pub open spec fn wf(&self) -> bool {
        self.spec_guard().wf()
    }

    /// A service that takes its identifiers from `ids`.
    pub fn with_id_generator(
        repository: Arc<R>,
        alerts: Arc<A>,
        config: EvaluationConfig,
        ids: G,
    ) -> (r: Self)
        ensures
            r.wf(),
            r.spec_guard() == ComplianceGuard::spec_from_config(config),
            r.spec_engine().spec_config() == config,
    {
        VacancyApplicationService {
            guard: ComplianceGuard::from_config(&config),
            repository,
            alerts,
            engine: EvaluationEngine::new(config),
            ids,
        }
    }

    /// Checks a submission and stores its profile under a fresh identifier. A compliance
    /// violation is returned before anything is stored; otherwise the repository's
    /// answer is returned.
    pub fn submit(&self, submission: ApplicationSubmission) -> (r: Result<
        ApplicationRecord,
        ApplicationServiceError,
    >)
        requires
            self.wf(),
        ensures
            first_violation(self.spec_guard().spec_policy(), submission) matches Some(v) ==> r
                == Err::<ApplicationRecord, ApplicationServiceError>(
                ApplicationServiceError::Compliance(v),
            ),
            first_violation(self.spec_guard().spec_policy(), submission) is None ==> (r is Ok
                || r matches Err(ApplicationServiceError::Repository(_))),
    {
        let profile = match self.guard.profile_from_submission(submission) {
            Ok(profile) => profile,
            Err(violation) => return Err(ApplicationServiceError::Compliance(violation)),
        };
        let record = submitted_record(profile, self.ids.next_application_id());
        match self.repository.insert(record) {
            Ok(stored) => Ok(stored),
            Err(e) => Err(ApplicationServiceError::Repository(e)),
        }
    }

    /// Scores a stored application, stores the new status and outcome, and sends an
    /// alert when it is approved. The outcome returned is the engine's for the stored
    /// profile; an alert failure is returned after the record was stored.
    pub fn evaluate(&self, application_id: &ApplicationId) -> (r: Result<
        EvaluationOutcome,
        ApplicationServiceError,
    >)
        ensures
            r matches Ok(o) ==> exists|p: ApplicantProfile|
                scored(o, p, self.spec_engine().spec_config()),
            r matches Err(e) ==> (e is Repository || e is Alert),
    {
        let (updated, outcome, alert) = match evaluation_step(
            &self.engine,
            self.repository.fetch(application_id),
        ) {
            Ok(step) => step,
            Err(e) => return Err(e),
        };
        if let Err(e) = self.repository.update(updated) {
            return Err(ApplicationServiceError::Repository(e));
        }
        if let Some(alert) = alert {
            if let Err(e) = self.alerts.publish(alert) {
                return Err(ApplicationServiceError::Alert(e));
            }
        }
        Ok(outcome)
    }

    /// The status of an application: the stored record's view, or the pending view
    /// where none is stored. Other repository failures are returned.
    pub fn status_lookup(&self, application_id: &ApplicationId) -> (r: Result<
        ApplicationStatusView,
        ApplicationServiceError,
    >)
        ensures
            r matches Err(e) ==> e matches ApplicationServiceError::Repository(re) && !(re is NotFound),
    {
        status_of_lookup(application_id, self.get(application_id))
    }

    /// The stored record, or `NotFound`.
    pub fn get(&self, application_id: &ApplicationId) -> (r: Result<
        ApplicationRecord,
        ApplicationServiceError,
    >)
        ensures
            r matches Err(e) ==> e is Repository,
    {
        record_of_fetched(self.repository.fetch(application_id))
    }
}

} // verus!
