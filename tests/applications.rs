use std::collections::HashMap;
use std::sync::{Arc, Mutex};

use tenant_ai::{
    evaluation_step, record_of_fetched, status_to_str, submitted_record, AlertError,
    ApplicationIdGenerator, AlertPublisher, AppFolioAlert, ApplicantProfile,
    ApplicationDecision, ApplicationId, ApplicationRecord, ApplicationRepository,
    ApplicationServiceError, ApplicationSubmission, CalendarDate, ComplianceGuard,
    CompliancePolicy, ComplianceViolation, CriminalClassification, CriminalRecord, DenialReason,
    DocumentCategory, DocumentDescriptor, EvaluationConfig, EvaluationEngine, EvaluationOutcome,
    HouseholdComposition, IncomeDeclaration, LawfulFactorKind, LawfulFactorValue, LawfulFactors,
    ProhibitedScreeningPractice, Ratio, RentalReference, RepositoryError, ScreeningAnswers,
    SubsidyProgram, VacancyApplicationService, VacancyApplicationStatus, VacancyListingSnapshot,
};

fn date(year: i32, month: u32, day: u32) -> CalendarDate {
    CalendarDate::from_ymd(year, month, day).expect("valid date")
}

/// A decimal such as 0.27, written as hundredths.
fn hundredths(n: u32) -> Ratio {
    Ratio::new(n, 100)
}

fn listing() -> VacancyListingSnapshot {
    VacancyListingSnapshot {
        unit_id: "A-201".to_string(),
        property_code: "APOLLO".to_string(),
        listed_rent: 1180,
        available_on: date(2025, 10, 1),
        deposit_required: 2100,
    }
}

fn evaluation_config() -> EvaluationConfig {
    EvaluationConfig {
        minimum_rent_to_income_ratio: hundredths(30),
        minimum_credit_score: Some(600),
        max_evictions: 1,
        violent_felony_lookback_years: 7,
        non_violent_lookback_years: 5,
        misdemeanor_lookback_years: 3,
        deposit_cap_multiplier: Ratio::new(2, 1),
    }
}

fn submission() -> ApplicationSubmission {
    ApplicationSubmission {
        listing: listing(),
        household: HouseholdComposition {
            adults: 1,
            children: 1,
            bedrooms_required: 2,
        },
        screening_answers: ScreeningAnswers {
            pets: true,
            service_animals: false,
            smoker: false,
            requested_accessibility_accommodations: vec!["Lowered countertop".to_string()],
            requested_move_in: date(2025, 10, 5),
            disclosed_vouchers: vec![SubsidyProgram {
                program: "HCV".to_string(),
                monthly_amount: 450,
            }],
            prohibited_preferences: Vec::new(),
        },
        income: IncomeDeclaration {
            gross_monthly_income: 4300,
            verified_income_sources: vec!["Employer".to_string()],
            housing_voucher_amount: Some(450),
        },
        rental_history: vec![RentalReference {
            property_name: "Riverfront Lofts".to_string(),
            paid_on_time: true,
            filed_eviction: false,
            tenancy_start: date(2023, 9, 1),
            tenancy_end: Some(date(2025, 8, 31)),
        }],
        credit_score: Some(712),
        criminal_history: vec![CriminalRecord {
            classification: CriminalClassification::Misdemeanor,
            years_since: 6,
            jurisdiction: "Polk County".to_string(),
            description: "Expired registration".to_string(),
        }],
        supporting_documents: vec![DocumentDescriptor {
            name: "Primary ID".to_string(),
            category: DocumentCategory::Identification,
            storage_key: "s3://tenant-ai/docs/app-123/id.pdf".to_string(),
        }],
    }
}

fn guard_profile(suffix: &str, ratio: Ratio, credit_score: Option<u16>) -> ApplicantProfile {
    let mut lawful_factors = LawfulFactors::new();
    lawful_factors.insert(
        LawfulFactorKind::RentToIncome,
        LawfulFactorValue::Decimal(ratio),
    );
    lawful_factors.insert(
        LawfulFactorKind::VoucherCoverage,
        LawfulFactorValue::Decimal(hundredths(30)),
    );
    lawful_factors.insert(
        LawfulFactorKind::IowaSecurityDepositCompliance,
        LawfulFactorValue::Boolean(true),
    );
    lawful_factors.insert(LawfulFactorKind::RentalHistory, LawfulFactorValue::Count(0));
    if let Some(score) = credit_score {
        lawful_factors.insert(
            LawfulFactorKind::CreditScore,
            LawfulFactorValue::Count(score as u32),
        );
    }

    ApplicantProfile {
        application_id: ApplicationId(format!("app-{suffix}")),
        lawful_factors,
        household: HouseholdComposition {
            adults: 1,
            children: 0,
            bedrooms_required: 1,
        },
        listing: listing(),
        declared_income: IncomeDeclaration {
            gross_monthly_income: 4300,
            verified_income_sources: vec!["Employer".to_string()],
            housing_voucher_amount: Some(300),
        },
        rental_history: vec![RentalReference {
            property_name: "Riverfront Lofts".to_string(),
            paid_on_time: true,
            filed_eviction: false,
            tenancy_start: date(2023, 1, 1),
            tenancy_end: None,
        }],
        credit_score,
        criminal_history: Vec::new(),
        accommodations: vec!["First floor".to_string()],
    }
}

#[derive(Default, Clone)]
struct MemoryRepository {
    records: Arc<Mutex<HashMap<ApplicationId, ApplicationRecord>>>,
}

impl ApplicationRepository for MemoryRepository {
    fn insert(&self, record: ApplicationRecord) -> Result<ApplicationRecord, RepositoryError> {
        let mut guard = self.records.lock().expect("repository mutex poisoned");
        if guard.contains_key(&record.profile.application_id) {
            return Err(RepositoryError::Conflict);
        }
        guard.insert(record.profile.application_id.clone(), record.clone());
        Ok(record)
    }

    fn update(&self, record: ApplicationRecord) -> Result<(), RepositoryError> {
        let mut guard = self.records.lock().expect("repository mutex poisoned");
        guard.insert(record.profile.application_id.clone(), record);
        Ok(())
    }

    fn fetch(&self, id: &ApplicationId) -> Result<Option<ApplicationRecord>, RepositoryError> {
        let guard = self.records.lock().expect("repository mutex poisoned");
        Ok(guard.get(id).cloned())
    }

    fn pending(&self, _limit: usize) -> Result<Vec<ApplicationRecord>, RepositoryError> {
        Ok(Vec::new())
    }
}

#[derive(Default, Clone)]
struct MemoryAlerts {
    events: Arc<Mutex<Vec<AppFolioAlert>>>,
}

impl MemoryAlerts {
    fn events(&self) -> Vec<AppFolioAlert> {
        self.events.lock().expect("alert mutex poisoned").clone()
    }
}

impl AlertPublisher for MemoryAlerts {
    fn publish(&self, alert: AppFolioAlert) -> Result<(), AlertError> {
        self.events
            .lock()
            .expect("alert mutex poisoned")
            .push(alert);
        Ok(())
    }
}

struct FailingAlerts;

impl AlertPublisher for FailingAlerts {
    fn publish(&self, _alert: AppFolioAlert) -> Result<(), AlertError> {
        Err(AlertError::Transport("offline".to_string()))
    }
}

struct ConflictRepository;

impl ApplicationRepository for ConflictRepository {
    fn insert(&self, _record: ApplicationRecord) -> Result<ApplicationRecord, RepositoryError> {
        Err(RepositoryError::Conflict)
    }

    fn update(&self, _record: ApplicationRecord) -> Result<(), RepositoryError> {
        Err(RepositoryError::Unavailable("read only".to_string()))
    }

    fn fetch(&self, _id: &ApplicationId) -> Result<Option<ApplicationRecord>, RepositoryError> {
        Ok(None)
    }

    fn pending(&self, _limit: usize) -> Result<Vec<ApplicationRecord>, RepositoryError> {
        Ok(Vec::new())
    }
}

fn build_service() -> (
    VacancyApplicationService<MemoryRepository, MemoryAlerts>,
    Arc<MemoryRepository>,
    Arc<MemoryAlerts>,
) {
    let repository = Arc::new(MemoryRepository::default());
    let alerts = Arc::new(MemoryAlerts::default());
    let service =
        VacancyApplicationService::new(repository.clone(), alerts.clone(), evaluation_config());
    (service, repository, alerts)
}

fn evaluation_engine() -> EvaluationEngine {
    EvaluationEngine::new(evaluation_config())
}

fn manual_review_profile() -> ApplicationSubmission {
    let mut submission = submission();
    submission.criminal_history.push(CriminalRecord {
        classification: CriminalClassification::ViolentFelony,
        years_since: 2,
        jurisdiction: "Polk County".to_string(),
        description: "Assault".to_string(),
    });
    submission
}

fn prohibited_submission() -> ApplicationSubmission {
    let mut submission = submission();
    submission.screening_answers.prohibited_preferences.push(
        ProhibitedScreeningPractice::ProtectedClassInquiry {
            field: "disability".to_string(),
        },
    );
    submission
}

fn missing_income_submission() -> ApplicationSubmission {
    let mut submission = submission();
    submission.income.verified_income_sources.clear();
    submission
}

fn outcome_with(decision: ApplicationDecision, total_score: i16) -> EvaluationOutcome {
    EvaluationOutcome {
        application_id: ApplicationId("app-123".to_string()),
        decision,
        total_score,
        components: Vec::new(),
    }
}

#[test]
fn compliance_guard_requires_verified_income_sources() {
    let guard = ComplianceGuard::new();
    let mut submission = submission();
    submission.income.verified_income_sources.clear();
    match guard.profile_from_submission(submission) {
        Err(ComplianceViolation::MissingIncomeDocumentation) => {}
        other => panic!("expected missing income documentation, got {other:?}"),
    }
}

#[test]
fn compliance_guard_rejects_zero_household_and_zero_income() {
    let guard = ComplianceGuard::new();
    let mut submission = submission();
    submission.household = HouseholdComposition {
        adults: 0,
        children: 0,
        bedrooms_required: 1,
    };
    submission.income.gross_monthly_income = 0;
    match guard.profile_from_submission(submission) {
        Err(ComplianceViolation::IncompleteHousehold) => {}
        other => panic!("expected incomplete household violation, got {other:?}"),
    }
}

#[test]
fn compliance_guard_flags_zero_income_even_with_verified_sources() {
    let guard = ComplianceGuard::new();
    let mut submission = submission();
    submission.income.gross_monthly_income = 0;
    match guard.profile_from_submission(submission) {
        Err(ComplianceViolation::MissingIncomeDocumentation) => {}
        other => panic!("expected missing income documentation, got {other:?}"),
    }
}

#[test]
fn evaluation_engine_denies_for_low_credit_history() {
    let engine = EvaluationEngine::new(EvaluationConfig {
        minimum_rent_to_income_ratio: hundredths(30),
        minimum_credit_score: Some(650),
        max_evictions: 1,
        violent_felony_lookback_years: 7,
        non_violent_lookback_years: 5,
        misdemeanor_lookback_years: 3,
        deposit_cap_multiplier: Ratio::new(2, 1),
    });
    let profile = guard_profile("credit-low", hundredths(29), Some(610));
    let outcome = engine.score(&profile);
    match outcome.decision {
        ApplicationDecision::Denied(DenialReason::AdverseCreditHistory) => {}
        other => panic!("expected adverse credit denial, got {other:?}"),
    }
    assert!(outcome
        .components
        .iter()
        .any(|component| component.factor == LawfulFactorKind::CreditScore));
}

#[test]
fn evaluation_engine_handles_missing_credit_history() {
    let engine = EvaluationEngine::new(EvaluationConfig {
        minimum_rent_to_income_ratio: hundredths(35),
        minimum_credit_score: Some(600),
        max_evictions: 1,
        violent_felony_lookback_years: 7,
        non_violent_lookback_years: 5,
        misdemeanor_lookback_years: 3,
        deposit_cap_multiplier: Ratio::new(2, 1),
    });
    let profile = guard_profile("credit-missing", hundredths(30), None);
    let outcome = engine.score(&profile);
    match outcome.decision {
        ApplicationDecision::Denied(DenialReason::AdverseCreditHistory) => {}
        other => panic!("expected adverse credit denial, got {other:?}"),
    }
    assert!(outcome
        .components
        .iter()
        .any(|component| component.factor == LawfulFactorKind::CreditScore && component.score < 0));
}

#[test]
fn service_submit_propagates_compliance_errors() {
    let guard = ComplianceGuard::new();
    let repository = Arc::new(MemoryRepository::default());
    let alerts = Arc::new(MemoryAlerts::default());
    let service =
        VacancyApplicationService::with_guard(guard, repository, alerts, evaluation_config());
    let mut submission = submission();
    submission.income.verified_income_sources.clear();
    match service.submit(submission) {
        Err(ApplicationServiceError::Compliance(
            ComplianceViolation::MissingIncomeDocumentation,
        )) => {}
        other => panic!("expected compliance violation, got {other:?}"),
    }
}

#[test]
fn service_evaluate_sets_under_review_on_manual_review_outcomes() {
    let guard = ComplianceGuard::new();
    let repository = Arc::new(MemoryRepository::default());
    let alerts = Arc::new(MemoryAlerts::default());
    let service = VacancyApplicationService::with_guard(
        guard,
        repository.clone(),
        alerts.clone(),
        evaluation_config(),
    );
    let mut submission = submission();
    submission.criminal_history.push(CriminalRecord {
        classification: CriminalClassification::ViolentFelony,
        years_since: 2,
        jurisdiction: "Polk County".to_string(),
        description: "Assault".to_string(),
    });
    let record = service
        .submit(submission)
        .expect("can submit manual review candidate");
    let outcome = service
        .evaluate(&record.profile.application_id)
        .expect("manual review outcome");
    assert!(matches!(outcome.decision, ApplicationDecision::ManualReview { .. }));
    let stored = repository
        .fetch(&record.profile.application_id)
        .expect("fetch succeeds")
        .expect("record present");
    assert_eq!(stored.status, VacancyApplicationStatus::UnderReview);
    assert!(alerts.events().is_empty(), "manual review should not emit alerts");
}

#[test]
fn service_get_propagates_not_found() {
    let guard = ComplianceGuard::new();
    let repository = Arc::new(MemoryRepository::default());
    let alerts = Arc::new(MemoryAlerts::default());
    let service =
        VacancyApplicationService::with_guard(guard, repository, alerts, evaluation_config());
    match service.get(&ApplicationId("missing".to_string())) {
        Err(ApplicationServiceError::Repository(RepositoryError::NotFound)) => {}
        other => panic!("expected not found error, got {other:?}"),
    }
}

#[test]
fn status_to_str_matches_each_variant() {
    assert_eq!(status_to_str(VacancyApplicationStatus::Submitted), "submitted");
    assert_eq!(
        status_to_str(VacancyApplicationStatus::UnderReview),
        "under_review"
    );
    assert_eq!(status_to_str(VacancyApplicationStatus::Approved), "approved");
    assert_eq!(status_to_str(VacancyApplicationStatus::Denied), "denied");
    assert_eq!(status_to_str(VacancyApplicationStatus::Waitlisted), "waitlisted");
}

fn check_decision_rationale_formats_outcomes() {
    let profile = guard_profile("rationale", hundredths(25), Some(700));

    let approved = ApplicationRecord {
        profile: profile.clone(),
        status: VacancyApplicationStatus::Approved,
        evaluation: Some(outcome_with(ApplicationDecision::Approved, 42)),
    };
    assert!(approved.decision_rationale().contains("approved"));

    let conditional = ApplicationRecord {
        profile: profile.clone(),
        status: VacancyApplicationStatus::UnderReview,
        evaluation: Some(outcome_with(
            ApplicationDecision::ConditionalApproval {
                required_actions: vec!["provide insurance".to_string()],
            },
            10,
        )),
    };
    assert!(conditional.decision_rationale().contains("conditional"));

    let denied = ApplicationRecord {
        profile: profile.clone(),
        status: VacancyApplicationStatus::Denied,
        evaluation: Some(outcome_with(
            ApplicationDecision::Denied(DenialReason::InsufficientIncome {
                required_ratio: hundredths(30),
                actual_ratio: hundredths(45),
            }),
            -10,
        )),
    };
    assert!(denied.decision_rationale().contains("insufficient income"));

    let manual = ApplicationRecord {
        profile: profile.clone(),
        status: VacancyApplicationStatus::UnderReview,
        evaluation: Some(outcome_with(
            ApplicationDecision::ManualReview {
                reasons: vec!["income discrepancy".to_string()],
            },
            0,
        )),
    };
    assert!(manual.decision_rationale().contains("manual review"));

    let pending = ApplicationRecord {
        profile,
        status: VacancyApplicationStatus::Submitted,
        evaluation: None,
    };
    assert_eq!(pending.decision_rationale(), "pending evaluation");
}

#[test]
fn applications_decision_rationale_formats_outcomes() {
    check_decision_rationale_formats_outcomes();
}

#[test]
fn service_decision_rationale_formats_outcomes() {
    check_decision_rationale_formats_outcomes();
}

#[test]
fn guard_requires_verified_income_sources() {
    let guard = ComplianceGuard::default();
    let submission = missing_income_submission();
    match guard.profile_from_submission(submission) {
        Err(ComplianceViolation::MissingIncomeDocumentation) => {}
        other => panic!("expected missing income documentation, got {other:?}"),
    }
}

#[test]
fn guard_rejects_zero_household_and_zero_income() {
    let guard = ComplianceGuard::default();
    let mut submission = submission();
    submission.household = HouseholdComposition {
        adults: 0,
        children: 0,
        bedrooms_required: 0,
    };
    submission.income.gross_monthly_income = 0;
    match guard.profile_from_submission(submission) {
        Err(ComplianceViolation::IncompleteHousehold) => {}
        other => panic!("expected incomplete household violation, got {other:?}"),
    }
}

#[test]
fn guard_enforces_prohibited_screening_practices() {
    let guard = ComplianceGuard::default();
    let submission = prohibited_submission();
    match guard.profile_from_submission(submission) {
        Err(ComplianceViolation::ProhibitedPractice(
            ProhibitedScreeningPractice::ProtectedClassInquiry { field },
        )) => assert_eq!(field, "disability"),
        other => panic!("expected protected class violation, got {other:?}"),
    }
}

#[test]
fn engine_denies_for_low_credit_history() {
    let engine = evaluation_engine();
    let profile = guard_profile("credit-low", hundredths(29), Some(550));
    let outcome = engine.score(&profile);
    match outcome.decision {
        ApplicationDecision::Denied(DenialReason::AdverseCreditHistory) => {}
        other => panic!("expected adverse credit denial, got {other:?}"),
    }
    assert!(outcome
        .components
        .iter()
        .any(|component| component.factor == LawfulFactorKind::CreditScore));
}

#[test]
fn engine_handles_missing_credit_history() {
    let engine = evaluation_engine();
    let profile = guard_profile("credit-missing", hundredths(30), None);
    let outcome = engine.score(&profile);
    match outcome.decision {
        ApplicationDecision::Denied(DenialReason::AdverseCreditHistory) => {}
        other => panic!("expected adverse credit denial, got {other:?}"),
    }
    assert!(outcome
        .components
        .iter()
        .any(|component| component.factor == LawfulFactorKind::CreditScore && component.score < 0));
}

#[test]
fn engine_awards_points_for_strengths() {
    let engine = evaluation_engine();
    let profile = guard_profile("strong", hundredths(27), Some(720));
    let outcome = engine.score(&profile);
    assert_eq!(outcome.application_id, profile.application_id);
    assert!(matches!(outcome.decision, ApplicationDecision::Approved));
    assert!(outcome.components.iter().any(|component| {
        component.factor == LawfulFactorKind::RentToIncome && component.score > 0
    }));
    assert!(outcome.total_score > 0);
}

#[test]
fn engine_denies_when_rent_to_income_is_too_high() {
    let engine = evaluation_engine();
    let mut profile = guard_profile("ratio-high", hundredths(27), Some(712));
    profile.lawful_factors.insert(
        LawfulFactorKind::RentToIncome,
        LawfulFactorValue::Decimal(hundredths(45)),
    );
    let outcome = engine.score(&profile);
    match outcome.decision {
        ApplicationDecision::Denied(DenialReason::InsufficientIncome {
            required_ratio,
            actual_ratio,
        }) => {
            assert_eq!(
                required_ratio,
                evaluation_config().minimum_rent_to_income_ratio
            );
            assert_eq!(actual_ratio, hundredths(45));
        }
        other => panic!("expected insufficient income denial, got {other:?}"),
    }
}

#[test]
fn engine_routes_recent_violent_felonies_to_manual_review() {
    let engine = evaluation_engine();
    let mut profile = guard_profile("felony", hundredths(27), Some(720));
    profile.criminal_history.push(CriminalRecord {
        classification: CriminalClassification::ViolentFelony,
        years_since: 3,
        jurisdiction: "Iowa District Court".to_string(),
        description: "Assault causing serious injury".to_string(),
    });
    let outcome = engine.score(&profile);
    match outcome.decision {
        ApplicationDecision::ManualReview { reasons } => {
            assert!(reasons
                .iter()
                .any(|reason| reason.to_lowercase().contains("violent felony")));
        }
        other => panic!("expected manual review, got {other:?}"),
    }
}

#[test]
fn submit_propagates_compliance_errors() {
    let (service, _, _) = build_service();
    match service.submit(missing_income_submission()) {
        Err(ApplicationServiceError::Compliance(
            ComplianceViolation::MissingIncomeDocumentation,
        )) => {}
        other => panic!("expected compliance violation, got {other:?}"),
    }
}

#[test]
fn evaluate_sets_under_review_on_manual_review_outcomes() {
    let (service, repository, alerts) = build_service();
    let record = service
        .submit(manual_review_profile())
        .expect("can submit manual review candidate");
    let outcome = service
        .evaluate(&record.profile.application_id)
        .expect("manual review outcome");
    assert!(matches!(
        outcome.decision,
        ApplicationDecision::ManualReview { .. }
    ));
    let stored = repository
        .fetch(&record.profile.application_id)
        .expect("fetch succeeds")
        .expect("record present");
    assert_eq!(stored.status, VacancyApplicationStatus::UnderReview);
    assert!(
        alerts.events().is_empty(),
        "manual review should not emit alerts"
    );
}

#[test]
fn get_propagates_not_found() {
    let (service, _, _) = build_service();
    match service.get(&ApplicationId("missing".to_string())) {
        Err(ApplicationServiceError::Repository(RepositoryError::NotFound)) => {}
        other => panic!("expected not found error, got {other:?}"),
    }
}

#[test]
fn application_status_view_includes_total_score() {
    let profile = guard_profile("status-view", hundredths(22), Some(720));
    let record = ApplicationRecord {
        profile,
        status: VacancyApplicationStatus::Approved,
        evaluation: Some(EvaluationOutcome {
            application_id: ApplicationId("app-789".to_string()),
            decision: ApplicationDecision::Approved,
            total_score: 55,
            components: Vec::new(),
        }),
    };
    let view = record.status_view();
    assert_eq!(view.status, VacancyApplicationStatus::Approved.label());
    assert_eq!(view.total_score, Some(55));
    assert!(view.decision_rationale.contains("approved"));
}

#[test]
fn prohibited_preferences_trigger_compliance_error() {
    let (service, _, _) = build_service();
    match service.submit(prohibited_submission()) {
        Err(ApplicationServiceError::Compliance(err)) => {
            assert!(err.message().to_lowercase().contains("protected"));
        }
        other => panic!("expected compliance violation, got {other:?}"),
    }
}

#[test]
fn security_deposit_violation_flagged() {
    let (service, _, _) = build_service();
    let mut bad_submission = submission();
    bad_submission.listing.deposit_required = bad_submission.listing.listed_rent * 3;
    match service.submit(bad_submission) {
        Err(ApplicationServiceError::Compliance(err)) => {
            let message = err.message();
            assert!(message.contains("Iowa") || message.contains("cap"));
        }
        other => panic!("expected security deposit cap violation, got {other:?}"),
    }
}

#[test]
fn submission_profiles_include_lawful_factors() {
    let (service, repository, _) = build_service();
    let record = service
        .submit(submission())
        .expect("submission should succeed");
    let stored = repository
        .fetch(&record.profile.application_id)
        .expect("repo fetch")
        .expect("record present");
    assert!(stored
        .profile
        .lawful_factors
        .contains_key(&LawfulFactorKind::RentToIncome));
    assert_eq!(stored.status, VacancyApplicationStatus::Submitted);
}

#[test]
fn high_strength_profile_is_approved() {
    let (service, _, alerts) = build_service();
    let record = service.submit(submission()).expect("submission succeeds");
    let outcome = service
        .evaluate(&record.profile.application_id)
        .expect("evaluation succeeds");
    assert!(matches!(outcome.decision, ApplicationDecision::Approved));
    let events = alerts.events();
    assert_eq!(events.len(), 1);
    assert_eq!(events[0].template, "applicant_approved");
    assert_eq!(events[0].application_id, record.profile.application_id);
    assert_eq!(
        events[0].details,
        vec![("decision".to_string(), "approved".to_string())]
    );
}

#[test]
fn rent_to_income_denial_is_returned() {
    let (service, repository, _) = build_service();
    let mut high_rent_submission = submission();
    high_rent_submission.listing.listed_rent = 3200;
    high_rent_submission.listing.deposit_required = 6400;
    let record = service
        .submit(high_rent_submission)
        .expect("submission stored");
    let outcome = service
        .evaluate(&record.profile.application_id)
        .expect("evaluation");
    match outcome.decision {
        ApplicationDecision::Denied(DenialReason::InsufficientIncome {
            actual_ratio, ..
        }) => {
            assert!(actual_ratio.exceeds(evaluation_config().minimum_rent_to_income_ratio));
        }
        other => panic!("expected insufficient income denial, got {other:?}"),
    }
    let stored = repository
        .fetch(&record.profile.application_id)
        .expect("repo fetch")
        .expect("record present");
    assert_eq!(stored.status, VacancyApplicationStatus::Denied);
}

#[test]
fn violent_felony_routes_to_manual_review() {
    let (service, _, _) = build_service();
    let mut submission = submission();
    submission.criminal_history.push(CriminalRecord {
        classification: CriminalClassification::ViolentFelony,
        years_since: 2,
        jurisdiction: "Polk County".to_string(),
        description: "Assault".to_string(),
    });
    let record = service.submit(submission).expect("submission");
    let outcome = service
        .evaluate(&record.profile.application_id)
        .expect("evaluation");
    assert!(matches!(
        outcome.decision,
        ApplicationDecision::ManualReview { .. }
    ));
}

#[test]
fn empty_income_sources_always_rejected() {
    let guard = ComplianceGuard::default();
    let mut sub = missing_income_submission();
    sub.household.adults = 0;
    sub.household.children = 0;
    sub.listing.deposit_required = u32::MAX;
    sub.income.gross_monthly_income = 0;
    match guard.profile_from_submission(sub) {
        Err(ComplianceViolation::MissingIncomeDocumentation) => {}
        other => panic!("expected missing income documentation, got {other:?}"),
    }
}

#[test]
fn deposit_of_three_months_exceeds_two_month_cap() {
    let guard = ComplianceGuard::default();
    let mut sub = submission();
    sub.listing.deposit_required = 3 * 1180;
    match guard.profile_from_submission(sub) {
        Err(ComplianceViolation::IowaSecurityDepositCap { max, found }) => {
            assert_eq!(max, 2 * 1180);
            assert_eq!(found, 3 * 1180);
        }
        other => panic!("expected deposit cap violation, got {other:?}"),
    }
}

#[test]
fn deposit_cap_rounds_up_and_sanitizes_multiplier() {
    let policy = CompliancePolicy::new(Ratio::new(3, 2));
    assert_eq!(policy.max_deposit_for(1001), 1502);
    assert_eq!(policy.max_deposit_for(0), 0);
    let fallback = CompliancePolicy::new(Ratio::new(0, 1));
    assert_eq!(fallback.deposit_cap_multiplier(), Ratio::new(2, 1));
    assert_eq!(fallback.max_deposit_for(1180), 2360);
    let undefined = CompliancePolicy::new(Ratio::new(5, 0));
    assert_eq!(undefined.max_deposit_for(10), 20);
    let huge = CompliancePolicy::new(Ratio::new(u32::MAX, 1));
    assert_eq!(huge.max_deposit_for(u32::MAX), u32::MAX);
}

#[test]
fn guard_builds_lawful_factors() {
    let guard = ComplianceGuard::default();
    let mut sub = submission();
    sub.rental_history.push(RentalReference {
        property_name: "Old Mill".to_string(),
        paid_on_time: false,
        filed_eviction: true,
        tenancy_start: date(2020, 1, 1),
        tenancy_end: Some(date(2021, 1, 1)),
    });
    sub.criminal_history.push(CriminalRecord {
        classification: CriminalClassification::NonViolentFelony,
        years_since: 4,
        jurisdiction: "Story County".to_string(),
        description: "Theft".to_string(),
    });
    let profile = guard.profile_from_submission(sub).expect("compliant");
    let factors = &profile.lawful_factors;
    assert_eq!(profile.application_id, ApplicationId("pending".to_string()));
    assert_eq!(
        factors.get(&LawfulFactorKind::RentToIncome),
        Some(&LawfulFactorValue::Decimal(Ratio::new(1180, 4300)))
    );
    assert_eq!(
        factors.get(&LawfulFactorKind::CreditScore),
        Some(&LawfulFactorValue::Count(712))
    );
    assert_eq!(
        factors.get(&LawfulFactorKind::RentalHistory),
        Some(&LawfulFactorValue::Count(1))
    );
    assert_eq!(
        factors.get(&LawfulFactorKind::CriminalHistoryWindow),
        Some(&LawfulFactorValue::Decimal(Ratio::new(4, 1)))
    );
    assert_eq!(
        factors.get(&LawfulFactorKind::VoucherCoverage),
        Some(&LawfulFactorValue::Decimal(Ratio::new(450, 1180)))
    );
    assert_eq!(
        factors.get(&LawfulFactorKind::IowaSecurityDepositCompliance),
        Some(&LawfulFactorValue::Boolean(true))
    );
    assert_eq!(profile.accommodations, vec!["Lowered countertop".to_string()]);
}

#[test]
fn guard_omits_absent_credit_and_criminal_factors() {
    let guard = ComplianceGuard::default();
    let mut sub = submission();
    sub.credit_score = None;
    sub.criminal_history.clear();
    sub.income.housing_voucher_amount = None;
    let profile = guard.profile_from_submission(sub).expect("compliant");
    assert!(!profile.lawful_factors.contains_key(&LawfulFactorKind::CreditScore));
    assert!(!profile
        .lawful_factors
        .contains_key(&LawfulFactorKind::CriminalHistoryWindow));
    assert_eq!(
        profile.lawful_factors.get(&LawfulFactorKind::VoucherCoverage),
        Some(&LawfulFactorValue::Decimal(Ratio::new(0, 1)))
    );
}

#[test]
fn rent_ratio_within_default_threshold_scores_thirty() {
    let guard = ComplianceGuard::default();
    let profile = guard.profile_from_submission(submission()).expect("compliant");
    let outcome = evaluation_engine().score(&profile);
    let rent = &outcome.components[0];
    assert_eq!(rent.factor, LawfulFactorKind::RentToIncome);
    assert_eq!(rent.score, 30);
    assert_eq!(
        rent.notes,
        "rent-to-income ratio 0.27 within policy threshold 0.30"
    );
}

#[test]
fn scoring_is_repeatable_and_ordered() {
    let guard = ComplianceGuard::default();
    let profile = guard.profile_from_submission(submission()).expect("compliant");
    let engine = evaluation_engine();
    let first = engine.score(&profile);
    let second = engine.score(&profile);
    assert_eq!(first, second);
    let parts: Vec<(LawfulFactorKind, i16, &str)> = first
        .components
        .iter()
        .map(|c| (c.factor, c.score, c.notes.as_str()))
        .collect();
    assert_eq!(
        parts,
        vec![
            (
                LawfulFactorKind::RentToIncome,
                30,
                "rent-to-income ratio 0.27 within policy threshold 0.30"
            ),
            (
                LawfulFactorKind::CreditScore,
                20,
                "credit score 712 meets minimum 600"
            ),
            (LawfulFactorKind::RentalHistory, 10, "no prior evictions"),
            (
                LawfulFactorKind::VoucherCoverage,
                5,
                "voucher covers 38% of rent"
            ),
            (
                LawfulFactorKind::IowaSecurityDepositCompliance,
                5,
                "security deposit within Iowa cap"
            ),
        ]
    );
    assert_eq!(first.total_score, 70);
}

#[test]
fn violent_felony_outranks_a_perfect_profile() {
    let engine = evaluation_engine();
    let mut profile = guard_profile("perfect", hundredths(10), Some(850));
    profile.criminal_history.push(CriminalRecord {
        classification: CriminalClassification::ViolentFelony,
        years_since: 7,
        jurisdiction: "Polk County".to_string(),
        description: "Robbery".to_string(),
    });
    let outcome = engine.score(&profile);
    assert_eq!(outcome.total_score, 70);
    match outcome.decision {
        ApplicationDecision::ManualReview { reasons } => {
            assert_eq!(
                reasons,
                vec!["Recent violent felony within 7 years: Robbery".to_string()]
            );
        }
        other => panic!("expected manual review, got {other:?}"),
    }
    let mut old = guard_profile("old", hundredths(10), Some(850));
    old.criminal_history.push(CriminalRecord {
        classification: CriminalClassification::ViolentFelony,
        years_since: 8,
        jurisdiction: "Polk County".to_string(),
        description: "Robbery".to_string(),
    });
    assert!(matches!(engine.score(&old).decision, ApplicationDecision::Approved));
}

#[test]
fn excessive_evictions_deny_a_positive_score() {
    let engine = evaluation_engine();
    let mut profile = guard_profile("evictions", hundredths(20), Some(720));
    profile
        .lawful_factors
        .insert(LawfulFactorKind::RentalHistory, LawfulFactorValue::Count(2));
    let outcome = engine.score(&profile);
    assert_eq!(outcome.total_score, 30 + 20 - 25 + 5 + 5);
    assert!(matches!(
        outcome.decision,
        ApplicationDecision::Denied(DenialReason::ExcessiveEvictions(2))
    ));
    assert_eq!(outcome.components[2].notes, "2 eviction(s) exceeds allowance");
}

#[test]
fn noncompliant_deposit_gets_conditional_approval() {
    let engine = evaluation_engine();
    let mut profile = guard_profile("deposit", hundredths(20), Some(720));
    profile.lawful_factors.insert(
        LawfulFactorKind::IowaSecurityDepositCompliance,
        LawfulFactorValue::Boolean(false),
    );
    let outcome = engine.score(&profile);
    match outcome.decision {
        ApplicationDecision::ConditionalApproval { required_actions } => {
            assert_eq!(required_actions, vec!["Adjust deposit to Iowa cap".to_string()]);
        }
        other => panic!("expected conditional approval, got {other:?}"),
    }
    assert_eq!(outcome.total_score, 30 + 20 + 10 + 5);
}

#[test]
fn decision_summaries_read_as_sentences() {
    assert_eq!(
        ApplicationDecision::Denied(DenialReason::InsufficientIncome {
            required_ratio: hundredths(30),
            actual_ratio: Ratio::new(3200, 4300),
        })
        .summary(),
        "denied for insufficient income (required 0.30, actual 0.74)"
    );
    assert_eq!(
        ApplicationDecision::Denied(DenialReason::ExcessiveEvictions(3)).summary(),
        "denied for 3 eviction(s)"
    );
    assert_eq!(
        ApplicationDecision::Denied(DenialReason::CriminalDisqualifier {
            classification: CriminalClassification::ViolentFelony,
            years_since: 4,
        })
        .summary(),
        "denied for ViolentFelony 4 years ago"
    );
    assert_eq!(
        ApplicationDecision::ManualReview {
            reasons: vec!["a".to_string(), "b".to_string()]
        }
        .summary(),
        "manual review required: a; b"
    );
    assert_eq!(
        ApplicationDecision::ConditionalApproval {
            required_actions: Vec::new()
        }
        .summary(),
        "conditional approval"
    );
}

#[test]
fn violation_messages_name_the_rule() {
    assert_eq!(
        ComplianceViolation::IowaSecurityDepositCap { max: 2360, found: 3540 }.message(),
        "security deposit exceeds Iowa two month cap (required <= 2360, found 3540)"
    );
    assert_eq!(
        ComplianceViolation::IncompleteHousehold.message(),
        "household composition incomplete"
    );
}

#[test]
fn submissions_get_increasing_identifiers() {
    let (service, _, _) = build_service();
    let first = service.submit(submission()).expect("stored");
    let second = service.submit(submission()).expect("stored");
    assert_eq!(first.profile.application_id, ApplicationId("app-000001".to_string()));
    assert_eq!(second.profile.application_id, ApplicationId("app-000002".to_string()));
}

#[test]
fn submit_reports_repository_conflict() {
    let service = VacancyApplicationService::new(
        Arc::new(ConflictRepository),
        Arc::new(MemoryAlerts::default()),
        evaluation_config(),
    );
    match service.submit(submission()) {
        Err(ApplicationServiceError::Repository(RepositoryError::Conflict)) => {}
        other => panic!("expected conflict, got {other:?}"),
    }
}

#[test]
fn alert_failure_propagates_after_the_update() {
    let repository = Arc::new(MemoryRepository::default());
    let service = VacancyApplicationService::new(
        repository.clone(),
        Arc::new(FailingAlerts),
        evaluation_config(),
    );
    let record = service.submit(submission()).expect("stored");
    match service.evaluate(&record.profile.application_id) {
        Err(ApplicationServiceError::Alert(AlertError::Transport(_))) => {}
        other => panic!("expected alert failure, got {other:?}"),
    }
    let stored = repository
        .fetch(&record.profile.application_id)
        .expect("fetch")
        .expect("present");
    assert_eq!(stored.status, VacancyApplicationStatus::Approved);
}

struct UnavailableRepository;

impl ApplicationRepository for UnavailableRepository {
    fn insert(&self, _record: ApplicationRecord) -> Result<ApplicationRecord, RepositoryError> {
        Err(RepositoryError::Unavailable("database offline".to_string()))
    }

    fn update(&self, _record: ApplicationRecord) -> Result<(), RepositoryError> {
        Err(RepositoryError::Unavailable("database offline".to_string()))
    }

    fn fetch(&self, _id: &ApplicationId) -> Result<Option<ApplicationRecord>, RepositoryError> {
        Err(RepositoryError::Unavailable("database offline".to_string()))
    }

    fn pending(&self, _limit: usize) -> Result<Vec<ApplicationRecord>, RepositoryError> {
        Err(RepositoryError::Unavailable("database offline".to_string()))
    }
}

#[test]
fn status_lookup_reports_stored_and_missing_applications() {
    let (service, _, _) = build_service();
    let record = service.submit(submission()).expect("submission succeeds");
    let found = service
        .status_lookup(&record.profile.application_id)
        .expect("lookup");
    assert_eq!(found.application_id, record.profile.application_id);
    assert_eq!(found.status, "submitted");
    assert_eq!(found.decision_rationale, "pending evaluation");
    assert_eq!(found.total_score, None);

    service
        .evaluate(&record.profile.application_id)
        .expect("evaluation");
    let evaluated = service
        .status_lookup(&record.profile.application_id)
        .expect("lookup");
    assert_eq!(evaluated.status, "approved");
    assert_eq!(evaluated.decision_rationale, "application approved");
    assert_eq!(evaluated.total_score, Some(70));

    let missing = service
        .status_lookup(&ApplicationId("app-missing".to_string()))
        .expect("lookup");
    assert_eq!(missing.application_id, ApplicationId("app-missing".to_string()));
    assert_eq!(missing.status, "submitted");
    assert_eq!(missing.decision_rationale, "pending evaluation");
    assert_eq!(missing.total_score, None);
}

#[test]
fn status_lookup_propagates_repository_failures() {
    let service = VacancyApplicationService::new(
        Arc::new(UnavailableRepository),
        Arc::new(MemoryAlerts::default()),
        evaluation_config(),
    );
    match service.status_lookup(&ApplicationId("app-unknown".to_string())) {
        Err(ApplicationServiceError::Repository(RepositoryError::Unavailable(_))) => {}
        other => panic!("expected repository failure, got {other:?}"),
    }
}

struct FixedIds;

impl ApplicationIdGenerator for FixedIds {
    fn next_application_id(&self) -> ApplicationId {
        ApplicationId("app-fixed".to_string())
    }
}

#[test]
fn injected_id_generator_names_submissions() {
    let repository = Arc::new(MemoryRepository::default());
    let service = VacancyApplicationService::with_id_generator(
        repository.clone(),
        Arc::new(MemoryAlerts::default()),
        evaluation_config(),
        FixedIds,
    );
    let first = service.submit(submission()).expect("stored");
    assert_eq!(first.profile.application_id, ApplicationId("app-fixed".to_string()));
    match service.submit(submission()) {
        Err(ApplicationServiceError::Repository(RepositoryError::Conflict)) => {}
        other => panic!("expected conflict, got {other:?}"),
    }
}

#[test]
fn evaluation_step_follows_the_fetched_record() {
    let engine = evaluation_engine();
    match evaluation_step(&engine, Ok(None)) {
        Err(ApplicationServiceError::Repository(RepositoryError::NotFound)) => {}
        other => panic!("expected not found, got {other:?}"),
    }
    match evaluation_step(&engine, Err(RepositoryError::Unavailable("down".to_string()))) {
        Err(ApplicationServiceError::Repository(RepositoryError::Unavailable(m))) => {
            assert_eq!(m, "down")
        }
        other => panic!("expected unavailable, got {other:?}"),
    }
    let record = ApplicationRecord {
        profile: guard_profile("step", hundredths(20), Some(720)),
        status: VacancyApplicationStatus::Submitted,
        evaluation: None,
    };
    let (updated, outcome, alert) =
        evaluation_step(&engine, Ok(Some(record.clone()))).expect("scored");
    assert_eq!(outcome, engine.score(&record.profile));
    assert_eq!(updated.profile, record.profile);
    assert_eq!(updated.status, VacancyApplicationStatus::Approved);
    assert_eq!(updated.evaluation, Some(outcome.clone()));
    let alert = alert.expect("approval alert");
    assert_eq!(alert.template, "applicant_approved");
    assert_eq!(alert.application_id, record.profile.application_id);

    let mut low = record.clone();
    low.profile.credit_score = Some(500);
    low.profile
        .lawful_factors
        .insert(LawfulFactorKind::CreditScore, LawfulFactorValue::Count(500));
    let (updated, _, alert) = evaluation_step(&engine, Ok(Some(low))).expect("scored");
    assert_eq!(updated.status, VacancyApplicationStatus::Denied);
    assert!(alert.is_none());
}

#[test]
fn submitted_record_takes_the_fresh_identifier() {
    let profile = guard_profile("placeholder", hundredths(20), Some(720));
    let record = submitted_record(profile.clone(), ApplicationId("app-000042".to_string()));
    assert_eq!(record.profile.application_id, ApplicationId("app-000042".to_string()));
    assert_eq!(record.profile.listing, profile.listing);
    assert_eq!(record.status, VacancyApplicationStatus::Submitted);
    assert!(record.evaluation.is_none());
    match record_of_fetched(Ok(Some(record.clone()))) {
        Ok(found) => assert_eq!(found, record),
        other => panic!("expected the record, got {other:?}"),
    }
    assert!(matches!(
        record_of_fetched(Ok(None)),
        Err(ApplicationServiceError::Repository(RepositoryError::NotFound))
    ));
}

#[test]
fn eviction_counts_beyond_a_byte_are_still_excessive() {
    let engine = evaluation_engine();
    let mut profile = guard_profile("many", hundredths(20), Some(720));
    profile
        .lawful_factors
        .insert(LawfulFactorKind::RentalHistory, LawfulFactorValue::Count(256));
    let outcome = engine.score(&profile);
    assert_eq!(outcome.components[2].score, -25);
    assert!(matches!(
        outcome.decision,
        ApplicationDecision::Denied(DenialReason::ExcessiveEvictions(255))
    ));
}
