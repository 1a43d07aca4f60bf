//! Vacancy workflow tracking and rental application screening.
//!
//! Two engines make up the library: a templated task state machine that follows a
//! vacant unit from listing to move-in, and a compliance and evaluation pipeline that
//! turns an applicant's submission into a lawful-factor profile and a decision.
mod apollo;
mod applications;
mod blueprint;
mod calendar;
mod compliance;
mod config;
mod domain;
mod evaluation;
mod insights;
mod instance;
mod ordering;
mod ratio;
mod report;
mod service;
mod text;

// Dates, quotients, text and ordering.
pub use calendar::{civil_of_day_number, ymd_day_number, CalendarDate};
pub use ordering::{insert_by_due, sort_by_due, sorted_by_due, DueOrdered};
pub use ratio::{fixed2_text, percent_text, Ratio};
pub use text::{decimal, decimal_text, digit_char, signed_text, str_eq};

// The vacancy workflow: catalog, instance, report and insights.
pub use blueprint::{
    carries_texts, follows_plan, standard_plan, standard_texts, VacancyWorkflowBlueprint,
};
pub use domain::{
    due_before_move_in_ignores_start, ComplianceNote, ComplianceSeverity, DueDateRule,
    TaskStatus, TaskTemplate, VacancyError, VacancyRole, VacancyStage,
};
pub use insights::{
    action_count, blocker_count, completed_count, elapsed_fraction, flag, focus_index,
    generate_insights, insights_of, lags_pace, observation_count, readiness_level_of,
    readiness_score_of, stages_outstanding, vacancy_report, ElapsedShare, ReadinessLevel,
    VacancyDataSource, VacancyInsights, VacancyReportResponse,
};
pub use instance::{
    due_slots, key_index, task_wf, with_status, DueSlot, TaskDetailView, TaskInstance,
    VacancyWorkflowInstance,
};
pub use report::{
    all_alerts, first_role_load, first_stage_progress, is_open, is_overdue, lemma_overdue_sorted,
    ordered_role_entries, ordered_stage_entries, overdue_snapshots, report_is_idempotent,
    role_entries, snapshot_of, stage_entries, summarizes, summary_of, task_alerts, ComplianceAlert,
    ComplianceAlertView, RoleLoad, RoleLoadEntry, StageProgress, StageProgressEntry, TaskSnapshot,
    TaskSnapshotView, VacancyReport, VacancyReportSummary,
};

// Applications: guard, evaluation and service.
pub use applications::{
    status_to_str, ApplicantProfile, ApplicationId, ApplicationSubmission, CriminalClassification,
    CriminalRecord, DocumentCategory, DocumentDescriptor, HouseholdComposition, IncomeDeclaration,
    LawfulFactorKind, LawfulFactorValue, LawfulFactors, ProhibitedScreeningPractice,
    RentalReference, ScreeningAnswers, SubsidyProgram, VacancyApplicationStatus,
    VacancyListingSnapshot,
};
pub use compliance::{
    ceil_of_product, count_evictions, deposit_cap, empty_income_sources_rejected, eviction_count,
    excess_deposit_rejected, expected_factor, fewest_years, fewest_years_since, first_violation,
    profile_of, sanitized_multiplier, saturated_u32, ComplianceGuard, CompliancePolicy,
    ComplianceViolation,
};
pub use evaluation::{
    component_parts, decide_outcome, decision_for, evictions, evictions_of, expected_components,
    first_recent_violent, is_recent_violent, points_sum, recent_violent_felony_needs_review,
    rent_ratio, rent_ratio_of, saturated_u8, score_profile, scored, scoring_is_deterministic,
    ApplicationDecision, DenialReason, EvaluationConfig, EvaluationEngine, EvaluationOutcome,
    ScoreComponent,
};
pub use service::{
    application_id_for, application_id_text, approval_alert, evaluated_record, evaluation_step,
    is_approval_alert, pending_view, record_of_fetched, spec_status_for, status_for,
    status_of_lookup, submitted_record, zero_padded, AlertError, AlertPublisher, AppFolioAlert,
    ApplicationIdGenerator, ApplicationIdSequence, ApplicationRecord, ApplicationRepository,
    ApplicationServiceError, ApplicationStatusView, RepositoryError, VacancyApplicationService,
};

// The task tracker's export and deployment settings.
pub use apollo::{
    apollo_name_map, apollo_name_map_spec, apply_record, apply_step, ascii_lower,
    fresh_standard_tasks, import_fold, is_invisible, is_white_space, iso_date_day, key_for,
    lemma_trim_unique, lookup_task_key, moment_of, moment_of_trimmed, normalize_name, normalized,
    parse_datetime, rfc3339_parts, task_key_for_normalized, trim_white_space, trimmed, trims_to,
    was_applied, ApolloRecord, ApolloRow, ApolloVacancyImporter, Moment,
};
pub use config::{environment_named, AppConfig, AppEnvironment, ServerConfig, TelemetryConfig};
