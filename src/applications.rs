use crate::calendar::CalendarDate;
use crate::ratio::Ratio;
use vstd::prelude::*;

verus! {

/// Identifier of a submitted application.
#[derive(Debug, Clone, PartialEq, Eq, Hash)]
pub struct ApplicationId(pub String);

/// The advertised vacancy as the applicant saw it.
#[derive(Debug, Clone, PartialEq, Eq)]
pub struct VacancyListingSnapshot {
    pub unit_id: String,
    pub property_code: String,
    pub listed_rent: u32,
    pub available_on: CalendarDate,
    pub deposit_required: u32,
}

/// An applicant's submission, as received.
#[derive(Debug, Clone, PartialEq, Eq)]
pub struct ApplicationSubmission {
    pub listing: VacancyListingSnapshot,
    pub household: HouseholdComposition,
    pub screening_answers: ScreeningAnswers,
    pub income: IncomeDeclaration,
    pub rental_history: Vec<RentalReference>,
    pub credit_score: Option<u16>,
    pub criminal_history: Vec<CriminalRecord>,
    pub supporting_documents: Vec<DocumentDescriptor>,
}

/// Household size, recorded without any protected characteristic.
#[derive(Debug, Clone, Copy, PartialEq, Eq)]
pub struct HouseholdComposition {
    pub adults: u8,
    pub children: u8,
    pub bedrooms_required: u8,
}

/// Answers collected alike from every applicant.
#[derive(Debug, Clone, PartialEq, Eq)]
pub struct ScreeningAnswers {
    pub pets: bool,
    pub service_animals: bool,
    pub smoker: bool,
    pub requested_accessibility_accommodations: Vec<String>,
    pub requested_move_in: CalendarDate,
    pub disclosed_vouchers: Vec<SubsidyProgram>,
    pub prohibited_preferences: Vec<ProhibitedScreeningPractice>,
}

/// Declared monthly income and its documentation.
#[derive(Debug, Clone, PartialEq, Eq)]
pub struct IncomeDeclaration {
    pub gross_monthly_income: u32,
    pub verified_income_sources: Vec<String>,
    pub housing_voucher_amount: Option<u32>,
}

/// A landlord reference.
#[derive(Debug, Clone, PartialEq, Eq)]
pub struct RentalReference {
    pub property_name: String,
    pub paid_on_time: bool,
    pub filed_eviction: bool,
    pub tenancy_start: CalendarDate,
    pub tenancy_end: Option<CalendarDate>,
}

#[derive(Debug, Clone, PartialEq, Eq)]
pub struct CriminalRecord {
    pub classification: CriminalClassification,
    pub years_since: u8,
    pub jurisdiction: String,
    pub description: String,
}

#[derive(Debug, Clone, Copy, PartialEq, Eq, Structural)]
pub enum CriminalClassification {
    ViolentFelony,
    NonViolentFelony,
    Misdemeanor,
}

#[derive(Debug, Clone, PartialEq, Eq)]
pub struct DocumentDescriptor {
    pub name: String,
    pub category: DocumentCategory,
    pub storage_key: String,
}

#[derive(Debug, Clone, Copy, PartialEq, Eq, Structural)]
pub enum DocumentCategory {
    Identification,
    IncomeVerification,
    RentalReference,
    SpecialProgram,
    Misc,
}

/// Screening practices that fair-housing law forbids.
#[derive(Debug, Clone, PartialEq, Eq)]
pub enum ProhibitedScreeningPractice {
    SteeringBasedOnFamilialStatus,
    SourceOfIncomeDiscrimination,
    BlanketCriminalHistoryBan,
    DisparateResponseCadence,
    ProtectedClassInquiry { field: String },
}

#[derive(Debug, Clone, PartialEq, Eq)]
pub struct SubsidyProgram {
    pub program: String,
    pub monthly_amount: u32,
}

/// The factors that scoring may read.
#[derive(Debug, Clone, Copy, PartialEq, Eq, PartialOrd, Ord, Hash, Structural)]
pub enum LawfulFactorKind {
    RentToIncome,
    CreditScore,
    RentalHistory,
    CriminalHistoryWindow,
    VoucherCoverage,
    IowaSecurityDepositCompliance,
}

#[derive(Debug, Clone, PartialEq, Eq)]
pub enum LawfulFactorValue {
    Decimal(Ratio),
    Boolean(bool),
    Count(u32),
    Text(String),
}

/// The lawful factors of a profile: at most one value for each kind, listed in the
/// order of the kinds.
#[derive(Debug, Clone, PartialEq, Eq)]
pub struct LawfulFactors {
    rent_to_income: Option<LawfulFactorValue>,
    credit_score: Option<LawfulFactorValue>,
    rental_history: Option<LawfulFactorValue>,
    criminal_history_window: Option<LawfulFactorValue>,
    voucher_coverage: Option<LawfulFactorValue>,
    deposit_compliance: Option<LawfulFactorValue>,
}

impl LawfulFactors {
    pub closed spec fn spec_get(&self, kind: LawfulFactorKind) -> Option<LawfulFactorValue> {
        match kind {
            LawfulFactorKind::RentToIncome => self.rent_to_income,
            LawfulFactorKind::CreditScore => self.credit_score,
            LawfulFactorKind::RentalHistory => self.rental_history,
            LawfulFactorKind::CriminalHistoryWindow => self.criminal_history_window,
            LawfulFactorKind::VoucherCoverage => self.voucher_coverage,
            LawfulFactorKind::IowaSecurityDepositCompliance => self.deposit_compliance,
        }
    }

    pub fn new() -> (r: LawfulFactors)
        ensures
            forall|k: LawfulFactorKind| r.spec_get(k) is None,
    {
        LawfulFactors {
            rent_to_income: None,
            credit_score: None,
            rental_history: None,
            criminal_history_window: None,
            voucher_coverage: None,
            deposit_compliance: None,
        }
    }

    /// Sets the value of `kind`, returning the value it replaced.
    pub fn insert(&mut self, kind: LawfulFactorKind, value: LawfulFactorValue) -> (r: Option<
        LawfulFactorValue,
    >)
        ensures
            r == old(self).spec_get(kind),
            final(self).spec_get(kind) == Some(value),
            forall|k: LawfulFactorKind| k != kind ==> final(self).spec_get(k) == old(self).spec_get(k),
    {
        match kind {
            LawfulFactorKind::RentToIncome => {
                let prev = self.rent_to_income.take();
                self.rent_to_income = Some(value);
                prev
            },
            LawfulFactorKind::CreditScore => {
                let prev = self.credit_score.take();
                self.credit_score = Some(value);
                prev
            },
            LawfulFactorKind::RentalHistory => {
                let prev = self.rental_history.take();
                self.rental_history = Some(value);
                prev
            },
            LawfulFactorKind::CriminalHistoryWindow => {
                let prev = self.criminal_history_window.take();
                self.criminal_history_window = Some(value);
                prev
            },
            LawfulFactorKind::VoucherCoverage => {
                let prev = self.voucher_coverage.take();
                self.voucher_coverage = Some(value);
                prev
            },
            LawfulFactorKind::IowaSecurityDepositCompliance => {
                let prev = self.deposit_compliance.take();
                self.deposit_compliance = Some(value);
                prev
            },
        }
    }

    pub fn get(&self, kind: &LawfulFactorKind) -> (r: Option<&LawfulFactorValue>)
        ensures
            match r {
                Some(v) => self.spec_get(*kind) == Some(*v),
                None => self.spec_get(*kind) is None,
            },
    {
        match kind {
            LawfulFactorKind::RentToIncome => self.rent_to_income.as_ref(),
            LawfulFactorKind::CreditScore => self.credit_score.as_ref(),
            LawfulFactorKind::RentalHistory => self.rental_history.as_ref(),
            LawfulFactorKind::CriminalHistoryWindow => self.criminal_history_window.as_ref(),
            LawfulFactorKind::VoucherCoverage => self.voucher_coverage.as_ref(),
            LawfulFactorKind::IowaSecurityDepositCompliance => self.deposit_compliance.as_ref(),
        }
    }

    pub fn contains_key(&self, kind: &LawfulFactorKind) -> (r: bool)
        ensures
            r == self.spec_get(*kind) is Some,
    {
        self.get(kind).is_some()
    }
}

/// The applicant data that scoring may see, made only by the compliance guard.
#[derive(Debug, Clone, PartialEq, Eq)]
pub struct ApplicantProfile {
    pub application_id: ApplicationId,
    pub lawful_factors: LawfulFactors,
    pub household: HouseholdComposition,
    pub listing: VacancyListingSnapshot,
    pub declared_income: IncomeDeclaration,
    pub rental_history: Vec<RentalReference>,
    pub credit_score: Option<u16>,
    pub criminal_history: Vec<CriminalRecord>,
    pub accommodations: Vec<String>,
}

#[derive(Debug, Clone, Copy, PartialEq, Eq, Structural)]
pub enum VacancyApplicationStatus {
    Submitted,
    UnderReview,
    Approved,
    Denied,
    Waitlisted,
}

impl VacancyApplicationStatus {
    pub open spec fn spec_label(self) -> &'static str {
        match self {
            VacancyApplicationStatus::Submitted => "submitted",
            VacancyApplicationStatus::UnderReview => "under_review",
            VacancyApplicationStatus::Approved => "approved",
            VacancyApplicationStatus::Denied => "denied",
            VacancyApplicationStatus::Waitlisted => "waitlisted",
        }
    }

    pub fn label(self) -> (r: &'static str)
        ensures
            r == self.spec_label(),
    {
        match self {
            VacancyApplicationStatus::Submitted => "submitted",
            VacancyApplicationStatus::UnderReview => "under_review",
            VacancyApplicationStatus::Approved => "approved",
            VacancyApplicationStatus::Denied => "denied",
            VacancyApplicationStatus::Waitlisted => "waitlisted",
        }
    }
}

/// The wire name of a status.
pub fn status_to_str(status: VacancyApplicationStatus) -> (r: &'static str)
    ensures
        r == status.spec_label(),
{
    status.label()
}

} // verus!
