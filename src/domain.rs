use crate::calendar::CalendarDate;
use vstd::prelude::*;

verus! {

/// The four stages of a vacancy, in the order in which they run.
#[derive(Debug, Clone, Copy, PartialEq, Eq, Hash, Structural)]
pub enum VacancyStage {
    MarketingAndAdvertising,
    ScreeningAndApplication,
    LeaseSigningAndMoveIn,
    Handoff,
}

impl VacancyStage {
    /// Position of the stage in the vacancy timeline.
    pub open spec fn index(self) -> int {
        match self {
            VacancyStage::MarketingAndAdvertising => 0,
            VacancyStage::ScreeningAndApplication => 1,
            VacancyStage::LeaseSigningAndMoveIn => 2,
            VacancyStage::Handoff => 3,
        }
    }

    pub open spec fn spec_ordered() -> Seq<VacancyStage> {
        seq![
            VacancyStage::MarketingAndAdvertising,
            VacancyStage::ScreeningAndApplication,
            VacancyStage::LeaseSigningAndMoveIn,
            VacancyStage::Handoff,
        ]
    }

    pub fn ordered() -> (r: [VacancyStage; 4])
        ensures
            r@ == Self::spec_ordered(),
    {
        let r = [
            VacancyStage::MarketingAndAdvertising,
            VacancyStage::ScreeningAndApplication,
            VacancyStage::LeaseSigningAndMoveIn,
            VacancyStage::Handoff,
        ];
        assert(r@ =~= Self::spec_ordered());
        r
    }

    pub fn position(self) -> (r: usize)
        ensures
            r == self.index(),
            r < 4,
            Self::spec_ordered()[r as int] == self,
    {
        match self {
            VacancyStage::MarketingAndAdvertising => 0,
            VacancyStage::ScreeningAndApplication => 1,
            VacancyStage::LeaseSigningAndMoveIn => 2,
            VacancyStage::Handoff => 3,
        }
    }

    pub open spec fn spec_label(self) -> &'static str {
        match self {
            VacancyStage::MarketingAndAdvertising => "Marketing & Advertising",
            VacancyStage::ScreeningAndApplication => "Screening & Application",
            VacancyStage::LeaseSigningAndMoveIn => "Lease Signing & Move-In",
            VacancyStage::Handoff => "Handoff",
        }
    }

    pub fn label(self) -> (r: &'static str)
        ensures
            r == self.spec_label(),
    {
        match self {
            VacancyStage::MarketingAndAdvertising => "Marketing & Advertising",
            VacancyStage::ScreeningAndApplication => "Screening & Application",
            VacancyStage::LeaseSigningAndMoveIn => "Lease Signing & Move-In",
            VacancyStage::Handoff => "Handoff",
        }
    }
}

/// The role primarily responsible for a task.
#[derive(Debug, Clone, Copy, PartialEq, Eq, Hash, Structural)]
pub enum VacancyRole {
    LeasingAgent,
    ComplianceCoordinator,
    PropertyManager,
    PropertyManagerAccounting,
}

impl VacancyRole {
    pub open spec fn index(self) -> int {
        match self {
            VacancyRole::LeasingAgent => 0,
            VacancyRole::ComplianceCoordinator => 1,
            VacancyRole::PropertyManager => 2,
            VacancyRole::PropertyManagerAccounting => 3,
        }
    }

    pub open spec fn spec_ordered() -> Seq<VacancyRole> {
        seq![
            VacancyRole::LeasingAgent,
            VacancyRole::ComplianceCoordinator,
            VacancyRole::PropertyManager,
            VacancyRole::PropertyManagerAccounting,
        ]
    }

    pub fn ordered() -> (r: [VacancyRole; 4])
        ensures
            r@ == Self::spec_ordered(),
    {
        let r = [
            VacancyRole::LeasingAgent,
            VacancyRole::ComplianceCoordinator,
            VacancyRole::PropertyManager,
            VacancyRole::PropertyManagerAccounting,
        ];
        assert(r@ =~= Self::spec_ordered());
        r
    }

    pub fn position(self) -> (r: usize)
        ensures
            r == self.index(),
            r < 4,
            Self::spec_ordered()[r as int] == self,
    {
        match self {
            VacancyRole::LeasingAgent => 0,
            VacancyRole::ComplianceCoordinator => 1,
            VacancyRole::PropertyManager => 2,
            VacancyRole::PropertyManagerAccounting => 3,
        }
    }

    pub open spec fn spec_label(self) -> &'static str {
        match self {
            VacancyRole::LeasingAgent => "Leasing Agent",
            VacancyRole::ComplianceCoordinator => "Compliance Coordinator",
            VacancyRole::PropertyManager => "Property Manager",
            VacancyRole::PropertyManagerAccounting => "Property Manager (Accounting)",
        }
    }

    pub fn label(self) -> (r: &'static str)
        ensures
            r == self.spec_label(),
    {
        match self {
            VacancyRole::LeasingAgent => "Leasing Agent",
            VacancyRole::ComplianceCoordinator => "Compliance Coordinator",
            VacancyRole::PropertyManager => "Property Manager",
            VacancyRole::PropertyManagerAccounting => "Property Manager (Accounting)",
        }
    }
}

#[derive(Debug, Clone, Copy, PartialEq, Eq, Structural)]
pub enum TaskStatus {
    NotStarted,
    InProgress,
    Completed,
    Blocked,
}

impl TaskStatus {
    pub open spec fn spec_label(self) -> &'static str {
        match self {
            TaskStatus::NotStarted => "Not Started",
            TaskStatus::InProgress => "In Progress",
            TaskStatus::Completed => "Completed",
            TaskStatus::Blocked => "Blocked",
        }
    }

    pub fn label(self) -> (r: &'static str)
        ensures
            r == self.spec_label(),
    {
        match self {
            TaskStatus::NotStarted => "Not Started",
            TaskStatus::InProgress => "In Progress",
            TaskStatus::Completed => "Completed",
            TaskStatus::Blocked => "Blocked",
        }
    }
}

#[derive(Debug, Clone, Copy, PartialEq, Eq, Structural)]
pub enum ComplianceSeverity {
    Warning,
    Critical,
}

impl ComplianceSeverity {
    pub open spec fn spec_label(self) -> &'static str {
        match self {
            ComplianceSeverity::Warning => "Warning",
            ComplianceSeverity::Critical => "Critical",
        }
    }

    pub fn label(self) -> (r: &'static str)
        ensures
            r == self.spec_label(),
    {
        match self {
            ComplianceSeverity::Warning => "Warning",
            ComplianceSeverity::Critical => "Critical",
        }
    }
}

/// How a task's due date follows from the vacancy start and the target move-in.
#[derive(Debug, Clone, Copy, PartialEq, Eq, Structural)]
pub enum DueDateRule {
    DaysFromVacancy(i64),
    DaysBeforeMoveIn(u32),
    OnMoveIn,
}

impl DueDateRule {
    /// The due day number: an offset from the vacancy start, an offset before the
    /// move-in, or the move-in itself. No clamping is applied.
    pub open spec fn due_day(self, vacancy_start: CalendarDate, target_move_in: CalendarDate) -> int {
        match self {
            DueDateRule::DaysFromVacancy(offset) => vacancy_start.day_number + offset,
            DueDateRule::DaysBeforeMoveIn(days) => target_move_in.day_number - days,
            DueDateRule::OnMoveIn => target_move_in.day_number as int,
        }
    }

    /// The due day fits the date representation.
    pub open spec fn resolvable(self, vacancy_start: CalendarDate, target_move_in: CalendarDate) -> bool {
        i64::MIN <= self.due_day(vacancy_start, target_move_in) <= i64::MAX
    }

    pub fn resolve(&self, vacancy_start: CalendarDate, target_move_in: CalendarDate) -> (r:
        CalendarDate)
        requires
            self.resolvable(vacancy_start, target_move_in),
        ensures
            r.day_number == self.due_day(vacancy_start, target_move_in),
    {
        match self {
            DueDateRule::DaysFromVacancy(offset) => vacancy_start.plus_days(*offset),
            DueDateRule::DaysBeforeMoveIn(days) => target_move_in.minus_days(*days as i64),
            DueDateRule::OnMoveIn => target_move_in,
        }
    }
}

/// A rule measured back from the move-in gives the same due date whatever the vacancy
/// start: `N` days before the target move-in.
pub proof fn due_before_move_in_ignores_start(
    days: u32,
    first_start: CalendarDate,
    second_start: CalendarDate,
    target_move_in: CalendarDate,
)
    ensures
        DueDateRule::DaysBeforeMoveIn(days).due_day(first_start, target_move_in)
            == target_move_in.day_number - days,
        DueDateRule::DaysBeforeMoveIn(days).due_day(first_start, target_move_in)
            == DueDateRule::DaysBeforeMoveIn(days).due_day(second_start, target_move_in),
{
}

#[derive(Debug, Clone, Copy, PartialEq, Eq)]
pub struct ComplianceNote {
    pub topic: &'static str,
    pub detail: &'static str,
}

/// An immutable task of the vacancy catalog.
#[derive(Debug, Clone)]
pub struct TaskTemplate {
    pub key: &'static str,
    pub name: &'static str,
    pub stage: VacancyStage,
    pub primary_role: VacancyRole,
    pub due: DueDateRule,
    pub deliverables: Vec<&'static str>,
    pub compliance: Vec<ComplianceNote>,
}

impl TaskTemplate {
    /// Two templates that agree field by field.
    pub open spec fn same_as(self, other: TaskTemplate) -> bool {
        &&& self.key == other.key
        &&& self.name == other.name
        &&& self.stage == other.stage
        &&& self.primary_role == other.primary_role
        &&& self.due == other.due
        &&& self.deliverables@ == other.deliverables@
        &&& self.compliance@ == other.compliance@
    }

    /// A field-by-field copy of the template.
    pub fn duplicate(&self) -> (r: TaskTemplate)
        ensures
            r.same_as(*self),
    {
        let mut deliverables: Vec<&'static str> = Vec::new();
        let mut i: usize = 0;
        while i < self.deliverables.len()
            invariant
                i <= self.deliverables.len(),
                deliverables@ == self.deliverables@.subrange(0, i as int),
            decreases self.deliverables.len() - i,
        {
            deliverables.push(self.deliverables[i]);
            i += 1;
            assert(deliverables@ =~= self.deliverables@.subrange(0, i as int));
        }
        assert(deliverables@ =~= self.deliverables@);
        let mut compliance: Vec<ComplianceNote> = Vec::new();
        let mut j: usize = 0;
        while j < self.compliance.len()
            invariant
                j <= self.compliance.len(),
                compliance@ == self.compliance@.subrange(0, j as int),
            decreases self.compliance.len() - j,
        {
            compliance.push(self.compliance[j]);
            j += 1;
            assert(compliance@ =~= self.compliance@.subrange(0, j as int));
        }
        assert(compliance@ =~= self.compliance@);
        TaskTemplate {
            key: self.key,
            name: self.name,
            stage: self.stage,
            primary_role: self.primary_role,
            due: self.due,
            deliverables,
            compliance,
        }
    }
}

#[derive(Debug)]
pub enum VacancyError {
    TaskNotFound(String),
}

impl VacancyError {
    /// The message that describes the error.
    pub fn message(&self) -> (r: String)
        ensures
            self matches VacancyError::TaskNotFound(key) ==> r@ == "task with key "@ + key@
                + " not found"@,
    {
        match self {
            VacancyError::TaskNotFound(key) => {
                let mut text = String::from_str("task with key ");
                text.append(key.as_str());
                text.append(" not found");
                text
            },
        }
    }
}

} // verus!
