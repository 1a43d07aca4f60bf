use crate::calendar::CalendarDate;
use crate::domain::{ComplianceNote, ComplianceSeverity, TaskStatus, VacancyRole, VacancyStage};
use crate::instance::TaskInstance;
use crate::ordering::{insert_by_due, lemma_insert_keeps_sorted, sorted_by_due, DueOrdered};
use vstd::prelude::*;

verus! {

#[derive(Debug, Clone, Copy, PartialEq, Eq)]
pub struct StageProgress {
    pub completed: usize,
    pub total: usize,
}

#[derive(Debug, Clone, Copy, PartialEq, Eq)]
pub struct RoleLoad {
    pub open: usize,
    pub overdue: usize,
}

/// An overdue task as it stood when the report was built.
#[derive(Debug, Clone, Copy, PartialEq, Eq)]
pub struct TaskSnapshot {
    pub key: &'static str,
    pub name: &'static str,
    pub stage: VacancyStage,
    pub role: VacancyRole,
    pub due_date: CalendarDate,
    pub status: TaskStatus,
}

impl DueOrdered for TaskSnapshot {
    open spec fn due_key(&self) -> int {
        self.due_date.day_number as int
    }

    fn due_value(&self) -> (r: i64) {
        self.due_date.day_number
    }
}

#[derive(Debug, Clone, Copy, PartialEq, Eq)]
pub struct ComplianceAlert {
    pub task_key: &'static str,
    pub topic: &'static str,
    pub detail: &'static str,
    pub severity: ComplianceSeverity,
}

/// Aggregates of a workflow instance as of one day.
///
/// `stage_progress` and `role_load` hold one entry for each stage and role that some
/// task has, in the order of `VacancyStage::ordered` and `VacancyRole::ordered`.
#[derive(Debug)]
pub struct VacancyReport {
    pub stage_progress: Vec<(VacancyStage, StageProgress)>,
    pub role_load: Vec<(VacancyRole, RoleLoad)>,
    pub overdue_tasks: Vec<TaskSnapshot>,
    pub compliance_alerts: Vec<ComplianceAlert>,
}

/// A task is open while it is not completed.
pub open spec fn is_open(t: TaskInstance) -> bool {
    t.status != TaskStatus::Completed
}

/// An open task whose due date lies before `today`.
pub open spec fn is_overdue(t: TaskInstance, today: CalendarDate) -> bool {
    is_open(t) && t.due_date.day_number < today.day_number
}

pub open spec fn tasks_in_stage(tasks: Seq<TaskInstance>, s: VacancyStage) -> Seq<TaskInstance> {
    tasks.filter(|t: TaskInstance| t.template.stage == s)
}

pub open spec fn completed_in_stage(tasks: Seq<TaskInstance>, s: VacancyStage) -> Seq<TaskInstance> {
    tasks.filter(|t: TaskInstance| t.template.stage == s && t.status == TaskStatus::Completed)
}

pub open spec fn tasks_of_role(tasks: Seq<TaskInstance>, r: VacancyRole) -> Seq<TaskInstance> {
    tasks.filter(|t: TaskInstance| t.template.primary_role == r)
}

pub open spec fn open_of_role(tasks: Seq<TaskInstance>, r: VacancyRole) -> Seq<TaskInstance> {
    tasks.filter(|t: TaskInstance| t.template.primary_role == r && is_open(t))
}

pub open spec fn overdue_of_role(tasks: Seq<TaskInstance>, r: VacancyRole, today: CalendarDate) -> Seq<
    TaskInstance,
> {
    tasks.filter(|t: TaskInstance| t.template.primary_role == r && is_overdue(t, today))
}

/// The stage entries of a report: every stage that has a task, in stage order.
pub open spec fn stage_entries(tasks: Seq<TaskInstance>) -> Seq<(VacancyStage, StageProgress)> {
    VacancyStage::spec_ordered().filter(|s: VacancyStage| tasks_in_stage(tasks, s).len() > 0).map_values(
        |s: VacancyStage|
            (
                s,
                StageProgress {
                    completed: completed_in_stage(tasks, s).len() as usize,
                    total: tasks_in_stage(tasks, s).len() as usize,
                },
            ),
    )
}

/// The role entries of a report: every role that has a task, in role order.
pub open spec fn role_entries(tasks: Seq<TaskInstance>, today: CalendarDate) -> Seq<
    (VacancyRole, RoleLoad),
> {
    VacancyRole::spec_ordered().filter(|r: VacancyRole| tasks_of_role(tasks, r).len() > 0).map_values(
        |r: VacancyRole|
            (
                r,
                RoleLoad {
                    open: open_of_role(tasks, r).len() as usize,
                    overdue: overdue_of_role(tasks, r, today).len() as usize,
                },
            ),
    )
}

pub open spec fn snapshot_of(t: TaskInstance) -> TaskSnapshot {
    TaskSnapshot {
        key: t.template.key,
        name: t.template.name,
        stage: t.template.stage,
        role: t.template.primary_role,
        due_date: t.due_date,
        status: t.status,
    }
}

/// The overdue tasks, stably sorted by due date.
pub open spec fn overdue_snapshots(tasks: Seq<TaskInstance>, today: CalendarDate) -> Seq<TaskSnapshot>
    decreases tasks.len(),
{
    if tasks.len() == 0 {
        seq![]
    } else {
        let earlier = overdue_snapshots(tasks.drop_last(), today);
        if is_overdue(tasks.last(), today) {
            insert_by_due(earlier, snapshot_of(tasks.last()))
        } else {
            earlier
        }
    }
}

/// The overdue list is sorted by due date.
pub proof fn lemma_overdue_sorted(tasks: Seq<TaskInstance>, today: CalendarDate)
    ensures
        sorted_by_due(overdue_snapshots(tasks, today)),
    decreases tasks.len(),
{
    if tasks.len() > 0 {
        lemma_overdue_sorted(tasks.drop_last(), today);
        if is_overdue(tasks.last(), today) {
            lemma_insert_keeps_sorted(
                overdue_snapshots(tasks.drop_last(), today),
                snapshot_of(tasks.last()),
            );
        }
    }
}

/// Building a report twice from the same tasks and day gives the same stage and role
/// aggregates, the same overdue tasks in the same order, and the same alerts.
pub proof fn report_is_idempotent(
    tasks: Seq<TaskInstance>,
    today: CalendarDate,
    first: VacancyReport,
    second: VacancyReport,
)
    requires
        first.describes(tasks, today),
        second.describes(tasks, today),
    ensures
        first.stage_progress@ == second.stage_progress@,
        first.role_load@ == second.role_load@,
        first.overdue_tasks@ == second.overdue_tasks@,
        first.compliance_alerts@ == second.compliance_alerts@,
{
}

pub open spec fn alert_of(key: &'static str, note: ComplianceNote, severity: ComplianceSeverity) -> ComplianceAlert {
    ComplianceAlert { task_key: key, topic: note.topic, detail: note.detail, severity }
}

/// The alerts of one task: one per compliance note while the task is open, Critical
/// once it is overdue and Warning before.
pub open spec fn task_alerts(t: TaskInstance, today: CalendarDate) -> Seq<ComplianceAlert> {
    if !is_open(t) {
        seq![]
    } else {
        let severity = if is_overdue(t, today) {
            ComplianceSeverity::Critical
        } else {
            ComplianceSeverity::Warning
        };
        t.template.compliance@.map_values(|n: ComplianceNote| alert_of(t.template.key, n, severity))
    }
}

/// The alerts of all tasks, in catalog order.
pub open spec fn all_alerts(tasks: Seq<TaskInstance>, today: CalendarDate) -> Seq<ComplianceAlert>
    decreases tasks.len(),
{
    if tasks.len() == 0 {
        seq![]
    } else {
        all_alerts(tasks.drop_last(), today) + task_alerts(tasks.last(), today)
    }
}

#[derive(Debug, Clone, Copy, PartialEq, Eq)]
pub struct StageProgressEntry {
    pub stage: VacancyStage,
    pub stage_label: &'static str,
    pub completed: usize,
    pub total: usize,
}

#[derive(Debug, Clone, Copy, PartialEq, Eq)]
pub struct RoleLoadEntry {
    pub role: VacancyRole,
    pub role_label: &'static str,
    pub open: usize,
    pub overdue: usize,
}

#[derive(Debug, Clone, Copy, PartialEq, Eq)]
pub struct TaskSnapshotView {
    pub key: &'static str,
    pub name: &'static str,
    pub stage: VacancyStage,
    pub stage_label: &'static str,
    pub role: VacancyRole,
    pub role_label: &'static str,
    pub due_date: CalendarDate,
    pub status: TaskStatus,
    pub status_label: &'static str,
    pub completed_on: Option<CalendarDate>,
}

#[derive(Debug, Clone, Copy, PartialEq, Eq)]
pub struct ComplianceAlertView {
    pub task_key: &'static str,
    pub topic: &'static str,
    pub detail: &'static str,
    pub severity: ComplianceSeverity,
    pub severity_label: &'static str,
}

/// A report with the labels that people read.
#[derive(Debug, Clone)]
pub struct VacancyReportSummary {
    pub stage_progress: Vec<StageProgressEntry>,
    pub role_load: Vec<RoleLoadEntry>,
    pub overdue_tasks: Vec<TaskSnapshotView>,
    pub compliance_alerts: Vec<ComplianceAlertView>,
}

pub open spec fn stage_entry_of(e: (VacancyStage, StageProgress)) -> StageProgressEntry {
    StageProgressEntry {
        stage: e.0,
        stage_label: e.0.spec_label(),
        completed: e.1.completed,
        total: e.1.total,
    }
}

pub open spec fn role_entry_of(e: (VacancyRole, RoleLoad)) -> RoleLoadEntry {
    RoleLoadEntry { role: e.0, role_label: e.0.spec_label(), open: e.1.open, overdue: e.1.overdue }
}

impl TaskSnapshot {
    pub open spec fn spec_view(self) -> TaskSnapshotView {
        TaskSnapshotView {
            key: self.key,
            name: self.name,
            stage: self.stage,
            stage_label: self.stage.spec_label(),
            role: self.role,
            role_label: self.role.spec_label(),
            due_date: self.due_date,
            status: self.status,
            status_label: self.status.spec_label(),
            completed_on: None,
        }
    }

    pub fn to_view(&self) -> (r: TaskSnapshotView)
        ensures
            r == self.spec_view(),
    {
        TaskSnapshotView {
            key: self.key,
            name: self.name,
            stage: self.stage,
            stage_label: self.stage.label(),
            role: self.role,
            role_label: self.role.label(),
            due_date: self.due_date,
            status: self.status,
            status_label: self.status.label(),
            completed_on: None,
        }
    }
}

impl ComplianceAlert {
    pub open spec fn spec_view(self) -> ComplianceAlertView {
        ComplianceAlertView {
            task_key: self.task_key,
            topic: self.topic,
            detail: self.detail,
            severity: self.severity,
            severity_label: self.severity.spec_label(),
        }
    }

    pub fn to_view(&self) -> (r: ComplianceAlertView)
        ensures
            r == self.spec_view(),
    {
        ComplianceAlertView {
            task_key: self.task_key,
            topic: self.topic,
            detail: self.detail,
            severity: self.severity,
            severity_label: self.severity.label(),
        }
    }
}

/// `s` is the labelled form of `report`, entry for entry and in the same order.
impl VacancyReport {
    /// The report that `tasks` give as of `today`.
    pub open spec fn describes(&self, tasks: Seq<TaskInstance>, today: CalendarDate) -> bool {
        &&& self.stage_progress@ == stage_entries(tasks)
        &&& self.role_load@ == role_entries(tasks, today)
        &&& self.overdue_tasks@ == overdue_snapshots(tasks, today)
        &&& self.compliance_alerts@ == all_alerts(tasks, today)
    }
}

/// The progress that the first entry for stage `s` records, if any.
pub open spec fn first_stage_progress(entries: Seq<(VacancyStage, StageProgress)>, s: VacancyStage) -> Option<
    StageProgress,
>
    decreases entries.len(),
{
    if entries.len() == 0 {
        None
    } else {
        match first_stage_progress(entries.drop_last(), s) {
            Some(p) => Some(p),
            None => if entries.last().0 == s {
                Some(entries.last().1)
            } else {
                None
            },
        }
    }
}

/// The load that the first entry for role `r` records, if any.
pub open spec fn first_role_load(entries: Seq<(VacancyRole, RoleLoad)>, r: VacancyRole) -> Option<RoleLoad>
    decreases entries.len(),
{
    if entries.len() == 0 {
        None
    } else {
        match first_role_load(entries.drop_last(), r) {
            Some(l) => Some(l),
            None => if entries.last().0 == r {
                Some(entries.last().1)
            } else {
                None
            },
        }
    }
}

/// The labelled stage entries in stage order, one for each stage that has an entry.
pub open spec fn ordered_stage_entries(entries: Seq<(VacancyStage, StageProgress)>) -> Seq<
    StageProgressEntry,
> {
    VacancyStage::spec_ordered().filter(|s: VacancyStage| first_stage_progress(entries, s) is Some).map_values(
        |s: VacancyStage| stage_entry_of((s, first_stage_progress(entries, s)->Some_0)),
    )
}

/// The labelled role entries in role order, one for each role that has an entry.
pub open spec fn ordered_role_entries(entries: Seq<(VacancyRole, RoleLoad)>) -> Seq<RoleLoadEntry> {
    VacancyRole::spec_ordered().filter(|r: VacancyRole| first_role_load(entries, r) is Some).map_values(
        |r: VacancyRole| role_entry_of((r, first_role_load(entries, r)->Some_0)),
    )
}

/// `s` is the labelled form of `report`: stages and roles in catalog order, overdue
/// tasks and alerts entry for entry.
pub open spec fn summarizes(s: VacancyReportSummary, report: VacancyReport) -> bool {
    &&& s.stage_progress@ == ordered_stage_entries(report.stage_progress@)
    &&& s.role_load@ == ordered_role_entries(report.role_load@)
    &&& s.overdue_tasks@ == report.overdue_tasks@.map_values(|t: TaskSnapshot| t.spec_view())
    &&& s.compliance_alerts@ == report.compliance_alerts@.map_values(
        |a: ComplianceAlert| a.spec_view(),
    )
}

/// `s` is the labelled report of `tasks` as of `today`.
pub open spec fn summary_of(s: VacancyReportSummary, tasks: Seq<TaskInstance>, today: CalendarDate) -> bool {
    &&& s.stage_progress@ == ordered_stage_entries(stage_entries(tasks))
    &&& s.role_load@ == ordered_role_entries(role_entries(tasks, today))
    &&& s.overdue_tasks@ == overdue_snapshots(tasks, today).map_values(
        |t: TaskSnapshot| t.spec_view(),
    )
    &&& s.compliance_alerts@ == all_alerts(tasks, today).map_values(
        |a: ComplianceAlert| a.spec_view(),
    )
}

impl VacancyReport {
    /// The labelled form of the report, entry for entry and in the same order.
    pub fn summary(&self) -> (r: VacancyReportSummary)
        ensures
            summarizes(r, *self),
    {
        let stages = VacancyStage::ordered();
        let roles = VacancyRole::ordered();
        let mut stage_progress: Vec<StageProgressEntry> = Vec::new();
        let mut role_load: Vec<RoleLoadEntry> = Vec::new();
        let mut k: usize = 0;
        while k < 4
            invariant
                k <= 4,
                stages@ == VacancyStage::spec_ordered(),
                roles@ == VacancyRole::spec_ordered(),
                stage_progress@ == VacancyStage::spec_ordered().subrange(0, k as int).filter(
                    |s: VacancyStage| first_stage_progress(self.stage_progress@, s) is Some,
                ).map_values(
                    |s: VacancyStage|
                        stage_entry_of((s, first_stage_progress(self.stage_progress@, s)->Some_0)),
                ),
                role_load@ == VacancyRole::spec_ordered().subrange(0, k as int).filter(
                    |r: VacancyRole| first_role_load(self.role_load@, r) is Some,
                ).map_values(
                    |r: VacancyRole| role_entry_of((r, first_role_load(self.role_load@, r)->Some_0)),
                ),
            decreases 4 - k,
        {
            proof {
                reveal(Seq::filter);
                assert(VacancyStage::spec_ordered().subrange(0, k + 1).drop_last()
                    =~= VacancyStage::spec_ordered().subrange(0, k as int));
                assert(VacancyRole::spec_ordered().subrange(0, k + 1).drop_last()
                    =~= VacancyRole::spec_ordered().subrange(0, k as int));
            }
            let stage = stages[k];
            if let Some(progress) = self.stage(stage) {
                stage_progress.push(
                    StageProgressEntry {
                        stage,
                        stage_label: stage.label(),
                        completed: progress.completed,
                        total: progress.total,
                    },
                );
            }
            let role = roles[k];
            if let Some(load) = self.role(role) {
                role_load.push(
                    RoleLoadEntry {
                        role,
                        role_label: role.label(),
                        open: load.open,
                        overdue: load.overdue,
                    },
                );
            }
            k += 1;
            assert(stage_progress@ =~= VacancyStage::spec_ordered().subrange(0, k as int).filter(
                |s: VacancyStage| first_stage_progress(self.stage_progress@, s) is Some,
            ).map_values(
                |s: VacancyStage|
                    stage_entry_of((s, first_stage_progress(self.stage_progress@, s)->Some_0)),
            ));
            assert(role_load@ =~= VacancyRole::spec_ordered().subrange(0, k as int).filter(
                |r: VacancyRole| first_role_load(self.role_load@, r) is Some,
            ).map_values(|r: VacancyRole| role_entry_of((r, first_role_load(self.role_load@, r)->Some_0))));
        }
        assert(VacancyStage::spec_ordered().subrange(0, 4) =~= VacancyStage::spec_ordered());
        assert(VacancyRole::spec_ordered().subrange(0, 4) =~= VacancyRole::spec_ordered());
        let mut overdue_tasks: Vec<TaskSnapshotView> = Vec::new();
        let mut i: usize = 0;
        while i < self.overdue_tasks.len()
            invariant
                i <= self.overdue_tasks@.len(),
                overdue_tasks@ == self.overdue_tasks@.subrange(0, i as int).map_values(
                    |t: TaskSnapshot| t.spec_view(),
                ),
            decreases self.overdue_tasks.len() - i,
        {
            overdue_tasks.push(self.overdue_tasks[i].to_view());
            i += 1;
            assert(overdue_tasks@ =~= self.overdue_tasks@.subrange(0, i as int).map_values(
                |t: TaskSnapshot| t.spec_view(),
            ));
        }
        let mut compliance_alerts: Vec<ComplianceAlertView> = Vec::new();
        let mut i: usize = 0;
        while i < self.compliance_alerts.len()
            invariant
                i <= self.compliance_alerts@.len(),
                compliance_alerts@ == self.compliance_alerts@.subrange(0, i as int).map_values(
                    |a: ComplianceAlert| a.spec_view(),
                ),
            decreases self.compliance_alerts.len() - i,
        {
            compliance_alerts.push(self.compliance_alerts[i].to_view());
            i += 1;
            assert(compliance_alerts@ =~= self.compliance_alerts@.subrange(0, i as int).map_values(
                |a: ComplianceAlert| a.spec_view(),
            ));
        }
        assert(overdue_tasks@ =~= self.overdue_tasks@.map_values(|t: TaskSnapshot| t.spec_view()));
        assert(compliance_alerts@ =~= self.compliance_alerts@.map_values(
            |a: ComplianceAlert| a.spec_view(),
        ));
        VacancyReportSummary { stage_progress, role_load, overdue_tasks, compliance_alerts }
    }

    /// The progress that the first entry for `stage` records, if any.
    pub fn stage(&self, stage: VacancyStage) -> (r: Option<StageProgress>)
        ensures
            r == first_stage_progress(self.stage_progress@, stage),
    {
        let ghost entries = self.stage_progress@;
        let mut i: usize = 0;
        while i < self.stage_progress.len()
            invariant
                entries == self.stage_progress@,
                i <= entries.len(),
                first_stage_progress(entries.subrange(0, i as int), stage) is None,
            decreases self.stage_progress.len() - i,
        {
            proof {
                assert(entries.subrange(0, i + 1).drop_last() =~= entries.subrange(0, i as int));
            }
            if self.stage_progress[i].0 == stage {
                proof {
                    lemma_first_stage_prefix(entries, i + 1, stage);
                }
                return Some(self.stage_progress[i].1);
            }
            i += 1;
        }
        assert(entries.subrange(0, i as int) =~= entries);
        None
    }

    /// The load that the first entry for `role` records, if any.
    pub fn role(&self, role: VacancyRole) -> (r: Option<RoleLoad>)
        ensures
            r == first_role_load(self.role_load@, role),
    {
        let ghost entries = self.role_load@;
        let mut i: usize = 0;
        while i < self.role_load.len()
            invariant
                entries == self.role_load@,
                i <= entries.len(),
                first_role_load(entries.subrange(0, i as int), role) is None,
            decreases self.role_load.len() - i,
        {
            proof {
                assert(entries.subrange(0, i + 1).drop_last() =~= entries.subrange(0, i as int));
            }
            if self.role_load[i].0 == role {
                proof {
                    lemma_first_role_prefix(entries, i + 1, role);
                }
                return Some(self.role_load[i].1);
            }
            i += 1;
        }
        assert(entries.subrange(0, i as int) =~= entries);
        None
    }
}

proof fn lemma_first_stage_prefix(entries: Seq<(VacancyStage, StageProgress)>, n: int, s: VacancyStage)
    requires
        0 <= n <= entries.len(),
        first_stage_progress(entries.subrange(0, n), s) is Some,
    ensures
        first_stage_progress(entries, s) == first_stage_progress(entries.subrange(0, n), s),
    decreases entries.len() - n,
{
    if n == entries.len() {
        assert(entries.subrange(0, n) =~= entries);
    } else {
        assert(entries.subrange(0, n + 1).drop_last() =~= entries.subrange(0, n));
        lemma_first_stage_prefix(entries, n + 1, s);
    }
}

proof fn lemma_first_role_prefix(entries: Seq<(VacancyRole, RoleLoad)>, n: int, r: VacancyRole)
    requires
        0 <= n <= entries.len(),
        first_role_load(entries.subrange(0, n), r) is Some,
    ensures
        first_role_load(entries, r) == first_role_load(entries.subrange(0, n), r),
    decreases entries.len() - n,
{
    if n == entries.len() {
        assert(entries.subrange(0, n) =~= entries);
    } else {
        assert(entries.subrange(0, n + 1).drop_last() =~= entries.subrange(0, n));
        lemma_first_role_prefix(entries, n + 1, r);
    }
}

} // verus!
