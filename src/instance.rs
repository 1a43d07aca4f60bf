use crate::blueprint::VacancyWorkflowBlueprint;
use crate::calendar::CalendarDate;
use crate::domain::{
    ComplianceNote, ComplianceSeverity, TaskStatus, TaskTemplate, VacancyError, VacancyRole,
    VacancyStage,
};
use crate::ordering::{
    insert_due_ordered, lemma_sort_sorted, sort_by_due, sorted_by_due, DueOrdered,
};
use crate::report::{
    alert_of, all_alerts, completed_in_stage, lemma_overdue_sorted, open_of_role,
    overdue_of_role, overdue_snapshots, snapshot_of, tasks_in_stage, tasks_of_role,
    ComplianceAlert, RoleLoad, StageProgress, TaskSnapshot, VacancyReport,
};
use crate::text::str_eq;
use vstd::prelude::*;

verus! {

/// One catalog task bound to a vacancy.
#[derive(Debug, Clone)]
pub struct TaskInstance {
    pub template: TaskTemplate,
    pub due_date: CalendarDate,
    pub status: TaskStatus,
    pub completed_on: Option<CalendarDate>,
}

/// A task with the labels that people read, and its deliverables and compliance notes.
#[derive(Debug, Clone)]
pub struct TaskDetailView {
    pub key: &'static str,
    pub name: &'static str,
    pub stage: VacancyStage,
    pub stage_label: &'static str,
    pub role: VacancyRole,
    pub role_label: &'static str,
    pub due_date: CalendarDate,
    pub status: TaskStatus,
    pub status_label: &'static str,
    pub completed_on: Option<CalendarDate>,
    pub deliverables: Vec<&'static str>,
    pub compliance: Vec<ComplianceNote>,
}

impl TaskDetailView {
    /// The view shows task `t`.
    pub open spec fn shows(&self, t: TaskInstance) -> bool {
        &&& self.key == t.template.key
        &&& self.name == t.template.name
        &&& self.stage == t.template.stage
        &&& self.stage_label == t.template.stage.spec_label()
        &&& self.role == t.template.primary_role
        &&& self.role_label == t.template.primary_role.spec_label()
        &&& self.due_date == t.due_date
        &&& self.status == t.status
        &&& self.status_label == t.status.spec_label()
        &&& self.completed_on == t.completed_on
        &&& self.deliverables@ == t.template.deliverables@
        &&& self.compliance@ == t.template.compliance@
    }
}

impl TaskInstance {
    pub fn to_view(&self) -> (r: TaskDetailView)
        ensures
            r.shows(*self),
    {
        let template = self.template.duplicate();
        TaskDetailView {
            key: template.key,
            name: template.name,
            stage: template.stage,
            stage_label: template.stage.label(),
            role: template.primary_role,
            role_label: template.primary_role.label(),
            due_date: self.due_date,
            status: self.status,
            status_label: self.status.label(),
            completed_on: self.completed_on,
            deliverables: template.deliverables,
            compliance: template.compliance,
        }
    }
}

/// The position of a task in its instance, ordered by the task's due date.
#[derive(Debug, Clone, Copy, PartialEq, Eq)]
pub struct DueSlot {
    pub position: usize,
    pub due_date: CalendarDate,
}

impl DueOrdered for DueSlot {
    open spec fn due_key(&self) -> int {
        self.due_date.day_number as int
    }

    fn due_value(&self) -> (r: i64) {
        self.due_date.day_number
    }
}

/// The positions of the tasks with their due dates, in catalog order.
pub open spec fn due_slots(tasks: Seq<TaskInstance>) -> Seq<DueSlot> {
    Seq::new(tasks.len(), |i: int| DueSlot { position: i as usize, due_date: tasks[i].due_date })
}

/// The tasks of one vacancy, one per catalog template, in catalog order.
#[derive(Debug)]
pub struct VacancyWorkflowInstance {
    tasks: Vec<TaskInstance>,
}

/// A completion date is only ever held by a completed task.
pub open spec fn task_wf(t: TaskInstance) -> bool {
    t.completed_on is Some ==> t.status == TaskStatus::Completed
}

/// Index of the first task whose key is `key`, if any.
pub open spec fn key_index(tasks: Seq<TaskInstance>, key: Seq<char>) -> Option<int>
    decreases tasks.len(),
{
    if tasks.len() == 0 {
        None
    } else {
        match key_index(tasks.drop_last(), key) {
            Some(i) => Some(i),
            None => if tasks.last().template.key@ == key {
                Some(tasks.len() - 1)
            } else {
                None
            },
        }
    }
}

proof fn lemma_key_index<'a>(tasks: Seq<TaskInstance>, key: Seq<char>)
    ensures
        key_index(tasks, key) matches Some(i) ==> 0 <= i < tasks.len() && tasks[i].template.key@
            == key && forall|j: int| 0 <= j < i ==> tasks[j].template.key@ != key,
        key_index(tasks, key) is None ==> forall|j: int|
            0 <= j < tasks.len() ==> tasks[j].template.key@ != key,
    decreases tasks.len(),
{
    if tasks.len() > 0 {
        lemma_key_index(tasks.drop_last(), key);
        assert forall|j: int| 0 <= j < tasks.len() - 1 implies tasks.drop_last()[j] == tasks[j] by {}
    }
}

/// The task with its status set: a completion date is kept only for a completed task.
pub open spec fn with_status(t: TaskInstance, status: TaskStatus, completed_on: Option<CalendarDate>) -> TaskInstance {
    TaskInstance {
        template: t.template,
        due_date: t.due_date,
        status,
        completed_on: if status == TaskStatus::Completed {
            completed_on
        } else {
            None
        },
    }
}

impl VacancyWorkflowInstance {
    pub closed spec fn spec_tasks(&self) -> Seq<TaskInstance> {
        self.tasks@
    }

    pub open spec fn wf(&self) -> bool {
        forall|i: int| 0 <= i < self.spec_tasks().len() ==> task_wf(#[trigger] self.spec_tasks()[i])
    }

    /// Binds every template of the catalog to the vacancy, resolving its due date.
    pub fn new(
        blueprint: &VacancyWorkflowBlueprint,
        vacancy_start: CalendarDate,
        target_move_in: CalendarDate,
    ) -> (r: Self)
        requires
            forall|i: int|
                0 <= i < blueprint.spec_tasks().len() ==> (#[trigger] blueprint.spec_tasks()[i]).due.resolvable(
                    vacancy_start,
                    target_move_in,
                ),
        ensures
            r.wf(),
            r.spec_tasks().len() == blueprint.spec_tasks().len(),
            forall|i: int|
                0 <= i < r.spec_tasks().len() ==> {
                    let t = #[trigger] r.spec_tasks()[i];
                    let tpl = blueprint.spec_tasks()[i];
                    &&& t.template.same_as(tpl)
                    &&& t.due_date.day_number == tpl.due.due_day(vacancy_start, target_move_in)
                    &&& t.status == TaskStatus::NotStarted
                    &&& t.completed_on is None
                },
    {
        let templates = blueprint.task_templates();
        let mut tasks: Vec<TaskInstance> = Vec::new();
        let mut i: usize = 0;
        while i < templates.len()
            invariant
                i <= templates@.len(),
                templates@ == blueprint.spec_tasks(),
                tasks@.len() == i,
                forall|j: int|
                    0 <= j < blueprint.spec_tasks().len() ==> (#[trigger] blueprint.spec_tasks()[j]).due.resolvable(
                        vacancy_start,
                        target_move_in,
                    ),
                forall|j: int|
                    0 <= j < i ==> {
                        let t = #[trigger] tasks@[j];
                        let tpl = blueprint.spec_tasks()[j];
                        &&& t.template.same_as(tpl)
                        &&& t.due_date.day_number == tpl.due.due_day(vacancy_start, target_move_in)
                        &&& t.status == TaskStatus::NotStarted
                        &&& t.completed_on is None
                    },
            decreases templates.len() - i,
        {
            let template = templates[i].duplicate();
            let due_date = template.due.resolve(vacancy_start, target_move_in);
            tasks.push(
                TaskInstance { template, due_date, status: TaskStatus::NotStarted, completed_on: None },
            );
            i += 1;
        }
        VacancyWorkflowInstance { tasks }
    }

    /// Sets the status of the first task whose key is `task_key`; a completion date is
    /// kept only when the new status is Completed. Fails, changing nothing, when no
    /// task has that key.
    pub fn set_status(
        &mut self,
        task_key: &str,
        status: TaskStatus,
        completed_on: Option<CalendarDate>,
    ) -> (r: Result<(), VacancyError>)
        requires
            old(self).wf(),
        ensures
            final(self).wf(),
            final(self).spec_tasks().len() == old(self).spec_tasks().len(),
            match key_index(old(self).spec_tasks(), task_key@) {
                None => {
                    &&& r matches Err(VacancyError::TaskNotFound(k)) && k@ == task_key@
                    &&& final(self).spec_tasks() == old(self).spec_tasks()
                },
                Some(i) => {
                    &&& r is Ok
                    &&& final(self).spec_tasks() == old(self).spec_tasks().update(
                        i,
                        with_status(old(self).spec_tasks()[i], status, completed_on),
                    )
                },
            },
    {
        proof {
            lemma_key_index(self.tasks@, task_key@);
        }
        let mut i: usize = 0;
        while i < self.tasks.len()
            invariant
                i <= self.tasks@.len(),
                self.tasks@ == old(self).tasks@,
                old(self).wf(),
                key_index(self.tasks@, task_key@) matches Some(k) ==> i <= k,
                key_index(self.tasks@, task_key@) matches Some(k) ==> self.tasks@[k].template.key@
                    == task_key@ && forall|j: int| 0 <= j < k ==> self.tasks@[j].template.key@ != task_key@,
                key_index(self.tasks@, task_key@) is None ==> forall|j: int|
                    0 <= j < self.tasks@.len() ==> self.tasks@[j].template.key@ != task_key@,
            decreases self.tasks.len() - i,
        {
            if str_eq(self.tasks[i].template.key, task_key) {
                let old_tasks = Ghost(self.tasks@);
                let mut task = self.tasks.remove(i);
                task.status = status;
                task.completed_on = match status {
                    TaskStatus::Completed => completed_on,
                    _ => None,
                };
                self.tasks.insert(i, task);
                proof {
                    assert(self.tasks@ =~= old_tasks@.update(
                        i as int,
                        with_status(old_tasks@[i as int], status, completed_on),
                    ));
                    assert(key_index(old_tasks@, task_key@) == Some(i as int));
                    assert forall|j: int| 0 <= j < self.tasks@.len() implies task_wf(#[trigger] self.tasks@[j]) by {
                        if j != i {
                            assert(self.tasks@[j] == old_tasks@[j]);
                            assert(task_wf(old(self).spec_tasks()[j]));
                        }
                    }
                }
                return Ok(());
            }
            i += 1;
        }
        Err(VacancyError::TaskNotFound(task_key.to_owned()))
    }

    /// Folds the tasks, as of `today`, into stage progress, role load, the overdue tasks
    /// sorted by due date, and compliance alerts.
    pub fn report(&self, today: CalendarDate) -> (r: VacancyReport)
        ensures
            r.describes(self.spec_tasks(), today),
            sorted_by_due(r.overdue_tasks@),
    {
        proof {
            lemma_overdue_sorted(self.tasks@, today);
        }
        let tasks = &self.tasks;
        let mut stage_total: Vec<usize> = vec![0, 0, 0, 0];
        let mut stage_done: Vec<usize> = vec![0, 0, 0, 0];
        let mut role_total: Vec<usize> = vec![0, 0, 0, 0];
        let mut role_open: Vec<usize> = vec![0, 0, 0, 0];
        let mut role_overdue: Vec<usize> = vec![0, 0, 0, 0];
        let mut overdue_tasks: Vec<TaskSnapshot> = Vec::new();
        let mut compliance_alerts: Vec<ComplianceAlert> = Vec::new();
        let mut i: usize = 0;
        proof {
            reveal(Seq::filter);
        }
        while i < tasks.len()
            invariant
                i <= tasks@.len(),
                stage_total@.len() == 4 && stage_done@.len() == 4,
                role_total@.len() == 4 && role_open@.len() == 4 && role_overdue@.len() == 4,
                forall|k: int|
                    0 <= k < 4 ==> #[trigger] stage_total@[k] == tasks_in_stage(
                        tasks@.subrange(0, i as int),
                        VacancyStage::spec_ordered()[k],
                    ).len() && stage_total@[k] <= i,
                forall|k: int|
                    0 <= k < 4 ==> #[trigger] stage_done@[k] == completed_in_stage(
                        tasks@.subrange(0, i as int),
                        VacancyStage::spec_ordered()[k],
                    ).len() && stage_done@[k] <= i,
                forall|k: int|
                    0 <= k < 4 ==> #[trigger] role_total@[k] == tasks_of_role(
                        tasks@.subrange(0, i as int),
                        VacancyRole::spec_ordered()[k],
                    ).len() && role_total@[k] <= i,
                forall|k: int|
                    0 <= k < 4 ==> #[trigger] role_open@[k] == open_of_role(
                        tasks@.subrange(0, i as int),
                        VacancyRole::spec_ordered()[k],
                    ).len() && role_open@[k] <= i,
                forall|k: int|
                    0 <= k < 4 ==> #[trigger] role_overdue@[k] == overdue_of_role(
                        tasks@.subrange(0, i as int),
                        VacancyRole::spec_ordered()[k],
                        today,
                    ).len() && role_overdue@[k] <= i,
                overdue_tasks@ == overdue_snapshots(tasks@.subrange(0, i as int), today),
                compliance_alerts@ == all_alerts(tasks@.subrange(0, i as int), today),
            decreases tasks.len() - i,
        {
            let t = &tasks[i];
            let ghost prefix = tasks@.subrange(0, i as int);
            let ghost next = tasks@.subrange(0, i + 1);
            proof {
                assert(next.drop_last() =~= prefix);
                assert(next.last() == *t);
            }
            let s = t.template.stage.position();
            let ro = t.template.primary_role.position();
            let open = match t.status {
                TaskStatus::Completed => false,
                _ => true,
            };
            let overdue = open && t.due_date.is_before(today);
            stage_total.set(s, stage_total[s] + 1);
            if !open {
                stage_done.set(s, stage_done[s] + 1);
            }
            role_total.set(ro, role_total[ro] + 1);
            if open {
                role_open.set(ro, role_open[ro] + 1);
                if overdue {
                    role_overdue.set(ro, role_overdue[ro] + 1);
                }
            }
            if overdue {
                let snapshot = TaskSnapshot {
                    key: t.template.key,
                    name: t.template.name,
                    stage: t.template.stage,
                    role: t.template.primary_role,
                    due_date: t.due_date,
                    status: t.status,
                };
                assert(snapshot == snapshot_of(*t));
                insert_due_ordered(&mut overdue_tasks, snapshot);
            }
            if open {
                let severity = if overdue {
                    ComplianceSeverity::Critical
                } else {
                    ComplianceSeverity::Warning
                };
                let notes = &t.template.compliance;
                let mut j: usize = 0;
                while j < notes.len()
                    invariant
                        j <= notes@.len(),
                        notes@ == t.template.compliance@,
                        compliance_alerts@ == all_alerts(prefix, today) + notes@.subrange(
                            0,
                            j as int,
                        ).map_values(|n: ComplianceNote| alert_of(t.template.key, n, severity)),
                    decreases notes.len() - j,
                {
                    let note = notes[j];
                    compliance_alerts.push(
                        ComplianceAlert {
                            task_key: t.template.key,
                            topic: note.topic,
                            detail: note.detail,
                            severity,
                        },
                    );
                    j += 1;
                    assert(compliance_alerts@ =~= all_alerts(prefix, today) + notes@.subrange(
                        0,
                        j as int,
                    ).map_values(|n: ComplianceNote| alert_of(t.template.key, n, severity)));
                }
                assert(notes@.subrange(0, j as int) =~= notes@);
                assert(compliance_alerts@ =~= all_alerts(next, today));
            } else {
                assert(compliance_alerts@ =~= all_alerts(next, today));
            }
            i += 1;
            assert forall|k: int| 0 <= k < 4 implies #[trigger] stage_total@[k] == tasks_in_stage(next, VacancyStage::spec_ordered()[k]).len() by {
                reveal(Seq::filter);
            }
            assert forall|k: int| 0 <= k < 4 implies #[trigger] stage_done@[k] == completed_in_stage(next, VacancyStage::spec_ordered()[k]).len() by {
                reveal(Seq::filter);
            }
            assert forall|k: int| 0 <= k < 4 implies #[trigger] role_total@[k] == tasks_of_role(next, VacancyRole::spec_ordered()[k]).len() by {
                reveal(Seq::filter);
            }
            assert forall|k: int| 0 <= k < 4 implies #[trigger] role_open@[k] == open_of_role(next, VacancyRole::spec_ordered()[k]).len() by {
                reveal(Seq::filter);
            }
            assert forall|k: int| 0 <= k < 4 implies #[trigger] role_overdue@[k] == overdue_of_role(next, VacancyRole::spec_ordered()[k], today).len() by {
                reveal(Seq::filter);
            }
        }
        let ghost all = tasks@;
        assert(tasks@.subrange(0, i as int) =~= all);
        let stages = VacancyStage::ordered();
        let roles = VacancyRole::ordered();
        let mut stage_progress: Vec<(VacancyStage, StageProgress)> = Vec::new();
        let mut role_load: Vec<(VacancyRole, RoleLoad)> = Vec::new();
        let mut k: usize = 0;
        while k < 4
            invariant
                k <= 4,
                stages@ == VacancyStage::spec_ordered(),
                roles@ == VacancyRole::spec_ordered(),
                stage_total@.len() == 4 && stage_done@.len() == 4,
                role_total@.len() == 4 && role_open@.len() == 4 && role_overdue@.len() == 4,
                forall|m: int|
                    0 <= m < 4 ==> #[trigger] stage_total@[m] == tasks_in_stage(all, VacancyStage::spec_ordered()[m]).len(),
                forall|m: int|
                    0 <= m < 4 ==> #[trigger] stage_done@[m] == completed_in_stage(all, VacancyStage::spec_ordered()[m]).len(),
                forall|m: int|
                    0 <= m < 4 ==> #[trigger] role_total@[m] == tasks_of_role(all, VacancyRole::spec_ordered()[m]).len(),
                forall|m: int|
                    0 <= m < 4 ==> #[trigger] role_open@[m] == open_of_role(all, VacancyRole::spec_ordered()[m]).len(),
                forall|m: int|
                    0 <= m < 4 ==> #[trigger] role_overdue@[m] == overdue_of_role(
                        all,
                        VacancyRole::spec_ordered()[m],
                        today,
                    ).len(),
                stage_progress@ == VacancyStage::spec_ordered().subrange(0, k as int).filter(
                    |s: VacancyStage| tasks_in_stage(all, s).len() > 0,
                ).map_values(
                    |s: VacancyStage|
                        (
                            s,
                            StageProgress {
                                completed: completed_in_stage(all, s).len() as usize,
                                total: tasks_in_stage(all, s).len() as usize,
                            },
                        ),
                ),
                role_load@ == VacancyRole::spec_ordered().subrange(0, k as int).filter(
                    |r: VacancyRole| tasks_of_role(all, r).len() > 0,
                ).map_values(
                    |r: VacancyRole|
                        (
                            r,
                            RoleLoad {
                                open: open_of_role(all, r).len() as usize,
                                overdue: overdue_of_role(all, r, today).len() as usize,
                            },
                        ),
                ),
            decreases 4 - k,
        {
            proof {
                reveal(Seq::filter);
                assert(VacancyStage::spec_ordered().subrange(0, k + 1).drop_last()
                    =~= VacancyStage::spec_ordered().subrange(0, k as int));
                assert(VacancyRole::spec_ordered().subrange(0, k + 1).drop_last()
                    =~= VacancyRole::spec_ordered().subrange(0, k as int));
            }
            if stage_total[k] > 0 {
                stage_progress.push(
                    (stages[k], StageProgress { completed: stage_done[k], total: stage_total[k] }),
                );
            }
            if role_total[k] > 0 {
                role_load.push((roles[k], RoleLoad { open: role_open[k], overdue: role_overdue[k] }));
            }
            k += 1;
            assert(stage_progress@ =~= VacancyStage::spec_ordered().subrange(0, k as int).filter(
                |s: VacancyStage| tasks_in_stage(all, s).len() > 0,
            ).map_values(
                |s: VacancyStage|
                    (
                        s,
                        StageProgress {
                            completed: completed_in_stage(all, s).len() as usize,
                            total: tasks_in_stage(all, s).len() as usize,
                        },
                    ),
            ));
            assert(role_load@ =~= VacancyRole::spec_ordered().subrange(0, k as int).filter(
                |r: VacancyRole| tasks_of_role(all, r).len() > 0,
            ).map_values(
                |r: VacancyRole|
                    (
                        r,
                        RoleLoad {
                            open: open_of_role(all, r).len() as usize,
                            overdue: overdue_of_role(all, r, today).len() as usize,
                        },
                    ),
            ));
        }
        assert(VacancyStage::spec_ordered().subrange(0, 4) =~= VacancyStage::spec_ordered());
        assert(VacancyRole::spec_ordered().subrange(0, 4) =~= VacancyRole::spec_ordered());
        VacancyReport { stage_progress, role_load, overdue_tasks, compliance_alerts }
    }

    /// Every task with its labels, stably sorted by due date.
    pub fn task_details(&self) -> (r: Vec<TaskDetailView>)
        ensures
            r@.len() == self.spec_tasks().len(),
            forall|k: int|
                0 <= k < r@.len() ==> #[trigger] r@[k].shows(
                    self.spec_tasks()[sort_by_due(due_slots(self.spec_tasks()))[k].position as int],
                ),
            forall|i: int, j: int|
                0 <= i < j < r@.len() ==> r@[i].due_date.day_number <= r@[j].due_date.day_number,
    {
        let ghost slots = due_slots(self.tasks@);
        let mut order: Vec<DueSlot> = Vec::new();
        let mut i: usize = 0;
        while i < self.tasks.len()
            invariant
                i <= self.tasks@.len(),
                slots == due_slots(self.tasks@),
                order@ == sort_by_due(slots.subrange(0, i as int)),
            decreases self.tasks.len() - i,
        {
            proof {
                assert(slots.subrange(0, i + 1).drop_last() =~= slots.subrange(0, i as int));
            }
            insert_due_ordered(&mut order, DueSlot { position: i, due_date: self.tasks[i].due_date });
            i += 1;
        }
        proof {
            assert(slots.subrange(0, i as int) =~= slots);
            lemma_sort_sorted(slots);
        }
        let mut details: Vec<TaskDetailView> = Vec::new();
        let mut k: usize = 0;
        while k < order.len()
            invariant
                order@ == sort_by_due(slots),
                slots == due_slots(self.tasks@),
                order@.len() == self.tasks@.len(),
                sorted_by_due(order@),
                forall|m: int| 0 <= m < slots.len() ==> slots.contains(#[trigger] sort_by_due(slots)[m]),
                k <= order@.len(),
                details@.len() == k,
                forall|m: int|
                    0 <= m < k ==> #[trigger] details@[m].shows(self.tasks@[order@[m].position as int]),
                forall|m: int|
                    0 <= m < k ==> (#[trigger] details@[m]).due_date == order@[m].due_date,
            decreases order.len() - k,
        {
            let slot = order[k];
            proof {
                assert(slots.contains(order@[k as int]));
                let q = choose|q: int| 0 <= q < slots.len() && slots[q] == order@[k as int];
                assert(slot.position == q);
            }
            details.push(self.tasks[slot.position].to_view());
            k += 1;
        }
        details
    }

    pub fn tasks(&self) -> (r: &[TaskInstance])
        ensures
            r@ == self.spec_tasks(),
    {
        self.tasks.as_slice()
    }
}

} // verus!
