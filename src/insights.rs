use crate::calendar::CalendarDate;
use crate::domain::{TaskStatus, VacancyStage};
use crate::instance::{due_slots, TaskDetailView, TaskInstance, VacancyWorkflowInstance};
use crate::ordering::sort_by_due;
use crate::report::{
    is_open, summary_of, StageProgress, StageProgressEntry, TaskSnapshotView, VacancyReportSummary,
};
use crate::text::{push_decimal, push_signed};
use vstd::prelude::*;

verus! {

#[derive(Debug, Clone, Copy, PartialEq, Eq, Structural)]
pub enum ReadinessLevel {
    OnTrack,
    Monitor,
    AtRisk,
}

impl ReadinessLevel {
    pub open spec fn spec_label(self) -> &'static str {
        match self {
            ReadinessLevel::OnTrack => "On Track",
            ReadinessLevel::Monitor => "Monitor",
            ReadinessLevel::AtRisk => "At Risk",
        }
    }

    pub fn label(self) -> (r: &'static str)
        ensures
            r == self.spec_label(),
    {
        match self {
            ReadinessLevel::OnTrack => "On Track",
            ReadinessLevel::Monitor => "Monitor",
            ReadinessLevel::AtRisk => "At Risk",
        }
    }
}

/// A share of the vacancy window: `elapsed_days / window_days`, with a positive window.
#[derive(Debug, Clone, Copy, PartialEq, Eq)]
pub struct ElapsedShare {
    pub elapsed_days: i128,
    pub window_days: i128,
}

/// Readiness of a vacancy as of one day, with advisory guidance.
#[derive(Debug, Clone)]
pub struct VacancyInsights {
    /// Completed share of the tasks, as a rounded percentage.
    pub readiness_score: u8,
    pub readiness_level: ReadinessLevel,
    /// Elapsed share of the vacancy window, clamped to 0..=1.
    pub expected_completion: ElapsedShare,
    /// The same share as a rounded whole percentage.
    pub expected_completion_pct: u8,
    pub days_until_move_in: i32,
    pub days_since_vacancy: i32,
    pub focus_stage: Option<&'static str>,
    /// Progress of the focus stage.
    pub focus_stage_completion: Option<StageProgress>,
    pub blockers: Vec<String>,
    pub ai_observations: Vec<String>,
    pub recommended_actions: Vec<String>,
    pub automation_triggers: Vec<String>,
}

pub open spec fn completed_count(tasks: Seq<TaskInstance>) -> nat {
    tasks.filter(|t: TaskInstance| !is_open(t)).len()
}

/// `round(100 × completed / total)`, zero without tasks.
pub open spec fn readiness_score_of(completed: nat, total: nat) -> nat {
    if total == 0 {
        0
    } else {
        (200 * completed + total) / (2 * total)
    }
}

/// The elapsed share of the vacancy window as numerator and positive denominator:
/// days since the start over the window, clamped to 0..=1, and 1 for an empty or
/// negative window.
pub open spec fn elapsed_fraction(start: CalendarDate, target: CalendarDate, today: CalendarDate) -> (
    int,
    int,
) {
    let window = target.day_number - start.day_number;
    let since = today.day_number - start.day_number;
    if window <= 0 {
        (1, 1)
    } else if since <= 0 {
        (0, window)
    } else if since >= window {
        (window, window)
    } else {
        (since, window)
    }
}

/// The score trails the expected pace by more than ten points.
pub open spec fn lags_pace(score: nat, f: (int, int)) -> bool {
    100 * f.0 > (score + 10) * f.1
}

pub open spec fn readiness_level_of(
    score: nat,
    overdue: nat,
    open: nat,
    days_until_move_in: int,
    f: (int, int),
) -> ReadinessLevel {
    if score >= 80 && overdue == 0 {
        ReadinessLevel::OnTrack
    } else if score >= 60 && overdue <= 1 && days_until_move_in > 3 {
        ReadinessLevel::Monitor
    } else if (days_until_move_in <= 0 && open > 0) || lags_pace(score, f) {
        ReadinessLevel::AtRisk
    } else {
        ReadinessLevel::Monitor
    }
}

pub open spec fn outstanding(e: StageProgressEntry) -> int {
    e.total - e.completed
}

/// The first stage entry with the most outstanding tasks, among those with any.
pub open spec fn focus_index(entries: Seq<StageProgressEntry>) -> Option<int>
    decreases entries.len(),
{
    if entries.len() == 0 {
        None
    } else {
        let best = focus_index(entries.drop_last());
        let e = entries.last();
        if e.total > e.completed && (best is None || outstanding(e) > outstanding(
            entries[best.unwrap()],
        )) {
            Some(entries.len() - 1)
        } else {
            best
        }
    }
}

proof fn lemma_focus_index(entries: Seq<StageProgressEntry>)
    ensures
        focus_index(entries) matches Some(i) ==> 0 <= i < entries.len() && entries[i].total
            > entries[i].completed,
    decreases entries.len(),
{
    if entries.len() > 0 {
        lemma_focus_index(entries.drop_last());
    }
}

pub open spec fn clamp_i32(x: int) -> i32 {
    if x < i32::MIN {
        i32::MIN
    } else if x > i32::MAX {
        i32::MAX
    } else {
        x as i32
    }
}

fn clamp_to_i32(x: i128) -> (r: i32)
    ensures
        r == clamp_i32(x as int),
{
    if x < i32::MIN as i128 {
        i32::MIN
    } else if x > i32::MAX as i128 {
        i32::MAX
    } else {
        x as i32
    }
}

fn text(s: &'static str) -> (r: String)
    ensures
        r@ == s@,
{
    String::from_str(s)
}

fn push_two_digits(s: &mut String, n: u32)
    requires
        n < 100,
{
    if n < 10 {
        s.append("0");
    }
    push_decimal(s, n as u64);
}

/// Appends a date as YYYY-MM-DD where the calendar can name it, else as its day
/// number.
fn push_date(s: &mut String, d: CalendarDate) {
    match d.ymd() {
        Some((y, m, day)) => {
            if 0 <= y && y <= 9999 {
                let year = y as u32;
                if year < 1000 {
                    s.append("0");
                }
                if year < 100 {
                    s.append("0");
                }
                if year < 10 {
                    s.append("0");
                }
                push_decimal(s, year as u64);
                s.append("-");
                push_two_digits(s, m);
                s.append("-");
                push_two_digits(s, day);
            } else {
                s.append("day ");
                push_signed(s, d.day_number);
            }
        },
        None => {
            s.append("day ");
            push_signed(s, d.day_number);
        },
    }
}

fn plural(n: usize) -> (r: &'static str) {
    if n == 1 {
        ""
    } else {
        "s"
    }
}

/// The number of blocker lines: one per overdue task up to three, else one when
/// move-in is at most three days away with tasks open.
pub open spec fn blocker_count(overdue: nat, open: nat, days_until_move_in: int) -> nat {
    if overdue > 0 {
        if overdue < 3 {
            overdue
        } else {
            3
        }
    } else if open > 0 && days_until_move_in <= 3 {
        1
    } else {
        0
    }
}

pub open spec fn flag(b: bool) -> nat {
    if b {
        1
    } else {
        0
    }
}

/// The number of observation lines: one each for a non-empty catalog, overdue tasks,
/// a score more than five points behind the expected pace, and a move-in at most a
/// week away; a single all-clear line when none applies.
pub open spec fn observation_count(total: nat, overdue: nat, score: nat, f: (int, int), days_until_move_in: int) -> nat {
    let n = flag(total > 0) + flag(overdue > 0) + flag((score + 5) * f.1 < 100 * f.0) + flag(
        days_until_move_in <= 7,
    );
    if n == 0 {
        1
    } else {
        n
    }
}

/// The number of recommended actions: two for a focus stage, one for open compliance
/// alerts, one when move-in is at most five days away with tasks open.
pub open spec fn action_count(has_focus: bool, alerts: nat, open: nat, days_until_move_in: int) -> nat {
    2 * flag(has_focus) + flag(alerts > 0) + flag(days_until_move_in <= 5 && open > 0)
}

/// The stages with outstanding tasks.
pub open spec fn stages_outstanding(entries: Seq<StageProgressEntry>) -> nat {
    entries.filter(|e: StageProgressEntry| e.total > e.completed).len()
}

/// `r` holds the readiness figures of the tasks and summary as of `today`.
pub open spec fn insights_of(
    r: VacancyInsights,
    summary: VacancyReportSummary,
    tasks: Seq<TaskInstance>,
    vacancy_start: CalendarDate,
    target_move_in: CalendarDate,
    today: CalendarDate,
) -> bool {
    let f = elapsed_fraction(vacancy_start, target_move_in, today);
    let open = (tasks.len() - completed_count(tasks)) as nat;
    let until = target_move_in.day_number - today.day_number;
    &&& r.readiness_score == readiness_score_of(completed_count(tasks), tasks.len())
    &&& r.readiness_level == readiness_level_of(
        r.readiness_score as nat,
        summary.overdue_tasks@.len(),
        open,
        until,
        f,
    )
    &&& (r.expected_completion.elapsed_days as int, r.expected_completion.window_days as int) == f
    &&& r.expected_completion_pct == (200 * f.0 + f.1) / (2 * f.1)
    &&& r.days_until_move_in == clamp_i32(until)
    &&& r.days_since_vacancy == clamp_i32(today.day_number - vacancy_start.day_number)
    &&& match focus_index(summary.stage_progress@) {
        Some(i) => r.focus_stage == Some(summary.stage_progress@[i].stage_label)
            && r.focus_stage_completion == Some(
            StageProgress {
                completed: summary.stage_progress@[i].completed,
                total: summary.stage_progress@[i].total,
            },
        ),
        None => r.focus_stage is None && r.focus_stage_completion is None,
    }
    &&& r.blockers@.len() == blocker_count(summary.overdue_tasks@.len(), open, until)
    &&& r.ai_observations@.len() == observation_count(
        tasks.len(),
        summary.overdue_tasks@.len(),
        r.readiness_score as nat,
        f,
        until,
    )
    &&& r.recommended_actions@.len() == action_count(
        focus_index(summary.stage_progress@) is Some,
        summary.compliance_alerts@.len(),
        open,
        until,
    )
    &&& r.automation_triggers@.len() == stages_outstanding(summary.stage_progress@) + flag(
        summary.overdue_tasks@.len() > 0,
    )
}

/// Derives readiness from the instance, its report summary and the vacancy dates.
///
/// The score is the rounded completed share of the tasks. The level is OnTrack at a
/// score of 80 or more with nothing overdue; Monitor at 60 or more with at most one
/// task overdue and move-in more than three days away; AtRisk when move-in has come
/// with tasks open or the score trails the elapsed share of the window by more than
/// ten points; Monitor otherwise. The focus stage is the first with the most
/// outstanding tasks. The narrative lists are advisory.
pub fn generate_insights(
    summary: &VacancyReportSummary,
    instance: &VacancyWorkflowInstance,
    vacancy_start: CalendarDate,
    target_move_in: CalendarDate,
    today: CalendarDate,
) -> (r: VacancyInsights)
    ensures
        insights_of(r, *summary, instance.spec_tasks(), vacancy_start, target_move_in, today),
{
    let tasks = instance.tasks();
    let total = tasks.len();
    let mut completed: usize = 0;
    let mut i: usize = 0;
    while i < total
        invariant
            total == tasks@.len(),
            tasks@ == instance.spec_tasks(),
            i <= total,
            completed == tasks@.subrange(0, i as int).filter(|t: TaskInstance| !is_open(t)).len(),
            completed <= i,
        decreases total - i,
    {
        proof {
            reveal(Seq::filter);
            assert(tasks@.subrange(0, i + 1).drop_last() =~= tasks@.subrange(0, i as int));
        }
        if let TaskStatus::Completed = tasks[i].status {
            completed += 1;
        }
        i += 1;
    }
    assert(tasks@.subrange(0, i as int) =~= tasks@);
    let open_tasks = total - completed;

    assert(completed <= total);
    let readiness_score: u8 = if total > 0 {
        let c = completed as u128;
        let t = total as u128;
        proof {
            assert(200 * c + t <= 201 * t) by (nonlinear_arith)
                requires
                    c <= t,
                    t > 0,
            ;
            assert((200 * c + t) / (2 * t) <= 100) by (nonlinear_arith)
                requires
                    200 * c + t <= 201 * t,
                    t > 0,
            ;
        }
        ((200 * c + t) / (2 * t)) as u8
    } else {
        0
    };

    let overdue_count = summary.overdue_tasks.len();
    let until: i128 = target_move_in.day_number as i128 - today.day_number as i128;
    let since: i128 = today.day_number as i128 - vacancy_start.day_number as i128;
    let window: i128 = target_move_in.day_number as i128 - vacancy_start.day_number as i128;
    let (elapsed, span): (i128, i128) = if window <= 0 {
        (1, 1)
    } else if since <= 0 {
        (0, window)
    } else if since >= window {
        (window, window)
    } else {
        (since, window)
    };
    assert((elapsed as int, span as int) == elapsed_fraction(vacancy_start, target_move_in, today));
    proof {
        assert(0 <= elapsed <= span);
        assert(200 * elapsed + span <= 201 * span) by (nonlinear_arith)
            requires
                0 <= elapsed <= span,
        ;
        assert((200 * elapsed + span) / (2 * span) <= 100) by (nonlinear_arith)
            requires
                200 * elapsed + span <= 201 * span,
                span > 0,
        ;
    }
    let expected_completion_pct = ((200 * elapsed + span) / (2 * span)) as u8;
    let score = readiness_score as i128;
    proof {
        assert(100 * elapsed <= 100 * 0x1_0000_0000_0000_0000i128) by (nonlinear_arith)
            requires
                elapsed <= 0x1_0000_0000_0000_0000i128,
        ;
        assert((score + 10) * span <= 110 * 0x1_0000_0000_0000_0000i128) by (nonlinear_arith)
            requires
                0 <= score <= 100,
                0 < span <= 0x1_0000_0000_0000_0000i128,
        ;
        assert((score + 5) * span <= 110 * 0x1_0000_0000_0000_0000i128) by (nonlinear_arith)
            requires
                0 <= score <= 100,
                0 < span <= 0x1_0000_0000_0000_0000i128,
        ;
    }
    let lags = 100 * elapsed > (score + 10) * span;

    let readiness_level = if readiness_score >= 80 && overdue_count == 0 {
        ReadinessLevel::OnTrack
    } else if readiness_score >= 60 && overdue_count <= 1 && until > 3 {
        ReadinessLevel::Monitor
    } else if (until <= 0 && open_tasks > 0) || lags {
        ReadinessLevel::AtRisk
    } else {
        ReadinessLevel::Monitor
    };

    let entries = &summary.stage_progress;
    let mut best: Option<usize> = None;
    let mut k: usize = 0;
    while k < entries.len()
        invariant
            k <= entries@.len(),
            best matches Some(b) ==> b < k,
            best matches Some(b) ==> focus_index(entries@.subrange(0, k as int)) == Some(b as int),
            best is None ==> focus_index(entries@.subrange(0, k as int)) is None,
            focus_index(entries@.subrange(0, k as int)) matches Some(b) ==> 0 <= b < k,
        decreases entries.len() - k,
    {
        proof {
            let p = entries@.subrange(0, k + 1);
            assert(p.drop_last() =~= entries@.subrange(0, k as int));
            lemma_focus_index(entries@.subrange(0, k as int));
            if let Some(b) = focus_index(entries@.subrange(0, k as int)) {
                assert(p[b] == entries@[b]);
                assert(entries@.subrange(0, k as int)[b] == entries@[b]);
            }
        }
        let e = entries[k];
        if e.total > e.completed {
            let better = match best {
                None => true,
                Some(b) => {
                    let cur = entries[b];
                    proof {
                        lemma_focus_index(entries@.subrange(0, k as int));
                    }
                    e.total - e.completed > cur.total - cur.completed
                },
            };
            if better {
                best = Some(k);
            }
        }
        k += 1;
    }
    assert(entries@.subrange(0, k as int) =~= entries@);
    let (focus_stage, focus_stage_completion) = match best {
        Some(b) => {
            let e = entries[b];
            (Some(e.stage_label), Some(StageProgress { completed: e.completed, total: e.total }))
        },
        None => (None, None),
    };

    let mut blockers: Vec<String> = Vec::new();
    let mut j: usize = 0;
    while j < summary.overdue_tasks.len() && j < 3
        invariant
            blockers@.len() == j,
            j <= 3,
            j <= summary.overdue_tasks@.len(),
        decreases 3 - j,
    {
        let task: TaskSnapshotView = summary.overdue_tasks[j];
        let mut line = text(task.name);
        line.append(" (");
        line.append(task.role_label);
        line.append("), overdue since ");
        push_date(&mut line, task.due_date);
        blockers.push(line);
        j += 1;
    }
    if blockers.len() == 0 && open_tasks > 0 && until <= 3 {
        blockers.push(text("Move-in is days away with open tasks remaining"));
    }

    let mut ai_observations: Vec<String> = Vec::new();
    if total > 0 {
        let mut line = String::new();
        push_decimal(&mut line, completed as u64);
        line.append(" of ");
        push_decimal(&mut line, total as u64);
        line.append(" tasks complete (");
        push_decimal(&mut line, readiness_score as u64);
        line.append("% readiness)");
        ai_observations.push(line);
    }
    if overdue_count > 0 {
        let mut line = String::new();
        push_decimal(&mut line, overdue_count as u64);
        line.append(" critical task(s) overdue impacting compliance");
        ai_observations.push(line);
    }
    // The score trails the expected share by more than five points.
    if (score + 5) * span < 100 * elapsed {
        let gap = expected_completion_pct as i128 - score;
        let mut line = text("Progress is ");
        if gap >= 0 {
            push_decimal(&mut line, gap as u64);
        } else {
            line.append("0");
        }
        line.append("% below expected pace for this vacancy window");
        ai_observations.push(line);
    }
    if until <= 7 {
        let mut line = String::new();
        if until > 0 {
            push_decimal(&mut line, until as u64);
        } else {
            line.append("0");
        }
        line.append(" day(s) until target move-in; prioritize move-in readiness");
        ai_observations.push(line);
    }

    let mut recommended_actions: Vec<String> = Vec::new();
    if let Some(b) = best {
        let e = entries[b];
        let open_items = if e.total >= e.completed {
            e.total - e.completed
        } else {
            0
        };
        let mut line = text("Concentrate automation on ");
        line.append(e.stage_label);
        line.append(" (");
        push_decimal(&mut line, open_items as u64);
        line.append(" open item");
        line.append(plural(open_items));
        line.append(")");
        recommended_actions.push(line);
        recommended_actions.push(
            text(
                match e.stage {
                    VacancyStage::MarketingAndAdvertising => "Refresh listing creative and auto-respond to new leads via SMS & email",
                    VacancyStage::ScreeningAndApplication => "Trigger AI-driven applicant nudges and status updates across channels",
                    VacancyStage::LeaseSigningAndMoveIn => "Bundle lease packet tasks and push DocuSign reminders automatically",
                    VacancyStage::Handoff => "Send welcome workflow kickoff with onboarding checklist",
                },
            ),
        );
    }
    if summary.compliance_alerts.len() > 0 {
        recommended_actions.push(
            text("Escalate compliance checklist to coordinator with documented follow-up"),
        );
    }
    if until <= 5 && open_tasks > 0 {
        recommended_actions.push(
            text("Schedule daily readiness standups until move-in blockers are cleared"),
        );
    }

    let mut automation_triggers: Vec<String> = Vec::new();
    let mut m: usize = 0;
    while m < entries.len()
        invariant
            m <= entries@.len(),
            automation_triggers@.len() == stages_outstanding(entries@.subrange(0, m as int)),
        decreases entries.len() - m,
    {
        proof {
            reveal(Seq::filter);
            assert(entries@.subrange(0, m + 1).drop_last() =~= entries@.subrange(0, m as int));
        }
        let e = entries[m];
        if e.total > e.completed {
            let remaining = e.total - e.completed;
            let mut line = text("Auto-remind ");
            line.append(e.stage_label);
            line.append(" owners of ");
            push_decimal(&mut line, remaining as u64);
            line.append(" remaining task");
            line.append(plural(remaining));
            automation_triggers.push(line);
        }
        m += 1;
    }
    assert(entries@.subrange(0, m as int) =~= entries@);
    if overdue_count > 0 {
        automation_triggers.push(
            text("Dispatch compliance alerts to AppFolio task queues for overdue work"),
        );
    }
    if ai_observations.len() == 0 {
        ai_observations.push(text("No blockers detected; maintain current automation cadence"));
    }

    VacancyInsights {
        readiness_score,
        readiness_level,
        expected_completion: ElapsedShare { elapsed_days: elapsed, window_days: span },
        expected_completion_pct,
        days_until_move_in: clamp_to_i32(until),
        days_since_vacancy: clamp_to_i32(since),
        focus_stage,
        focus_stage_completion,
        blockers,
        ai_observations,
        recommended_actions,
        automation_triggers,
    }
}

/// Where the tasks of a report came from.
#[derive(Debug, Clone, Copy, PartialEq, Eq, Structural)]
pub enum VacancyDataSource {
    Standard,
    Apollo,
}

/// Everything a vacancy report shows: the labelled aggregates, the readiness insights
/// and, on request, every task sorted by due date.
#[derive(Debug, Clone)]
pub struct VacancyReportResponse {
    pub vacancy_start: CalendarDate,
    pub target_move_in: CalendarDate,
    pub today: CalendarDate,
    pub data_source: VacancyDataSource,
    pub summary: VacancyReportSummary,
    pub insights: VacancyInsights,
    pub tasks: Option<Vec<TaskDetailView>>,
}

/// Builds the report of an instance as of `today`.
pub fn vacancy_report(
    instance: &VacancyWorkflowInstance,
    data_source: VacancyDataSource,
    vacancy_start: CalendarDate,
    target_move_in: CalendarDate,
    today: CalendarDate,
    include_tasks: bool,
) -> (r: VacancyReportResponse)
    ensures
        r.vacancy_start == vacancy_start,
        r.target_move_in == target_move_in,
        r.today == today,
        r.data_source == data_source,
        summary_of(r.summary, instance.spec_tasks(), today),
        insights_of(r.insights, r.summary, instance.spec_tasks(), vacancy_start, target_move_in, today),
        r.tasks is Some <==> include_tasks,
        r.tasks matches Some(tasks) ==> tasks@.len() == instance.spec_tasks().len() && forall|k: int|
            0 <= k < tasks@.len() ==> #[trigger] tasks@[k].shows(
                instance.spec_tasks()[sort_by_due(due_slots(instance.spec_tasks()))[k].position as int],
            ),
{
    let report = instance.report(today);
    let summary = report.summary();
    let insights = summary.insights(instance, vacancy_start, target_move_in, today);
    let tasks = if include_tasks {
        Some(instance.task_details())
    } else {
        None
    };
    assert(summary_of(summary, instance.spec_tasks(), today));
    VacancyReportResponse {
        vacancy_start,
        target_move_in,
        today,
        data_source,
        summary,
        insights,
        tasks,
    }
}

impl VacancyReportSummary {
    /// The insights of `generate_insights` for this summary.
    pub fn insights(
        &self,
        instance: &VacancyWorkflowInstance,
        vacancy_start: CalendarDate,
        target_move_in: CalendarDate,
        today: CalendarDate,
    ) -> (r: VacancyInsights)
        ensures
            insights_of(r, *self, instance.spec_tasks(), vacancy_start, target_move_in, today),
    {
        generate_insights(self, instance, vacancy_start, target_move_in, today)
    }
}

} // verus!
