use tenant_ai::{apollo_name_map, lookup_task_key, normalize_name, task_key_for_normalized};

#[test]
fn apollo_normalize_name_removes_whitespace_and_case() {
    let source = "\u{feff}Create  and  Publish  Listing  -  Leasing  Agent";
    assert_eq!(
        normalize_name(source),
        "create and publish listing - leasing agent"
    );
}

#[test]
fn mod_normalize_name_removes_whitespace_and_case() {
    let source = "\u{feff}Create  and  Publish  Listing  -  Leasing  Agent";
    let normalized = normalize_name(source);
    assert_eq!(normalized, "create and publish listing - leasing agent");
}

#[test]
fn mapping_recognizes_known_tasks() {
    assert_eq!(
        lookup_task_key("Create and Publish Listing - Leasing Agent"),
        Some("marketing_publish_listing")
    );
    assert_eq!(
        lookup_task_key("Manage Inquiries & Schedule Showings - Leasing Agent"),
        Some("screening_manage_inquiries")
    );
    assert_eq!(
        lookup_task_key("Collect Funds - Property Manager / Accounting"),
        Some("leasing_collect_funds")
    );
    assert_eq!(
        lookup_task_key("Hand Over Keys & Welcome Tenant - Leasing Agent"),
        Some("handoff_start_new_resident_workflow")
    );
}

#[test]
fn normalize_name_handles_unicode_spacing() {
    assert_eq!(normalize_name("  \u{200b}Finalize\u{00a0}\tTIC \n"), "finalize tic");
    assert_eq!(normalize_name(""), "");
    assert_eq!(normalize_name(" \u{2003} "), "");
    assert_eq!(normalize_name("ÀB"), "Àb");
}

#[test]
fn unknown_names_have_no_task_key() {
    assert_eq!(lookup_task_key("Paint the hallway"), None);
    assert_eq!(
        task_key_for_normalized("finalize tic"),
        Some("leasing_lihtc_certification")
    );
    assert_eq!(task_key_for_normalized("Finalize TIC"), None);
    assert_eq!(apollo_name_map().len(), 49);
}

use tenant_ai::{
    parse_datetime, vacancy_report, AppEnvironment, ApolloRecord, VacancyDataSource,
    VacancyWorkflowBlueprint, ApolloRow, ApolloVacancyImporter, CalendarDate, TaskStatus,
    VacancyWorkflowInstance,
};

fn date(year: i32, month: u32, day: u32) -> CalendarDate {
    CalendarDate::from_ymd(year, month, day).expect("valid date")
}

fn vacancy_dates() -> (CalendarDate, CalendarDate) {
    let vacancy_start = date(2025, 9, 24);
    (vacancy_start, vacancy_start.plus_days(14))
}

/// Reads an export with the csv crate, cell by header name.
fn rows_of(csv_text: &str) -> Vec<ApolloRow> {
    let mut reader = csv::Reader::from_reader(csv_text.as_bytes());
    let headers = reader.headers().expect("headers").clone();
    let column = |name: &str| headers.iter().position(|h| h == name);
    let (name, completed, created, modified) = (
        column("Name").expect("name column"),
        column("Completed At"),
        column("Created At"),
        column("Last Modified"),
    );
    reader
        .records()
        .map(|record| {
            let record = record.expect("record");
            let cell = |i: Option<usize>| i.and_then(|i| record.get(i)).map(str::to_string);
            ApolloRow {
                name: record.get(name).expect("name").to_string(),
                completed_at: cell(completed),
                created_at: cell(created),
                last_modified: cell(modified),
            }
        })
        .collect()
}

fn import(csv_text: &str) -> VacancyWorkflowInstance {
    let records: Vec<ApolloRecord> = rows_of(csv_text).iter().map(ApolloRow::to_record).collect();
    let (vacancy_start, move_in) = vacancy_dates();
    ApolloVacancyImporter::from_records(&records, vacancy_start, move_in).expect("import succeeds")
}

fn check_parse_datetime() {
    let rfc = parse_datetime("2025-09-24T10:00:00Z").expect("parse rfc");
    assert_eq!(rfc.date, date(2025, 9, 24));
    assert_eq!(rfc.second_of_day, 10 * 3600);

    let day = parse_datetime("2025-09-30").expect("parse date");
    assert_eq!(day.date, date(2025, 9, 30));
    assert_eq!(day.second_of_day, 0);

    assert!(parse_datetime("  ").is_none());
    assert!(parse_datetime("not-a-date").is_none());
}

#[test]
fn apollo_parse_datetime_supports_rfc3339_and_date_strings() {
    check_parse_datetime();
}

#[test]
fn mod_parse_datetime_supports_rfc3339_and_date_strings() {
    check_parse_datetime();
}

fn check_row_detects_completion_and_touch() {
    let row = ApolloRow {
        name: "Task".to_string(),
        completed_at: Some("2025-09-25T12:15:00Z".to_string()),
        created_at: Some("2025-09-24T10:00:00Z".to_string()),
        last_modified: Some("2025-09-24T12:00:00Z".to_string()),
    };
    assert_eq!(row.completed_date().expect("completed"), date(2025, 9, 25));
    assert!(row.touched());

    let untouched = ApolloRow {
        name: "Task".to_string(),
        completed_at: None,
        created_at: None,
        last_modified: None,
    };
    assert!(!untouched.touched());
}

#[test]
fn apollo_apollo_row_detects_completion_and_touch() {
    check_row_detects_completion_and_touch();
}

#[test]
fn mod_apollo_row_detects_completion_and_touch() {
    let rows = rows_of("Name,Completed At,Created At,Last Modified\nTask,,,\n");
    let row = rows.first().expect("record");
    assert!(row.completed_date().is_none());
    assert!(!row.touched());
    check_row_detects_completion_and_touch();
}

fn check_duplicate_rows() {
    let instance = import(
        "Name,Created At,Completed At,Last Modified\n\
Create and Publish Listing - Leasing Agent,2025-09-24T10:00:00Z,2025-09-25T12:00:00Z,2025-09-25T12:00:00Z\n\
Create and Publish Listing - Leasing Agent,2025-09-24T11:00:00Z,,2025-09-24T12:30:00Z\n",
    );
    let publish_listing = instance
        .tasks()
        .iter()
        .find(|task| task.template.key == "marketing_publish_listing")
        .expect("task present");
    assert_eq!(publish_listing.status, TaskStatus::Completed);
}

#[test]
fn apollo_importer_handles_duplicate_rows_without_overwriting() {
    check_duplicate_rows();
}

#[test]
fn mod_importer_handles_duplicate_rows_without_overwriting() {
    check_duplicate_rows();
}

fn check_unknown_names() {
    let instance = import(
        "Name,Created At,Completed At,Last Modified\nUnknown Task,2025-09-24T10:00:00Z,,2025-09-24T12:00:00Z\n",
    );
    assert!(instance
        .tasks()
        .iter()
        .all(|task| task.status == TaskStatus::NotStarted));
}

#[test]
fn apollo_importer_ignores_unknown_task_names() {
    check_unknown_names();
}

#[test]
fn mod_importer_ignores_unknown_task_names() {
    check_unknown_names();
}

#[test]
fn importer_marks_completed_and_in_progress_tasks() {
    let instance = import(
        "Task ID,Created At,Completed At,Last Modified,Name\n\
1,2025-09-24T10:00:00Z,2025-09-25T12:15:00Z,2025-09-25T12:15:00Z,Create and Publish Listing - Leasing Agent\n\
2,2025-09-24T11:00:00Z,,2025-09-24T18:00:00Z,Update Vacancy in AppFolio - Leasing Agent\n",
    );
    let listing_task = instance
        .tasks()
        .iter()
        .find(|task| task.template.key == "marketing_publish_listing")
        .expect("listing task present");
    assert_eq!(listing_task.status, TaskStatus::Completed);
    let completed_on = listing_task.completed_on.expect("completed date captured");
    assert_eq!(completed_on, date(2025, 9, 25));

    let appfolio_task = instance
        .tasks()
        .iter()
        .find(|task| task.template.key == "marketing_update_appfolio")
        .expect("appfolio update task present");
    assert_eq!(appfolio_task.status, TaskStatus::InProgress);
    assert!(appfolio_task.completed_on.is_none());
}

#[test]
fn offsets_in_timestamps_are_read_in_utc() {
    let late = parse_datetime("2025-09-24T23:30:00-02:00").expect("parse");
    assert_eq!(late.date, date(2025, 9, 25));
    assert_eq!(late.second_of_day, 5400);
    assert_eq!(parse_datetime(" 2025-09-24 ").expect("parse").date, date(2025, 9, 24));
}

#[test]
fn environment_names_are_read_without_case_or_padding() {
    assert_eq!(AppEnvironment::from_str(" PROD "), AppEnvironment::Production);
    assert_eq!(AppEnvironment::from_str("Production"), AppEnvironment::Production);
    assert_eq!(AppEnvironment::from_str("ci"), AppEnvironment::Test);
    assert_eq!(AppEnvironment::from_str("Test\n"), AppEnvironment::Test);
    assert_eq!(AppEnvironment::from_str("staging"), AppEnvironment::Development);
    assert_eq!(AppEnvironment::from_str(""), AppEnvironment::Development);
}

fn check_report_returns_summary() {
    let (vacancy_start, target_move_in) = vacancy_dates();
    let blueprint = VacancyWorkflowBlueprint::standard();
    let instance = VacancyWorkflowInstance::new(&blueprint, vacancy_start, target_move_in);
    let today = vacancy_start.plus_days(3);
    let body = vacancy_report(
        &instance,
        VacancyDataSource::Standard,
        vacancy_start,
        target_move_in,
        today,
        false,
    );
    assert_eq!(body.data_source, VacancyDataSource::Standard);
    assert_eq!(body.summary.stage_progress.len(), 4);
    assert!(body.tasks.is_none());
    assert!(body.insights.readiness_score <= 100);
    assert_eq!(body.today, today);
}

#[test]
fn routes_vacancy_report_endpoint_returns_summary() {
    check_report_returns_summary();
}

#[test]
fn main_vacancy_report_endpoint_returns_summary() {
    check_report_returns_summary();
}

fn check_report_can_include_tasks() {
    let (vacancy_start, target_move_in) = vacancy_dates();
    let instance = import(
        "Task ID,Created At,Completed At,Last Modified,Name\n1,2025-09-24T10:00:00Z,2025-09-25T12:15:00Z,2025-09-25T12:15:00Z,Create and Publish Listing - Leasing Agent\n",
    );
    let body = vacancy_report(
        &instance,
        VacancyDataSource::Apollo,
        vacancy_start,
        target_move_in,
        vacancy_start.plus_days(2),
        true,
    );
    assert_eq!(body.data_source, VacancyDataSource::Apollo);
    let tasks = body.tasks.expect("tasks returned");
    assert!(!tasks.is_empty());
    assert_eq!(tasks[0].status_label, "Completed");
    assert!(body.insights.focus_stage.is_some());
}

#[test]
fn routes_vacancy_report_endpoint_can_include_tasks() {
    check_report_can_include_tasks();
}

#[test]
fn main_vacancy_report_endpoint_can_include_tasks() {
    check_report_can_include_tasks();
}

#[test]
fn touch_detection_sees_fractions_of_a_second() {
    let row = ApolloRow {
        name: "Task".to_string(),
        completed_at: None,
        created_at: Some("2025-09-24T10:00:00.100Z".to_string()),
        last_modified: Some("2025-09-24T10:00:00.900Z".to_string()),
    };
    assert!(row.touched());
    let same = ApolloRow {
        name: "Task".to_string(),
        completed_at: None,
        created_at: Some("2025-09-24T10:00:00.900Z".to_string()),
        last_modified: Some("2025-09-24T10:00:00.900Z".to_string()),
    };
    assert!(!same.touched());
}
