use crate::calendar::CalendarDate;
use crate::blueprint::{follows_plan, standard_plan, VacancyWorkflowBlueprint};
use crate::domain::{TaskStatus, VacancyError};
use crate::instance::{key_index, with_status, TaskInstance, VacancyWorkflowInstance};
use crate::text::str_eq;
use chrono::{DateTime, Datelike, NaiveDate, Timelike};
use vstd::prelude::*;

verus! {

/// Characters that the task tracker's exports put in front of or inside names and
/// that carry nothing: the byte-order mark and the zero-width space.
pub open spec fn is_invisible(c: char) -> bool {
    c == '\u{feff}' || c == '\u{200b}'
}

/// Unicode white space, as `char::is_whitespace` defines it.
pub open spec fn is_white_space(c: char) -> bool {
    let u = c as u32;
    (0x09 <= u <= 0x0d) || u == 0x20 || u == 0x85 || u == 0xa0 || u == 0x1680 || (0x2000 <= u
        <= 0x200a) || u == 0x2028 || u == 0x2029 || u == 0x202f || u == 0x205f || u == 0x3000
}

/// ASCII upper-case letters become lower case; other characters stay.
pub open spec fn ascii_lower(c: char) -> char {
    if 'A' <= c <= 'Z' {
        ((c as u32) + 32) as char
    } else {
        c
    }
}

/// The normalized text of a prefix, and whether a separator is due before the next
/// word.
pub open spec fn normalize_state(s: Seq<char>) -> (Seq<char>, bool)
    decreases s.len(),
{
    if s.len() == 0 {
        (seq![], false)
    } else {
        let (out, pending) = normalize_state(s.drop_last());
        let c = s.last();
        if is_invisible(c) {
            (out, pending)
        } else if is_white_space(c) {
            (out, out.len() > 0)
        } else if pending {
            (out.push(' ').push(ascii_lower(c)), false)
        } else {
            (out.push(ascii_lower(c)), false)
        }
    }
}

/// A name without invisible characters, its words joined by single spaces, in ASCII
/// lower case.
pub open spec fn normalized(s: Seq<char>) -> Seq<char> {
    normalize_state(s).0
}

/// The bounds of `s` without leading and trailing white space.
pub open spec fn trims_to(s: Seq<char>, lo: int, hi: int) -> bool {
    &&& 0 <= lo <= hi <= s.len()
    &&& forall|i: int| 0 <= i < lo ==> is_white_space(s[i])
    &&& forall|i: int| hi <= i < s.len() ==> is_white_space(s[i])
    &&& lo < hi ==> !is_white_space(s[lo]) && !is_white_space(s[hi - 1])
}

/// Trimming leaves one text, whichever bounds describe it.
pub proof fn lemma_trim_unique(s: Seq<char>, lo1: int, hi1: int, lo2: int, hi2: int)
    requires
        trims_to(s, lo1, hi1),
        trims_to(s, lo2, hi2),
    ensures
        s.subrange(lo1, hi1) == s.subrange(lo2, hi2),
{
    if lo1 < hi1 && lo2 < hi2 {
        assert(lo1 == lo2) by {
            if lo1 < lo2 {
                assert(is_white_space(s[lo1]));
            } else if lo2 < lo1 {
                assert(is_white_space(s[lo2]));
            }
        }
        assert(hi1 == hi2) by {
            if hi1 < hi2 {
                assert(is_white_space(s[hi2 - 1]));
            } else if hi2 < hi1 {
                assert(is_white_space(s[hi1 - 1]));
            }
        }
    } else if lo1 < hi1 {
        assert(is_white_space(s[lo1])) by {
            if lo1 >= hi2 {
            } else {
                assert(lo1 < lo2);
            }
        }
    } else if lo2 < hi2 {
        assert(is_white_space(s[lo2])) by {
            if lo2 >= hi1 {
            } else {
                assert(lo2 < lo1);
            }
        }
    } else {
        assert(s.subrange(lo1, hi1) =~= s.subrange(lo2, hi2));
    }
}

/// `s` without leading and trailing white space.
pub open spec fn trimmed(s: Seq<char>) -> Seq<char> {
    let b = choose|b: (int, int)| trims_to(s, b.0, b.1);
    s.subrange(b.0, b.1)
}

/// `s` without leading and trailing white space.
pub fn trim_white_space(s: &str) -> (r: &str)
    ensures
        r@ == trimmed(s@),
        exists|lo: int, hi: int| trims_to(s@, lo, hi) && r@ == s@.subrange(lo, hi),
{
    let n = s.unicode_len();
    let mut lo: usize = 0;
    while lo < n && white_space(s.get_char(lo))
        invariant
            n == s@.len(),
            lo <= n,
            forall|i: int| 0 <= i < lo ==> is_white_space(s@[i]),
        decreases n - lo,
    {
        lo += 1;
    }
    let mut hi: usize = n;
    while hi > lo && white_space(s.get_char(hi - 1))
        invariant
            n == s@.len(),
            lo <= hi <= n,
            forall|i: int| hi <= i < n ==> is_white_space(s@[i]),
            lo < n ==> !is_white_space(s@[lo as int]),
        decreases hi,
    {
        hi -= 1;
    }
    let r = s.substring_char(lo, hi);
    assert(trims_to(s@, lo as int, hi as int));
    proof {
        let w = (lo as int, hi as int);
        assert(trims_to(s@, w.0, w.1));
        let b = choose|b: (int, int)| trims_to(s@, b.0, b.1);
        assert(trims_to(s@, b.0, b.1));
        lemma_trim_unique(s@, lo as int, hi as int, b.0, b.1);
    }
    r
}

/// Equality with a lower-case text, ignoring ASCII case.
pub fn matches_lowercase(s: &str, lower: &str) -> (r: bool)
    ensures
        r == (s@.map_values(|c: char| ascii_lower(c)) == lower@),
{
    let n = s.unicode_len();
    if n != lower.unicode_len() {
        assert(s@.map_values(|c: char| ascii_lower(c)).len() != lower@.len());
        return false;
    }
    let mut i: usize = 0;
    while i < n
        invariant
            n == s@.len() == lower@.len(),
            i <= n,
            forall|k: int| 0 <= k < i ==> ascii_lower(s@[k]) == lower@[k],
        decreases n - i,
    {
        if lower_char(s.get_char(i)) != lower.get_char(i) {
            assert(s@.map_values(|c: char| ascii_lower(c))[i as int] != lower@[i as int]);
            return false;
        }
        i += 1;
    }
    assert(s@.map_values(|c: char| ascii_lower(c)) =~= lower@);
    true
}

/// Relies on std's `ToString` for `char`: the string of that one character.
#[verifier::external_body]
fn char_text(c: char) -> (r: String)
    ensures
        r@ == seq![c],
{
    c.to_string()
}

fn lower_char(c: char) -> (r: char)
    ensures
        r == ascii_lower(c),
{
    if 'A' <= c && c <= 'Z' {
        ((c as u32) + 32) as u8 as char
    } else {
        c
    }
}

fn white_space(c: char) -> (r: bool)
    ensures
        r == is_white_space(c),
{
    let u = c as u32;
    (0x09 <= u && u <= 0x0d) || u == 0x20 || u == 0x85 || u == 0xa0 || u == 0x1680 || (0x2000
        <= u && u <= 0x200a) || u == 0x2028 || u == 0x2029 || u == 0x202f || u == 0x205f || u
        == 0x3000
}

/// Drops invisible characters, collapses runs of white space into one space, trims
/// both ends and lower-cases ASCII letters.
pub fn normalize_name(value: &str) -> (r: String)
    ensures
        r@ == normalized(value@),
{
    let n = value.unicode_len();
    let mut out = String::new();
    let mut pending = false;
    let mut i: usize = 0;
    while i < n
        invariant
            n == value@.len(),
            i <= n,
            (out@, pending) == normalize_state(value@.subrange(0, i as int)),
        decreases n - i,
    {
        proof {
            assert(value@.subrange(0, i + 1).drop_last() =~= value@.subrange(0, i as int));
        }
        let c = value.get_char(i);
        if c == '\u{feff}' || c == '\u{200b}' {
        } else if white_space(c) {
            pending = out.unicode_len() > 0;
        } else {
            if pending {
                out.append(" ");
                proof {
                    reveal_strlit(" ");
                }
            }
            let lower = char_text(lower_char(c));
            out.append(lower.as_str());
            pending = false;
        }
        i += 1;
        proof {
            let p = value@.subrange(0, i as int);
            assert(p.last() == c);
            assert((out@, pending) =~= normalize_state(p)) by {
                let (o, pd) = normalize_state(p.drop_last());
                if !is_invisible(c) && !is_white_space(c) {
                    if pd {
                        assert(out@ =~= o.push(' ').push(ascii_lower(c)));
                    } else {
                        assert(out@ =~= o.push(ascii_lower(c)));
                    }
                }
            }
        }
    }
    assert(value@.subrange(0, i as int) =~= value@);
    out
}

/// The task tracker's names for the catalog's tasks, each with its task key.
pub open spec fn apollo_name_map_spec() -> Seq<(&'static str, &'static str)> {
    seq![
        ("Create and Publish Listing - Leasing Agent", "marketing_publish_listing"),
        ("Create and Publish Listing \u{2013} Leasing Agent", "marketing_publish_listing"),
        ("Create and Publish Listing", "marketing_publish_listing"),
        ("Update Vacancy in AppFolio - Leasing Agent", "marketing_update_appfolio"),
        ("Update Vacancy in AppFolio \u{2013} Leasing Agent", "marketing_update_appfolio"),
        ("Update Vacancy in AppFolio", "marketing_update_appfolio"),
        ("Manage Inquiries and Schedule Showings - Leasing Agent", "screening_manage_inquiries"),
        ("Manage Inquiries and Schedule Showings \u{2013} Leasing Agent", "screening_manage_inquiries"),
        ("Manage Inquiries & Schedule Showings - Leasing Agent", "screening_manage_inquiries"),
        ("Manage Inquiries and Schedule Showings", "screening_manage_inquiries"),
        ("Process Rental Applications - Leasing Agent", "screening_process_applications"),
        ("Process Rental Applications \u{2013} Leasing Agent", "screening_process_applications"),
        ("Process Rental Applications", "screening_process_applications"),
        ("Notify Applicants of Status - Leasing Agent", "screening_notify_applicants"),
        ("Notify Applicants of Status \u{2013} Leasing Agent", "screening_notify_applicants"),
        ("Notify Applicants of Status", "screening_notify_applicants"),
        ("Prepare Lease Agreement - Leasing Agent", "leasing_prepare_agreement"),
        ("Prepare Lease Agreement \u{2013} Leasing Agent", "leasing_prepare_agreement"),
        ("Prepare Lease Agreement", "leasing_prepare_agreement"),
        ("Complete Lease Agreement and Collect Financials - Leasing Agent", "leasing_prepare_agreement"),
        ("Complete Lease Agreement and Collect Financials", "leasing_prepare_agreement"),
        ("Send the lease to the new tenant for e-signature via AppFolio.", "leasing_prepare_agreement"),
        ("Send the new lease agreement to the tenant for signature. Iowa law (Iowa Code \u{00a7} 562A.13) requires written notice of any rent increase at least 30 days before the effective date.", "leasing_prepare_agreement"),
        ("Sign new leases", "leasing_prepare_agreement"),
        ("Collect Funds - Property Manager/Accounting", "leasing_collect_funds"),
        ("Collect Funds \u{2013} Property Manager/Accounting", "leasing_collect_funds"),
        ("Collect Funds - Property Manager / Accounting", "leasing_collect_funds"),
        ("Collect Funds - Property Manager & Accounting", "leasing_collect_funds"),
        ("Collect Funds - PM/Accounting", "leasing_collect_funds"),
        ("Collect Funds", "leasing_collect_funds"),
        ("Collect Move-In Funds - Property Manager/Accounting", "leasing_collect_funds"),
        ("Collect Move-In Funds", "leasing_collect_funds"),
        ("Collect first month's rent and the security deposit.", "leasing_collect_funds"),
        ("Conduct Move-In Inspection - Property Manager", "leasing_conduct_move_in_inspection"),
        ("Conduct Move-In Inspection \u{2013} Property Manager", "leasing_conduct_move_in_inspection"),
        ("Conduct Move-In Inspection", "leasing_conduct_move_in_inspection"),
        ("Conduct Move-In Walk-Through & Orientation - Property Manager", "leasing_conduct_move_in_inspection"),
        ("Conduct Move-In Walk-Through & Orientation \u{2013} Property Manager", "leasing_conduct_move_in_inspection"),
        ("Conduct Move-In Walk-Through and Orientation - Property Manager", "leasing_conduct_move_in_inspection"),
        ("Complete LIHTC Initial Certification - Compliance Coordinator", "leasing_lihtc_certification"),
        ("Complete LIHTC Initial Certification \u{2013} Compliance Coordinator", "leasing_lihtc_certification"),
        ("Complete LIHTC Initial Certification", "leasing_lihtc_certification"),
        ("Finalize TIC", "leasing_lihtc_certification"),
        ("Start New Resident Workflow", "handoff_start_new_resident_workflow"),
        ("Start the New Resident Workflow", "handoff_start_new_resident_workflow"),
        ("Hand Over Keys & Welcome Tenant - Leasing Agent", "handoff_start_new_resident_workflow"),
        ("Hand Over Keys & Welcome Tenant \u{2013} Leasing Agent", "handoff_start_new_resident_workflow"),
        ("Hand Over Keys and Welcome Tenant - Leasing Agent", "handoff_start_new_resident_workflow"),
        ("Update the unit's status in AppFolio from \"Vacant\" to \"Occupied.\"", "handoff_start_new_resident_workflow"),
    ]
}

/// The task tracker's names for the catalog's tasks, each with its task key.
#[verifier::rlimit(80)]
pub fn apollo_name_map() -> (table: Vec<(&'static str, &'static str)>)
    ensures
        table@ == apollo_name_map_spec(),
{
    let mut table: Vec<(&'static str, &'static str)> = Vec::new();
    table.push(("Create and Publish Listing - Leasing Agent", "marketing_publish_listing"));
    table.push(("Create and Publish Listing \u{2013} Leasing Agent", "marketing_publish_listing"));
    table.push(("Create and Publish Listing", "marketing_publish_listing"));
    table.push(("Update Vacancy in AppFolio - Leasing Agent", "marketing_update_appfolio"));
    table.push(("Update Vacancy in AppFolio \u{2013} Leasing Agent", "marketing_update_appfolio"));
    table.push(("Update Vacancy in AppFolio", "marketing_update_appfolio"));
    table.push(("Manage Inquiries and Schedule Showings - Leasing Agent", "screening_manage_inquiries"));
    table.push(("Manage Inquiries and Schedule Showings \u{2013} Leasing Agent", "screening_manage_inquiries"));
    table.push(("Manage Inquiries & Schedule Showings - Leasing Agent", "screening_manage_inquiries"));
    table.push(("Manage Inquiries and Schedule Showings", "screening_manage_inquiries"));
    table.push(("Process Rental Applications - Leasing Agent", "screening_process_applications"));
    table.push(("Process Rental Applications \u{2013} Leasing Agent", "screening_process_applications"));
    table.push(("Process Rental Applications", "screening_process_applications"));
    table.push(("Notify Applicants of Status - Leasing Agent", "screening_notify_applicants"));
    table.push(("Notify Applicants of Status \u{2013} Leasing Agent", "screening_notify_applicants"));
    table.push(("Notify Applicants of Status", "screening_notify_applicants"));
    table.push(("Prepare Lease Agreement - Leasing Agent", "leasing_prepare_agreement"));
    table.push(("Prepare Lease Agreement \u{2013} Leasing Agent", "leasing_prepare_agreement"));
    table.push(("Prepare Lease Agreement", "leasing_prepare_agreement"));
    table.push(("Complete Lease Agreement and Collect Financials - Leasing Agent", "leasing_prepare_agreement"));
    table.push(("Complete Lease Agreement and Collect Financials", "leasing_prepare_agreement"));
    table.push(("Send the lease to the new tenant for e-signature via AppFolio.", "leasing_prepare_agreement"));
    table.push(("Send the new lease agreement to the tenant for signature. Iowa law (Iowa Code \u{00a7} 562A.13) requires written notice of any rent increase at least 30 days before the effective date.", "leasing_prepare_agreement"));
    table.push(("Sign new leases", "leasing_prepare_agreement"));
    table.push(("Collect Funds - Property Manager/Accounting", "leasing_collect_funds"));
    table.push(("Collect Funds \u{2013} Property Manager/Accounting", "leasing_collect_funds"));
    table.push(("Collect Funds - Property Manager / Accounting", "leasing_collect_funds"));
    table.push(("Collect Funds - Property Manager & Accounting", "leasing_collect_funds"));
    table.push(("Collect Funds - PM/Accounting", "leasing_collect_funds"));
    table.push(("Collect Funds", "leasing_collect_funds"));
    table.push(("Collect Move-In Funds - Property Manager/Accounting", "leasing_collect_funds"));
    table.push(("Collect Move-In Funds", "leasing_collect_funds"));
    table.push(("Collect first month's rent and the security deposit.", "leasing_collect_funds"));
    table.push(("Conduct Move-In Inspection - Property Manager", "leasing_conduct_move_in_inspection"));
    table.push(("Conduct Move-In Inspection \u{2013} Property Manager", "leasing_conduct_move_in_inspection"));
    table.push(("Conduct Move-In Inspection", "leasing_conduct_move_in_inspection"));
    table.push(("Conduct Move-In Walk-Through & Orientation - Property Manager", "leasing_conduct_move_in_inspection"));
    table.push(("Conduct Move-In Walk-Through & Orientation \u{2013} Property Manager", "leasing_conduct_move_in_inspection"));
    table.push(("Conduct Move-In Walk-Through and Orientation - Property Manager", "leasing_conduct_move_in_inspection"));
    table.push(("Complete LIHTC Initial Certification - Compliance Coordinator", "leasing_lihtc_certification"));
    table.push(("Complete LIHTC Initial Certification \u{2013} Compliance Coordinator", "leasing_lihtc_certification"));
    table.push(("Complete LIHTC Initial Certification", "leasing_lihtc_certification"));
    table.push(("Finalize TIC", "leasing_lihtc_certification"));
    table.push(("Start New Resident Workflow", "handoff_start_new_resident_workflow"));
    table.push(("Start the New Resident Workflow", "handoff_start_new_resident_workflow"));
    table.push(("Hand Over Keys & Welcome Tenant - Leasing Agent", "handoff_start_new_resident_workflow"));
    table.push(("Hand Over Keys & Welcome Tenant \u{2013} Leasing Agent", "handoff_start_new_resident_workflow"));
    table.push(("Hand Over Keys and Welcome Tenant - Leasing Agent", "handoff_start_new_resident_workflow"));
    table.push(("Update the unit's status in AppFolio from \"Vacant\" to \"Occupied.\"", "handoff_start_new_resident_workflow"));
    assert(table@ =~= apollo_name_map_spec());
    table
}

/// The key of the last entry of `table` whose name normalizes to `query`, if any.
pub open spec fn key_for(table: Seq<(&'static str, &'static str)>, query: Seq<char>) -> Option<
    &'static str,
>
    decreases table.len(),
{
    if table.len() == 0 {
        None
    } else if normalized(table.last().0@) == query {
        Some(table.last().1)
    } else {
        key_for(table.drop_last(), query)
    }
}

/// Looks up the task key of an already normalized name. Where two names normalize
/// alike, the later entry of the table decides.
pub fn task_key_for_normalized(normalized_name: &str) -> (r: Option<&'static str>)
    ensures
        r == key_for(apollo_name_map_spec(), normalized_name@),
{
    let table = apollo_name_map();
    let ghost t = table@;
    let mut i: usize = table.len();
    assert(t.subrange(0, i as int) =~= t);
    while i > 0
        invariant
            i <= table@.len(),
            table@ == t,
            t == apollo_name_map_spec(),
            key_for(t, normalized_name@) == key_for(t.subrange(0, i as int), normalized_name@),
        decreases i,
    {
        let entry = table[i - 1];
        let name = normalize_name(entry.0);
        proof {
            assert(t.subrange(0, i as int).drop_last() =~= t.subrange(0, i - 1));
            assert(t.subrange(0, i as int).last() == entry);
        }
        if str_eq(name.as_str(), normalized_name) {
            assert(normalized(entry.0@) == normalized_name@);
            return Some(entry.1);
        }
        i -= 1;
    }
    proof {
        assert(t.subrange(0, 0) =~= Seq::<(&'static str, &'static str)>::empty());
    }
    None
}

/// Looks up the task key of a name as the tracker writes it.
pub fn lookup_task_key(name: &str) -> (r: Option<&'static str>)
    ensures
        r == key_for(apollo_name_map_spec(), normalized(name@)),
{
    let normalized_name = normalize_name(name);
    task_key_for_normalized(normalized_name.as_str())
}

/// The day number, second of the day and nanosecond of that second, in UTC, that
/// chrono reads from an RFC 3339 date-time, or `None` where it reads none.
pub uninterp spec fn rfc3339_parts(s: Seq<char>) -> Option<(i64, u32, u32)>;

/// The day number that chrono reads from a `%Y-%m-%d` date, or `None`.
pub uninterp spec fn iso_date_day(s: Seq<char>) -> Option<i64>;

/// Relies on chrono's `DateTime::parse_from_rfc3339`, taken to UTC, and on its day,
/// second-of-day and nanosecond accessors.
#[verifier::external_body]
fn parse_rfc3339(s: &str) -> (r: Option<(i64, u32, u32)>)
    ensures
        r == rfc3339_parts(s@),
{
    DateTime::parse_from_rfc3339(s).ok().map(|dt| {
        let utc = dt.naive_utc();
        let time = utc.time();
        (utc.date().num_days_from_ce() as i64, time.num_seconds_from_midnight(), time.nanosecond())
    })
}

/// Relies on chrono's `NaiveDate::parse_from_str` with the format `%Y-%m-%d`.
#[verifier::external_body]
fn parse_iso_date(s: &str) -> (r: Option<i64>)
    ensures
        r == iso_date_day(s@),
{
    NaiveDate::parse_from_str(s, "%Y-%m-%d").ok().map(|d| d.num_days_from_ce() as i64)
}

/// A moment as a day, a second of that day and a nanosecond of that second, ordered
/// in that sequence.
#[derive(Debug, Clone, Copy, PartialEq, Eq)]
pub struct Moment {
    pub date: CalendarDate,
    pub second_of_day: u32,
    pub nanosecond: u32,
}

impl Moment {
    pub open spec fn spec_is_after(self, other: Moment) -> bool {
        if self.date.day_number != other.date.day_number {
            self.date.day_number > other.date.day_number
        } else if self.second_of_day != other.second_of_day {
            self.second_of_day > other.second_of_day
        } else {
            self.nanosecond > other.nanosecond
        }
    }

    pub fn is_after(self, other: Moment) -> (r: bool)
        ensures
            r == self.spec_is_after(other),
    {
        if self.date.day_number != other.date.day_number {
            self.date.day_number > other.date.day_number
        } else if self.second_of_day != other.second_of_day {
            self.second_of_day > other.second_of_day
        } else {
            self.nanosecond > other.nanosecond
        }
    }
}

/// What a trimmed, non-empty value reads as: an RFC 3339 date-time, else a plain date
/// at midnight.
pub open spec fn moment_of_trimmed(t: Seq<char>) -> Option<Moment> {
    if t.len() == 0 {
        None
    } else {
        match rfc3339_parts(t) {
            Some((d, s, n)) => Some(
                Moment { date: CalendarDate { day_number: d }, second_of_day: s, nanosecond: n },
            ),
            None => match iso_date_day(t) {
                Some(d) => Some(
                    Moment { date: CalendarDate { day_number: d }, second_of_day: 0, nanosecond: 0 },
                ),
                None => None,
            },
        }
    }
}

/// What a timestamp of the tracker's export reads as.
pub open spec fn moment_of(s: Seq<char>) -> Option<Moment> {
    moment_of_trimmed(trimmed(s))
}

/// Reads a timestamp of the tracker's export: surrounding white space is ignored, an
/// RFC 3339 date-time is tried first and a `%Y-%m-%d` date second.
pub fn parse_datetime(value: &str) -> (r: Option<Moment>)
    ensures
        r == moment_of(value@),
{
    let trimmed = trim_white_space(value);
    if trimmed.unicode_len() == 0 {
        return None;
    }
    if let Some((day, second, nanosecond)) = parse_rfc3339(trimmed) {
        return Some(
            Moment { date: CalendarDate::from_day_number(day), second_of_day: second, nanosecond },
        );
    }
    match parse_iso_date(trimmed) {
        Some(day) => Some(
            Moment { date: CalendarDate::from_day_number(day), second_of_day: 0, nanosecond: 0 },
        ),
        None => None,
    }
}

/// One row of the tracker's export, with blank cells read as absent.
#[derive(Debug, Clone, PartialEq, Eq)]
pub struct ApolloRow {
    pub name: String,
    pub completed_at: Option<String>,
    pub created_at: Option<String>,
    pub last_modified: Option<String>,
}

impl ApolloRow {
    /// The day on which the row says the task was completed.
    pub fn completed_date(&self) -> (r: Option<CalendarDate>)
        ensures
            r == match self.completed_at {
                Some(t) => match moment_of(t@) {
                    Some(m) => Some(m.date),
                    None => None::<CalendarDate>,
                },
                None => None,
            },
    {
        match &self.completed_at {
            Some(text) => match parse_datetime(text.as_str()) {
                Some(moment) => Some(moment.date),
                None => None,
            },
            None => None,
        }
    }

    /// The row was modified after it was created, both stamps being readable.
    pub fn touched(&self) -> (r: bool)
        ensures
            r == (self.created_at matches Some(c) && self.last_modified matches Some(m)
                && moment_of(c@) matches Some(cm) && moment_of(m@) matches Some(mm)
                && mm.spec_is_after(cm)),
    {
        match (&self.created_at, &self.last_modified) {
            (Some(created), Some(modified)) => match (
                parse_datetime(created.as_str()),
                parse_datetime(modified.as_str()),
            ) {
                (Some(c), Some(m)) => m.is_after(c),
                _ => false,
            },
            _ => false,
        }
    }

    /// The row as the importer uses it.
    pub fn to_record(&self) -> (r: ApolloRecord)
        ensures
            r.normalized_name@ == normalized(self.name@),
            r.completed_on == match self.completed_at {
                Some(t) => match moment_of(t@) {
                    Some(m) => Some(m.date),
                    None => None::<CalendarDate>,
                },
                None => None,
            },
            r.touched == (self.created_at matches Some(c) && self.last_modified matches Some(m)
                && moment_of(c@) matches Some(cm) && moment_of(m@) matches Some(mm)
                && mm.spec_is_after(cm)),
    {
        ApolloRecord {
            normalized_name: normalize_name(self.name.as_str()),
            completed_on: self.completed_date(),
            touched: self.touched(),
        }
    }
}

/// A row reduced to what the importer reads.
#[derive(Debug, Clone, PartialEq, Eq)]
pub struct ApolloRecord {
    pub normalized_name: String,
    pub completed_on: Option<CalendarDate>,
    pub touched: bool,
}

/// Builds workflow instances from the task tracker's export.
#[derive(Debug, Clone, Copy)]
pub struct ApolloVacancyImporter;


/// What one row does to the tasks and to the keys applied so far: a completion date
/// completes the named task, a touched row marks it in progress, and either records
/// the key; `None` where the instance has no task with that key.
pub open spec fn apply_step(
    tasks: Seq<TaskInstance>,
    applied: Seq<&'static str>,
    task_key: &'static str,
    record: ApolloRecord,
) -> Option<(Seq<TaskInstance>, Seq<&'static str>)> {
    if record.completed_on is Some || record.touched {
        let (status, completed_on) = if record.completed_on is Some {
            (TaskStatus::Completed, record.completed_on)
        } else {
            (TaskStatus::InProgress, None)
        };
        match key_index(tasks, task_key@) {
            None => None,
            Some(i) => Some(
                (tasks.update(i, with_status(tasks[i], status, completed_on)), applied.push(task_key)),
            ),
        }
    } else {
        Some((tasks, applied))
    }
}

/// The tasks of the standard catalog as a new instance holds them.
pub open spec fn fresh_standard_tasks(
    fresh: Seq<TaskInstance>,
    vacancy_start: CalendarDate,
    target_move_in: CalendarDate,
) -> bool {
    &&& fresh.len() == standard_plan().len()
    &&& forall|i: int|
        0 <= i < fresh.len() ==> {
            let t = #[trigger] fresh[i];
            &&& follows_plan(t.template, standard_plan()[i])
            &&& t.due_date.day_number == t.template.due.due_day(vacancy_start, target_move_in)
            &&& t.status == TaskStatus::NotStarted
            &&& t.completed_on is None
        }
}

/// The key was applied already.
pub open spec fn was_applied(applied: Seq<&'static str>, key: &'static str) -> bool {
    exists|j: int| 0 <= j < applied.len() && applied[j]@ == key@
}

/// The rows applied in order to `tasks`: rows whose names the table does not know,
/// and rows for a key already applied, change nothing.
pub open spec fn import_fold(records: Seq<ApolloRecord>, tasks: Seq<TaskInstance>) -> Option<
    (Seq<TaskInstance>, Seq<&'static str>),
>
    decreases records.len(),
{
    if records.len() == 0 {
        Some((tasks, seq![]))
    } else {
        match import_fold(records.drop_last(), tasks) {
            None => None,
            Some((t, a)) => match key_for(apollo_name_map_spec(), records.last().normalized_name@) {
                None => Some((t, a)),
                Some(k) => if was_applied(a, k) {
                    Some((t, a))
                } else {
                    apply_step(t, a, k, records.last())
                },
            },
        }
    }
}

proof fn lemma_import_fails_on(records: Seq<ApolloRecord>, tasks: Seq<TaskInstance>, n: int)
    requires
        0 <= n <= records.len(),
        import_fold(records.subrange(0, n), tasks) is None,
    ensures
        import_fold(records, tasks) is None,
    decreases records.len() - n,
{
    if n < records.len() {
        assert(records.subrange(0, n + 1).drop_last() =~= records.subrange(0, n));
        lemma_import_fails_on(records, tasks, n + 1);
    } else {
        assert(records.subrange(0, n) =~= records);
    }
}

fn contains_key(applied: &Vec<&'static str>, key: &'static str) -> (r: bool)
    ensures
        r == was_applied(applied@, key),
{
    let mut i: usize = 0;
    while i < applied.len()
        invariant
            i <= applied@.len(),
            forall|k: int| 0 <= k < i ==> applied@[k]@ != key@,
        decreases applied.len() - i,
    {
        if str_eq(applied[i], key) {
            return true;
        }
        i += 1;
    }
    false
}

/// Applies one row to the task it names, as `apply_step` says.
pub fn apply_record(
    task_key: &'static str,
    record: &ApolloRecord,
    instance: &mut VacancyWorkflowInstance,
    applied: &mut Vec<&'static str>,
) -> (r: Result<(), VacancyError>)
    requires
        old(instance).wf(),
    ensures
        final(instance).wf(),
        match apply_step(old(instance).spec_tasks(), old(applied)@, task_key, *record) {
            None => r is Err,
            Some((t, a)) => r is Ok && final(instance).spec_tasks() == t && final(applied)@ == a,
        },
{
    if let Some(completed_on) = record.completed_on {
        match instance.set_status(task_key, TaskStatus::Completed, Some(completed_on)) {
            Ok(()) => {},
            Err(e) => return Err(e),
        }
        applied.push(task_key);
    } else if record.touched {
        match instance.set_status(task_key, TaskStatus::InProgress, None) {
            Ok(()) => {},
            Err(e) => return Err(e),
        }
        applied.push(task_key);
    }
    Ok(())
}

impl ApolloVacancyImporter {
    /// The standard workflow for the vacancy with the rows applied in order: the first
    /// row that completes or touches a task decides its status, and rows whose names
    /// the table does not know are skipped.
    pub fn from_records(
        records: &Vec<ApolloRecord>,
        vacancy_start: CalendarDate,
        target_move_in: CalendarDate,
    ) -> (r: Result<VacancyWorkflowInstance, VacancyError>)
        requires
            vacancy_start.day_number <= i64::MAX - 5,
            target_move_in.day_number >= i64::MIN + 5,
        ensures
            exists|fresh: Seq<TaskInstance>|
                #[trigger] fresh_standard_tasks(fresh, vacancy_start, target_move_in) && match import_fold(
                    records@,
                    fresh,
                ) {
                    None => r is Err,
                    Some((tasks, _)) => r matches Ok(instance) && instance.wf() && instance.spec_tasks()
                        == tasks,
                },
    {
        let blueprint = VacancyWorkflowBlueprint::standard();
        proof {
            assert forall|i: int| 0 <= i < blueprint.spec_tasks().len() implies (
            #[trigger] blueprint.spec_tasks()[i]).due.resolvable(vacancy_start, target_move_in) by {
                assert(follows_plan(blueprint.spec_tasks()[i], standard_plan()[i]));
            }
        }
        let mut instance = VacancyWorkflowInstance::new(&blueprint, vacancy_start, target_move_in);
        let ghost fresh = instance.spec_tasks();
        proof {
            assert forall|i: int| 0 <= i < fresh.len() implies follows_plan(
                (#[trigger] fresh[i]).template,
                standard_plan()[i],
            ) by {
                assert(fresh[i].template.same_as(blueprint.spec_tasks()[i]));
                assert(follows_plan(blueprint.spec_tasks()[i], standard_plan()[i]));
            }
            assert(records@.subrange(0, 0) =~= Seq::<ApolloRecord>::empty());
            assert(fresh_standard_tasks(fresh, vacancy_start, target_move_in));
        }
        let mut applied: Vec<&'static str> = Vec::new();
        let mut i: usize = 0;
        while i < records.len()
            invariant
                i <= records@.len(),
                instance.wf(),
                fresh_standard_tasks(fresh, vacancy_start, target_move_in),
                import_fold(records@.subrange(0, i as int), fresh) == Some(
                    (instance.spec_tasks(), applied@),
                ),
            decreases records.len() - i,
        {
            let ghost prefix = records@.subrange(0, i + 1);
            proof {
                assert(prefix.drop_last() =~= records@.subrange(0, i as int));
                assert(prefix.last() == records@[i as int]);
            }
            let record = &records[i];
            if let Some(task_key) = task_key_for_normalized(record.normalized_name.as_str()) {
                if !contains_key(&applied, task_key) {
                    match apply_record(task_key, record, &mut instance, &mut applied) {
                        Ok(()) => {},
                        Err(e) => {
                            proof {
                                assert(import_fold(prefix, fresh) is None);
                                lemma_import_fails_on(records@, fresh, i + 1);
                            }
                            return Err(e);
                        },
                    }
                }
            }
            i += 1;
        }
        proof {
            assert(records@.subrange(0, i as int) =~= records@);
        }
        Ok(instance)
    }
}

} // verus!
