use crate::domain::{ComplianceNote, DueDateRule, TaskTemplate, VacancyRole, VacancyStage};
use vstd::prelude::*;

verus! {

/// The ordered catalog of task templates that every vacancy follows.
#[derive(Debug)]
pub struct VacancyWorkflowBlueprint {
    tasks: Vec<TaskTemplate>,
}

/// Key, stage, role, due-date rule and number of compliance notes of each task of the
/// standard catalog, in catalog order.
pub open spec fn standard_plan() -> Seq<(&'static str, VacancyStage, VacancyRole, DueDateRule, nat)> {
    seq![
            ("marketing_publish_listing", VacancyStage::MarketingAndAdvertising, VacancyRole::LeasingAgent, DueDateRule::DaysFromVacancy(0), 1nat),
            ("marketing_update_appfolio", VacancyStage::MarketingAndAdvertising, VacancyRole::LeasingAgent, DueDateRule::DaysFromVacancy(0), 1nat),
            ("screening_manage_inquiries", VacancyStage::ScreeningAndApplication, VacancyRole::LeasingAgent, DueDateRule::DaysFromVacancy(0), 1nat),
            ("screening_process_applications", VacancyStage::ScreeningAndApplication, VacancyRole::LeasingAgent, DueDateRule::DaysFromVacancy(2), 2nat),
            ("screening_notify_applicants", VacancyStage::ScreeningAndApplication, VacancyRole::LeasingAgent, DueDateRule::DaysFromVacancy(2), 1nat),
            ("leasing_prepare_agreement", VacancyStage::LeaseSigningAndMoveIn, VacancyRole::LeasingAgent, DueDateRule::DaysFromVacancy(5), 1nat),
            ("leasing_collect_funds", VacancyStage::LeaseSigningAndMoveIn, VacancyRole::PropertyManagerAccounting, DueDateRule::DaysBeforeMoveIn(5), 1nat),
            ("leasing_conduct_move_in_inspection", VacancyStage::LeaseSigningAndMoveIn, VacancyRole::PropertyManager, DueDateRule::OnMoveIn, 1nat),
            ("leasing_lihtc_certification", VacancyStage::LeaseSigningAndMoveIn, VacancyRole::ComplianceCoordinator, DueDateRule::DaysBeforeMoveIn(3), 1nat),
            ("handoff_start_new_resident_workflow", VacancyStage::Handoff, VacancyRole::PropertyManager, DueDateRule::OnMoveIn, 1nat),
    ]
}

/// Name, deliverables and compliance notes of each task of the standard catalog, in
/// catalog order.
pub open spec fn standard_texts() -> Seq<(&'static str, Seq<&'static str>, Seq<ComplianceNote>)> {
    seq![
        ("Create and Publish Listing", seq!["Draft a fresh listing that highlights unit features, affordability programs, and rent ready date.", "Upload current listing photos or virtual tour links before publishing.", "Syndicate to Zillow, Apartments.com, social media, and capture marketing URLs for reporting."], seq![ComplianceNote { topic: "Iowa Code § 562A.29 reasonable re-rental efforts", detail: "Document every marketing channel touch to evidence reasonable efforts to re-rent (Iowa Code § 562A.29)." }]),
        ("Update Vacancy Status in AppFolio", seq!["Switch the unit status from \"Turnover\" to \"Vacant\" in AppFolio immediately after make-ready sign-off.", "Confirm listing syndication triggers fired for all partner channels."], seq![ComplianceNote { topic: "System of record accuracy", detail: "Accurate AppFolio statuses keep vacancy analytics, owner reporting, and marketing automation in sync." }]),
        ("Manage Inquiries and Schedule Showings", seq!["Respond to every inquiry within one business day using standardized messaging to preserve Fair Housing parity.", "Capture pre-screen answers covering move timeline, household composition, pets, and program eligibility.", "Offer pre-defined showing blocks via scheduling links to minimize back-and-forth."], seq![ComplianceNote { topic: "Fair Housing and Iowa Civil Rights Act parity", detail: "Consistent response cadences prevent disparate treatment across protected classes and leave an audit trail." }]),
        ("Process Rental Applications", seq!["Review each application within 48 hours and request missing fields immediately.", "Collect income, asset, and household documentation aligned with LIHTC and program requirements.", "Complete credit, background, and landlord verifications before rendering a decision."], seq![ComplianceNote { topic: "Documented screening criteria", detail: "Apply published screening criteria uniformly and retain documentation for adverse action defense." }, ComplianceNote { topic: "LIHTC source-of-income verification", detail: "Secure third-party income documentation to support Tenant Income Certification (TIC) files." }]),
        ("Notify Applicants of Status", seq!["Send approvals with next-step instructions and payment expectations.", "Issue denials with compliant adverse action language and timestamp outcomes in the CRM."], seq![ComplianceNote { topic: "Adverse action documentation", detail: "Retain copies of denial notices and credit disclosures to satisfy Fair Credit Reporting Act obligations." }]),
        ("Prepare Lease Agreement", seq!["Merge approved terms into the LIHTC-compliant lease packet and distribute for e-signature.", "Confirm all addenda (e.g., VAWA, house rules) are attached before sending."], seq![ComplianceNote { topic: "Lease artifact completeness", detail: "Incomplete lease packets jeopardize move-in readiness and downstream LIHTC audits." }]),
        ("Collect Move-In Funds", seq!["Collect prorated rent, deposits, and fees; post receipts to the resident ledger.", "Confirm deposit amounts stay within Iowa caps (≤ two months rent)."], seq![ComplianceNote { topic: "Security deposit limits", detail: "Deposits exceeding state limits expose the portfolio to statutory penalties." }]),
        ("Conduct Move-In Inspection", seq!["Complete digital inspection checklist with tenant present and capture photos of every room.", "Upload signed inspection and media to AppFolio for permanent recordkeeping."], seq![ComplianceNote { topic: "Move-in condition documentation", detail: "Thorough inspections limit security deposit disputes and support future turn charges." }]),
        ("Complete LIHTC Initial Certification", seq!["Collect signed Tenant Income Certification (TIC) and applicable student status affidavits.", "Verify income against current IFA limits and retain third-party documentation.", "Issue VAWA notices and ensure household files are audit ready."], seq![ComplianceNote { topic: "LIHTC eligibility lock-in", detail: "Certification must be finalized at least three days before move-in to maintain LIHTC compliance." }]),
        ("Handoff to New Resident Workflow", seq!["Update the unit status from \"Vacant\" to \"Occupied\" in AppFolio once keys are released.", "Trigger the New Resident onboarding workflow with welcome communications and follow-up tasks."], seq![ComplianceNote { topic: "Operational handoff completeness", detail: "Transitioning to onboarding ensures services, compliance tracking, and resident engagement continue seamlessly." }]),
    ]
}

/// The template carries entry `i` of the standard texts.
pub open spec fn carries_texts(
    t: TaskTemplate,
    entry: (&'static str, Seq<&'static str>, Seq<ComplianceNote>),
) -> bool {
    &&& t.name == entry.0
    &&& t.deliverables@ == entry.1
    &&& t.compliance@ == entry.2
}

/// The template at position `i` of a catalog follows entry `i` of the standard plan.
pub open spec fn follows_plan(t: TaskTemplate, entry: (&'static str, VacancyStage, VacancyRole, DueDateRule, nat)) -> bool {
    &&& t.key == entry.0
    &&& t.stage == entry.1
    &&& t.primary_role == entry.2
    &&& t.due == entry.3
    &&& t.compliance@.len() == entry.4
}

impl VacancyWorkflowBlueprint {
    pub closed spec fn spec_tasks(&self) -> Seq<TaskTemplate> {
        self.tasks@
    }

    /// The standard vacancy catalog.
    pub fn standard() -> (r: Self)
        ensures
            r.spec_tasks().len() == standard_plan().len(),
            forall|i: int|
                0 <= i < standard_plan().len() ==> follows_plan(
                    #[trigger] r.spec_tasks()[i],
                    standard_plan()[i],
                ) && carries_texts(r.spec_tasks()[i], standard_texts()[i]),
    {
        Self { tasks: standard_task_templates() }
    }

    /// The templates of one stage, in catalog order.
    pub fn tasks_for_stage(&self, stage: VacancyStage) -> (r: Vec<&TaskTemplate>)
        ensures
            r@.map_values(|t: &TaskTemplate| *t) == self.spec_tasks().filter(
                |t: TaskTemplate| t.stage == stage,
            ),
    {
        let mut r: Vec<&TaskTemplate> = Vec::new();
        let mut i: usize = 0;
        while i < self.tasks.len()
            invariant
                i <= self.tasks.len(),
                r@.map_values(|t: &TaskTemplate| *t) == self.tasks@.subrange(0, i as int).filter(
                    |t: TaskTemplate| t.stage == stage,
                ),
            decreases self.tasks.len() - i,
        {
            proof {
                reveal(Seq::filter);
                assert(self.tasks@.subrange(0, i + 1).drop_last() =~= self.tasks@.subrange(0, i as int));
            }
            if self.tasks[i].stage == stage {
                r.push(&self.tasks[i]);
                assert(r@.map_values(|t: &TaskTemplate| *t) =~= self.tasks@.subrange(0, i + 1).filter(
                    |t: TaskTemplate| t.stage == stage,
                ));
            }
            i += 1;
        }
        assert(self.tasks@.subrange(0, i as int) =~= self.tasks@);
        r
    }

    pub fn task_templates(&self) -> (r: &[TaskTemplate])
        ensures
            r@ == self.spec_tasks(),
    {
        self.tasks.as_slice()
    }
}

fn template(
    key: &'static str,
    name: &'static str,
    stage: VacancyStage,
    primary_role: VacancyRole,
    due: DueDateRule,
    deliverables: Vec<&'static str>,
    compliance: Vec<ComplianceNote>,
) -> (r: TaskTemplate)
    ensures
        r.key == key,
        r.name == name,
        r.stage == stage,
        r.primary_role == primary_role,
        r.due == due,
        r.deliverables@ == deliverables@,
        r.compliance@ == compliance@,
{
    TaskTemplate { key, name, stage, primary_role, due, deliverables, compliance }
}

fn standard_task_templates() -> (tasks: Vec<TaskTemplate>)
    ensures
        tasks@.len() == standard_plan().len(),
        forall|i: int|
            0 <= i < standard_plan().len() ==> follows_plan(#[trigger] tasks@[i], standard_plan()[i])
                && carries_texts(tasks@[i], standard_texts()[i]),
{
    let mut tasks: Vec<TaskTemplate> = Vec::new();
    tasks.push(
        template(
            "marketing_publish_listing",
            "Create and Publish Listing",
            VacancyStage::MarketingAndAdvertising,
            VacancyRole::LeasingAgent,
            DueDateRule::DaysFromVacancy(0),
            vec![
                "Draft a fresh listing that highlights unit features, affordability programs, and rent ready date.",
                "Upload current listing photos or virtual tour links before publishing.",
                "Syndicate to Zillow, Apartments.com, social media, and capture marketing URLs for reporting.",
            ],
            vec![
                ComplianceNote {
                    topic: "Iowa Code § 562A.29 reasonable re-rental efforts",
                    detail: "Document every marketing channel touch to evidence reasonable efforts to re-rent (Iowa Code § 562A.29).",
                },
            ],
        ),
    );
    assert(tasks@[0].deliverables@ =~= standard_texts()[0].1);
    assert(tasks@[0].compliance@ =~= standard_texts()[0].2);
    tasks.push(
        template(
            "marketing_update_appfolio",
            "Update Vacancy Status in AppFolio",
            VacancyStage::MarketingAndAdvertising,
            VacancyRole::LeasingAgent,
            DueDateRule::DaysFromVacancy(0),
            vec![
                "Switch the unit status from \"Turnover\" to \"Vacant\" in AppFolio immediately after make-ready sign-off.",
                "Confirm listing syndication triggers fired for all partner channels.",
            ],
            vec![
                ComplianceNote {
                    topic: "System of record accuracy",
                    detail: "Accurate AppFolio statuses keep vacancy analytics, owner reporting, and marketing automation in sync.",
                },
            ],
        ),
    );
    assert(tasks@[1].deliverables@ =~= standard_texts()[1].1);
    assert(tasks@[1].compliance@ =~= standard_texts()[1].2);
    tasks.push(
        template(
            "screening_manage_inquiries",
            "Manage Inquiries and Schedule Showings",
            VacancyStage::ScreeningAndApplication,
            VacancyRole::LeasingAgent,
            DueDateRule::DaysFromVacancy(0),
            vec![
                "Respond to every inquiry within one business day using standardized messaging to preserve Fair Housing parity.",
                "Capture pre-screen answers covering move timeline, household composition, pets, and program eligibility.",
                "Offer pre-defined showing blocks via scheduling links to minimize back-and-forth.",
            ],
            vec![
                ComplianceNote {
                    topic: "Fair Housing and Iowa Civil Rights Act parity",
                    detail: "Consistent response cadences prevent disparate treatment across protected classes and leave an audit trail.",
                },
            ],
        ),
    );
    assert(tasks@[2].deliverables@ =~= standard_texts()[2].1);
    assert(tasks@[2].compliance@ =~= standard_texts()[2].2);
    tasks.push(
        template(
            "screening_process_applications",
            "Process Rental Applications",
            VacancyStage::ScreeningAndApplication,
            VacancyRole::LeasingAgent,
            DueDateRule::DaysFromVacancy(2),
            vec![
                "Review each application within 48 hours and request missing fields immediately.",
                "Collect income, asset, and household documentation aligned with LIHTC and program requirements.",
                "Complete credit, background, and landlord verifications before rendering a decision.",
            ],
            vec![
                ComplianceNote {
                    topic: "Documented screening criteria",
                    detail: "Apply published screening criteria uniformly and retain documentation for adverse action defense.",
                },
                ComplianceNote {
                    topic: "LIHTC source-of-income verification",
                    detail: "Secure third-party income documentation to support Tenant Income Certification (TIC) files.",
                },
            ],
        ),
    );
    assert(tasks@[3].deliverables@ =~= standard_texts()[3].1);
    assert(tasks@[3].compliance@ =~= standard_texts()[3].2);
    tasks.push(
        template(
            "screening_notify_applicants",
            "Notify Applicants of Status",
            VacancyStage::ScreeningAndApplication,
            VacancyRole::LeasingAgent,
            DueDateRule::DaysFromVacancy(2),
            vec![
                "Send approvals with next-step instructions and payment expectations.",
                "Issue denials with compliant adverse action language and timestamp outcomes in the CRM.",
            ],
            vec![
                ComplianceNote {
                    topic: "Adverse action documentation",
                    detail: "Retain copies of denial notices and credit disclosures to satisfy Fair Credit Reporting Act obligations.",
                },
            ],
        ),
    );
    assert(tasks@[4].deliverables@ =~= standard_texts()[4].1);
    assert(tasks@[4].compliance@ =~= standard_texts()[4].2);
    tasks.push(
        template(
            "leasing_prepare_agreement",
            "Prepare Lease Agreement",
            VacancyStage::LeaseSigningAndMoveIn,
            VacancyRole::LeasingAgent,
            DueDateRule::DaysFromVacancy(5),
            vec![
                "Merge approved terms into the LIHTC-compliant lease packet and distribute for e-signature.",
                "Confirm all addenda (e.g., VAWA, house rules) are attached before sending.",
            ],
            vec![
                ComplianceNote {
                    topic: "Lease artifact completeness",
                    detail: "Incomplete lease packets jeopardize move-in readiness and downstream LIHTC audits.",
                },
            ],
        ),
    );
    assert(tasks@[5].deliverables@ =~= standard_texts()[5].1);
    assert(tasks@[5].compliance@ =~= standard_texts()[5].2);
    tasks.push(
        template(
            "leasing_collect_funds",
            "Collect Move-In Funds",
            VacancyStage::LeaseSigningAndMoveIn,
            VacancyRole::PropertyManagerAccounting,
            DueDateRule::DaysBeforeMoveIn(5),
            vec![
                "Collect prorated rent, deposits, and fees; post receipts to the resident ledger.",
                "Confirm deposit amounts stay within Iowa caps (≤ two months rent).",
            ],
            vec![
                ComplianceNote {
                    topic: "Security deposit limits",
                    detail: "Deposits exceeding state limits expose the portfolio to statutory penalties.",
                },
            ],
        ),
    );
    assert(tasks@[6].deliverables@ =~= standard_texts()[6].1);
    assert(tasks@[6].compliance@ =~= standard_texts()[6].2);
    tasks.push(
        template(
            "leasing_conduct_move_in_inspection",
            "Conduct Move-In Inspection",
            VacancyStage::LeaseSigningAndMoveIn,
            VacancyRole::PropertyManager,
            DueDateRule::OnMoveIn,
            vec![
                "Complete digital inspection checklist with tenant present and capture photos of every room.",
                "Upload signed inspection and media to AppFolio for permanent recordkeeping.",
            ],
            vec![
                ComplianceNote {
                    topic: "Move-in condition documentation",
                    detail: "Thorough inspections limit security deposit disputes and support future turn charges.",
                },
            ],
        ),
    );
    assert(tasks@[7].deliverables@ =~= standard_texts()[7].1);
    assert(tasks@[7].compliance@ =~= standard_texts()[7].2);
    tasks.push(
        template(
            "leasing_lihtc_certification",
            "Complete LIHTC Initial Certification",
            VacancyStage::LeaseSigningAndMoveIn,
            VacancyRole::ComplianceCoordinator,
            DueDateRule::DaysBeforeMoveIn(3),
            vec![
                "Collect signed Tenant Income Certification (TIC) and applicable student status affidavits.",
                "Verify income against current IFA limits and retain third-party documentation.",
                "Issue VAWA notices and ensure household files are audit ready.",
            ],
            vec![
                ComplianceNote {
                    topic: "LIHTC eligibility lock-in",
                    detail: "Certification must be finalized at least three days before move-in to maintain LIHTC compliance.",
                },
            ],
        ),
    );
    assert(tasks@[8].deliverables@ =~= standard_texts()[8].1);
    assert(tasks@[8].compliance@ =~= standard_texts()[8].2);
    tasks.push(
        template(
            "handoff_start_new_resident_workflow",
            "Handoff to New Resident Workflow",
            VacancyStage::Handoff,
            VacancyRole::PropertyManager,
            DueDateRule::OnMoveIn,
            vec![
                "Update the unit status from \"Vacant\" to \"Occupied\" in AppFolio once keys are released.",
                "Trigger the New Resident onboarding workflow with welcome communications and follow-up tasks.",
            ],
            vec![
                ComplianceNote {
                    topic: "Operational handoff completeness",
                    detail: "Transitioning to onboarding ensures services, compliance tracking, and resident engagement continue seamlessly.",
                },
            ],
        ),
    );
    assert(tasks@[9].deliverables@ =~= standard_texts()[9].1);
    assert(tasks@[9].compliance@ =~= standard_texts()[9].2);
    tasks
}

} // verus!
