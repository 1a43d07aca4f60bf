use crate::applications::{
    ApplicantProfile, ApplicationId, ApplicationSubmission, CriminalRecord, LawfulFactorKind,
    LawfulFactorValue, LawfulFactors, ProhibitedScreeningPractice, RentalReference,
    ScreeningAnswers,
};
use crate::evaluation::EvaluationConfig;
use crate::ratio::Ratio;
use crate::text::{decimal_text, push_decimal};
use vstd::prelude::*;

verus! {

/// Why a submission cannot become a profile.
#[derive(Debug, Clone, PartialEq, Eq)]
pub enum ComplianceViolation {
    ProhibitedPractice(ProhibitedScreeningPractice),
    IowaSecurityDepositCap { max: u32, found: u32 },
    MissingIncomeDocumentation,
    IncompleteHousehold,
}

pub open spec fn practice_text(p: ProhibitedScreeningPractice) -> Seq<char> {
    match p {
        ProhibitedScreeningPractice::SteeringBasedOnFamilialStatus => "SteeringBasedOnFamilialStatus"@,
        ProhibitedScreeningPractice::SourceOfIncomeDiscrimination => "SourceOfIncomeDiscrimination"@,
        ProhibitedScreeningPractice::BlanketCriminalHistoryBan => "BlanketCriminalHistoryBan"@,
        ProhibitedScreeningPractice::DisparateResponseCadence => "DisparateResponseCadence"@,
        ProhibitedScreeningPractice::ProtectedClassInquiry { field } => "ProtectedClassInquiry { field: \""@
            + field@ + "\" }"@,
    }
}

impl ComplianceViolation {
    pub open spec fn message_text(&self) -> Seq<char> {
        match self {
            ComplianceViolation::ProhibitedPractice(p) => "submission captured prohibited screening practice: "@
                + practice_text(*p),
            ComplianceViolation::IowaSecurityDepositCap { max, found } => "security deposit exceeds Iowa two month cap (required <= "@
                + decimal_text(*max as nat) + ", found "@ + decimal_text(*found as nat) + ")"@,
            ComplianceViolation::MissingIncomeDocumentation => "missing verified income documentation for LIHTC/IFA requirements"@,
            ComplianceViolation::IncompleteHousehold => "household composition incomplete"@,
        }
    }

    /// The sentence that explains the violation.
    pub fn message(&self) -> (r: String)
        ensures
            r@ == self.message_text(),
    {
        match self {
            ComplianceViolation::ProhibitedPractice(p) => {
                let mut s = String::from_str("submission captured prohibited screening practice: ");
                match p {
                    ProhibitedScreeningPractice::SteeringBasedOnFamilialStatus => s.append(
                        "SteeringBasedOnFamilialStatus",
                    ),
                    ProhibitedScreeningPractice::SourceOfIncomeDiscrimination => s.append(
                        "SourceOfIncomeDiscrimination",
                    ),
                    ProhibitedScreeningPractice::BlanketCriminalHistoryBan => s.append(
                        "BlanketCriminalHistoryBan",
                    ),
                    ProhibitedScreeningPractice::DisparateResponseCadence => s.append(
                        "DisparateResponseCadence",
                    ),
                    ProhibitedScreeningPractice::ProtectedClassInquiry { field } => {
                        s.append("ProtectedClassInquiry { field: \"");
                        s.append(field.as_str());
                        s.append("\" }");
                    },
                }
                s
            },
            ComplianceViolation::IowaSecurityDepositCap { max, found } => {
                let mut s = String::from_str(
                    "security deposit exceeds Iowa two month cap (required <= ",
                );
                push_decimal(&mut s, *max as u64);
                s.append(", found ");
                push_decimal(&mut s, *found as u64);
                s.append(")");
                s
            },
            ComplianceViolation::MissingIncomeDocumentation => String::from_str(
                "missing verified income documentation for LIHTC/IFA requirements",
            ),
            ComplianceViolation::IncompleteHousehold => String::from_str(
                "household composition incomplete",
            ),
        }
    }
}

/// The deposit-cap multiplier used when the configured one is not a positive number.
pub const DEFAULT_DEPOSIT_CAP_NUMERATOR: u32 = 2;

/// The multiplier kept by a policy: the given one where it is positive and finite,
/// else two.
pub open spec fn sanitized_multiplier(m: Ratio) -> Ratio {
    if m.numerator > 0 && m.denominator > 0 {
        m
    } else {
        Ratio { numerator: 2, denominator: 1 }
    }
}

/// `ceil(rent × multiplier)`.
pub open spec fn ceil_of_product(rent: u32, m: Ratio) -> int
    recommends
        m.denominator > 0,
{
    (rent * m.numerator + m.denominator - 1) / (m.denominator as int)
}

/// The largest deposit allowed for a rent: none for a zero rent, else
/// `ceil(rent × multiplier)`, bounded by what a `u32` holds.
pub open spec fn deposit_cap(rent: u32, m: Ratio) -> u32 {
    if rent == 0 {
        0
    } else if ceil_of_product(rent, m) > u32::MAX {
        u32::MAX
    } else {
        ceil_of_product(rent, m) as u32
    }
}

/// The deposit rule of the guard.
#[derive(Debug, Clone, Copy)]
pub struct CompliancePolicy {
    deposit_cap_multiplier: Ratio,
}

impl CompliancePolicy {
    pub closed spec fn multiplier(&self) -> Ratio {
        self.deposit_cap_multiplier
    }

    pub open spec fn wf(&self) -> bool {
        self.multiplier().numerator > 0 && self.multiplier().denominator > 0
    }

    pub fn new(deposit_cap_multiplier: Ratio) -> (r: Self)
        ensures
            r.multiplier() == sanitized_multiplier(deposit_cap_multiplier),
            r.wf(),
    {
        let sanitized = if deposit_cap_multiplier.numerator > 0
            && deposit_cap_multiplier.denominator > 0 {
            deposit_cap_multiplier
        } else {
            Ratio::new(DEFAULT_DEPOSIT_CAP_NUMERATOR, 1)
        };
        CompliancePolicy { deposit_cap_multiplier: sanitized }
    }

    /// The policy with the default multiplier of two.
    pub fn default() -> (r: Self)
        ensures
            r.multiplier() == (Ratio { numerator: 2, denominator: 1 }),
            r.wf(),
    {
        Self::new(Ratio::new(DEFAULT_DEPOSIT_CAP_NUMERATOR, 1))
    }

    pub fn from_config(config: &EvaluationConfig) -> (r: Self)
        ensures
            r.multiplier() == sanitized_multiplier(config.deposit_cap_multiplier),
            r.wf(),
    {
        Self::new(config.deposit_cap_multiplier)
    }

    pub fn deposit_cap_multiplier(&self) -> (r: Ratio)
        ensures
            r == self.multiplier(),
    {
        self.deposit_cap_multiplier
    }

    pub fn max_deposit_for(&self, listed_rent: u32) -> (r: u32)
        requires
            self.wf(),
        ensures
            r == deposit_cap(listed_rent, self.multiplier()),
    {
        if listed_rent == 0 {
            return 0;
        }
        let num = self.deposit_cap_multiplier.numerator as u64;
        let den = self.deposit_cap_multiplier.denominator as u64;
        let rent = listed_rent as u64;
        proof {
            assert(rent * num <= 0xffff_ffffu64 * 0xffff_ffffu64) by (nonlinear_arith)
                requires
                    rent <= 0xffff_ffffu64,
                    num <= 0xffff_ffffu64,
            ;
        }
        let product = rent * num;
        let ceiling = (product + (den - 1)) / den;
        if ceiling > u32::MAX as u64 {
            u32::MAX
        } else {
            ceiling as u32
        }
    }
}

/// The number of references that report a filed eviction.
/// A count held in a `u32`, the largest value standing for any larger count.
pub open spec fn saturated_u32(n: nat) -> u32 {
    if n > u32::MAX {
        u32::MAX
    } else {
        n as u32
    }
}

pub open spec fn eviction_count(history: Seq<RentalReference>) -> nat {
    history.filter(|r: RentalReference| r.filed_eviction).len()
}

/// The fewest years since any of the records; zero for none.
pub open spec fn fewest_years(records: Seq<CriminalRecord>) -> u8
    decreases records.len(),
{
    if records.len() == 0 {
        0
    } else if records.len() == 1 {
        records[0].years_since
    } else {
        let rest = fewest_years(records.drop_last());
        if records.last().years_since < rest {
            records.last().years_since
        } else {
            rest
        }
    }
}

/// The first rule of the guard that a submission breaks, checked in a fixed order.
pub open spec fn first_violation(policy: CompliancePolicy, sub: ApplicationSubmission) -> Option<
    ComplianceViolation,
> {
    let cap = deposit_cap(sub.listing.listed_rent, policy.multiplier());
    if sub.screening_answers.prohibited_preferences@.len() > 0 {
        Some(ComplianceViolation::ProhibitedPractice(sub.screening_answers.prohibited_preferences@[0]))
    } else if sub.income.verified_income_sources@.len() == 0 {
        Some(ComplianceViolation::MissingIncomeDocumentation)
    } else if sub.household.adults == 0 && sub.household.children == 0 {
        Some(ComplianceViolation::IncompleteHousehold)
    } else if sub.listing.deposit_required > cap {
        Some(ComplianceViolation::IowaSecurityDepositCap { max: cap, found: sub.listing.deposit_required })
    } else if sub.income.gross_monthly_income == 0 {
        Some(ComplianceViolation::MissingIncomeDocumentation)
    } else {
        None
    }
}

/// A submission without verified income sources is refused for missing income
/// documentation, whatever else it holds, once no prohibited practice was recorded
/// (that check comes first).
pub proof fn empty_income_sources_rejected(policy: CompliancePolicy, sub: ApplicationSubmission)
    requires
        sub.screening_answers.prohibited_preferences@.len() == 0,
        sub.income.verified_income_sources@.len() == 0,
    ensures
        first_violation(policy, sub) == Some(ComplianceViolation::MissingIncomeDocumentation),
{
}

/// A deposit above `ceil(rent × multiplier)` is refused with that cap and the deposit,
/// once the three earlier checks pass.
pub proof fn excess_deposit_rejected(policy: CompliancePolicy, sub: ApplicationSubmission)
    requires
        policy.wf(),
        sub.screening_answers.prohibited_preferences@.len() == 0,
        sub.income.verified_income_sources@.len() > 0,
        sub.household.adults > 0 || sub.household.children > 0,
        sub.listing.deposit_required > ceil_of_product(sub.listing.listed_rent, policy.multiplier()),
    ensures
        first_violation(policy, sub) == Some(
            ComplianceViolation::IowaSecurityDepositCap {
                max: ceil_of_product(sub.listing.listed_rent, policy.multiplier()) as u32,
                found: sub.listing.deposit_required,
            },
        ),
{
    let m = policy.multiplier();
    let rent = sub.listing.listed_rent;
    if rent == 0 {
        assert(ceil_of_product(rent, m) == 0) by (nonlinear_arith)
            requires
                rent == 0,
                m.denominator > 0,
                ceil_of_product(rent, m) == (rent * m.numerator + m.denominator - 1) / (
                m.denominator as int),
        ;
    }
}

/// The lawful factor values that the guard derives from a submission.
pub open spec fn expected_factor(sub: ApplicationSubmission, kind: LawfulFactorKind) -> Option<
    LawfulFactorValue,
> {
    match kind {
        LawfulFactorKind::RentToIncome => Some(
            LawfulFactorValue::Decimal(
                Ratio {
                    numerator: sub.listing.listed_rent,
                    denominator: sub.income.gross_monthly_income,
                },
            ),
        ),
        LawfulFactorKind::CreditScore => match sub.credit_score {
            Some(s) => Some(LawfulFactorValue::Count(s as u32)),
            None => None,
        },
        LawfulFactorKind::RentalHistory => Some(
            LawfulFactorValue::Count(saturated_u32(eviction_count(sub.rental_history@))),
        ),
        LawfulFactorKind::CriminalHistoryWindow => if sub.criminal_history@.len() > 0 {
            Some(
                LawfulFactorValue::Decimal(
                    Ratio { numerator: fewest_years(sub.criminal_history@) as u32, denominator: 1 },
                ),
            )
        } else {
            None
        },
        LawfulFactorKind::VoucherCoverage => Some(
            LawfulFactorValue::Decimal(
                match sub.income.housing_voucher_amount {
                    Some(a) => Ratio { numerator: a, denominator: sub.listing.listed_rent },
                    None => Ratio { numerator: 0, denominator: 1 },
                },
            ),
        ),
        LawfulFactorKind::IowaSecurityDepositCompliance => Some(LawfulFactorValue::Boolean(true)),
    }
}

/// `p` is the profile that the guard makes of `sub`, with a placeholder identifier.
pub open spec fn profile_of(p: ApplicantProfile, sub: ApplicationSubmission) -> bool {
    &&& p.application_id.0@ == seq!['p', 'e', 'n', 'd', 'i', 'n', 'g']
    &&& forall|k: LawfulFactorKind| p.lawful_factors.spec_get(k) == expected_factor(sub, k)
    &&& p.household == sub.household
    &&& p.listing == sub.listing
    &&& p.declared_income == sub.income
    &&& p.rental_history == sub.rental_history
    &&& p.credit_score == sub.credit_score
    &&& p.criminal_history == sub.criminal_history
    &&& p.accommodations == sub.screening_answers.requested_accessibility_accommodations
}

/// Turns submissions into lawful-factor profiles.
#[derive(Debug, Clone, Copy)]
pub struct ComplianceGuard {
    policy: CompliancePolicy,
}

impl ComplianceGuard {
    pub closed spec fn spec_policy(&self) -> CompliancePolicy {
        self.policy
    }

    pub open spec fn wf(&self) -> bool {
        self.spec_policy().wf()
    }

    pub fn with_policy(policy: CompliancePolicy) -> (r: Self)
        ensures
            r.spec_policy() == policy,
    {
        ComplianceGuard { policy }
    }

    pub fn new() -> (r: Self)
        ensures
            r.spec_policy().multiplier() == (Ratio { numerator: 2, denominator: 1 }),
            r.wf(),
    {
        Self::with_policy(CompliancePolicy::default())
    }

    /// The guard with the default policy.
    pub fn default() -> (r: Self)
        ensures
            r.spec_policy().multiplier() == (Ratio { numerator: 2, denominator: 1 }),
            r.wf(),
    {
        Self::new()
    }

    pub closed spec fn spec_from_config(config: EvaluationConfig) -> Self {
        ComplianceGuard {
            policy: CompliancePolicy {
                deposit_cap_multiplier: sanitized_multiplier(config.deposit_cap_multiplier),
            },
        }
    }

    pub fn from_config(config: &EvaluationConfig) -> (r: Self)
        ensures
            r == Self::spec_from_config(*config),
            r.spec_policy().multiplier() == sanitized_multiplier(config.deposit_cap_multiplier),
            r.wf(),
    {
        Self::with_policy(CompliancePolicy::from_config(config))
    }

    pub fn policy(&self) -> (r: &CompliancePolicy)
        ensures
            *r == self.spec_policy(),
    {
        &self.policy
    }

    /// Checks a submission against the rules in a fixed order, the first failure
    /// winning, and on success keeps only the lawful factors of it.
    pub fn profile_from_submission(&self, submission: ApplicationSubmission) -> (r: Result<
        ApplicantProfile,
        ComplianceViolation,
    >)
        requires
            self.wf(),
        ensures
            match first_violation(self.spec_policy(), submission) {
                Some(v) => r == Err::<ApplicantProfile, ComplianceViolation>(v),
                None => r matches Ok(p) && profile_of(p, submission),
            },
    {
        let ghost sub = submission;
        let ApplicationSubmission {
            listing,
            household,
            screening_answers,
            income,
            rental_history,
            credit_score,
            criminal_history,
            supporting_documents: _,
        } = submission;
        let ScreeningAnswers {
            requested_accessibility_accommodations,
            mut prohibited_preferences,
            ..
        } = screening_answers;
        if prohibited_preferences.len() > 0 {
            return Err(ComplianceViolation::ProhibitedPractice(prohibited_preferences.remove(0)));
        }
        if income.verified_income_sources.len() == 0 {
            return Err(ComplianceViolation::MissingIncomeDocumentation);
        }
        if household.adults == 0 && household.children == 0 {
            return Err(ComplianceViolation::IncompleteHousehold);
        }
        let deposit_cap = self.policy.max_deposit_for(listing.listed_rent);
        if listing.deposit_required > deposit_cap {
            return Err(
                ComplianceViolation::IowaSecurityDepositCap {
                    max: deposit_cap,
                    found: listing.deposit_required,
                },
            );
        }
        if income.gross_monthly_income == 0 {
            return Err(ComplianceViolation::MissingIncomeDocumentation);
        }
        let mut lawful_factors = LawfulFactors::new();
        lawful_factors.insert(
            LawfulFactorKind::RentToIncome,
            LawfulFactorValue::Decimal(Ratio::new(listing.listed_rent, income.gross_monthly_income)),
        );
        if let Some(score) = credit_score {
            lawful_factors.insert(LawfulFactorKind::CreditScore, LawfulFactorValue::Count(score as u32));
        }
        let evictions = count_evictions(&rental_history);
        lawful_factors.insert(LawfulFactorKind::RentalHistory, LawfulFactorValue::Count(evictions));
        if criminal_history.len() > 0 {
            let window = fewest_years_since(&criminal_history);
            lawful_factors.insert(
                LawfulFactorKind::CriminalHistoryWindow,
                LawfulFactorValue::Decimal(Ratio::new(window as u32, 1)),
            );
        }
        let coverage = match income.housing_voucher_amount {
            Some(amount) => Ratio::new(amount, listing.listed_rent),
            None => Ratio::new(0, 1),
        };
        lawful_factors.insert(LawfulFactorKind::VoucherCoverage, LawfulFactorValue::Decimal(coverage));
        lawful_factors.insert(
            LawfulFactorKind::IowaSecurityDepositCompliance,
            LawfulFactorValue::Boolean(true),
        );
        let profile = ApplicantProfile {
            application_id: ApplicationId(String::from_str("pending")),
            lawful_factors,
            household,
            listing,
            declared_income: income,
            rental_history,
            credit_score,
            criminal_history,
            accommodations: requested_accessibility_accommodations,
        };
        proof {
            reveal_strlit("pending");
            assert(profile.application_id.0@ =~= seq!['p', 'e', 'n', 'd', 'i', 'n', 'g']);
            assert forall|k: LawfulFactorKind| profile.lawful_factors.spec_get(k) == expected_factor(
                sub,
                k,
            ) by {}
        }
        Ok(profile)
    }
}

/// The number of references with a filed eviction, saturating at `u32::MAX`.
pub fn count_evictions(history: &Vec<RentalReference>) -> (r: u32)
    ensures
        r == saturated_u32(eviction_count(history@)),
{
    let mut count: usize = 0;
    let mut i: usize = 0;
    while i < history.len()
        invariant
            i <= history@.len(),
            count == history@.subrange(0, i as int).filter(|r: RentalReference| r.filed_eviction).len(),
            count <= i,
        decreases history.len() - i,
    {
        proof {
            reveal(Seq::filter);
            assert(history@.subrange(0, i + 1).drop_last() =~= history@.subrange(0, i as int));
        }
        if history[i].filed_eviction {
            count += 1;
        }
        i += 1;
    }
    assert(history@.subrange(0, i as int) =~= history@);
    if count > u32::MAX as usize {
        u32::MAX
    } else {
        count as u32
    }
}

/// The fewest years since any record of a non-empty history.
pub fn fewest_years_since(records: &Vec<CriminalRecord>) -> (r: u8)
    requires
        records@.len() > 0,
    ensures
        r == fewest_years(records@),
        exists|i: int| 0 <= i < records@.len() && records@[i].years_since == r,
        forall|i: int| 0 <= i < records@.len() ==> r <= records@[i].years_since,
{
    let mut best = records[0].years_since;
    let mut i: usize = 1;
    proof {
        assert(records@.subrange(0, 1).drop_last().len() == 0);
    }
    while i < records.len()
        invariant
            1 <= i <= records@.len(),
            best == fewest_years(records@.subrange(0, i as int)),
            exists|j: int| 0 <= j < i && records@[j].years_since == best,
            forall|j: int| 0 <= j < i ==> best <= records@[j].years_since,
        decreases records.len() - i,
    {
        proof {
            assert(records@.subrange(0, i + 1).drop_last() =~= records@.subrange(0, i as int));
        }
        if records[i].years_since < best {
            best = records[i].years_since;
        }
        i += 1;
    }
    assert(records@.subrange(0, i as int) =~= records@);
    best
}

} // verus!
