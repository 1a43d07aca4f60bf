use crate::applications::{
    ApplicantProfile, ApplicationId, CriminalClassification, CriminalRecord, LawfulFactorKind,
    LawfulFactorValue,
};
use crate::compliance::{count_evictions, eviction_count};
use crate::ratio::{fixed2_text, percent_text, push_fixed2, push_percent, Ratio};
use crate::text::{decimal_text, push_decimal};
use vstd::prelude::*;

verus! {

/// The scoring rubric and decision thresholds.
#[derive(Debug, Clone, Copy, PartialEq, Eq)]
pub struct EvaluationConfig {
    /// Largest rent-to-income quotient that still counts as affordable.
    pub minimum_rent_to_income_ratio: Ratio,
    pub minimum_credit_score: Option<u16>,
    pub max_evictions: u8,
    pub violent_felony_lookback_years: u8,
    pub non_violent_lookback_years: u8,
    pub misdemeanor_lookback_years: u8,
    pub deposit_cap_multiplier: Ratio,
}

/// One line of the audit trail: a factor and what it added to the total.
#[derive(Debug, Clone, PartialEq, Eq)]
pub struct ScoreComponent {
    pub factor: LawfulFactorKind,
    pub score: i16,
    pub notes: String,
}

#[derive(Debug, Clone, PartialEq, Eq)]
pub struct EvaluationOutcome {
    pub application_id: ApplicationId,
    pub decision: ApplicationDecision,
    pub total_score: i16,
    pub components: Vec<ScoreComponent>,
}

#[derive(Debug, Clone, PartialEq, Eq)]
pub enum ApplicationDecision {
    Approved,
    ConditionalApproval { required_actions: Vec<String> },
    Denied(DenialReason),
    ManualReview { reasons: Vec<String> },
}

#[derive(Debug, Clone, PartialEq, Eq)]
pub enum DenialReason {
    InsufficientIncome { required_ratio: Ratio, actual_ratio: Ratio },
    AdverseCreditHistory,
    ExcessiveEvictions(u8),
    CriminalDisqualifier { classification: CriminalClassification, years_since: u8 },
    IncompleteDocumentation,
}

/// The rent-to-income quotient that scoring uses: the profile's factor where it is a
/// decimal, else rent over income.
pub open spec fn rent_ratio_of(p: ApplicantProfile) -> Ratio {
    match p.lawful_factors.spec_get(LawfulFactorKind::RentToIncome) {
        Some(LawfulFactorValue::Decimal(r)) => r,
        _ => Ratio {
            numerator: p.listing.listed_rent,
            denominator: p.declared_income.gross_monthly_income,
        },
    }
}

/// A count held in a `u8`: 255 stands for 255 or more.
pub open spec fn saturated_u8(n: nat) -> u8 {
    if n > 255 {
        255
    } else {
        n as u8
    }
}

fn saturate_u8(n: u32) -> (r: u8)
    ensures
        r == saturated_u8(n as nat),
{
    if n > 255 {
        255
    } else {
        n as u8
    }
}

/// The eviction count that scoring uses: the profile's factor where it is a count,
/// else the references with a filed eviction; counts above 255 are held as 255, which
/// exceeds any allowance a `u8` can set.
pub open spec fn evictions_of(p: ApplicantProfile) -> u8 {
    match p.lawful_factors.spec_get(LawfulFactorKind::RentalHistory) {
        Some(LawfulFactorValue::Count(c)) => saturated_u8(c as nat),
        _ => saturated_u8(eviction_count(p.rental_history@)),
    }
}

/// Factor, points and note of each component, in audit order.
pub open spec fn expected_components(p: ApplicantProfile, c: EvaluationConfig) -> Seq<
    (LawfulFactorKind, i16, Seq<char>),
> {
    let ratio = rent_ratio_of(p);
    let t = c.minimum_rent_to_income_ratio;
    let rent = if ratio.spec_at_most(t) {
        (
            LawfulFactorKind::RentToIncome,
            30i16,
            "rent-to-income ratio "@ + fixed2_text(ratio) + " within policy threshold "@
                + fixed2_text(t),
        )
    } else {
        (
            LawfulFactorKind::RentToIncome,
            -40i16,
            "ratio "@ + fixed2_text(ratio) + " exceeds required "@ + fixed2_text(t),
        )
    };
    let credit = match c.minimum_credit_score {
        None => seq![],
        Some(min) => match p.credit_score {
            Some(s) => if s >= min {
                seq![
                    (
                        LawfulFactorKind::CreditScore,
                        20i16,
                        "credit score "@ + decimal_text(s as nat) + " meets minimum "@
                            + decimal_text(min as nat),
                    ),
                ]
            } else {
                seq![
                    (
                        LawfulFactorKind::CreditScore,
                        -25i16,
                        "credit score "@ + decimal_text(s as nat) + " below minimum "@
                            + decimal_text(min as nat),
                    ),
                ]
            },
            None => seq![(LawfulFactorKind::CreditScore, -10i16, "missing credit history"@)],
        },
    };
    let n = evictions_of(p);
    let evictions = if n == 0 {
        (LawfulFactorKind::RentalHistory, 10i16, "no prior evictions"@)
    } else if n <= c.max_evictions {
        (
            LawfulFactorKind::RentalHistory,
            -10i16,
            decimal_text(n as nat) + " eviction(s) within policy"@,
        )
    } else {
        (
            LawfulFactorKind::RentalHistory,
            -25i16,
            decimal_text(n as nat) + " eviction(s) exceeds allowance"@,
        )
    };
    let voucher = match p.lawful_factors.spec_get(LawfulFactorKind::VoucherCoverage) {
        Some(LawfulFactorValue::Decimal(v)) => if v.numerator > 0 {
            seq![
                (
                    LawfulFactorKind::VoucherCoverage,
                    5i16,
                    "voucher covers "@ + percent_text(v) + "% of rent"@,
                ),
            ]
        } else {
            seq![]
        },
        _ => seq![],
    };
    let deposit = match p.lawful_factors.spec_get(LawfulFactorKind::IowaSecurityDepositCompliance) {
        Some(LawfulFactorValue::Boolean(true)) => seq![
            (
                LawfulFactorKind::IowaSecurityDepositCompliance,
                5i16,
                "security deposit within Iowa cap"@,
            ),
        ],
        _ => seq![],
    };
    seq![rent] + credit + seq![evictions] + voucher + deposit
}

/// The signed sum of the points of some components.
pub open spec fn points_sum(cs: Seq<(LawfulFactorKind, i16, Seq<char>)>) -> int
    decreases cs.len(),
{
    if cs.len() == 0 {
        0
    } else {
        points_sum(cs.drop_last()) + cs.last().1
    }
}

proof fn lemma_points_push(s: Seq<(LawfulFactorKind, i16, Seq<char>)>, x: (LawfulFactorKind, i16, Seq<char>))
    ensures
        points_sum(s.push(x)) == points_sum(s) + x.1,
{
    assert(s.push(x).drop_last() =~= s);
}

/// The component as factor, points and note.
pub open spec fn component_parts(c: ScoreComponent) -> (LawfulFactorKind, i16, Seq<char>) {
    (c.factor, c.score, c.notes@)
}

/// A violent felony within `lookback` years.
pub open spec fn is_recent_violent(r: CriminalRecord, lookback: u8) -> bool {
    r.classification == CriminalClassification::ViolentFelony && r.years_since <= lookback
}

/// Index of the first recent violent felony of a history.
pub open spec fn first_recent_violent(h: Seq<CriminalRecord>, lookback: u8) -> Option<int>
    decreases h.len(),
{
    if h.len() == 0 {
        None
    } else {
        match first_recent_violent(h.drop_last(), lookback) {
            Some(i) => Some(i),
            None => if is_recent_violent(h.last(), lookback) {
                Some(h.len() - 1)
            } else {
                None
            },
        }
    }
}

proof fn lemma_first_recent_violent(h: Seq<CriminalRecord>, lookback: u8)
    ensures
        first_recent_violent(h, lookback) matches Some(i) ==> 0 <= i < h.len() && is_recent_violent(
            h[i],
            lookback,
        ) && forall|j: int| 0 <= j < i ==> !is_recent_violent(h[j], lookback),
        first_recent_violent(h, lookback) is None ==> forall|j: int|
            0 <= j < h.len() ==> !is_recent_violent(h[j], lookback),
    decreases h.len(),
{
    if h.len() > 0 {
        lemma_first_recent_violent(h.drop_last(), lookback);
        assert forall|j: int| 0 <= j < h.len() - 1 implies h.drop_last()[j] == h[j] by {}
    }
}

/// The decision, by ordered precedence: a recent violent felony goes to manual review;
/// then an unaffordable rent, a missing or low credit score, too many evictions are
/// denied; a deposit marked non-compliant gets a conditional approval; all else is
/// approved. The total score plays no part.
pub open spec fn decision_for(d: ApplicationDecision, p: ApplicantProfile, c: EvaluationConfig) -> bool {
    let ratio = rent_ratio_of(p);
    match first_recent_violent(p.criminal_history@, c.violent_felony_lookback_years) {
        Some(i) => d matches ApplicationDecision::ManualReview { reasons } && reasons@.len() == 1
            && reasons@[0]@ == "Recent violent felony within "@ + decimal_text(
            c.violent_felony_lookback_years as nat,
        ) + " years: "@ + p.criminal_history@[i].description@,
        None => if ratio.spec_exceeds(c.minimum_rent_to_income_ratio) {
            d == ApplicationDecision::Denied(
                DenialReason::InsufficientIncome {
                    required_ratio: c.minimum_rent_to_income_ratio,
                    actual_ratio: ratio,
                },
            )
        } else if c.minimum_credit_score matches Some(m) && (p.credit_score is None
            || p.credit_score.unwrap() < m) {
            d == ApplicationDecision::Denied(DenialReason::AdverseCreditHistory)
        } else if evictions_of(p) > c.max_evictions {
            d == ApplicationDecision::Denied(DenialReason::ExcessiveEvictions(evictions_of(p)))
        } else if p.lawful_factors.spec_get(LawfulFactorKind::IowaSecurityDepositCompliance)
            == Some(LawfulFactorValue::Boolean(false)) {
            d matches ApplicationDecision::ConditionalApproval { required_actions }
                && required_actions@.len() == 1 && required_actions@[0]@
                == "Adjust deposit to Iowa cap"@
        } else {
            d == ApplicationDecision::Approved
        },
    }
}

/// The items joined, with `sep` between two neighbours.
pub open spec fn joined(items: Seq<String>, sep: Seq<char>) -> Seq<char>
    decreases items.len(),
{
    if items.len() == 0 {
        seq![]
    } else if items.len() == 1 {
        items[0]@
    } else {
        joined(items.drop_last(), sep) + sep + items.last()@
    }
}

/// Appends the items joined by `sep`.
pub fn push_joined(s: &mut String, items: &Vec<String>, sep: &str)
    ensures
        final(s)@ == old(s)@ + joined(items@, sep@),
{
    let mut i: usize = 0;
    while i < items.len()
        invariant
            i <= items@.len(),
            s@ == old(s)@ + joined(items@.subrange(0, i as int), sep@),
        decreases items.len() - i,
    {
        proof {
            assert(items@.subrange(0, i + 1).drop_last() =~= items@.subrange(0, i as int));
        }
        if i > 0 {
            s.append(sep);
        }
        s.append(items[i].as_str());
        i += 1;
        proof {
            if i == 1 {
                assert(joined(items@.subrange(0, 0), sep@) =~= seq![]);
            }
            assert(s@ =~= old(s)@ + joined(items@.subrange(0, i as int), sep@));
        }
    }
    assert(items@.subrange(0, i as int) =~= items@);
}

pub open spec fn classification_text(c: CriminalClassification) -> Seq<char> {
    match c {
        CriminalClassification::ViolentFelony => "ViolentFelony"@,
        CriminalClassification::NonViolentFelony => "NonViolentFelony"@,
        CriminalClassification::Misdemeanor => "Misdemeanor"@,
    }
}

impl DenialReason {
    pub open spec fn summary_text(&self) -> Seq<char> {
        match self {
            DenialReason::InsufficientIncome { required_ratio, actual_ratio } => "denied for insufficient income (required "@
                + fixed2_text(*required_ratio) + ", actual "@ + fixed2_text(*actual_ratio) + ")"@,
            DenialReason::AdverseCreditHistory => "denied for adverse credit history"@,
            DenialReason::ExcessiveEvictions(n) => "denied for "@ + decimal_text(*n as nat)
                + " eviction(s)"@,
            DenialReason::CriminalDisqualifier { classification, years_since } => "denied for "@
                + classification_text(*classification) + " "@ + decimal_text(*years_since as nat)
                + " years ago"@,
            DenialReason::IncompleteDocumentation => "denied for incomplete documentation"@,
        }
    }

    /// A sentence that states the reason.
    pub fn summary(&self) -> (r: String)
        ensures
            r@ == self.summary_text(),
    {
        match self {
            DenialReason::InsufficientIncome { required_ratio, actual_ratio } => {
                let mut s = text("denied for insufficient income (required ");
                push_fixed2(&mut s, *required_ratio);
                s.append(", actual ");
                push_fixed2(&mut s, *actual_ratio);
                s.append(")");
                s
            },
            DenialReason::AdverseCreditHistory => text("denied for adverse credit history"),
            DenialReason::ExcessiveEvictions(n) => {
                let mut s = text("denied for ");
                push_decimal(&mut s, *n as u64);
                s.append(" eviction(s)");
                s
            },
            DenialReason::CriminalDisqualifier { classification, years_since } => {
                let mut s = text("denied for ");
                s.append(
                    match classification {
                        CriminalClassification::ViolentFelony => "ViolentFelony",
                        CriminalClassification::NonViolentFelony => "NonViolentFelony",
                        CriminalClassification::Misdemeanor => "Misdemeanor",
                    },
                );
                s.append(" ");
                push_decimal(&mut s, *years_since as u64);
                s.append(" years ago");
                s
            },
            DenialReason::IncompleteDocumentation => text("denied for incomplete documentation"),
        }
    }
}

impl ApplicationDecision {
    pub open spec fn summary_text(&self) -> Seq<char> {
        match self {
            ApplicationDecision::Approved => "application approved"@,
            ApplicationDecision::ConditionalApproval { required_actions } => if required_actions@.len()
                == 0 {
                "conditional approval"@
            } else {
                "conditional approval: "@ + joined(required_actions@, ", "@)
            },
            ApplicationDecision::Denied(reason) => reason.summary_text(),
            ApplicationDecision::ManualReview { reasons } => if reasons@.len() == 0 {
                "requires manual review"@
            } else {
                "manual review required: "@ + joined(reasons@, "; "@)
            },
        }
    }

    /// A sentence that states the decision.
    pub fn summary(&self) -> (r: String)
        ensures
            r@ == self.summary_text(),
    {
        match self {
            ApplicationDecision::Approved => text("application approved"),
            ApplicationDecision::ConditionalApproval { required_actions } => {
                if required_actions.len() == 0 {
                    text("conditional approval")
                } else {
                    let mut s = text("conditional approval: ");
                    push_joined(&mut s, required_actions, ", ");
                    s
                }
            },
            ApplicationDecision::Denied(reason) => reason.summary(),
            ApplicationDecision::ManualReview { reasons } => {
                if reasons.len() == 0 {
                    text("requires manual review")
                } else {
                    let mut s = text("manual review required: ");
                    push_joined(&mut s, reasons, "; ");
                    s
                }
            },
        }
    }
}

fn copy_strings(v: &Vec<String>) -> (r: Vec<String>)
    ensures
        r@ == v@,
{
    let mut r: Vec<String> = Vec::new();
    let mut i: usize = 0;
    while i < v.len()
        invariant
            i <= v@.len(),
            r@ == v@.subrange(0, i as int),
        decreases v.len() - i,
    {
        r.push(v[i].clone());
        i += 1;
        assert(r@ =~= v@.subrange(0, i as int));
    }
    assert(v@.subrange(0, i as int) =~= v@);
    r
}

impl DenialReason {
    pub fn duplicate(&self) -> (r: DenialReason)
        ensures
            r == *self,
    {
        match self {
            DenialReason::InsufficientIncome { required_ratio, actual_ratio } => {
                DenialReason::InsufficientIncome {
                    required_ratio: *required_ratio,
                    actual_ratio: *actual_ratio,
                }
            },
            DenialReason::AdverseCreditHistory => DenialReason::AdverseCreditHistory,
            DenialReason::ExcessiveEvictions(n) => DenialReason::ExcessiveEvictions(*n),
            DenialReason::CriminalDisqualifier { classification, years_since } => {
                DenialReason::CriminalDisqualifier {
                    classification: *classification,
                    years_since: *years_since,
                }
            },
            DenialReason::IncompleteDocumentation => DenialReason::IncompleteDocumentation,
        }
    }
}

impl ApplicationDecision {
    /// The same decision, lists compared by their contents.
    pub open spec fn agrees_with(&self, o: ApplicationDecision) -> bool {
        match (*self, o) {
            (ApplicationDecision::Approved, ApplicationDecision::Approved) => true,
            (
                ApplicationDecision::ConditionalApproval { required_actions: a },
                ApplicationDecision::ConditionalApproval { required_actions: b },
            ) => a@ == b@,
            (ApplicationDecision::Denied(x), ApplicationDecision::Denied(y)) => x == y,
            (
                ApplicationDecision::ManualReview { reasons: a },
                ApplicationDecision::ManualReview { reasons: b },
            ) => a@ == b@,
            _ => false,
        }
    }

    pub fn duplicate(&self) -> (r: ApplicationDecision)
        ensures
            r.agrees_with(*self),
    {
        match self {
            ApplicationDecision::Approved => ApplicationDecision::Approved,
            ApplicationDecision::ConditionalApproval { required_actions } => {
                ApplicationDecision::ConditionalApproval {
                    required_actions: copy_strings(required_actions),
                }
            },
            ApplicationDecision::Denied(reason) => ApplicationDecision::Denied(reason.duplicate()),
            ApplicationDecision::ManualReview { reasons } => {
                ApplicationDecision::ManualReview { reasons: copy_strings(reasons) }
            },
        }
    }
}

impl EvaluationOutcome {
    /// The same outcome, lists compared by their contents.
    pub open spec fn agrees_with(&self, o: EvaluationOutcome) -> bool {
        &&& self.application_id == o.application_id
        &&& self.decision.agrees_with(o.decision)
        &&& self.total_score == o.total_score
        &&& self.components@.map_values(|c: ScoreComponent| component_parts(c))
            == o.components@.map_values(|c: ScoreComponent| component_parts(c))
    }

    pub fn duplicate(&self) -> (r: EvaluationOutcome)
        ensures
            r.agrees_with(*self),
    {
        let mut components: Vec<ScoreComponent> = Vec::new();
        let mut i: usize = 0;
        while i < self.components.len()
            invariant
                i <= self.components@.len(),
                components@.len() == i,
                components@.map_values(|c: ScoreComponent| component_parts(c))
                    == self.components@.subrange(0, i as int).map_values(
                    |c: ScoreComponent| component_parts(c),
                ),
            decreases self.components.len() - i,
        {
            let c = &self.components[i];
            let ghost before = components@;
            let notes = c.notes.clone();
            assert(notes@ == c.notes@);
            components.push(component(c.factor, c.score, notes));
            assert(component_parts(components@[i as int]) == component_parts(self.components@[i as int]));
            assert forall|k: int| 0 <= k < i implies component_parts(#[trigger] components@[k])
                == component_parts(self.components@[k]) by {
                assert(components@[k] == before[k]);
                assert(before.map_values(|c: ScoreComponent| component_parts(c))[k]
                    == self.components@.subrange(0, i as int).map_values(|c: ScoreComponent| component_parts(c))[k]);
            }
            i += 1;
            assert(components@.map_values(|c: ScoreComponent| component_parts(c))
                =~= self.components@.subrange(0, i as int).map_values(
                |c: ScoreComponent| component_parts(c),
            ));
        }
        assert(self.components@.subrange(0, i as int) =~= self.components@);
        EvaluationOutcome {
            application_id: ApplicationId(self.application_id.0.clone()),
            decision: self.decision.duplicate(),
            total_score: self.total_score,
            components,
        }
    }
}

/// `o` is what scoring gives for profile `p` under rubric `c`.
pub open spec fn scored(o: EvaluationOutcome, p: ApplicantProfile, c: EvaluationConfig) -> bool {
    &&& o.application_id == p.application_id
    &&& o.components@.map_values(|x: ScoreComponent| component_parts(x)) == expected_components(p, c)
    &&& o.total_score == points_sum(expected_components(p, c))
    &&& decision_for(o.decision, p, c)
}

/// Scoring one profile twice under one rubric gives the same components, with the same
/// notes, in the same order, and the same total.
pub proof fn scoring_is_deterministic(
    p: ApplicantProfile,
    c: EvaluationConfig,
    first: EvaluationOutcome,
    second: EvaluationOutcome,
)
    requires
        scored(first, p, c),
        scored(second, p, c),
    ensures
        first.components@.map_values(|x: ScoreComponent| component_parts(x))
            == second.components@.map_values(|x: ScoreComponent| component_parts(x)),
        first.total_score == second.total_score,
        first.application_id == second.application_id,
{
}

/// A violent felony within the lookback window always sends a profile to manual
/// review, however strong the rest of it is.
pub proof fn recent_violent_felony_needs_review(
    p: ApplicantProfile,
    c: EvaluationConfig,
    d: ApplicationDecision,
    i: int,
)
    requires
        0 <= i < p.criminal_history@.len(),
        is_recent_violent(p.criminal_history@[i], c.violent_felony_lookback_years),
        decision_for(d, p, c),
    ensures
        d is ManualReview,
{
    lemma_first_recent_violent(p.criminal_history@, c.violent_felony_lookback_years);
}

/// Applies the rubric to profiles.
pub struct EvaluationEngine {
    config: EvaluationConfig,
}

fn component(factor: LawfulFactorKind, score: i16, notes: String) -> (r: ScoreComponent)
    ensures
        r.factor == factor,
        r.score == score,
        r.notes == notes,
{
    ScoreComponent { factor, score, notes }
}

fn text(s: &'static str) -> (r: String)
    ensures
        r@ == s@,
{
    String::from_str(s)
}

impl EvaluationEngine {
    pub closed spec fn spec_config(&self) -> EvaluationConfig {
        self.config
    }

    pub fn new(config: EvaluationConfig) -> (r: Self)
        ensures
            r.spec_config() == config,
    {
        EvaluationEngine { config }
    }

    /// Scores a profile and decides on it. The components and total follow the rubric
    /// in a fixed order; the decision follows the precedence of `decision_for`.
    pub fn score(&self, profile: &ApplicantProfile) -> (r: EvaluationOutcome)
        ensures
            scored(r, *profile, self.spec_config()),
    {
        let (components, total_score) = score_profile(profile, &self.config);
        let decision = decide_outcome(profile, &self.config);
        EvaluationOutcome {
            application_id: ApplicationId(profile.application_id.0.clone()),
            decision,
            total_score,
            components,
        }
    }
}

/// The rent-to-income quotient that scoring uses.
pub fn rent_ratio(profile: &ApplicantProfile) -> (r: Ratio)
    ensures
        r == rent_ratio_of(*profile),
{
    match profile.lawful_factors.get(&LawfulFactorKind::RentToIncome) {
        Some(LawfulFactorValue::Decimal(ratio)) => *ratio,
        _ => Ratio::new(profile.listing.listed_rent, profile.declared_income.gross_monthly_income),
    }
}

/// The eviction count that scoring uses.
pub fn evictions(profile: &ApplicantProfile) -> (r: u8)
    ensures
        r == evictions_of(*profile),
{
    match profile.lawful_factors.get(&LawfulFactorKind::RentalHistory) {
        Some(LawfulFactorValue::Count(count)) => saturate_u8(*count),
        _ => saturate_u8(count_evictions(&profile.rental_history)),
    }
}

/// The components of the rubric, in audit order, and their signed sum.
pub fn score_profile(profile: &ApplicantProfile, config: &EvaluationConfig) -> (r: (
    Vec<ScoreComponent>,
    i16,
))
    ensures
        r.0@.map_values(|c: ScoreComponent| component_parts(c)) == expected_components(
            *profile,
            *config,
        ),
        r.1 == points_sum(expected_components(*profile, *config)),
{
    let ghost expected = expected_components(*profile, *config);
    let mut components: Vec<ScoreComponent> = Vec::new();
    let mut total_score: i16 = 0;
    let ghost parts = Seq::<(LawfulFactorKind, i16, Seq<char>)>::empty();

    let ratio = rent_ratio(profile);
    let threshold = config.minimum_rent_to_income_ratio;
    if ratio.at_most(threshold) {
        let mut notes = text("rent-to-income ratio ");
        push_fixed2(&mut notes, ratio);
        notes.append(" within policy threshold ");
        push_fixed2(&mut notes, threshold);
        components.push(component(LawfulFactorKind::RentToIncome, 30, notes));
        total_score = total_score + 30;
    } else {
        let mut notes = text("ratio ");
        push_fixed2(&mut notes, ratio);
        notes.append(" exceeds required ");
        push_fixed2(&mut notes, threshold);
        components.push(component(LawfulFactorKind::RentToIncome, -40, notes));
        total_score = total_score - 40;
    }
    proof {
        lemma_points_push(parts, expected[0]);
        parts = parts.push(expected[0]);
        assert(components@.map_values(|c: ScoreComponent| component_parts(c)) =~= parts);
    }

    if let Some(min_credit) = config.minimum_credit_score {
        let (score, notes) = match profile.credit_score {
            Some(score) => if score >= min_credit {
                let mut notes = text("credit score ");
                push_decimal(&mut notes, score as u64);
                notes.append(" meets minimum ");
                push_decimal(&mut notes, min_credit as u64);
                (20i16, notes)
            } else {
                let mut notes = text("credit score ");
                push_decimal(&mut notes, score as u64);
                notes.append(" below minimum ");
                push_decimal(&mut notes, min_credit as u64);
                (-25i16, notes)
            },
            None => (-10i16, text("missing credit history")),
        };
        components.push(component(LawfulFactorKind::CreditScore, score, notes));
        total_score = total_score + score;
        proof {
            lemma_points_push(parts, expected[1]);
            parts = parts.push(expected[1]);
            assert(components@.map_values(|c: ScoreComponent| component_parts(c)) =~= parts);
        }
    }

    let eviction_count = evictions(profile);
    if eviction_count == 0 {
        components.push(component(LawfulFactorKind::RentalHistory, 10, text("no prior evictions")));
        total_score = total_score + 10;
    } else if eviction_count <= config.max_evictions {
        let mut notes = String::new();
        push_decimal(&mut notes, eviction_count as u64);
        notes.append(" eviction(s) within policy");
        components.push(component(LawfulFactorKind::RentalHistory, -10, notes));
        total_score = total_score - 10;
    } else {
        let mut notes = String::new();
        push_decimal(&mut notes, eviction_count as u64);
        notes.append(" eviction(s) exceeds allowance");
        components.push(component(LawfulFactorKind::RentalHistory, -25, notes));
        total_score = total_score - 25;
    }
    proof {
        lemma_points_push(parts, expected[parts.len() as int]);
        parts = parts.push(expected[parts.len() as int]);
        assert(components@.map_values(|c: ScoreComponent| component_parts(c)) =~= parts);
    }

    if let Some(LawfulFactorValue::Decimal(coverage)) = profile.lawful_factors.get(
        &LawfulFactorKind::VoucherCoverage,
    ) {
        if coverage.is_positive() {
            let mut notes = text("voucher covers ");
            push_percent(&mut notes, *coverage);
            notes.append("% of rent");
            components.push(component(LawfulFactorKind::VoucherCoverage, 5, notes));
            total_score = total_score + 5;
            proof {
                lemma_points_push(parts, expected[parts.len() as int]);
        parts = parts.push(expected[parts.len() as int]);
                assert(components@.map_values(|c: ScoreComponent| component_parts(c)) =~= parts);
            }
        }
    }

    if let Some(LawfulFactorValue::Boolean(true)) = profile.lawful_factors.get(
        &LawfulFactorKind::IowaSecurityDepositCompliance,
    ) {
        components.push(
            component(
                LawfulFactorKind::IowaSecurityDepositCompliance,
                5,
                text("security deposit within Iowa cap"),
            ),
        );
        total_score = total_score + 5;
        proof {
            lemma_points_push(parts, expected[parts.len() as int]);
        parts = parts.push(expected[parts.len() as int]);
            assert(components@.map_values(|c: ScoreComponent| component_parts(c)) =~= parts);
        }
    }
    proof {
        assert(parts =~= expected);
    }
    (components, total_score)
}

/// The decision for a profile, by ordered precedence.
pub fn decide_outcome(profile: &ApplicantProfile, config: &EvaluationConfig) -> (r:
    ApplicationDecision)
    ensures
        decision_for(r, *profile, *config),
{
    let lookback = config.violent_felony_lookback_years;
    let history = &profile.criminal_history;
    proof {
        lemma_first_recent_violent(history@, lookback);
    }
    let mut i: usize = 0;
    while i < history.len()
        invariant
            i <= history@.len(),
            history@ == profile.criminal_history@,
            lookback == config.violent_felony_lookback_years,
            forall|j: int| 0 <= j < i ==> !is_recent_violent(history@[j], lookback),
        decreases history.len() - i,
    {
        let record = &history[i];
        if record.classification == CriminalClassification::ViolentFelony && record.years_since
            <= lookback {
            assert(is_recent_violent(history@[i as int], lookback));
            assert(first_recent_violent(history@, lookback) == Some(i as int)) by {
                lemma_first_recent_violent(history@, lookback);
                match first_recent_violent(history@, lookback) {
                    Some(k) => {
                        if k < i {
                            assert(!is_recent_violent(history@[k], lookback));
                        }
                    },
                    None => {},
                }
            }
            let mut reason = text("Recent violent felony within ");
            push_decimal(&mut reason, lookback as u64);
            reason.append(" years: ");
            reason.append(record.description.as_str());
            assert(reason@ =~= "Recent violent felony within "@ + decimal_text(lookback as nat)
                + " years: "@ + history@[i as int].description@);
            let mut reasons: Vec<String> = Vec::new();
            reasons.push(reason);
            assert(reasons@.len() == 1 && reasons@[0]@ == "Recent violent felony within "@
                + decimal_text(config.violent_felony_lookback_years as nat) + " years: "@
                + profile.criminal_history@[i as int].description@);
            return ApplicationDecision::ManualReview { reasons };
        }
        i += 1;
    }
    let ratio = rent_ratio(profile);
    if ratio.exceeds(config.minimum_rent_to_income_ratio) {
        return ApplicationDecision::Denied(
            DenialReason::InsufficientIncome {
                required_ratio: config.minimum_rent_to_income_ratio,
                actual_ratio: ratio,
            },
        );
    }
    if let Some(min_credit) = config.minimum_credit_score {
        let low = match profile.credit_score {
            Some(score) => score < min_credit,
            None => true,
        };
        if low {
            return ApplicationDecision::Denied(DenialReason::AdverseCreditHistory);
        }
    }
    let eviction_count = evictions(profile);
    if eviction_count > config.max_evictions {
        return ApplicationDecision::Denied(DenialReason::ExcessiveEvictions(eviction_count));
    }
    if let Some(LawfulFactorValue::Boolean(false)) = profile.lawful_factors.get(
        &LawfulFactorKind::IowaSecurityDepositCompliance,
    ) {
        let mut required_actions: Vec<String> = Vec::new();
        required_actions.push(text("Adjust deposit to Iowa cap"));
        return ApplicationDecision::ConditionalApproval { required_actions };
    }
    ApplicationDecision::Approved
}

} // verus!
