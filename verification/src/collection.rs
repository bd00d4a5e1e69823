//! The reports of every week and age bracket, in the order of the weeks, and
//! the means of a ratio over the brackets.

use crate::cohort::{AgeGroup, YearWeek};
use crate::deaths::{Cases, CovidDeath, DeathsData, InfectionsData};
use crate::demographics::AgeDistribution;
use crate::report::{weekly_report, Metric, RiskRatio, WeeklyReport};
use crate::vaccination::{VaccinationData, VaccinationEcdcRow};
use vstd::prelude::*;

verus! {

/// The brackets of a list as they first occur in it.
pub open spec fn first_occurrences(groups: Seq<AgeGroup>) -> Seq<AgeGroup>
    decreases groups.len(),
{
    if groups.len() == 0 {
        Seq::empty()
    } else {
        let before = first_occurrences(groups.drop_last());
        if before.contains(groups.last()) {
            before
        } else {
            before.push(groups.last())
        }
    }
}

/// Whether no bracket has two reports.
pub open spec fn brackets_distinct(entries: Seq<(AgeGroup, WeeklyReport)>) -> bool {
    forall|i: int, j: int|
        0 <= i < j < entries.len() ==> (#[trigger] entries[i]).0 != (#[trigger] entries[j]).0
}

/// Whether `entries` holds, for each bracket of `groups` where it first
/// occurs, that bracket and its report for `week`, and nothing else.
pub open spec fn reports_week(
    entries: Seq<(AgeGroup, WeeklyReport)>,
    week: YearWeek,
    groups: Seq<AgeGroup>,
    ages: Seq<(usize, usize)>,
    vaccinations: Seq<VaccinationEcdcRow>,
    deaths: Seq<CovidDeath>,
    cases: Seq<Cases>,
) -> bool {
    &&& entries.len() == first_occurrences(groups).len()
    &&& forall|j: int|
        0 <= j < entries.len() ==> {
            &&& (#[trigger] entries[j]).0 == first_occurrences(groups)[j]
            &&& entries[j].1.is_for(
                week,
                first_occurrences(groups)[j],
                ages,
                vaccinations,
                deaths,
                cases,
            )
        }
}

/// The report of the first of `entries` that is for `age_group`.
pub open spec fn report_of(entries: Seq<(AgeGroup, WeeklyReport)>, age_group: AgeGroup) -> Option<
    WeeklyReport,
>
    decreases entries.len(),
{
    if entries.len() == 0 {
        None
    } else if entries.first().0 == age_group {
        Some(entries.first().1)
    } else {
        report_of(entries.drop_first(), age_group)
    }
}

/// No bracket occurs twice among the first occurrences of a list.
pub proof fn lemma_first_occurrences_distinct(groups: Seq<AgeGroup>)
    ensures
        forall|i: int, j: int|
            0 <= i < j < first_occurrences(groups).len() ==> first_occurrences(groups)[i]
                != first_occurrences(groups)[j],
    decreases groups.len(),
{
    if groups.len() > 0 {
        lemma_first_occurrences_distinct(groups.drop_last());
        let before = first_occurrences(groups.drop_last());
        let all = first_occurrences(groups);
        assert forall|i: int, j: int| 0 <= i < j < all.len() implies all[i] != all[j] by {
            if j < before.len() {
                assert(all[i] == before[i] && all[j] == before[j]);
            } else {
                assert(all[j] == groups.last());
                assert(all[i] == before[i]);
                assert(!before.contains(groups.last()));
            }
        }
    }
}

/// Whether `group` is the bracket of one of `entries`.
fn reported(entries: &Vec<(AgeGroup, WeeklyReport)>, group: AgeGroup) -> (found: bool)
    ensures
        found == exists|j: int| 0 <= j < entries@.len() && (#[trigger] entries@[j]).0 == group,
{
    let mut index: usize = 0;
    while index < entries.len()
        invariant
            index <= entries.len(),
            forall|j: int| 0 <= j < index ==> (#[trigger] entries@[j]).0 != group,
        decreases entries.len() - index,
    {
        if entries[index].0 == group {
            return true;
        }
        index += 1;
    }
    false
}

/// The reports of one week, one for each bracket of `age_groups`.
pub fn reports_of_week(
    week: YearWeek,
    age_groups: &Vec<AgeGroup>,
    ages: &AgeDistribution,
    vaccinations: &VaccinationData,
    deaths: &DeathsData,
    cases: &InfectionsData,
) -> (entries: Vec<(AgeGroup, WeeklyReport)>)
    ensures
        reports_week(entries@, week, age_groups@, ages@, vaccinations@, deaths@, cases@),
        brackets_distinct(entries@),
{
    let mut entries: Vec<(AgeGroup, WeeklyReport)> = Vec::new();
    let mut index: usize = 0;
    while index < age_groups.len()
        invariant
            index <= age_groups.len(),
            reports_week(
                entries@,
                week,
                age_groups@.take(index as int),
                ages@,
                vaccinations@,
                deaths@,
                cases@,
            ),
        decreases age_groups.len() - index,
    {
        let group = age_groups[index];
        proof {
            let next = age_groups@.take(index + 1);
            assert(next.drop_last() =~= age_groups@.take(index as int));
            assert(next.last() == group);
            let before = first_occurrences(next.drop_last());
            assert(before.contains(group) <==> exists|j: int|
                0 <= j < entries@.len() && (#[trigger] entries@[j]).0 == group) by {
                if before.contains(group) {
                    let j = choose|j: int| 0 <= j < before.len() && before[j] == group;
                    assert(entries@[j].0 == group);
                }
                if exists|j: int| 0 <= j < entries@.len() && (#[trigger] entries@[j]).0 == group {
                    let j = choose|j: int|
                        0 <= j < entries@.len() && (#[trigger] entries@[j]).0 == group;
                    assert(before[j] == group);
                }
            }
        }
        if !reported(&entries, group) {
            let report = weekly_report(week, group, ages, vaccinations, deaths, cases);
            entries.push((group, report));
        }
        index += 1;
    }
    proof {
        assert(age_groups@.take(index as int) =~= age_groups@);
        lemma_first_occurrences_distinct(age_groups@);
    }
    entries
}

/// The reports of one age bracket, one for each week of `weeks`.
pub fn reports_of_age_group(
    age_group: AgeGroup,
    weeks: &Vec<YearWeek>,
    ages: &AgeDistribution,
    vaccinations: &VaccinationData,
    deaths: &DeathsData,
    cases: &InfectionsData,
) -> (entries: Vec<(YearWeek, WeeklyReport)>)
    ensures
        entries@.len() == weeks@.len(),
        forall|i: int|
            0 <= i < entries@.len() ==> {
                &&& (#[trigger] entries@[i]).0 == weeks@[i]
                &&& entries@[i].1.is_for(
                    weeks@[i],
                    age_group,
                    ages@,
                    vaccinations@,
                    deaths@,
                    cases@,
                )
            },
{
    let mut entries: Vec<(YearWeek, WeeklyReport)> = Vec::new();
    let mut index: usize = 0;
    while index < weeks.len()
        invariant
            index <= weeks.len(),
            entries@.len() == index,
            forall|i: int|
                0 <= i < entries@.len() ==> {
                    &&& (#[trigger] entries@[i]).0 == weeks@[i]
                    &&& entries@[i].1.is_for(
                        weeks@[i],
                        age_group,
                        ages@,
                        vaccinations@,
                        deaths@,
                        cases@,
                    )
                },
        decreases weeks.len() - index,
    {
        let week = weeks[index];
        let report = weekly_report(week, age_group, ages, vaccinations, deaths, cases);
        entries.push((week, report));
        index += 1;
    }
    entries
}

/// The ratios named by `metric` of the reports in `entries` that are
/// numbers, in the order of the entries.
pub open spec fn finite_ratios(entries: Seq<(AgeGroup, WeeklyReport)>, metric: Metric) -> Seq<
    RiskRatio,
>
    decreases entries.len(),
{
    if entries.len() == 0 {
        Seq::empty()
    } else {
        let before = finite_ratios(entries.drop_last(), metric);
        let ratio = entries.last().1.spec_ratio(metric);
        if ratio.spec_is_finite() {
            before.push(ratio)
        } else {
            before
        }
    }
}

/// The mean of a ratio over the brackets of one week, as the terms to add up
/// and divide by their number: the ratios that are numbers. Where none is,
/// there is no mean.
pub open spec fn mean_terms(entries: Seq<(AgeGroup, WeeklyReport)>, metric: Metric) -> Option<
    Seq<RiskRatio>,
> {
    if finite_ratios(entries, metric).len() == 0 {
        None
    } else {
        Some(finite_ratios(entries, metric))
    }
}

/// The terms of the mean over the brackets of one week.
pub fn mean_of_week(entries: &Vec<(AgeGroup, WeeklyReport)>, metric: Metric) -> (mean: Option<
    Vec<RiskRatio>,
>)
    ensures
        mean is Some <==> mean_terms(entries@, metric) is Some,
        mean matches Some(terms) ==> Some(terms@) == mean_terms(entries@, metric),
{
    let mut terms: Vec<RiskRatio> = Vec::new();
    let mut index: usize = 0;
    while index < entries.len()
        invariant
            index <= entries.len(),
            terms@ == finite_ratios(entries@.take(index as int), metric),
        decreases entries.len() - index,
    {
        proof {
            assert(entries@.take(index + 1).drop_last() =~= entries@.take(index as int));
        }
        let ratio = entries[index].1.ratio(metric);
        if ratio.is_finite() {
            terms.push(ratio);
        }
        index += 1;
    }
    assert(entries@.take(index as int) =~= entries@);
    if terms.len() == 0 {
        None
    } else {
        Some(terms)
    }
}

/// A report whose ratio is no number adds no term to the mean: the terms over
/// a week are those over the week without that report.
pub proof fn lemma_non_finite_left_out(
    entries: Seq<(AgeGroup, WeeklyReport)>,
    position: int,
    metric: Metric,
)
    requires
        0 <= position < entries.len(),
        !entries[position].1.spec_ratio(metric).spec_is_finite(),
    ensures
        finite_ratios(entries, metric) == finite_ratios(entries.remove(position), metric),
    decreases entries.len(),
{
    if position == entries.len() - 1 {
        assert(entries.remove(position) =~= entries.drop_last());
    } else {
        assert(entries.remove(position).drop_last() =~= entries.drop_last().remove(position));
        assert(entries.remove(position).last() == entries.last());
        lemma_non_finite_left_out(entries.drop_last(), position, metric);
    }
}

/// Every term of a mean is a number.
pub proof fn lemma_terms_are_finite(entries: Seq<(AgeGroup, WeeklyReport)>, metric: Metric)
    ensures
        forall|i: int|
            0 <= i < finite_ratios(entries, metric).len() ==> (#[trigger] finite_ratios(
                entries,
                metric,
            )[i]).spec_is_finite(),
    decreases entries.len(),
{
    if entries.len() > 0 {
        lemma_terms_are_finite(entries.drop_last(), metric);
        let before = finite_ratios(entries.drop_last(), metric);
        let all = finite_ratios(entries, metric);
        assert forall|i: int| 0 <= i < all.len() implies (#[trigger] all[i]).spec_is_finite() by {
            if i < before.len() {
                assert(all[i] == before[i]);
            }
        }
    }
}

/// The reports of a run of weeks, each week with one report for each age
/// bracket.
pub struct WeeklyReports {
    weeks: Vec<(YearWeek, Vec<(AgeGroup, WeeklyReport)>)>,
}

impl View for WeeklyReports {
    type V = Seq<(YearWeek, Seq<(AgeGroup, WeeklyReport)>)>;

    closed spec fn view(&self) -> Seq<(YearWeek, Seq<(AgeGroup, WeeklyReport)>)> {
        Seq::new(self.weeks@.len(), |i: int| (self.weeks@[i].0, self.weeks@[i].1@))
    }
}

impl WeeklyReports {
    #[verifier::type_invariant]
    spec fn one_report_each(self) -> bool {
        forall|i: int| 0 <= i < self.weeks@.len() ==> brackets_distinct((#[trigger] self.weeks@[i]).1@)
    }

    /// The reports of the weeks in `weeks`, in that order, for the age
    /// brackets in `age_groups`. A bracket listed twice is reported once.
    pub fn build(
        weeks: &Vec<YearWeek>,
        age_groups: &Vec<AgeGroup>,
        ages: &AgeDistribution,
        vaccinations: &VaccinationData,
        deaths: &DeathsData,
        cases: &InfectionsData,
    ) -> (reports: WeeklyReports)
        ensures
            reports@.len() == weeks@.len(),
            forall|i: int|
                0 <= i < reports@.len() ==> {
                    &&& (#[trigger] reports@[i]).0 == weeks@[i]
                    &&& reports_week(
                        reports@[i].1,
                        weeks@[i],
                        age_groups@,
                        ages@,
                        vaccinations@,
                        deaths@,
                        cases@,
                    )
                },
    {
        let mut collected: Vec<(YearWeek, Vec<(AgeGroup, WeeklyReport)>)> = Vec::new();
        let mut index: usize = 0;
        while index < weeks.len()
            invariant
                index <= weeks.len(),
                collected@.len() == index,
                forall|i: int|
                    0 <= i < collected@.len() ==> {
                        &&& (#[trigger] collected@[i]).0 == weeks@[i]
                        &&& brackets_distinct(collected@[i].1@)
                        &&& reports_week(
                            collected@[i].1@,
                            weeks@[i],
                            age_groups@,
                            ages@,
                            vaccinations@,
                            deaths@,
                            cases@,
                        )
                    },
            decreases weeks.len() - index,
        {
            let week = weeks[index];
            let entries = reports_of_week(week, age_groups, ages, vaccinations, deaths, cases);
            collected.push((week, entries));
            index += 1;
        }
        WeeklyReports { weeks: collected }
    }

    /// How many weeks are reported.
    pub fn len(&self) -> (length: usize)
        ensures
            length == self@.len(),
    {
        self.weeks.len()
    }

    /// The week at `index`.
    pub fn week(&self, index: usize) -> (week: YearWeek)
        requires
            index < self@.len(),
        ensures
            week == self@[index as int].0,
    {
        self.weeks[index].0
    }

    /// The reports of the week at `index`: one for each bracket, none of
    /// which occurs twice.
    pub fn reports(&self, index: usize) -> (entries: &Vec<(AgeGroup, WeeklyReport)>)
        requires
            index < self@.len(),
        ensures
            entries@ == self@[index as int].1,
            brackets_distinct(entries@),
    {
        proof {
            use_type_invariant(self);
        }
        &self.weeks[index].1
    }

    /// The report of `age_group` in the week at `index`, if there is one.
    pub fn get(&self, index: usize, age_group: AgeGroup) -> (report: Option<WeeklyReport>)
        requires
            index < self@.len(),
        ensures
            report == report_of(self@[index as int].1, age_group),
    {
        let entries = &self.weeks[index].1;
        let mut position: usize = 0;
        assert(entries@.skip(0) =~= entries@);
        while position < entries.len()
            invariant
                position <= entries.len(),
                index < self@.len(),
                entries@ == self@[index as int].1,
                report_of(entries@.skip(position as int), age_group) == report_of(
                    entries@,
                    age_group,
                ),
            decreases entries.len() - position,
        {
            proof {
                assert(entries@.skip(position as int).drop_first() =~= entries@.skip(
                    position + 1,
                ));
            }
            if entries[position].0 == age_group {
                return Some(entries[position].1);
            }
            position += 1;
        }
        None
    }

    /// For each week, the mean over the age brackets of the ratio that
    /// `metric` names, as its terms; `None` marks a week without any.
    pub fn mean(&self, metric: Metric) -> (means: Vec<(YearWeek, Option<Vec<RiskRatio>>)>)
        ensures
            means@.len() == self@.len(),
            forall|i: int|
                0 <= i < means@.len() ==> {
                    &&& (#[trigger] means@[i]).0 == self@[i].0
                    &&& means@[i].1 is Some <==> mean_terms(self@[i].1, metric) is Some
                    &&& means@[i].1 matches Some(terms) ==> Some(terms@) == mean_terms(
                        self@[i].1,
                        metric,
                    )
                },
    {
        let mut means: Vec<(YearWeek, Option<Vec<RiskRatio>>)> = Vec::new();
        let mut index: usize = 0;
        while index < self.weeks.len()
            invariant
                index <= self.weeks.len(),
                means@.len() == index,
                forall|i: int|
                    0 <= i < means@.len() ==> {
                        &&& (#[trigger] means@[i]).0 == self@[i].0
                        &&& means@[i].1 is Some <==> mean_terms(self@[i].1, metric) is Some
                        &&& means@[i].1 matches Some(terms) ==> Some(terms@) == mean_terms(
                            self@[i].1,
                            metric,
                        )
                    },
            decreases self.weeks.len() - index,
        {
            let week = self.weeks[index].0;
            let mean = mean_of_week(&self.weeks[index].1, metric);
            means.push((week, mean));
            index += 1;
        }
        means
    }

    /// For each week, the mean over the age brackets of the death rate with
    /// two doses by that of the unvaccinated.
    pub fn mean_risk_ratio_of_two_doses(&self) -> (means: Vec<(YearWeek, Option<Vec<RiskRatio>>)>)
        ensures
            means@.len() == self@.len(),
            forall|i: int|
                0 <= i < means@.len() ==> {
                    &&& (#[trigger] means@[i]).0 == self@[i].0
                    &&& means@[i].1 is Some <==> mean_terms(
                        self@[i].1,
                        Metric::DeathsWithTwoDoses,
                    ) is Some
                    &&& means@[i].1 matches Some(terms) ==> Some(terms@) == mean_terms(
                        self@[i].1,
                        Metric::DeathsWithTwoDoses,
                    )
                },
    {
        self.mean(Metric::DeathsWithTwoDoses)
    }

    /// For each week, the mean over the age brackets of the death rate with
    /// three doses by that of the unvaccinated.
    pub fn mean_risk_ratio_of_three_doses(&self) -> (means: Vec<
        (YearWeek, Option<Vec<RiskRatio>>),
    >)
        ensures
            means@.len() == self@.len(),
            forall|i: int|
                0 <= i < means@.len() ==> {
                    &&& (#[trigger] means@[i]).0 == self@[i].0
                    &&& means@[i].1 is Some <==> mean_terms(
                        self@[i].1,
                        Metric::DeathsWithThreeDoses,
                    ) is Some
                    &&& means@[i].1 matches Some(terms) ==> Some(terms@) == mean_terms(
                        self@[i].1,
                        Metric::DeathsWithThreeDoses,
                    )
                },
    {
        self.mean(Metric::DeathsWithThreeDoses)
    }
}

} // verus!
