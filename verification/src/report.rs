//! The weekly report of one age bracket: people by vaccination status, the
//! events among them, and the rates and ratios that follow.
//!
//! A rate or a ratio is kept as the two whole numbers it is the quotient of;
//! nothing is rounded, and a quotient with a zero divisor stays what it is.

use crate::cohort::{AgeGroup, YearWeek};
use crate::deaths::{cases_counted, deaths_counted, Cases, CovidDeath, DeathsData, InfectionsData};
use crate::deaths::VaccinationStatus;
use crate::demographics::{people_of, AgeDistribution};
use crate::vaccination::{cumulative, VaccinatedPeople, VaccinationData, VaccinationEcdcRow};
use vstd::prelude::*;
use vstd::std_specs::ops::AddSpec;

verus! {

/// The quotient of two whole numbers, kept as its terms.
#[derive(Debug, PartialEq, Eq, Structural, Clone, Copy)]
pub struct Ratio {
    pub numerator: i128,
    pub denominator: i128,
}

impl Ratio {
    /// The quotient is a number: its divisor is not zero.
    pub open spec fn spec_is_finite(self) -> bool {
        self.denominator != 0
    }

    /// The quotient is the number zero.
    pub open spec fn spec_is_zero(self) -> bool {
        self.numerator == 0 && self.denominator != 0
    }

    /// The quotient is zero by zero, which is no number and no infinity.
    pub open spec fn spec_is_undefined(self) -> bool {
        self.numerator == 0 && self.denominator == 0
    }

    /// The quotient has a zero divisor and is not zero by zero: an infinity.
    pub open spec fn spec_is_infinite(self) -> bool {
        self.numerator != 0 && self.denominator == 0
    }

    /// Whether the quotient is a number.
    pub fn is_finite(&self) -> (finite: bool)
        ensures
            finite == self.spec_is_finite(),
    {
        self.denominator != 0
    }

    /// Whether the quotient is the number zero.
    pub fn is_zero(&self) -> (zero: bool)
        ensures
            zero == self.spec_is_zero(),
    {
        self.numerator == 0 && self.denominator != 0
    }

    /// Whether the quotient is zero by zero.
    pub fn is_undefined(&self) -> (undefined: bool)
        ensures
            undefined == self.spec_is_undefined(),
    {
        self.numerator == 0 && self.denominator == 0
    }
}

/// Whether `rate` is `events` per million of `people`: the quotient of a
/// million times the events by the people.
pub open spec fn is_per_million(rate: Ratio, events: int, people: int) -> bool {
    rate.numerator == events * 1_000_000 && rate.denominator == people
}

/// The events per million people, `nominator` being the events and
/// `denominator` the people.
pub fn per_million(nominator: usize, denominator: i128) -> (rate: Ratio)
    ensures
        is_per_million(rate, nominator as int, denominator as int),
{
    let events: i128 = nominator as i128;
    Ratio { numerator: events * 1_000_000, denominator }
}

/// One value for each of the three vaccination statuses that are compared.
#[derive(Debug, PartialEq, Eq, Clone, Copy)]
pub struct DeathRate<T> {
    pub unvaccinated: T,
    pub two_doses: T,
    pub three_doses: T,
}

impl<T: core::ops::Add<Output = T> + Copy> DeathRate<T> {
    /// The three values added up, the unvaccinated first.
    pub fn total(&self) -> (sum: T)
        requires
            T::obeys_add_spec(),
            self.unvaccinated.add_req(self.two_doses),
            self.unvaccinated.add_spec(self.two_doses).add_req(self.three_doses),
        ensures
            sum == self.unvaccinated.add_spec(self.two_doses).add_spec(self.three_doses),
    {
        self.unvaccinated + self.two_doses + self.three_doses
    }
}

/// The quotient of two rates: that of one vaccination status by that of the
/// unvaccinated.
#[derive(Debug, PartialEq, Eq, Structural, Clone, Copy)]
pub struct RiskRatio {
    pub rate: Ratio,
    pub baseline: Ratio,
}

impl RiskRatio {
    /// The ratio is a number. It is one where `rate` is a number and
    /// `baseline` neither zero nor zero by zero; a number by an infinity is
    /// zero.
    pub open spec fn spec_is_finite(self) -> bool {
        &&& self.rate.spec_is_finite()
        &&& !self.baseline.spec_is_zero()
        &&& !self.baseline.spec_is_undefined()
    }

    /// Whether the ratio is a number.
    pub fn is_finite(&self) -> (finite: bool)
        ensures
            finite == self.spec_is_finite(),
    {
        self.rate.is_finite() && !self.baseline.is_zero() && !self.baseline.is_undefined()
    }
}

/// What is known of one age bracket in one week.
#[derive(Debug, PartialEq, Eq, Clone, Copy)]
pub struct WeeklyReport {
    pub vaccinated_people: VaccinatedPeople,
    pub unvaccinated_people: i128,
    pub absolute_cases: DeathRate<usize>,
    pub absolute_deaths: DeathRate<usize>,
    pub deaths_per_million: DeathRate<Ratio>,
    pub cases_per_million: DeathRate<Ratio>,
}

/// The ratios of a report that are averaged over the age brackets.
#[derive(Debug, PartialEq, Eq, Structural, Clone, Copy)]
pub enum Metric {
    /// The death rate with two doses by that of the unvaccinated.
    DeathsWithTwoDoses,
    /// The death rate with three doses by that of the unvaccinated.
    DeathsWithThreeDoses,
    /// The rate of infections with two doses by that of the unvaccinated.
    CasesWithTwoDoses,
    /// The rate of infections with three doses by that of the unvaccinated.
    CasesWithThreeDoses,
}

impl WeeklyReport {
    /// The ratio that `metric` names: the rate of one vaccination status by
    /// the rate of the unvaccinated.
    pub open spec fn spec_ratio(self, metric: Metric) -> RiskRatio {
        match metric {
            Metric::DeathsWithTwoDoses => RiskRatio {
                rate: self.deaths_per_million.two_doses,
                baseline: self.deaths_per_million.unvaccinated,
            },
            Metric::DeathsWithThreeDoses => RiskRatio {
                rate: self.deaths_per_million.three_doses,
                baseline: self.deaths_per_million.unvaccinated,
            },
            Metric::CasesWithTwoDoses => RiskRatio {
                rate: self.cases_per_million.two_doses,
                baseline: self.cases_per_million.unvaccinated,
            },
            Metric::CasesWithThreeDoses => RiskRatio {
                rate: self.cases_per_million.three_doses,
                baseline: self.cases_per_million.unvaccinated,
            },
        }
    }

    /// The ratio that `metric` names.
    pub fn ratio(&self, metric: Metric) -> (ratio: RiskRatio)
        ensures
            ratio == self.spec_ratio(metric),
    {
        match metric {
            Metric::DeathsWithTwoDoses => self.risk_ratio_of_two_doses(),
            Metric::DeathsWithThreeDoses => self.risk_ratio_of_three_doses(),
            Metric::CasesWithTwoDoses => self.case_risk_ratio_of_two_doses(),
            Metric::CasesWithThreeDoses => self.case_risk_ratio_of_three_doses(),
        }
    }

    /// The death rate with two doses by that of the unvaccinated.
    pub fn risk_ratio_of_two_doses(&self) -> (ratio: RiskRatio)
        ensures
            ratio == self.spec_ratio(Metric::DeathsWithTwoDoses),
    {
        RiskRatio {
            rate: self.deaths_per_million.two_doses,
            baseline: self.deaths_per_million.unvaccinated,
        }
    }

    /// The death rate with three doses by that of the unvaccinated.
    pub fn risk_ratio_of_three_doses(&self) -> (ratio: RiskRatio)
        ensures
            ratio == self.spec_ratio(Metric::DeathsWithThreeDoses),
    {
        RiskRatio {
            rate: self.deaths_per_million.three_doses,
            baseline: self.deaths_per_million.unvaccinated,
        }
    }

    /// The rate of infections with two doses by that of the unvaccinated.
    pub fn case_risk_ratio_of_two_doses(&self) -> (ratio: RiskRatio)
        ensures
            ratio == self.spec_ratio(Metric::CasesWithTwoDoses),
    {
        RiskRatio {
            rate: self.cases_per_million.two_doses,
            baseline: self.cases_per_million.unvaccinated,
        }
    }

    /// The rate of infections with three doses by that of the unvaccinated.
    pub fn case_risk_ratio_of_three_doses(&self) -> (ratio: RiskRatio)
        ensures
            ratio == self.spec_ratio(Metric::CasesWithThreeDoses),
    {
        RiskRatio {
            rate: self.cases_per_million.three_doses,
            baseline: self.cases_per_million.unvaccinated,
        }
    }

    /// The deaths among the unvaccinated by the infections among them.
    pub fn cfr_unvaccinated(&self) -> (ratio: Ratio)
        ensures
            ratio.numerator == self.absolute_deaths.unvaccinated,
            ratio.denominator == self.absolute_cases.unvaccinated,
    {
        Ratio {
            numerator: self.absolute_deaths.unvaccinated as i128,
            denominator: self.absolute_cases.unvaccinated as i128,
        }
    }

    /// The deaths among people with two doses by the infections among them.
    pub fn cfr_two_doses(&self) -> (ratio: Ratio)
        ensures
            ratio.numerator == self.absolute_deaths.two_doses,
            ratio.denominator == self.absolute_cases.two_doses,
    {
        Ratio {
            numerator: self.absolute_deaths.two_doses as i128,
            denominator: self.absolute_cases.two_doses as i128,
        }
    }
}

impl WeeklyReport {
    /// Whether the report is that of `age_group` in `week`, drawn from the
    /// table of ages, the vaccination table and the two registers.
    ///
    /// The unvaccinated are the people of the bracket less those with at least
    /// one dose: fewer than none where the two sources disagree. People with
    /// exactly one dose are counted among the vaccinated and have no rate.
    pub open spec fn is_for(
        self,
        week: YearWeek,
        age_group: AgeGroup,
        ages: Seq<(usize, usize)>,
        vaccinations: Seq<VaccinationEcdcRow>,
        deaths: Seq<CovidDeath>,
        cases: Seq<Cases>,
    ) -> bool {
        &&& self.vaccinated_people@ == cumulative(
            vaccinations,
            (age_group.low, age_group.high),
            week,
        )
        &&& self.unvaccinated_people == people_of(ages, age_group)
            - self.vaccinated_people.at_least_one_dose
        &&& self.absolute_deaths.unvaccinated == deaths_counted(
            deaths,
            week,
            age_group,
            VaccinationStatus::Unvaccinated,
        )
        &&& self.absolute_deaths.two_doses == deaths_counted(
            deaths,
            week,
            age_group,
            VaccinationStatus::TwoDoses,
        )
        &&& self.absolute_deaths.three_doses == deaths_counted(
            deaths,
            week,
            age_group,
            VaccinationStatus::ThreeDoses,
        )
        &&& self.absolute_cases.unvaccinated == cases_counted(
            cases,
            week,
            age_group,
            VaccinationStatus::Unvaccinated,
        )
        &&& self.absolute_cases.two_doses == cases_counted(
            cases,
            week,
            age_group,
            VaccinationStatus::TwoDoses,
        )
        &&& self.absolute_cases.three_doses == cases_counted(
            cases,
            week,
            age_group,
            VaccinationStatus::ThreeDoses,
        )
        &&& self.rates_follow()
    }

    /// Whether each rate is the events of its status per million people of
    /// that status: the unvaccinated, those with exactly two doses, those with
    /// exactly three.
    pub open spec fn rates_follow(self) -> bool {
        &&& is_per_million(
            self.deaths_per_million.unvaccinated,
            self.absolute_deaths.unvaccinated as int,
            self.unvaccinated_people as int,
        )
        &&& is_per_million(
            self.deaths_per_million.two_doses,
            self.absolute_deaths.two_doses as int,
            self.vaccinated_people.two_doses as int,
        )
        &&& is_per_million(
            self.deaths_per_million.three_doses,
            self.absolute_deaths.three_doses as int,
            self.vaccinated_people.three_doses as int,
        )
        &&& is_per_million(
            self.cases_per_million.unvaccinated,
            self.absolute_cases.unvaccinated as int,
            self.unvaccinated_people as int,
        )
        &&& is_per_million(
            self.cases_per_million.two_doses,
            self.absolute_cases.two_doses as int,
            self.vaccinated_people.two_doses as int,
        )
        &&& is_per_million(
            self.cases_per_million.three_doses,
            self.absolute_cases.three_doses as int,
            self.vaccinated_people.three_doses as int,
        )
    }

    /// The report that follows from the people and the events of a bracket.
    pub fn from_counts(
        population: usize,
        vaccinated_people: VaccinatedPeople,
        absolute_deaths: DeathRate<usize>,
        absolute_cases: DeathRate<usize>,
    ) -> (report: WeeklyReport)
        ensures
            report.vaccinated_people == vaccinated_people,
            report.unvaccinated_people == population - vaccinated_people.at_least_one_dose,
            report.absolute_deaths == absolute_deaths,
            report.absolute_cases == absolute_cases,
            report.rates_follow(),
    {
        let unvaccinated_people: i128 = population as i128
            - vaccinated_people.at_least_one_dose as i128;
        let deaths_per_million = DeathRate {
            unvaccinated: per_million(absolute_deaths.unvaccinated, unvaccinated_people),
            two_doses: per_million(absolute_deaths.two_doses, vaccinated_people.two_doses as i128),
            three_doses: per_million(
                absolute_deaths.three_doses,
                vaccinated_people.three_doses as i128,
            ),
        };
        let cases_per_million = DeathRate {
            unvaccinated: per_million(absolute_cases.unvaccinated, unvaccinated_people),
            two_doses: per_million(absolute_cases.two_doses, vaccinated_people.two_doses as i128),
            three_doses: per_million(
                absolute_cases.three_doses,
                vaccinated_people.three_doses as i128,
            ),
        };
        WeeklyReport {
            vaccinated_people,
            unvaccinated_people,
            absolute_cases,
            absolute_deaths,
            deaths_per_million,
            cases_per_million,
        }
    }
}

/// The report of `age_group` in `week`.
pub fn weekly_report(
    week: YearWeek,
    age_group: AgeGroup,
    ages: &AgeDistribution,
    vaccinations: &VaccinationData,
    deaths: &DeathsData,
    cases: &InfectionsData,
) -> (report: WeeklyReport)
    ensures
        report.is_for(week, age_group, ages@, vaccinations@, deaths@, cases@),
{
    let population = ages.population_of(age_group);
    let vaccinated_people = vaccinations.sum((age_group.low, age_group.high), week);
    let absolute_deaths = DeathRate {
        unvaccinated: deaths.by_vaccination_status(
            week,
            age_group,
            VaccinationStatus::Unvaccinated,
        ),
        two_doses: deaths.by_vaccination_status(week, age_group, VaccinationStatus::TwoDoses),
        three_doses: deaths.by_vaccination_status(week, age_group, VaccinationStatus::ThreeDoses),
    };
    let absolute_cases = DeathRate {
        unvaccinated: cases.by_vaccination_status(
            week,
            age_group,
            VaccinationStatus::Unvaccinated,
        ),
        two_doses: cases.by_vaccination_status(week, age_group, VaccinationStatus::TwoDoses),
        three_doses: cases.by_vaccination_status(week, age_group, VaccinationStatus::ThreeDoses),
    };
    WeeklyReport::from_counts(population, vaccinated_people, absolute_deaths, absolute_cases)
}

/// A report is settled by what it is drawn from: two reports of one bracket
/// and week from the same sources agree in every field.
pub proof fn lemma_report_is_determined(
    one: WeeklyReport,
    other: WeeklyReport,
    week: YearWeek,
    age_group: AgeGroup,
    ages: Seq<(usize, usize)>,
    vaccinations: Seq<VaccinationEcdcRow>,
    deaths: Seq<CovidDeath>,
    cases: Seq<Cases>,
)
    requires
        one.is_for(week, age_group, ages, vaccinations, deaths, cases),
        other.is_for(week, age_group, ages, vaccinations, deaths, cases),
    ensures
        one == other,
{
    assert(one.vaccinated_people@ == other.vaccinated_people@);
    assert(one.vaccinated_people == other.vaccinated_people);
}

/// The ratio of the death rate of a vaccination status to that of the
/// unvaccinated is no number exactly when the rate of the unvaccinated is
/// zero. This holds of each report whose rate for the status is a number, or
/// whose rate for the unvaccinated is zero, and whose rate for the
/// unvaccinated is not zero by zero.
pub proof fn lemma_risk_ratio_finite(report: WeeklyReport, metric: Metric)
    requires
        report.spec_ratio(metric).rate.spec_is_finite() || report.spec_ratio(
            metric,
        ).baseline.spec_is_zero(),
        !report.spec_ratio(metric).baseline.spec_is_undefined(),
    ensures
        !report.spec_ratio(metric).spec_is_finite() <==> report.spec_ratio(
            metric,
        ).baseline.spec_is_zero(),
        metric == Metric::DeathsWithTwoDoses || metric == Metric::DeathsWithThreeDoses ==> (
        !report.spec_ratio(metric).spec_is_finite()
            <==> report.deaths_per_million.unvaccinated.spec_is_zero()),
{
}

} // verus!
