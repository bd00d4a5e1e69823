use vaxstats::calendar::Date;
use vaxstats::cohort::{age_groups, AgeGroup, YearWeek};
use vaxstats::collection::{
    mean_of_week, reports_of_age_group, reports_of_week, WeeklyReports,
};
use vaxstats::deaths::{Cases, CovidDeath, DeathsData, InfectionsData, VaccinationStatus};
use vaxstats::demographics::AgeDistribution;
use vaxstats::report::{weekly_report, DeathRate, Metric, Ratio, RiskRatio, WeeklyReport};
use vaxstats::vaccination::{VaccinatedPeople, VaccinationData, VaccinationEcdcRow};

fn week(year: u32, week: u32) -> YearWeek {
    YearWeek { year, week }
}

fn day(year: i32, month: u32, day: u32) -> Date {
    Date::from_ymd(year, month, day).unwrap()
}

fn row(
    year_week: YearWeek,
    age_group: (usize, usize),
    first_dose: usize,
    second_dose: usize,
    third_dose: usize,
) -> VaccinationEcdcRow {
    VaccinationEcdcRow {
        year_week,
        country: "PL".to_string(),
        region: "PL".to_string(),
        age_group,
        first_dose,
        second_dose,
        third_dose,
    }
}

fn deaths_of(number: usize, date: Date, age: usize, status: VaccinationStatus) -> Vec<CovidDeath> {
    (0..number).map(|_| CovidDeath { date, age, vaccination_status: status }).collect()
}

fn value(ratio: Ratio) -> f64 {
    ratio.numerator as f64 / ratio.denominator as f64
}

fn risk(ratio: &RiskRatio) -> f64 {
    value(ratio.rate) / value(ratio.baseline)
}

fn mean(terms: &Vec<RiskRatio>) -> f64 {
    terms.iter().map(risk).sum::<f64>() / terms.len() as f64
}

fn report_with_deaths(unvaccinated: usize, two_doses: usize, three_doses: usize) -> WeeklyReport {
    WeeklyReport::from_counts(
        1_000_000,
        VaccinatedPeople {
            at_least_one_dose: 600_000,
            at_least_two_doses: 550_000,
            at_least_three_doses: 50_000,
            one_dose: 50_000,
            two_doses: 500_000,
            three_doses: 50_000,
        },
        DeathRate { unvaccinated, two_doses, three_doses },
        DeathRate { unvaccinated: 0, two_doses: 0, three_doses: 0 },
    )
}

fn sources() -> (AgeDistribution, VaccinationData, DeathsData, InfectionsData) {
    let ages = AgeDistribution::new(vec![(55, 1_000_000), (65, 2_000_000), (75, 500_000)]).unwrap();
    let vaccinations = VaccinationData::new(&vec![
        row(week(2021, 9), (50, 59), 600_000, 500_000, 0),
        row(week(2021, 9), (60, 69), 1_000_000, 500_000, 0),
        row(week(2021, 9), (70, 79), 400_000, 250_000, 0),
    ])
    .unwrap();
    let mut deaths = deaths_of(40, day(2021, 3, 8), 55, VaccinationStatus::Unvaccinated);
    deaths.extend(deaths_of(4, day(2021, 3, 14), 59, VaccinationStatus::TwoDoses));
    deaths.extend(deaths_of(10, day(2021, 3, 9), 75, VaccinationStatus::Unvaccinated));
    deaths.extend(deaths_of(5, day(2021, 3, 9), 75, VaccinationStatus::TwoDoses));
    deaths.extend(deaths_of(7, day(2021, 3, 16), 65, VaccinationStatus::TwoDoses));
    let cases = InfectionsData::new(vec![Cases {
        date: day(2021, 3, 9),
        age: 51,
        vaccination_status: VaccinationStatus::Unvaccinated,
        count: 1500,
    }])
    .unwrap();
    (ages, vaccinations, DeathsData::new(deaths), cases)
}

#[test]
fn a_bracket_without_deaths_is_left_out_of_the_mean() {
    let (ages, vaccinations, deaths, cases) = sources();
    let groups = vec![AgeGroup::new(50, 59), AgeGroup::new(60, 69), AgeGroup::new(70, 79)];
    let reports = WeeklyReports::build(
        &vec![week(2021, 10)],
        &groups,
        &ages,
        &vaccinations,
        &deaths,
        &cases,
    );
    let silent = reports.get(0, AgeGroup::new(60, 69)).unwrap();
    assert_eq!(silent.absolute_deaths, DeathRate { unvaccinated: 0, two_doses: 0, three_doses: 0 });
    assert!(!silent.risk_ratio_of_two_doses().is_finite());
    assert!(risk(&silent.risk_ratio_of_two_doses()).is_nan());
    let means = reports.mean_risk_ratio_of_two_doses();
    assert_eq!(means.len(), 1);
    assert_eq!(means[0].0, week(2021, 10));
    let terms = means[0].1.clone().unwrap();
    assert_eq!(
        terms,
        vec![
            reports.get(0, AgeGroup::new(50, 59)).unwrap().risk_ratio_of_two_doses(),
            reports.get(0, AgeGroup::new(70, 79)).unwrap().risk_ratio_of_two_doses(),
        ]
    );
    assert_eq!(risk(&terms[0]), 0.08);
    assert_eq!(risk(&terms[1]), 0.2);
    assert_eq!(mean(&terms), 0.14);
}

#[test]
fn a_week_without_any_number_has_no_mean() {
    let (ages, vaccinations, deaths, cases) = sources();
    let groups = vec![AgeGroup::new(50, 59), AgeGroup::new(60, 69), AgeGroup::new(70, 79)];
    let reports = WeeklyReports::build(
        &vec![week(2021, 10), week(2021, 11), week(2021, 12)],
        &groups,
        &ages,
        &vaccinations,
        &deaths,
        &cases,
    );
    let means = reports.mean_risk_ratio_of_two_doses();
    assert_eq!(means.len(), 3);
    assert!(means[0].1.is_some());
    assert_eq!(means[1], (week(2021, 11), None));
    assert_eq!(means[2], (week(2021, 12), None));
    let three = reports.mean_risk_ratio_of_three_doses();
    assert_eq!(
        three,
        vec![(week(2021, 10), None), (week(2021, 11), None), (week(2021, 12), None)]
    );
}

#[test]
fn mean_of_a_week_keeps_the_numbers_in_order() {
    let entries = vec![
        (AgeGroup::new(0, 4), report_with_deaths(40, 4, 1)),
        (AgeGroup::new(5, 9), report_with_deaths(0, 4, 1)),
        (AgeGroup::new(10, 14), report_with_deaths(20, 0, 2)),
        (AgeGroup::new(15, 17), report_with_deaths(0, 0, 0)),
        (AgeGroup::new(18, 24), report_with_deaths(10, 5, 0)),
    ];
    let two = mean_of_week(&entries, Metric::DeathsWithTwoDoses).unwrap();
    assert_eq!(
        two,
        vec![
            entries[0].1.risk_ratio_of_two_doses(),
            entries[2].1.risk_ratio_of_two_doses(),
            entries[4].1.risk_ratio_of_two_doses(),
        ]
    );
    assert_eq!(risk(&two[0]), 0.08);
    assert_eq!(risk(&two[1]), 0.0);
    assert_eq!(risk(&two[2]), 0.4);
    assert_eq!(mean(&two), 0.16);
    let three = mean_of_week(&entries, Metric::DeathsWithThreeDoses).unwrap();
    assert_eq!(three.len(), 3);
    assert_eq!(three[1], entries[2].1.risk_ratio_of_three_doses());
    assert_eq!(mean_of_week(&entries, Metric::CasesWithTwoDoses), None);
    assert_eq!(mean_of_week(&entries, Metric::CasesWithThreeDoses), None);
    assert_eq!(mean_of_week(&vec![], Metric::DeathsWithTwoDoses), None);
}

#[test]
fn mean_by_metric_agrees_with_the_named_means() {
    let (ages, vaccinations, deaths, cases) = sources();
    let reports = WeeklyReports::build(
        &vec![week(2021, 10), week(2021, 11)],
        &age_groups(),
        &ages,
        &vaccinations,
        &deaths,
        &cases,
    );
    assert_eq!(reports.mean(Metric::DeathsWithTwoDoses), reports.mean_risk_ratio_of_two_doses());
    assert_eq!(
        reports.mean(Metric::DeathsWithThreeDoses),
        reports.mean_risk_ratio_of_three_doses()
    );
    let of_cases = reports.mean(Metric::CasesWithTwoDoses);
    assert_eq!(
        of_cases,
        vec![
            (
                week(2021, 10),
                Some(vec![RiskRatio {
                    rate: Ratio { numerator: 0, denominator: 500_000 },
                    baseline: Ratio { numerator: 1_500_000_000, denominator: 400_000 },
                }])
            ),
            (week(2021, 11), None)
        ]
    );
    assert_eq!(mean(of_cases[0].1.as_ref().unwrap()), 0.0);
}

#[test]
fn collection_has_each_week_and_bracket_in_order() {
    let (ages, vaccinations, deaths, cases) = sources();
    let weeks = vec![week(2021, 9), week(2021, 10), week(2021, 11)];
    let groups = age_groups();
    let reports = WeeklyReports::build(&weeks, &groups, &ages, &vaccinations, &deaths, &cases);
    assert_eq!(reports.len(), 3);
    for index in 0..3 {
        assert_eq!(reports.week(index), weeks[index]);
        let entries = reports.reports(index);
        assert_eq!(entries.len(), 9);
        for position in 0..9 {
            assert_eq!(entries[position].0, groups[position]);
            let expected = weekly_report(
                weeks[index],
                groups[position],
                &ages,
                &vaccinations,
                &deaths,
                &cases,
            );
            assert_eq!(entries[position].1, expected);
            assert_eq!(reports.get(index, groups[position]), Some(expected));
        }
        assert_eq!(reports.get(index, AgeGroup::new(80, 120)), None);
        assert_eq!(reports.get(index, AgeGroup::new(50, 58)), None);
    }
}

#[test]
fn a_bracket_listed_twice_is_reported_once() {
    let (ages, vaccinations, deaths, cases) = sources();
    let groups = vec![
        AgeGroup::new(50, 59),
        AgeGroup::new(70, 79),
        AgeGroup::new(50, 59),
        AgeGroup::new(60, 69),
        AgeGroup::new(70, 79),
    ];
    let entries =
        reports_of_week(week(2021, 10), &groups, &ages, &vaccinations, &deaths, &cases);
    let listed: Vec<AgeGroup> = entries.iter().map(|entry| entry.0).collect();
    assert_eq!(
        listed,
        vec![AgeGroup::new(50, 59), AgeGroup::new(70, 79), AgeGroup::new(60, 69)]
    );
    let reports =
        WeeklyReports::build(&vec![week(2021, 10)], &groups, &ages, &vaccinations, &deaths, &cases);
    assert_eq!(reports.reports(0), &entries);
    assert_eq!(reports.mean_risk_ratio_of_two_doses()[0].1.clone().unwrap().len(), 2);
}

#[test]
fn collection_of_no_weeks_or_no_brackets() {
    let (ages, vaccinations, deaths, cases) = sources();
    let none = WeeklyReports::build(&vec![], &age_groups(), &ages, &vaccinations, &deaths, &cases);
    assert_eq!(none.len(), 0);
    assert_eq!(none.mean_risk_ratio_of_two_doses(), vec![]);
    let bare =
        WeeklyReports::build(&vec![week(2021, 10)], &vec![], &ages, &vaccinations, &deaths, &cases);
    assert_eq!(bare.len(), 1);
    assert_eq!(bare.reports(0).len(), 0);
    assert_eq!(bare.get(0, AgeGroup::new(50, 59)), None);
    assert_eq!(bare.mean_risk_ratio_of_two_doses(), vec![(week(2021, 10), None)]);
}

#[test]
fn a_week_listed_twice_is_reported_twice() {
    let (ages, vaccinations, deaths, cases) = sources();
    let weeks = vec![week(2021, 10), week(2021, 10)];
    let reports =
        WeeklyReports::build(&weeks, &age_groups(), &ages, &vaccinations, &deaths, &cases);
    assert_eq!(reports.len(), 2);
    assert_eq!(reports.reports(0), reports.reports(1));
}

#[test]
fn reports_of_a_bracket_follow_the_weeks() {
    let (ages, vaccinations, deaths, cases) = sources();
    let weeks = vec![week(2021, 8), week(2021, 9), week(2021, 10), week(2021, 11)];
    let group = AgeGroup::new(50, 59);
    let series = reports_of_age_group(group, &weeks, &ages, &vaccinations, &deaths, &cases);
    assert_eq!(series.len(), 4);
    for index in 0..4 {
        assert_eq!(series[index].0, weeks[index]);
        assert_eq!(
            series[index].1,
            weekly_report(weeks[index], group, &ages, &vaccinations, &deaths, &cases)
        );
    }
    assert_eq!(series[0].1.unvaccinated_people, 1_000_000);
    assert_eq!(series[1].1.unvaccinated_people, 400_000);
    assert_eq!(series[2].1.absolute_deaths.total(), 44);
    assert_eq!(
        reports_of_age_group(group, &vec![], &ages, &vaccinations, &deaths, &cases),
        vec![]
    );
}
