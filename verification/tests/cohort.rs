use std::cmp::Ordering;
use vaxstats::cohort::{age_groups, AgeGroup, YearWeek};

#[test]
fn age_group_includes_its_ends() {
    let group = AgeGroup::new(50, 59);
    assert!(group.includes(50));
    assert!(group.includes(59));
    assert!(group.includes(55));
    assert!(!group.includes(49));
    assert!(!group.includes(60));
}

#[test]
fn age_group_includes_matches_range_for_all_small_ages() {
    for low in 0usize..12 {
        for high in low..12 {
            let group = AgeGroup::new(low, high);
            for age in 0usize..14 {
                assert_eq!(group.includes(age), low <= age && age <= high);
            }
        }
    }
}

#[test]
fn age_group_of_one_age() {
    let group = AgeGroup::new(7, 7);
    assert!(group.includes(7));
    assert!(!group.includes(6));
    assert!(!group.includes(8));
}

#[test]
fn age_group_from_zero_excludes_only_above() {
    let group = AgeGroup::new(0, 4);
    assert!(group.includes(0));
    assert!(group.includes(4));
    assert!(!group.includes(5));
    assert!(!group.includes(usize::MAX));
}

#[test]
fn age_group_new_keeps_both_ends() {
    let group = AgeGroup::new(18, 24);
    assert_eq!(group.low, 18);
    assert_eq!(group.high, 24);
    assert_eq!(group, AgeGroup { low: 18, high: 24 });
}

#[test]
fn weeks_of_one_year_order_by_week() {
    let early = YearWeek { year: 2021, week: 5 };
    let late = YearWeek { year: 2021, week: 17 };
    assert!(early < late);
    assert!(late > early);
    assert!(early <= late);
    assert!(!(late <= early));
    assert_eq!(early.compare_to(&late), Ordering::Less);
    assert_eq!(late.compare_to(&early), Ordering::Greater);
    assert_eq!(early.compare_to(&early), Ordering::Equal);
}

#[test]
fn later_year_orders_after_whatever_the_week() {
    let end_of_2020 = YearWeek { year: 2020, week: 53 };
    let start_of_2021 = YearWeek { year: 2021, week: 1 };
    assert!(end_of_2020 < start_of_2021);
    assert_eq!(end_of_2020.compare_to(&start_of_2021), Ordering::Less);
    assert_eq!(start_of_2021.compare_to(&end_of_2020), Ordering::Greater);
}

#[test]
fn week_order_agrees_with_pairs_of_numbers() {
    for year_a in 2019u32..2022 {
        for week_a in [1u32, 2, 26, 52, 53] {
            for year_b in 2019u32..2022 {
                for week_b in [1u32, 2, 26, 52, 53] {
                    let a = YearWeek { year: year_a, week: week_a };
                    let b = YearWeek { year: year_b, week: week_b };
                    let expected = (year_a, week_a).cmp(&(year_b, week_b));
                    assert_eq!(a.compare_to(&b), expected);
                    assert_eq!(a.partial_cmp(&b), Some(expected));
                    assert_eq!(a.cmp(&b), expected);
                    assert_eq!(a == b, expected == Ordering::Equal);
                }
            }
        }
    }
}

#[test]
fn reported_age_groups_are_the_nine_brackets() {
    let groups = age_groups();
    let expected = vec![
        AgeGroup::new(0, 4),
        AgeGroup::new(5, 9),
        AgeGroup::new(10, 14),
        AgeGroup::new(15, 17),
        AgeGroup::new(18, 24),
        AgeGroup::new(25, 49),
        AgeGroup::new(50, 59),
        AgeGroup::new(60, 69),
        AgeGroup::new(70, 79),
    ];
    assert_eq!(groups, expected);
}

#[test]
fn reported_age_groups_cover_each_age_to_79_once() {
    let groups = age_groups();
    for age in 0usize..=79 {
        let holders = groups.iter().filter(|group| group.includes(age)).count();
        assert_eq!(holders, 1);
    }
    for age in 80usize..=130 {
        assert!(groups.iter().all(|group| !group.includes(age)));
    }
}
