//! Keys by which every record is filed: the ISO week and the age bracket.

use std::cmp::Ordering;
use vstd::prelude::*;
use vstd::std_specs::cmp::PartialOrdSpecImpl;

verus! {

/// An ISO-8601 week: the ISO year, then the week number within it.
#[derive(Debug, PartialEq, Eq, Structural, Ord, Hash, Clone, Copy)]
pub struct YearWeek {
    pub year: u32,
    pub week: u32,
}

impl YearWeek {
    /// Chronological order: by year first, by week within a year.
    pub open spec fn precedes(self, other: YearWeek) -> bool {
        self.year < other.year || (self.year == other.year && self.week < other.week)
    }

    /// `self` is `other` or an earlier week.
    pub open spec fn not_after(self, other: YearWeek) -> bool {
        self == other || self.precedes(other)
    }

    /// How `self` stands to `other` in chronological order.
    pub open spec fn compare(self, other: YearWeek) -> Ordering {
        if self.precedes(other) {
            Ordering::Less
        } else if self == other {
            Ordering::Equal
        } else {
            Ordering::Greater
        }
    }

    /// Compares two weeks chronologically.
    pub fn compare_to(&self, other: &YearWeek) -> (order: Ordering)
        ensures
            order == self.compare(*other),
    {
        if self.year < other.year {
            Ordering::Less
        } else if self.year > other.year {
            Ordering::Greater
        } else if self.week < other.week {
            Ordering::Less
        } else if self.week > other.week {
            Ordering::Greater
        } else {
            Ordering::Equal
        }
    }
}

impl PartialOrd for YearWeek {
    fn partial_cmp(&self, other: &YearWeek) -> (order: Option<Ordering>) {
        Some(self.compare_to(other))
    }
}

impl PartialOrdSpecImpl for YearWeek {
    open spec fn obeys_partial_cmp_spec() -> bool {
        true
    }

    open spec fn partial_cmp_spec(&self, other: &YearWeek) -> Option<Ordering> {
        Some(self.compare(*other))
    }
}

/// Within one year the weeks are ordered as their numbers are; a week of a
/// later year comes after every week of an earlier one.
pub proof fn lemma_weeks_ordered(one: YearWeek, other: YearWeek)
    ensures
        one.year == other.year ==> (one.compare(other) == Ordering::Less <==> one.week
            < other.week),
        one.year == other.year ==> (one.compare(other) == Ordering::Equal <==> one.week
            == other.week),
        one.year == other.year ==> (one.compare(other) == Ordering::Greater <==> one.week
            > other.week),
        one.year < other.year ==> one.compare(other) == Ordering::Less,
        one.year > other.year ==> one.compare(other) == Ordering::Greater,
{
}

/// The order of the weeks is total: of two weeks one precedes the other, or
/// they are the same, and never two of these; and it is transitive.
pub proof fn lemma_weeks_totally_ordered(one: YearWeek, other: YearWeek, third: YearWeek)
    ensures
        one.precedes(other) || other.precedes(one) || one == other,
        !(one.precedes(other) && other.precedes(one)),
        !one.precedes(one),
        one.precedes(other) && other.precedes(third) ==> one.precedes(third),
        one.not_after(other) <==> !other.precedes(one),
{
}

/// An inclusive range of ages in whole years.
#[derive(Debug, PartialEq, Eq, Structural, Hash, Clone, Copy)]
pub struct AgeGroup {
    pub low: usize,
    pub high: usize,
}

impl AgeGroup {
    /// Whether `age` lies in the bracket, both ends included.
    pub open spec fn spec_includes(self, age: int) -> bool {
        self.low <= age <= self.high
    }

    /// Whether the bracket shares no age with `other`.
    pub open spec fn disjoint_from(self, other: AgeGroup) -> bool {
        forall|age: int| !(self.spec_includes(age) && #[trigger] other.spec_includes(age))
    }

    /// The bracket of the ages from `from` to `to`, both included.
    pub fn new(from: usize, to: usize) -> (group: AgeGroup)
        ensures
            group.low == from,
            group.high == to,
    {
        AgeGroup { low: from, high: to }
    }

    /// Whether `age` lies in the bracket.
    pub fn includes(&self, age: usize) -> (inside: bool)
        ensures
            inside == (self.low <= age && age <= self.high),
            inside == self.spec_includes(age as int),
    {
        age >= self.low && age <= self.high
    }
}

/// A bracket holds its two ends and neither the age below nor the age above.
pub proof fn lemma_bracket_ends(group: AgeGroup)
    requires
        group.low <= group.high,
    ensures
        group.spec_includes(group.low as int),
        group.spec_includes(group.high as int),
        !group.spec_includes(group.low - 1),
        !group.spec_includes(group.high + 1),
{
}

/// The age brackets that are reported, youngest first.
pub open spec fn reported_age_groups() -> Seq<AgeGroup> {
    seq![
        AgeGroup { low: 0, high: 4 },
        AgeGroup { low: 5, high: 9 },
        AgeGroup { low: 10, high: 14 },
        AgeGroup { low: 15, high: 17 },
        AgeGroup { low: 18, high: 24 },
        AgeGroup { low: 25, high: 49 },
        AgeGroup { low: 50, high: 59 },
        AgeGroup { low: 60, high: 69 },
        AgeGroup { low: 70, high: 79 },
    ]
}

/// The age brackets that are reported, youngest first. People of 80 and
/// older have no bracket: their number in the table of ages is not reliable.
pub fn age_groups() -> (groups: Vec<AgeGroup>)
    ensures
        groups@ == reported_age_groups(),
{
    let mut groups: Vec<AgeGroup> = Vec::new();
    groups.push(AgeGroup::new(0, 4));
    groups.push(AgeGroup::new(5, 9));
    groups.push(AgeGroup::new(10, 14));
    groups.push(AgeGroup::new(15, 17));
    groups.push(AgeGroup::new(18, 24));
    groups.push(AgeGroup::new(25, 49));
    groups.push(AgeGroup::new(50, 59));
    groups.push(AgeGroup::new(60, 69));
    groups.push(AgeGroup::new(70, 79));
    assert(groups@ =~= reported_age_groups());
    groups
}

/// Whether `age` lies in one of the reported brackets.
pub open spec fn is_reported_age(age: int) -> bool {
    exists|i: int| 0 <= i < 9 && (#[trigger] reported_age_groups()[i]).spec_includes(age)
}

/// The reported brackets share no age, and the ages that lie in one of them
/// are those from 0 to 79.
pub proof fn lemma_reported_age_groups_partition()
    ensures
        reported_age_groups().len() == 9,
        forall|i: int, j: int|
            0 <= i < j < 9 ==> (#[trigger] reported_age_groups()[i]).disjoint_from(
                #[trigger] reported_age_groups()[j],
            ),
        forall|age: int| #[trigger] is_reported_age(age) <==> 0 <= age <= 79,
{
    let groups = reported_age_groups();
    assert forall|age: int| 0 <= age <= 79 implies #[trigger] is_reported_age(age) by {
        if age <= 4 {
            assert(groups[0].spec_includes(age));
        } else if age <= 9 {
            assert(groups[1].spec_includes(age));
        } else if age <= 14 {
            assert(groups[2].spec_includes(age));
        } else if age <= 17 {
            assert(groups[3].spec_includes(age));
        } else if age <= 24 {
            assert(groups[4].spec_includes(age));
        } else if age <= 49 {
            assert(groups[5].spec_includes(age));
        } else if age <= 59 {
            assert(groups[6].spec_includes(age));
        } else if age <= 69 {
            assert(groups[7].spec_includes(age));
        } else {
            assert(groups[8].spec_includes(age));
        }
    }
}

} // verus!
