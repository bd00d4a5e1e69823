//! The running count of vaccinated people, folded over the weekly rows of the
//! vaccination table.

use crate::cohort::YearWeek;
use crate::text::same_text;
use vstd::prelude::*;

verus! {

/// One row of the vaccination table: the doses given in one week to one
/// target group of one region.
#[derive(Debug, PartialEq, Eq)]
pub struct VaccinationEcdcRow {
    pub year_week: YearWeek,
    pub country: String,
    pub region: String,
    pub age_group: (usize, usize),
    pub first_dose: usize,
    pub second_dose: usize,
    pub third_dose: usize,
}

impl VaccinationEcdcRow {
    /// Whether the row reports for Poland as a whole: its country and its
    /// region are both `PL`.
    pub open spec fn spec_is_national(self) -> bool {
        self.country@ == "PL"@ && self.region@ == "PL"@
    }

    /// Whether the row counts towards the people of `age_group` vaccinated by
    /// the end of `week`.
    pub open spec fn counts_for(self, age_group: (usize, usize), week: YearWeek) -> bool {
        self.year_week.not_after(week) && self.age_group == age_group
    }

    /// Whether the row reports for Poland as a whole.
    pub fn is_national(&self) -> (national: bool)
        ensures
            national == self.spec_is_national(),
    {
        same_text(self.country.as_str(), "PL") && same_text(self.region.as_str(), "PL")
    }

    /// A copy of the row.
    fn duplicate(&self) -> (copy: VaccinationEcdcRow)
        ensures
            copy == *self,
    {
        VaccinationEcdcRow {
            year_week: self.year_week,
            country: self.country.clone(),
            region: self.region.clone(),
            age_group: self.age_group,
            first_dose: self.first_dose,
            second_dose: self.second_dose,
            third_dose: self.third_dose,
        }
    }
}

/// The rows that report for the country as a whole, in their order.
pub open spec fn national_rows(rows: Seq<VaccinationEcdcRow>) -> Seq<VaccinationEcdcRow>
    decreases rows.len(),
{
    if rows.len() == 0 {
        Seq::empty()
    } else if rows.last().spec_is_national() {
        national_rows(rows.drop_last()).push(rows.last())
    } else {
        national_rows(rows.drop_last())
    }
}

/// Keeps the rows that report for the country as a whole.
pub fn read_vaccinations(rows: &Vec<VaccinationEcdcRow>) -> (kept: Vec<VaccinationEcdcRow>)
    ensures
        kept@ == national_rows(rows@),
{
    let mut kept: Vec<VaccinationEcdcRow> = Vec::new();
    let mut index: usize = 0;
    while index < rows.len()
        invariant
            index <= rows.len(),
            kept@ == national_rows(rows@.take(index as int)),
        decreases rows.len() - index,
    {
        proof {
            assert(rows@.take(index + 1).drop_last() =~= rows@.take(index as int));
        }
        if rows[index].is_national() {
            kept.push(rows[index].duplicate());
        }
        index += 1;
    }
    assert(rows@.take(index as int) =~= rows@);
    kept
}

/// People vaccinated, as plain numbers: at least so many doses, and exactly
/// so many.
pub struct Coverage {
    pub at_least_one_dose: int,
    pub at_least_two_doses: int,
    pub at_least_three_doses: int,
    pub one_dose: int,
    pub two_doses: int,
    pub three_doses: int,
}

/// `n`, or zero where `n` is negative.
pub open spec fn at_least_zero(n: int) -> int {
    if n < 0 {
        0
    } else {
        n
    }
}

impl Coverage {
    /// Nobody vaccinated.
    pub open spec fn zero() -> Coverage {
        Coverage {
            at_least_one_dose: 0,
            at_least_two_doses: 0,
            at_least_three_doses: 0,
            one_dose: 0,
            two_doses: 0,
            three_doses: 0,
        }
    }

    /// The coverage after a week in which `first`, `second` and `third` doses
    /// were given. Who gets a later dose leaves the count of the dose before;
    /// a count that the table would drive below zero stays at zero.
    pub open spec fn after(self, first: int, second: int, third: int) -> Coverage {
        Coverage {
            at_least_one_dose: self.at_least_one_dose + first,
            at_least_two_doses: self.at_least_two_doses + second,
            at_least_three_doses: self.at_least_three_doses + third,
            one_dose: at_least_zero(self.one_dose + first - second),
            two_doses: at_least_zero(self.two_doses + second - third),
            three_doses: self.three_doses + third,
        }
    }

    /// The coverage after the week of `row`.
    pub open spec fn after_row(self, row: VaccinationEcdcRow) -> Coverage {
        self.after(row.first_dose as int, row.second_dose as int, row.third_dose as int)
    }

    /// No count is negative, and nobody has exactly so many doses without
    /// having at least so many.
    pub open spec fn consistent(self) -> bool {
        &&& 0 <= self.one_dose <= self.at_least_one_dose
        &&& 0 <= self.two_doses <= self.at_least_two_doses
        &&& 0 <= self.three_doses <= self.at_least_three_doses
    }

    /// Each count can be held in a `usize`.
    pub open spec fn fits(self) -> bool {
        &&& 0 <= self.at_least_one_dose <= usize::MAX
        &&& 0 <= self.at_least_two_doses <= usize::MAX
        &&& 0 <= self.at_least_three_doses <= usize::MAX
        &&& 0 <= self.one_dose <= usize::MAX
        &&& 0 <= self.two_doses <= usize::MAX
        &&& 0 <= self.three_doses <= usize::MAX
    }
}

/// The coverage of `age_group` by the end of `week`: the rows for that group
/// and for weeks up to `week`, folded from nobody vaccinated in the order of
/// the table.
pub open spec fn cumulative(
    rows: Seq<VaccinationEcdcRow>,
    age_group: (usize, usize),
    week: YearWeek,
) -> Coverage
    decreases rows.len(),
{
    if rows.len() == 0 {
        Coverage::zero()
    } else if rows.last().counts_for(age_group, week) {
        cumulative(rows.drop_last(), age_group, week).after_row(rows.last())
    } else {
        cumulative(rows.drop_last(), age_group, week)
    }
}

/// People vaccinated in one age group by the end of one week.
#[derive(Debug, Clone, Copy, PartialEq, Eq, Structural)]
pub struct VaccinatedPeople {
    pub at_least_one_dose: usize,
    pub at_least_two_doses: usize,
    pub at_least_three_doses: usize,
    pub one_dose: usize,
    pub two_doses: usize,
    pub three_doses: usize,
}

impl View for VaccinatedPeople {
    type V = Coverage;

    open spec fn view(&self) -> Coverage {
        Coverage {
            at_least_one_dose: self.at_least_one_dose as int,
            at_least_two_doses: self.at_least_two_doses as int,
            at_least_three_doses: self.at_least_three_doses as int,
            one_dose: self.one_dose as int,
            two_doses: self.two_doses as int,
            three_doses: self.three_doses as int,
        }
    }
}

impl Default for VaccinatedPeople {
    fn default() -> (people: VaccinatedPeople)
        ensures
            people@ == Coverage::zero(),
    {
        VaccinatedPeople {
            at_least_one_dose: 0,
            at_least_two_doses: 0,
            at_least_three_doses: 0,
            one_dose: 0,
            two_doses: 0,
            three_doses: 0,
        }
    }
}

impl VaccinatedPeople {
    /// Adds the doses of one week.
    pub fn update(self, rhs: &VaccinationEcdcRow) -> (people: VaccinatedPeople)
        requires
            self.at_least_one_dose + rhs.first_dose <= usize::MAX,
            self.at_least_two_doses + rhs.second_dose <= usize::MAX,
            self.at_least_three_doses + rhs.third_dose <= usize::MAX,
            self.one_dose + rhs.first_dose <= usize::MAX,
            self.two_doses + rhs.second_dose <= usize::MAX,
            self.three_doses + rhs.third_dose <= usize::MAX,
        ensures
            people@ == self@.after_row(*rhs),
    {
        let one_dose: usize = match (self.one_dose + rhs.first_dose).checked_sub(rhs.second_dose) {
            Some(left) => left,
            None => 0,
        };
        let two_doses: usize = match (self.two_doses + rhs.second_dose).checked_sub(
            rhs.third_dose,
        ) {
            Some(left) => left,
            None => 0,
        };
        VaccinatedPeople {
            at_least_one_dose: self.at_least_one_dose + rhs.first_dose,
            at_least_two_doses: self.at_least_two_doses + rhs.second_dose,
            at_least_three_doses: self.at_least_three_doses + rhs.third_dose,
            one_dose,
            two_doses,
            three_doses: self.three_doses + rhs.third_dose,
        }
    }
}

/// The doses of every row added up, whatever its week and group: first,
/// second and third doses.
pub open spec fn all_doses(rows: Seq<VaccinationEcdcRow>) -> (int, int, int)
    decreases rows.len(),
{
    if rows.len() == 0 {
        (0, 0, 0)
    } else {
        let before = all_doses(rows.drop_last());
        (
            before.0 + rows.last().first_dose,
            before.1 + rows.last().second_dose,
            before.2 + rows.last().third_dose,
        )
    }
}

/// Whether the doses of every row added up can be held in a `usize`.
pub open spec fn doses_fit(rows: Seq<VaccinationEcdcRow>) -> bool {
    &&& all_doses(rows).0 <= usize::MAX
    &&& all_doses(rows).1 <= usize::MAX
    &&& all_doses(rows).2 <= usize::MAX
}

/// No coverage is negative anywhere, nobody has exactly so many doses
/// without having at least so many, and no group has had more doses than the
/// whole table lists.
pub proof fn lemma_cumulative_bounds(
    rows: Seq<VaccinationEcdcRow>,
    age_group: (usize, usize),
    week: YearWeek,
)
    ensures
        cumulative(rows, age_group, week).consistent(),
        cumulative(rows, age_group, week).at_least_one_dose <= all_doses(rows).0,
        cumulative(rows, age_group, week).at_least_two_doses <= all_doses(rows).1,
        cumulative(rows, age_group, week).at_least_three_doses <= all_doses(rows).2,
    decreases rows.len(),
{
    if rows.len() > 0 {
        lemma_cumulative_bounds(rows.drop_last(), age_group, week);
    }
}

/// The doses of the first rows of a table are no more than those of the whole.
pub proof fn lemma_all_doses_prefix(rows: Seq<VaccinationEcdcRow>, length: int)
    requires
        0 <= length <= rows.len(),
    ensures
        0 <= all_doses(rows.take(length)).0 <= all_doses(rows).0,
        0 <= all_doses(rows.take(length)).1 <= all_doses(rows).1,
        0 <= all_doses(rows.take(length)).2 <= all_doses(rows).2,
    decreases rows.len(),
{
    if length == rows.len() {
        assert(rows.take(length) =~= rows);
        if rows.len() > 0 {
            lemma_all_doses_prefix(rows.drop_last(), length - 1);
        }
    } else {
        assert(rows.drop_last().take(length) =~= rows.take(length));
        lemma_all_doses_prefix(rows.drop_last(), length);
    }
}

/// The exactly-so-many counts are never negative, whatever the table holds,
/// and in whatever order its rows come.
pub proof fn lemma_exact_counts_never_negative(
    rows: Seq<VaccinationEcdcRow>,
    age_group: (usize, usize),
    week: YearWeek,
)
    ensures
        cumulative(rows, age_group, week).one_dose >= 0,
        cumulative(rows, age_group, week).two_doses >= 0,
        cumulative(rows, age_group, week).three_doses >= 0,
{
    lemma_cumulative_bounds(rows, age_group, week);
}

/// One more row never lowers an at-least-so-many count.
pub proof fn lemma_one_more_row_never_fewer(
    rows: Seq<VaccinationEcdcRow>,
    row: VaccinationEcdcRow,
    age_group: (usize, usize),
    week: YearWeek,
)
    ensures
        cumulative(rows.push(row), age_group, week).at_least_one_dose >= cumulative(
            rows,
            age_group,
            week,
        ).at_least_one_dose,
        cumulative(rows.push(row), age_group, week).at_least_two_doses >= cumulative(
            rows,
            age_group,
            week,
        ).at_least_two_doses,
        cumulative(rows.push(row), age_group, week).at_least_three_doses >= cumulative(
            rows,
            age_group,
            week,
        ).at_least_three_doses,
{
    assert(rows.push(row).drop_last() =~= rows);
}

/// By a later week no fewer people have had at least so many doses than by an
/// earlier one.
pub proof fn lemma_later_week_never_fewer(
    rows: Seq<VaccinationEcdcRow>,
    age_group: (usize, usize),
    earlier: YearWeek,
    later: YearWeek,
)
    requires
        earlier.not_after(later),
    ensures
        cumulative(rows, age_group, earlier).at_least_one_dose <= cumulative(
            rows,
            age_group,
            later,
        ).at_least_one_dose,
        cumulative(rows, age_group, earlier).at_least_two_doses <= cumulative(
            rows,
            age_group,
            later,
        ).at_least_two_doses,
        cumulative(rows, age_group, earlier).at_least_three_doses <= cumulative(
            rows,
            age_group,
            later,
        ).at_least_three_doses,
    decreases rows.len(),
{
    if rows.len() > 0 {
        lemma_later_week_never_fewer(rows.drop_last(), age_group, earlier, later);
    }
}

/// The vaccination table of the country, week after week.
pub struct VaccinationData {
    rows: Vec<VaccinationEcdcRow>,
}

impl View for VaccinationData {
    type V = Seq<VaccinationEcdcRow>;

    closed spec fn view(&self) -> Seq<VaccinationEcdcRow> {
        self.rows@
    }
}

impl VaccinationData {
    #[verifier::type_invariant]
    spec fn within_limits(self) -> bool {
        doses_fit(self.rows@)
    }

    /// The people of `age_group` vaccinated by the end of `week`.
    pub fn sum(&self, age_group: (usize, usize), week: YearWeek) -> (people: VaccinatedPeople)
        ensures
            people@ == cumulative(self@, age_group, week),
    {
        proof {
            use_type_invariant(self);
        }
        let mut people = VaccinatedPeople::default();
        let mut index: usize = 0;
        while index < self.rows.len()
            invariant
                index <= self.rows.len(),
                doses_fit(self.rows@),
                people@ == cumulative(self.rows@.take(index as int), age_group, week),
            decreases self.rows.len() - index,
        {
            let row = &self.rows[index];
            proof {
                let next = self.rows@.take(index + 1);
                assert(next.drop_last() =~= self.rows@.take(index as int));
                assert(next.last() == *row);
                lemma_cumulative_bounds(next, age_group, week);
                lemma_cumulative_bounds(next.drop_last(), age_group, week);
                lemma_all_doses_prefix(self.rows@, index + 1);
            }
            if row.year_week <= week && row.age_group.0 == age_group.0 && row.age_group.1
                == age_group.1 {
                people = people.update(row);
            }
            index += 1;
        }
        assert(self.rows@.take(index as int) =~= self.rows@);
        people
    }

    /// The table made of the rows that report for the country as a whole.
    /// There is no table where the doses of those rows, added up, exceed what
    /// a `usize` holds.
    pub fn new(rows: &Vec<VaccinationEcdcRow>) -> (data: Option<VaccinationData>)
        ensures
            data is Some <==> doses_fit(national_rows(rows@)),
            data matches Some(table) ==> table@ == national_rows(rows@),
    {
        let kept = read_vaccinations(rows);
        let mut first: usize = 0;
        let mut second: usize = 0;
        let mut third: usize = 0;
        let mut index: usize = 0;
        while index < kept.len()
            invariant
                index <= kept.len(),
                kept@ == national_rows(rows@),
                all_doses(kept@.take(index as int)) == (first as int, second as int, third as int),
            decreases kept.len() - index,
        {
            proof {
                assert(kept@.take(index + 1).drop_last() =~= kept@.take(index as int));
                lemma_all_doses_prefix(kept@, index + 1);
            }
            let row = &kept[index];
            match (
                first.checked_add(row.first_dose),
                second.checked_add(row.second_dose),
                third.checked_add(row.third_dose),
            ) {
                (Some(a), Some(b), Some(c)) => {
                    first = a;
                    second = b;
                    third = c;
                },
                _ => {
                    return None;
                },
            }
            index += 1;
        }
        assert(kept@.take(index as int) =~= kept@);
        Some(VaccinationData { rows: kept })
    }
}

} // verus!
