//! Deaths and reported infections, counted by week, age bracket and
//! vaccination status.

use crate::calendar::Date;
use crate::cohort::{AgeGroup, YearWeek};
use crate::text::same_text;
use vstd::prelude::*;

verus! {

/// How far a person was vaccinated when the event was reported.
#[derive(Debug, PartialEq, Eq, Structural, Clone, Copy)]
pub enum VaccinationStatus {
    Unvaccinated,
    OneDose,
    TwoDoses,
    ThreeDoses,
}

impl VaccinationStatus {
    /// The status that a label of the registers stands for. The registers
    /// use several words for the second and for the third dose.
    pub open spec fn of_label(label: Seq<char>) -> Option<VaccinationStatus> {
        if label == ""@ {
            Some(VaccinationStatus::Unvaccinated)
        } else if label == "jedna_dawka"@ {
            Some(VaccinationStatus::OneDose)
        } else if label == "TwoDoses"@ || label == "dwie_dawki"@ || label == "pelna_dawka"@ {
            Some(VaccinationStatus::TwoDoses)
        } else if label == "ThreeDoses"@ || label == "uzupełniajšca"@ || label
            == "przypominajaca"@ {
            Some(VaccinationStatus::ThreeDoses)
        } else {
            None
        }
    }

    /// Reads the status from a label of the registers.
    pub fn from_label(text: &str) -> (status: Option<VaccinationStatus>)
        ensures
            status == Self::of_label(text@),
    {
        if same_text(text, "") {
            Some(VaccinationStatus::Unvaccinated)
        } else if same_text(text, "jedna_dawka") {
            Some(VaccinationStatus::OneDose)
        } else if same_text(text, "TwoDoses") || same_text(text, "dwie_dawki") || same_text(
            text,
            "pelna_dawka",
        ) {
            Some(VaccinationStatus::TwoDoses)
        } else if same_text(text, "ThreeDoses") || same_text(text, "uzupełniajšca") || same_text(
            text,
            "przypominajaca",
        ) {
            Some(VaccinationStatus::ThreeDoses)
        } else {
            None
        }
    }
}

/// One death in the register.
#[derive(Debug, PartialEq, Eq, Structural, Clone, Copy)]
pub struct CovidDeath {
    pub date: Date,
    pub age: usize,
    pub vaccination_status: VaccinationStatus,
}

/// Infections reported on one day for one age and one vaccination status.
#[derive(Debug, PartialEq, Eq, Structural, Clone, Copy)]
pub struct Cases {
    pub date: Date,
    pub age: usize,
    pub vaccination_status: VaccinationStatus,
    pub count: usize,
}

/// Whether an event that fell in the week `found`, at the age `age` and with
/// the status `status`, belongs to `week`, `age_group` and
/// `vaccination_status`. An event whose day has no week belongs nowhere.
pub open spec fn event_matches(
    found: Option<YearWeek>,
    age: usize,
    status: VaccinationStatus,
    week: YearWeek,
    age_group: AgeGroup,
    vaccination_status: VaccinationStatus,
) -> bool {
    &&& found == Some(week)
    &&& age_group.spec_includes(age as int)
    &&& status == vaccination_status
}

/// Whether an event that fell in the week `found`, at the age `age` and with
/// the status `status`, belongs to `week`, `age_group` and
/// `vaccination_status`.
pub fn event_belongs_to(
    found: Option<YearWeek>,
    age: usize,
    status: VaccinationStatus,
    week: YearWeek,
    age_group: AgeGroup,
    vaccination_status: VaccinationStatus,
) -> (belongs: bool)
    ensures
        belongs == event_matches(found, age, status, week, age_group, vaccination_status),
{
    match found {
        Some(fell_in) => fell_in == week && age_group.includes(age) && status
            == vaccination_status,
        None => false,
    }
}

impl CovidDeath {
    /// Whether the death belongs to the given week, bracket and status.
    pub open spec fn belongs_to(
        self,
        week: YearWeek,
        age_group: AgeGroup,
        vaccination_status: VaccinationStatus,
    ) -> bool {
        event_matches(
            self.date.spec_year_week(),
            self.age,
            self.vaccination_status,
            week,
            age_group,
            vaccination_status,
        )
    }
}

impl Cases {
    /// Whether the infections belong to the given week, bracket and status.
    pub open spec fn belongs_to(
        self,
        week: YearWeek,
        age_group: AgeGroup,
        vaccination_status: VaccinationStatus,
    ) -> bool {
        event_matches(
            self.date.spec_year_week(),
            self.age,
            self.vaccination_status,
            week,
            age_group,
            vaccination_status,
        )
    }
}

/// How many deaths belong to the given week, bracket and status.
pub open spec fn deaths_counted(
    deaths: Seq<CovidDeath>,
    week: YearWeek,
    age_group: AgeGroup,
    vaccination_status: VaccinationStatus,
) -> nat
    decreases deaths.len(),
{
    if deaths.len() == 0 {
        0
    } else {
        let before = deaths_counted(deaths.drop_last(), week, age_group, vaccination_status);
        if deaths.last().belongs_to(week, age_group, vaccination_status) {
            before + 1
        } else {
            before
        }
    }
}

/// How many infections belong to the given week, bracket and status.
pub open spec fn cases_counted(
    cases: Seq<Cases>,
    week: YearWeek,
    age_group: AgeGroup,
    vaccination_status: VaccinationStatus,
) -> nat
    decreases cases.len(),
{
    if cases.len() == 0 {
        0
    } else {
        let before = cases_counted(cases.drop_last(), week, age_group, vaccination_status);
        if cases.last().belongs_to(week, age_group, vaccination_status) {
            before + cases.last().count as nat
        } else {
            before
        }
    }
}

/// All the infections of a register.
pub open spec fn all_cases(cases: Seq<Cases>) -> nat
    decreases cases.len(),
{
    if cases.len() == 0 {
        0
    } else {
        all_cases(cases.drop_last()) + cases.last().count as nat
    }
}

/// The deaths counted in two registers put together are those counted in the
/// one and in the other: the count does not depend on the order of the
/// entries.
pub proof fn lemma_deaths_counted_concat(
    one: Seq<CovidDeath>,
    other: Seq<CovidDeath>,
    week: YearWeek,
    age_group: AgeGroup,
    vaccination_status: VaccinationStatus,
)
    ensures
        deaths_counted(one + other, week, age_group, vaccination_status) == deaths_counted(
            one,
            week,
            age_group,
            vaccination_status,
        ) + deaths_counted(other, week, age_group, vaccination_status),
        deaths_counted(one + other, week, age_group, vaccination_status) == deaths_counted(
            other + one,
            week,
            age_group,
            vaccination_status,
        ),
    decreases one.len() + other.len(),
{
    if other.len() == 0 {
        assert(one + other =~= one);
        assert(other + one =~= one);
    } else if one.len() == 0 {
        assert(one + other =~= other);
        assert(other + one =~= other);
    } else {
        assert((one + other).drop_last() =~= one + other.drop_last());
        assert((other + one).drop_last() =~= other + one.drop_last());
        lemma_deaths_counted_concat(one, other.drop_last(), week, age_group, vaccination_status);
        lemma_deaths_counted_concat(one.drop_last(), other, week, age_group, vaccination_status);
    }
}

/// The infections counted in two registers put together are those counted in
/// the one and in the other: the sum does not depend on the order of the
/// entries.
pub proof fn lemma_cases_counted_concat(
    one: Seq<Cases>,
    other: Seq<Cases>,
    week: YearWeek,
    age_group: AgeGroup,
    vaccination_status: VaccinationStatus,
)
    ensures
        cases_counted(one + other, week, age_group, vaccination_status) == cases_counted(
            one,
            week,
            age_group,
            vaccination_status,
        ) + cases_counted(other, week, age_group, vaccination_status),
        cases_counted(one + other, week, age_group, vaccination_status) == cases_counted(
            other + one,
            week,
            age_group,
            vaccination_status,
        ),
    decreases one.len() + other.len(),
{
    if other.len() == 0 {
        assert(one + other =~= one);
        assert(other + one =~= one);
    } else if one.len() == 0 {
        assert(one + other =~= other);
        assert(other + one =~= other);
    } else {
        assert((one + other).drop_last() =~= one + other.drop_last());
        assert((other + one).drop_last() =~= other + one.drop_last());
        lemma_cases_counted_concat(one, other.drop_last(), week, age_group, vaccination_status);
        lemma_cases_counted_concat(one.drop_last(), other, week, age_group, vaccination_status);
    }
}

/// No more infections are counted than the register lists.
pub proof fn lemma_cases_counted_bound(
    cases: Seq<Cases>,
    week: YearWeek,
    age_group: AgeGroup,
    vaccination_status: VaccinationStatus,
)
    ensures
        cases_counted(cases, week, age_group, vaccination_status) <= all_cases(cases),
    decreases cases.len(),
{
    if cases.len() > 0 {
        lemma_cases_counted_bound(cases.drop_last(), week, age_group, vaccination_status);
    }
}

/// The first entries of a register hold no more infections than the whole.
pub proof fn lemma_all_cases_prefix(cases: Seq<Cases>, length: int)
    requires
        0 <= length <= cases.len(),
    ensures
        all_cases(cases.take(length)) <= all_cases(cases),
    decreases cases.len(),
{
    if length == cases.len() {
        assert(cases.take(length) =~= cases);
    } else {
        assert(cases.drop_last().take(length) =~= cases.take(length));
        lemma_all_cases_prefix(cases.drop_last(), length);
    }
}

/// The register of deaths.
pub struct DeathsData {
    total_deaths: usize,
    deaths: Vec<CovidDeath>,
}

impl View for DeathsData {
    type V = Seq<CovidDeath>;

    closed spec fn view(&self) -> Seq<CovidDeath> {
        self.deaths@
    }
}

impl DeathsData {
    #[verifier::type_invariant]
    spec fn counted(self) -> bool {
        self.total_deaths == self.deaths@.len()
    }

    /// The register that lists `deaths`.
    pub fn new(deaths: Vec<CovidDeath>) -> (data: DeathsData)
        ensures
            data@ == deaths@,
    {
        DeathsData { total_deaths: deaths.len(), deaths }
    }

    /// How many deaths the register lists.
    pub fn total_deaths(&self) -> (total: usize)
        ensures
            total == self@.len(),
    {
        proof {
            use_type_invariant(self);
        }
        self.total_deaths
    }

    /// How many deaths of the register belong to the given week, bracket and
    /// status.
    pub fn by_vaccination_status(
        &self,
        week: YearWeek,
        age_group: AgeGroup,
        vaccination_status: VaccinationStatus,
    ) -> (count: usize)
        ensures
            count == deaths_counted(self@, week, age_group, vaccination_status),
    {
        let mut count: usize = 0;
        let mut index: usize = 0;
        while index < self.deaths.len()
            invariant
                index <= self.deaths.len(),
                count <= index,
                count == deaths_counted(
                    self.deaths@.take(index as int),
                    week,
                    age_group,
                    vaccination_status,
                ),
            decreases self.deaths.len() - index,
        {
            let death = &self.deaths[index];
            proof {
                assert(self.deaths@.take(index + 1).drop_last() =~= self.deaths@.take(
                    index as int,
                ));
            }
            if event_belongs_to(
                death.date.year_week(),
                death.age,
                death.vaccination_status,
                week,
                age_group,
                vaccination_status,
            ) {
                count += 1;
            }
            index += 1;
        }
        assert(self.deaths@.take(index as int) =~= self.deaths@);
        count
    }
}

/// The register of reported infections.
pub struct InfectionsData {
    cases: Vec<Cases>,
}

impl View for InfectionsData {
    type V = Seq<Cases>;

    closed spec fn view(&self) -> Seq<Cases> {
        self.cases@
    }
}

impl InfectionsData {
    #[verifier::type_invariant]
    spec fn within_limits(self) -> bool {
        all_cases(self.cases@) <= usize::MAX
    }

    /// The register that lists `cases`. There is no register where the
    /// infections, added up, exceed what a `usize` holds.
    pub fn new(cases: Vec<Cases>) -> (data: Option<InfectionsData>)
        ensures
            data is Some <==> all_cases(cases@) <= usize::MAX,
            data matches Some(register) ==> register@ == cases@,
    {
        let mut total: usize = 0;
        let mut index: usize = 0;
        while index < cases.len()
            invariant
                index <= cases.len(),
                total == all_cases(cases@.take(index as int)),
            decreases cases.len() - index,
        {
            proof {
                assert(cases@.take(index + 1).drop_last() =~= cases@.take(index as int));
                lemma_all_cases_prefix(cases@, index + 1);
            }
            match total.checked_add(cases[index].count) {
                Some(more) => {
                    total = more;
                },
                None => {
                    return None;
                },
            }
            index += 1;
        }
        assert(cases@.take(index as int) =~= cases@);
        Some(InfectionsData { cases })
    }

    /// The entries of the register.
    pub fn cases(&self) -> (cases: &Vec<Cases>)
        ensures
            cases@ == self@,
    {
        &self.cases
    }

    /// How many infections of the register belong to the given week, bracket
    /// and status.
    pub fn by_vaccination_status(
        &self,
        week: YearWeek,
        age_group: AgeGroup,
        vaccination_status: VaccinationStatus,
    ) -> (count: usize)
        ensures
            count == cases_counted(self@, week, age_group, vaccination_status),
    {
        proof {
            use_type_invariant(self);
        }
        let mut count: usize = 0;
        let mut index: usize = 0;
        while index < self.cases.len()
            invariant
                index <= self.cases.len(),
                all_cases(self.cases@) <= usize::MAX,
                count == cases_counted(
                    self.cases@.take(index as int),
                    week,
                    age_group,
                    vaccination_status,
                ),
            decreases self.cases.len() - index,
        {
            let entry = &self.cases[index];
            proof {
                let next = self.cases@.take(index + 1);
                assert(next.drop_last() =~= self.cases@.take(index as int));
                lemma_cases_counted_bound(next, week, age_group, vaccination_status);
                lemma_all_cases_prefix(self.cases@, index + 1);
            }
            if event_belongs_to(
                entry.date.year_week(),
                entry.age,
                entry.vaccination_status,
                week,
                age_group,
                vaccination_status,
            ) {
                count += entry.count;
            }
            index += 1;
        }
        assert(self.cases@.take(index as int) =~= self.cases@);
        count
    }

    /// The latest week for which the register lists infections, if it lists
    /// any with a week.
    pub fn max_week(&self) -> (latest: Option<YearWeek>)
        ensures
            latest is None <==> forall|i: int|
                0 <= i < self@.len() ==> (#[trigger] self@[i]).date.spec_year_week() is None,
            latest matches Some(week) ==> {
                &&& exists|i: int|
                    0 <= i < self@.len() && (#[trigger] self@[i]).date.spec_year_week() == Some(
                        week,
                    )
                &&& forall|i: int|
                    0 <= i < self@.len() ==> ((#[trigger] self@[i]).date.spec_year_week() matches Some(
                        other,
                    ) ==> other.not_after(week))
            },
    {
        let mut latest: Option<YearWeek> = None;
        let mut index: usize = 0;
        while index < self.cases.len()
            invariant
                index <= self.cases.len(),
                latest is None <==> forall|i: int|
                    0 <= i < index ==> (#[trigger] self.cases@[i]).date.spec_year_week() is None,
                latest matches Some(week) ==> {
                    &&& exists|i: int|
                        0 <= i < index && (#[trigger] self.cases@[i]).date.spec_year_week()
                            == Some(week)
                    &&& forall|i: int|
                        0 <= i < index ==> ((#[trigger] self.cases@[i]).date.spec_year_week() matches Some(
                            other,
                        ) ==> other.not_after(week))
                },
            decreases self.cases.len() - index,
        {
            match self.cases[index].date.year_week() {
                Some(found) => {
                    let later = match latest {
                        Some(week) => week < found,
                        None => true,
                    };
                    if later {
                        latest = Some(found);
                    }
                },
                None => {},
            }
            index += 1;
        }
        latest
    }
}

} // verus!
