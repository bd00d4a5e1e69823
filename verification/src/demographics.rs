//! The population by single year of age.

use crate::cohort::AgeGroup;
use vstd::prelude::*;

verus! {

/// The people counted in all the entries of a table of ages and head counts.
pub open spec fn people(entries: Seq<(usize, usize)>) -> nat
    decreases entries.len(),
{
    if entries.len() == 0 {
        0
    } else {
        people(entries.drop_last()) + entries.last().1 as nat
    }
}

/// The people counted in the entries whose age lies in `age_group`.
pub open spec fn people_of(entries: Seq<(usize, usize)>, age_group: AgeGroup) -> nat
    decreases entries.len(),
{
    if entries.len() == 0 {
        0
    } else if age_group.spec_includes(entries.last().0 as int) {
        people_of(entries.drop_last(), age_group) + entries.last().1 as nat
    } else {
        people_of(entries.drop_last(), age_group)
    }
}

/// Whether no age has two entries.
pub open spec fn ages_distinct(entries: Seq<(usize, usize)>) -> bool {
    forall|i: int, j: int|
        0 <= i < j < entries.len() ==> (#[trigger] entries[i]).0 != (#[trigger] entries[j]).0
}

/// An age bracket holds no more people than the whole table.
pub proof fn lemma_people_of_bound(entries: Seq<(usize, usize)>, age_group: AgeGroup)
    ensures
        people_of(entries, age_group) <= people(entries),
    decreases entries.len(),
{
    if entries.len() > 0 {
        lemma_people_of_bound(entries.drop_last(), age_group);
    }
}

/// The first entries of a table hold no more people than the whole.
pub proof fn lemma_people_prefix(entries: Seq<(usize, usize)>, length: int)
    requires
        0 <= length <= entries.len(),
    ensures
        people(entries.take(length)) <= people(entries),
    decreases entries.len(),
{
    if length == entries.len() {
        assert(entries.take(length) =~= entries);
    } else {
        assert(entries.drop_last().take(length) =~= entries.take(length));
        lemma_people_prefix(entries.drop_last(), length);
    }
}

/// Whether the age of entry `index` has an entry before it.
fn age_listed_before(entries: &Vec<(usize, usize)>, index: usize) -> (found: bool)
    requires
        index < entries.len(),
    ensures
        found == exists|i: int| 0 <= i < index && (#[trigger] entries@[i]).0 == entries@[index as int].0,
{
    let mut earlier: usize = 0;
    while earlier < index
        invariant
            earlier <= index < entries.len(),
            forall|i: int| 0 <= i < earlier ==> (#[trigger] entries@[i]).0 != entries@[index as int].0,
        decreases index - earlier,
    {
        if entries[earlier].0 == entries[index].0 {
            return true;
        }
        earlier += 1;
    }
    false
}

/// Why a table of ages was not made.
#[derive(Debug, PartialEq, Eq, Structural, Clone, Copy)]
pub enum DemographicsError {
    /// An age has two entries.
    DuplicateAge,
    /// The table counts more people than a `usize` holds.
    TooManyPeople,
}

/// How many people there are of each age.
pub struct AgeDistribution {
    ages: Vec<(usize, usize)>,
}

impl View for AgeDistribution {
    type V = Seq<(usize, usize)>;

    closed spec fn view(&self) -> Seq<(usize, usize)> {
        self.ages@
    }
}

impl AgeDistribution {
    #[verifier::type_invariant]
    spec fn well_formed(self) -> bool {
        ages_distinct(self.ages@) && people(self.ages@) <= usize::MAX
    }

    /// The table made of `entries`, each an age and the number of people of
    /// that age. There is no table where an age has two entries, nor where the
    /// people, added up, exceed what a `usize` holds.
    pub fn new(entries: Vec<(usize, usize)>) -> (table: Result<AgeDistribution, DemographicsError>)
        ensures
            table matches Ok(made) ==> made@ == entries@,
            table is Ok <==> ages_distinct(entries@) && people(entries@) <= usize::MAX,
            table matches Err(error) ==> error == (if ages_distinct(entries@) {
                DemographicsError::TooManyPeople
            } else {
                DemographicsError::DuplicateAge
            }),
    {
        let mut index: usize = 0;
        while index < entries.len()
            invariant
                index <= entries.len(),
                ages_distinct(entries@.take(index as int)),
            decreases entries.len() - index,
        {
            if age_listed_before(&entries, index) {
                return Err(DemographicsError::DuplicateAge);
            }
            index += 1;
        }
        assert(entries@.take(index as int) =~= entries@);
        let mut total: usize = 0;
        let mut index: usize = 0;
        while index < entries.len()
            invariant
                index <= entries.len(),
                ages_distinct(entries@),
                total == people(entries@.take(index as int)),
            decreases entries.len() - index,
        {
            proof {
                assert(entries@.take(index + 1).drop_last() =~= entries@.take(index as int));
                lemma_people_prefix(entries@, index + 1);
            }
            match total.checked_add(entries[index].1) {
                Some(more) => {
                    total = more;
                },
                None => {
                    return Err(DemographicsError::TooManyPeople);
                },
            }
            index += 1;
        }
        assert(entries@.take(index as int) =~= entries@);
        Ok(AgeDistribution { ages: entries })
    }

    /// How many people there are in all.
    pub fn population(&self) -> (total: usize)
        ensures
            total == people(self@),
    {
        proof {
            use_type_invariant(self);
        }
        let mut total: usize = 0;
        let mut index: usize = 0;
        while index < self.ages.len()
            invariant
                index <= self.ages.len(),
                people(self.ages@) <= usize::MAX,
                total == people(self.ages@.take(index as int)),
            decreases self.ages.len() - index,
        {
            proof {
                assert(self.ages@.take(index + 1).drop_last() =~= self.ages@.take(index as int));
                lemma_people_prefix(self.ages@, index + 1);
            }
            total += self.ages[index].1;
            index += 1;
        }
        assert(self.ages@.take(index as int) =~= self.ages@);
        total
    }

    /// How many people there are of the ages in `age_group`.
    pub fn population_of(&self, age_group: AgeGroup) -> (total: usize)
        ensures
            total == people_of(self@, age_group),
    {
        proof {
            use_type_invariant(self);
        }
        let mut total: usize = 0;
        let mut index: usize = 0;
        while index < self.ages.len()
            invariant
                index <= self.ages.len(),
                people(self.ages@) <= usize::MAX,
                total == people_of(self.ages@.take(index as int), age_group),
            decreases self.ages.len() - index,
        {
            proof {
                let next = self.ages@.take(index + 1);
                assert(next.drop_last() =~= self.ages@.take(index as int));
                lemma_people_of_bound(next, age_group);
                lemma_people_prefix(self.ages@, index + 1);
            }
            if age_group.includes(self.ages[index].0) {
                total += self.ages[index].1;
            }
            index += 1;
        }
        assert(self.ages@.take(index as int) =~= self.ages@);
        total
    }
}

} // verus!
