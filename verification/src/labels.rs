//! The labels of the vaccination table: ISO weeks and target groups.

use crate::cohort::{AgeGroup, YearWeek};
use crate::text::{decimal_text, decimal_value, parse_decimal, same_text, to_decimal};
use vstd::prelude::*;
use vstd::string::StringExecFns;

verus! {

/// The regex crate's error for a pattern that does not compile.
#[verifier::external_type_specification]
#[verifier::external_body]
pub struct ExRegexError(regex::Error);

/// What the regex crate finds when it compiles `pattern` and searches `text`
/// for its leftmost match: `None` where `pattern` does not compile,
/// `Some(None)` where `text` holds no match, and else the text of each capture
/// group, the whole match being group 0 and a group that took no part being
/// `None`.
pub uninterp spec fn regex_captures(pattern: Seq<char>, text: Seq<char>) -> Option<
    Option<Seq<Option<Seq<char>>>>,
>;

/// `regex::Regex::new` on `pattern`, then `Regex::captures` on `text`, with
/// each group of `Captures::iter` copied out by `Match::as_str`. Claimed: the
/// outcome is a fixed function of the two strings.
#[verifier::external_body]
fn capture_groups(pattern: &str, text: &str) -> (found: Result<
    Option<Vec<Option<String>>>,
    regex::Error,
>)
    ensures
        regex_captures(pattern@, text@) == match found {
            Ok(Some(groups)) => Some(Some(groups.deep_view())),
            Ok(None) => Some(None),
            Err(_) => None,
        },
{
    let compiled = regex::Regex::new(pattern)?;
    Ok(
        compiled.captures(text).map(
            |found| found.iter().map(|group| group.map(|part| part.as_str().to_owned())).collect(),
        ),
    )
}

/// Why a label of the vaccination table was not taken.
#[derive(Debug, PartialEq, Eq, Structural, Clone, Copy)]
pub enum LabelError {
    /// The pattern is no regular expression.
    Pattern,
    /// The text holds no ISO week.
    NoWeek,
    /// The digits of an ISO week do not write a number.
    Number,
    /// A target group that is known and left out of the report on purpose.
    Ignored,
    /// A target group that no age bracket is known for.
    Unmapped,
}

/// The week that the capture groups of a match spell: group 1 its year, group
/// 2 its week, both in ASCII decimal digits, at most nine of them.
pub open spec fn year_week_of_groups(groups: Seq<Option<Seq<char>>>) -> Result<
    YearWeek,
    LabelError,
> {
    if groups.len() < 3 {
        Err(LabelError::NoWeek)
    } else {
        match (groups[1], groups[2]) {
            (Some(year), Some(week)) => match (decimal_value(year), decimal_value(week)) {
                (Some(y), Some(w)) => if 0 < year.len() <= 9 && 0 < week.len() <= 9 {
                    Ok(YearWeek { year: y as u32, week: w as u32 })
                } else {
                    Err(LabelError::Number)
                },
                _ => Err(LabelError::Number),
            },
            _ => Err(LabelError::NoWeek),
        }
    }
}

/// The week that a search for the ISO-week pattern came back with.
pub open spec fn year_week_of_captures(found: Option<Option<Seq<Option<Seq<char>>>>>) -> Result<
    YearWeek,
    LabelError,
> {
    match found {
        None => Err(LabelError::Pattern),
        Some(None) => Err(LabelError::NoWeek),
        Some(Some(groups)) => year_week_of_groups(groups),
    }
}

/// Reads the week out of the capture groups of a match of the ISO-week
/// pattern.
pub fn year_week_from_groups(groups: &Vec<Option<String>>) -> (week: Result<YearWeek, LabelError>)
    ensures
        week == year_week_of_groups(groups.deep_view()),
{
    proof {
        let deep = groups.deep_view();
        assert(deep.len() == groups@.len());
        assert(forall|i: int| 0 <= i < groups@.len() ==> deep[i] == groups@[i].deep_view());
    }
    if groups.len() < 3 {
        return Err(LabelError::NoWeek);
    }
    match (&groups[1], &groups[2]) {
        (Some(year), Some(week)) => {
            match (parse_decimal(year.as_str()), parse_decimal(week.as_str())) {
                (Some(y), Some(w)) => Ok(YearWeek { year: y, week: w }),
                _ => Err(LabelError::Number),
            }
        },
        _ => Err(LabelError::NoWeek),
    }
}

/// Reads the week that the leftmost match of `pattern` in `text` spells, the
/// first group of the pattern holding the year and the second the week.
pub fn year_week_matching(pattern: &str, text: &str) -> (week: Result<YearWeek, LabelError>)
    ensures
        week == year_week_of_captures(regex_captures(pattern@, text@)),
{
    match capture_groups(pattern, text) {
        Ok(Some(groups)) => year_week_from_groups(&groups),
        Ok(None) => Err(LabelError::NoWeek),
        Err(_) => Err(LabelError::Pattern),
    }
}

/// Reads an ISO week written as in `2021-W07`: four digits, `-W`, two digits,
/// anywhere in the text.
pub fn deserialize_year_week(text: &str) -> (week: Result<YearWeek, LabelError>)
    ensures
        week == year_week_of_captures(regex_captures("(\\d{4})-W(\\d{2})"@, text@)),
{
    year_week_matching("(\\d{4})-W(\\d{2})", text)
}

/// The age bracket that a target-group label of the vaccination table stands
/// for. The groups `ALL`, `AgeUNK` and `HCW` are known and carry no bracket;
/// any other label is unmapped.
pub open spec fn age_group_of_label(label: Seq<char>) -> Result<(usize, usize), LabelError> {
    if label == "Age0_4"@ {
        Ok((0usize, 4usize))
    } else if label == "Age5_9"@ {
        Ok((5usize, 9usize))
    } else if label == "Age10_14"@ {
        Ok((10usize, 14usize))
    } else if label == "Age15_17"@ {
        Ok((15usize, 17usize))
    } else if label == "Age18_24"@ {
        Ok((18usize, 24usize))
    } else if label == "Age25_49"@ {
        Ok((25usize, 49usize))
    } else if label == "Age50_59"@ {
        Ok((50usize, 59usize))
    } else if label == "Age60_69"@ {
        Ok((60usize, 69usize))
    } else if label == "Age70_79"@ {
        Ok((70usize, 79usize))
    } else if label == "Age80+"@ {
        Ok((80usize, 120usize))
    } else if label == "ALL"@ || label == "AgeUNK"@ || label == "HCW"@ {
        Err(LabelError::Ignored)
    } else {
        Err(LabelError::Unmapped)
    }
}

/// Reads a target-group label of the vaccination table.
pub fn deserialize_age_group(text: &str) -> (group: Result<(usize, usize), LabelError>)
    ensures
        group == age_group_of_label(text@),
{
    if same_text(text, "Age0_4") {
        Ok((0, 4))
    } else if same_text(text, "Age5_9") {
        Ok((5, 9))
    } else if same_text(text, "Age10_14") {
        Ok((10, 14))
    } else if same_text(text, "Age15_17") {
        Ok((15, 17))
    } else if same_text(text, "Age18_24") {
        Ok((18, 24))
    } else if same_text(text, "Age25_49") {
        Ok((25, 49))
    } else if same_text(text, "Age50_59") {
        Ok((50, 59))
    } else if same_text(text, "Age60_69") {
        Ok((60, 69))
    } else if same_text(text, "Age70_79") {
        Ok((70, 79))
    } else if same_text(text, "Age80+") {
        Ok((80, 120))
    } else if same_text(text, "ALL") || same_text(text, "AgeUNK") || same_text(text, "HCW") {
        Err(LabelError::Ignored)
    } else {
        Err(LabelError::Unmapped)
    }
}

impl YearWeek {
    /// The week as it is written in tables: the year, `W`, and the week in at
    /// least two digits, as in `2021W07`.
    pub open spec fn spec_label(self) -> Seq<char> {
        decimal_text(self.year as nat) + seq!['W'] + (if self.week < 10 {
            seq!['0']
        } else {
            Seq::<char>::empty()
        }) + decimal_text(self.week as nat)
    }

    /// The week as it is written in tables.
    pub fn label(&self) -> (text: String)
        ensures
            text@ == self.spec_label(),
    {
        proof {
            reveal_strlit("W");
            reveal_strlit("0");
            reveal_strlit("");
        }
        let year = to_decimal(self.year as u64);
        let week = to_decimal(self.week as u64);
        let padding = if self.week < 10 {
            "0"
        } else {
            ""
        };
        let text = year.concat("W").concat(padding).concat(week.as_str());
        assert(text@ =~= self.spec_label());
        text
    }
}

impl AgeGroup {
    /// The bracket as it is written in tables: its two ends with a dash
    /// between them, as in `50 - 59`.
    pub open spec fn spec_label(self) -> Seq<char> {
        decimal_text(self.low as nat) + seq![' ', '-', ' '] + decimal_text(self.high as nat)
    }

    /// The bracket as it is written in tables.
    pub fn label(&self) -> (text: String)
        ensures
            text@ == self.spec_label(),
    {
        proof {
            reveal_strlit(" - ");
        }
        let low = to_decimal(self.low as u64);
        let high = to_decimal(self.high as u64);
        let text = low.concat(" - ").concat(high.as_str());
        assert(text@ =~= self.spec_label());
        text
    }
}

} // verus!
