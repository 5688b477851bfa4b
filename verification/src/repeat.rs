//! How often a task comes back: a closed set of policies, each with a short
//! textual code that parses back to the same policy.

use vstd::prelude::*;
use vstd::string::*;
use crate::text::{str_eq, has_prefix, drop_chars, starts_with};

verus! {

/// What a monthly repetition is anchored to.
#[derive(Clone, Copy, Debug, PartialEq, Eq, Structural)]
pub enum MonthlyAnchor {
    /// The same day of the month, such as the 14th.
    DayOfMonth,
    /// The same weekday in the same week of the month, such as the second Tuesday.
    DayOfWeek,
}

/// The repeat policy of a task.
#[derive(Clone, Debug, PartialEq, Eq)]
pub enum Repeat {
    Never,
    Daily,
    Weekly,
    Monthly(MonthlyAnchor),
    Yearly,
    /// A free description of the interval, such as "every 3 days".
    Custom(String),
}

/// The mathematical value of a `Repeat`.
pub enum RepeatModel {
    Never,
    Daily,
    Weekly,
    Monthly(MonthlyAnchor),
    Yearly,
    Custom(Seq<char>),
}

/// Why a text is no repeat policy.
#[derive(Clone, Copy, Debug, PartialEq, Eq, Structural)]
pub enum RepeatError {
    /// The text is none of the codes.
    Unrecognized,
}

impl View for Repeat {
    type V = RepeatModel;

    open spec fn view(&self) -> RepeatModel {
        match self {
            Repeat::Never => RepeatModel::Never,
            Repeat::Daily => RepeatModel::Daily,
            Repeat::Weekly => RepeatModel::Weekly,
            Repeat::Monthly(a) => RepeatModel::Monthly(*a),
            Repeat::Yearly => RepeatModel::Yearly,
            Repeat::Custom(d) => RepeatModel::Custom(d@),
        }
    }
}

/// The code that a policy is written as.
pub open spec fn code_of(m: RepeatModel) -> Seq<char> {
    match m {
        RepeatModel::Never => "never"@,
        RepeatModel::Daily => "daily"@,
        RepeatModel::Weekly => "weekly"@,
        RepeatModel::Monthly(MonthlyAnchor::DayOfMonth) => "monthly"@,
        RepeatModel::Monthly(MonthlyAnchor::DayOfWeek) => "monthly-weekday"@,
        RepeatModel::Yearly => "yearly"@,
        RepeatModel::Custom(d) => "custom:"@ + d,
    }
}

/// The policy that a text stands for, if any. The empty text stands for
/// `Never`; a text that begins with `custom:` carries the rest as its
/// description.
pub open spec fn policy_of(s: Seq<char>) -> Option<RepeatModel> {
    if s.len() == 0 || s == "never"@ {
        Some(RepeatModel::Never)
    } else if s == "daily"@ {
        Some(RepeatModel::Daily)
    } else if s == "weekly"@ {
        Some(RepeatModel::Weekly)
    } else if s == "monthly"@ {
        Some(RepeatModel::Monthly(MonthlyAnchor::DayOfMonth))
    } else if s == "monthly-weekday"@ {
        Some(RepeatModel::Monthly(MonthlyAnchor::DayOfWeek))
    } else if s == "yearly"@ {
        Some(RepeatModel::Yearly)
    } else if starts_with(s, "custom:"@) {
        Some(RepeatModel::Custom(s.subrange(7, s.len() as int)))
    } else {
        None
    }
}

impl Repeat {
    /// Reads a policy from its code; any other text is an error.
    pub fn parse_from_str(s: &str) -> (r: Result<Repeat, RepeatError>)
        ensures
            match policy_of(s@) {
                Some(m) => r is Ok && r.unwrap()@ == m,
                None => r == Err::<Repeat, RepeatError>(RepeatError::Unrecognized),
            },
    {
        proof {
            reveal_strlit("custom:");
        }
        if s.is_empty() || str_eq(s, "never") {
            Ok(Repeat::Never)
        } else if str_eq(s, "daily") {
            Ok(Repeat::Daily)
        } else if str_eq(s, "weekly") {
            Ok(Repeat::Weekly)
        } else if str_eq(s, "monthly") {
            Ok(Repeat::Monthly(MonthlyAnchor::DayOfMonth))
        } else if str_eq(s, "monthly-weekday") {
            Ok(Repeat::Monthly(MonthlyAnchor::DayOfWeek))
        } else if str_eq(s, "yearly") {
            Ok(Repeat::Yearly)
        } else if has_prefix(s, "custom:") {
            Ok(Repeat::Custom(drop_chars(s, 7)))
        } else {
            Err(RepeatError::Unrecognized)
        }
    }

    /// Writes the policy as its code.
    pub fn to_string(&self) -> (s: String)
        ensures
            s@ == code_of(self@),
    {
        match self {
            Repeat::Never => String::from_str("never"),
            Repeat::Daily => String::from_str("daily"),
            Repeat::Weekly => String::from_str("weekly"),
            Repeat::Monthly(MonthlyAnchor::DayOfMonth) => String::from_str("monthly"),
            Repeat::Monthly(MonthlyAnchor::DayOfWeek) => String::from_str("monthly-weekday"),
            Repeat::Yearly => String::from_str("yearly"),
            Repeat::Custom(d) => String::from_str("custom:").concat(d.as_str()),
        }
    }
}

impl RepeatError {
    /// The message shown to the user.
    pub fn message(&self) -> (s: String)
        ensures
            s@ == "Invalid repeat format"@,
    {
        String::from_str("Invalid repeat format")
    }
}

/// Reading the code of a policy gives the policy back.
pub proof fn lemma_code_round_trip(m: RepeatModel)
    ensures
        policy_of(code_of(m)) == Some(m),
{
    reveal_strlit("never");
    reveal_strlit("daily");
    reveal_strlit("weekly");
    reveal_strlit("monthly");
    reveal_strlit("monthly-weekday");
    reveal_strlit("yearly");
    reveal_strlit("custom:");
    let s = code_of(m);
    match m {
        RepeatModel::Custom(d) => {
            assert(s.len() == 7 + d.len());
            assert(s[0] == 'c');
            assert("never"@[0] == 'n');
            assert("daily"@[0] == 'd');
            assert("weekly"@[0] == 'w');
            assert("monthly"@[0] == 'm');
            assert("monthly-weekday"@[0] == 'm');
            assert("yearly"@[0] == 'y');
            assert(s.subrange(0, 7) =~= "custom:"@);
            assert(s.subrange(7, s.len() as int) =~= d);
        },
        RepeatModel::Never => {},
        RepeatModel::Daily => {
            assert(s[0] == 'd');
            assert("never"@[0] == 'n');
        },
        RepeatModel::Weekly => {
            assert(s[0] == 'w');
            assert("never"@[0] == 'n');
            assert("daily"@[0] == 'd');
        },
        RepeatModel::Monthly(a) => {
            assert(s[0] == 'm');
            assert("never"@[0] == 'n');
            assert("daily"@[0] == 'd');
            assert("weekly"@[0] == 'w');
            assert("monthly"@.len() == 7);
            assert("monthly-weekday"@.len() == 15);
        },
        RepeatModel::Yearly => {
            assert(s[0] == 'y');
            assert("never"@[0] == 'n');
            assert("daily"@[0] == 'd');
            assert("weekly"@[0] == 'w');
            assert("monthly"@[0] == 'm');
            assert("monthly-weekday"@[0] == 'm');
        },
    }
}

} // verus!
