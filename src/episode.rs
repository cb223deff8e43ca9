//! The episodes a hero appears in, stored as small integers and exchanged by
//! their symbolic names.
use vstd::prelude::*;
use crate::expr::{SqlValue, SqlValueModel};
use crate::input::{FilterValue, InputModel, InputValue};

verus! {

#[allow(non_camel_case_types)]
#[derive(Debug, Clone, Copy, PartialEq, Eq, Hash, Structural)]
pub enum Episode {
    NEWHOPE,
    EMPIRE,
    JEDI,
}

impl View for Episode {
    type V = Episode;

    open spec fn view(&self) -> Episode {
        *self
    }
}

/// The stored code of an episode.
pub open spec fn episode_code(e: Episode) -> i16 {
    match e {
        Episode::NEWHOPE => 1,
        Episode::EMPIRE => 2,
        Episode::JEDI => 3,
    }
}

/// The symbolic name of an episode.
pub open spec fn episode_name(e: Episode) -> Seq<char> {
    match e {
        Episode::NEWHOPE => "NEWHOPE"@,
        Episode::EMPIRE => "EMPIRE"@,
        Episode::JEDI => "JEDI"@,
    }
}

/// The episode whose symbolic name is `s`, if any.
pub open spec fn episode_named(s: Seq<char>) -> Option<Episode> {
    if s == "NEWHOPE"@ {
        Some(Episode::NEWHOPE)
    } else if s == "EMPIRE"@ {
        Some(Episode::EMPIRE)
    } else if s == "JEDI"@ {
        Some(Episode::JEDI)
    } else {
        None
    }
}

impl Episode {
    /// The stored code: 1, 2 or 3.
    pub fn to_sql(&self) -> (r: i16)
        ensures
            r == episode_code(*self),
    {
        match self {
            Episode::NEWHOPE => 1,
            Episode::EMPIRE => 2,
            Episode::JEDI => 3,
        }
    }

    /// The episode stored as `v`; codes other than 1, 2 and 3 name none.
    pub fn from_sql(v: i16) -> (r: Option<Episode>)
        ensures
            r is Some <==> 1 <= v <= 3,
            r matches Some(e) ==> episode_code(e) == v,
    {
        if v == 1 {
            Some(Episode::NEWHOPE)
        } else if v == 2 {
            Some(Episode::EMPIRE)
        } else if v == 3 {
            Some(Episode::JEDI)
        } else {
            None
        }
    }

    /// The symbolic name.
    pub fn name(&self) -> (r: String)
        ensures
            r@ == episode_name(*self),
    {
        match self {
            Episode::NEWHOPE => "NEWHOPE".to_owned(),
            Episode::EMPIRE => "EMPIRE".to_owned(),
            Episode::JEDI => "JEDI".to_owned(),
        }
    }

    /// The episode with the symbolic name `s`, if any.
    pub fn from_name(s: &String) -> (r: Option<Episode>)
        ensures
            r == episode_named(s@),
    {
        if *s == "NEWHOPE".to_owned() {
            Some(Episode::NEWHOPE)
        } else if *s == "EMPIRE".to_owned() {
            Some(Episode::EMPIRE)
        } else if *s == "JEDI".to_owned() {
            Some(Episode::JEDI)
        } else {
            None
        }
    }
}

/// Each code maps back to the episode that it was written for.
pub proof fn lemma_code_round_trip(e: Episode)
    ensures
        1 <= episode_code(e) <= 3,
        forall|f: Episode| episode_code(f) == episode_code(e) ==> f == e,
{
}

impl FilterValue for Episode {
    open spec fn sql_of(v: Episode) -> SqlValueModel {
        SqlValueModel::SmallInt(episode_code(v))
    }

    open spec fn input_of(v: Episode) -> InputModel {
        InputModel::Enum(episode_name(v))
    }

    open spec fn read_input(i: InputModel) -> Option<Episode> {
        match i {
            InputModel::Enum(s) => episode_named(s),
            _ => None,
        }
    }

    fn to_sql_value(&self) -> (r: SqlValue) {
        SqlValue::SmallInt(self.to_sql())
    }

    fn copy_value(&self) -> (r: Episode) {
        *self
    }

    fn to_input_value(&self) -> (r: InputValue) {
        InputValue::Enum(self.name())
    }

    fn from_input_value(i: &InputValue) -> (r: Option<Episode>) {
        match i {
            InputValue::Enum(s) => Episode::from_name(s),
            _ => None,
        }
    }

    proof fn lemma_input_round_trip(v: Episode) {
        reveal_strlit("NEWHOPE");
        reveal_strlit("EMPIRE");
        reveal_strlit("JEDI");
        assert("NEWHOPE"@ != "EMPIRE"@ && "NEWHOPE"@ != "JEDI"@ && "EMPIRE"@ != "JEDI"@) by {
            assert("NEWHOPE"@.len() != "EMPIRE"@.len());
            assert("NEWHOPE"@.len() != "JEDI"@.len());
            assert("EMPIRE"@.len() != "JEDI"@.len());
        }
    }
}

} // verus!
