//! Role conditions: which player stat is compared, how, and against what.
use vstd::prelude::*;

use crate::json::{JsonValue, JsonValueView};
use crate::text::str_eq;

verus! {

/// A player stat that a role condition can test.
#[derive(Debug, Clone, Copy, PartialEq, Eq, Structural)]
pub enum ConditionField {
    Level,
    WorldLevel,
    FinishAchievementNum,
    SpiralAbyss,
    TowerStarIndex,
    FetterCount,
    Region,
    HasAvatar,
    HasNameCard,
}

/// The comparison a role condition applies.
#[derive(Debug, Clone, Copy, PartialEq, Eq, Structural)]
pub enum ConditionOperator {
    Eq,
    Gt,
    Gte,
    Lt,
    Lte,
    Between,
}

/// The key of a field in player data and in configuration forms.
pub open spec fn field_key(f: ConditionField) -> Seq<char> {
    match f {
        ConditionField::Level => "level"@,
        ConditionField::WorldLevel => "worldLevel"@,
        ConditionField::FinishAchievementNum => "finishAchievementNum"@,
        ConditionField::SpiralAbyss => "spiralAbyss"@,
        ConditionField::TowerStarIndex => "towerStarIndex"@,
        ConditionField::FetterCount => "fetterCount"@,
        ConditionField::Region => "region"@,
        ConditionField::HasAvatar => "hasAvatar"@,
        ConditionField::HasNameCard => "hasNameCard"@,
    }
}

/// The field whose key is `k`, if any.
pub open spec fn field_from_key(k: Seq<char>) -> Option<ConditionField> {
    if k == "level"@ {
        Some(ConditionField::Level)
    } else if k == "worldLevel"@ {
        Some(ConditionField::WorldLevel)
    } else if k == "finishAchievementNum"@ {
        Some(ConditionField::FinishAchievementNum)
    } else if k == "spiralAbyss"@ {
        Some(ConditionField::SpiralAbyss)
    } else if k == "towerStarIndex"@ {
        Some(ConditionField::TowerStarIndex)
    } else if k == "fetterCount"@ {
        Some(ConditionField::FetterCount)
    } else if k == "region"@ {
        Some(ConditionField::Region)
    } else if k == "hasAvatar"@ {
        Some(ConditionField::HasAvatar)
    } else if k == "hasNameCard"@ {
        Some(ConditionField::HasNameCard)
    } else {
        None
    }
}

/// The column of the player cache table that holds a field, for the fields
/// stored in their own column.
pub open spec fn field_sql_column(f: ConditionField) -> Option<Seq<char>> {
    match f {
        ConditionField::Level => Some("pc.level"@),
        ConditionField::WorldLevel => Some("pc.world_level"@),
        ConditionField::FinishAchievementNum => Some("pc.achievements"@),
        ConditionField::SpiralAbyss => Some("pc.abyss_progress"@),
        ConditionField::TowerStarIndex => Some("pc.abyss_stars"@),
        ConditionField::FetterCount => Some("pc.fetter_count"@),
        ConditionField::Region => Some("pc.region"@),
        ConditionField::HasAvatar => None,
        ConditionField::HasNameCard => None,
    }
}

/// The fields compared as plain numbers.
pub open spec fn field_is_numeric(f: ConditionField) -> bool {
    !(f == ConditionField::Region || f == ConditionField::HasAvatar || f
        == ConditionField::HasNameCard || f == ConditionField::SpiralAbyss)
}

impl ConditionField {
    pub fn is_numeric(&self) -> (r: bool)
        ensures
            r == field_is_numeric(*self),
    {
        !matches!(self, Self::Region | Self::HasAvatar | Self::HasNameCard | Self::SpiralAbyss)
    }

    pub fn json_key(&self) -> (r: &'static str)
        ensures
            r@ == field_key(*self),
    {
        match self {
            Self::Level => "level",
            Self::WorldLevel => "worldLevel",
            Self::FinishAchievementNum => "finishAchievementNum",
            Self::SpiralAbyss => "spiralAbyss",
            Self::TowerStarIndex => "towerStarIndex",
            Self::FetterCount => "fetterCount",
            Self::Region => "region",
            Self::HasAvatar => "hasAvatar",
            Self::HasNameCard => "hasNameCard",
        }
    }

    /// Returns the PostgreSQL column name for extracted fields,
    /// or None for fields that require JSONB queries (HasAvatar, HasNameCard).
    pub fn sql_column(&self) -> (r: Option<&'static str>)
        ensures
            r is Some == field_sql_column(*self) is Some,
            r is Some ==> r->0@ == field_sql_column(*self)->0,
    {
        match self {
            Self::Level => Some("pc.level"),
            Self::WorldLevel => Some("pc.world_level"),
            Self::FinishAchievementNum => Some("pc.achievements"),
            Self::SpiralAbyss => Some("pc.abyss_progress"),
            Self::TowerStarIndex => Some("pc.abyss_stars"),
            Self::FetterCount => Some("pc.fetter_count"),
            Self::Region => Some("pc.region"),
            Self::HasAvatar | Self::HasNameCard => None,
        }
    }

    pub fn from_key(key: &str) -> (r: Option<Self>)
        ensures
            r == field_from_key(key@),
    {
        if str_eq(key, "level") {
            Some(Self::Level)
        } else if str_eq(key, "worldLevel") {
            Some(Self::WorldLevel)
        } else if str_eq(key, "finishAchievementNum") {
            Some(Self::FinishAchievementNum)
        } else if str_eq(key, "spiralAbyss") {
            Some(Self::SpiralAbyss)
        } else if str_eq(key, "towerStarIndex") {
            Some(Self::TowerStarIndex)
        } else if str_eq(key, "fetterCount") {
            Some(Self::FetterCount)
        } else if str_eq(key, "region") {
            Some(Self::Region)
        } else if str_eq(key, "hasAvatar") {
            Some(Self::HasAvatar)
        } else if str_eq(key, "hasNameCard") {
            Some(Self::HasNameCard)
        } else {
            None
        }
    }
}

/// The key of an operator in configuration forms.
pub open spec fn operator_key(o: ConditionOperator) -> Seq<char> {
    match o {
        ConditionOperator::Eq => "eq"@,
        ConditionOperator::Gt => "gt"@,
        ConditionOperator::Gte => "gte"@,
        ConditionOperator::Lt => "lt"@,
        ConditionOperator::Lte => "lte"@,
        ConditionOperator::Between => "between"@,
    }
}

/// The operator whose key is `k`, if any.
pub open spec fn operator_from_key(k: Seq<char>) -> Option<ConditionOperator> {
    if k == "eq"@ {
        Some(ConditionOperator::Eq)
    } else if k == "gt"@ {
        Some(ConditionOperator::Gt)
    } else if k == "gte"@ {
        Some(ConditionOperator::Gte)
    } else if k == "lt"@ {
        Some(ConditionOperator::Lt)
    } else if k == "lte"@ {
        Some(ConditionOperator::Lte)
    } else if k == "between"@ {
        Some(ConditionOperator::Between)
    } else {
        None
    }
}

/// The SQL spelling of an operator.
pub open spec fn operator_sql(o: ConditionOperator) -> Seq<char> {
    match o {
        ConditionOperator::Eq => "="@,
        ConditionOperator::Gt => ">"@,
        ConditionOperator::Gte => ">="@,
        ConditionOperator::Lt => "<"@,
        ConditionOperator::Lte => "<="@,
        ConditionOperator::Between => "BETWEEN"@,
    }
}

impl ConditionOperator {
    pub fn from_key(key: &str) -> (r: Option<Self>)
        ensures
            r == operator_from_key(key@),
    {
        if str_eq(key, "eq") {
            Some(Self::Eq)
        } else if str_eq(key, "gt") {
            Some(Self::Gt)
        } else if str_eq(key, "gte") {
            Some(Self::Gte)
        } else if str_eq(key, "lt") {
            Some(Self::Lt)
        } else if str_eq(key, "lte") {
            Some(Self::Lte)
        } else if str_eq(key, "between") {
            Some(Self::Between)
        } else {
            None
        }
    }

    pub fn key(&self) -> (r: &'static str)
        ensures
            r@ == operator_key(*self),
    {
        match self {
            Self::Eq => "eq",
            Self::Gt => "gt",
            Self::Gte => "gte",
            Self::Lt => "lt",
            Self::Lte => "lte",
            Self::Between => "between",
        }
    }

    pub fn sql_operator(&self) -> (r: &'static str)
        ensures
            r@ == operator_sql(*self),
    {
        match self {
            Self::Eq => "=",
            Self::Gt => ">",
            Self::Gte => ">=",
            Self::Lt => "<",
            Self::Lte => "<=",
            Self::Between => "BETWEEN",
        }
    }
}

/// Every field is found again from its key.
pub proof fn field_key_round_trip(f: ConditionField)
    ensures
        field_from_key(field_key(f)) == Some(f),
{
    reveal_strlit("level");
    reveal_strlit("worldLevel");
    reveal_strlit("finishAchievementNum");
    reveal_strlit("spiralAbyss");
    reveal_strlit("towerStarIndex");
    reveal_strlit("fetterCount");
    reveal_strlit("region");
    reveal_strlit("hasAvatar");
    reveal_strlit("hasNameCard");
    assert("level"@.len() == 5);
    assert("worldLevel"@.len() == 10);
    assert("finishAchievementNum"@.len() == 20);
    assert("spiralAbyss"@.len() == 11);
    assert("towerStarIndex"@.len() == 14);
    assert("fetterCount"@.len() == 11);
    assert("region"@.len() == 6);
    assert("hasAvatar"@.len() == 9);
    assert("hasNameCard"@.len() == 11);
    assert("level"@ != "worldLevel"@);
    assert("level"@ != "finishAchievementNum"@);
    assert("level"@ != "spiralAbyss"@);
    assert("level"@ != "towerStarIndex"@);
    assert("level"@ != "fetterCount"@);
    assert("level"@ != "region"@);
    assert("level"@ != "hasAvatar"@);
    assert("level"@ != "hasNameCard"@);
    assert("worldLevel"@ != "finishAchievementNum"@);
    assert("worldLevel"@ != "spiralAbyss"@);
    assert("worldLevel"@ != "towerStarIndex"@);
    assert("worldLevel"@ != "fetterCount"@);
    assert("worldLevel"@ != "region"@);
    assert("worldLevel"@ != "hasAvatar"@);
    assert("worldLevel"@ != "hasNameCard"@);
    assert("finishAchievementNum"@ != "spiralAbyss"@);
    assert("finishAchievementNum"@ != "towerStarIndex"@);
    assert("finishAchievementNum"@ != "fetterCount"@);
    assert("finishAchievementNum"@ != "region"@);
    assert("finishAchievementNum"@ != "hasAvatar"@);
    assert("finishAchievementNum"@ != "hasNameCard"@);
    assert("spiralAbyss"@ != "towerStarIndex"@);
    assert("spiralAbyss"@[0] != "fetterCount"@[0]);
    assert("spiralAbyss"@ != "fetterCount"@);
    assert("spiralAbyss"@ != "region"@);
    assert("spiralAbyss"@ != "hasAvatar"@);
    assert("spiralAbyss"@[0] != "hasNameCard"@[0]);
    assert("spiralAbyss"@ != "hasNameCard"@);
    assert("towerStarIndex"@ != "fetterCount"@);
    assert("towerStarIndex"@ != "region"@);
    assert("towerStarIndex"@ != "hasAvatar"@);
    assert("towerStarIndex"@ != "hasNameCard"@);
    assert("fetterCount"@ != "region"@);
    assert("fetterCount"@ != "hasAvatar"@);
    assert("fetterCount"@[0] != "hasNameCard"@[0]);
    assert("fetterCount"@ != "hasNameCard"@);
    assert("region"@ != "hasAvatar"@);
    assert("region"@ != "hasNameCard"@);
    assert("hasAvatar"@ != "hasNameCard"@);
}

/// A key that names a field is that field's key.
pub proof fn field_from_key_inverse(k: Seq<char>)
    ensures
        field_from_key(k) matches Some(f) ==> field_key(f) == k,
{
}

/// Every operator is found again from its key.
pub proof fn operator_key_round_trip(o: ConditionOperator)
    ensures
        operator_from_key(operator_key(o)) == Some(o),
{
    reveal_strlit("eq");
    reveal_strlit("gt");
    reveal_strlit("gte");
    reveal_strlit("lt");
    reveal_strlit("lte");
    reveal_strlit("between");
    assert("eq"@.len() == 2);
    assert("gt"@.len() == 2);
    assert("gte"@.len() == 3);
    assert("lt"@.len() == 2);
    assert("lte"@.len() == 3);
    assert("between"@.len() == 7);
    assert("eq"@[0] != "gt"@[0]);
    assert("eq"@ != "gt"@);
    assert("eq"@ != "gte"@);
    assert("eq"@[0] != "lt"@[0]);
    assert("eq"@ != "lt"@);
    assert("eq"@ != "lte"@);
    assert("eq"@ != "between"@);
    assert("gt"@ != "gte"@);
    assert("gt"@[0] != "lt"@[0]);
    assert("gt"@ != "lt"@);
    assert("gt"@ != "lte"@);
    assert("gt"@ != "between"@);
    assert("gte"@ != "lt"@);
    assert("gte"@[0] != "lte"@[0]);
    assert("gte"@ != "lte"@);
    assert("gte"@ != "between"@);
    assert("lt"@ != "lte"@);
    assert("lt"@ != "between"@);
    assert("lte"@ != "between"@);
}

/// A key that names an operator is that operator's key.
pub proof fn operator_from_key_inverse(k: Seq<char>)
    ensures
        operator_from_key(k) matches Some(o) ==> operator_key(o) == k,
{
}

/// A role condition.
#[derive(Debug)]
pub struct Condition {
    pub field: ConditionField,
    pub operator: ConditionOperator,
    pub value: JsonValue,
    pub value_end: Option<JsonValue>,
    /// Optional: minimum character level for HasAvatar (1–90)
    pub avatar_level: Option<i64>,
    /// Optional: minimum constellation for HasAvatar (0–6)
    pub avatar_constellation: Option<i64>,
}

/// The mathematical value of a [`Condition`].
pub struct ConditionView {
    pub field: ConditionField,
    pub operator: ConditionOperator,
    pub value: JsonValueView,
    pub value_end: Option<JsonValueView>,
    pub avatar_level: Option<i64>,
    pub avatar_constellation: Option<i64>,
}

/// The view of an optional JSON value.
pub open spec fn opt_view(v: Option<JsonValue>) -> Option<JsonValueView> {
    match v {
        Some(x) => Some(x@),
        None => None,
    }
}

impl View for Condition {
    type V = ConditionView;

    open spec fn view(&self) -> ConditionView {
        ConditionView {
            field: self.field,
            operator: self.operator,
            value: self.value@,
            value_end: opt_view(self.value_end),
            avatar_level: self.avatar_level,
            avatar_constellation: self.avatar_constellation,
        }
    }
}

} // verus!
