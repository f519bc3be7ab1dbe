//! The plugin configuration form: reading a submitted form into a role
//! condition, and the form values that show a stored condition.
use vstd::prelude::*;

use crate::condition::{
    Condition, ConditionField, ConditionOperator, ConditionView, field_from_key, operator_from_key,
    field_key, operator_key, field_key_round_trip, operator_key_round_trip,
};
use crate::error::AppError;
use crate::json::{
    lemma_lookup_first, keys_unique, has_key,
    JsonValue, JsonValueView, Entries, entries_view, map_get, get_entry, form_text, form_int, opt_ref_view,
    or_i64, json_quote, json_text, append_json_string, append_json_value, object_text, members_text, json_member,
};
use crate::text::{
    chars_of, trim_bounds, trim_seq, parse_i64_chars, parse_i64_seq, parse_i64, str_eq, to_uppercase,
    uppercase, is_ascii_text, ascii_upper, decimal, append_decimal, push_char, decimal_nat, all_digits,
    lemma_decimal_nat_digits, lemma_parse_decimal_nat,
};

verus! {

/// How a floor-chamber text (such as `12-3`) can be wrong.
#[derive(Debug, Clone, Copy, PartialEq, Eq, Structural)]
pub enum FloorChamberError {
    /// Not exactly two parts around one `-`.
    Format,
    /// The floor is not a number.
    Floor,
    /// The chamber is not a number.
    Chamber,
    /// The floor is not in 1–12 or the chamber not in 1–3.
    Range,
}

/// The number of `-` in a text.
pub open spec fn dash_count(s: Seq<char>) -> nat
    decreases s.len(),
{
    if s.len() == 0 {
        0
    } else {
        dash_count(s.drop_last()) + if s.last() == '-' {
            1nat
        } else {
            0nat
        }
    }
}

/// The position of the first `-` in a text, or its length.
pub open spec fn dash_pos(s: Seq<char>) -> int
    decreases s.len(),
{
    if s.len() == 0 {
        0
    } else if dash_count(s.drop_last()) > 0 {
        dash_pos(s.drop_last())
    } else if s.last() == '-' {
        s.len() - 1
    } else {
        s.len() as int
    }
}

/// A floor-chamber text read as floor × 10 + chamber, the way
/// `s.split('-')` and `trim().parse()` read it.
pub open spec fn floor_chamber(s: Seq<char>) -> Result<i64, FloorChamberError> {
    if dash_count(s) != 1 {
        Err(FloorChamberError::Format)
    } else {
        let p = dash_pos(s);
        match parse_i64_seq(trim_seq(s.subrange(0, p))) {
            None => Err(FloorChamberError::Floor),
            Some(floor) => match parse_i64_seq(trim_seq(s.subrange(p + 1, s.len() as int))) {
                None => Err(FloorChamberError::Chamber),
                Some(chamber) => if !(1 <= floor <= 12) || !(1 <= chamber <= 3) {
                    Err(FloorChamberError::Range)
                } else {
                    Ok((floor * 10 + chamber) as i64)
                },
            },
        }
    }
}

proof fn lemma_dash_prefix(s: Seq<char>, i: int)
    requires
        0 <= i < s.len(),
    ensures
        s.subrange(0, i + 1).drop_last() == s.subrange(0, i),
        s.subrange(0, i + 1).last() == s[i],
{
    assert(s.subrange(0, i + 1).drop_last() =~= s.subrange(0, i));
}

/// A stored Spiral Abyss progress that reads as floor 1–12, chamber 1–3.
pub open spec fn is_abyss_progress(n: int) -> bool {
    1 <= n / 10 <= 12 && 1 <= n % 10 <= 3
}

proof fn lemma_digits_no_dash(s: Seq<char>)
    requires
        all_digits(s),
    ensures
        dash_count(s) == 0,
    decreases s.len(),
{
    if s.len() > 0 {
        let t = s.drop_last();
        assert(all_digits(t)) by {
            assert forall|i: int| 0 <= i < t.len() implies '0' <= #[trigger] t[i] && t[i] <= '9' by {
                assert(t[i] == s[i]);
            }
        }
        lemma_digits_no_dash(t);
        assert('0' <= s[s.len() - 1]);
    }
}

proof fn lemma_dash_count_concat(a: Seq<char>, b: Seq<char>)
    ensures
        dash_count(a + b) == dash_count(a) + dash_count(b),
    decreases b.len(),
{
    if b.len() == 0 {
        assert(a + b =~= a);
    } else {
        assert((a + b).drop_last() =~= a + b.drop_last());
        lemma_dash_count_concat(a, b.drop_last());
    }
}

proof fn lemma_dash_pos_split(a: Seq<char>, b: Seq<char>)
    requires
        dash_count(a) == 0,
    ensures
        dash_pos(a + seq!['-'] + b) == a.len(),
    decreases b.len(),
{
    let s = a + seq!['-'] + b;
    if b.len() == 0 {
        assert(s.drop_last() =~= a);
    } else {
        assert(s.drop_last() =~= a + seq!['-'] + b.drop_last());
        lemma_dash_pos_split(a, b.drop_last());
        lemma_dash_count_concat(a, seq!['-']);
        lemma_dash_count_concat(a + seq!['-'], b.drop_last());
        assert(seq!['-'].drop_last() =~= Seq::<char>::empty());
        assert(dash_count(Seq::<char>::empty()) == 0);
        assert(dash_count(seq!['-']) == 1);
    }
}

/// The floor-chamber text of a stored progress reads back as that progress.
pub proof fn lemma_abyss_text_reads_back(n: int)
    requires
        is_abyss_progress(n),
    ensures
        floor_chamber(abyss_text(n)) == Ok::<i64, FloorChamberError>(n as i64),
{
    let f: nat = (n / 10) as nat;
    let c: nat = (n % 10) as nat;
    assert(n >= 0);
    let a = decimal_nat(f);
    let b = decimal_nat(c);
    let s = abyss_text(n);
    assert(s == a + seq!['-'] + b);
    lemma_decimal_nat_digits(f);
    lemma_decimal_nat_digits(c);
    lemma_parse_decimal_nat(f);
    lemma_parse_decimal_nat(c);
    lemma_digits_no_dash(a);
    lemma_digits_no_dash(b);
    lemma_dash_count_concat(a, seq!['-']);
    lemma_dash_count_concat(a + seq!['-'], b);
    assert(seq!['-'].drop_last() =~= Seq::<char>::empty());
    assert(dash_count(Seq::<char>::empty()) == 0);
    assert(dash_count(seq!['-']) == 1);
    lemma_dash_pos_split(a, b);
    assert(s.subrange(0, a.len() as int) =~= a);
    assert(s.subrange(a.len() as int + 1, s.len() as int) =~= b);
    assert(f * 10 + c == n) by (nonlinear_arith)
        requires
            f == n / 10,
            c == n % 10,
    ;
    assert(dash_count(s) == 1);
    assert(dash_pos(s) == a.len());
    assert(parse_i64_seq(trim_seq(s.subrange(0, dash_pos(s)))) == Some(f as i64));
    assert(parse_i64_seq(trim_seq(s.subrange(dash_pos(s) + 1, s.len() as int))) == Some(c as i64));
}

/// Reads a floor-chamber text.
pub fn parse_floor_chamber(s: &str) -> (r: Result<i64, FloorChamberError>)
    ensures
        r == floor_chamber(s@),
{
    let v: Vec<char> = chars_of(s);
    let n: usize = v.len();
    let mut count: usize = 0;
    let mut pos: usize = n;
    let mut i: usize = 0;
    while i < n
        invariant
            v@ == s@,
            n == v@.len(),
            i <= n,
            count == dash_count(v@.subrange(0, i as int)),
            count <= i,
            count > 0 ==> pos == dash_pos(v@.subrange(0, i as int)) && pos < i,
            count == 0 ==> pos == n,
        decreases n - i,
    {
        proof {
            lemma_dash_prefix(v@, i as int);
        }
        if v[i] == '-' {
            if count == 0 {
                pos = i;
            }
            count = count + 1;
        }
        i = i + 1;
        proof {
            if count == 0 {
                assert(dash_count(v@.subrange(0, i as int)) == 0);
            }
        }
    }
    assert(v@.subrange(0, n as int) =~= s@);
    if count != 1 {
        return Err(FloorChamberError::Format);
    }
    let (a, b) = trim_bounds(&v, 0, pos);
    let floor: i64 = match parse_i64_chars(&v, a, b) {
        Some(f) => f,
        None => {
            return Err(FloorChamberError::Floor);
        },
    };
    let (c, d) = trim_bounds(&v, pos + 1, n);
    let chamber: i64 = match parse_i64_chars(&v, c, d) {
        Some(x) => x,
        None => {
            return Err(FloorChamberError::Chamber);
        },
    };
    if !(1 <= floor && floor <= 12) || !(1 <= chamber && chamber <= 3) {
        return Err(FloorChamberError::Range);
    }
    Ok(floor * 10 + chamber)
}

pub const MSG_FIELD_REQUIRED: &'static str = "Field is required";

pub const MSG_OPERATOR_REQUIRED: &'static str = "Operator is required";

pub const MSG_VALUE_REQUIRED: &'static str = "Value is required";

pub const MSG_REGION_EQ_ONLY: &'static str = "Region only supports '= (equals)' condition";

pub const MSG_BETWEEN_UNSUPPORTED: &'static str = "Between is not supported for this field";

pub const MSG_ABYSS_FORMAT: &'static str =
    "Spiral Abyss value must be in floor-chamber format (e.g. 12-3)";

pub const MSG_FLOOR_NUMBER: &'static str = "Floor must be a number (e.g. 12-3)";

pub const MSG_CHAMBER_NUMBER: &'static str = "Chamber must be a number (e.g. 12-3)";

pub const MSG_ABYSS_RANGE: &'static str = "Floor must be 1-12 and chamber must be 1-3";

pub const MSG_END_REQUIRED: &'static str = "End value is required for between operator";

pub const MSG_END_ABYSS_FORMAT: &'static str =
    "Spiral Abyss end value must be in floor-chamber format (e.g. 12-3)";

pub const MSG_END_FLOOR_NUMBER: &'static str = "End floor must be a number (e.g. 12-3)";

pub const MSG_END_CHAMBER_NUMBER: &'static str = "End chamber must be a number (e.g. 12-3)";

pub const MSG_END_ABYSS_RANGE: &'static str = "End floor must be 1-12 and chamber must be 1-3";

pub const MSG_START_AFTER_END: &'static str = "Start value must be less than or equal to end value";

/// The message for a wrong start value in floor-chamber form.
pub open spec fn floor_chamber_message(e: FloorChamberError) -> Seq<char> {
    match e {
        FloorChamberError::Format => MSG_ABYSS_FORMAT@,
        FloorChamberError::Floor => MSG_FLOOR_NUMBER@,
        FloorChamberError::Chamber => MSG_CHAMBER_NUMBER@,
        FloorChamberError::Range => MSG_ABYSS_RANGE@,
    }
}

/// The message for a wrong end value in floor-chamber form.
pub open spec fn end_floor_chamber_message(e: FloorChamberError) -> Seq<char> {
    match e {
        FloorChamberError::Format => MSG_END_ABYSS_FORMAT@,
        FloorChamberError::Floor => MSG_END_FLOOR_NUMBER@,
        FloorChamberError::Chamber => MSG_END_CHAMBER_NUMBER@,
        FloorChamberError::Range => MSG_END_ABYSS_RANGE@,
    }
}

/// A form entry, or a fallback entry when it is absent.
pub open spec fn entry_or(
    config: Entries,
    key: Seq<char>,
    fallback: Seq<char>,
) -> Option<JsonValueView> {
    match map_get(config, key) {
        Some(v) => Some(v),
        None => map_get(config, fallback),
    }
}

/// Whether a form entry carries no value: no text and no integer.
pub open spec fn form_value_missing(v: Option<JsonValueView>) -> bool {
    form_text(v).len() == 0 && !(v matches Some(JsonValueView::Int(_)))
}

/// The regions a condition can name.
pub open spec fn is_known_region(r: Seq<char>) -> bool {
    r == "NA"@ || r == "EU"@ || r == "ASIA"@ || r == "TW"@ || r == "CN"@
}

/// The operator the form asks for, or the message that refuses it.
pub open spec fn form_operator(config: Entries, field: ConditionField) -> Result<
    ConditionOperator,
    Seq<char>,
> {
    let op_key = form_text(map_get(config, "operator"@));
    if op_key.len() == 0 {
        if field == ConditionField::Region || field == ConditionField::HasAvatar || field
            == ConditionField::HasNameCard {
            Ok(ConditionOperator::Eq)
        } else {
            Err(MSG_OPERATOR_REQUIRED@)
        }
    } else {
        match operator_from_key(op_key) {
            Some(o) => Ok(o),
            None => Err("Invalid operator '"@ + op_key + "'"@),
        }
    }
}

/// The start value the form gives for a field, or the message that refuses
/// it.
pub open spec fn form_start_value(field: ConditionField, key: Seq<char>, raw: Option<JsonValueView>) -> Result<
    JsonValueView,
    Seq<char>,
> {
    let text = form_text(raw);
    if field == ConditionField::SpiralAbyss {
        match floor_chamber(text) {
            Ok(n) => Ok(JsonValueView::Int(n)),
            Err(e) => Err(floor_chamber_message(e)),
        }
    } else if field == ConditionField::Region {
        let v = uppercase(text);
        if is_known_region(v) {
            Ok(JsonValueView::Str(v))
        } else {
            Err("Invalid region '"@ + text + "'. Use NA, EU, ASIA, TW, or CN"@)
        }
    } else {
        match form_int(raw) {
            Some(n) => Ok(JsonValueView::Int(n)),
            None => Err("Value must be a number for '"@ + key + "'"@),
        }
    }
}

/// The end value the form gives for a range, or the message that refuses it.
pub open spec fn form_end_value(field: ConditionField, key: Seq<char>, raw: Option<JsonValueView>) -> Result<
    i64,
    Seq<char>,
> {
    if form_value_missing(raw) {
        Err(MSG_END_REQUIRED@)
    } else if field == ConditionField::SpiralAbyss {
        match floor_chamber(form_text(raw)) {
            Ok(n) => Ok(n),
            Err(e) => Err(end_floor_chamber_message(e)),
        }
    } else {
        match form_int(raw) {
            Some(n) => Ok(n),
            None => Err("End value must be a number for '"@ + key + "'"@),
        }
    }
}

/// What a submitted configuration form stands for: the condition it sets,
/// or the message of the first check it fails.
pub open spec fn config_outcome(config: Entries) -> Result<ConditionView, Seq<char>> {
    let key = form_text(map_get(config, "field"@));
    if key.len() == 0 {
        Err(MSG_FIELD_REQUIRED@)
    } else {
        match field_from_key(key) {
            None => Err("Invalid field '"@ + key + "'"@),
            Some(field) => match form_operator(config, field) {
                Err(m) => Err(m),
                Ok(operator) => {
                    let raw = entry_or(config, "value_"@ + key, "value"@);
                    if form_value_missing(raw) {
                        Err(MSG_VALUE_REQUIRED@)
                    } else if field == ConditionField::Region && operator != ConditionOperator::Eq {
                        Err(MSG_REGION_EQ_ONLY@)
                    } else if operator == ConditionOperator::Between && (field
                        == ConditionField::Region || field == ConditionField::HasAvatar || field
                        == ConditionField::HasNameCard || field == ConditionField::FetterCount) {
                        Err(MSG_BETWEEN_UNSUPPORTED@)
                    } else {
                        match form_start_value(field, key, raw) {
                            Err(m) => Err(m),
                            Ok(value) => if operator == ConditionOperator::Between {
                                let raw_end = entry_or(config, "value_end_"@ + key, "value_end"@);
                                match form_end_value(field, key, raw_end) {
                                    Err(m) => Err(m),
                                    Ok(end) => if value.as_i64() matches Some(start) && start > end {
                                        Err(MSG_START_AFTER_END@)
                                    } else {
                                        Ok(
                                            ConditionView {
                                                field,
                                                operator,
                                                value,
                                                value_end: Some(JsonValueView::Int(end)),
                                                avatar_level: None,
                                                avatar_constellation: None,
                                            },
                                        )
                                    },
                                }
                            } else {
                                Ok(
                                    ConditionView {
                                        field,
                                        operator,
                                        value,
                                        value_end: None,
                                        avatar_level: None,
                                        avatar_constellation: None,
                                    },
                                )
                            },
                        }
                    }
                },
            },
        }
    }
}

/// `a + b` as a new string.
pub fn concat2(a: &str, b: &str) -> (r: String)
    ensures
        r@ == a@ + b@,
{
    let mut s: String = String::from_str(a);
    s.append(b);
    s
}

/// `a + b + c` as a new string.
pub fn concat3(a: &str, b: &str, c: &str) -> (r: String)
    ensures
        r@ == a@ + b@ + c@,
{
    let mut s: String = String::from_str(a);
    s.append(b);
    s.append(c);
    s
}

fn text_of_exec(v: Option<&JsonValue>) -> (r: &str)
    ensures
        r@ == form_text(opt_ref_view(v)),
{
    proof {
        reveal_strlit("");
    }
    match v {
        Some(JsonValue::Str(s)) => s.as_str(),
        _ => "",
    }
}

fn entry_or_exec<'a>(config: &'a Vec<(String, JsonValue)>, key: &str, fallback: &str) -> (r: Option<
    &'a JsonValue,
>)
    ensures
        opt_ref_view(r) == entry_or(entries_view(config@), key@, fallback@),
{
    match get_entry(config, key) {
        Some(v) => Some(v),
        None => get_entry(config, fallback),
    }
}

fn form_int_exec(v: Option<&JsonValue>) -> (r: Option<i64>)
    ensures
        r == form_int(opt_ref_view(v)),
{
    match v {
        Some(JsonValue::Int(i)) => Some(*i),
        _ => parse_i64(text_of_exec(v)),
    }
}

fn form_value_missing_exec(v: Option<&JsonValue>) -> (r: bool)
    ensures
        r == form_value_missing(opt_ref_view(v)),
{
    let text: &str = text_of_exec(v);
    text.unicode_len() == 0 && !matches!(v, Some(JsonValue::Int(_)))
}

fn form_operator_exec(config: &Vec<(String, JsonValue)>, field: ConditionField) -> (r: Result<
    ConditionOperator,
    AppError,
>)
    ensures
        match form_operator(entries_view(config@), field) {
            Ok(o) => r == Ok::<ConditionOperator, AppError>(o),
            Err(m) => r is Err && r->Err_0 is BadRequest && r->Err_0->BadRequest_0@ == m,
        },
{
    let op_key: &str = text_of_exec(get_entry(config, "operator"));
    if op_key.unicode_len() == 0 {
        // Operator is hidden in the UI for fields that only support equals
        match field {
            ConditionField::Region | ConditionField::HasAvatar | ConditionField::HasNameCard => Ok(
                ConditionOperator::Eq,
            ),
            _ => Err(AppError::bad_request(MSG_OPERATOR_REQUIRED)),
        }
    } else {
        match ConditionOperator::from_key(op_key) {
            Some(o) => Ok(o),
            None => Err(AppError::BadRequest(concat3("Invalid operator '", op_key, "'"))),
        }
    }
}

fn floor_chamber_error(e: FloorChamberError, end: bool) -> (r: AppError)
    ensures
        r is BadRequest,
        r->BadRequest_0@ == (if end {
            end_floor_chamber_message(e)
        } else {
            floor_chamber_message(e)
        }),
{
    let msg: &str = match (e, end) {
        (FloorChamberError::Format, false) => MSG_ABYSS_FORMAT,
        (FloorChamberError::Floor, false) => MSG_FLOOR_NUMBER,
        (FloorChamberError::Chamber, false) => MSG_CHAMBER_NUMBER,
        (FloorChamberError::Range, false) => MSG_ABYSS_RANGE,
        (FloorChamberError::Format, true) => MSG_END_ABYSS_FORMAT,
        (FloorChamberError::Floor, true) => MSG_END_FLOOR_NUMBER,
        (FloorChamberError::Chamber, true) => MSG_END_CHAMBER_NUMBER,
        (FloorChamberError::Range, true) => MSG_END_ABYSS_RANGE,
    };
    AppError::bad_request(msg)
}

fn form_start_value_exec(field: ConditionField, key: &str, raw: Option<&JsonValue>) -> (r: Result<
    JsonValue,
    AppError,
>)
    ensures
        match form_start_value(field, key@, opt_ref_view(raw)) {
            Ok(v) => r is Ok && r->Ok_0@ == v,
            Err(m) => r is Err && r->Err_0 is BadRequest && r->Err_0->BadRequest_0@ == m,
        },
{
    let text: &str = text_of_exec(raw);
    if field == ConditionField::SpiralAbyss {
        match parse_floor_chamber(text) {
            Ok(n) => Ok(JsonValue::Int(n)),
            Err(e) => Err(floor_chamber_error(e, false)),
        }
    } else if field == ConditionField::Region {
        let v: String = to_uppercase(text);
        let vs: &str = v.as_str();
        if str_eq(vs, "NA") || str_eq(vs, "EU") || str_eq(vs, "ASIA") || str_eq(vs, "TW") || str_eq(
            vs,
            "CN",
        ) {
            Ok(JsonValue::Str(v))
        } else {
            Err(AppError::BadRequest(concat3("Invalid region '", text, "'. Use NA, EU, ASIA, TW, or CN")))
        }
    } else {
        // Numeric fields: accept both JSON number and string
        match form_int_exec(raw) {
            Some(n) => Ok(JsonValue::Int(n)),
            None => Err(AppError::BadRequest(concat3("Value must be a number for '", key, "'"))),
        }
    }
}

fn form_end_value_exec(field: ConditionField, key: &str, raw: Option<&JsonValue>) -> (r: Result<
    i64,
    AppError,
>)
    ensures
        match form_end_value(field, key@, opt_ref_view(raw)) {
            Ok(n) => r == Ok::<i64, AppError>(n),
            Err(m) => r is Err && r->Err_0 is BadRequest && r->Err_0->BadRequest_0@ == m,
        },
{
    if form_value_missing_exec(raw) {
        return Err(AppError::bad_request(MSG_END_REQUIRED));
    }
    if field == ConditionField::SpiralAbyss {
        match parse_floor_chamber(text_of_exec(raw)) {
            Ok(n) => Ok(n),
            Err(e) => Err(floor_chamber_error(e, true)),
        }
    } else {
        match form_int_exec(raw) {
            Some(n) => Ok(n),
            None => Err(AppError::BadRequest(concat3("End value must be a number for '", key, "'"))),
        }
    }
}

/// Reads a submitted configuration form, a map given by its entries, into
/// the condition it sets.
pub fn parse_config(config: &Vec<(String, JsonValue)>) -> (r: Result<Vec<Condition>, AppError>)
    requires
        keys_unique(entries_view(config@)),
    ensures
        match config_outcome(entries_view(config@)) {
            Ok(c) => r is Ok && r->Ok_0@.len() == 1 && r->Ok_0@[0]@ == c,
            Err(m) => r is Err && r->Err_0 is BadRequest && r->Err_0->BadRequest_0@ == m,
        },
{
    let field_key_text: &str = text_of_exec(get_entry(config, "field"));
    if field_key_text.unicode_len() == 0 {
        return Err(AppError::bad_request(MSG_FIELD_REQUIRED));
    }
    let field: ConditionField = match ConditionField::from_key(field_key_text) {
        Some(f) => f,
        None => {
            return Err(AppError::BadRequest(concat3("Invalid field '", field_key_text, "'")));
        },
    };
    let operator: ConditionOperator = match form_operator_exec(config, field) {
        Ok(o) => o,
        Err(e) => {
            return Err(e);
        },
    };
    // Prefer field-specific value key (e.g. value_level), fall back to generic "value"
    let specific_key: String = concat2("value_", field_key_text);
    let raw_value: Option<&JsonValue> = entry_or_exec(config, specific_key.as_str(), "value");
    if form_value_missing_exec(raw_value) {
        return Err(AppError::bad_request(MSG_VALUE_REQUIRED));
    }
    if field == ConditionField::Region && operator != ConditionOperator::Eq {
        return Err(AppError::bad_request(MSG_REGION_EQ_ONLY));
    }
    if operator == ConditionOperator::Between && (field == ConditionField::Region || field
        == ConditionField::HasAvatar || field == ConditionField::HasNameCard || field
        == ConditionField::FetterCount) {
        return Err(AppError::bad_request(MSG_BETWEEN_UNSUPPORTED));
    }
    let value: JsonValue = match form_start_value_exec(field, field_key_text, raw_value) {
        Ok(v) => v,
        Err(e) => {
            return Err(e);
        },
    };
    // Parse end value for Between operator
    let value_end: Option<JsonValue> = if operator == ConditionOperator::Between {
        let end_key: String = concat2("value_end_", field_key_text);
        let raw_end: Option<&JsonValue> = entry_or_exec(config, end_key.as_str(), "value_end");
        let end: i64 = match form_end_value_exec(field, field_key_text, raw_end) {
            Ok(n) => n,
            Err(e) => {
                return Err(e);
            },
        };
        // Validate start <= end
        if let Some(start) = value.as_i64() {
            if start > end {
                return Err(AppError::bad_request(MSG_START_AFTER_END));
            }
        }
        Some(JsonValue::Int(end))
    } else {
        None
    };
    let mut conditions: Vec<Condition> = Vec::new();
    conditions.push(
        Condition {
            field,
            operator,
            value,
            value_end,
            avatar_level: None,
            avatar_constellation: None,
        },
    );
    Ok(conditions)
}

// The configuration form as the plugin host shows it.

/// The text of a stored Spiral Abyss progress `n` (`floor * 10 + chamber`):
/// `n / 10`, a dash and `n % 10`, both rounded toward zero as Rust's integer
/// operators do.
pub open spec fn abyss_text(n: int) -> Seq<char> {
    let a = if n < 0 {
        -n
    } else {
        n
    };
    if n < 0 {
        decimal(-(a / 10)) + seq!['-'] + decimal(-(a % 10))
    } else {
        decimal(a / 10) + seq!['-'] + decimal(a % 10)
    }
}

/// A stored number or string as the form shows it; anything else as `""`.
pub open spec fn plain_form_value(v: JsonValueView) -> JsonValueView {
    match v {
        JsonValueView::Int(_) => v,
        JsonValueView::Number(_) => v,
        JsonValueView::Str(_) => v,
        _ => JsonValueView::Str(Seq::empty()),
    }
}

/// A stored Spiral Abyss progress as the form shows it: floor-chamber text
/// (of 0 when it is not an integer).
pub open spec fn abyss_form_value(v: JsonValueView) -> JsonValueView {
    JsonValueView::Str(abyss_text(or_i64(v.as_i64(), 0) as int))
}

/// The form value of a condition's start value: Spiral Abyss progress as
/// floor-chamber text, a region as stored.
pub open spec fn start_form_value(field: ConditionField, v: JsonValueView) -> JsonValueView {
    match field {
        ConditionField::SpiralAbyss => abyss_form_value(v),
        ConditionField::Region => v,
        _ => plain_form_value(v),
    }
}

/// The form value of a condition's end value.
pub open spec fn end_form_value(field: ConditionField, v: JsonValueView) -> JsonValueView {
    match field {
        ConditionField::SpiralAbyss => abyss_form_value(v),
        _ => plain_form_value(v),
    }
}

/// The form values that show a stored condition: its field and operator
/// keys, its value under `value_<field>` and, for a range with an end, the
/// end under `value_end_<field>`. Without a condition, the field and the
/// operator are empty.
pub open spec fn form_values(first: Option<ConditionView>) -> Entries {
    match first {
        None => seq![
            ("field"@, JsonValueView::Str(Seq::empty())),
            ("operator"@, JsonValueView::Str(Seq::empty())),
        ],
        Some(c) => {
            let k = field_key(c.field);
            let base = seq![
                ("field"@, JsonValueView::Str(k)),
                ("operator"@, JsonValueView::Str(operator_key(c.operator))),
                ("value_"@ + k, start_form_value(c.field, c.value)),
            ];
            if c.operator == ConditionOperator::Between && c.value_end is Some {
                base.push(("value_end_"@ + k, end_form_value(c.field, c.value_end->0)))
            } else {
                base
            }
        },
    }
}

/// The conditions that reading a configuration form can give.
pub open spec fn is_form_condition(c: ConditionView) -> bool {
    &&& c.avatar_level is None
    &&& c.avatar_constellation is None
    &&& match c.field {
        ConditionField::SpiralAbyss => c.value matches JsonValueView::Int(n) && is_abyss_progress(
            n as int,
        ),
        ConditionField::Region => c.value matches JsonValueView::Str(s) && is_known_region(s),
        _ => c.value is Int,
    }
    &&& (c.field == ConditionField::Region ==> c.operator == ConditionOperator::Eq)
    &&& (c.operator == ConditionOperator::Between ==> !(c.field == ConditionField::Region || c.field
        == ConditionField::HasAvatar || c.field == ConditionField::HasNameCard || c.field
        == ConditionField::FetterCount))
    &&& (c.operator == ConditionOperator::Between) == (c.value_end is Some)
    &&& (c.value_end matches Some(e) ==> e matches JsonValueView::Int(m) && (c.field
        == ConditionField::SpiralAbyss ==> is_abyss_progress(m as int)) && c.value.as_i64()->0 <= m)
}

proof fn lemma_abyss_parts(f: int, ch: int)
    requires
        1 <= f <= 12,
        1 <= ch <= 3,
    ensures
        (f * 10 + ch) / 10 == f,
        (f * 10 + ch) % 10 == ch,
{
    assert((f * 10 + ch) / 10 == f && (f * 10 + ch) % 10 == ch) by (nonlinear_arith)
        requires
            1 <= f <= 12,
            1 <= ch <= 3,
    ;
}

proof fn lemma_floor_chamber_progress(s: Seq<char>)
    ensures
        floor_chamber(s) matches Ok(n) ==> is_abyss_progress(n as int),
{
    if dash_count(s) == 1 {
        let p = dash_pos(s);
        if let Some(f) = parse_i64_seq(trim_seq(s.subrange(0, p))) {
            if let Some(ch) = parse_i64_seq(trim_seq(s.subrange(p + 1, s.len() as int))) {
                if 1 <= f <= 12 && 1 <= ch <= 3 {
                    lemma_abyss_parts(f as int, ch as int);
                }
            }
        }
    }
}

/// Every condition read from a configuration form has the shape that the
/// form describes: a known upper-case region compared with `=`, floor
/// 1–12 and chamber 1–3 for Spiral Abyss progress, integers elsewhere, and an
/// end value, not below the start, exactly for ranges on fields that allow
/// them.
pub proof fn parsed_conditions_are_form_conditions(config: Entries)
    ensures
        config_outcome(config) matches Ok(c) ==> is_form_condition(c),
{
    let key = form_text(map_get(config, "field"@));
    let raw = entry_or(config, "value_"@ + key, "value"@);
    let raw_end = entry_or(config, "value_end_"@ + key, "value_end"@);
    lemma_floor_chamber_progress(form_text(raw));
    lemma_floor_chamber_progress(form_text(raw_end));
}

proof fn lemma_field_key_len(f: ConditionField)
    ensures
        5 <= field_key(f).len() <= 20,
{
    reveal_strlit("level");
    reveal_strlit("worldLevel");
    reveal_strlit("finishAchievementNum");
    reveal_strlit("spiralAbyss");
    reveal_strlit("towerStarIndex");
    reveal_strlit("fetterCount");
    reveal_strlit("region");
    reveal_strlit("hasAvatar");
    reveal_strlit("hasNameCard");
}

proof fn lemma_operator_key_nonempty(o: ConditionOperator)
    ensures
        operator_key(o).len() > 0,
{
    reveal_strlit("eq");
    reveal_strlit("gt");
    reveal_strlit("gte");
    reveal_strlit("lt");
    reveal_strlit("lte");
    reveal_strlit("between");
}

proof fn lemma_known_region_upper(s: Seq<char>)
    requires
        is_known_region(s),
    ensures
        uppercase(s) == s,
{
    reveal_strlit("NA");
    reveal_strlit("EU");
    reveal_strlit("ASIA");
    reveal_strlit("TW");
    reveal_strlit("CN");
    assert(is_ascii_text(s));
    assert(s.map_values(|c: char| ascii_upper(c)) =~= s);
}

/// Submitting the form values that show a condition read from a form gives
/// that condition back.
pub proof fn form_values_read_back(c: ConditionView)
    requires
        is_form_condition(c),
    ensures
        keys_unique(form_values(Some(c))),
        config_outcome(form_values(Some(c))) == Ok::<ConditionView, Seq<char>>(c),
{
    let e = form_values(Some(c));
    let k = field_key(c.field);
    reveal_strlit("field");
    reveal_strlit("operator");
    reveal_strlit("value_");
    reveal_strlit("value_end_");
    reveal_strlit("NA");
    reveal_strlit("EU");
    reveal_strlit("ASIA");
    reveal_strlit("TW");
    reveal_strlit("CN");
    lemma_field_key_len(c.field);
    lemma_operator_key_nonempty(c.operator);
    field_key_round_trip(c.field);
    operator_key_round_trip(c.operator);
    assert("field"@.len() == 5);
    assert("operator"@.len() == 8);
    assert(("value_"@ + k).len() == 6 + k.len());
    assert(("value_end_"@ + k).len() == 10 + k.len());
    lemma_lookup_first(e, 0, "field"@);
    lemma_lookup_first(e, 1, "operator"@);
    lemma_lookup_first(e, 2, "value_"@ + k);
    if c.operator == ConditionOperator::Between {
        lemma_lookup_first(e, 3, "value_end_"@ + k);
    }
    if let JsonValueView::Str(s) = c.value {
        if c.field == ConditionField::Region {
            lemma_known_region_upper(s);
        }
    }
    if c.field == ConditionField::SpiralAbyss {
        lemma_abyss_text_reads_back(c.value.as_i64()->0 as int);
        if let Some(end) = c.value_end {
            lemma_abyss_text_reads_back(end.as_i64()->0 as int);
        }
    }
}

/// A form naming a field and a value for it, without an operator.
pub open spec fn form_without_operator(f: ConditionField, v: JsonValueView) -> Entries {
    seq![("field"@, JsonValueView::Str(field_key(f))), ("value_"@ + field_key(f), v)]
}

proof fn lemma_form_without_operator_lookups(f: ConditionField, v: JsonValueView)
    ensures
        map_get(form_without_operator(f, v), "field"@) == Some(JsonValueView::Str(field_key(f))),
        map_get(form_without_operator(f, v), "operator"@) is None,
        map_get(form_without_operator(f, v), "value_"@ + field_key(f)) == Some(v),
        field_from_key(field_key(f)) == Some(f),
        field_key(f).len() > 0,
{
    let e = form_without_operator(f, v);
    let k = field_key(f);
    reveal_strlit("field");
    reveal_strlit("operator");
    reveal_strlit("value_");
    lemma_field_key_len(f);
    field_key_round_trip(f);
    assert(("value_"@ + k).len() == 6 + k.len());
    lemma_lookup_first(e, 0, "field"@);
    lemma_lookup_first(e, 1, "value_"@ + k);
    assert(!has_key(e, "operator"@)) by {
        if has_key(e, "operator"@) {
            let i = choose|i: int| 0 <= i < e.len() && e[i].0 == "operator"@;
            assert(e[i].0.len() != 8);
        }
    }
}

/// The form hides the operator for the fields that only support equality:
/// a form naming a showcased character or name card and its id, with no
/// operator, sets an equality condition on that id.
pub proof fn id_fields_need_no_operator(f: ConditionField, id: i64)
    requires
        f == ConditionField::HasAvatar || f == ConditionField::HasNameCard,
    ensures
        config_outcome(form_without_operator(f, JsonValueView::Int(id))) == Ok::<
            ConditionView,
            Seq<char>,
        >(
            ConditionView {
                field: f,
                operator: ConditionOperator::Eq,
                value: JsonValueView::Int(id),
                value_end: None,
                avatar_level: None,
                avatar_constellation: None,
            },
        ),
{
    lemma_form_without_operator_lookups(f, JsonValueView::Int(id));
}

/// A form naming the region field and a region, with no operator, sets an
/// equality condition on the region in upper case, when that is a known
/// region.
pub proof fn region_needs_no_operator(text: Seq<char>)
    requires
        is_known_region(uppercase(text)),
    ensures
        config_outcome(form_without_operator(ConditionField::Region, JsonValueView::Str(text))) == Ok::<
            ConditionView,
            Seq<char>,
        >(
            ConditionView {
                field: ConditionField::Region,
                operator: ConditionOperator::Eq,
                value: JsonValueView::Str(uppercase(text)),
                value_end: None,
                avatar_level: None,
                avatar_constellation: None,
            },
        ),
{
    lemma_form_without_operator_lookups(ConditionField::Region, JsonValueView::Str(text));
    reveal_strlit("NA");
    reveal_strlit("EU");
    reveal_strlit("ASIA");
    reveal_strlit("TW");
    reveal_strlit("CN");
    assert(text.len() > 0) by {
        if text.len() == 0 {
            assert(is_ascii_text(text));
            assert(text.map_values(|c: char| ascii_upper(c)).len() == 0);
        }
    }
}

/// Every other field compares with an operator the form must send: without
/// one the form is refused.
pub proof fn other_fields_need_an_operator(f: ConditionField, v: JsonValueView)
    requires
        !(f == ConditionField::Region || f == ConditionField::HasAvatar || f
            == ConditionField::HasNameCard),
    ensures
        config_outcome(form_without_operator(f, v)) == Err::<ConditionView, Seq<char>>(
            MSG_OPERATOR_REQUIRED@,
        ),
{
    lemma_form_without_operator_lookups(f, v);
}

/// The configuration form up to the text of its first display field.
pub const SCHEMA_HEAD: &'static str = "{\"version\":1,\"name\":\"Genshin Roles\",\"description\":\"Assign Discord roles based on Genshin Impact player stats.\",\
    \"sections\":[{\"title\":\"Getting Started\",\"fields\":[{\"type\":\"display\",\"key\":\"info\",\
    \"label\":\"How it works\",\"value\":";

/// The configuration form after the text of its first display field, up to
/// its values.
pub const SCHEMA_SECTIONS: &'static str = "}]},{\"title\":\"Role Condition\",\"description\":\"Set the requirement a player must meet to earn this role.\",\
    \"fields\":[{\"type\":\"select\",\"key\":\"field\",\"label\":\"Player stat\",\"description\":\"Which player stat to check.\",\
    \"validation\":{\"required\":true},\"options\":[{\"label\":\"Adventure Rank\",\"value\":\"level\"},\
    {\"label\":\"World Level\",\"value\":\"worldLevel\"},{\"label\":\"Achievements Completed\",\
    \"value\":\"finishAchievementNum\"},{\"label\":\"Spiral Abyss Progress\",\"value\":\"spiralAbyss\"},\
    {\"label\":\"Spiral Abyss Stars\",\"value\":\"towerStarIndex\"},{\"label\":\"Server Region\",\
    \"value\":\"region\"},{\"label\":\"Showcased Character\",\"value\":\"hasAvatar\"},{\"label\":\"Showcased Namecard\",\
    \"value\":\"hasNameCard\"}]},{\"type\":\"select\",\"key\":\"operator\",\"label\":\"Comparison\",\
    \"default_value\":\"eq\",\"condition\":{\"field\":\"field\",\"equals_any\":[\"level\",\"worldLevel\",\
    \"finishAchievementNum\",\"spiralAbyss\",\"towerStarIndex\"]},\"options\":[{\"label\":\"= equals\",\
    \"value\":\"eq\"},{\"label\":\"> greater than\",\"value\":\"gt\"},{\"label\":\">= at least\",\
    \"value\":\"gte\"},{\"label\":\"< less than\",\"value\":\"lt\"},{\"label\":\"<= at most\",\
    \"value\":\"lte\"},{\"label\":\"↔ between (range)\",\"value\":\"between\"}]},{\"type\":\"number\",\
    \"key\":\"value_level\",\"label\":\"Adventure Rank\",\"description\":\"1–60\",\"validation\":{\"min\":1,\
    \"max\":60},\"condition\":{\"field\":\"field\",\"equals\":\"level\"}},{\"type\":\"number\",\
    \"key\":\"value_end_level\",\"label\":\"Adventure Rank (end)\",\"validation\":{\"min\":1,\
    \"max\":60},\"pair_with\":\"value_level\",\"conditions\":[{\"field\":\"field\",\"equals\":\"level\"},\
    {\"field\":\"operator\",\"equals\":\"between\"}]},{\"type\":\"number\",\"key\":\"value_worldLevel\",\
    \"label\":\"World Level\",\"description\":\"0–8\",\"validation\":{\"min\":0,\"max\":8},\"condition\":{\"field\":\"field\",\
    \"equals\":\"worldLevel\"}},{\"type\":\"number\",\"key\":\"value_end_worldLevel\",\"label\":\"World Level (end)\",\
    \"validation\":{\"min\":0,\"max\":8},\"pair_with\":\"value_worldLevel\",\"conditions\":[{\"field\":\"field\",\
    \"equals\":\"worldLevel\"},{\"field\":\"operator\",\"equals\":\"between\"}]},{\"type\":\"number\",\
    \"key\":\"value_finishAchievementNum\",\"label\":\"Achievements count\",\"validation\":{\"min\":0},\
    \"condition\":{\"field\":\"field\",\"equals\":\"finishAchievementNum\"}},{\"type\":\"number\",\
    \"key\":\"value_end_finishAchievementNum\",\"label\":\"Achievements (end)\",\"validation\":{\"min\":0},\
    \"pair_with\":\"value_finishAchievementNum\",\"conditions\":[{\"field\":\"field\",\"equals\":\"finishAchievementNum\"},\
    {\"field\":\"operator\",\"equals\":\"between\"}]},{\"type\":\"text\",\"key\":\"value_spiralAbyss\",\
    \"label\":\"Floor-Chamber\",\"description\":\"e.g. 12-3 (floor 1–12, chamber 1–3)\",\"validation\":{\"pattern\":\"^\\\\d{1,\
    2}-[1-3]$\",\"pattern_message\":\"Use floor-chamber format, e.g. 12-3\"},\"condition\":{\"field\":\"field\",\
    \"equals\":\"spiralAbyss\"}},{\"type\":\"text\",\"key\":\"value_end_spiralAbyss\",\"label\":\"Floor-Chamber (end)\",\
    \"validation\":{\"pattern\":\"^\\\\d{1,2}-[1-3]$\",\"pattern_message\":\"Use floor-chamber format, e.g. 12-3\"},\
    \"pair_with\":\"value_spiralAbyss\",\"conditions\":[{\"field\":\"field\",\"equals\":\"spiralAbyss\"},\
    {\"field\":\"operator\",\"equals\":\"between\"}]},{\"type\":\"number\",\"key\":\"value_towerStarIndex\",\
    \"label\":\"Spiral Abyss Stars\",\"description\":\"0–36\",\"validation\":{\"min\":0,\"max\":36},\
    \"condition\":{\"field\":\"field\",\"equals\":\"towerStarIndex\"}},{\"type\":\"number\",\
    \"key\":\"value_end_towerStarIndex\",\"label\":\"Spiral Abyss Stars (end)\",\"validation\":{\"min\":0,\
    \"max\":36},\"pair_with\":\"value_towerStarIndex\",\"conditions\":[{\"field\":\"field\",\
    \"equals\":\"towerStarIndex\"},{\"field\":\"operator\",\"equals\":\"between\"}]},{\"type\":\"select\",\
    \"key\":\"value_region\",\"label\":\"Server Region\",\"options\":[{\"label\":\"North America (NA)\",\
    \"value\":\"NA\"},{\"label\":\"Europe (EU)\",\"value\":\"EU\"},{\"label\":\"Asia\",\"value\":\"ASIA\"},\
    {\"label\":\"Taiwan / HK / Macao (TW)\",\"value\":\"TW\"},{\"label\":\"China (CN)\",\"value\":\"CN\"}],\
    \"condition\":{\"field\":\"field\",\"equals\":\"region\"}},{\"type\":\"number\",\"key\":\"value_hasAvatar\",\
    \"label\":\"Avatar ID\",\"description\":\"Go to https://gi.yatta.moe/en/archive/avatar , pick a character, and copy the ID from avatar/:id in the URL.\",\
    \"validation\":{\"min\":1},\"condition\":{\"field\":\"field\",\"equals\":\"hasAvatar\"}},\
    {\"type\":\"number\",\"key\":\"value_hasNameCard\",\"label\":\"Namecard ID\",\"description\":\"Go to https://gi.yatta.moe/en/archive/namecard , pick a namecard, and copy the ID from namecard/:id in the URL.\",\
    \"validation\":{\"min\":1},\"condition\":{\"field\":\"field\",\"equals\":\"hasNameCard\"}}]},\
    {\"title\":\"Examples\",\"collapsible\":true,\"default_collapsed\":true,\"fields\":[{\"type\":\"display\",\
    \"key\":\"examples\",\"label\":\"Common setups\",\"value\":\"Adventure Rank >= 50  →  AR 50 and above\\nWorld Level = 8  →  Max world level only\\nAchievements >= 500  →  500+ achievements\\nSpiral Abyss >= 12-3  →  Cleared floor 12 chamber 3\\nSpiral Abyss Stars >= 33  →  33+ stars in current Abyss cycle\\nRegion = Asia  →  Asia server players\\nAdventure Rank between 30 to 55  →  AR 30 to 55 (inclusive)\"}]}],\
    \"values\":";

/// The explanation shown first, up to the verification page's address.
pub const INFO_INTRO: &'static str = "This plugin automatically assigns a Discord role to members based on their Genshin Impact account stats.\n\nStep 1 → Members verify by linking their Genshin UID at:\n";

/// The explanation between the verification page's and the player list's
/// addresses.
pub const INFO_MIDDLE: &'static str = "\n\nStep 2 → You configure a condition below (e.g. Adventure Rank >= 50).\n\nStep 3 → Any verified member who meets the condition gets this role automatically. Player data is refreshed periodically so roles stay up to date.\n\nSee all verified members for this server:\n";

/// The explanation shown first on the form.
pub open spec fn info_text(verify_url: Seq<char>, players_url: Seq<char>) -> Seq<char> {
    INFO_INTRO@ + verify_url + INFO_MIDDLE@ + players_url
}

/// The first of a list of conditions, if any.
pub open spec fn first_condition(conditions: Seq<Condition>) -> Option<ConditionView> {
    if conditions.len() == 0 {
        None
    } else {
        Some(conditions[0]@)
    }
}

/// The configuration form, as JSON text, for a role link whose stored
/// conditions are given: the fixed sections, the explanation naming both
/// addresses, and the values showing the first condition.
pub open spec fn config_schema_text(
    conditions: Seq<Condition>,
    verify_url: Seq<char>,
    players_url: Seq<char>,
) -> Seq<char> {
    SCHEMA_HEAD@ + json_quote(info_text(verify_url, players_url)) + SCHEMA_SECTIONS@
        + object_text(form_values(first_condition(conditions))) + seq!['}']
}

fn append_abyss_text(out: &mut String, n: i64)
    ensures
        final(out)@ == old(out)@ + abyss_text(n as int),
{
    let ghost start: Seq<char> = out@;
    let a: i128 = if n < 0 {
        -(n as i128)
    } else {
        n as i128
    };
    let q: i64 = (a / 10) as i64;
    let r: i64 = (a % 10) as i64;
    if n < 0 {
        append_decimal(out, -q);
        push_char(out, '-');
        append_decimal(out, -r);
    } else {
        append_decimal(out, q);
        push_char(out, '-');
        append_decimal(out, r);
    }
    assert(out@ =~= start + abyss_text(n as int));
}

fn append_plain_form_text(out: &mut String, v: &JsonValue)
    ensures
        final(out)@ == old(out)@ + json_text(plain_form_value(v@)),
{
    proof {
        reveal_strlit("");
        assert(""@ =~= Seq::<char>::empty());
    }
    match v {
        JsonValue::Int(_) => append_json_value(out, v),
        JsonValue::Number(_) => append_json_value(out, v),
        JsonValue::Str(s) => append_json_string(out, s.as_str()),
        _ => append_json_string(out, ""),
    }
}

fn append_abyss_form_text(out: &mut String, v: &JsonValue)
    ensures
        final(out)@ == old(out)@ + json_text(abyss_form_value(v@)),
{
    let n: i64 = match v.as_i64() {
        Some(n) => n,
        None => 0,
    };
    let mut text: String = String::new();
    append_abyss_text(&mut text, n);
    assert(text@ =~= abyss_text(n as int));
    append_json_string(out, text.as_str());
}

fn append_start_form_text(out: &mut String, field: ConditionField, v: &JsonValue)
    ensures
        final(out)@ == old(out)@ + json_text(start_form_value(field, v@)),
{
    match field {
        ConditionField::SpiralAbyss => append_abyss_form_text(out, v),
        ConditionField::Region => append_json_value(out, v),
        _ => append_plain_form_text(out, v),
    }
}

fn append_end_form_text(out: &mut String, field: ConditionField, v: &JsonValue)
    ensures
        final(out)@ == old(out)@ + json_text(end_form_value(field, v@)),
{
    match field {
        ConditionField::SpiralAbyss => append_abyss_form_text(out, v),
        _ => append_plain_form_text(out, v),
    }
}

fn append_member_key(out: &mut String, prefix: &str, key: &str)
    ensures
        final(out)@ == old(out)@ + json_quote(prefix@ + key@) + seq![':'],
{
    let name: String = concat2(prefix, key);
    append_json_string(out, name.as_str());
    push_char(out, ':');
}

fn append_named_member_key(out: &mut String, key: &str)
    ensures
        final(out)@ == old(out)@ + json_quote(key@) + seq![':'],
{
    append_json_string(out, key);
    push_char(out, ':');
}

fn append_empty_form_values(out: &mut String)
    ensures
        final(out)@ == old(out)@ + object_text(form_values(None)),
{
    let ghost start: Seq<char> = out@;
    proof {
        reveal_strlit("");
        assert(""@ =~= Seq::<char>::empty());
    }
    push_char(out, '{');
    append_named_member_key(out, "field");
    append_json_string(out, "");
    push_char(out, ',');
    append_named_member_key(out, "operator");
    append_json_string(out, "");
    push_char(out, '}');
    proof {
        let e = form_values(None);
        assert(e.drop_last() =~= seq![e[0]]);
        reveal_with_fuel(members_text, 2);
    }
    assert(out@ =~= start + object_text(form_values(None)));
}

proof fn lemma_members_push(e: Entries, x: (Seq<char>, JsonValueView))
    requires
        e.len() >= 1,
    ensures
        members_text(e.push(x)) == members_text(e) + seq![','] + json_member(x.0, json_text(x.1)),
{
    assert(e.push(x).drop_last() =~= e);
}

proof fn lemma_members_one(x: (Seq<char>, JsonValueView))
    ensures
        members_text(seq![x]) == json_member(x.0, json_text(x.1)),
{
}

fn append_member(out: &mut String, prefix: &str, key: &str, field: ConditionField, v: &JsonValue, end: bool)
    ensures
        final(out)@ == old(out)@ + json_member(
            prefix@ + key@,
            json_text(
                if end {
                    end_form_value(field, v@)
                } else {
                    start_form_value(field, v@)
                },
            ),
        ),
{
    append_member_key(out, prefix, key);
    if end {
        append_end_form_text(out, field, v);
    } else {
        append_start_form_text(out, field, v);
    }
}

fn append_str_member(out: &mut String, key: &str, value: &str)
    ensures
        final(out)@ == old(out)@ + json_member(key@, json_text(JsonValueView::Str(value@))),
{
    append_named_member_key(out, key);
    append_json_string(out, value);
}

#[verifier::rlimit(50)]
fn append_condition_form_values(out: &mut String, c: &Condition)
    ensures
        final(out)@ == old(out)@ + object_text(form_values(Some(c@))),
{
    let ghost start: Seq<char> = out@;
    let ghost k: Seq<char> = field_key(c.field);
    let ghost x0 = ("field"@, JsonValueView::Str(k));
    let ghost x1 = ("operator"@, JsonValueView::Str(operator_key(c.operator)));
    let ghost x2 = ("value_"@ + k, start_form_value(c.field, c.value@));
    let key: &str = c.field.json_key();
    push_char(out, '{');
    append_str_member(out, "field", key);
    proof {
        lemma_members_one(x0);
    }
    assert(out@ == start + seq!['{'] + members_text(seq![x0]));
    push_char(out, ',');
    append_str_member(out, "operator", c.operator.key());
    proof {
        lemma_members_push(seq![x0], x1);
        assert(seq![x0].push(x1) =~= seq![x0, x1]);
    }
    assert(out@ =~= start + seq!['{'] + members_text(seq![x0, x1]));
    push_char(out, ',');
    append_member(out, "value_", key, c.field, &c.value, false);
    proof {
        lemma_members_push(seq![x0, x1], x2);
        assert(seq![x0, x1].push(x2) =~= seq![x0, x1, x2]);
    }
    assert(out@ =~= start + seq!['{'] + members_text(seq![x0, x1, x2]));
    if c.operator == ConditionOperator::Between {
        if let Some(end) = &c.value_end {
            let ghost x3 = ("value_end_"@ + k, end_form_value(c.field, end@));
            push_char(out, ',');
            append_member(out, "value_end_", key, c.field, end, true);
            proof {
                lemma_members_push(seq![x0, x1, x2], x3);
            }
            assert(out@ =~= start + seq!['{'] + members_text(seq![x0, x1, x2].push(x3)));
        }
    }
    push_char(out, '}');
    proof {
        let e = form_values(Some(c@));
        if c.operator == ConditionOperator::Between && c.value_end is Some {
            assert(e == seq![x0, x1, x2].push(("value_end_"@ + k, end_form_value(c.field, c.value_end->0@))));
        } else {
            assert(e == seq![x0, x1, x2]);
        }
    }
    assert(out@ =~= start + object_text(form_values(Some(c@))));
}

/// The plugin's configuration form, as JSON text, for a role link with the
/// given stored conditions.
pub fn build_config_schema(conditions: &[Condition], verify_url: &str, players_url: &str) -> (r:
    String)
    ensures
        r@ == config_schema_text(conditions@, verify_url@, players_url@),
{
    let mut info: String = String::from_str(INFO_INTRO);
    info.append(verify_url);
    info.append(INFO_MIDDLE);
    info.append(players_url);
    let mut out: String = String::from_str(SCHEMA_HEAD);
    append_json_string(&mut out, info.as_str());
    out.append(SCHEMA_SECTIONS);
    let first: Option<&Condition> = if conditions.len() == 0 {
        None
    } else {
        Some(&conditions[0])
    };
    match first {
        Some(c) => append_condition_form_values(&mut out, c),
        None => append_empty_form_values(&mut out),
    }
    push_char(&mut out, '}');
    assert(out@ =~= config_schema_text(conditions@, verify_url@, players_url@));
    out
}

} // verus!
