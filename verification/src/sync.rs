//! Role synchronisation: which role assignments change for a player, and the
//! SQL that selects the players a role link admits.
use vstd::prelude::*;

use crate::calendar::now_timestamp;
use crate::condition::{
    Condition, ConditionField, ConditionOperator, ConditionView, field_sql_column, operator_sql,
};
use crate::condition_eval::{
    all_conditions_hold, evaluable, evaluate_conditions_at, opt_str_view, abyss_schedule_covers,
    lemma_clock_covered,
};
use crate::json::{JsonValue, JsonValueView, or_i64};
use crate::player::PlayerInfo;
use crate::text::{decimal, append_decimal_usize};

verus! {

/// Events sent to the player sync worker (lightweight, per-user).
#[derive(Debug)]
pub enum PlayerSyncEvent {
    PlayerUpdated { discord_id: String },
    AccountLinked { discord_id: String },
    AccountUnlinked { discord_id: String },
}

/// Events sent to the config sync worker (heavy, per-role-link).
#[derive(Debug)]
pub struct ConfigSyncEvent {
    pub guild_id: String,
    pub role_id: String,
}

/// A role link as the player sync reads it.
#[derive(Debug)]
pub struct RoleLinkRule {
    pub guild_id: String,
    pub role_id: String,
    pub api_token: String,
    pub conditions: Vec<Condition>,
}

/// A change to one role assignment.
#[derive(Debug)]
pub enum SyncAction {
    Add { guild_id: String, role_id: String, api_token: String },
    Remove { guild_id: String, role_id: String, api_token: String },
}

/// The mathematical value of a [`SyncAction`].
pub struct SyncActionView {
    pub add: bool,
    pub guild_id: Seq<char>,
    pub role_id: Seq<char>,
    pub api_token: Seq<char>,
}

impl View for SyncAction {
    type V = SyncActionView;

    open spec fn view(&self) -> SyncActionView {
        match self {
            SyncAction::Add { guild_id, role_id, api_token } => SyncActionView {
                add: true,
                guild_id: guild_id@,
                role_id: role_id@,
                api_token: api_token@,
            },
            SyncAction::Remove { guild_id, role_id, api_token } => SyncActionView {
                add: false,
                guild_id: guild_id@,
                role_id: role_id@,
                api_token: api_token@,
            },
        }
    }
}

/// Whether the player holds the role `role_id` of guild `guild_id`, given
/// the (guild, role) pairs the player holds; only membership counts, so a
/// pair listed twice is held once.
pub open spec fn is_assigned(existing: Seq<(String, String)>, guild_id: Seq<char>, role_id: Seq<char>) -> bool {
    exists|i: int| 0 <= i < existing.len() && existing[i].0@ == guild_id && existing[i].1@ == role_id
}

/// Whether the player qualifies for a role link.
pub open spec fn qualifies(
    link: RoleLinkRule,
    info: PlayerInfo,
    region: Option<Seq<char>>,
    fetched_at: Option<i64>,
    now: int,
) -> bool {
    all_conditions_hold(link.conditions@, info, region, fetched_at, now)
}

/// The change one role link needs: add the role to a player who qualifies
/// and lacks it, remove it from one who holds it and does not qualify.
pub open spec fn link_action(
    link: RoleLinkRule,
    info: PlayerInfo,
    region: Option<Seq<char>>,
    fetched_at: Option<i64>,
    existing: Seq<(String, String)>,
    now: int,
) -> Seq<SyncActionView> {
    let q = qualifies(link, info, region, fetched_at, now);
    let a = is_assigned(existing, link.guild_id@, link.role_id@);
    if q && !a {
        seq![SyncActionView { add: true, guild_id: link.guild_id@, role_id: link.role_id@, api_token: link.api_token@ }]
    } else if !q && a {
        seq![SyncActionView { add: false, guild_id: link.guild_id@, role_id: link.role_id@, api_token: link.api_token@ }]
    } else {
        Seq::empty()
    }
}

/// The changes all role links need, in the order of the links.
pub open spec fn planned_actions(
    links: Seq<RoleLinkRule>,
    info: PlayerInfo,
    region: Option<Seq<char>>,
    fetched_at: Option<i64>,
    existing: Seq<(String, String)>,
    now: int,
) -> Seq<SyncActionView>
    decreases links.len(),
{
    if links.len() == 0 {
        Seq::empty()
    } else {
        planned_actions(links.drop_last(), info, region, fetched_at, existing, now) + link_action(
            links.last(),
            info,
            region,
            fetched_at,
            existing,
            now,
        )
    }
}

/// Whether every role link's conditions can be evaluated for the player.
pub open spec fn links_evaluable(links: Seq<RoleLinkRule>, info: PlayerInfo) -> bool {
    forall|i: int| 0 <= i < links.len() ==> evaluable((#[trigger] links[i]).conditions@, info)
}

fn holds_assignment(existing: &Vec<(String, String)>, guild_id: &String, role_id: &String) -> (r: bool)
    ensures
        r == is_assigned(existing@, guild_id@, role_id@),
{
    let n: usize = existing.len();
    let mut i: usize = 0;
    while i < n
        invariant
            n == existing@.len(),
            i <= n,
            forall|k: int|
                0 <= k < i ==> !(existing@[k].0@ == guild_id@ && existing@[k].1@ == role_id@),
        decreases n - i,
    {
        if existing[i].0 == *guild_id && existing[i].1 == *role_id {
            return true;
        }
        i = i + 1;
    }
    false
}

/// The role changes a player needs at instant `now`, one per role link whose
/// assignment disagrees with its conditions (evaluated locally, no I/O).
pub fn plan_player_sync_at(
    role_links: &Vec<RoleLinkRule>,
    player_info: &PlayerInfo,
    region: Option<&str>,
    fetched_at: Option<i64>,
    existing: &Vec<(String, String)>,
    now: i64,
) -> (r: Vec<SyncAction>)
    requires
        links_evaluable(role_links@, *player_info),
        abyss_schedule_covers(now as int),
    ensures
        r@.map_values(|a: SyncAction| a@) == planned_actions(
            role_links@,
            *player_info,
            opt_str_view(region),
            fetched_at,
            existing@,
            now as int,
        ),
{
    let mut actions: Vec<SyncAction> = Vec::new();
    let n: usize = role_links.len();
    let mut i: usize = 0;
    while i < n
        invariant
            n == role_links@.len(),
            i <= n,
            links_evaluable(role_links@, *player_info),
            abyss_schedule_covers(now as int),
            actions@.map_values(|a: SyncAction| a@) == planned_actions(
                role_links@.take(i as int),
                *player_info,
                opt_str_view(region),
                fetched_at,
                existing@,
                now as int,
            ),
        decreases n - i,
    {
        let link: &RoleLinkRule = &role_links[i];
        assert(evaluable(role_links@[i as int].conditions@, *player_info));
        let qualifies: bool = evaluate_conditions_at(
            link.conditions.as_slice(),
            player_info,
            region,
            fetched_at,
            now,
        );
        let currently_assigned: bool = holds_assignment(existing, &link.guild_id, &link.role_id);
        let ghost before = actions@.map_values(|a: SyncAction| a@);
        if qualifies && !currently_assigned {
            actions.push(
                SyncAction::Add {
                    guild_id: link.guild_id.clone(),
                    role_id: link.role_id.clone(),
                    api_token: link.api_token.clone(),
                },
            );
        } else if !qualifies && currently_assigned {
            actions.push(
                SyncAction::Remove {
                    guild_id: link.guild_id.clone(),
                    role_id: link.role_id.clone(),
                    api_token: link.api_token.clone(),
                },
            );
        }
        proof {
            let t = role_links@.take(i + 1);
            assert(t.drop_last() =~= role_links@.take(i as int));
            assert(t.last() == role_links@[i as int]);
            assert(actions@.map_values(|a: SyncAction| a@) =~= before + link_action(
                role_links@[i as int],
                *player_info,
                opt_str_view(region),
                fetched_at,
                existing@,
                now as int,
            ));
        }
        i = i + 1;
    }
    assert(role_links@.take(n as int) =~= role_links@);
    actions
}

/// Whether a plan adds the role `role_id` of guild `guild_id`.
pub open spec fn plan_adds(plan: Seq<SyncActionView>, guild_id: Seq<char>, role_id: Seq<char>) -> bool {
    exists|k: int|
        0 <= k < plan.len() && (#[trigger] plan[k]).add && plan[k].guild_id == guild_id && plan[k].role_id
            == role_id
}

/// Whether a plan removes the role `role_id` of guild `guild_id`.
pub open spec fn plan_removes(plan: Seq<SyncActionView>, guild_id: Seq<char>, role_id: Seq<char>) -> bool {
    exists|k: int|
        0 <= k < plan.len() && !(#[trigger] plan[k]).add && plan[k].guild_id == guild_id
            && plan[k].role_id == role_id
}

/// Whether the player holds a role once a plan has been carried out.
pub open spec fn assigned_after(
    existing: Seq<(String, String)>,
    plan: Seq<SyncActionView>,
    guild_id: Seq<char>,
    role_id: Seq<char>,
) -> bool {
    (is_assigned(existing, guild_id, role_id) || plan_adds(plan, guild_id, role_id)) && !plan_removes(
        plan,
        guild_id,
        role_id,
    )
}

/// Whether no two role links are for the same role of the same guild.
pub open spec fn links_distinct(links: Seq<RoleLinkRule>) -> bool {
    forall|a: int, b: int|
        0 <= a < links.len() && 0 <= b < links.len() && a != b ==> !((#[trigger] links[a]).guild_id@
            == (#[trigger] links[b]).guild_id@ && links[a].role_id@ == links[b].role_id@)
}

proof fn lemma_plan_actions_of_links(
    links: Seq<RoleLinkRule>,
    info: PlayerInfo,
    region: Option<Seq<char>>,
    fetched_at: Option<i64>,
    existing: Seq<(String, String)>,
    now: int,
    guild_id: Seq<char>,
    role_id: Seq<char>,
)
    ensures
        plan_adds(planned_actions(links, info, region, fetched_at, existing, now), guild_id, role_id)
            == exists|j: int|
            0 <= j < links.len() && (#[trigger] links[j]).guild_id@ == guild_id && links[j].role_id@
                == role_id && qualifies(links[j], info, region, fetched_at, now) && !is_assigned(
                existing,
                guild_id,
                role_id,
            ),
        plan_removes(planned_actions(links, info, region, fetched_at, existing, now), guild_id, role_id)
            == exists|j: int|
            0 <= j < links.len() && (#[trigger] links[j]).guild_id@ == guild_id && links[j].role_id@
                == role_id && !qualifies(links[j], info, region, fetched_at, now) && is_assigned(
                existing,
                guild_id,
                role_id,
            ),
    decreases links.len(),
{
    if links.len() > 0 {
        let init = links.drop_last();
        let last = links.last();
        lemma_plan_actions_of_links(init, info, region, fetched_at, existing, now, guild_id, role_id);
        let p0 = planned_actions(init, info, region, fetched_at, existing, now);
        let la = link_action(last, info, region, fetched_at, existing, now);
        let p = planned_actions(links, info, region, fetched_at, existing, now);
        assert(p == p0 + la);
        let q = qualifies(last, info, region, fetched_at, now);
        let a = is_assigned(existing, last.guild_id@, last.role_id@);
        let matches_last = last.guild_id@ == guild_id && last.role_id@ == role_id;
        // Adds.
        if plan_adds(p, guild_id, role_id) {
            let k = choose|k: int|
                0 <= k < p.len() && (#[trigger] p[k]).add && p[k].guild_id == guild_id && p[k].role_id
                    == role_id;
            if k < p0.len() {
                assert(p0[k] == p[k]);
                assert(plan_adds(p0, guild_id, role_id));
                let j = choose|j: int|
                    0 <= j < init.len() && (#[trigger] init[j]).guild_id@ == guild_id
                        && init[j].role_id@ == role_id && qualifies(init[j], info, region, fetched_at, now)
                        && !is_assigned(existing, guild_id, role_id);
                assert(links[j] == init[j]);
            } else {
                assert(la[k - p0.len()] == p[k]);
                assert(links[links.len() - 1] == last);
            }
        }
        if exists|j: int|
            0 <= j < links.len() && (#[trigger] links[j]).guild_id@ == guild_id && links[j].role_id@
                == role_id && qualifies(links[j], info, region, fetched_at, now) && !is_assigned(
                existing,
                guild_id,
                role_id,
            ) {
            let j = choose|j: int|
                0 <= j < links.len() && (#[trigger] links[j]).guild_id@ == guild_id && links[j].role_id@
                    == role_id && qualifies(links[j], info, region, fetched_at, now) && !is_assigned(
                    existing,
                    guild_id,
                    role_id,
                );
            if j < init.len() {
                assert(init[j] == links[j]);
                let k = choose|k: int|
                    0 <= k < p0.len() && (#[trigger] p0[k]).add && p0[k].guild_id == guild_id
                        && p0[k].role_id == role_id;
                assert(p[k] == p0[k]);
            } else {
                assert(links[j] == last);
                assert(p[p0.len() as int] == la[0]);
            }
        }
        // Removals.
        if plan_removes(p, guild_id, role_id) {
            let k = choose|k: int|
                0 <= k < p.len() && !(#[trigger] p[k]).add && p[k].guild_id == guild_id
                    && p[k].role_id == role_id;
            if k < p0.len() {
                assert(p0[k] == p[k]);
                assert(plan_removes(p0, guild_id, role_id));
                let j = choose|j: int|
                    0 <= j < init.len() && (#[trigger] init[j]).guild_id@ == guild_id
                        && init[j].role_id@ == role_id && !qualifies(init[j], info, region, fetched_at, now)
                        && is_assigned(existing, guild_id, role_id);
                assert(links[j] == init[j]);
            } else {
                assert(la[k - p0.len()] == p[k]);
                assert(links[links.len() - 1] == last);
            }
        }
        if exists|j: int|
            0 <= j < links.len() && (#[trigger] links[j]).guild_id@ == guild_id && links[j].role_id@
                == role_id && !qualifies(links[j], info, region, fetched_at, now) && is_assigned(
                existing,
                guild_id,
                role_id,
            ) {
            let j = choose|j: int|
                0 <= j < links.len() && (#[trigger] links[j]).guild_id@ == guild_id && links[j].role_id@
                    == role_id && !qualifies(links[j], info, region, fetched_at, now) && is_assigned(
                    existing,
                    guild_id,
                    role_id,
                );
            if j < init.len() {
                assert(init[j] == links[j]);
                let k = choose|k: int|
                    0 <= k < p0.len() && !(#[trigger] p0[k]).add && p0[k].guild_id == guild_id
                        && p0[k].role_id == role_id;
                assert(p[k] == p0[k]);
            } else {
                assert(links[j] == last);
                assert(p[p0.len() as int] == la[0]);
            }
        }
    }
}

/// Carrying out the plan leaves the player holding exactly the roles whose
/// conditions they meet, for every role link (when no two links share a
/// role).
pub proof fn sync_plan_matches_qualification(
    links: Seq<RoleLinkRule>,
    info: PlayerInfo,
    region: Option<Seq<char>>,
    fetched_at: Option<i64>,
    existing: Seq<(String, String)>,
    now: int,
    i: int,
)
    requires
        links_distinct(links),
        0 <= i < links.len(),
    ensures
        assigned_after(
            existing,
            planned_actions(links, info, region, fetched_at, existing, now),
            links[i].guild_id@,
            links[i].role_id@,
        ) == qualifies(links[i], info, region, fetched_at, now),
{
    let g = links[i].guild_id@;
    let r = links[i].role_id@;
    lemma_plan_actions_of_links(links, info, region, fetched_at, existing, now, g, r);
    assert forall|j: int|
        0 <= j < links.len() && (#[trigger] links[j]).guild_id@ == g && links[j].role_id@ == r implies j
        == i by {
        if j != i {
            assert(!((links[j]).guild_id@ == (links[i]).guild_id@ && links[j].role_id@
                == links[i].role_id@));
        }
    }
}

proof fn lemma_plan_empty_when_settled(
    links: Seq<RoleLinkRule>,
    info: PlayerInfo,
    region: Option<Seq<char>>,
    fetched_at: Option<i64>,
    existing: Seq<(String, String)>,
    now: int,
)
    requires
        forall|i: int|
            0 <= i < links.len() ==> is_assigned(existing, (#[trigger] links[i]).guild_id@, links[i].role_id@)
                == qualifies(links[i], info, region, fetched_at, now),
    ensures
        planned_actions(links, info, region, fetched_at, existing, now).len() == 0,
    decreases links.len(),
{
    if links.len() > 0 {
        let init = links.drop_last();
        assert forall|i: int| 0 <= i < init.len() implies is_assigned(
            existing,
            (#[trigger] init[i]).guild_id@,
            init[i].role_id@,
        ) == qualifies(init[i], info, region, fetched_at, now) by {
            assert(init[i] == links[i]);
        }
        lemma_plan_empty_when_settled(init, info, region, fetched_at, existing, now);
        assert(links[links.len() - 1] == links.last());
    }
}

/// Syncing twice changes nothing the second time: once a plan has been
/// carried out, the plan made from the resulting assignments (with the same
/// data, at the same instant) is empty, when no two links share a role.
pub proof fn sync_plan_is_idempotent(
    links: Seq<RoleLinkRule>,
    info: PlayerInfo,
    region: Option<Seq<char>>,
    fetched_at: Option<i64>,
    existing: Seq<(String, String)>,
    after: Seq<(String, String)>,
    now: int,
)
    requires
        links_distinct(links),
        forall|i: int|
            0 <= i < links.len() ==> is_assigned(after, (#[trigger] links[i]).guild_id@, links[i].role_id@)
                == assigned_after(
                existing,
                planned_actions(links, info, region, fetched_at, existing, now),
                links[i].guild_id@,
                links[i].role_id@,
            ),
    ensures
        planned_actions(links, info, region, fetched_at, after, now).len() == 0,
{
    assert forall|i: int| 0 <= i < links.len() implies is_assigned(
        after,
        (#[trigger] links[i]).guild_id@,
        links[i].role_id@,
    ) == qualifies(links[i], info, region, fetched_at, now) by {
        sync_plan_matches_qualification(links, info, region, fetched_at, existing, now, i);
    }
    lemma_plan_empty_when_settled(links, info, region, fetched_at, after, now);
}

/// A value bound to a positional parameter of a condition query.
#[derive(Debug)]
pub enum ConditionBind {
    Int(i64),
    Text(String),
}

/// The mathematical value of a [`ConditionBind`].
pub enum ConditionBindView {
    Int(i64),
    Text(Seq<char>),
}

impl View for ConditionBind {
    type V = ConditionBindView;

    open spec fn view(&self) -> ConditionBindView {
        match self {
            ConditionBind::Int(i) => ConditionBindView::Int(*i),
            ConditionBind::Text(s) => ConditionBindView::Text(s@),
        }
    }
}

pub const SQL_AVATAR_PREFIX: &'static str =
    "pc.player_info->'showAvatarInfoList' @> concat('[{\"avatarId\":', $";

pub const SQL_AVATAR_SUFFIX: &'static str = "::text, '}]')::jsonb";

pub const SQL_NAME_CARD_PREFIX: &'static str = "pc.player_info->'showNameCardIdList' @> concat('[', $";

pub const SQL_NAME_CARD_SUFFIX: &'static str = "::text, ']')::jsonb";

pub const SQL_REGION_PREFIX: &'static str = "LOWER(pc.region) = LOWER($";

/// The SQL test of one condition, whose first value is bound at position
/// `idx` (a range binds its end at `idx + 1`). Numeric and region conditions
/// use extracted columns; HasAvatar and HasNameCard use JSONB containment.
pub open spec fn condition_clause(c: ConditionView, idx: int) -> Seq<char> {
    match c.field {
        ConditionField::Region => SQL_REGION_PREFIX@ + decimal(idx) + ")"@,
        ConditionField::HasAvatar => SQL_AVATAR_PREFIX@ + decimal(idx) + SQL_AVATAR_SUFFIX@,
        ConditionField::HasNameCard => SQL_NAME_CARD_PREFIX@ + decimal(idx) + SQL_NAME_CARD_SUFFIX@,
        _ => field_sql_column(c.field)->0 + " "@ + operator_sql(c.operator) + " $"@ + decimal(idx) + (
        if c.operator == ConditionOperator::Between {
            " AND $"@ + decimal(idx + 1)
        } else {
            Seq::empty()
        }),
    }
}

/// The end of a range condition: `value_end` when it holds an integer, else
/// the start (as the evaluation reads it).
pub open spec fn range_end(c: ConditionView) -> i64 {
    match c.value_end {
        Some(v) => or_i64(v.as_i64(), or_i64(c.value.as_i64(), 0)),
        None => or_i64(c.value.as_i64(), 0),
    }
}

/// The values bound for one condition, in order: the region text, the
/// target id, or the compared number; a numeric range binds its start and
/// its end.
pub open spec fn condition_binds(c: ConditionView) -> Seq<ConditionBindView> {
    match c.field {
        ConditionField::Region => seq![
            ConditionBindView::Text(
                match c.value.as_str() {
                    Some(s) => s,
                    None => Seq::empty(),
                },
            ),
        ],
        ConditionField::HasAvatar => seq![ConditionBindView::Int(or_i64(c.value.as_i64(), 0))],
        ConditionField::HasNameCard => seq![ConditionBindView::Int(or_i64(c.value.as_i64(), 0))],
        _ => if c.operator == ConditionOperator::Between {
            seq![ConditionBindView::Int(or_i64(c.value.as_i64(), 0)), ConditionBindView::Int(range_end(c))]
        } else {
            seq![ConditionBindView::Int(or_i64(c.value.as_i64(), 0))]
        },
    }
}

/// The values bound for all conditions, in order.
pub open spec fn all_binds(conds: Seq<Condition>) -> Seq<ConditionBindView>
    decreases conds.len(),
{
    if conds.len() == 0 {
        Seq::empty()
    } else {
        all_binds(conds.drop_last()) + condition_binds(conds.last()@)
    }
}

/// The tests of all conditions joined by `AND`; each condition binds its
/// values right after those of the conditions before it.
pub open spec fn joined_clauses(conds: Seq<Condition>) -> Seq<char>
    decreases conds.len(),
{
    if conds.len() == 0 {
        Seq::empty()
    } else if conds.len() == 1 {
        condition_clause(conds[0]@, 1)
    } else {
        joined_clauses(conds.drop_last()) + " AND "@ + condition_clause(
            conds.last()@,
            all_binds(conds.drop_last()).len() + 1int,
        )
    }
}

/// The WHERE clause that admits the players meeting all conditions.
pub open spec fn where_clause(conds: Seq<Condition>) -> Seq<char> {
    if conds.len() == 0 {
        "TRUE"@
    } else {
        joined_clauses(conds)
    }
}

proof fn lemma_binds_bounded(conds: Seq<Condition>)
    ensures
        all_binds(conds).len() <= 2 * conds.len(),
    decreases conds.len(),
{
    if conds.len() > 0 {
        lemma_binds_bounded(conds.drop_last());
    }
}

fn append_condition_clause(s: &mut String, c: &Condition, idx: usize)
    requires
        idx < usize::MAX,
    ensures
        final(s)@ == old(s)@ + condition_clause(c@, idx as int),
{
    proof {
        reveal_strlit("");
    }
    match c.field {
        ConditionField::Region => {
            s.append(SQL_REGION_PREFIX);
            append_decimal_usize(s, idx);
            s.append(")");
        },
        ConditionField::HasAvatar => {
            s.append(SQL_AVATAR_PREFIX);
            append_decimal_usize(s, idx);
            s.append(SQL_AVATAR_SUFFIX);
        },
        ConditionField::HasNameCard => {
            s.append(SQL_NAME_CARD_PREFIX);
            append_decimal_usize(s, idx);
            s.append(SQL_NAME_CARD_SUFFIX);
        },
        _ => {
            let col: &str = c.field.sql_column().unwrap();
            s.append(col);
            s.append(" ");
            s.append(c.operator.sql_operator());
            s.append(" $");
            append_decimal_usize(s, idx);
            if c.operator == ConditionOperator::Between {
                s.append(" AND $");
                append_decimal_usize(s, idx + 1);
            }
        },
    }
    assert(final(s)@ =~= old(s)@ + condition_clause(c@, idx as int));
}

fn int_or_zero_of(v: &JsonValue) -> (r: i64)
    ensures
        r == or_i64(v@.as_i64(), 0),
{
    match v.as_i64() {
        Some(x) => x,
        None => 0,
    }
}

fn push_binds(binds: &mut Vec<ConditionBind>, c: &Condition)
    ensures
        final(binds)@.map_values(|b: ConditionBind| b@) == old(binds)@.map_values(|b: ConditionBind| b@)
            + condition_binds(c@),
{
    let ghost before = binds@;
    match c.field {
        ConditionField::Region => {
            let v: &str = match c.value.as_str() {
                Some(t) => t,
                None => "",
            };
            proof {
                reveal_strlit("");
                assert(""@ =~= Seq::<char>::empty());
            }
            binds.push(ConditionBind::Text(String::from_str(v)));
        },
        ConditionField::HasAvatar | ConditionField::HasNameCard => {
            binds.push(ConditionBind::Int(int_or_zero_of(&c.value)));
        },
        _ => {
            let start: i64 = int_or_zero_of(&c.value);
            binds.push(ConditionBind::Int(start));
            if c.operator == ConditionOperator::Between {
                let end: i64 = match &c.value_end {
                    Some(v) => match v.as_i64() {
                        Some(e) => e,
                        None => start,
                    },
                    None => start,
                };
                binds.push(ConditionBind::Int(end));
            }
        },
    }
    assert(binds@.map_values(|b: ConditionBind| b@) =~= before.map_values(|b: ConditionBind| b@)
        + condition_binds(c@));
}

/// Build a SQL WHERE clause from conditions for SQL-side filtering.
/// Returns (where_clause_string, bind_values) where bind values are positional ($N).
pub fn build_condition_where(conditions: &[Condition]) -> (r: (String, Vec<ConditionBind>))
    requires
        2 * conditions@.len() + 2 <= usize::MAX,
    ensures
        r.0@ == where_clause(conditions@),
        r.1@.map_values(|b: ConditionBind| b@) == all_binds(conditions@),
{
    if conditions.len() == 0 {
        proof {
            assert(all_binds(conditions@) =~= Seq::<ConditionBindView>::empty());
        }
        return (String::from_str("TRUE"), Vec::new());
    }
    let mut clauses: String = String::new();
    let mut binds: Vec<ConditionBind> = Vec::new();
    let n: usize = conditions.len();
    let mut i: usize = 0;
    while i < n
        invariant
            n == conditions@.len(),
            2 * n + 2 <= usize::MAX,
            n > 0,
            i <= n,
            clauses@ == joined_clauses(conditions@.take(i as int)),
            binds@.map_values(|b: ConditionBind| b@) == all_binds(conditions@.take(i as int)),
        decreases n - i,
    {
        let ghost t = conditions@.take(i + 1);
        let ghost prev = conditions@.take(i as int);
        assert(t.drop_last() =~= prev);
        assert(t.last() == conditions@[i as int]);
        proof {
            lemma_binds_bounded(prev);
            assert(binds@.len() == binds@.map_values(|b: ConditionBind| b@).len());
        }
        let idx: usize = binds.len() + 1;
        if i > 0 {
            clauses.append(" AND ");
        } else {
            assert(clauses@ =~= Seq::<char>::empty());
            assert(prev =~= Seq::<Condition>::empty());
        }
        append_condition_clause(&mut clauses, &conditions[i], idx);
        push_binds(&mut binds, &conditions[i]);
        assert(clauses@ =~= joined_clauses(t));
        i = i + 1;
    }
    assert(conditions@.take(n as int) =~= conditions@);
    (clauses, binds)
}

pub const SQL_SELECT_QUALIFYING: &'static str = "SELECT la.discord_id ";

pub const SQL_COUNT_QUALIFYING: &'static str = "SELECT COUNT(*) ";

pub const SQL_QUALIFYING_FROM: &'static str =
    "FROM linked_accounts la JOIN player_cache pc ON pc.uid = la.uid JOIN user_guilds ug ON ug.discord_id = la.discord_id AND ug.guild_id = $";

/// The queries that select the players a role link admits.
#[derive(Debug)]
pub struct RoleLinkQueries {
    /// The ids of the qualifying members of the guild, earliest linked
    /// first, up to the user limit.
    pub select_sql: String,
    /// The number of qualifying members of the guild.
    pub count_sql: String,
    /// The condition values, bound first.
    pub binds: Vec<ConditionBind>,
    /// The position of the guild id parameter.
    pub guild_bind_index: usize,
    /// The position of the user limit parameter.
    pub limit_bind_index: usize,
}

/// The query for the qualifying members of a guild, up to a limit: the
/// guild and the limit are bound after the condition values.
pub open spec fn select_qualifying_sql(conds: Seq<Condition>) -> Seq<char> {
    SQL_SELECT_QUALIFYING@ + SQL_QUALIFYING_FROM@ + decimal(all_binds(conds).len() + 1int)
        + " WHERE "@ + where_clause(conds) + " ORDER BY la.linked_at ASC LIMIT $"@ + decimal(
        all_binds(conds).len() + 2int,
    )
}

/// The query for the number of qualifying members of a guild.
pub open spec fn count_qualifying_sql(conds: Seq<Condition>) -> Seq<char> {
    SQL_COUNT_QUALIFYING@ + SQL_QUALIFYING_FROM@ + decimal(all_binds(conds).len() + 1int)
        + " WHERE "@ + where_clause(conds)
}

/// A condition on a stat stored in its own column tests that column with
/// the condition's own comparison, in SQL spelling (`=`, `>`, `>=`, `<`,
/// `<=`, or `BETWEEN` the start and the end), against the values bound at
/// its positions.
pub proof fn stat_clauses_use_their_operator(c: ConditionView, idx: int)
    requires
        c.field != ConditionField::Region,
        c.field != ConditionField::HasAvatar,
        c.field != ConditionField::HasNameCard,
    ensures
        condition_clause(c, idx) == field_sql_column(c.field)->0 + " "@ + match c.operator {
            ConditionOperator::Eq => "="@,
            ConditionOperator::Gt => ">"@,
            ConditionOperator::Gte => ">="@,
            ConditionOperator::Lt => "<"@,
            ConditionOperator::Lte => "<="@,
            ConditionOperator::Between => "BETWEEN"@,
        } + " $"@ + decimal(idx) + (if c.operator == ConditionOperator::Between {
            " AND $"@ + decimal(idx + 1)
        } else {
            Seq::empty()
        }),
        condition_binds(c)[0] == ConditionBindView::Int(or_i64(c.value.as_i64(), 0)),
        c.operator == ConditionOperator::Between ==> condition_binds(c).len() == 2
            && condition_binds(c)[1] == ConditionBindView::Int(range_end(c)),
        c.operator != ConditionOperator::Between ==> condition_binds(c).len() == 1,
{
}

/// A single condition makes the whole WHERE clause, its values bound from
/// position 1.
pub proof fn single_condition_where(conds: Seq<Condition>)
    requires
        conds.len() == 1,
    ensures
        where_clause(conds) == condition_clause(conds[0]@, 1),
        all_binds(conds) == condition_binds(conds[0]@),
{
    assert(conds.drop_last() =~= Seq::<Condition>::empty());
    assert(all_binds(conds.drop_last()) =~= Seq::<ConditionBindView>::empty());
    assert(all_binds(conds) =~= condition_binds(conds[0]@));
}

/// Builds the queries for a role link's conditions: the condition values
/// take the first positions, then the guild id, then the limit.
pub fn role_link_queries(conditions: &[Condition]) -> (r: RoleLinkQueries)
    requires
        2 * conditions@.len() + 2 <= usize::MAX,
    ensures
        r.select_sql@ == select_qualifying_sql(conditions@),
        r.count_sql@ == count_qualifying_sql(conditions@),
        r.binds@.map_values(|b: ConditionBind| b@) == all_binds(conditions@),
        r.guild_bind_index == all_binds(conditions@).len() + 1,
        r.limit_bind_index == all_binds(conditions@).len() + 2,
{
    let (where_sql, binds) = build_condition_where(conditions);
    proof {
        assert(binds@.len() == binds@.map_values(|b: ConditionBind| b@).len());
        lemma_binds_bounded(conditions@);
    }
    let guild_bind_idx: usize = binds.len() + 1;
    let limit_bind_idx: usize = binds.len() + 2;
    let mut select_sql: String = String::from_str(SQL_SELECT_QUALIFYING);
    select_sql.append(SQL_QUALIFYING_FROM);
    append_decimal_usize(&mut select_sql, guild_bind_idx);
    select_sql.append(" WHERE ");
    select_sql.append(where_sql.as_str());
    select_sql.append(" ORDER BY la.linked_at ASC LIMIT $");
    append_decimal_usize(&mut select_sql, limit_bind_idx);
    let mut count_sql: String = String::from_str(SQL_COUNT_QUALIFYING);
    count_sql.append(SQL_QUALIFYING_FROM);
    append_decimal_usize(&mut count_sql, guild_bind_idx);
    count_sql.append(" WHERE ");
    count_sql.append(where_sql.as_str());
    RoleLinkQueries {
        select_sql,
        count_sql,
        binds,
        guild_bind_index: guild_bind_idx,
        limit_bind_index: limit_bind_idx,
    }
}

/// The user limit assumed when RoleLogic cannot be asked (the free plan's).
pub const DEFAULT_USER_LIMIT: usize = 100;

/// The user limit of a role link: the one RoleLogic reports, or the default.
pub fn user_limit_or_default(reported: Option<usize>) -> (r: usize)
    ensures
        r == (match reported {
            Some(l) => l,
            None => DEFAULT_USER_LIMIT,
        }),
{
    match reported {
        Some(l) => l,
        None => DEFAULT_USER_LIMIT,
    }
}

/// Whether the qualifying list may have been cut at the user limit, so that
/// the qualifying members are worth counting.
pub fn may_exceed_limit(qualifying: usize, user_limit: usize) -> (r: bool)
    ensures
        r == (qualifying != 0 && qualifying == user_limit),
{
    qualifying != 0 && qualifying == user_limit
}

/// The role changes a player needs now.
pub fn plan_player_sync(
    role_links: &Vec<RoleLinkRule>,
    player_info: &PlayerInfo,
    region: Option<&str>,
    fetched_at: Option<i64>,
    existing: &Vec<(String, String)>,
) -> (r: Vec<SyncAction>)
    requires
        links_evaluable(role_links@, *player_info),
    ensures
        exists|now: int|
            abyss_schedule_covers(now) && r@.map_values(|a: SyncAction| a@) == planned_actions(
                role_links@,
                *player_info,
                opt_str_view(region),
                fetched_at,
                existing@,
                now,
            ),
{
    let now: i64 = now_timestamp();
    proof {
        lemma_clock_covered(now as int);
    }
    plan_player_sync_at(role_links, player_info, region, fetched_at, existing, now)
}

} // verus!
