//! The combat data model: stat blocks for the two sides of a fight and the
//! finite state machine that tracks an encounter's progress.

use crate::rng::rand_below;
use vstd::prelude::*;
use vstd::string::StringExecFns;

verus! {

/// One side's current combat stat block: the hero or a monster instance.
///
/// `health` may go negative transiently; the engine checks it against 1 after
/// every turn. `max_health` is informational here: this engine never clamps
/// `health` upward (healing logic lives elsewhere). `negative_feedback` is
/// the rubber-banding counter: it grows by one for each exchange this side
/// wins, dragging its own later rolls down, and resets to zero the moment
/// this side loses one — so long fights converge instead of stalling.
#[derive(Copy, Clone, Debug, PartialEq, Eq, Structural)]
pub struct Combatant {
    pub health: i32,
    pub max_health: i32,
    pub proficiency: i32,
    pub damage_res: i32,
    pub damage_bonus: i32,
    pub negative_feedback: i32,
}

impl Default for Combatant {
    /// A zeroed stat block.
    fn default() -> (r: Self)
        ensures
            r.health == 0,
            r.max_health == 0,
            r.proficiency == 0,
            r.damage_res == 0,
            r.damage_bonus == 0,
            r.negative_feedback == 0,
    {
        Combatant {
            health: 0,
            max_health: 0,
            proficiency: 0,
            damage_res: 0,
            damage_bonus: 0,
            negative_feedback: 0,
        }
    }
}

/// A flat stat adjustment applied to a combatant outside of turn resolution
/// (equipment, potions and the like).
#[derive(Copy, Clone, Debug, PartialEq, Eq, Structural)]
pub struct StatBonus {
    pub max_health: i32,
    pub proficiency: i32,
    pub damage_res: i32,
    pub damage_bonus: i32,
}

impl Combatant {
    /// The data-model invariant on a stat block that comes from static
    /// content: `max_health` is never negative. `health` carries no such
    /// bound — it may drop below zero transiently during a fight.
    pub open spec fn wf(self) -> bool {
        self.max_health >= 0
    }

    /// Adds a flat stat bonus to every stat it covers; current health is
    /// untouched.
    pub fn boost(&mut self, stats: StatBonus)
        requires
            i32::MIN <= old(self).max_health + stats.max_health <= i32::MAX,
            i32::MIN <= old(self).proficiency + stats.proficiency <= i32::MAX,
            i32::MIN <= old(self).damage_res + stats.damage_res <= i32::MAX,
            i32::MIN <= old(self).damage_bonus + stats.damage_bonus <= i32::MAX,
        ensures
            final(self).max_health == old(self).max_health + stats.max_health,
            final(self).proficiency == old(self).proficiency + stats.proficiency,
            final(self).damage_res == old(self).damage_res + stats.damage_res,
            final(self).damage_bonus == old(self).damage_bonus + stats.damage_bonus,
            final(self).health == old(self).health,
            final(self).negative_feedback == old(self).negative_feedback,
    {
        self.max_health = self.max_health + stats.max_health;
        self.proficiency = self.proficiency + stats.proficiency;
        self.damage_res = self.damage_res + stats.damage_res;
        self.damage_bonus = self.damage_bonus + stats.damage_bonus;
    }
}

/// Progress of one combat encounter.
///
/// `Init` precedes the first resolved turn; `InProgress` is entered once a
/// turn resolves without a death. `EnemyDead` and `HeroDead` record a turn's
/// lethal outcome; the engine never leaves them. `Ended` is bookkeeping for
/// the caller once loot and narration have been handled: the engine itself
/// never reads it nor transitions into it.
#[derive(Copy, Clone, Debug, PartialEq, Eq, Structural)]
pub enum CombatState {
    Init,
    InProgress,
    EnemyDead,
    HeroDead,
    Ended,
}

impl CombatState {
    /// Whether the engine is done with this encounter: turn resolution only
    /// accepts `Init` and `InProgress`, and a caller is expected to check
    /// here first — resolving a turn of a finished combat is a programming
    /// error.
    pub fn is_terminal(&self) -> (r: bool)
        ensures
            r == (*self != CombatState::Init && *self != CombatState::InProgress),
    {
        match self {
            CombatState::Init | CombatState::InProgress => false,
            _ => true,
        }
    }
}

impl Default for CombatState {
    fn default() -> (r: Self)
        ensures
            r == CombatState::Init,
    {
        CombatState::Init
    }
}

/// The player's persistent side of every fight.
#[derive(Copy, Clone, Debug, PartialEq, Eq, Structural)]
pub struct Hero {
    pub combat_stats: Combatant,
}

impl Default for Hero {
    fn default() -> (r: Self)
        ensures
            r.combat_stats == (Combatant {
                health: 0,
                max_health: 0,
                proficiency: 0,
                damage_res: 0,
                damage_bonus: 0,
                negative_feedback: 0,
            }),
    {
        Hero { combat_stats: Combatant::default() }
    }
}

/// Identifies an enemy template. A closed enumeration: every monster the
/// game can spawn is listed here, and `Unknown` is the placeholder of a
/// default-constructed template, not a fallback (enemies have none; a lookup
/// miss is a configuration error).
#[derive(Clone, Debug, PartialEq, Eq, Structural, Hash)]
pub enum EnemyId {
    Unknown,
    Rat,
    GoblinBrat,
    GoblinShieldbearer,
    GoblinSwordsman,
    OrcWarrior,
    Skeleton,
    Zombie,
    OgreNecromancer,
}

impl Default for EnemyId {
    fn default() -> (r: Self)
        ensures
            r == EnemyId::Unknown,
    {
        EnemyId::Unknown
    }
}

/// Identifies an item a defeated enemy can drop.
#[derive(Copy, Clone, Debug, PartialEq, Eq, Structural, Hash)]
pub enum ItemId {
    Croissant,
    Athelas,
    HealthPotion,
    Vial,
    TurtleHerb,
    CandleStick,
    EmptyLantern,
    FireEssence,
    MediumShield,
    Scroll,
}

/// A weighted loot list: `items` and `chances` are index-aligned parallel
/// sequences. A weight of 0 means the item is never selected; an empty table
/// yields no drops.
#[derive(Clone, Debug)]
pub struct DropTable {
    pub items: Vec<ItemId>,
    pub chances: Vec<u32>,
}

impl DropTable {
    /// The load-time invariant: the two parallel lists line up. A mismatch is
    /// a fatal configuration error, caught by validation before any drop is
    /// ever resolved.
    pub open spec fn wf(self) -> bool {
        self.items@.len() == self.chances@.len()
    }

    /// Checks the parallel-list invariant on a freshly loaded table.
    pub fn validate(&self) -> (r: bool)
        ensures
            r == self.wf(),
    {
        self.items.len() == self.chances.len()
    }
}

impl Default for DropTable {
    /// An empty table: nothing ever drops from it.
    fn default() -> (r: Self)
        ensures
            r.items@.len() == 0,
            r.chances@.len() == 0,
            r.wf(),
    {
        DropTable { items: Vec::new(), chances: Vec::new() }
    }
}

/// A static enemy template: identity, the stat block a fight starts from,
/// display name, the narrative text shown on encounter, and the loot awarded
/// when it dies.
#[derive(Clone, Debug)]
pub struct Enemy {
    pub enemy_id: EnemyId,
    pub combat_stats: Combatant,
    pub name: String,
    pub enter_combat_text: TextType,
    pub drop_table: DropTable,
}

impl Enemy {
    /// A template is well formed when its drop table is and its initial stat
    /// block honors the `Combatant` invariant.
    pub open spec fn wf(self) -> bool {
        &&& self.drop_table.wf()
        &&& self.combat_stats.wf()
    }
}

impl Default for Enemy {
    /// The placeholder template: no identity, zeroed stats, empty loot.
    fn default() -> (r: Self)
        ensures
            r.enemy_id == EnemyId::Unknown,
            r.combat_stats == (Combatant {
                health: 0,
                max_health: 0,
                proficiency: 0,
                damage_res: 0,
                damage_bonus: 0,
                negative_feedback: 0,
            }),
            r.name@ == "Empty enemy"@,
            r.enter_combat_text == TextType::EnterRat,
            r.drop_table.items@.len() == 0,
            r.drop_table.chances@.len() == 0,
            r.wf(),
    {
        Enemy {
            enemy_id: EnemyId::Unknown,
            combat_stats: Combatant::default(),
            name: String::from_str("Empty enemy"),
            enter_combat_text: TextType::EnterRat,
            drop_table: DropTable::default(),
        }
    }
}

/// Narrative text keys: encounter openers and the three per-turn combat
/// messages surfaced to the caller's notification channel.
#[derive(Copy, Clone, Debug, PartialEq, Eq, Structural)]
pub enum TextType {
    EnterRat,
    EnterLittleMonster,
    EnterBigMonster,
    EnterSkeleton,
    EnterZombie,
    CombatHeroHit,
    CombatEnemyHit,
    CombatNoResolution,
}

/// The single notification a resolved turn produces.
#[derive(Copy, Clone, Debug, PartialEq, Eq, Structural)]
pub enum TurnOutcome {
    /// The monster won the exchange: the hero took damage.
    HeroHit,
    /// The hero won the exchange: the monster took damage.
    EnemyHit,
    /// The rolls tied: nothing changed.
    NoResolution,
}

impl TurnOutcome {
    /// The message text key a caller shows for this outcome.
    pub fn message(self) -> (t: TextType)
        ensures
            self == TurnOutcome::HeroHit ==> t == TextType::CombatHeroHit,
            self == TurnOutcome::EnemyHit ==> t == TextType::CombatEnemyHit,
            self == TurnOutcome::NoResolution ==> t == TextType::CombatNoResolution,
    {
        match self {
            TurnOutcome::HeroHit => TextType::CombatHeroHit,
            TurnOutcome::EnemyHit => TextType::CombatEnemyHit,
            TurnOutcome::NoResolution => TextType::CombatNoResolution,
        }
    }
}

/// A side's effective attack roll: the raw die result plus its proficiency,
/// minus the rubber-banding penalty its own winning streak has accumulated.
pub open spec fn roll_of(raw: u32, c: Combatant) -> int {
    raw + c.proficiency - c.negative_feedback
}

/// `d / 2` rounded to the nearest integer, halves away from zero, for `d >= 0`.
pub open spec fn half_rounded(d: int) -> int
    recommends
        d >= 0,
{
    (d + 1) / 2
}

/// Damage is clamped to [1, 500]: at least 1 so a fight cannot stall on zero
/// damage, at most 500 so pathological stats cannot one-shot through overflow.
pub open spec fn clamp_damage(raw: int) -> int {
    if raw < 1 {
        1
    } else if raw > 500 {
        500
    } else {
        raw
    }
}

/// The damage a winning attacker deals, given the roll margin it won by.
pub open spec fn hit_damage(attacker: Combatant, defender: Combatant, margin: int) -> int
    recommends
        margin > 0,
{
    clamp_damage(attacker.damage_bonus - defender.damage_res + half_rounded(margin))
}

/// How one resolved exchange rewrites the two stat blocks when `pre_att` won
/// it against `pre_def`: the defender loses `hit_damage` health and has its
/// feedback counter reset, the attacker's feedback counter grows by one, and
/// every other field of both is untouched.
pub open spec fn hit_applied(
    pre_att: Combatant,
    pre_def: Combatant,
    post_att: Combatant,
    post_def: Combatant,
    margin: int,
) -> bool {
    &&& post_def.health == pre_def.health - hit_damage(pre_att, pre_def, margin)
    &&& post_def.negative_feedback == 0
    &&& post_def.max_health == pre_def.max_health
    &&& post_def.proficiency == pre_def.proficiency
    &&& post_def.damage_res == pre_def.damage_res
    &&& post_def.damage_bonus == pre_def.damage_bonus
    &&& post_att.health == pre_att.health
    &&& post_att.negative_feedback == pre_att.negative_feedback + 1
    &&& post_att.max_health == pre_att.max_health
    &&& post_att.proficiency == pre_att.proficiency
    &&& post_att.damage_res == pre_att.damage_res
    &&& post_att.damage_bonus == pre_att.damage_bonus
}

/// The state a turn leaves the encounter in, decided after damage has been
/// applied: a death on either side wins (hero first), otherwise a first
/// resolved turn moves `Init` forward to `InProgress`.
pub open spec fn next_state(s: CombatState, hero_health: int, monster_health: int) -> CombatState {
    if hero_health < 1 {
        CombatState::HeroDead
    } else if monster_health < 1 {
        CombatState::EnemyDead
    } else if s == CombatState::Init {
        CombatState::InProgress
    } else {
        s
    }
}

/// The full effect of one resolved turn, given the two raw die results:
/// whichever side's effective roll is higher hits the other, a tie changes
/// nothing, and the combat state advances by `next_state`.
pub open spec fn turn_spec(
    pre_m: Combatant,
    pre_h: Combatant,
    pre_s: CombatState,
    post_m: Combatant,
    post_h: Combatant,
    post_s: CombatState,
    out: TurnOutcome,
    monster_raw: u32,
    hero_raw: u32,
) -> bool {
    let mr = roll_of(monster_raw, pre_m);
    let hr = roll_of(hero_raw, pre_h);
    &&& if mr > hr {
        &&& out == TurnOutcome::HeroHit
        &&& hit_applied(pre_m, pre_h, post_m, post_h, mr - hr)
    } else if hr > mr {
        &&& out == TurnOutcome::EnemyHit
        &&& hit_applied(pre_h, pre_m, post_h, post_m, hr - mr)
    } else {
        &&& out == TurnOutcome::NoResolution
        &&& post_m == pre_m
        &&& post_h == pre_h
    }
    &&& post_s == next_state(pre_s, post_h.health as int, post_m.health as int)
}

/// How far along its lifecycle a combat state is; transitions never lower it.
pub open spec fn state_rank(s: CombatState) -> int {
    match s {
        CombatState::Init => 0,
        CombatState::InProgress => 1,
        CombatState::EnemyDead => 2,
        CombatState::HeroDead => 2,
        CombatState::Ended => 3,
    }
}

/// Law: per resolved turn, exactly one of three things happens — the hero's
/// health drops, the monster's health drops, or neither stat block changes
/// at all — and each coincides with the turn's one outcome notification.
/// Never do both sides take damage in one call.
pub proof fn lemma_one_side_per_turn(
    pre_m: Combatant,
    pre_h: Combatant,
    pre_s: CombatState,
    post_m: Combatant,
    post_h: Combatant,
    post_s: CombatState,
    out: TurnOutcome,
    monster_raw: u32,
    hero_raw: u32,
)
    requires
        turn_spec(pre_m, pre_h, pre_s, post_m, post_h, post_s, out, monster_raw, hero_raw),
    ensures
        (post_h.health < pre_h.health) <==> out == TurnOutcome::HeroHit,
        (post_m.health < pre_m.health) <==> out == TurnOutcome::EnemyHit,
        (post_h == pre_h && post_m == pre_m) <==> out == TurnOutcome::NoResolution,
{
}

/// Law: whenever a hit is recorded, the damage that reached the defender's
/// health lies in [1, 500] — for every roll and stat combination, negative
/// bonus and resistance extremes included.
pub proof fn lemma_hit_damage_in_range(
    pre_m: Combatant,
    pre_h: Combatant,
    pre_s: CombatState,
    post_m: Combatant,
    post_h: Combatant,
    post_s: CombatState,
    out: TurnOutcome,
    monster_raw: u32,
    hero_raw: u32,
)
    requires
        turn_spec(pre_m, pre_h, pre_s, post_m, post_h, post_s, out, monster_raw, hero_raw),
    ensures
        out == TurnOutcome::HeroHit ==> 1 <= pre_h.health - post_h.health <= 500,
        out == TurnOutcome::EnemyHit ==> 1 <= pre_m.health - post_m.health <= 500,
{
}

/// Law: the rubber-banding counters move in lockstep with the outcome. The
/// side that won the exchange has `negative_feedback` grow by exactly 1
/// (penalizing its next rolls), the side that lost has it reset to exactly
/// 0, and a tie leaves both counters untouched.
pub proof fn lemma_negative_feedback_step(
    pre_m: Combatant,
    pre_h: Combatant,
    pre_s: CombatState,
    post_m: Combatant,
    post_h: Combatant,
    post_s: CombatState,
    out: TurnOutcome,
    monster_raw: u32,
    hero_raw: u32,
)
    requires
        turn_spec(pre_m, pre_h, pre_s, post_m, post_h, post_s, out, monster_raw, hero_raw),
    ensures
        out == TurnOutcome::HeroHit ==> post_m.negative_feedback == pre_m.negative_feedback + 1
            && post_h.negative_feedback == 0,
        out == TurnOutcome::EnemyHit ==> post_h.negative_feedback == pre_h.negative_feedback + 1
            && post_m.negative_feedback == 0,
        out == TurnOutcome::NoResolution ==> post_m.negative_feedback
            == pre_m.negative_feedback && post_h.negative_feedback == pre_h.negative_feedback,
{
}

/// Law: the state machine only moves forward. From `Init` or `InProgress` a
/// non-lethal turn reaches `InProgress`; health crossing below 1 on either
/// side reaches the matching dead state (the hero's death taking
/// precedence); and the state's rank never drops. The rank clause is stated
/// over every state but `Ended` — turn resolution itself admits only `Init`
/// and `InProgress`, and `Ended` is the one state the engine never reads,
/// the caller's own closing bookkeeping.
pub proof fn lemma_state_moves_forward(
    pre_m: Combatant,
    pre_h: Combatant,
    pre_s: CombatState,
    post_m: Combatant,
    post_h: Combatant,
    post_s: CombatState,
    out: TurnOutcome,
    monster_raw: u32,
    hero_raw: u32,
)
    requires
        turn_spec(pre_m, pre_h, pre_s, post_m, post_h, post_s, out, monster_raw, hero_raw),
        pre_s != CombatState::Ended,
    ensures
        (pre_s == CombatState::Init || pre_s == CombatState::InProgress) && post_h.health >= 1
            && post_m.health >= 1 ==> post_s == CombatState::InProgress,
        post_h.health < 1 ==> post_s == CombatState::HeroDead,
        post_h.health >= 1 && post_m.health < 1 ==> post_s == CombatState::EnemyDead,
        state_rank(post_s) >= state_rank(pre_s),
{
}

/// Resolves one combat turn from two already-drawn raw die results, each the
/// face of a twelve-sided die numbered 0 to 11.
///
/// The combat must not already be over: calling on `EnemyDead`, `HeroDead` or
/// `Ended` is a caller programming error and is excluded by contract. The
/// health and feedback bounds only keep the bookkeeping inside `i32`; stats
/// from static game content sit far inside them.
pub fn process_combat_with_rolls(
    monster: &mut Combatant,
    hero: &mut Combatant,
    cmbt_state: &mut CombatState,
    monster_raw: u32,
    hero_raw: u32,
) -> (out: TurnOutcome)
    requires
        monster_raw < 12,
        hero_raw < 12,
        *old(cmbt_state) == CombatState::Init || *old(cmbt_state) == CombatState::InProgress,
        old(hero).health >= i32::MIN + 500,
        old(monster).health >= i32::MIN + 500,
        old(hero).negative_feedback < i32::MAX,
        old(monster).negative_feedback < i32::MAX,
    ensures
        turn_spec(
            *old(monster),
            *old(hero),
            *old(cmbt_state),
            *final(monster),
            *final(hero),
            *final(cmbt_state),
            out,
            monster_raw,
            hero_raw,
        ),
{
    let monster_roll: i64 = monster_raw as i64 + monster.proficiency as i64
        - monster.negative_feedback as i64;
    let hero_roll: i64 = hero_raw as i64 + hero.proficiency as i64
        - hero.negative_feedback as i64;

    let out: TurnOutcome;
    if monster_roll > hero_roll {
        let diff: i64 = (monster_roll - hero_roll + 1) / 2;
        let raw_damage: i64 = monster.damage_bonus as i64 - hero.damage_res as i64 + diff;
        let damage: i64 = if raw_damage < 1 {
            1
        } else if raw_damage > 500 {
            500
        } else {
            raw_damage
        };
        hero.health = hero.health - damage as i32;
        monster.negative_feedback = monster.negative_feedback + 1;
        hero.negative_feedback = 0;
        out = TurnOutcome::HeroHit;
    } else if hero_roll > monster_roll {
        let diff: i64 = (hero_roll - monster_roll + 1) / 2;
        let raw_damage: i64 = hero.damage_bonus as i64 + diff - monster.damage_res as i64;
        let damage: i64 = if raw_damage < 1 {
            1
        } else if raw_damage > 500 {
            500
        } else {
            raw_damage
        };
        monster.health = monster.health - damage as i32;
        monster.negative_feedback = 0;
        hero.negative_feedback = hero.negative_feedback + 1;
        out = TurnOutcome::EnemyHit;
    } else {
        out = TurnOutcome::NoResolution;
    }

    if hero.health < 1 {
        *cmbt_state = CombatState::HeroDead;
    } else if monster.health < 1 {
        *cmbt_state = CombatState::EnemyDead;
    } else if *cmbt_state == CombatState::Init {
        *cmbt_state = CombatState::InProgress;
    }
    out
}

/// Resolves one combat turn, drawing both sides' twelve-sided dice from the
/// process-wide random source.
///
/// Which pair of raw die results came up cannot be promised, so the contract
/// says the call behaved as `process_combat_with_rolls` would for *some* pair
/// below 12; everything a caller may rely on independent of the dice follows
/// from `turn_spec` for that pair.
pub fn process_combat(
    monster: &mut Combatant,
    hero: &mut Combatant,
    cmbt_state: &mut CombatState,
) -> (out: TurnOutcome)
    requires
        *old(cmbt_state) == CombatState::Init || *old(cmbt_state) == CombatState::InProgress,
        old(hero).health >= i32::MIN + 500,
        old(monster).health >= i32::MIN + 500,
        old(hero).negative_feedback < i32::MAX,
        old(monster).negative_feedback < i32::MAX,
    ensures
        exists|monster_raw: u32, hero_raw: u32|
            monster_raw < 12 && hero_raw < 12 && turn_spec(
                *old(monster),
                *old(hero),
                *old(cmbt_state),
                *final(monster),
                *final(hero),
                *final(cmbt_state),
                out,
                monster_raw,
                hero_raw,
            ),
{
    let monster_raw: u32 = rand_below(12) as u32;
    let hero_raw: u32 = rand_below(12) as u32;
    let out = process_combat_with_rolls(monster, hero, cmbt_state, monster_raw, hero_raw);
    proof {
        assert(turn_spec(
            *old(monster),
            *old(hero),
            *old(cmbt_state),
            *monster,
            *hero,
            *cmbt_state,
            out,
            monster_raw,
            hero_raw,
        ));
    }
    out
}

} // verus!
