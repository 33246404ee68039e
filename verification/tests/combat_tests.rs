use bag_goblin::combat::{
    process_combat, process_combat_with_rolls, Combatant, CombatState, Hero, StatBonus, TextType,
    TurnOutcome,
};

fn hero_block() -> Combatant {
    Combatant {
        health: 20,
        max_health: 20,
        proficiency: 3,
        damage_res: 2,
        damage_bonus: 5,
        negative_feedback: 0,
    }
}

fn monster_block() -> Combatant {
    Combatant {
        health: 10,
        max_health: 10,
        proficiency: 1,
        damage_res: 1,
        damage_bonus: 3,
        negative_feedback: 0,
    }
}

#[test]
fn forced_rolls_hero_hits_for_seven() {
    // hero_roll = 6 + 3 - 0 = 9, monster_roll = 3 + 1 - 0 = 4:
    // damage = clamp(5 + round(5/2) - 1, 1, 500) = 7.
    let mut hero = hero_block();
    let mut monster = monster_block();
    let mut state = CombatState::InProgress;
    let out = process_combat_with_rolls(&mut monster, &mut hero, &mut state, 3, 6);
    assert_eq!(out, TurnOutcome::EnemyHit);
    assert_eq!(monster.health, 3);
    assert_eq!(hero.health, 20);
    assert_eq!(hero.negative_feedback, 1);
    assert_eq!(monster.negative_feedback, 0);
    assert_eq!(state, CombatState::InProgress);
}

#[test]
fn forced_rolls_repeated_until_enemy_dead() {
    // The same effective rolls (9 vs 4) repeated; the second hit takes the
    // monster below 1 health and the state follows.
    let mut hero = hero_block();
    let mut monster = monster_block();
    let mut state = CombatState::InProgress;

    let out1 = process_combat_with_rolls(&mut monster, &mut hero, &mut state, 3, 6);
    assert_eq!(out1, TurnOutcome::EnemyHit);
    assert_eq!(monster.health, 3);
    assert_eq!(state, CombatState::InProgress);

    // Hero now carries negative_feedback 1, so a raw of 7 keeps its roll at 9.
    let out2 = process_combat_with_rolls(&mut monster, &mut hero, &mut state, 3, 7);
    assert_eq!(out2, TurnOutcome::EnemyHit);
    assert_eq!(monster.health, -4);
    assert_eq!(state, CombatState::EnemyDead);
    assert_eq!(hero.negative_feedback, 2);
}

#[test]
fn equal_rolls_change_nothing() {
    // hero_roll = 3 + 3 = 6, monster_roll = 5 + 1 = 6.
    let mut hero = hero_block();
    let mut monster = monster_block();
    let mut state = CombatState::InProgress;
    let out = process_combat_with_rolls(&mut monster, &mut hero, &mut state, 5, 3);
    assert_eq!(out, TurnOutcome::NoResolution);
    assert_eq!(hero, hero_block());
    assert_eq!(monster, monster_block());
    assert_eq!(state, CombatState::InProgress);
}

#[test]
fn first_non_lethal_turn_leaves_init() {
    let mut hero = hero_block();
    let mut monster = monster_block();
    let mut state = CombatState::Init;
    let out = process_combat_with_rolls(&mut monster, &mut hero, &mut state, 3, 6);
    assert_eq!(out, TurnOutcome::EnemyHit);
    assert_eq!(state, CombatState::InProgress);
}

#[test]
fn tie_on_init_also_starts_the_fight() {
    let mut hero = hero_block();
    let mut monster = monster_block();
    let mut state = CombatState::Init;
    let out = process_combat_with_rolls(&mut monster, &mut hero, &mut state, 5, 3);
    assert_eq!(out, TurnOutcome::NoResolution);
    assert_eq!(state, CombatState::InProgress);
}

#[test]
fn monster_win_kills_hero() {
    let mut hero = Combatant { health: 3, ..hero_block() };
    let mut monster = monster_block();
    let mut state = CombatState::InProgress;
    // monster_roll = 11 + 1 = 12, hero_roll = 0 + 3 = 3: margin 9,
    // damage = clamp(3 - 2 + round(9/2), 1, 500) = clamp(1 + 5, ..) = 6.
    let out = process_combat_with_rolls(&mut monster, &mut hero, &mut state, 11, 0);
    assert_eq!(out, TurnOutcome::HeroHit);
    assert_eq!(hero.health, -3);
    assert_eq!(state, CombatState::HeroDead);
    assert_eq!(monster.negative_feedback, 1);
    assert_eq!(hero.negative_feedback, 0);
}

#[test]
fn damage_clamps_up_to_one_under_heavy_resistance() {
    let mut hero = Combatant { damage_res: 100, ..hero_block() };
    let mut monster = monster_block();
    let mut state = CombatState::InProgress;
    // monster_roll = 5, hero_roll = 3: margin 2, raw damage 3 - 100 + 1 < 1.
    let out = process_combat_with_rolls(&mut monster, &mut hero, &mut state, 4, 0);
    assert_eq!(out, TurnOutcome::HeroHit);
    assert_eq!(hero.health, 19);
    assert_eq!(state, CombatState::InProgress);
}

#[test]
fn damage_clamps_down_to_five_hundred() {
    let mut hero = Combatant { health: 1000, max_health: 1000, ..hero_block() };
    let mut monster = Combatant { damage_bonus: 100_000, ..monster_block() };
    let mut state = CombatState::InProgress;
    let out = process_combat_with_rolls(&mut monster, &mut hero, &mut state, 11, 0);
    assert_eq!(out, TurnOutcome::HeroHit);
    assert_eq!(hero.health, 500);
    assert_eq!(state, CombatState::InProgress);
}

#[test]
fn negative_bonus_extremes_still_deal_at_least_one() {
    let mut hero = Combatant { damage_bonus: -50, ..hero_block() };
    let mut monster = Combatant { damage_res: -3, ..monster_block() };
    let mut state = CombatState::InProgress;
    // hero_roll = 11 + 3 = 14, monster_roll = 0 + 1 = 1: margin 13,
    // raw damage = -50 + round(13/2) - (-3) = -40 -> clamped to 1.
    let out = process_combat_with_rolls(&mut monster, &mut hero, &mut state, 0, 11);
    assert_eq!(out, TurnOutcome::EnemyHit);
    assert_eq!(monster.health, 9);
}

#[test]
fn random_turns_hurt_exactly_one_side() {
    for _ in 0..200 {
        let mut hero = hero_block();
        let mut monster = monster_block();
        let mut state = CombatState::InProgress;
        let out = process_combat(&mut monster, &mut hero, &mut state);
        let hero_lost = hero.health < 20;
        let monster_lost = monster.health < 10;
        match out {
            TurnOutcome::HeroHit => {
                assert!(hero_lost && !monster_lost);
                assert!((1..=500).contains(&(20 - hero.health)));
                assert_eq!(monster.negative_feedback, 1);
                assert_eq!(hero.negative_feedback, 0);
            }
            TurnOutcome::EnemyHit => {
                assert!(monster_lost && !hero_lost);
                assert!((1..=500).contains(&(10 - monster.health)));
                assert_eq!(hero.negative_feedback, 1);
                assert_eq!(monster.negative_feedback, 0);
            }
            TurnOutcome::NoResolution => {
                assert_eq!(hero, hero_block());
                assert_eq!(monster, monster_block());
            }
        }
    }
}

#[test]
fn outcome_messages_match_notifications() {
    assert_eq!(TurnOutcome::HeroHit.message(), TextType::CombatHeroHit);
    assert_eq!(TurnOutcome::EnemyHit.message(), TextType::CombatEnemyHit);
    assert_eq!(TurnOutcome::NoResolution.message(), TextType::CombatNoResolution);
}

#[test]
fn boost_adds_flat_stats_and_keeps_health() {
    let mut c = hero_block();
    c.boost(StatBonus { max_health: 5, proficiency: 2, damage_res: -1, damage_bonus: 4 });
    assert_eq!(c.max_health, 25);
    assert_eq!(c.proficiency, 5);
    assert_eq!(c.damage_res, 1);
    assert_eq!(c.damage_bonus, 9);
    assert_eq!(c.health, 20);
    assert_eq!(c.negative_feedback, 0);
}

#[test]
fn only_dead_or_ended_states_are_terminal() {
    assert!(!CombatState::Init.is_terminal());
    assert!(!CombatState::InProgress.is_terminal());
    assert!(CombatState::EnemyDead.is_terminal());
    assert!(CombatState::HeroDead.is_terminal());
    assert!(CombatState::Ended.is_terminal());
}

#[test]
fn default_blocks_are_zeroed() {
    let c = Combatant::default();
    assert_eq!(c.health, 0);
    assert_eq!(c.max_health, 0);
    assert_eq!(c.proficiency, 0);
    assert_eq!(c.damage_res, 0);
    assert_eq!(c.damage_bonus, 0);
    assert_eq!(c.negative_feedback, 0);
    assert_eq!(CombatState::default(), CombatState::Init);
    assert_eq!(Hero::default().combat_stats, c);
}
