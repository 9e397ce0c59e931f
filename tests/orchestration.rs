use horde_attack::attack_orchestration::{apply_all, monster_turn, strike, DAMAGE_HIGH, DAMAGE_LOW};
use horde_attack::video_game_case::{Character, DamageError, DamageOutcome};

#[test]
fn milton_falls_to_ten_monsters() {
    let mut c = Character::new("Milton", 3000);
    let mut drawn = Vec::new();
    let mut landed: i32 = 0;
    for _ in 0..10 {
        let (damages, outcome) = monster_turn(&mut c);
        assert!(DAMAGE_LOW <= damages && damages < DAMAGE_HIGH);
        if outcome.is_ok() {
            landed += damages as i32;
        } else {
            assert_eq!(outcome, Err(DamageError::AlreadyDead));
        }
        drawn.push(damages);
    }
    assert!(!c.alive);
    assert!(c.attack_taken <= 10);
    assert!(c.attack_taken >= 4);
    assert_eq!(c.health as i32, 3000 - landed);
    assert!(drawn.iter().any(|d| *d != DAMAGE_LOW));
}

#[test]
fn every_hit_lands_while_alive() {
    let mut c = Character::new("Milton", 3000);
    let results = apply_all(&mut c, &vec![100, 200, 300, 400]);
    assert_eq!(results, vec![Ok(DamageOutcome::Wounded); 4]);
    assert_eq!(c.health, 2000);
    assert_eq!(c.attack_taken, 4);
    assert!(c.alive);
}

#[test]
fn order_of_hits_does_not_matter() {
    let mut a = Character::new("Milton", 1000);
    let mut b = Character::new("Milton", 1000);
    apply_all(&mut a, &vec![700, 100, 250]);
    apply_all(&mut b, &vec![250, 700, 100]);
    assert_eq!(a.health, -50);
    assert_eq!((a.health, a.alive, a.attack_taken), (b.health, b.alive, b.attack_taken));
    assert!(!a.alive);
}

#[test]
fn hits_after_death_are_refused() {
    let mut c = Character::new("Milton", 3000);
    let results = apply_all(&mut c, &vec![2000, 1500, 700]);
    assert_eq!(
        results,
        vec![Ok(DamageOutcome::Wounded), Ok(DamageOutcome::Killed), Err(DamageError::AlreadyDead)]
    );
    assert_eq!(c.health, -500);
    assert_eq!(c.attack_taken, 2);
    assert!(!c.alive);
}

#[test]
fn hit_count_never_exceeds_attempts() {
    let mut c = Character::new("Milton", 10);
    let results = apply_all(&mut c, &vec![1, 1, 1, 1, 1]);
    assert_eq!(results.len(), 5);
    assert_eq!(c.attack_taken, 5);
    assert_eq!(c.health, 5);
}

#[test]
fn no_hits_change_nothing() {
    let mut c = Character::new("Milton", 0);
    let results = apply_all(&mut c, &Vec::new());
    assert!(results.is_empty());
    assert_eq!(c.health, 0);
    assert!(c.alive);
    assert_eq!(c.attack_taken, 0);
}

#[test]
fn strike_on_negative_health_kills() {
    let mut c = Character::new("Milton", -5);
    assert_eq!(strike(&mut c, 1), Ok(DamageOutcome::Killed));
    assert_eq!(c.health, -6);
    assert!(!c.alive);
    assert_eq!(strike(&mut c, 1), Err(DamageError::AlreadyDead));
    assert_eq!(c.health, -6);
    assert_eq!(c.attack_taken, 1);
}
