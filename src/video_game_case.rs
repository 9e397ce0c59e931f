//! Entities that take damage: a `Monster` and the `Character` it attacks.
//!
//! Both follow one rule. A living entity loses `amount` health per hit and
//! counts the hit; it dies, for good, the first time its health reaches zero
//! or less. A dead entity refuses every further hit and keeps its state.
use vstd::prelude::*;

verus! {

/// What a damage application means for the health-carrying part of an entity.
pub ghost struct Vitals {
    pub health: int,
    pub alive: bool,
    pub attack_taken: int,
}

/// The state after one hit of `amount` on `v`.
pub open spec fn struck(v: Vitals, amount: int) -> Vitals {
    if v.alive {
        Vitals {
            health: v.health - amount,
            alive: v.health - amount > 0,
            attack_taken: v.attack_taken + 1,
        }
    } else {
        v
    }
}

/// Whether a hit of `amount` on `v` keeps health in `i16` and leaves room in
/// an `i16` hit counter.
pub open spec fn fits_i16_counter(v: Vitals, amount: int) -> bool {
    v.alive ==> {
        &&& i16::MIN <= v.health - amount <= i16::MAX
        &&& v.attack_taken < i16::MAX
    }
}

/// A dead entity has no health left.
pub open spec fn vitals_wf(v: Vitals) -> bool {
    !v.alive ==> v.health <= 0
}

/// How an accepted hit ended.
#[derive(Debug, Clone, Copy, PartialEq, Eq, Structural)]
pub enum DamageOutcome {
    /// The entity took the hit and is still alive.
    Wounded,
    /// The hit brought health to zero or below: the entity died.
    Killed,
}

/// Why a hit was refused.
#[derive(Debug, Clone, Copy, PartialEq, Eq, Structural)]
pub enum DamageError {
    /// The entity was dead before the hit; nothing changed.
    AlreadyDead,
}

/// What a hit of `amount` on `v` reports.
pub open spec fn damage_result(v: Vitals, amount: int) -> Result<DamageOutcome, DamageError> {
    if !v.alive {
        Err(DamageError::AlreadyDead)
    } else if v.health - amount > 0 {
        Ok(DamageOutcome::Wounded)
    } else {
        Ok(DamageOutcome::Killed)
    }
}

#[derive(Debug)]
pub struct Monster {
    pub health: i16,
    pub alive: bool,
    pub attack_taken: u64,
}

impl View for Monster {
    type V = Vitals;

    open spec fn view(&self) -> Vitals {
        Vitals {
            health: self.health as int,
            alive: self.alive,
            attack_taken: self.attack_taken as int,
        }
    }
}

impl Monster {
    pub open spec fn wf(&self) -> bool {
        vitals_wf(self@)
    }

    /// Whether a hit of `amount` can be recorded without leaving the range of
    /// the fields.
    pub open spec fn can_take(&self, amount: i16) -> bool {
        self.alive ==> {
            &&& i16::MIN <= self.health - amount <= i16::MAX
            &&& self.attack_taken < u64::MAX
        }
    }

    /// A living monster with the given health that has taken no hit.
    pub fn new(health: i16) -> (r: Self)
        ensures
            r.health == health,
            r.alive,
            r.attack_taken == 0,
            r.wf(),
    {
        Self { health, alive: true, attack_taken: 0 }
    }

    /// Applies one hit; a dead monster refuses it and is left unchanged.
    pub fn take_damage(&mut self, amount: i16) -> (r: Result<DamageOutcome, DamageError>)
        requires
            old(self).can_take(amount),
        ensures
            final(self)@ == struck(old(self)@, amount as int),
            r == damage_result(old(self)@, amount as int),
            old(self).wf() ==> final(self).wf(),
    {
        if self.alive {
            self.health = self.health - amount;
            self.attack_taken = self.attack_taken + 1;
            if self.health <= 0 {
                self.alive = false;
                Ok(DamageOutcome::Killed)
            } else {
                Ok(DamageOutcome::Wounded)
            }
        } else {
            Err(DamageError::AlreadyDead)
        }
    }

    /// Hits `player` with `amount`; the monster itself does not change.
    pub fn attack(&self, player: &mut Character, amount: i16) -> (r: Result<DamageOutcome, DamageError>)
        requires
            old(player).can_take(amount),
        ensures
            final(player)@ == struck(old(player)@, amount as int),
            final(player).name@ == old(player).name@,
            r == damage_result(old(player)@, amount as int),
    {
        player.take_damage(amount)
    }
}

impl Default for Monster {
    /// A living monster with 1000 health that has taken no hit.
    fn default() -> (r: Self)
        ensures
            r.health == 1000,
            r.alive,
            r.attack_taken == 0,
    {
        Self { health: 1000, alive: true, attack_taken: 0 }
    }
}

#[derive(Debug)]
pub struct Character {
    pub name: String,
    pub health: i16,
    pub alive: bool,
    pub attack_taken: i16,
}

impl View for Character {
    type V = Vitals;

    open spec fn view(&self) -> Vitals {
        Vitals {
            health: self.health as int,
            alive: self.alive,
            attack_taken: self.attack_taken as int,
        }
    }
}

impl Character {
    /// A dead character has no health left, and the hit count is never negative.
    pub open spec fn wf(&self) -> bool {
        vitals_wf(self@) && self.attack_taken >= 0
    }

    /// Whether a hit of `amount` can be recorded without leaving the range of
    /// the fields.
    pub open spec fn can_take(&self, amount: i16) -> bool {
        fits_i16_counter(self@, amount as int)
    }

    /// Tells whether a hit of `amount` can be recorded.
    pub fn can_take_hit(&self, amount: i16) -> (r: bool)
        ensures
            r == self.can_take(amount),
    {
        !self.alive || (i16::MIN as i32 <= self.health as i32 - amount as i32 && self.health as i32
            - amount as i32 <= i16::MAX as i32 && self.attack_taken < i16::MAX)
    }

    /// A living character with the given name and health that has taken no hit.
    pub fn new(name: &str, health: i16) -> (r: Self)
        ensures
            r.name@ == name@,
            r.health == health,
            r.alive,
            r.attack_taken == 0,
            r.wf(),
    {
        Self { name: name.to_string(), health, alive: true, attack_taken: 0 }
    }

    /// Applies one hit; a dead character refuses it and is left unchanged.
    /// The caller holds the character exclusively for the whole call.
    pub fn take_damage(&mut self, amount: i16) -> (r: Result<DamageOutcome, DamageError>)
        requires
            old(self).can_take(amount),
        ensures
            final(self)@ == struck(old(self)@, amount as int),
            final(self).name@ == old(self).name@,
            r == damage_result(old(self)@, amount as int),
            old(self).wf() ==> final(self).wf(),
    {
        if self.alive {
            self.health = self.health - amount;
            self.attack_taken = self.attack_taken + 1;
            if self.health <= 0 {
                self.alive = false;
                Ok(DamageOutcome::Killed)
            } else {
                Ok(DamageOutcome::Wounded)
            }
        } else {
            Err(DamageError::AlreadyDead)
        }
    }
}

} // verus!
