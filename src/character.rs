//! A game character that takes damage from attacks.
use vstd::prelude::*;
use vstd::string::StringExecFns;
use crate::describe::Describe;
use crate::text::{signed_decimal, signed_decimal_text};

verus! {

/// A fighter with a name, a class and combat values.
#[derive(Debug)]
pub struct Character {
    pub first_name: String,
    pub last_name: String,
    pub class: String,
    pub life: i32,
    pub armor: i32,
    pub attack: i32,
}

/// The damage that a blow of strength `damage` deals through armor `armor`: what the
/// armor does not stop, and never less than nothing.
pub open spec fn damage_dealt(damage: int, armor: int) -> int {
    if damage - armor > 0 {
        damage - armor
    } else {
        0
    }
}

/// The display name of a character: `[class] first last`.
pub open spec fn name_text(c: &Character) -> Seq<char> {
    "["@ + c.class@ + "] "@ + c.first_name@ + " "@ + c.last_name@
}

impl Character {
    /// The display name: `[class] first last`.
    pub fn get_name(&self) -> (r: String)
        ensures
            r@ == name_text(self),
    {
        let mut s = String::from_str("[");
        s.append(self.class.as_str());
        s.append("] ");
        s.append(self.first_name.as_str());
        s.append(" ");
        s.append(self.last_name.as_str());
        s
    }

    /// Takes a blow of strength `damage`: life drops by what the armor does not stop.
    /// Nothing bounds life from below, so it may go under zero.
    pub fn take_damages(&mut self, damage: i32)
        requires
            i32::MIN <= damage - old(self).armor <= i32::MAX,
            i32::MIN <= old(self).life - damage_dealt(damage as int, old(self).armor as int),
        ensures
            final(self).life == old(self).life - damage_dealt(damage as int, old(self).armor as int),
            final(self).armor == old(self).armor,
            final(self).attack == old(self).attack,
            final(self).first_name@ == old(self).first_name@,
            final(self).last_name@ == old(self).last_name@,
            final(self).class@ == old(self).class@,
    {
        let through = damage - self.armor;
        let dealt = if through > 0 {
            through
        } else {
            0
        };
        self.life = self.life - dealt;
    }

    /// Is attacked by `other`, and takes a blow of its attack strength.
    pub fn attacked(&mut self, other: &Character)
        requires
            i32::MIN <= other.attack - old(self).armor <= i32::MAX,
            i32::MIN <= old(self).life - damage_dealt(other.attack as int, old(self).armor as int),
        ensures
            final(self).life == old(self).life - damage_dealt(
                other.attack as int,
                old(self).armor as int,
            ),
            final(self).armor == old(self).armor,
            final(self).attack == old(self).attack,
            final(self).first_name@ == old(self).first_name@,
            final(self).last_name@ == old(self).last_name@,
            final(self).class@ == old(self).class@,
    {
        self.take_damages(other.attack);
    }

    /// A wizard named `first_name last_name`, with life 25, armor 2 and attack 6. The
    /// requested attack is ignored.
    pub fn create_wizard(first_name: String, last_name: String, _attack: i32) -> (r: Character)
        ensures
            r.first_name@ == first_name@,
            r.last_name@ == last_name@,
            r.class@ == "wizard"@,
            r.life == 25,
            r.armor == 2,
            r.attack == 6,
    {
        Character {
            first_name,
            last_name,
            class: String::from_str("wizard"),
            life: 25,
            armor: 2,
            attack: 6,
        }
    }

    /// Whether life is exactly zero. A character whose life went below zero does not
    /// count as dead.
    pub fn is_dead(&self) -> (r: bool)
        ensures
            r == (self.life == 0),
    {
        self.life == 0
    }
}

/// Merlin the wizard.
pub fn create_wizard() -> (r: Character)
    ensures
        r.first_name@ == "Merlin"@,
        r.last_name@ == "The Wizard"@,
        r.class@ == "wizard"@,
        r.life == 25,
        r.armor == 2,
        r.attack == 6,
{
    Character::create_wizard(String::from_str("Merlin"), String::from_str("The Wizard"), 500)
}

impl Describe for Character {
    open spec fn description(&self) -> Seq<char> {
        name_text(self) + ", class: "@ + self.class@ + ", attack: "@ + signed_decimal_text(
            self.attack as int,
        ) + ", armor: "@ + signed_decimal_text(self.armor as int) + ", life: "@
            + signed_decimal_text(self.life as int)
    }

    fn describe(&self) -> (r: String) {
        let mut s = self.get_name();
        s.append(", class: ");
        s.append(self.class.as_str());
        s.append(", attack: ");
        let attack = signed_decimal(self.attack as i64);
        s.append(attack.as_str());
        s.append(", armor: ");
        let armor = signed_decimal(self.armor as i64);
        s.append(armor.as_str());
        s.append(", life: ");
        let life = signed_decimal(self.life as i64);
        s.append(life.as_str());
        s
    }
}

} // verus!
