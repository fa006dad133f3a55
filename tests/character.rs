use rustlab::character::{create_wizard, Character};

fn fighter(class: &str, life: i32, armor: i32, attack: i32) -> Character {
    Character {
        first_name: String::from("f"),
        last_name: String::from("l"),
        class: String::from(class),
        life,
        armor,
        attack,
    }
}

#[test]
fn attack_1() {
    let mut c1 = Character {
        first_name: String::from("f1"),
        last_name: String::from("l1"),
        class: String::from("c1"),
        life: 100,
        armor: 0,
        attack: 1,
    };

    let c2 = Character {
        first_name: String::from("f2"),
        last_name: String::from("l2"),
        class: String::from("c2"),
        life: 200,
        armor: 0,
        attack: 100,
    };

    c1.attacked(&c2);
    assert!(c1.is_dead());
}

#[test]
fn armor_absorbs_part_of_a_blow() {
    let mut hero = fighter("Barbarian", 105, 5, 86);
    let bad = fighter("Barbarian", 165, 4, 96);
    hero.attacked(&bad);
    assert_eq!(hero.life, 14);
    assert!(!hero.is_dead());
    hero.attacked(&bad);
    assert_eq!(hero.life, -77);
    assert!(!hero.is_dead());
}

#[test]
fn weak_blow_deals_nothing() {
    let mut c = fighter("c", 10, 8, 0);
    c.take_damages(3);
    assert_eq!(c.life, 10);
}

#[test]
fn name_is_bracketed_class_then_names() {
    let c = Character {
        first_name: "Conan".to_string(),
        last_name: "The Barbarian".to_string(),
        class: "Barbarian".to_string(),
        life: 50,
        armor: 5,
        attack: 25,
    };
    assert_eq!(c.get_name(), "[Barbarian] Conan The Barbarian");
}

#[test]
fn wizard_has_fixed_stats() {
    let w = create_wizard();
    assert_eq!(w.first_name, "Merlin");
    assert_eq!(w.last_name, "The Wizard");
    assert_eq!(w.class, "wizard");
    assert_eq!((w.life, w.armor, w.attack), (25, 2, 6));
    let w2 = Character::create_wizard("a".to_string(), "b".to_string(), 999);
    assert_eq!(w2.attack, 6);
}
