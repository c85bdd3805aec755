use rpg_chat_sandbox::npc::tools::{attack, follow, sell, AttackArgs, TradeArgs};
use rpg_chat_sandbox::text::{contains_text, decimal_text, eq_ignore_ascii_case_text, signed_decimal_text};

#[test]
fn attack_names_the_target() {
    let r = attack(AttackArgs { target: "the player".to_string() });
    assert_eq!(r, "SYSTEM_ACTION: You swing your heavy hammer at the player!");
}

#[test]
fn follow_reports_following() {
    assert_eq!(follow(), "SYSTEM_ACTION: I'm right behind you, lead the way.");
}

#[test]
fn sell_for_gold() {
    let r = sell(TradeArgs { item: "Iron Sword".to_string(), price: 50 });
    assert_eq!(r, "SYSTEM_ACTION: Sold Iron Sword for 50 gold.");
}

#[test]
fn sell_for_free() {
    let r = sell(TradeArgs { item: "Iron Sword".to_string(), price: 0 });
    assert_eq!(r, "SYSTEM_ACTION: You hand over the Iron Sword for free. 'On the house!'");
}

#[test]
fn sell_at_largest_price() {
    let r = sell(TradeArgs { item: "Crown".to_string(), price: u32::MAX });
    assert_eq!(r, "SYSTEM_ACTION: Sold Crown for 4294967295 gold.");
}

#[test]
fn decimal_rendering_matches_display() {
    for n in [0u64, 7, 10, 99, 100, 12345, u64::MAX] {
        assert_eq!(decimal_text(n), n.to_string());
    }
    for i in [0i32, 5, -5, -10, 100, -100, i32::MAX, i32::MIN] {
        assert_eq!(signed_decimal_text(i), i.to_string());
    }
}

#[test]
fn substring_search() {
    assert!(contains_text("please help", "please"));
    assert!(contains_text("thank you", "thank"));
    assert!(contains_text("abc", ""));
    assert!(contains_text("", ""));
    assert!(!contains_text("", "a"));
    assert!(!contains_text("plea", "please"));
    assert!(contains_text("naïve café", "café"));
    assert!(!contains_text("Please", "please"));
}

#[test]
fn ascii_case_insensitive_comparison() {
    assert!(eq_ignore_ascii_case_text("Player", "player"));
    assert!(eq_ignore_ascii_case_text("BLACKSMITH", "Blacksmith"));
    assert!(!eq_ignore_ascii_case_text("Player", "Players"));
    assert!(!eq_ignore_ascii_case_text("Éclair", "éclair"));
    assert!(eq_ignore_ascii_case_text("", ""));
}
