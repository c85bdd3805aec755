use rig::message::Message;
use rpg_chat_sandbox::npc::agent::{chat_failure_reply, chat_model, finish_exchange, record_exchange};
use rpg_chat_sandbox::npc::characters::{assess_lowercased, assess_words, Blacksmith};
use rpg_chat_sandbox::npc::characters::blacksmith::Blacksmith as Hulgrim;

#[test]
fn new_chat_blacksmith() {
    let b = Blacksmith::new();
    assert_eq!(b.opinion, 0);
    assert!(b.history.is_empty());
}

#[test]
fn polite_words_raise_opinion() {
    let mut b = Blacksmith::new();
    b.update_opinion("PLEASE, sir");
    assert_eq!(b.opinion, 10);
    b.update_opinion("Thanks a lot");
    assert_eq!(b.opinion, 20);
}

#[test]
fn insults_lower_opinion() {
    let mut b = Blacksmith::new();
    b.update_opinion("You are UGLY and stupid");
    assert_eq!(b.opinion, -10);
    b.update_opinion("I hate this");
    assert_eq!(b.opinion, -20);
}

#[test]
fn mixed_and_neutral_words() {
    let mut b = Blacksmith::new();
    b.update_opinion("please, you stupid smith");
    assert_eq!(b.opinion, 0);
    b.update_opinion("hello there");
    assert_eq!(b.opinion, 0);
    assert_eq!(assess_words("Thank you"), (true, false));
    assert_eq!(assess_words("hateful"), (false, true));
}

#[test]
fn opinion_change_that_would_overflow_is_refused() {
    let mut b = Blacksmith::new();
    b.opinion = i32::MAX;
    assert!(!b.try_update_opinion("please"));
    assert_eq!(b.opinion, i32::MAX);
    assert!(b.try_update_opinion("stupid"));
    assert_eq!(b.opinion, i32::MAX - 10);
    assert!(b.try_update_opinion("hello"));
    b.opinion = i32::MIN;
    assert!(!b.try_update_opinion("ugly"));
    assert!(b.try_update_opinion("please, ugly"));
    assert_eq!(b.opinion, i32::MIN);
}

#[test]
fn forgetting_keeps_the_opinion() {
    let mut b = Blacksmith::new();
    b.update_opinion("please");
    record_exchange(&mut b.history, "hi", "hello");
    assert_eq!(b.history.len(), 2);
    b.forget_session();
    assert!(b.history.is_empty());
    assert_eq!(b.opinion, 10);
}

#[test]
fn preamble_states_the_opinion() {
    let mut b = Blacksmith::new();
    b.opinion = -5;
    let expected = format!(
        "You are a Blacksmith. Your current Opinion of the player is: {}.
            LOGIC RULES:
            - If Opinion > 0: You are willing to sell a sword.
            - If Opinion > 50: You are willing to follow the player.
            - If Opinion > 100: You give the sword for free (price 0).
            - If Opinion < -100: You must ATTACK the player.
            
            Context: You remember what was said in this current conversation. 
            If the player is polite, your opinion improves. If they are insulting, it drops.",
        -5
    );
    assert_eq!(b.get_preamble(), expected);
}

#[test]
fn exchange_is_recorded_in_order() {
    let mut history = vec![Message::user("earlier")];
    record_exchange(&mut history, "How much is the sword?", "Fifty gold.");
    assert_eq!(history, vec![Message::user("earlier"), Message::user("How much is the sword?"), Message::assistant("Fifty gold.")]);
}

#[test]
fn model_choice_and_failure_reply() {
    assert_eq!(chat_model(None), "llama3:latest");
    assert_eq!(chat_model(Some("llama3.2:3b".to_string())), "llama3.2:3b");
    assert_eq!(
        chat_failure_reply("m1", "boom"),
        "I can't answer right now. Ollama request failed for model 'm1'. Set OLLAMA_MODEL to an installed model or run `ollama pull m1`. Underlying error: boom"
    );
}

fn hulgrim() -> Hulgrim<f32> {
    Hulgrim::new(100.0, 5.0, (10.0, 20.0))
}

#[test]
fn hulgrim_starts_at_his_forge() {
    let h = hulgrim();
    assert_eq!(h.name, "Hulgrim");
    assert_eq!(h.opinion, 0);
    assert_eq!(h.inventory.len(), 1);
    assert_eq!(h.inventory[0].name, "Iron Sword");
    assert_eq!(h.inventory[0].price, 50);
    assert_eq!(h.inventory[0].weight, 5.0);
    assert_eq!(h.health, 100.0);
    assert_eq!(h.money, 200);
    assert_eq!(h.position, (10.0, 20.0));
    assert!(!h.is_following);
    assert!(h.history.is_empty());
}

#[test]
fn opinion_changes_are_clamped() {
    let mut h = hulgrim();
    h.update_opinion(50);
    assert_eq!(h.opinion, 10);
    h.update_opinion(-3);
    assert_eq!(h.opinion, 7);
    h.opinion = 95;
    h.update_opinion(10);
    assert_eq!(h.opinion, 100);
    h.opinion = -100;
    h.update_opinion(i32::MIN);
    assert_eq!(h.opinion, -100);
}

#[test]
fn damage_sours_the_opinion() {
    let mut h = hulgrim();
    let after = h.health - 30.0;
    h.take_hit(after);
    assert_eq!(h.health, 70.0);
    assert_eq!(h.opinion, -10);
}

#[test]
fn selling_depends_on_opinion_and_stock() {
    let mut h = hulgrim();
    h.opinion = -11;
    assert!(h.refuses_trade());
    assert!(h.sell_item(0).is_none());
    assert_eq!(h.inventory.len(), 1);
    h.opinion = -10;
    assert!(h.sell_item(1).is_none());
    let sword = h.sell_item(0).unwrap();
    assert_eq!(sword.name, "Iron Sword");
    assert!(h.inventory.is_empty());
    assert!(h.sell_item(0).is_none());
}

#[test]
fn walking_and_following() {
    let mut h = hulgrim();
    h.opinion = -20;
    assert!(!h.go_to(1.0, 2.0));
    assert_eq!(h.position, (10.0, 20.0));
    h.opinion = -19;
    assert!(h.go_to(1.0, 2.0));
    assert_eq!(h.position, (1.0, 2.0));
    h.opinion = 49;
    assert!(!h.toggle_follow());
    assert!(!h.is_following);
    h.opinion = 50;
    assert!(h.toggle_follow());
    assert!(h.is_following);
}

#[test]
fn attacking_and_prompt() {
    let mut h = hulgrim();
    h.opinion = -79;
    assert!(!h.attack_player());
    h.opinion = -80;
    assert!(h.attack_player());
    assert_eq!(
        h.get_full_prompt(),
        "You are Hulgrim, a weary blacksmith who values hard work over talk.\nCURRENT SITUATION: The forge is cold because the nearby mines are infested with goblins.\nYour opinion of the player is -80/100."
    );
    h.forget_session();
    assert_eq!(h.opinion, -80);
}

#[test]
fn lowercased_words_are_assessed() {
    assert_eq!(assess_lowercased("please, you ugly smith"), (true, true));
    assert_eq!(assess_lowercased("PLEASE"), (false, false));
    assert_eq!(assess_lowercased("many thanks"), (true, false));
}

#[test]
fn finishing_an_exchange() {
    let mut history = vec![Message::user("earlier")];
    let reply = finish_exchange(&mut history, "Hello", "m1", Ok("Greetings.".to_string()));
    assert_eq!(reply, "Greetings.");
    assert_eq!(history, vec![Message::user("earlier"), Message::user("Hello"), Message::assistant("Greetings.")]);
    let reply = finish_exchange(&mut history, "Again", "m1", Err("offline".to_string()));
    assert_eq!(
        reply,
        "I can't answer right now. Ollama request failed for model 'm1'. Set OLLAMA_MODEL to an installed model or run `ollama pull m1`. Underlying error: offline"
    );
    assert_eq!(history.len(), 3);
}
