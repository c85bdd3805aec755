//! Hulgrim, the blacksmith as a full character: a backstory and the situation
//! he is in, an opinion of the player kept between -100 and 100, goods to
//! sell, health, money and a place in the world.
//!
//! `F` is the type the game measures health, weight and positions in; the
//! character stores such values and hands them back, but never computes with
//! them.

use vstd::prelude::*;
use vstd::string::*;
use rig::message::Message;
use crate::npc::Item;
use crate::text::{signed_decimal, signed_decimal_text};

verus! {

/// `x` brought into the range `lo..=hi`.
pub open spec fn clamp(x: int, lo: int, hi: int) -> int {
    if x < lo {
        lo
    } else if x > hi {
        hi
    } else {
        x
    }
}

/// The opinion after a change of `amount`: the change is held to at most ten
/// either way, and the opinion to the range -100..=100.
pub open spec fn opinion_after(opinion: int, amount: int) -> int {
    clamp(opinion + clamp(amount, -10, 10), -100, 100)
}

/// The prompt of a character with the given backstory, situation and opinion.
pub open spec fn full_prompt(base_prompt: Seq<char>, story_context: Seq<char>, opinion: int) -> Seq<char> {
    base_prompt + "\nCURRENT SITUATION: "@ + story_context + "\nYour opinion of the player is "@
        + signed_decimal(opinion) + "/100."@
}

fn clamp_i64(x: i64, lo: i64, hi: i64) -> (r: i64)
    requires
        lo <= hi,
    ensures
        r == clamp(x as int, lo as int, hi as int),
{
    if x < lo {
        lo
    } else if x > hi {
        hi
    } else {
        x
    }
}

/// Hulgrim the blacksmith.
pub struct Blacksmith<F> {
    pub name: String,
    /// The fixed backstory.
    pub base_prompt: String,
    /// What is going on in the world.
    pub story_context: String,
    /// What he thinks of the player, from -100 to 100.
    pub opinion: i32,
    pub inventory: Vec<Item<F>>,
    pub health: F,
    pub money: u32,
    pub position: (F, F),
    pub is_following: bool,
    /// What has been said in the current conversation.
    pub history: Vec<Message>,
}

impl<F> Blacksmith<F> {
    /// Hulgrim at his cold forge: no opinion of the player yet, an iron sword
    /// of weight `sword_weight` for sale at 50, 200 in money, not following
    /// anyone, nothing said yet, with health `health` at `position`.
    pub fn new(health: F, sword_weight: F, position: (F, F)) -> (r: Self)
        ensures
            r.name@ == "Hulgrim"@,
            r.base_prompt@ == "You are Hulgrim, a weary blacksmith who values hard work over talk."@,
            r.story_context@ == "The forge is cold because the nearby mines are infested with goblins."@,
            r.opinion == 0,
            r.inventory@.len() == 1,
            r.inventory@[0].name@ == "Iron Sword"@,
            r.inventory@[0].price == 50,
            r.inventory@[0].weight == sword_weight,
            r.health == health,
            r.money == 200,
            r.position == position,
            !r.is_following,
            r.history@ == Seq::<Message>::empty(),
    {
        let mut inventory: Vec<Item<F>> = Vec::new();
        inventory.push(Item { name: String::from_str("Iron Sword"), price: 50, weight: sword_weight });
        Blacksmith {
            name: String::from_str("Hulgrim"),
            base_prompt: String::from_str("You are Hulgrim, a weary blacksmith who values hard work over talk."),
            story_context: String::from_str("The forge is cold because the nearby mines are infested with goblins."),
            opinion: 0,
            inventory,
            health,
            money: 200,
            position,
            is_following: false,
            history: Vec::new(),
        }
    }

    /// Walks to `(x, y)`, unless he dislikes the player too much (opinion -20
    /// or below). Tells whether he went.
    pub fn go_to(&mut self, x: F, y: F) -> (moved: bool)
        ensures
            moved == (old(self).opinion > -20),
            moved ==> *final(self) == (Blacksmith { position: (x, y), ..*old(self) }),
            !moved ==> *final(self) == *old(self),
    {
        if self.opinion > -20 {
            self.position = (x, y);
            true
        } else {
            false
        }
    }

    /// Forgets the current conversation; nothing else changes.
    pub fn forget_session(&mut self)
        ensures
            final(self).history@ == Seq::<Message>::empty(),
            *final(self) == (Blacksmith { history: final(self).history, ..*old(self) }),
    {
        self.history.clear();
    }

    /// Starts following the player if he thinks well enough of him (opinion 50
    /// or more); otherwise nothing changes. Tells whether he follows.
    pub fn toggle_follow(&mut self) -> (follows: bool)
        ensures
            follows == (old(self).opinion >= 50),
            follows ==> *final(self) == (Blacksmith { is_following: true, ..*old(self) }),
            !follows ==> *final(self) == *old(self),
    {
        if self.opinion >= 50 {
            self.is_following = true;
            true
        } else {
            false
        }
    }

    /// He will not trade with a player he thinks less than -10 of.
    pub fn refuses_trade(&self) -> (r: bool)
        ensures
            r == (self.opinion < -10),
    {
        self.opinion < -10
    }
}

impl<F> Blacksmith<F> {
    /// His backstory, the situation, and his opinion of the player out of 100.
    pub fn get_full_prompt(&self) -> (r: String)
        ensures
            r@ == full_prompt(self.base_prompt@, self.story_context@, self.opinion as int),
    {
        let opinion = signed_decimal_text(self.opinion);
        self.base_prompt.clone()
            .concat("\nCURRENT SITUATION: ")
            .concat(self.story_context.as_str())
            .concat("\nYour opinion of the player is ")
            .concat(opinion.as_str())
            .concat("/100.")
    }

    /// Moves the opinion by `amount`, held to at most ten either way; the
    /// opinion stays within -100..=100. Nothing else changes.
    pub fn update_opinion(&mut self, amount: i32)
        ensures
            final(self).opinion == opinion_after(old(self).opinion as int, amount as int),
            -100 <= final(self).opinion <= 100,
            *final(self) == (Blacksmith { opinion: final(self).opinion, ..*old(self) }),
    {
        let change = clamp_i64(amount as i64, -10, 10);
        let moved = clamp_i64(self.opinion as i64 + change, -100, 100);
        self.opinion = moved as i32;
    }

    /// Takes a hit that leaves him with `health_after` (his health less the
    /// damage, worked out by whoever measures health); being attacked sours his
    /// opinion of the player (by the most one change allows).
    pub fn take_hit(&mut self, health_after: F)
        ensures
            final(self).health == health_after,
            final(self).opinion == opinion_after(old(self).opinion as int, -50),
            -100 <= final(self).opinion <= 100,
            *final(self) == (Blacksmith { health: health_after, opinion: final(self).opinion, ..*old(self) }),
    {
        self.health = health_after;
        self.update_opinion(-50);
    }

    /// Hands over the item at `item_index`, unless he refuses to trade (opinion
    /// below -10) or has no item there; the other items stay, in order.
    pub fn sell_item(&mut self, item_index: usize) -> (r: Option<Item<F>>)
        ensures
            match r {
                Some(item) => {
                    &&& old(self).opinion >= -10
                    &&& item_index < old(self).inventory@.len()
                    &&& item == old(self).inventory@[item_index as int]
                    &&& final(self).inventory@ == old(self).inventory@.remove(item_index as int)
                },
                None => {
                    &&& old(self).opinion < -10 || item_index >= old(self).inventory@.len()
                    &&& final(self).inventory@ == old(self).inventory@
                },
            },
            *final(self) == (Blacksmith { inventory: final(self).inventory, ..*old(self) }),
    {
        if self.opinion < -10 {
            return None;
        }
        if item_index < self.inventory.len() {
            Some(self.inventory.remove(item_index))
        } else {
            None
        }
    }

    /// He attacks a player he thinks -80 or less of; nothing changes.
    pub fn attack_player(&mut self) -> (attacks: bool)
        ensures
            attacks == (old(self).opinion <= -80),
            *final(self) == *old(self),
    {
        self.opinion <= -80
    }
}

/// Starting from any opinion in range, one change moves the opinion by at most
/// ten and keeps it within -100..=100.
pub proof fn law_opinion_moves_by_at_most_ten(opinion: int, amount: int)
    requires
        -100 <= opinion <= 100,
    ensures
        -100 <= opinion_after(opinion, amount) <= 100,
        -10 <= opinion_after(opinion, amount) - opinion <= 10,
        amount >= 0 ==> opinion_after(opinion, amount) >= opinion,
        amount <= 0 ==> opinion_after(opinion, amount) <= opinion,
{
}

} // verus!
