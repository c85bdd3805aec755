//! The blacksmith the player chats with: an opinion of the player that words
//! move, and the memory of the current conversation.

pub mod blacksmith;

use vstd::prelude::*;
use vstd::string::*;
use rig::message::Message;
use crate::text::{
    contains_text, has_substring, has_substring_any_case, is_ascii_lowercase_of, is_ascii_text, law_lowercase_search_ignores_ascii_case,
    lowercase_of, lowercase_text, not_ascii_upper, signed_decimal, signed_decimal_text,
};

verus! {

/// The (lowercase) text says please or thanks.
pub open spec fn says_polite(lower: Seq<char>) -> bool {
    has_substring(lower, "please"@) || has_substring(lower, "thank"@)
}

/// The (lowercase) text holds an insult.
pub open spec fn says_rude(lower: Seq<char>) -> bool {
    has_substring(lower, "ugly"@) || has_substring(lower, "hate"@) || has_substring(lower, "stupid"@)
}

/// The text, once lowercased, thanks or says please.
pub open spec fn is_polite(text: Seq<char>) -> bool {
    says_polite(lowercase_of(text))
}

/// The text, once lowercased, holds an insult.
pub open spec fn is_rude(text: Seq<char>) -> bool {
    says_rude(lowercase_of(text))
}

/// The text says please or thanks, in any ASCII case.
pub open spec fn polite_in_any_case(text: Seq<char>) -> bool {
    has_substring_any_case(text, "please"@) || has_substring_any_case(text, "thank"@)
}

/// The text holds an insult, in any ASCII case.
pub open spec fn rude_in_any_case(text: Seq<char>) -> bool {
    has_substring_any_case(text, "ugly"@) || has_substring_any_case(text, "hate"@)
        || has_substring_any_case(text, "stupid"@)
}

proof fn lemma_keywords_are_lowercase()
    ensures
        forall|k: int| 0 <= k < "please"@.len() ==> not_ascii_upper(#[trigger] "please"@[k]),
        forall|k: int| 0 <= k < "thank"@.len() ==> not_ascii_upper(#[trigger] "thank"@[k]),
        forall|k: int| 0 <= k < "ugly"@.len() ==> not_ascii_upper(#[trigger] "ugly"@[k]),
        forall|k: int| 0 <= k < "hate"@.len() ==> not_ascii_upper(#[trigger] "hate"@[k]),
        forall|k: int| 0 <= k < "stupid"@.len() ==> not_ascii_upper(#[trigger] "stupid"@[k]),
{
    reveal_strlit("please");
    reveal_strlit("thank");
    reveal_strlit("ugly");
    reveal_strlit("hate");
    reveal_strlit("stupid");
}

/// Judging the ASCII-lowercased form of an ASCII text finds the polite words
/// and the insults wherever they stand in the text, in any ASCII case.
pub proof fn law_keywords_found_in_any_case(text: Seq<char>, lower: Seq<char>)
    requires
        is_ascii_text(text),
        is_ascii_lowercase_of(lower, text),
    ensures
        says_polite(lower) == polite_in_any_case(text),
        says_rude(lower) == rude_in_any_case(text),
{
    lemma_keywords_are_lowercase();
    law_lowercase_search_ignores_ascii_case(text, lower, "please"@);
    law_lowercase_search_ignores_ascii_case(text, lower, "thank"@);
    law_lowercase_search_ignores_ascii_case(text, lower, "ugly"@);
    law_lowercase_search_ignores_ascii_case(text, lower, "hate"@);
    law_lowercase_search_ignores_ascii_case(text, lower, "stupid"@);
}

/// The opinion after hearing `text`: ten up for politeness, ten down for an insult.
pub open spec fn opinion_after_words(opinion: int, text: Seq<char>) -> int {
    opinion + (if is_polite(text) { 10int } else { 0int }) - (if is_rude(text) { 10int } else { 0int })
}

/// Both steps of the change (first up, then down) stay within `i32`.
pub open spec fn words_fit(opinion: int, text: Seq<char>) -> bool {
    &&& is_polite(text) ==> opinion + 10 <= i32::MAX
    &&& is_rude(text) ==> opinion + (if is_polite(text) { 10int } else { 0int }) - 10 >= i32::MIN
}

/// The instructions given to the language model for a blacksmith of the given opinion.
pub open spec fn preamble(opinion: int) -> Seq<char> {
    "You are a Blacksmith. Your current Opinion of the player is: "@ + signed_decimal(opinion) + ".\n            LOGIC RULES:\n            - If Opinion > 0: You are willing to sell a sword.\n            - If Opinion > 50: You are willing to follow the player.\n            - If Opinion > 100: You give the sword for free (price 0).\n            - If Opinion < -100: You must ATTACK the player.\n            \n            Context: You remember what was said in this current conversation. \n            If the player is polite, your opinion improves. If they are insulting, it drops."@
}

/// Whether an already lowercased text is polite and whether it is rude.
pub fn assess_lowercased(lower: &str) -> (r: (bool, bool))
    ensures
        r.0 == says_polite(lower@),
        r.1 == says_rude(lower@),
{
    let polite = contains_text(lower, "please") || contains_text(lower, "thank");
    let rude = contains_text(lower, "ugly") || contains_text(lower, "hate") || contains_text(lower, "stupid");
    (polite, rude)
}

/// Whether `text` is polite and whether it is rude, judged on its lowercase form.
pub fn assess_words(text: &str) -> (r: (bool, bool))
    ensures
        r.0 == is_polite(text@),
        r.1 == is_rude(text@),
        is_ascii_text(text@) ==> r.0 == polite_in_any_case(text@),
        is_ascii_text(text@) ==> r.1 == rude_in_any_case(text@),
{
    let lower = lowercase_text(text);
    proof {
        if is_ascii_text(text@) {
            law_keywords_found_in_any_case(text@, lower@);
        }
    }
    assess_lowercased(lower.as_str())
}

/// The blacksmith of the chat: what it thinks of the player, and what has
/// been said in the current conversation.
pub struct Blacksmith {
    pub opinion: i32,
    pub history: Vec<Message>,
}

impl Blacksmith {
    /// A blacksmith with no opinion of the player who has heard nothing yet.
    pub fn new() -> (r: Self)
        ensures
            r.opinion == 0,
            r.history@ == Seq::<Message>::empty(),
    {
        Blacksmith { opinion: 0, history: Vec::new() }
    }

    /// The instructions for the language model: the current opinion and the
    /// rules the blacksmith acts by.
    pub fn get_preamble(&self) -> (r: String)
        ensures
            r@ == preamble(self.opinion as int),
    {
        let opinion = signed_decimal_text(self.opinion);
        String::from_str("You are a Blacksmith. Your current Opinion of the player is: ")
            .concat(opinion.as_str())
            .concat(".\n            LOGIC RULES:\n            - If Opinion > 0: You are willing to sell a sword.\n            - If Opinion > 50: You are willing to follow the player.\n            - If Opinion > 100: You give the sword for free (price 0).\n            - If Opinion < -100: You must ATTACK the player.\n            \n            Context: You remember what was said in this current conversation. \n            If the player is polite, your opinion improves. If they are insulting, it drops.")
    }

    /// Lets the words of the player move the opinion: ten up for please or
    /// thanks, ten down for an insult (both when the text holds both).
    pub fn update_opinion(&mut self, text: &str)
        requires
            words_fit(old(self).opinion as int, text@),
        ensures
            final(self).opinion == opinion_after_words(old(self).opinion as int, text@),
            is_ascii_text(text@) ==> final(self).opinion == old(self).opinion
                + (if polite_in_any_case(text@) { 10int } else { 0int })
                - (if rude_in_any_case(text@) { 10int } else { 0int }),
            final(self).history == old(self).history,
    {
        let (polite, rude) = assess_words(text);
        if polite {
            self.opinion = self.opinion + 10;
        }
        if rude {
            self.opinion = self.opinion - 10;
        }
    }

    /// Lets the words of the player move the opinion where the change stays
    /// within `i32`; otherwise leaves the blacksmith as it is. Tells which.
    pub fn try_update_opinion(&mut self, text: &str) -> (applied: bool)
        ensures
            applied == words_fit(old(self).opinion as int, text@),
            applied ==> final(self).opinion == opinion_after_words(old(self).opinion as int, text@),
            applied && is_ascii_text(text@) ==> final(self).opinion == old(self).opinion
                + (if polite_in_any_case(text@) { 10int } else { 0int })
                - (if rude_in_any_case(text@) { 10int } else { 0int }),
            !applied ==> final(self).opinion == old(self).opinion,
            final(self).history == old(self).history,
    {
        let (polite, rude) = assess_words(text);
        let up: i64 = if polite { 10 } else { 0 };
        let fits_up = !polite || self.opinion as i64 + 10 <= i32::MAX as i64;
        let fits_down = !rude || self.opinion as i64 + up - 10 >= i32::MIN as i64;
        if fits_up && fits_down {
            self.update_opinion(text);
            true
        } else {
            false
        }
    }

    /// Forgets the current conversation; the opinion of the player stays.
    pub fn forget_session(&mut self)
        ensures
            final(self).history@ == Seq::<Message>::empty(),
            final(self).opinion == old(self).opinion,
    {
        self.history.clear();
    }
}

} // verus!
