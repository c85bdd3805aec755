//! Actions a character can take in conversation, rendered as the system
//! messages that report them.

use vstd::prelude::*;
use vstd::string::*;
use crate::text::{decimal, decimal_text};

verus! {

/// Arguments of the attack action: who is attacked.
pub struct AttackArgs {
    pub target: String,
}

/// Arguments of the trade action: the item and the price asked for it.
pub struct TradeArgs {
    pub item: String,
    pub price: u32,
}

/// The report of an attack on `target`.
pub open spec fn attack_report(target: Seq<char>) -> Seq<char> {
    "SYSTEM_ACTION: You swing your heavy hammer at "@ + target + "!"@
}

/// The report of agreeing to follow the player.
pub open spec fn follow_report() -> Seq<char> {
    "SYSTEM_ACTION: I'm right behind you, lead the way."@
}

/// The report of a sale: a gift when the price is zero, a sale for gold otherwise.
pub open spec fn sell_report(item: Seq<char>, price: nat) -> Seq<char> {
    if price == 0 {
        "SYSTEM_ACTION: You hand over the "@ + item + " for free. 'On the house!'"@
    } else {
        "SYSTEM_ACTION: Sold "@ + item + " for "@ + decimal(price) + " gold."@
    }
}

/// Attacks the target named in `args`.
pub fn attack(args: AttackArgs) -> (r: String)
    ensures
        r@ == attack_report(args.target@),
{
    String::from_str("SYSTEM_ACTION: You swing your heavy hammer at ")
        .concat(args.target.as_str())
        .concat("!")
}

/// Follows the player.
pub fn follow() -> (r: String)
    ensures
        r@ == follow_report(),
{
    String::from_str("SYSTEM_ACTION: I'm right behind you, lead the way.")
}

/// Sells the item named in `args` at its price.
pub fn sell(args: TradeArgs) -> (r: String)
    ensures
        r@ == sell_report(args.item@, args.price as nat),
{
    if args.price == 0 {
        String::from_str("SYSTEM_ACTION: You hand over the ")
            .concat(args.item.as_str())
            .concat(" for free. 'On the house!'")
    } else {
        let price = decimal_text(args.price as u64);
        String::from_str("SYSTEM_ACTION: Sold ")
            .concat(args.item.as_str())
            .concat(" for ")
            .concat(price.as_str())
            .concat(" gold.")
    }
}

} // verus!
