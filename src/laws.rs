//! Laws that relate the pallet's operations, stated over the same transition
//! functions that the operations' contracts use.
use crate::kitty::{breed_error, created_dna, gender_of, max_byte, Gender, Kitty};
use crate::pallet::{Error, Event, PalletView};
use vstd::prelude::*;

verus! {

/// Creation is deterministic and recorded: once a kitty is created for `who`,
/// looking up the index it was given under `who` finds exactly the kitty whose
/// DNA is hashed from `who`, `random`, that index and `extrinsic_index`, and
/// the last event announces it under that index.
pub proof fn lemma_create_then_lookup(
    s: PalletView,
    who: u64,
    random: [u8; 32],
    extrinsic_index: Option<u32>,
)
    requires
        s.create_error() is None,
    ensures
        ({
            let kitty = Kitty(created_dna(who, random@, s.next_kitty_id(), extrinsic_index));
            let t = s.created(who, kitty);
            &&& t.kitties(who, s.next_kitty_id()) == Some(kitty)
            &&& t.events.last() == Event::KittyCreated(kitty, s.next_kitty_id(), who)
        }),
{
}

/// Breeding a kitty with itself fails for want of a partner, whatever its
/// gender.
pub proof fn lemma_breed_with_itself(s: PalletView, who: u64, id: u32)
    requires
        s.kitties(who, id) is Some,
    ensures
        s.breed_error(who, id, id) == Some(Error::KittyPartnerMissing),
{
}

/// Two distinct kitties whose largest DNA bytes have the same parity never
/// breed: the attempt fails with `KittyGendersNotCompatible`.
pub proof fn lemma_same_parity_cannot_breed(s: PalletView, who: u64, first: u32, second: u32)
    requires
        s.kitties(who, first) is Some,
        s.kitties(who, second) is Some,
        s.nft.tokens[first].data.0@ != s.nft.tokens[second].data.0@,
        max_byte(s.nft.tokens[first].data.0@) % 2 == max_byte(s.nft.tokens[second].data.0@) % 2,
    ensures
        s.breed_error(who, first, second) == Some(Error::KittyGendersNotCompatible),
{
}

/// With the kitty counter one below its largest value, one more kitty is
/// created and takes the counter to that value; from there every creation
/// and every breeding fails with `KittyIdOverflow`, which changes nothing.
pub proof fn lemma_counter_saturates(s: PalletView, who: u64, kitty: Kitty)
    requires
        s.next_kitty_id() == u32::MAX - 1,
    ensures
        s.create_error() is None,
        s.created(who, kitty).next_kitty_id() == u32::MAX,
        s.created(who, kitty).create_error() == Some(Error::KittyIdOverflow),
        s.bred(who, kitty).next_kitty_id() == u32::MAX,
{
}

/// Once the counter is at its largest value, creating fails with
/// `KittyIdOverflow`, and so does breeding any couple that could breed.
pub proof fn lemma_exhausted_counter(s: PalletView, who: u64, first: u32, second: u32)
    requires
        s.next_kitty_id() == u32::MAX,
        s.kitties(who, first) is Some,
        s.kitties(who, second) is Some,
        breed_error(s.nft.tokens[first].data, s.nft.tokens[second].data) is None,
    ensures
        s.create_error() == Some(Error::KittyIdOverflow),
        s.breed_error(who, first, second) == Some(Error::KittyIdOverflow),
{
}

/// Buying a kitty that is not listed fails with `KittyNotForSale`; a failed
/// purchase leaves balances, ownership and listings as they were.
pub proof fn lemma_buy_unlisted(s: PalletView, who: u64, id: u32)
    requires
        !s.exchange.contains_key(id),
    ensures
        s.buy_error(who, id) == Some(Error::KittyNotForSale),
{
}

/// A seller's attempt to buy their own kitty fails with `CannotBuyOwnKitty`
/// and, changing nothing, leaves the listing in place: another account that
/// can pay then buys the kitty.
pub proof fn lemma_own_purchase_keeps_listing(s: PalletView, seller: u64, buyer: u64, id: u32)
    requires
        s.exchange.contains_key(id),
        s.exchange[id].0 == seller,
        buyer != seller,
        s.kitties(seller, id) is Some,
        s.balances.transfer_error(buyer, seller, s.exchange[id].1) is None,
    ensures
        s.buy_error(seller, id) == Some(Error::CannotBuyOwnKitty),
        s.buy_error(buyer, id) is None,
        s.bought(buyer, id).kitties(buyer, id) == s.kitties(seller, id),
{
}

/// A completed sale settles: the seller's balance grows by the price, the
/// buyer's shrinks by it, the buyer holds the kitty and it is no longer listed.
pub proof fn lemma_sale_settles(s: PalletView, buyer: u64, id: u32)
    requires
        s.buy_error(buyer, id) is None,
    ensures
        ({
            let seller = s.exchange[id].0;
            let price = s.exchange[id].1;
            let t = s.bought(buyer, id);
            &&& t.balances.balance(seller) == s.balances.balance(seller) + price
            &&& t.balances.balance(buyer) == s.balances.balance(buyer) - price
            &&& t.kitties(buyer, id) == s.kitties(seller, id)
            &&& t.kitties(seller, id) is None
            &&& !t.exchange.contains_key(id)
        }),
{
}

/// A successful breeding leaves both parents with their owner and adds the
/// child for them under an index that neither parent has.
pub proof fn lemma_breed_adds_child(
    s: PalletView,
    who: u64,
    first: u32,
    second: u32,
    random: [u8; 32],
    extrinsic_index: Option<u32>,
)
    requires
        s.wf(),
        s.breed_error(who, first, second) is None,
    ensures
        ({
            let child = s.child(first, second, random@, extrinsic_index);
            let t = s.bred(who, child);
            &&& t.wf()
            &&& t.kitties(who, s.next_kitty_id()) == Some(child)
            &&& s.next_kitty_id() != first && s.next_kitty_id() != second
            &&& t.kitties(who, first) == s.kitties(who, first)
            &&& t.kitties(who, second) == s.kitties(who, second)
            &&& gender_of(s.nft.tokens[first].data.0@) != gender_of(s.nft.tokens[second].data.0@)
        }),
{
    let child = s.child(first, second, random@, extrinsic_index);
    let t = s.bred(who, child);
    assert(s.nft.tokens.contains_key(first));
    assert(s.nft.tokens.contains_key(second));
    assert forall|id: u32| #[trigger] t.nft.tokens.contains_key(id) implies id
        < t.nft.next_token_id by {
        if id != s.next_kitty_id() {
            assert(s.nft.tokens.contains_key(id));
        }
    }
}

/// Giving an existing kitty to oneself succeeds and changes nothing: no event,
/// no change to its listing, the same owner.
pub proof fn lemma_self_transfer_is_noop(s: PalletView, who: u64, id: u32)
    requires
        s.kitties(who, id) is Some,
    ensures
        s.transfer_error(who, id) is None,
        s.transferred(who, who, id) == s,
{
}

} // verus!
