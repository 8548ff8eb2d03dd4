//! The kitties pallet: creation, breeding, transfer and trade of kitties over
//! an asset registry, a currency ledger, a listing ledger and an event log.
use crate::currency::{Balances, BalancesView, CurrencyError};
use crate::kitty::{bred_dna, breed_error, created_dna, Kitty};
use crate::nft::{NftError, Registry, RegistryView, TokenInfo};
use std::collections::HashMap;
use vstd::prelude::*;

verus! {

#[derive(Clone, Copy, Debug, PartialEq, Eq, Structural)]
pub enum Error {
    /// No value was found where one was expected.
    NoneValue,
    /// A stored value would overflow.
    StorageOverflow,
    /// A kitty was generated with a DNA that already exists.
    DuplicateKitty,
    /// The kitty does not exist, or does not belong to the caller.
    KittyNotFound,
    /// Kitties need a partner with another DNA to breed.
    KittyPartnerMissing,
    /// Kitties must have different genders to breed.
    KittyGendersNotCompatible,
    /// The kitty index counter is exhausted.
    KittyIdOverflow,
    /// The kitty is not listed on the exchange.
    KittyNotForSale,
    /// A seller cannot buy their own kitty.
    CannotBuyOwnKitty,
    /// The kitty could not be created.
    CouldNotCreateKitty,
    /// The asset registry refused the operation.
    Nft(NftError),
    /// The currency ledger refused the operation.
    Currency(CurrencyError),
}

/// An offer to sell a kitty: the seller and the price.
#[derive(Clone, Copy, Debug, PartialEq, Eq, Structural)]
pub struct Listing(pub u64, pub u64);

#[derive(Clone, Copy, Debug, PartialEq, Eq)]
pub enum Event {
    /// A kitty was created: the kitty, its index, its owner.
    KittyCreated(Kitty, u32, u64),
    /// A kitty was bred: the kitty, its index, its owner.
    KittyBred(Kitty, u32, u64),
    /// A kitty changed hands: its index, the sender, the receiver.
    KittyTransfer(u32, u64, u64),
    /// A kitty was sold: its index, the price, the seller, the buyer.
    KittySold(u32, u64, u64, u64),
    /// A kitty's price was set or withdrawn: its index, the price, the owner.
    KittyPriceUpdated(u32, Option<u64>, u64),
}

/// The state of the pallet: the asset registry, the currency ledger, the
/// listings by kitty index, and the events emitted so far.
pub struct PalletView {
    pub nft: RegistryView,
    pub balances: BalancesView,
    pub exchange: Map<u32, Listing>,
    pub events: Seq<Event>,
}

impl PalletView {
    pub open spec fn wf(self) -> bool {
        self.nft.wf()
    }

    /// The kitty with index `id`, if `owner` holds it.
    pub open spec fn kitties(self, owner: u64, id: u32) -> Option<Kitty> {
        self.nft.owned_by(owner, id)
    }

    /// The index that the next kitty gets.
    pub open spec fn next_kitty_id(self) -> u32 {
        self.nft.next_token_id
    }

    /// Why no kitty can be created, if none can.
    pub open spec fn create_error(self) -> Option<Error> {
        if self.next_kitty_id() == u32::MAX {
            Some(Error::KittyIdOverflow)
        } else {
            None
        }
    }

    /// The state once `kitty` is created for `owner`.
    pub open spec fn created(self, owner: u64, kitty: Kitty) -> PalletView {
        PalletView {
            nft: self.nft.minted(owner, kitty),
            events: self.events.push(Event::KittyCreated(kitty, self.next_kitty_id(), owner)),
            ..self
        }
    }

    /// Why `who` cannot breed the kitties `first` and `second`, if they cannot:
    /// one of them is not theirs, then the two are no couple, then no index is
    /// left for the child.
    pub open spec fn breed_error(self, who: u64, first: u32, second: u32) -> Option<Error> {
        if self.kitties(who, first) is None || self.kitties(who, second) is None {
            Some(Error::KittyNotFound)
        } else if breed_error(self.nft.tokens[first].data, self.nft.tokens[second].data) is Some {
            breed_error(self.nft.tokens[first].data, self.nft.tokens[second].data)
        } else {
            self.create_error()
        }
    }

    /// The child of kitties `first` and `second` bred from `random` in the
    /// extrinsic at `extrinsic_index`.
    pub open spec fn child(
        self,
        first: u32,
        second: u32,
        random: Seq<u8>,
        extrinsic_index: Option<u32>,
    ) -> Kitty {
        Kitty(
            bred_dna(
                self.nft.tokens[first].data.0@,
                self.nft.tokens[second].data.0@,
                random,
                self.next_kitty_id(),
                extrinsic_index,
            ),
        )
    }

    /// The state once `kitty` is bred for `owner`.
    pub open spec fn bred(self, owner: u64, kitty: Kitty) -> PalletView {
        PalletView {
            nft: self.nft.minted(owner, kitty),
            events: self.events.push(Event::KittyBred(kitty, self.next_kitty_id(), owner)),
            ..self
        }
    }
}

impl PalletView {
    /// Why `who` cannot transfer kitty `id`, if they cannot: it does not
    /// exist, or the registry refuses since it is not theirs.
    pub open spec fn transfer_error(self, who: u64, id: u32) -> Option<Error> {
        match self.nft.transfer_error(who, id) {
            Some(NftError::TokenNotFound) => Some(Error::KittyNotFound),
            Some(e) => Some(Error::Nft(e)),
            None => None,
        }
    }

    /// The state once `who` has given kitty `id` to `receiver`: unchanged when
    /// the two are one; else the kitty changes hands and its listing goes.
    pub open spec fn transferred(self, who: u64, receiver: u64, id: u32) -> PalletView {
        if who == receiver {
            self
        } else {
            PalletView {
                nft: self.nft.transferred(receiver, id),
                exchange: self.exchange.remove(id),
                events: self.events.push(Event::KittyTransfer(id, who, receiver)),
                ..self
            }
        }
    }

    /// Why `who` cannot price kitty `id`, if they cannot: it is not theirs.
    pub open spec fn set_price_error(self, who: u64, id: u32) -> Option<Error> {
        if self.kitties(who, id) is Some {
            None
        } else {
            Some(Error::KittyNotFound)
        }
    }

    /// The state once `who` has listed kitty `id` at `price`, or withdrawn it
    /// from sale where `price` is none.
    pub open spec fn price_set(self, who: u64, id: u32, price: Option<u64>) -> PalletView {
        PalletView {
            exchange: match price {
                Some(p) => self.exchange.insert(id, Listing(who, p)),
                None => self.exchange.remove(id),
            },
            events: self.events.push(Event::KittyPriceUpdated(id, price, who)),
            ..self
        }
    }

    /// Why `who` cannot buy kitty `id`, if they cannot, checked in this order:
    /// it is not listed; they are its seller; the registry refuses to move it
    /// from the seller; the ledger refuses to move the price to the seller.
    pub open spec fn buy_error(self, who: u64, id: u32) -> Option<Error> {
        if !self.exchange.contains_key(id) {
            Some(Error::KittyNotForSale)
        } else {
            let seller = self.exchange[id].0;
            let price = self.exchange[id].1;
            if seller == who {
                Some(Error::CannotBuyOwnKitty)
            } else if self.nft.transfer_error(seller, id) is Some {
                Some(Error::Nft(self.nft.transfer_error(seller, id)->Some_0))
            } else if self.balances.transfer_error(who, seller, price) is Some {
                Some(Error::Currency(self.balances.transfer_error(who, seller, price)->Some_0))
            } else {
                None
            }
        }
    }

    /// The state once `who` has bought kitty `id`: the kitty is theirs, the
    /// price has gone from them to the seller, and the listing is gone.
    pub open spec fn bought(self, who: u64, id: u32) -> PalletView {
        let seller = self.exchange[id].0;
        let price = self.exchange[id].1;
        PalletView {
            nft: self.nft.transferred(who, id),
            balances: self.balances.transferred(who, seller, price),
            exchange: self.exchange.remove(id),
            events: self.events.push(Event::KittySold(id, price, seller, who)),
        }
    }
}

/// The pallet's genesis: it opens the registry class that holds every kitty.
pub struct GenesisConfig {}

impl GenesisConfig {
    /// The pallet at genesis, over a currency ledger that keeps accounts at or
    /// above `existential_deposit`: no kitty, listing, balance or event yet.
    pub fn build(&self, existential_deposit: u64) -> (r: Pallet)
        ensures
            r@.wf(),
            r@.nft.tokens.is_empty(),
            r@.next_kitty_id() == 0,
            r@.balances.free.is_empty(),
            r@.balances.existential_deposit == existential_deposit,
            r@.exchange.is_empty(),
            r@.events.len() == 0,
    {
        Pallet::new(existential_deposit)
    }
}

pub struct Pallet {
    nft: Registry,
    balances: Balances,
    kitty_exchange: HashMap<u32, Listing>,
    events: Vec<Event>,
}

impl View for Pallet {
    type V = PalletView;

    closed spec fn view(&self) -> PalletView {
        PalletView {
            nft: self.nft@,
            balances: self.balances@,
            exchange: self.kitty_exchange@,
            events: self.events@,
        }
    }
}

/// The pallet's error for a refused mint: an exhausted counter is an
/// exhausted kitty index.
fn mint_error(e: NftError) -> (r: Error)
    ensures
        r == (if e == NftError::NoAvailableTokenId {
            Error::KittyIdOverflow
        } else {
            Error::Nft(e)
        }),
{
    match e {
        NftError::NoAvailableTokenId => Error::KittyIdOverflow,
        _ => Error::Nft(e),
    }
}

impl Pallet {
    /// An empty pallet whose currency ledger keeps accounts at or above
    /// `existential_deposit`.
    pub fn new(existential_deposit: u64) -> (r: Pallet)
        ensures
            r@.wf(),
            r@.nft.tokens.is_empty(),
            r@.next_kitty_id() == 0,
            r@.balances.free.is_empty(),
            r@.balances.existential_deposit == existential_deposit,
            r@.exchange.is_empty(),
            r@.events.len() == 0,
    {
        Pallet::with_next_kitty_id(existential_deposit, 0)
    }

    /// An empty pallet whose first kitty gets the index `next_kitty_id`.
    pub fn with_next_kitty_id(existential_deposit: u64, next_kitty_id: u32) -> (r: Pallet)
        ensures
            r@.wf(),
            r@.nft.tokens.is_empty(),
            r@.next_kitty_id() == next_kitty_id,
            r@.balances.free.is_empty(),
            r@.balances.existential_deposit == existential_deposit,
            r@.exchange.is_empty(),
            r@.events.len() == 0,
    {
        Pallet {
            nft: Registry::with_next_token_id(next_kitty_id),
            balances: Balances::new(existential_deposit),
            kitty_exchange: HashMap::new(),
            events: Vec::new(),
        }
    }

    /// Creates a kitty for `who` under the next kitty index, its DNA hashed
    /// from `who`, the randomness `random` drawn for `who`, that index and the
    /// index of the current extrinsic.
    pub fn create_kitty(&mut self, who: u64, random: [u8; 32], extrinsic_index: Option<u32>) -> (r:
        Result<(), Error>)
        ensures
            final(self)@.wf(),
            match old(self)@.create_error() {
                Some(e) => r == Err::<(), Error>(e) && final(self)@ == old(self)@,
                None => r is Ok && final(self)@ == old(self)@.created(
                    who,
                    Kitty(created_dna(who, random@, old(self)@.next_kitty_id(), extrinsic_index)),
                ),
            },
    {
        self.nft.ensure_wf();
        let kitty = Kitty::new(who, random, self.nft.next_token_id(), extrinsic_index);
        let current_id = match self.nft.mint(who, kitty) {
            Ok(id) => id,
            Err(e) => return Err(mint_error(e)),
        };
        self.events.push(Event::KittyCreated(kitty, current_id, who));
        Ok(())
    }

    /// Breeds `who`'s kitties `first_parent` and `second_parent` into a new
    /// kitty for `who` under the next kitty index, its DNA hashed from both
    /// parents' DNA, the randomness `random`, that index and the index of the
    /// current extrinsic.
    pub fn breed_kitty(
        &mut self,
        who: u64,
        first_parent: u32,
        second_parent: u32,
        random: [u8; 32],
        extrinsic_index: Option<u32>,
    ) -> (r: Result<(), Error>)
        ensures
            final(self)@.wf(),
            match old(self)@.breed_error(who, first_parent, second_parent) {
                Some(e) => r == Err::<(), Error>(e) && final(self)@ == old(self)@,
                None => r is Ok && final(self)@ == old(self)@.bred(
                    who,
                    old(self)@.child(first_parent, second_parent, random@, extrinsic_index),
                ),
            },
    {
        self.nft.ensure_wf();
        let first = match self.nft.owned_by(who, first_parent) {
            Some(kitty) => kitty,
            None => return Err(Error::KittyNotFound),
        };
        let second = match self.nft.owned_by(who, second_parent) {
            Some(kitty) => kitty,
            None => return Err(Error::KittyNotFound),
        };
        let kitty = Kitty::breed(first, second, random, self.nft.next_token_id(), extrinsic_index)?;
        let current_id = match self.nft.mint(who, kitty) {
            Ok(id) => id,
            Err(e) => return Err(mint_error(e)),
        };
        self.events.push(Event::KittyBred(kitty, current_id, who));
        Ok(())
    }

    /// Gives `who`'s kitty `kitty_id` to `receiver`, withdrawing it from sale.
    /// Giving a kitty to oneself changes nothing and emits no event.
    pub fn transfer_kitty(&mut self, who: u64, receiver: u64, kitty_id: u32) -> (r: Result<(), Error>)
        ensures
            final(self)@.wf(),
            match old(self)@.transfer_error(who, kitty_id) {
                Some(e) => r == Err::<(), Error>(e) && final(self)@ == old(self)@,
                None => r is Ok && final(self)@ == old(self)@.transferred(who, receiver, kitty_id),
            },
    {
        self.nft.ensure_wf();
        match self.nft.transfer(who, receiver, kitty_id) {
            Ok(()) => {},
            Err(NftError::TokenNotFound) => return Err(Error::KittyNotFound),
            Err(e) => return Err(Error::Nft(e)),
        }
        if who != receiver {
            self.kitty_exchange.remove(&kitty_id);
            self.events.push(Event::KittyTransfer(kitty_id, who, receiver));
        }
        Ok(())
    }

    /// Lists `who`'s kitty `kitty_id` for sale at `new_price`, replacing any
    /// listing it had, or withdraws it from sale where `new_price` is none.
    pub fn set_price(&mut self, who: u64, kitty_id: u32, new_price: Option<u64>) -> (r: Result<
        (),
        Error,
    >)
        ensures
            final(self)@.wf(),
            match old(self)@.set_price_error(who, kitty_id) {
                Some(e) => r == Err::<(), Error>(e) && final(self)@ == old(self)@,
                None => r is Ok && final(self)@ == old(self)@.price_set(who, kitty_id, new_price),
            },
    {
        self.nft.ensure_wf();
        if self.nft.owned_by(who, kitty_id).is_none() {
            return Err(Error::KittyNotFound);
        }
        match new_price {
            Some(price) => {
                self.kitty_exchange.insert(kitty_id, Listing(who, price));
            },
            None => {
                self.kitty_exchange.remove(&kitty_id);
            },
        }
        self.events.push(Event::KittyPriceUpdated(kitty_id, new_price, who));
        Ok(())
    }

    /// Buys kitty `kitty_id` for `who` at its listed price, all or nothing:
    /// the listing is taken, the kitty moves from the seller to `who` and the
    /// price from `who` to the seller; where a step fails, every earlier step
    /// is undone.
    pub fn buy_kitty(&mut self, who: u64, kitty_id: u32) -> (r: Result<(), Error>)
        ensures
            final(self)@.wf(),
            match old(self)@.buy_error(who, kitty_id) {
                Some(e) => r == Err::<(), Error>(e) && final(self)@ == old(self)@,
                None => r is Ok && final(self)@ == old(self)@.bought(who, kitty_id),
            },
    {
        self.nft.ensure_wf();
        let listing = match self.kitty_exchange.remove(&kitty_id) {
            Some(listing) => listing,
            None => {
                proof {
                    assert(self.kitty_exchange@ =~= old(self).kitty_exchange@);
                }
                return Err(Error::KittyNotForSale);
            },
        };
        let Listing(seller, price) = listing;
        if who == seller {
            self.restore_listing(kitty_id, listing);
            proof {
                assert(self.kitty_exchange@ =~= old(self).kitty_exchange@);
            }
            return Err(Error::CannotBuyOwnKitty);
        }
        if let Err(e) = self.nft.transfer(seller, who, kitty_id) {
            self.restore_listing(kitty_id, listing);
            proof {
                assert(self.kitty_exchange@ =~= old(self).kitty_exchange@);
            }
            return Err(Error::Nft(e));
        }
        if let Err(e) = self.balances.transfer(who, seller, price) {
            let ghost moved = self.nft@;
            let restored = self.nft.transfer(who, seller, kitty_id);
            proof {
                assert(restored is Ok);
                assert(old(self).nft@.tokens[kitty_id] == (TokenInfo {
                    owner: seller,
                    data: old(self).nft@.tokens[kitty_id].data,
                }));
                assert(self.nft@.tokens =~= old(self).nft@.tokens);
            }
            self.restore_listing(kitty_id, listing);
            proof {
                assert(self.kitty_exchange@ =~= old(self).kitty_exchange@);
            }
            return Err(Error::Currency(e));
        }
        self.events.push(Event::KittySold(kitty_id, price, seller, who));
        Ok(())
    }

    /// The kitty with index `kitty_id`, if `owner` holds it.
    pub fn kitties(&self, owner: u64, kitty_id: u32) -> (r: Option<Kitty>)
        ensures
            r == self@.kitties(owner, kitty_id),
    {
        self.nft.owned_by(owner, kitty_id)
    }

    /// The listing of kitty `kitty_id`, if it is for sale.
    pub fn kitty_exchange(&self, kitty_id: u32) -> (r: Option<Listing>)
        ensures
            r == (if self@.exchange.contains_key(kitty_id) {
                Some(self@.exchange[kitty_id])
            } else {
                None
            }),
    {
        match self.kitty_exchange.get(&kitty_id) {
            Some(listing) => Some(*listing),
            None => None,
        }
    }

    /// The index that the next kitty gets.
    pub fn next_kitty_id(&self) -> (r: u32)
        ensures
            r == self@.next_kitty_id(),
    {
        self.nft.next_token_id()
    }

    /// The events emitted so far, oldest first.
    pub fn events(&self) -> (r: &Vec<Event>)
        ensures
            r@ == self@.events,
    {
        &self.events
    }

    /// The free balance of `who`.
    pub fn free_balance(&self, who: u64) -> (r: u64)
        ensures
            r == self@.balances.balance(who),
    {
        self.balances.free_balance(who)
    }

    /// Sets the free balance of `who` to `amount`, as the ledger's genesis or
    /// its administrator does.
    pub fn set_balance(&mut self, who: u64, amount: u64)
        ensures
            final(self)@ == (PalletView {
                balances: BalancesView {
                    free: old(self)@.balances.free.insert(who, amount),
                    existential_deposit: old(self)@.balances.existential_deposit,
                },
                ..old(self)@
            }),
    {
        self.balances.set_balance(who, amount);
    }

    /// Puts back a listing that was taken from the exchange.
    fn restore_listing(&mut self, kitty_id: u32, listing: Listing)
        ensures
            final(self).nft == old(self).nft,
            final(self).balances == old(self).balances,
            final(self).events == old(self).events,
            final(self).kitty_exchange@ == old(self).kitty_exchange@.insert(kitty_id, listing),
    {
        self.kitty_exchange.insert(kitty_id, listing);
    }
}

} // verus!
