use vstd::prelude::*;
use crate::price::Price;
use crate::text::{contains_text, occurs_in};

verus! {

/// A user account: its mail, which identifies it, and its password.
pub struct InsertableUser {
    pub mail: String,
    pub password: String,
}

/// An offer as it is submitted, before the store gives it an id.
///
/// `date_amount` is the closing time (seconds since the epoch) of an
/// auction and the available quantity of a buy-now offer.
pub struct InsertableOffer {
    pub type_: String,
    pub owner: String,
    pub description: String,
    pub price: Price,
    pub date_amount: i32,
}

/// A stored offer.
pub struct Offer {
    pub id: i32,
    pub owner: String,
    pub type_: String,
    pub description: String,
    pub price: Price,
    pub date_amount: i32,
}

/// The id that the store gave a new offer.
#[derive(Clone, Copy, Debug, PartialEq, Eq, Structural)]
pub struct OfferId {
    pub offer_id: i32,
}

/// A purchase (with an amount) or a bid (with a bid), before the store
/// gives it an id.
pub struct InsertableTransaction {
    pub offer_id: i32,
    pub buyer: String,
    pub amount: Option<i32>,
    pub bid: Option<Price>,
}

/// A stored purchase or bid.
pub struct Transaction {
    pub id: i32,
    pub offer_id: i32,
    pub buyer: String,
    pub amount: Option<i32>,
    pub bid: Option<Price>,
}

/// Why a read from the store gave no row: there was none, or the store
/// failed.
#[derive(Clone, Copy, Debug, PartialEq, Eq, Structural)]
pub enum DbError {
    NotFound,
    Failure,
}

impl Offer {
    fn get_description(&self) -> (d: String)
        ensures
            d@ == self.description@,
    {
        self.description.clone()
    }

    fn get_price(&self) -> (p: Price)
        ensures
            p == self.price,
    {
        self.price
    }

    /// Whether `desc` stands in the offer's description.
    pub fn contains_description(&self, desc: &String) -> (r: bool)
        ensures
            r == occurs_in(self.description@, desc@),
    {
        contains_text(self.get_description().as_str(), desc.as_str())
    }

    /// Whether the offer's price is above `min_price`.
    pub fn filter_by_price_min(&self, min_price: Price) -> (r: bool)
        ensures
            r == min_price.below(self.price),
    {
        self.get_price().gt(&min_price)
    }

    /// Whether the offer's price is below `max_price`.
    pub fn filter_by_price_max(&self, max_price: Price) -> (r: bool)
        ensures
            r == self.price.below(max_price),
    {
        self.get_price().lt(&max_price)
    }

    /// Whether the offer is of the type `got_type`.
    pub fn filter_by_type(&self, got_type: &String) -> (r: bool)
        ensures
            r == (got_type@ == self.type_@),
    {
        *got_type == self.type_
    }

    /// Whether `user` owns the offer.
    pub fn is_owned(&self, user: &String) -> (r: bool)
        ensures
            r == (self.owner@ == user@),
    {
        self.owner == *user
    }
}

} // verus!
