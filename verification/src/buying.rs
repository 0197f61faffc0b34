//! `POST /offers/<id>/buy`: buying from a buy-now offer, or bidding on an
//! auction.
//!
//! The request runs as a state machine. `offer_buy` gives the first state;
//! `BuyState::step` takes the state and what the last action gave, and
//! returns the next state and the next action: a read or a write of the
//! store, or the answer.

use vstd::prelude::*;
use crate::model::{DbError, InsertableTransaction, Offer, Transaction};
use crate::price::Price;
use crate::status::Status;
use crate::listing::lemma_offer_types_differ;
use crate::text::str_equal;

verus! {

/// What the body of a buy request holds, as the handler reads it.
pub struct BuyParams {
    /// The `amount` field as a 32-bit integer; `None` where it is absent or
    /// is not one.
    pub amount: Option<i32>,
    /// The `bid` field as a single-precision number; `None` where it is
    /// absent or is not a number.
    pub bid: Option<Price>,
}

/// The JSON bodies of the answers that refuse a purchase or a bid.
pub enum BuyReply {
    /// `{"conflict": "unable to order own items"}`
    OwnItem,
    /// `{"max_amout": n}`: more was asked for than the offer has.
    MaxAmount(i32),
    /// `{"status": "expired"}`: the auction has closed.
    Expired,
    /// `{"minimal_bid": p}`: the bid must beat `p`.
    MinimalBid(Price),
}

/// How a buy request ends: an answer with a body, or a bare status.
pub enum BuyOutcome {
    Reply(Status, BuyReply),
    Fail(Status),
}

/// Where a buy request stands.
pub enum BuyState {
    /// Waiting for the request to be authorized.
    Authorizing { id: i32, body: Option<BuyParams> },
    /// Waiting for the offer.
    LoadingOffer { user: String, params: BuyParams },
    /// Waiting for the purchase to be stored; the offer's quantity then
    /// drops by `amount`.
    Purchasing { offer: Offer, amount: i32 },
    /// Waiting for the offer's new quantity to be stored.
    Restocking,
    /// Waiting for the auction's last bid, if there is one.
    LoadingBid { user: String, offer_id: i32, offer_price: Price, bid: Price },
    /// Waiting for the new bid to be stored.
    Bidding,
    /// The request has been answered.
    Done,
}

/// What the last action gave.
pub enum BuyEvent {
    /// How authorizing the request ended.
    Authorized(Result<String, ()>),
    /// The offer, and the current time in seconds since the epoch.
    OfferLoaded(Result<Offer, DbError>, u64),
    /// The offer's stored transaction.
    TransactionLoaded(Result<Transaction, DbError>),
    /// Whether the last write succeeded.
    Stored(bool),
}

/// What is to be done next.
pub enum BuyAction {
    LoadOffer(i32),
    LoadTransaction(i32),
    InsertTransaction(InsertableTransaction),
    UpdateOffer(Offer),
    UpdateTransaction(Transaction),
    Finish(BuyOutcome),
}

/// The end of a request with a bare status.
pub open spec fn fail(s: Status) -> (BuyState, BuyAction) {
    (BuyState::Done, BuyAction::Finish(BuyOutcome::Fail(s)))
}

/// The end of a request with an answer and a body.
pub open spec fn reply(s: Status, body: BuyReply) -> (BuyState, BuyAction) {
    (BuyState::Done, BuyAction::Finish(BuyOutcome::Reply(s, body)))
}

/// The offer with its quantity lowered by `amount`.
pub open spec fn restocked(offer: Offer, amount: i32) -> Offer {
    Offer { date_amount: (offer.date_amount - amount) as i32, ..offer }
}

/// Whether an auction that closes at `date` has closed at time `now`. The
/// closing time is read as an unsigned number, so a negative one never
/// closes.
pub open spec fn has_closed(date: i32, now: u64) -> bool {
    (date as u64) < now
}

impl BuyState {
    /// The inputs on which the handler stops with a panic: a quantity that
    /// leaves the range of `i32` when the purchase is taken off it, and a
    /// stored transaction of an auction without a bid.
    pub open spec fn aborts(self, event: BuyEvent) -> bool {
        match (self, event) {
            (BuyState::Purchasing { offer, amount }, BuyEvent::Stored(true)) => {
                offer.date_amount - amount > i32::MAX || offer.date_amount - amount < i32::MIN
            },
            (BuyState::LoadingBid { .. }, BuyEvent::TransactionLoaded(Ok(t))) => t.bid is None,
            _ => false,
        }
    }

    /// The next state and action, given the event. An event that is not
    /// what the state waits for ends the request with `500`.
    pub open spec fn next(self, event: BuyEvent) -> (BuyState, BuyAction) {
        match (self, event) {
            (BuyState::Authorizing { id, body }, BuyEvent::Authorized(auth)) => match auth {
                Err(_) => fail(Status::Unauthorized),
                Ok(user) => match body {
                    None => fail(Status::BadRequest),
                    Some(p) => (BuyState::LoadingOffer { user, params: p }, BuyAction::LoadOffer(id)),
                },
            },
            (BuyState::LoadingOffer { user, params }, BuyEvent::OfferLoaded(loaded, now)) => match loaded {
                Err(_) => fail(Status::NotFound),
                Ok(offer) => if offer.owner@ == user@ {
                    reply(Status::Conflict, BuyReply::OwnItem)
                } else if offer.type_@ == "buynow"@ {
                    match params.amount {
                        None => fail(Status::BadRequest),
                        Some(a) => if a > offer.date_amount {
                            reply(Status::Conflict, BuyReply::MaxAmount(offer.date_amount))
                        } else {
                            (
                                BuyState::Purchasing { offer, amount: a },
                                BuyAction::InsertTransaction(
                                    InsertableTransaction { offer_id: offer.id, buyer: user, amount: Some(a), bid: None },
                                ),
                            )
                        },
                    }
                } else if offer.type_@ == "auction"@ {
                    if has_closed(offer.date_amount, now) {
                        reply(Status::Conflict, BuyReply::Expired)
                    } else {
                        match params.bid {
                            None => fail(Status::BadRequest),
                            Some(b) => (
                                BuyState::LoadingBid { user, offer_id: offer.id, offer_price: offer.price, bid: b },
                                BuyAction::LoadTransaction(offer.id),
                            ),
                        }
                    }
                } else {
                    fail(Status::OK)
                },
            },
            (BuyState::Purchasing { offer, amount }, BuyEvent::Stored(ok)) => if ok {
                (BuyState::Restocking, BuyAction::UpdateOffer(restocked(offer, amount)))
            } else {
                fail(Status::InternalServerError)
            },
            (BuyState::Restocking, BuyEvent::Stored(ok)) => if ok {
                fail(Status::OK)
            } else {
                fail(Status::InternalServerError)
            },
            (BuyState::LoadingBid { user, offer_id, offer_price, bid }, BuyEvent::TransactionLoaded(loaded)) => match loaded {
                Ok(t) => if bid.at_most(t.bid->0) {
                    reply(Status::Conflict, BuyReply::MinimalBid(t.bid->0))
                } else {
                    (BuyState::Bidding, BuyAction::UpdateTransaction(Transaction { bid: Some(bid), buyer: user, ..t }))
                },
                Err(DbError::NotFound) => if bid.below(offer_price) {
                    reply(Status::Conflict, BuyReply::MinimalBid(offer_price))
                } else {
                    (
                        BuyState::Bidding,
                        BuyAction::InsertTransaction(
                            InsertableTransaction { offer_id, buyer: user, amount: None, bid: Some(bid) },
                        ),
                    )
                },
                Err(DbError::Failure) => fail(Status::InternalServerError),
            },
            (BuyState::Bidding, BuyEvent::Stored(ok)) => if ok {
                fail(Status::OK)
            } else {
                fail(Status::InternalServerError)
            },
            _ => (BuyState::Done, BuyAction::Finish(BuyOutcome::Fail(Status::InternalServerError))),
        }
    }

    /// How many more events the request can take before it is answered.
    pub open spec fn remaining(self) -> nat {
        match self {
            BuyState::Authorizing { .. } => 4,
            BuyState::LoadingOffer { .. } => 3,
            BuyState::Purchasing { .. } => 2,
            BuyState::LoadingBid { .. } => 2,
            BuyState::Restocking => 1,
            BuyState::Bidding => 1,
            BuyState::Done => 0,
        }
    }

    /// Whether the handler stops with a panic on this event (see
    /// `aborts`); a caller tests this before it takes the step.
    pub fn would_abort(&self, event: &BuyEvent) -> (r: bool)
        ensures
            r == self.aborts(*event),
    {
        match (self, event) {
            (BuyState::Purchasing { offer, amount }, BuyEvent::Stored(true)) => {
                let left = offer.date_amount as i64 - *amount as i64;
                left > i32::MAX as i64 || left < i32::MIN as i64
            },
            (BuyState::LoadingBid { .. }, BuyEvent::TransactionLoaded(Ok(t))) => t.bid.is_none(),
            _ => false,
        }
    }

    /// Takes the event that the last action gave and returns the next state
    /// and action.
    pub fn step(self, event: BuyEvent) -> (r: (BuyState, BuyAction))
        requires
            !self.aborts(event),
        ensures
            r == self.next(event),
    {
        match (self, event) {
            (BuyState::Authorizing { id, body }, BuyEvent::Authorized(auth)) => match auth {
                Err(_) => (BuyState::Done, BuyAction::Finish(BuyOutcome::Fail(Status::Unauthorized))),
                Ok(user) => match body {
                    None => (BuyState::Done, BuyAction::Finish(BuyOutcome::Fail(Status::BadRequest))),
                    Some(p) => (BuyState::LoadingOffer { user, params: p }, BuyAction::LoadOffer(id)),
                },
            },
            (BuyState::LoadingOffer { user, params }, BuyEvent::OfferLoaded(loaded, now)) => {
                match loaded {
                    Err(_) => (BuyState::Done, BuyAction::Finish(BuyOutcome::Fail(Status::NotFound))),
                    Ok(offer) => Self::on_offer(user, params, offer, now),
                }
            },
            (BuyState::Purchasing { offer, amount }, BuyEvent::Stored(ok)) => {
                if ok {
                    let new_amount = offer.date_amount - amount;
                    let updated = Offer { date_amount: new_amount, ..offer };
                    (BuyState::Restocking, BuyAction::UpdateOffer(updated))
                } else {
                    (BuyState::Done, BuyAction::Finish(BuyOutcome::Fail(Status::InternalServerError)))
                }
            },
            (BuyState::Restocking, BuyEvent::Stored(ok)) | (BuyState::Bidding, BuyEvent::Stored(ok)) => {
                if ok {
                    (BuyState::Done, BuyAction::Finish(BuyOutcome::Fail(Status::OK)))
                } else {
                    (BuyState::Done, BuyAction::Finish(BuyOutcome::Fail(Status::InternalServerError)))
                }
            },
            (BuyState::LoadingBid { user, offer_id, offer_price, bid }, BuyEvent::TransactionLoaded(loaded)) => {
                match loaded {
                    Ok(t) => {
                        let last = t.bid.unwrap();
                        if last.ge(&bid) {
                            (BuyState::Done, BuyAction::Finish(BuyOutcome::Reply(Status::Conflict, BuyReply::MinimalBid(last))))
                        } else {
                            let t2 = Transaction { bid: Some(bid), buyer: user, ..t };
                            (BuyState::Bidding, BuyAction::UpdateTransaction(t2))
                        }
                    },
                    Err(DbError::NotFound) => {
                        if bid.lt(&offer_price) {
                            (BuyState::Done, BuyAction::Finish(BuyOutcome::Reply(Status::Conflict, BuyReply::MinimalBid(offer_price))))
                        } else {
                            let t = InsertableTransaction { offer_id, buyer: user, amount: None, bid: Some(bid) };
                            (BuyState::Bidding, BuyAction::InsertTransaction(t))
                        }
                    },
                    Err(DbError::Failure) => {
                        (BuyState::Done, BuyAction::Finish(BuyOutcome::Fail(Status::InternalServerError)))
                    },
                }
            },
            _ => (BuyState::Done, BuyAction::Finish(BuyOutcome::Fail(Status::InternalServerError))),
        }
    }

    /// The decision once the offer is loaded.
    fn on_offer(user: String, params: BuyParams, offer: Offer, now: u64) -> (r: (BuyState, BuyAction))
        ensures
            r == (BuyState::LoadingOffer { user, params }).next(BuyEvent::OfferLoaded(Ok(offer), now)),
    {
        if offer.owner == user {
            return (BuyState::Done, BuyAction::Finish(BuyOutcome::Reply(Status::Conflict, BuyReply::OwnItem)));
        }
        if str_equal(offer.type_.as_str(), "buynow") {
            match params.amount {
                None => (BuyState::Done, BuyAction::Finish(BuyOutcome::Fail(Status::BadRequest))),
                Some(a) => {
                    if a > offer.date_amount {
                        let max = offer.date_amount;
                        (BuyState::Done, BuyAction::Finish(BuyOutcome::Reply(Status::Conflict, BuyReply::MaxAmount(max))))
                    } else {
                        let t = InsertableTransaction { offer_id: offer.id, buyer: user, amount: Some(a), bid: None };
                        (BuyState::Purchasing { offer, amount: a }, BuyAction::InsertTransaction(t))
                    }
                },
            }
        } else if str_equal(offer.type_.as_str(), "auction") {
            if (offer.date_amount as u64) < now {
                (BuyState::Done, BuyAction::Finish(BuyOutcome::Reply(Status::Conflict, BuyReply::Expired)))
            } else {
                match params.bid {
                    None => (BuyState::Done, BuyAction::Finish(BuyOutcome::Fail(Status::BadRequest))),
                    Some(b) => {
                        let id = offer.id;
                        (
                            BuyState::LoadingBid { user, offer_id: id, offer_price: offer.price, bid: b },
                            BuyAction::LoadTransaction(id),
                        )
                    },
                }
            }
        } else {
            (BuyState::Done, BuyAction::Finish(BuyOutcome::Fail(Status::OK)))
        }
    }
}

/// `POST /offers/<id>/buy`: the first state of the request, given the body
/// as read (`None` where it is not JSON). The request is authorized first.
pub fn offer_buy(id: i32, params: Option<BuyParams>) -> (s: BuyState)
    ensures
        s == (BuyState::Authorizing { id, body: params }),
{
    BuyState::Authorizing { id, body: params }
}

/// A request that is not authorized is answered `401` at once, before the
/// store is read or written.
pub proof fn law_unauthorized_touches_nothing(id: i32, body: Option<BuyParams>)
    ensures
        (BuyState::Authorizing { id, body }).next(BuyEvent::Authorized(Err(()))) == fail(Status::Unauthorized),
{
}

/// Nobody buys from or bids on their own offer: the request ends with a
/// conflict, and nothing is written.
pub proof fn law_own_offer_refused(user: String, params: BuyParams, offer: Offer, now: u64)
    requires
        offer.owner@ == user@,
    ensures
        (BuyState::LoadingOffer { user, params }).next(BuyEvent::OfferLoaded(Ok(offer), now))
            == reply(Status::Conflict, BuyReply::OwnItem),
{
}

/// A purchase is stored only for a buy-now offer of someone else, in the
/// buyer's name, for no more than the offer has; once it is stored, the
/// offer is written back with its quantity lowered by exactly the amount
/// bought, and nothing else changed.
pub proof fn law_purchase_within_stock(user: String, params: BuyParams, offer: Offer, now: u64)
    ensures
        ({
            let (state, action) = (BuyState::LoadingOffer { user, params }).next(
                BuyEvent::OfferLoaded(Ok(offer), now),
            );
            match action {
                BuyAction::InsertTransaction(t) => match t.amount {
                    Some(a) => {
                        &&& offer.owner@ != user@
                        &&& offer.type_@ == "buynow"@
                        &&& a <= offer.date_amount
                        &&& t.buyer@ == user@
                        &&& t.offer_id == offer.id
                        &&& t.bid is None
                        &&& state.next(BuyEvent::Stored(true)).1 == BuyAction::UpdateOffer(restocked(offer, a))
                        &&& (offer.date_amount - a <= i32::MAX ==> restocked(offer, a).date_amount == offer.date_amount - a)
                        &&& restocked(offer, a).id == offer.id
                        &&& restocked(offer, a).price == offer.price
                    },
                    None => true,
                },
                _ => true,
            }
        }),
{
}

/// A purchase of a non-negative amount never raises the offer's quantity
/// and never takes it below zero. (A negative amount passes the check
/// against the quantity and raises it.)
pub proof fn law_stock_stays_in_range(user: String, params: BuyParams, offer: Offer, now: u64)
    requires
        params.amount matches Some(a) && a >= 0,
    ensures
        ({
            let (state, action) = (BuyState::LoadingOffer { user, params }).next(
                BuyEvent::OfferLoaded(Ok(offer), now),
            );
            action is InsertTransaction ==> ({
                let a = params.amount->0;
                &&& 0 <= offer.date_amount - a <= offer.date_amount
                &&& state.next(BuyEvent::Stored(true)).1 == BuyAction::UpdateOffer(restocked(offer, a))
                &&& restocked(offer, a).date_amount == offer.date_amount - a
            })
        }),
{
    lemma_offer_types_differ();
}

/// What the store holds for an auction: at most one transaction, of this
/// offer, with a bid that is at least the offer's price.
pub open spec fn auction_store_ok(offer: Offer, stored: Option<Transaction>) -> bool {
    stored matches Some(t) ==> {
        &&& t.offer_id == offer.id
        &&& t.bid matches Some(c)
        &&& offer.price.at_most(c)
    }
}

/// What reading the auction's transaction gives.
pub open spec fn read_of(stored: Option<Transaction>) -> Result<Transaction, DbError> {
    match stored {
        Some(t) => Ok(t),
        None => Err(DbError::NotFound),
    }
}

/// The auction's transaction after the write `action` succeeds; an insert
/// gets the id `fresh_id` from the store.
pub open spec fn after_write(stored: Option<Transaction>, action: BuyAction, fresh_id: i32) -> Option<Transaction> {
    match action {
        BuyAction::InsertTransaction(t) => Some(
            Transaction { id: fresh_id, offer_id: t.offer_id, buyer: t.buyer, amount: t.amount, bid: t.bid },
        ),
        BuyAction::UpdateTransaction(t) => Some(t),
        _ => stored,
    }
}

/// Over a whole bid on an auction: the request reads the auction's
/// transaction and writes at most once. A transaction is inserted only when
/// the auction has none, an existing one is only ever replaced (same id and
/// offer), and the stored bid only rises: it changes only to a strictly
/// higher bid, the request's own. So an auction keeps at most one
/// transaction, whose bid is at least the price, and a later bid never finds
/// a transaction without a bid. A write that fails leaves the store as it
/// was. (Stated for a price and bids that are numbers: a stored NaN bid is
/// below nothing, so any bid would replace it.)
pub proof fn law_auction_bids_only_rise(
    user: String,
    params: BuyParams,
    offer: Offer,
    now: u64,
    stored: Option<Transaction>,
    fresh_id: i32,
)
    requires
        offer.type_@ == "auction"@,
        !offer.price.is_nan(),
        params.bid matches Some(b) && !b.is_nan(),
        auction_store_ok(offer, stored),
    ensures
        ({
            let (state1, action1) = (BuyState::LoadingOffer { user, params }).next(
                BuyEvent::OfferLoaded(Ok(offer), now),
            );
            let (state2, action2) = if action1 is LoadTransaction {
                state1.next(BuyEvent::TransactionLoaded(read_of(stored)))
            } else {
                (state1, action1)
            };
            let after = after_write(stored, action2, fresh_id);
            &&& (action1 is LoadTransaction ==> action1 == BuyAction::LoadTransaction(offer.id))
            &&& !(action1 is InsertTransaction || action1 is UpdateTransaction || action1 is UpdateOffer)
            &&& !(action2 is UpdateOffer)
            &&& auction_store_ok(offer, after)
            &&& (action2 is InsertTransaction ==> stored is None)
            &&& (stored matches Some(t) ==> {
                &&& after matches Some(t2)
                &&& t2.id == t.id
                &&& t2.offer_id == t.offer_id
                &&& t.bid->0.at_most(t2.bid->0)
                &&& (t2.bid != t.bid ==> t.bid->0.below(t2.bid->0) && t2.bid == params.bid && t2.buyer@ == user@)
            })
            &&& (action2 is InsertTransaction || action2 is UpdateTransaction ==> state2.next(BuyEvent::Stored(false)).1
                == BuyAction::Finish(BuyOutcome::Fail(Status::InternalServerError)))
        }),
{
    lemma_offer_types_differ();
}

/// Asking for more than a buy-now offer has is answered with the quantity
/// it has, and nothing is written.
pub proof fn law_no_overselling(user: String, params: BuyParams, offer: Offer, now: u64)
    requires
        offer.owner@ != user@,
        offer.type_@ == "buynow"@,
        params.amount matches Some(a) && a > offer.date_amount,
    ensures
        (BuyState::LoadingOffer { user, params }).next(BuyEvent::OfferLoaded(Ok(offer), now))
            == reply(Status::Conflict, BuyReply::MaxAmount(offer.date_amount)),
{
}

/// A closed auction takes no bids.
pub proof fn law_closed_auction_refused(user: String, params: BuyParams, offer: Offer, now: u64)
    requires
        offer.owner@ != user@,
        offer.type_@ == "auction"@,
        has_closed(offer.date_amount, now),
    ensures
        (BuyState::LoadingOffer { user, params }).next(BuyEvent::OfferLoaded(Ok(offer), now))
            == reply(Status::Conflict, BuyReply::Expired),
{
    lemma_offer_types_differ();
    assert(offer.type_@ != "buynow"@);
}

/// A new bid replaces the last one exactly when it is above it, and is then
/// stored in the bidder's name on the same transaction; otherwise the
/// answer names the bid to beat.
pub proof fn law_bid_beats_last(
    user: String,
    offer_id: i32,
    offer_price: Price,
    bid: Price,
    last: Transaction,
)
    requires
        last.bid matches Some(b) && !b.is_nan(),
        !bid.is_nan(),
    ensures
        ({
            let (state, action) = (BuyState::LoadingBid { user, offer_id, offer_price, bid }).next(
                BuyEvent::TransactionLoaded(Ok(last)),
            );
            if last.bid->0.below(bid) {
                &&& action matches BuyAction::UpdateTransaction(t)
                &&& t.bid == Some(bid)
                &&& t.buyer@ == user@
                &&& t.id == last.id
                &&& t.offer_id == last.offer_id
                &&& t.amount == last.amount
                &&& state == BuyState::Bidding
            } else {
                (state, action) == reply(Status::Conflict, BuyReply::MinimalBid(last.bid->0))
            }
        }),
{
}

/// The first bid on an auction is stored exactly when it is at least the
/// offer's price; otherwise the answer names the price.
pub proof fn law_first_bid_meets_price(user: String, offer_id: i32, offer_price: Price, bid: Price)
    requires
        !offer_price.is_nan(),
        !bid.is_nan(),
    ensures
        ({
            let (state, action) = (BuyState::LoadingBid { user, offer_id, offer_price, bid }).next(
                BuyEvent::TransactionLoaded(Err(DbError::NotFound)),
            );
            if offer_price.at_most(bid) {
                &&& action matches BuyAction::InsertTransaction(t)
                &&& t.bid == Some(bid)
                &&& t.amount is None
                &&& t.buyer@ == user@
                &&& t.offer_id == offer_id
                &&& state == BuyState::Bidding
            } else {
                (state, action) == reply(Status::Conflict, BuyReply::MinimalBid(offer_price))
            }
        }),
{
}

/// Every step brings the request closer to its answer: a request is
/// answered after at most four events.
pub proof fn law_buy_terminates(state: BuyState, event: BuyEvent)
    requires
        !(state is Done),
    ensures
        state.next(event).0.remaining() < state.remaining(),
        state.next(event).0.remaining() == 0 <==> state.next(event).1 is Finish,
{
}

/// A buy-now purchase of someone else's offer is accepted exactly when the
/// amount asked for is at most the offer's quantity (buying the whole
/// remaining stock included): the purchase is then inserted for that amount
/// in the buyer's name, and once stored the offer is written back with its
/// quantity lowered by the amount. Above the quantity it is refused with the
/// quantity, and nothing is written.
pub proof fn law_buynow_accepts_up_to_stock(user: String, params: BuyParams, offer: Offer, now: u64, a: i32)
    requires
        offer.owner@ != user@,
        offer.type_@ == "buynow"@,
        params.amount == Some(a),
    ensures
        ({
            let (state, action) = (BuyState::LoadingOffer { user, params }).next(
                BuyEvent::OfferLoaded(Ok(offer), now),
            );
            &&& a <= offer.date_amount ==> {
                &&& action == BuyAction::InsertTransaction(
                    InsertableTransaction { offer_id: offer.id, buyer: user, amount: Some(a), bid: None },
                )
                &&& state.next(BuyEvent::Stored(true)).1 matches BuyAction::UpdateOffer(o)
                &&& (offer.date_amount - a <= i32::MAX ==> state.next(BuyEvent::Stored(true)).1->UpdateOffer_0.date_amount
                    == offer.date_amount - a)
                &&& state.next(BuyEvent::Stored(true)).1->UpdateOffer_0.id == offer.id
                &&& state.next(BuyEvent::Stored(false)).1
                    == BuyAction::Finish(BuyOutcome::Fail(Status::InternalServerError))
            }
            &&& a > offer.date_amount ==> (state == BuyState::Done && action
                == BuyAction::Finish(BuyOutcome::Reply(Status::Conflict, BuyReply::MaxAmount(offer.date_amount))))
        }),
{
}

} // verus!
