//! `GET /offers/<id>`: one offer, with the state of its auction.

use vstd::prelude::*;
use crate::model::{DbError, Offer, Transaction};
use crate::price::Price;
use crate::status::Status;
use crate::text::str_equal;

verus! {

/// Whether an auction still takes bids.
#[derive(Clone, Copy, Debug, PartialEq, Eq, Structural)]
pub enum AuctionStatus {
    Active,
    Expired,
}

/// The JSON object that describes an offer.
pub enum OfferView {
    /// `{"type", "description", "price", "amount"}`
    BuyNow { type_: String, description: String, price: Price, amount: i32 },
    /// `{"type", "description", "status", "last_bid", "customer_id",
    /// "expiration_ts"}`. Before the first bid, `last_bid` is the offer's
    /// price and there is no customer (an empty `customer_id`); a stored
    /// transaction without a bid shows a null `last_bid`.
    Auction {
        type_: String,
        description: String,
        status: AuctionStatus,
        last_bid: Option<Price>,
        customer_id: Option<String>,
        expiration_ts: i32,
    },
}

/// Where a `GET /offers/<id>` request stands.
pub enum ViewState {
    /// Waiting for the offer.
    LoadingOffer,
    /// Waiting for the auction's last bid.
    LoadingBid { offer: Offer, status: AuctionStatus },
    /// The request has been answered.
    Done,
}

/// What the last action gave.
pub enum ViewEvent {
    /// The offer, and the current time in seconds since the epoch.
    OfferLoaded(Result<Offer, DbError>, u64),
    TransactionLoaded(Result<Transaction, DbError>),
}

/// What is to be done next.
pub enum ViewAction {
    LoadOffer(i32),
    LoadTransaction(i32),
    Finish(Result<OfferView, Status>),
}

/// The status of an auction that closes at `date`, at time `now`: it has
/// expired once `now` is past the closing date read as an unsigned number.
pub open spec fn auction_status(date: i32, now: u64) -> AuctionStatus {
    if now > (date as u64) {
        AuctionStatus::Expired
    } else {
        AuctionStatus::Active
    }
}

/// The end of a request.
pub open spec fn finish_view(r: Result<OfferView, Status>) -> (ViewState, ViewAction) {
    (ViewState::Done, ViewAction::Finish(r))
}

impl ViewState {
    /// The next state and action, given the event. An event that is not
    /// what the state waits for ends the request with `500`.
    pub open spec fn next(self, event: ViewEvent) -> (ViewState, ViewAction) {
        match (self, event) {
            (ViewState::LoadingOffer, ViewEvent::OfferLoaded(loaded, now)) => match loaded {
                Err(_) => finish_view(Err(Status::NotFound)),
                Ok(offer) => if offer.type_@ == "buynow"@ {
                    finish_view(Ok(OfferView::BuyNow {
                        type_: offer.type_,
                        description: offer.description,
                        price: offer.price,
                        amount: offer.date_amount,
                    }))
                } else {
                    (
                        ViewState::LoadingBid { offer, status: auction_status(offer.date_amount, now) },
                        ViewAction::LoadTransaction(offer.id),
                    )
                },
            },
            (ViewState::LoadingBid { offer, status }, ViewEvent::TransactionLoaded(loaded)) => match loaded {
                Ok(t) => finish_view(Ok(OfferView::Auction {
                    type_: offer.type_,
                    description: offer.description,
                    status,
                    last_bid: t.bid,
                    customer_id: Some(t.buyer),
                    expiration_ts: offer.date_amount,
                })),
                Err(DbError::NotFound) => finish_view(Ok(OfferView::Auction {
                    type_: offer.type_,
                    description: offer.description,
                    status,
                    last_bid: Some(offer.price),
                    customer_id: None,
                    expiration_ts: offer.date_amount,
                })),
                Err(DbError::Failure) => finish_view(Err(Status::NotFound)),
            },
            _ => finish_view(Err(Status::InternalServerError)),
        }
    }
    /// Takes the event that the last action gave and returns the next state
    /// and action.
    pub fn step(self, event: ViewEvent) -> (r: (ViewState, ViewAction))
        ensures
            r == self.next(event),
    {
        match (self, event) {
            (ViewState::LoadingOffer, ViewEvent::OfferLoaded(loaded, now)) => match loaded {
                Err(_) => (ViewState::Done, ViewAction::Finish(Err(Status::NotFound))),
                Ok(offer) => {
                    if str_equal(offer.type_.as_str(), "buynow") {
                        let view = OfferView::BuyNow {
                            type_: offer.type_,
                            description: offer.description,
                            price: offer.price,
                            amount: offer.date_amount,
                        };
                        (ViewState::Done, ViewAction::Finish(Ok(view)))
                    } else {
                        let status = if now > (offer.date_amount as u64) {
                            AuctionStatus::Expired
                        } else {
                            AuctionStatus::Active
                        };
                        let id = offer.id;
                        (ViewState::LoadingBid { offer, status }, ViewAction::LoadTransaction(id))
                    }
                },
            },
            (ViewState::LoadingBid { offer, status }, ViewEvent::TransactionLoaded(loaded)) => match loaded {
                Ok(t) => {
                    let view = OfferView::Auction {
                        type_: offer.type_,
                        description: offer.description,
                        status,
                        last_bid: t.bid,
                        customer_id: Some(t.buyer),
                        expiration_ts: offer.date_amount,
                    };
                    (ViewState::Done, ViewAction::Finish(Ok(view)))
                },
                Err(DbError::NotFound) => {
                    let view = OfferView::Auction {
                        type_: offer.type_,
                        description: offer.description,
                        status,
                        last_bid: Some(offer.price),
                        customer_id: None,
                        expiration_ts: offer.date_amount,
                    };
                    (ViewState::Done, ViewAction::Finish(Ok(view)))
                },
                Err(DbError::Failure) => (ViewState::Done, ViewAction::Finish(Err(Status::NotFound))),
            },
            _ => (ViewState::Done, ViewAction::Finish(Err(Status::InternalServerError))),
        }
    }
}

/// `GET /offers/<id>`: the first state and action of the request.
pub fn offer_get(id: i32) -> (r: (ViewState, ViewAction))
    ensures
        r == (ViewState::LoadingOffer, ViewAction::LoadOffer(id)),
{
    (ViewState::LoadingOffer, ViewAction::LoadOffer(id))
}

/// The view of an auction before its first bid shows the offer's price as
/// the bid to beat and no customer; after a bid it shows that bid and its
/// bidder.
pub proof fn law_auction_view_shows_last_bid(offer: Offer, status: AuctionStatus, last: Result<Transaction, DbError>)
    ensures
        ({
            let (_, action) = (ViewState::LoadingBid { offer, status }).next(ViewEvent::TransactionLoaded(last));
            &&& (last matches Ok(t) ==> (action matches ViewAction::Finish(Ok(OfferView::Auction { last_bid, customer_id, .. }))
                && last_bid == t.bid && customer_id == Some(t.buyer)))
            &&& (last == Err::<Transaction, DbError>(DbError::NotFound) ==> (action matches ViewAction::Finish(Ok(OfferView::Auction { last_bid, customer_id, .. }))
                && last_bid == Some(offer.price) && customer_id is None))
        }),
{
}

/// The status shown for an auction depends on its closing date and the time
/// of the request alone: it is expired exactly when the time is past the
/// closing date (read as an unsigned number), whether or not the auction has
/// a stored bid.
pub proof fn law_auction_status_from_clock(offer: Offer, now: u64, last: Result<Transaction, DbError>)
    requires
        offer.type_@ != "buynow"@,
        !(last == Err::<Transaction, DbError>(DbError::Failure)),
    ensures
        ({
            let (state1, action1) = ViewState::LoadingOffer.next(ViewEvent::OfferLoaded(Ok(offer), now));
            let (_, action2) = state1.next(ViewEvent::TransactionLoaded(last));
            &&& action1 == ViewAction::LoadTransaction(offer.id)
            &&& action2 matches ViewAction::Finish(Ok(OfferView::Auction { status, expiration_ts, .. }))
            &&& (now > (offer.date_amount as u64) ==> action2->Finish_0->Ok_0->status == AuctionStatus::Expired)
            &&& (now <= (offer.date_amount as u64) ==> action2->Finish_0->Ok_0->status == AuctionStatus::Active)
            &&& action2->Finish_0->Ok_0->expiration_ts == offer.date_amount
        }),
{
}

} // verus!
