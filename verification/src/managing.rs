//! `PATCH /offers/<id>` and `DELETE /offers/<id>`: an owner changes or
//! removes an offer.

use vstd::prelude::*;
use crate::model::{DbError, Offer};
use crate::price::Price;
use crate::status::Status;
use crate::text::str_equal;

verus! {

/// What the body of a change request holds, as the handler reads it.
pub struct PatchParams {
    /// The `price` field, where it is a number.
    pub price: Option<Price>,
    /// The `description` field, where it is text.
    pub description: Option<String>,
    /// The `amount` field, where it is a 64-bit integer.
    pub amount: Option<i64>,
}

/// Where a change or removal request stands.
pub enum ManageState {
    /// Waiting for the request to be authorized.
    Authorizing { id: i32, change: Option<Option<PatchParams>> },
    /// Waiting for the offer.
    LoadingOffer { user: String, id: i32, change: Option<Option<PatchParams>> },
    /// Waiting for the change or the removal to be stored.
    Storing,
    /// The request has been answered.
    Done,
}

/// What the last action gave.
pub enum ManageEvent {
    Authorized(Result<String, ()>),
    OfferLoaded(Result<Offer, DbError>),
    Stored(bool),
}

/// What is to be done next.
pub enum ManageAction {
    LoadOffer(i32),
    UpdateOffer(Offer),
    DeleteOffer(i32),
    Finish(Status),
}

/// The offer with the changes that the body asks for: a new price, a new
/// description, a new quantity (cut to 32 bits).
pub open spec fn patched(offer: Offer, params: PatchParams) -> Offer {
    Offer {
        price: match params.price {
            Some(p) => p,
            None => offer.price,
        },
        description: match params.description {
            Some(d) => d,
            None => offer.description,
        },
        date_amount: match params.amount {
            Some(a) => a as i32,
            None => offer.date_amount,
        },
        ..offer
    }
}

/// The end of a request with this status.
pub open spec fn finish(s: Status) -> (ManageState, ManageAction) {
    (ManageState::Done, ManageAction::Finish(s))
}

impl ManageState {
    /// The next state and action, given the event. `change` is `None` for a
    /// removal, and for a change holds the body as read (`None` where it is
    /// not JSON). An event that is not what the state waits for ends the
    /// request with `500`.
    pub open spec fn next(self, event: ManageEvent) -> (ManageState, ManageAction) {
        match (self, event) {
            (ManageState::Authorizing { id, change }, ManageEvent::Authorized(auth)) => match auth {
                Err(_) => finish(Status::Unauthorized),
                Ok(user) => (ManageState::LoadingOffer { user, id, change }, ManageAction::LoadOffer(id)),
            },
            (ManageState::LoadingOffer { user, id, change }, ManageEvent::OfferLoaded(loaded)) => match loaded {
                Err(_) => finish(Status::NotFound),
                Ok(offer) => if offer.owner@ != user@ {
                    finish(Status::Unauthorized)
                } else {
                    match change {
                        None => (ManageState::Storing, ManageAction::DeleteOffer(id)),
                        Some(None) => finish(Status::BadRequest),
                        Some(Some(params)) => if params.amount is Some && offer.type_@ == "auction"@ {
                            finish(Status::BadRequest)
                        } else {
                            (ManageState::Storing, ManageAction::UpdateOffer(patched(offer, params)))
                        },
                    }
                },
            },
            (ManageState::Storing, ManageEvent::Stored(ok)) => if ok {
                finish(Status::Accepted)
            } else {
                finish(Status::InternalServerError)
            },
            _ => finish(Status::InternalServerError),
        }
    }

    /// Takes the event that the last action gave and returns the next state
    /// and action.
    pub fn step(self, event: ManageEvent) -> (r: (ManageState, ManageAction))
        ensures
            r == self.next(event),
    {
        match (self, event) {
            (ManageState::Authorizing { id, change }, ManageEvent::Authorized(auth)) => match auth {
                Err(_) => (ManageState::Done, ManageAction::Finish(Status::Unauthorized)),
                Ok(user) => (ManageState::LoadingOffer { user, id, change }, ManageAction::LoadOffer(id)),
            },
            (ManageState::LoadingOffer { user, id, change }, ManageEvent::OfferLoaded(loaded)) => match loaded {
                Err(_) => (ManageState::Done, ManageAction::Finish(Status::NotFound)),
                Ok(offer) => {
                    if offer.owner != user {
                        return (ManageState::Done, ManageAction::Finish(Status::Unauthorized));
                    }
                    match change {
                        None => (ManageState::Storing, ManageAction::DeleteOffer(id)),
                        Some(None) => (ManageState::Done, ManageAction::Finish(Status::BadRequest)),
                        Some(Some(params)) => apply_patch(offer, params),
                    }
                },
            },
            (ManageState::Storing, ManageEvent::Stored(ok)) => {
                if ok {
                    (ManageState::Done, ManageAction::Finish(Status::Accepted))
                } else {
                    (ManageState::Done, ManageAction::Finish(Status::InternalServerError))
                }
            },
            _ => (ManageState::Done, ManageAction::Finish(Status::InternalServerError)),
        }
    }
}

/// The owner's change: applied field by field, except that the quantity of
/// an auction cannot be changed.
fn apply_patch(offer: Offer, params: PatchParams) -> (r: (ManageState, ManageAction))
    ensures
        params.amount is Some && offer.type_@ == "auction"@ ==> r == finish(Status::BadRequest),
        !(params.amount is Some && offer.type_@ == "auction"@)
            ==> r == (ManageState::Storing, ManageAction::UpdateOffer(patched(offer, params))),
{
    let mut offer = offer;
    if let Some(p) = params.price {
        offer.price = p;
    }
    if let Some(d) = params.description {
        offer.description = d;
    }
    if let Some(a) = params.amount {
        if str_equal(offer.type_.as_str(), "auction") {
            return (ManageState::Done, ManageAction::Finish(Status::BadRequest));
        }
        offer.date_amount = #[verifier::truncate] (a as i32);
    }
    (ManageState::Storing, ManageAction::UpdateOffer(offer))
}

/// `PATCH /offers/<id>`: the first state of the request, given the body as
/// read (`None` where it is not JSON). The request is authorized first.
pub fn offer_patch(id: i32, params: Option<PatchParams>) -> (s: ManageState)
    ensures
        s == (ManageState::Authorizing { id, change: Some(params) }),
{
    ManageState::Authorizing { id, change: Some(params) }
}

/// `DELETE /offers/<id>`: the first state of the request. The request is
/// authorized first.
pub fn offer_delete(id: i32) -> (s: ManageState)
    ensures
        s == (ManageState::Authorizing { id, change: None }),
{
    ManageState::Authorizing { id, change: None }
}

/// Only the owner changes or removes an offer: for anyone else the request
/// ends with `401` and nothing is written.
pub proof fn law_only_owner_manages(user: String, id: i32, change: Option<Option<PatchParams>>, offer: Offer)
    requires
        offer.owner@ != user@,
    ensures
        (ManageState::LoadingOffer { user, id, change }).next(ManageEvent::OfferLoaded(Ok(offer)))
            == finish(Status::Unauthorized),
{
}

/// A change keeps the offer's id, owner and type; the closing date of an
/// auction is never changed: a change that asks for it is refused whole.
pub proof fn law_patch_keeps_identity(user: String, id: i32, params: PatchParams, offer: Offer)
    ensures
        ({
            let (state, action) = (ManageState::LoadingOffer { user, id, change: Some(Some(params)) }).next(
                ManageEvent::OfferLoaded(Ok(offer)),
            );
            &&& (action matches ManageAction::UpdateOffer(o) ==> {
                &&& o.id == offer.id
                &&& o.owner == offer.owner
                &&& o.type_ == offer.type_
                &&& (offer.type_@ == "auction"@ ==> o.date_amount == offer.date_amount)
                &&& offer.owner@ == user@
            })
            &&& (offer.owner@ == user@ && offer.type_@ == "auction"@ && params.amount is Some
                ==> (state, action) == finish(Status::BadRequest))
        }),
{
}

/// A removal removes the offer named in the request, and only after its
/// owner has been checked.
pub proof fn law_delete_removes_named(user: String, id: i32, offer: Offer)
    ensures
        ({
            let (state, action) = (ManageState::LoadingOffer { user, id, change: None }).next(
                ManageEvent::OfferLoaded(Ok(offer)),
            );
            &&& (offer.owner@ == user@ ==> action == ManageAction::DeleteOffer(id))
            &&& (offer.owner@ != user@ ==> action == ManageAction::Finish(Status::Unauthorized))
        }),
{
}

/// An owner's change of an offer that is not refused sets exactly the
/// fields that the body names and keeps every other one: with no price in
/// the body the price stays, with no description the description stays,
/// with no amount the quantity stays; a named price or description is taken
/// as given and a named amount is cut to 32 bits. The change is refused
/// (400, nothing written) only when it names an amount for an auction.
pub proof fn law_patch_sets_named_fields_only(user: String, id: i32, params: PatchParams, offer: Offer)
    requires
        offer.owner@ == user@,
    ensures
        ({
            let (state, action) = (ManageState::LoadingOffer { user, id, change: Some(Some(params)) }).next(
                ManageEvent::OfferLoaded(Ok(offer)),
            );
            &&& (params.amount is Some && offer.type_@ == "auction"@) ==> action == ManageAction::Finish(Status::BadRequest)
            &&& !(params.amount is Some && offer.type_@ == "auction"@) ==> {
                &&& action matches ManageAction::UpdateOffer(o)
                &&& state == ManageState::Storing
                &&& action->UpdateOffer_0.id == offer.id
                &&& action->UpdateOffer_0.owner == offer.owner
                &&& action->UpdateOffer_0.type_ == offer.type_
                &&& (params.price is None ==> action->UpdateOffer_0.price == offer.price)
                &&& (params.price matches Some(p) ==> action->UpdateOffer_0.price == p)
                &&& (params.description is None ==> action->UpdateOffer_0.description == offer.description)
                &&& (params.description matches Some(d) ==> action->UpdateOffer_0.description == d)
                &&& (params.amount is None ==> action->UpdateOffer_0.date_amount == offer.date_amount)
                &&& (params.amount matches Some(n) ==> action->UpdateOffer_0.date_amount == n as i32)
            }
        }),
{
}

} // verus!
