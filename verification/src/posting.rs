//! `POST /offers`: a user puts up an auction or a buy-now offer.

use vstd::prelude::*;
use crate::model::{InsertableOffer, OfferId};
use crate::price::Price;
use crate::status::Status;
use crate::listing::lemma_offer_types_differ;
use crate::text::str_equal;

verus! {

/// A number in the body, as the handler reads it.
#[derive(Clone, Copy)]
pub struct NumberField {
    /// The number as a single-precision number.
    pub single: Price,
    /// The number as a 64-bit integer; `None` where it is not one.
    pub integer: Option<i64>,
}

/// A field of the body, as the handler reads it.
pub enum BodyField {
    /// The field is absent or null, or the body is not an object.
    Null,
    Text(String),
    Number(NumberField),
    /// A boolean, an array or an object.
    Other,
}

/// The fields of the body of `POST /offers`.
pub struct OfferBody {
    pub description: BodyField,
    pub price: BodyField,
    pub type_: BodyField,
    pub date: BodyField,
    pub amount: BodyField,
}

/// How `POST /offers` ends: `201 Created` with the new offer's id, or a bare
/// status.
pub enum PostOutcome {
    Created(OfferId),
    Fail(Status),
}

/// Where a `POST /offers` request stands.
pub enum PostState {
    /// Waiting for the request to be authorized.
    Authorizing { body: Option<OfferBody> },
    /// Waiting for the offer to be stored.
    Inserting,
    /// The request has been answered.
    Done,
}

/// What the last action gave.
pub enum PostEvent {
    Authorized(Result<String, ()>),
    /// The id of the stored offer, or the store's failure.
    Inserted(Result<i32, ()>),
}

/// What is to be done next.
pub enum PostAction {
    InsertOffer(InsertableOffer),
    Finish(PostOutcome),
}

/// The offer types that can be posted, with the field that holds each
/// one's closing date or quantity.
pub open spec fn quantity_field(body: OfferBody, kind: Seq<char>) -> BodyField {
    if kind == "auction"@ {
        body.date
    } else {
        body.amount
    }
}

/// The type that the body names, if it names one as text.
pub open spec fn named_type(body: OfferBody) -> Option<Seq<char>> {
    match body.type_ {
        BodyField::Text(t) => Some(t@),
        _ => None,
    }
}

/// Whether the body is answered `400`: a required field is null, the type
/// is not text or not an offer type, or the field of the closing date (for
/// an auction) or of the quantity (for a buy-now offer) is null.
pub open spec fn is_bad_request(body: OfferBody) -> bool {
    ||| body.description is Null
    ||| body.price is Null
    ||| body.type_ is Null
    ||| !(named_type(body) matches Some(t) && (t == "auction"@ || t == "buynow"@))
    ||| quantity_field(body, named_type(body)->0) is Null
}

/// Whether the handler stops with a panic on this body: it takes the
/// description as text, the price as a number and the closing date or
/// quantity as a 64-bit integer, whatever they are.
pub open spec fn body_aborts(body: OfferBody) -> bool {
    !is_bad_request(body) && {
        ||| !(body.description is Text)
        ||| !(body.price is Number)
        ||| !(quantity_field(body, named_type(body)->0) matches BodyField::Number(n) && n.integer is Some)
    }
}

/// The offer that a valid body describes, owned by `user`; the closing date
/// or quantity is cut to 32 bits.
pub open spec fn offer_of(body: OfferBody, user: String) -> InsertableOffer {
    InsertableOffer {
        owner: user,
        description: body.description->Text_0,
        price: body.price->Number_0.single,
        date_amount: quantity_field(body, named_type(body)->0)->Number_0.integer->0 as i32,
        type_: body.type_->Text_0,
    }
}

impl PostState {
    /// Whether the handler stops with a panic on this event.
    pub open spec fn aborts(self, event: PostEvent) -> bool {
        match (self, event) {
            (PostState::Authorizing { body: Some(b) }, PostEvent::Authorized(Ok(_))) => body_aborts(b),
            _ => false,
        }
    }

    /// The next state and action, given the event. An event that is not
    /// what the state waits for ends the request with `500`.
    pub open spec fn next(self, event: PostEvent) -> (PostState, PostAction) {
        match (self, event) {
            (PostState::Authorizing { body }, PostEvent::Authorized(auth)) => match auth {
                Err(_) => (PostState::Done, PostAction::Finish(PostOutcome::Fail(Status::Unauthorized))),
                Ok(user) => match body {
                    None => (PostState::Done, PostAction::Finish(PostOutcome::Fail(Status::BadRequest))),
                    Some(b) => if is_bad_request(b) {
                        (PostState::Done, PostAction::Finish(PostOutcome::Fail(Status::BadRequest)))
                    } else {
                        (PostState::Inserting, PostAction::InsertOffer(offer_of(b, user)))
                    },
                },
            },
            (PostState::Inserting, PostEvent::Inserted(result)) => match result {
                Ok(id) => (PostState::Done, PostAction::Finish(PostOutcome::Created(OfferId { offer_id: id }))),
                Err(_) => (PostState::Done, PostAction::Finish(PostOutcome::Fail(Status::InternalServerError))),
            },
            _ => (PostState::Done, PostAction::Finish(PostOutcome::Fail(Status::InternalServerError))),
        }
    }

    /// Takes the event that the last action gave and returns the next state
    /// and action.
    pub fn step(self, event: PostEvent) -> (r: (PostState, PostAction))
        requires
            !self.aborts(event),
        ensures
            r == self.next(event),
    {
        match (self, event) {
            (PostState::Authorizing { body }, PostEvent::Authorized(auth)) => match auth {
                Err(_) => (PostState::Done, PostAction::Finish(PostOutcome::Fail(Status::Unauthorized))),
                Ok(user) => match body {
                    None => (PostState::Done, PostAction::Finish(PostOutcome::Fail(Status::BadRequest))),
                    Some(b) => match offer_post_checked(b, user) {
                        Some(offer) => (PostState::Inserting, PostAction::InsertOffer(offer)),
                        None => (PostState::Done, PostAction::Finish(PostOutcome::Fail(Status::BadRequest))),
                    },
                },
            },
            (PostState::Inserting, PostEvent::Inserted(result)) => match result {
                Ok(id) => (PostState::Done, PostAction::Finish(PostOutcome::Created(OfferId { offer_id: id }))),
                Err(_) => (PostState::Done, PostAction::Finish(PostOutcome::Fail(Status::InternalServerError))),
            },
            _ => (PostState::Done, PostAction::Finish(PostOutcome::Fail(Status::InternalServerError))),
        }
    }
}

/// Whether a field is null.
fn is_null(field: &BodyField) -> (r: bool)
    ensures
        r == (field is Null),
{
    match field {
        BodyField::Null => true,
        _ => false,
    }
}

/// The offer that the body of an authorized request describes, or `None`
/// where the request is answered `400`.
fn offer_post_checked(body: OfferBody, user: String) -> (r: Option<InsertableOffer>)
    requires
        !body_aborts(body),
    ensures
        is_bad_request(body) ==> r is None,
        !is_bad_request(body) ==> r == Some(offer_of(body, user)),
{
    if is_null(&body.description) || is_null(&body.price) || is_null(&body.type_) {
        return None;
    }
    let kind = match &body.type_ {
        BodyField::Text(t) => t,
        _ => {
            return None;
        },
    };
    if str_equal(kind.as_str(), "auction") {
        handle_auction(body, user)
    } else if str_equal(kind.as_str(), "buynow") {
        handle_buynow(body, user)
    } else {
        None
    }
}

/// The offer of an auction: the body's `date` is its closing date.
fn handle_auction(body: OfferBody, user: String) -> (r: Option<InsertableOffer>)
    requires
        named_type(body) == Some("auction"@),
        !(body.description is Null),
        !(body.price is Null),
        !body_aborts(body),
    ensures
        is_bad_request(body) ==> r is None,
        !is_bad_request(body) ==> r == Some(offer_of(body, user)),
{
    if is_null(&body.date) {
        return None;
    }
    Some(build_offer(body.description, body.price, body.date, body.type_, user))
}

/// The offer of a buy-now sale: the body's `amount` is its quantity.
fn handle_buynow(body: OfferBody, user: String) -> (r: Option<InsertableOffer>)
    requires
        named_type(body) == Some("buynow"@),
        !(body.description is Null),
        !(body.price is Null),
        !body_aborts(body),
    ensures
        is_bad_request(body) ==> r is None,
        !is_bad_request(body) ==> r == Some(offer_of(body, user)),
{
    proof {
        lemma_offer_types_differ();
    }
    if is_null(&body.amount) {
        return None;
    }
    Some(build_offer(body.description, body.price, body.amount, body.type_, user))
}

/// The offer made of the body's fields.
fn build_offer(
    description: BodyField,
    price: BodyField,
    quantity: BodyField,
    kind: BodyField,
    user: String,
) -> (o: InsertableOffer)
    requires
        description is Text,
        price is Number,
        quantity matches BodyField::Number(n) && n.integer is Some,
        kind is Text,
    ensures
        o == (InsertableOffer {
            owner: user,
            description: description->Text_0,
            price: price->Number_0.single,
            date_amount: quantity->Number_0.integer->0 as i32,
            type_: kind->Text_0,
        }),
{
    let description = match description {
        BodyField::Text(t) => t,
        _ => String::new(),
    };
    let price = match price {
        BodyField::Number(n) => n.single,
        _ => Price::from_bits(0),
    };
    let date_amount = match quantity {
        BodyField::Number(n) => {
            let v = n.integer.unwrap();
            #[verifier::truncate]
            (v as i32)
        },
        _ => 0,
    };
    let type_ = match kind {
        BodyField::Text(t) => t,
        _ => String::new(),
    };
    InsertableOffer { owner: user, description, price, date_amount, type_ }
}

/// Whether the handler stops with a panic on this body (see
/// `body_aborts`); a caller tests this before it hands the body on.
pub fn body_would_abort(body: &OfferBody) -> (r: bool)
    ensures
        r == body_aborts(*body),
{
    if is_null(&body.description) || is_null(&body.price) || is_null(&body.type_) {
        return false;
    }
    let quantity = match &body.type_ {
        BodyField::Text(t) => {
            if str_equal(t.as_str(), "auction") {
                &body.date
            } else if str_equal(t.as_str(), "buynow") {
                proof {
                    lemma_offer_types_differ();
                }
                &body.amount
            } else {
                return false;
            }
        },
        _ => {
            return false;
        },
    };
    if is_null(quantity) {
        return false;
    }
    let text = match &body.description {
        BodyField::Text(_) => true,
        _ => false,
    };
    let number = match &body.price {
        BodyField::Number(_) => true,
        _ => false,
    };
    let integer = match quantity {
        BodyField::Number(n) => n.integer.is_some(),
        _ => false,
    };
    !(text && number && integer)
}

/// `POST /offers`: the first state of the request, given the body as read
/// (`None` where it is not JSON). The request is authorized first.
pub fn offer_post(body: Option<OfferBody>) -> (s: PostState)
    ensures
        s == (PostState::Authorizing { body }),
{
    PostState::Authorizing { body }
}

/// An offer is stored only for an authorized user, who becomes its owner,
/// with the type, description and price that the body gives; an auction
/// keeps the body's `date` and a buy-now offer its `amount`.
pub proof fn law_poster_owns_offer(body: OfferBody, user: String)
    requires
        !body_aborts(body),
    ensures
        ({
            let (state, action) = (PostState::Authorizing { body: Some(body) }).next(PostEvent::Authorized(Ok(user)));
            action matches PostAction::InsertOffer(o) ==> {
                &&& o.owner == user
                &&& named_type(body) == Some(o.type_@)
                &&& (o.type_@ == "auction"@ || o.type_@ == "buynow"@)
                &&& body.description == BodyField::Text(o.description)
                &&& body.price matches BodyField::Number(n) && n.single == o.price
                &&& (o.type_@ == "auction"@ ==> (body.date matches BodyField::Number(n) && n.integer matches Some(i) && o.date_amount == i as i32))
                &&& (o.type_@ == "buynow"@ ==> (body.amount matches BodyField::Number(n) && n.integer matches Some(i) && o.date_amount == i as i32))
                &&& state == PostState::Inserting
            }
        }),
{
    lemma_offer_types_differ();
}

/// The body describes an offer completely: its description is text, its
/// price a number, and it is an auction with an integer `date` or a buy-now
/// offer with an integer `amount`.
pub open spec fn describes_offer(body: OfferBody) -> bool {
    &&& body.description is Text
    &&& body.price is Number
    &&& body.type_ is Text
    &&& ((body.type_->Text_0@ == "auction"@ && body.date is Number && body.date->Number_0.integer is Some)
        || (body.type_->Text_0@ == "buynow"@ && body.amount is Number && body.amount->Number_0.integer is Some))
}

/// A well-typed body of an authorized request is stored: its description is
/// text, its price is a number (whole or not), and it is an auction with an
/// integer `date` or a buy-now offer with an integer `amount`. The offer is
/// inserted with the user as owner, the body's text fields, the price as
/// read, and the date or amount cut to 32 bits. A body is refused with 400
/// only when a required field is null, or the type is not the text of an
/// offer type.
pub proof fn law_well_typed_body_stored(body: OfferBody, user: String)
    ensures
        ({
            let (state, action) = (PostState::Authorizing { body: Some(body) }).next(PostEvent::Authorized(Ok(user)));
            &&& describes_offer(body)
                ==> {
                &&& state == PostState::Inserting
                &&& action matches PostAction::InsertOffer(o)
                &&& action->InsertOffer_0.owner == user
                &&& body.description == BodyField::Text(action->InsertOffer_0.description)
                &&& body.price->Number_0.single == action->InsertOffer_0.price
                &&& body.type_ == BodyField::Text(action->InsertOffer_0.type_)
                &&& (action->InsertOffer_0.type_@ == "auction"@ ==> action->InsertOffer_0.date_amount
                    == body.date->Number_0.integer->0 as i32)
                &&& (action->InsertOffer_0.type_@ == "buynow"@ ==> action->InsertOffer_0.date_amount
                    == body.amount->Number_0.integer->0 as i32)
            }
            &&& action == PostAction::Finish(PostOutcome::Fail(Status::BadRequest)) ==> {
                ||| body.description is Null
                ||| body.price is Null
                ||| body.type_ is Null
                ||| !(body.type_ is Text)
                ||| !(body.type_->Text_0@ == "auction"@ || body.type_->Text_0@ == "buynow"@)
                ||| (body.type_->Text_0@ == "auction"@ && body.date is Null)
                ||| (body.type_->Text_0@ == "buynow"@ && body.amount is Null)
            }
        }),
{
    lemma_offer_types_differ();
}

} // verus!
