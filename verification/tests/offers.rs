use auction_service::managing::{offer_delete, offer_patch, ManageAction, ManageEvent, PatchParams};
use auction_service::model::{DbError, Offer, Transaction};
use auction_service::posting::{
    body_would_abort, offer_post, BodyField, NumberField, OfferBody, PostAction, PostEvent, PostOutcome,
};
use auction_service::price::Price;
use auction_service::status::Status;
use auction_service::viewing::{offer_get, AuctionStatus, OfferView, ViewAction, ViewEvent};

fn p(x: f32) -> Price {
    Price::from_bits(x.to_bits())
}

fn num(x: f32, i: Option<i64>) -> BodyField {
    BodyField::Number(NumberField { single: p(x), integer: i })
}

fn text(s: &str) -> BodyField {
    BodyField::Text(s.to_string())
}

fn body(kind: BodyField, date: BodyField, amount: BodyField) -> OfferBody {
    OfferBody { description: text("lamp"), price: num(12.5, None), type_: kind, date, amount }
}

fn offer(owner: &str, kind: &str) -> Offer {
    Offer {
        id: 4,
        owner: owner.to_string(),
        type_: kind.to_string(),
        description: "lamp".to_string(),
        price: p(5.0),
        date_amount: 100,
    }
}

fn post(b: Option<OfferBody>) -> PostAction {
    offer_post(b).step(PostEvent::Authorized(Ok("ann@x.org".to_string()))).1
}

#[test]
fn posting_an_auction() {
    let (s, a) = offer_post(Some(body(text("auction"), num(1700000000.0, Some(1700000000)), BodyField::Null)))
        .step(PostEvent::Authorized(Ok("ann@x.org".to_string())));
    match a {
        PostAction::InsertOffer(o) => {
            assert_eq!(o.owner, "ann@x.org");
            assert_eq!(o.type_, "auction");
            assert_eq!(o.description, "lamp");
            assert_eq!(o.price, p(12.5));
            assert_eq!(o.date_amount, 1700000000);
        }
        _ => panic!("expected an insert"),
    }
    match s.step(PostEvent::Inserted(Ok(17))).1 {
        PostAction::Finish(PostOutcome::Created(id)) => assert_eq!(id.offer_id, 17),
        _ => panic!("expected 201"),
    }
}

#[test]
fn posting_a_buy_now_offer_truncates_the_amount() {
    match post(Some(body(text("buynow"), BodyField::Null, num(0.0, Some(4294967301))))) {
        PostAction::InsertOffer(o) => assert_eq!(o.date_amount, 5),
        _ => panic!("expected an insert"),
    }
}

#[test]
fn posting_refusals() {
    let (_, a) = offer_post(None).step(PostEvent::Authorized(Err(())));
    assert!(matches!(a, PostAction::Finish(PostOutcome::Fail(Status::Unauthorized))));
    assert!(matches!(post(None), PostAction::Finish(PostOutcome::Fail(Status::BadRequest))));
    let no_date = body(text("auction"), BodyField::Null, num(3.0, Some(3)));
    assert!(matches!(post(Some(no_date)), PostAction::Finish(PostOutcome::Fail(Status::BadRequest))));
    let bad_type = body(text("rental"), num(1.0, Some(1)), num(1.0, Some(1)));
    assert!(matches!(post(Some(bad_type)), PostAction::Finish(PostOutcome::Fail(Status::BadRequest))));
    let numeric_type = body(num(1.0, Some(1)), num(1.0, Some(1)), num(1.0, Some(1)));
    assert!(matches!(post(Some(numeric_type)), PostAction::Finish(PostOutcome::Fail(Status::BadRequest))));
    let mut no_price = body(text("buynow"), BodyField::Null, num(1.0, Some(1)));
    no_price.price = BodyField::Null;
    assert!(matches!(post(Some(no_price)), PostAction::Finish(PostOutcome::Fail(Status::BadRequest))));
    let (s, _) = offer_post(Some(body(text("buynow"), BodyField::Null, num(2.0, Some(2)))))
        .step(PostEvent::Authorized(Ok("ann@x.org".to_string())));
    assert!(matches!(s.step(PostEvent::Inserted(Err(()))).1, PostAction::Finish(PostOutcome::Fail(Status::InternalServerError))));
}

#[test]
fn owner_patches_an_offer() {
    let params = PatchParams { price: Some(p(7.5)), description: Some("new lamp".to_string()), amount: Some(3) };
    let (s, a) = offer_patch(4, Some(params)).step(ManageEvent::Authorized(Ok("ann@x.org".to_string())));
    assert!(matches!(a, ManageAction::LoadOffer(4)));
    let (s, a) = s.step(ManageEvent::OfferLoaded(Ok(offer("ann@x.org", "buynow"))));
    match a {
        ManageAction::UpdateOffer(o) => {
            assert_eq!(o.price, p(7.5));
            assert_eq!(o.description, "new lamp");
            assert_eq!(o.date_amount, 3);
            assert_eq!(o.owner, "ann@x.org");
            assert_eq!(o.id, 4);
        }
        _ => panic!("expected an update"),
    }
    assert!(matches!(s.step(ManageEvent::Stored(true)).1, ManageAction::Finish(Status::Accepted)));
}

#[test]
fn patch_refusals() {
    let patch = |params: Option<PatchParams>, o: Result<Offer, DbError>| {
        let (s, _) = offer_patch(4, params).step(ManageEvent::Authorized(Ok("ann@x.org".to_string())));
        s.step(ManageEvent::OfferLoaded(o)).1
    };
    let amount = || Some(PatchParams { price: Some(p(1.0)), description: None, amount: Some(3) });
    assert!(matches!(patch(amount(), Ok(offer("ann@x.org", "auction"))), ManageAction::Finish(Status::BadRequest)));
    assert!(matches!(patch(amount(), Ok(offer("bob@x.org", "buynow"))), ManageAction::Finish(Status::Unauthorized)));
    assert!(matches!(patch(None, Ok(offer("ann@x.org", "buynow"))), ManageAction::Finish(Status::BadRequest)));
    assert!(matches!(patch(None, Err(DbError::NotFound)), ManageAction::Finish(Status::NotFound)));
    let (_, a) = offer_patch(4, None).step(ManageEvent::Authorized(Err(())));
    assert!(matches!(a, ManageAction::Finish(Status::Unauthorized)));
    let price_only = Some(PatchParams { price: Some(p(1.0)), description: None, amount: None });
    match patch(price_only, Ok(offer("ann@x.org", "auction"))) {
        ManageAction::UpdateOffer(o) => {
            assert_eq!(o.price, p(1.0));
            assert_eq!(o.date_amount, 100);
        }
        _ => panic!("expected an update"),
    }
}

#[test]
fn owner_deletes_an_offer() {
    let (s, _) = offer_delete(4).step(ManageEvent::Authorized(Ok("ann@x.org".to_string())));
    let (s, a) = s.step(ManageEvent::OfferLoaded(Ok(offer("ann@x.org", "auction"))));
    assert!(matches!(a, ManageAction::DeleteOffer(4)));
    assert!(matches!(s.step(ManageEvent::Stored(false)).1, ManageAction::Finish(Status::InternalServerError)));
    let (s, _) = offer_delete(4).step(ManageEvent::Authorized(Ok("bob@x.org".to_string())));
    assert!(matches!(s.step(ManageEvent::OfferLoaded(Ok(offer("ann@x.org", "auction")))).1, ManageAction::Finish(Status::Unauthorized)));
}

#[test]
fn viewing_offers() {
    let (s, a) = offer_get(4);
    assert!(matches!(a, ViewAction::LoadOffer(4)));
    match s.step(ViewEvent::OfferLoaded(Ok(offer("ann@x.org", "buynow")), 50)).1 {
        ViewAction::Finish(Ok(OfferView::BuyNow { price, amount, .. })) => {
            assert_eq!(price, p(5.0));
            assert_eq!(amount, 100);
        }
        _ => panic!("expected a buy-now view"),
    }
    let (s, _) = offer_get(4);
    let (s, a) = s.step(ViewEvent::OfferLoaded(Ok(offer("ann@x.org", "auction")), 101));
    assert!(matches!(a, ViewAction::LoadTransaction(4)));
    match s.step(ViewEvent::TransactionLoaded(Err(DbError::NotFound))).1 {
        ViewAction::Finish(Ok(OfferView::Auction { status, last_bid, customer_id, expiration_ts, .. })) => {
            assert_eq!(status, AuctionStatus::Expired);
            assert_eq!(last_bid, Some(p(5.0)));
            assert_eq!(customer_id, None);
            assert_eq!(expiration_ts, 100);
        }
        _ => panic!("expected an auction view"),
    }
    let (s, _) = offer_get(4);
    let (s, _) = s.step(ViewEvent::OfferLoaded(Ok(offer("ann@x.org", "auction")), 100));
    let t = Transaction { id: 1, offer_id: 4, buyer: "bob@x.org".to_string(), amount: None, bid: Some(p(6.0)) };
    match s.step(ViewEvent::TransactionLoaded(Ok(t))).1 {
        ViewAction::Finish(Ok(OfferView::Auction { status, last_bid, customer_id, .. })) => {
            assert_eq!(status, AuctionStatus::Active);
            assert_eq!(last_bid, Some(p(6.0)));
            assert_eq!(customer_id, Some("bob@x.org".to_string()));
        }
        _ => panic!("expected an auction view"),
    }
    let (s, _) = offer_get(4);
    assert!(matches!(s.step(ViewEvent::OfferLoaded(Err(DbError::Failure), 0)).1, ViewAction::Finish(Err(Status::NotFound))));
}

#[test]
fn bodies_on_which_the_handler_panics_are_detected() {
    let mut b = body(text("auction"), num(1.0, Some(1)), BodyField::Null);
    assert!(!body_would_abort(&b));
    b.description = num(1.0, Some(1));
    assert!(body_would_abort(&b));
    let fractional = body(text("buynow"), BodyField::Null, num(1.5, None));
    assert!(body_would_abort(&fractional));
    let textual_price = OfferBody { price: text("cheap"), ..body(text("buynow"), BodyField::Null, num(1.0, Some(1))) };
    assert!(body_would_abort(&textual_price));
    let refused = body(text("rental"), BodyField::Null, BodyField::Null);
    assert!(!body_would_abort(&refused));
}
