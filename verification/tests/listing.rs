use auction_service::listing::{
    all_offers, all_offers_get, get_filtered_offers, my_offers_get, validate_filter_params, OfferFilter,
    TypeExt,
};
use auction_service::model::Offer;
use auction_service::price::Price;
use auction_service::status::Status;

fn p(x: f32) -> Price {
    Price::from_bits(x.to_bits())
}

fn offer(id: i32, owner: &str, kind: &str, description: &str, price: f32) -> Offer {
    Offer {
        id,
        owner: owner.to_string(),
        type_: kind.to_string(),
        description: description.to_string(),
        price: p(price),
        date_amount: 10,
    }
}

fn catalogue() -> Vec<Offer> {
    vec![
        offer(1, "ann@x.org", "auction", "old red bicycle", 50.0),
        offer(2, "bob@x.org", "buynow", "red lamp", 12.5),
        offer(3, "ann@x.org", "buynow", "blue chair", 80.0),
        offer(4, "cid@x.org", "auction", "bicycle bell", 5.0),
    ]
}

fn ids(offers: &[Offer]) -> Vec<i32> {
    offers.iter().map(|o| o.id).collect()
}

fn no_filter() -> OfferFilter {
    OfferFilter { contains: None, price_min: None, price_max: None, got_type: None, user: None }
}

#[test]
fn type_filter_validation() {
    assert_eq!(validate_filter_params(&None), Ok(()));
    assert_eq!(validate_filter_params(&Some("auction".to_string())), Ok(()));
    assert_eq!(validate_filter_params(&Some("buynow".to_string())), Ok(()));
    assert_eq!(validate_filter_params(&Some("rent".to_string())), Err(()));
    assert_eq!(validate_filter_params(&Some("".to_string())), Err(()));
}

#[test]
fn no_filter_lists_everything_in_order() {
    assert_eq!(ids(&get_filtered_offers(catalogue(), &no_filter())), vec![1, 2, 3, 4]);
}

#[test]
fn filters_combine() {
    let f = OfferFilter { contains: Some("red".to_string()), ..no_filter() };
    assert_eq!(ids(&get_filtered_offers(catalogue(), &f)), vec![1, 2]);
    let f = OfferFilter { price_min: Some(p(10.0)), price_max: Some(p(60.0)), ..no_filter() };
    assert_eq!(ids(&get_filtered_offers(catalogue(), &f)), vec![1, 2]);
    let f = OfferFilter { price_min: Some(p(50.0)), ..no_filter() };
    assert_eq!(ids(&get_filtered_offers(catalogue(), &f)), vec![3]);
    let f = OfferFilter { got_type: Some("auction".to_string()), user: Some("ann@x.org".to_string()), ..no_filter() };
    assert_eq!(ids(&get_filtered_offers(catalogue(), &f)), vec![1]);
    let f = OfferFilter { price_min: Some(p(60.0)), price_max: Some(p(10.0)), ..no_filter() };
    assert!(get_filtered_offers(catalogue(), &f).is_empty());
    let f = OfferFilter { price_max: Some(p(f32::NAN)), ..no_filter() };
    assert!(get_filtered_offers(catalogue(), &f).is_empty());
}

#[test]
fn offer_methods() {
    let o = offer(1, "ann@x.org", "auction", "old red bicycle", 50.0);
    assert!(o.contains_description(&"red bi".to_string()));
    assert!(!o.contains_description(&"Red".to_string()));
    assert!(o.filter_by_price_min(p(49.9)));
    assert!(!o.filter_by_price_min(p(50.0)));
    assert!(o.filter_by_price_max(p(50.1)));
    assert!(!o.filter_by_price_max(p(50.0)));
    assert!(o.filter_by_type(&"auction".to_string()));
    assert!(!o.filter_by_type(&"buynow".to_string()));
    assert!(o.is_owned(&"ann@x.org".to_string()));
    assert!(!o.is_owned(&"bob@x.org".to_string()));
}

#[test]
fn queries_build_filters() {
    let f = all_offers_get(Some("red".to_string()), Some(p(1.0)), None, Some(TypeExt::new("buynow".to_string())))
        .ok()
        .unwrap();
    assert_eq!(f.contains, Some("red".to_string()));
    assert_eq!(f.price_min, Some(p(1.0)));
    assert_eq!(f.price_max, None);
    assert_eq!(f.got_type, Some("buynow".to_string()));
    assert_eq!(f.user, None);
    assert_eq!(ids(&get_filtered_offers(catalogue(), &f)), vec![2]);
}

#[test]
fn queries_refuse_bad_types_and_sessions() {
    let r = all_offers_get(None, None, None, Some(TypeExt::new("lease".to_string())));
    assert_eq!(r.err(), Some(Status::BadRequest));
    let r = my_offers_get(Err(()), None, None, None, Some(TypeExt::new("lease".to_string())));
    assert_eq!(r.err(), Some(Status::Unauthorized));
    let r = my_offers_get(Ok("ann@x.org".to_string()), None, None, None, Some(TypeExt::new("lease".to_string())));
    assert_eq!(r.err(), Some(Status::BadRequest));
    let f = my_offers_get(Ok("ann@x.org".to_string()), None, None, None, None).ok().unwrap();
    assert_eq!(ids(&get_filtered_offers(catalogue(), &f)), vec![1, 3]);
    let f = all_offers(None, None, None, None, None).ok().unwrap();
    assert_eq!(f.user, None);
    assert_eq!(TypeExt::new("auction".to_string()).api_type(), "auction");
}

#[test]
fn narrower_queries_list_a_subsequence() {
    let wide = OfferFilter { price_min: Some(p(1.0)), ..no_filter() };
    let narrow = OfferFilter { price_min: Some(p(20.0)), contains: Some("bicycle".to_string()), ..no_filter() };
    let a = ids(&get_filtered_offers(catalogue(), &wide));
    let b = ids(&get_filtered_offers(catalogue(), &narrow));
    assert_eq!(a, vec![1, 2, 3, 4]);
    assert_eq!(b, vec![1]);
    let mut rest = a.iter();
    assert!(b.iter().all(|x| rest.any(|y| y == x)));
}
