//! `GET /offers`: the offers that pass the filters of the query, one JSON
//! object per line.

use vstd::prelude::*;
use crate::model::Offer;
use crate::price::{rank, Price};
use crate::status::Status;
use crate::text::{occurs_at, occurs_in, str_equal};

verus! {

/// The `type` field of an offer query.
pub struct TypeExt {
    api_type: String,
}

impl TypeExt {
    /// The type that the query asks for.
    pub closed spec fn view_type(&self) -> Seq<char> {
        self.api_type@
    }

    /// A query field holding `api_type`.
    pub fn new(api_type: String) -> (t: TypeExt)
        ensures
            t.view_type() == api_type@,
    {
        TypeExt { api_type }
    }

    /// The type that the query asks for.
    pub fn api_type(&self) -> (s: &String)
        ensures
            s@ == self.view_type(),
    {
        &self.api_type
    }
}

/// The offer types that exist.
pub open spec fn is_offer_type(t: Seq<char>) -> bool {
    t == "auction"@ || t == "buynow"@
}

/// The two offer types are different names.
pub proof fn lemma_offer_types_differ()
    ensures
        "auction"@ != "buynow"@,
{
    reveal_strlit("auction");
    reveal_strlit("buynow");
    assert("auction"@.len() != "buynow"@.len());
}

/// A type filter is valid when it is absent or names an offer type.
pub fn validate_filter_params(ext_type: &Option<String>) -> (r: Result<(), ()>)
    ensures
        r is Ok <==> (ext_type matches Some(t) ==> is_offer_type(t@)),
{
    if ext_type.is_some() {
        let got_type = ext_type.clone().unwrap();
        if !str_equal(got_type.as_str(), "auction") && !str_equal(got_type.as_str(), "buynow") {
            return Err(());
        }
    }
    Ok(())
}

/// The filters of an offer query; an absent filter admits every offer.
pub struct OfferFilter {
    /// Text that the description must hold.
    pub contains: Option<String>,
    /// Price that the offer's price must be above.
    pub price_min: Option<Price>,
    /// Price that the offer's price must be below.
    pub price_max: Option<Price>,
    /// Type that the offer must have.
    pub got_type: Option<String>,
    /// User who must own the offer.
    pub user: Option<String>,
}

impl OfferFilter {
    /// The filter holds the query's fields as they came: the text, the
    /// prices, the type asked for, and the user whose offers are listed.
    pub open spec fn built_from(
        self,
        contains: Option<String>,
        price_min: Option<Price>,
        price_max: Option<Price>,
        ext_type: Option<TypeExt>,
        user: Option<Seq<char>>,
    ) -> bool {
        &&& self.contains == contains
        &&& self.price_min == price_min
        &&& self.price_max == price_max
        &&& (self.got_type is Some <==> ext_type is Some)
        &&& (self.got_type matches Some(g) ==> g@ == ext_type->0.view_type())
        &&& (self.user is Some <==> user is Some)
        &&& (self.user matches Some(u) ==> u@ == user->0)
    }

    /// Whether the offer passes every filter that is present.
    pub open spec fn admits(self, offer: Offer) -> bool {
        &&& (self.contains matches Some(text) ==> occurs_in(offer.description@, text@))
        &&& (self.price_min matches Some(min) ==> min.below(offer.price))
        &&& (self.price_max matches Some(max) ==> offer.price.below(max))
        &&& (self.got_type matches Some(t) ==> t@ == offer.type_@)
        &&& (self.user matches Some(u) ==> offer.owner@ == u@)
    }

    /// Whether the offer passes every filter that is present.
    pub fn passes(&self, offer: &Offer) -> (r: bool)
        ensures
            r == self.admits(*offer),
    {
        if let Some(text) = &self.contains {
            if !offer.contains_description(text) {
                return false;
            }
        }
        if let Some(min) = &self.price_min {
            if !offer.filter_by_price_min(*min) {
                return false;
            }
        }
        if let Some(max) = &self.price_max {
            if !offer.filter_by_price_max(*max) {
                return false;
            }
        }
        if let Some(t) = &self.got_type {
            if !offer.filter_by_type(t) {
                return false;
            }
        }
        if let Some(u) = &self.user {
            if !offer.is_owned(u) {
                return false;
            }
        }
        true
    }
}

/// The offers that pass the filter, in their order.
pub fn get_filtered_offers(offers: Vec<Offer>, filter: &OfferFilter) -> (r: Vec<Offer>)
    ensures
        r@ == offers@.filter(|o: Offer| filter.admits(o)),
{
    let ghost all = offers@;
    let ghost pred = |o: Offer| filter.admits(o);
    let mut rest = offers;
    let mut kept: Vec<Offer> = Vec::new();
    let ghost mut done: int = 0;
    proof {
        reveal(Seq::filter);
        assert(all.take(0) =~= Seq::<Offer>::empty());
        assert(rest@ =~= all.skip(0));
    }
    while rest.len() > 0
        invariant
            0 <= done <= all.len(),
            rest@ == all.skip(done),
            kept@ == all.take(done).filter(pred),
            pred == (|o: Offer| filter.admits(o)),
        decreases rest.len(),
    {
        let offer = rest.remove(0);
        let keep = filter.passes(&offer);
        proof {
            reveal(Seq::filter);
            assert(offer == all[done]);
            assert(all.take(done + 1).drop_last() =~= all.take(done));
            assert(all.take(done + 1).last() == offer);
            assert(rest@ =~= all.skip(done + 1));
        }
        if keep {
            kept.push(offer);
        }
        proof {
            done = done + 1;
        }
    }
    proof {
        assert(all.take(done) =~= all);
    }
    kept
}

/// The user whose offers a query lists: the authorized one, if the query
/// is for the user's own offers.
pub open spec fn user_of(auth: Option<Result<String, ()>>) -> Option<Seq<char>> {
    match auth {
        Some(Ok(m)) => Some(m@),
        _ => None,
    }
}

/// `GET /offers` (and, with a session, `GET /offers?created_by_me`): the
/// filters of the query, or the status that ends the request.
///
/// With `auth` present the request is for the user's own offers: an
/// unauthorized request ends with `401` before the type is checked. A type
/// that is not an offer type ends with `400`.
pub fn all_offers(
    contains: Option<String>,
    price_min: Option<Price>,
    price_max: Option<Price>,
    ext_type: Option<TypeExt>,
    auth: Option<Result<String, ()>>,
) -> (r: Result<OfferFilter, Status>)
    ensures
        auth matches Some(Err(_)) ==> r == Err::<OfferFilter, Status>(Status::Unauthorized),
        !(auth matches Some(Err(_))) && (ext_type matches Some(t) && !is_offer_type(t.view_type()))
            ==> r == Err::<OfferFilter, Status>(Status::BadRequest),
        !(auth matches Some(Err(_))) && !(ext_type matches Some(t) && !is_offer_type(t.view_type()))
            ==> (r matches Ok(f) && f.built_from(contains, price_min, price_max, ext_type, user_of(auth))),
{
    let mut user_mail: Option<String> = None;
    if let Some(result) = auth {
        match result {
            Err(()) => return Err(Status::Unauthorized),
            Ok(mail) => user_mail = Some(mail),
        }
    }
    let got_type: Option<String> = match ext_type {
        Some(t) => Some(t.api_type),
        None => None,
    };
    if validate_filter_params(&got_type).is_err() {
        return Err(Status::BadRequest);
    }
    Ok(OfferFilter { contains, price_min, price_max, got_type, user: user_mail })
}

/// `GET /offers`: every offer, filtered by the query.
pub fn all_offers_get(
    contains: Option<String>,
    price_min: Option<Price>,
    price_max: Option<Price>,
    ext_type: Option<TypeExt>,
) -> (r: Result<OfferFilter, Status>)
    ensures
        (ext_type matches Some(t) && !is_offer_type(t.view_type()))
            ==> r == Err::<OfferFilter, Status>(Status::BadRequest),
        !(ext_type matches Some(t) && !is_offer_type(t.view_type()))
            ==> (r matches Ok(f) && f.built_from(contains, price_min, price_max, ext_type, None)),
{
    all_offers(contains, price_min, price_max, ext_type, None)
}

/// `GET /offers?created_by_me`: the user's own offers, filtered by the
/// query, given how authorizing the request ended.
pub fn my_offers_get(
    auth: Result<String, ()>,
    contains: Option<String>,
    price_min: Option<Price>,
    price_max: Option<Price>,
    ext_type: Option<TypeExt>,
) -> (r: Result<OfferFilter, Status>)
    ensures
        auth is Err ==> r == Err::<OfferFilter, Status>(Status::Unauthorized),
        auth is Ok && (ext_type matches Some(t) && !is_offer_type(t.view_type()))
            ==> r == Err::<OfferFilter, Status>(Status::BadRequest),
        auth is Ok && !(ext_type matches Some(t) && !is_offer_type(t.view_type()))
            ==> (r matches Ok(f) && f.built_from(contains, price_min, price_max, ext_type, user_of(Some(auth)))),
{
    all_offers(contains, price_min, price_max, ext_type, Some(auth))
}

/// A query without filters lists every offer.
pub proof fn law_no_filter_lists_all(offers: Seq<Offer>)
    ensures
        ({
            let none = OfferFilter {
                contains: None,
                price_min: None,
                price_max: None,
                got_type: None,
                user: None,
            };
            offers.filter(|o: Offer| none.admits(o)) == offers
        }),
    decreases offers.len(),
{
    reveal(Seq::filter);
    let none = OfferFilter { contains: None, price_min: None, price_max: None, got_type: None, user: None };
    if offers.len() > 0 {
        law_no_filter_lists_all(offers.drop_last());
        assert(offers.drop_last().push(offers.last()) =~= offers);
    }
}

/// Every listed offer passes every filter of the query; in particular a
/// listing of the user's own offers holds only offers that the user owns.
pub proof fn law_listed_offers_pass(offers: Seq<Offer>, filter: OfferFilter, i: int)
    requires
        0 <= i < offers.filter(|o: Offer| filter.admits(o)).len(),
    ensures
        filter.admits(offers.filter(|o: Offer| filter.admits(o))[i]),
        filter.user matches Some(u) ==> offers.filter(|o: Offer| filter.admits(o))[i].owner@ == u@,
        offers.contains(offers.filter(|o: Offer| filter.admits(o))[i]),
{
    let pred = |o: Offer| filter.admits(o);
    offers.lemma_filter_pred(pred, i);
    assert(offers.filter(pred).contains(offers.filter(pred)[i]));
    offers.lemma_filter_contains_rev(pred, offers.filter(pred)[i]);
}

/// A price window whose lower bound is not below its upper bound admits no
/// offer.
pub proof fn law_empty_price_window(filter: OfferFilter, offer: Offer)
    requires
        filter.price_min matches Some(min) && filter.price_max matches Some(max) && !min.below(max),
    ensures
        !filter.admits(offer),
{
}

/// `narrow` asks at least what `wide` asks: each filter of `wide` is kept
/// as it is in `narrow`, except that a price bound may be tightened (a
/// larger minimum, a smaller maximum), and `narrow` may add filters.
pub open spec fn narrows(narrow: OfferFilter, wide: OfferFilter) -> bool {
    &&& (wide.contains is None || narrow.contains == wide.contains)
    &&& (wide.price_min matches Some(a) ==> (narrow.price_min matches Some(b) && (b == a || a.at_most(b))))
    &&& (wide.price_max matches Some(a) ==> (narrow.price_max matches Some(b) && (b == a || b.at_most(a))))
    &&& (wide.got_type is None || narrow.got_type == wide.got_type)
    &&& (wide.user is None || narrow.user == wide.user)
}

/// Filtering by a predicate that implies another keeps, of the offers that
/// the other keeps, exactly those it admits, in their order.
proof fn lemma_filter_of_filter(offers: Seq<Offer>, narrow: spec_fn(Offer) -> bool, wide: spec_fn(Offer) -> bool)
    requires
        forall|o: Offer| #[trigger] narrow(o) ==> wide(o),
    ensures
        offers.filter(narrow) == offers.filter(wide).filter(narrow),
    decreases offers.len(),
{
    reveal(Seq::filter);
    if offers.len() > 0 {
        let rest = offers.drop_last();
        lemma_filter_of_filter(rest, narrow, wide);
        if wide(offers.last()) {
            assert(offers.filter(wide).drop_last() =~= rest.filter(wide));
            assert(offers.filter(wide).last() == offers.last());
        }
    }
}

/// Adding a filter or tightening one never adds an offer to a listing nor
/// reorders it: the narrower listing is the wider one with some offers
/// left out.
pub proof fn law_narrower_query_lists_less(offers: Seq<Offer>, narrow: OfferFilter, wide: OfferFilter)
    requires
        narrows(narrow, wide),
    ensures
        forall|o: Offer| narrow.admits(o) ==> wide.admits(o),
        offers.filter(|o: Offer| narrow.admits(o))
            == offers.filter(|o: Offer| wide.admits(o)).filter(|o: Offer| narrow.admits(o)),
        offers.filter(|o: Offer| narrow.admits(o)).len() <= offers.filter(|o: Offer| wide.admits(o)).len(),
{
    let pn = |o: Offer| narrow.admits(o);
    let pw = |o: Offer| wide.admits(o);
    assert forall|o: Offer| #[trigger] pn(o) implies pw(o) by {}
    lemma_filter_of_filter(offers, pn, pw);
    offers.filter(pw).lemma_filter_len(pn);
}

/// A text filter searches the description alone: with only a text filter
/// present, an offer is listed exactly when the text stands somewhere in its
/// description, whatever its owner, type and price.
pub proof fn law_text_filter_searches_description(text: String, offer: Offer)
    ensures
        ({
            let filter = OfferFilter {
                contains: Some(text),
                price_min: None,
                price_max: None,
                got_type: None,
                user: None,
            };
            filter.admits(offer) <==> exists|i: int|
                0 <= i && i + text@.len() <= offer.description@.len()
                    && #[trigger] offer.description@.subrange(i, i + text@.len()) == text@
        }),
{
    let d = offer.description@;
    let t = text@;
    if occurs_in(d, t) {
        let i = choose|i: int| occurs_at(d, t, i);
        assert(d.subrange(i, i + t.len()) == t);
    }
    if exists|i: int| 0 <= i && i + t.len() <= d.len() && #[trigger] d.subrange(i, i + t.len()) == t {
        let i = choose|i: int| 0 <= i && i + t.len() <= d.len() && #[trigger] d.subrange(i, i + t.len()) == t;
        assert(occurs_at(d, t, i));
    }
}

/// Each filter alone means what it says: a minimum price lists the offers
/// priced above it, a maximum price those priced below it (as IEEE 754
/// compares single-precision numbers, so a NaN bound or price lists
/// nothing), a type those of that type, a user that user's offers; and a
/// listing passes an offer exactly when it passes every filter present.
pub proof fn law_each_filter_alone(filter: OfferFilter, offer: Offer)
    ensures
        filter.admits(offer) <==> {
            &&& (filter.contains matches Some(t) ==> exists|i: int|
                0 <= i && i + t@.len() <= offer.description@.len()
                    && #[trigger] offer.description@.subrange(i, i + t@.len()) == t@)
            &&& (filter.price_min matches Some(m) ==> !m.is_nan() && !offer.price.is_nan()
                && rank(m.bits) < rank(offer.price.bits))
            &&& (filter.price_max matches Some(m) ==> !m.is_nan() && !offer.price.is_nan()
                && rank(offer.price.bits) < rank(m.bits))
            &&& (filter.got_type matches Some(g) ==> g@ == offer.type_@)
            &&& (filter.user matches Some(u) ==> u@ == offer.owner@)
        },
{
    if let Some(t) = filter.contains {
        law_text_filter_searches_description(t, offer);
        let only = OfferFilter { contains: Some(t), price_min: None, price_max: None, got_type: None, user: None };
        assert(only.admits(offer) == occurs_in(offer.description@, t@));
    }
}

} // verus!
