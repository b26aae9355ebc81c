//! The edge-triggered notification rule.
//!
//! A notification is raised when an offer on a purchasable product is seen
//! and the cycle before did not already show an offer in stock. Nothing is
//! compared by content: an offer that went away, or went out of stock, for
//! one cycle is announced again when it returns.

use vstd::prelude::*;
use crate::price::Price;
use crate::text::text_opt_view;

verus! {

/// What the product page says of the price.
#[derive(Clone, Debug, PartialEq, Eq)]
pub struct ProductPrice {
    pub name: String,
    pub current_price: Price,
    /// Present exactly when the page advertises a discount.
    pub previous_price: Option<Price>,
}

/// The mathematical content of a [`ProductPrice`].
pub struct ProductPriceView {
    pub name: Seq<char>,
    pub current_price: Price,
    pub previous_price: Option<Price>,
}

impl View for ProductPrice {
    type V = ProductPriceView;

    open spec fn view(&self) -> ProductPriceView {
        ProductPriceView {
            name: self.name@,
            current_price: self.current_price,
            previous_price: self.previous_price,
        }
    }
}

/// Everything one cycle has learned: price, special sale and stock.
#[derive(Clone, Debug, PartialEq, Eq)]
pub struct CycleSnapshot {
    pub price: ProductPrice,
    /// The text of the promotion badge, if one is shown.
    pub sale: Option<String>,
    pub stock: bool,
}

/// The mathematical content of a [`CycleSnapshot`].
pub struct CycleSnapshotView {
    pub price: ProductPriceView,
    pub sale: Option<Seq<char>>,
    pub stock: bool,
}

impl View for CycleSnapshot {
    type V = CycleSnapshotView;

    open spec fn view(&self) -> CycleSnapshotView {
        CycleSnapshotView {
            price: self.price@,
            sale: text_opt_view(self.sale),
            stock: self.stock,
        }
    }
}

impl CycleSnapshotView {
    /// A discount is advertised.
    pub open spec fn has_discount(self) -> bool {
        self.price.previous_price is Some
    }

    /// A special sale is shown.
    pub open spec fn has_sale(self) -> bool {
        self.sale is Some
    }

    /// A discount or a special sale is present.
    pub open spec fn has_offer(self) -> bool {
        self.has_discount() || self.has_sale()
    }
}

/// The only memory kept from one cycle to the next.
#[derive(Clone, Copy, Debug, PartialEq, Eq, Structural)]
pub struct ObservedState {
    pub had_offer: bool,
    pub was_in_stock: bool,
}

impl ObservedState {
    /// The state at process start: nothing seen yet.
    pub fn initial() -> (s: ObservedState)
        ensures
            s == (ObservedState { had_offer: false, was_in_stock: false }),
    {
        ObservedState { had_offer: false, was_in_stock: false }
    }

    /// The previous cycle showed an offer on a product in stock, so that
    /// offer has been announced already.
    pub open spec fn already_announced(self) -> bool {
        self.had_offer && self.was_in_stock
    }
}

/// An offer that is to be announced.
#[derive(Clone, Debug, PartialEq, Eq)]
pub enum Offer {
    /// The page shows an old price beside the current one.
    Discount { name: String, new_price: Price, old_price: Price },
    /// The page shows a promotion badge.
    SpecialSale { name: String, sale_text: String },
}

/// The mathematical content of an [`Offer`].
pub enum OfferView {
    Discount { name: Seq<char>, new_price: Price, old_price: Price },
    SpecialSale { name: Seq<char>, sale_text: Seq<char> },
}

impl View for Offer {
    type V = OfferView;

    open spec fn view(&self) -> OfferView {
        match *self {
            Offer::Discount { name, new_price, old_price } => OfferView::Discount {
                name: name@,
                new_price,
                old_price,
            },
            Offer::SpecialSale { name, sale_text } => OfferView::SpecialSale {
                name: name@,
                sale_text: sale_text@,
            },
        }
    }
}

/// The views of a list of offers, in order.
pub open spec fn offer_views(offers: Seq<Offer>) -> Seq<OfferView> {
    offers.map_values(|o: Offer| o@)
}

/// The discount announcement that a snapshot carries, if any.
pub open spec fn discount_offer(snapshot: CycleSnapshotView) -> Seq<OfferView> {
    match snapshot.price.previous_price {
        Some(old_price) => seq![
            OfferView::Discount {
                name: snapshot.price.name,
                new_price: snapshot.price.current_price,
                old_price,
            },
        ],
        None => Seq::empty(),
    }
}

/// The special-sale announcement that a snapshot carries, if any.
pub open spec fn sale_offer(snapshot: CycleSnapshotView) -> Seq<OfferView> {
    match snapshot.sale {
        Some(sale_text) => seq![OfferView::SpecialSale { name: snapshot.price.name, sale_text }],
        None => Seq::empty(),
    }
}

/// The announcements due for `snapshot` after `previous`: none while the
/// previous cycle already had an offer in stock, none while the product is
/// out of stock, else the discount (if any) followed by the special sale
/// (if any).
pub open spec fn offers_due(previous: ObservedState, snapshot: CycleSnapshotView) -> Seq<
    OfferView,
> {
    if previous.already_announced() || !snapshot.stock {
        Seq::empty()
    } else {
        discount_offer(snapshot) + sale_offer(snapshot)
    }
}

/// The state remembered after `snapshot`, whatever was announced.
pub open spec fn state_after(snapshot: CycleSnapshotView) -> ObservedState {
    ObservedState { had_offer: snapshot.has_offer(), was_in_stock: snapshot.stock }
}

/// What the state machine decides for one complete snapshot.
#[derive(Clone, Debug, PartialEq, Eq)]
pub struct Decision {
    /// The announcements to send, in order.
    pub offers: Vec<Offer>,
    /// The state to remember for the next cycle.
    pub state: ObservedState,
}

/// Compares a complete snapshot with the previously observed state.
///
/// Returns the announcements that are due and the state to carry into the
/// next cycle. The state is committed from the snapshot alone, also when
/// nothing is announced.
pub fn decide(previous: ObservedState, snapshot: &CycleSnapshot) -> (d: Decision)
    ensures
        offer_views(d.offers@) == offers_due(previous, snapshot@),
        d.state == state_after(snapshot@),
{
    let mut offers: Vec<Offer> = Vec::new();
    let state = ObservedState {
        had_offer: snapshot.price.previous_price.is_some() || snapshot.sale.is_some(),
        was_in_stock: snapshot.stock,
    };
    assert(offer_views(offers@) =~= Seq::empty());
    if !(previous.had_offer && previous.was_in_stock) && snapshot.stock {
        match snapshot.price.previous_price {
            Some(old_price) => {
                let offer = Offer::Discount {
                    name: snapshot.price.name.clone(),
                    new_price: snapshot.price.current_price,
                    old_price,
                };
                offers.push(offer);
                assert(offer_views(offers@) =~= discount_offer(snapshot@));
            },
            None => {},
        }
        let ghost before = offers@;
        match &snapshot.sale {
            Some(sale_text) => {
                let offer = Offer::SpecialSale {
                    name: snapshot.price.name.clone(),
                    sale_text: sale_text.clone(),
                };
                offers.push(offer);
                assert(offer_views(offers@) =~= offer_views(before) + sale_offer(snapshot@));
            },
            None => {
                assert(offer_views(offers@) =~= offer_views(before) + sale_offer(snapshot@));
            },
        }
    }
    Decision { offers, state }
}

/// Announcements are raised on the edge and nowhere else: exactly when the
/// snapshot shows an offer on a product in stock and the cycle before did
/// not. Discount and special sale are told independently, so there are
/// one or two of them.
pub proof fn lemma_offers_are_due_on_the_edge(previous: ObservedState, snapshot: CycleSnapshotView)
    ensures
        offers_due(previous, snapshot).len() > 0 <==> !previous.already_announced()
            && snapshot.stock && snapshot.has_offer(),
        offers_due(previous, snapshot).len() == if previous.already_announced()
            || !snapshot.stock {
            0int
        } else {
            (if snapshot.has_discount() {
                1int
            } else {
                0int
            }) + (if snapshot.has_sale() {
                1int
            } else {
                0int
            })
        },
{
}

/// After a cycle that saw an offer in stock, the next cycle announces
/// nothing, whatever its snapshot holds.
pub proof fn lemma_announced_offer_is_not_repeated(
    previous: ObservedState,
    snapshot: CycleSnapshotView,
)
    requires
        previous.had_offer,
        previous.was_in_stock,
    ensures
        offers_due(previous, snapshot) == Seq::<OfferView>::empty(),
{
}

/// Of two cycles in a row, the second announces nothing where the first
/// saw an offer on a product in stock.
pub proof fn lemma_second_cycle_is_silent(first: CycleSnapshotView, second: CycleSnapshotView)
    requires
        first.has_offer(),
        first.stock,
    ensures
        state_after(first) == (ObservedState { had_offer: true, was_in_stock: true }),
        offers_due(state_after(first), second) == Seq::<OfferView>::empty(),
{
}

/// An offer that was gone, or out of stock, for one cycle is announced
/// again when it is back: suppression looks one cycle back and no further.
pub proof fn lemma_returning_offer_is_announced(
    between: CycleSnapshotView,
    back: CycleSnapshotView,
)
    requires
        !between.has_offer() || !between.stock,
        back.has_offer(),
        back.stock,
    ensures
        offers_due(state_after(between), back) == discount_offer(back) + sale_offer(back),
        offers_due(state_after(between), back).len() > 0,
{
}

/// A snapshot that is out of stock announces nothing and is remembered as
/// out of stock.
pub proof fn lemma_out_of_stock_is_silent(previous: ObservedState, snapshot: CycleSnapshotView)
    requires
        !snapshot.stock,
    ensures
        offers_due(previous, snapshot) == Seq::<OfferView>::empty(),
        !state_after(snapshot).was_in_stock,
{
}

} // verus!
