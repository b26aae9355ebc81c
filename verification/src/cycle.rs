//! One polling cycle, request by request.
//!
//! A cycle asks for the product page, the promotion fragment and the stock
//! document, in that order. The caller performs each request and hands the
//! reply back; the monitor says what to do next. The first signal that
//! cannot be fetched or read ends the cycle with one failure notice and
//! leaves the remembered state as it was. Only a cycle that has read all
//! three signals decides on announcements and commits a new state.

use vstd::prelude::*;
use crate::extract::{
    document_reading, extract_price, extract_special_sale, extract_stock, fragment_reading,
    page_reading, ExtractionError,
};
use crate::fetch::{
    accept, body_of, promotion_address, promotion_url, stock_address, stock_url, FetchError,
    FetchErrorView, Reply, ReplyView,
};
use crate::state::{
    decide, offer_views, offers_due, state_after, CycleSnapshot, CycleSnapshotView,
    ObservedState, Offer, OfferView, ProductPrice, ProductPriceView,
};
use crate::text::text_opt_view;

verus! {

/// Why a cycle was given up.
#[derive(Clone, Debug, PartialEq, Eq)]
pub enum CycleError {
    Fetch(FetchError),
    Extraction(ExtractionError),
}

/// The mathematical content of a [`CycleError`].
pub enum CycleErrorView {
    Fetch(FetchErrorView),
    Extraction(ExtractionError),
}

impl View for CycleError {
    type V = CycleErrorView;

    open spec fn view(&self) -> CycleErrorView {
        match *self {
            CycleError::Fetch(e) => CycleErrorView::Fetch(e@),
            CycleError::Extraction(e) => CycleErrorView::Extraction(e),
        }
    }
}

/// Something to tell the outside world at the end of a cycle.
#[derive(Clone, Debug, PartialEq, Eq)]
pub enum Notice {
    /// An offer was found.
    Offer(Offer),
    /// The cycle was given up while watching the product at `url`.
    Failure { url: String, error: CycleError },
}

/// The mathematical content of a [`Notice`].
pub enum NoticeView {
    Offer(OfferView),
    Failure { url: Seq<char>, error: CycleErrorView },
}

impl View for Notice {
    type V = NoticeView;

    open spec fn view(&self) -> NoticeView {
        match *self {
            Notice::Offer(offer) => NoticeView::Offer(offer@),
            Notice::Failure { url, error } => NoticeView::Failure { url: url@, error: error@ },
        }
    }
}

/// The views of a list of notices, in order.
pub open spec fn notice_views(notices: Seq<Notice>) -> Seq<NoticeView> {
    notices.map_values(|n: Notice| n@)
}

/// How far a cycle has come: which reply it waits for, and what it has read.
#[derive(Clone, Debug, PartialEq, Eq)]
pub enum Phase {
    AwaitingPrice,
    AwaitingSale { price: ProductPrice },
    AwaitingStock { price: ProductPrice, sale: Option<String> },
}

/// The mathematical content of a [`Phase`].
pub enum PhaseView {
    AwaitingPrice,
    AwaitingSale { price: ProductPriceView },
    AwaitingStock { price: ProductPriceView, sale: Option<Seq<char>> },
}

impl View for Phase {
    type V = PhaseView;

    open spec fn view(&self) -> PhaseView {
        match *self {
            Phase::AwaitingPrice => PhaseView::AwaitingPrice,
            Phase::AwaitingSale { price } => PhaseView::AwaitingSale { price: price@ },
            Phase::AwaitingStock { price, sale } => PhaseView::AwaitingStock {
                price: price@,
                sale: text_opt_view(sale),
            },
        }
    }
}

/// What the caller is to do next.
#[derive(Clone, Debug, PartialEq, Eq)]
pub enum Step {
    /// Request `url` and hand the reply back together with `phase`.
    Fetch { url: String, phase: Phase },
    /// The cycle is over: deliver the notices, then wait for the next one.
    Done { notices: Vec<Notice> },
}

/// The mathematical content of a [`Step`].
pub enum StepView {
    Fetch { url: Seq<char>, phase: PhaseView },
    Done { notices: Seq<NoticeView> },
}

impl View for Step {
    type V = StepView;

    open spec fn view(&self) -> StepView {
        match *self {
            Step::Fetch { url, phase } => StepView::Fetch { url: url@, phase: phase@ },
            Step::Done { notices } => StepView::Done { notices: notice_views(notices@) },
        }
    }
}

/// The end of a cycle that was given up: one failure notice that names the
/// product page.
pub open spec fn aborted(product: Seq<char>, error: CycleErrorView) -> StepView {
    StepView::Done { notices: seq![NoticeView::Failure { url: product, error }] }
}

/// The end of a cycle that read all three signals: one notice for each
/// offer that is due.
pub open spec fn announced(offers: Seq<OfferView>) -> StepView {
    StepView::Done { notices: offers.map_values(|o: OfferView| NoticeView::Offer(o)) }
}

/// The first request of a cycle: the product page itself.
pub open spec fn first_step(product: Seq<char>) -> StepView {
    StepView::Fetch { url: product, phase: PhaseView::AwaitingPrice }
}

/// The step that follows the reading of the product page.
pub open spec fn step_after_price(
    product: Seq<char>,
    outcome: Result<ProductPriceView, CycleErrorView>,
) -> StepView {
    match outcome {
        Ok(price) => StepView::Fetch {
            url: promotion_address(product),
            phase: PhaseView::AwaitingSale { price },
        },
        Err(error) => aborted(product, error),
    }
}

/// The step that follows the reading of the promotion fragment.
pub open spec fn step_after_sale(
    product: Seq<char>,
    price: ProductPriceView,
    outcome: Result<Option<Seq<char>>, CycleErrorView>,
) -> StepView {
    match outcome {
        Ok(sale) => StepView::Fetch {
            url: stock_address(product),
            phase: PhaseView::AwaitingStock { price, sale },
        },
        Err(error) => aborted(product, error),
    }
}

/// The step that follows the reading of the stock document: the snapshot
/// is complete and the state machine decides.
pub open spec fn step_after_stock(
    product: Seq<char>,
    observed: ObservedState,
    price: ProductPriceView,
    sale: Option<Seq<char>>,
    outcome: Result<bool, CycleErrorView>,
) -> StepView {
    match outcome {
        Ok(stock) => announced(offers_due(observed, CycleSnapshotView { price, sale, stock })),
        Err(error) => aborted(product, error),
    }
}

/// The state remembered after the reading of the stock document: that of
/// the snapshot, or the one before where the reading failed.
pub open spec fn observed_after_stock(
    observed: ObservedState,
    price: ProductPriceView,
    sale: Option<Seq<char>>,
    outcome: Result<bool, CycleErrorView>,
) -> ObservedState {
    match outcome {
        Ok(stock) => state_after(CycleSnapshotView { price, sale, stock }),
        Err(_) => observed,
    }
}

/// What a reply to the request for the product page says of the price.
pub open spec fn price_outcome(reply: ReplyView) -> Result<ProductPriceView, CycleErrorView> {
    match body_of(reply) {
        Ok(body) => match page_reading(body) {
            Ok(price) => Ok(price),
            Err(e) => Err(CycleErrorView::Extraction(e)),
        },
        Err(e) => Err(CycleErrorView::Fetch(e)),
    }
}

/// What a reply to the request for the promotion fragment says of the
/// special sale.
pub open spec fn sale_outcome(reply: ReplyView) -> Result<Option<Seq<char>>, CycleErrorView> {
    match body_of(reply) {
        Ok(body) => match fragment_reading(body) {
            Ok(sale) => Ok(sale),
            Err(e) => Err(CycleErrorView::Extraction(e)),
        },
        Err(e) => Err(CycleErrorView::Fetch(e)),
    }
}

/// What a reply to the request for the stock document says of the stock.
pub open spec fn stock_outcome(reply: ReplyView) -> Result<bool, CycleErrorView> {
    match body_of(reply) {
        Ok(body) => match document_reading(body) {
            Ok(stock) => Ok(stock),
            Err(e) => Err(CycleErrorView::Extraction(e)),
        },
        Err(e) => Err(CycleErrorView::Fetch(e)),
    }
}

/// The step that follows a reply, whatever the phase.
pub open spec fn step_after(
    product: Seq<char>,
    observed: ObservedState,
    phase: PhaseView,
    reply: ReplyView,
) -> StepView {
    match phase {
        PhaseView::AwaitingPrice => step_after_price(product, price_outcome(reply)),
        PhaseView::AwaitingSale { price } => step_after_sale(product, price, sale_outcome(reply)),
        PhaseView::AwaitingStock { price, sale } => step_after_stock(
            product,
            observed,
            price,
            sale,
            stock_outcome(reply),
        ),
    }
}

/// The state remembered after a reply, whatever the phase: it changes only
/// with the reply that completes the snapshot.
pub open spec fn observed_after(observed: ObservedState, phase: PhaseView, reply: ReplyView)
    -> ObservedState {
    match phase {
        PhaseView::AwaitingStock { price, sale } => observed_after_stock(
            observed,
            price,
            sale,
            stock_outcome(reply),
        ),
        _ => observed,
    }
}

/// A reply that cannot be fetched or read ends the cycle, in whatever
/// phase, with exactly one failure notice that names the product page, and
/// leaves the remembered state as it was.
pub proof fn lemma_failure_ends_cycle_and_keeps_state(
    product: Seq<char>,
    observed: ObservedState,
    phase: PhaseView,
    reply: ReplyView,
)
    requires
        match phase {
            PhaseView::AwaitingPrice => price_outcome(reply) is Err,
            PhaseView::AwaitingSale { .. } => sale_outcome(reply) is Err,
            PhaseView::AwaitingStock { .. } => stock_outcome(reply) is Err,
        },
    ensures
        step_after(product, observed, phase, reply) is Done,
        step_after(product, observed, phase, reply)->notices.len() == 1,
        step_after(product, observed, phase, reply)->notices[0] is Failure,
        step_after(product, observed, phase, reply)->notices[0]->url == product,
        observed_after(observed, phase, reply) == observed,
{
}

/// A reply that was not fetched is a failure in every phase: a status
/// outside 200 to 299 or a failed transport ends the cycle with the fetch
/// error and keeps the remembered state.
pub proof fn lemma_fetch_failure_ends_cycle(
    product: Seq<char>,
    observed: ObservedState,
    phase: PhaseView,
    reply: ReplyView,
)
    requires
        body_of(reply) is Err,
    ensures
        step_after(product, observed, phase, reply) == aborted(
            product,
            CycleErrorView::Fetch(body_of(reply)->Err_0),
        ),
        observed_after(observed, phase, reply) == observed,
{
}

/// The remembered state changes with no reply but the one that completes
/// the snapshot, and then it becomes the state of that snapshot.
pub proof fn lemma_state_is_committed_once(
    observed: ObservedState,
    phase: PhaseView,
    reply: ReplyView,
)
    ensures
        match phase {
            PhaseView::AwaitingStock { price, sale } => match stock_outcome(reply) {
                Ok(stock) => observed_after(observed, phase, reply) == state_after(
                    CycleSnapshotView { price, sale, stock },
                ),
                Err(_) => observed_after(observed, phase, reply) == observed,
            },
            _ => observed_after(observed, phase, reply) == observed,
        },
{
}

/// After a cycle that saw an offer in stock, a cycle that completes its
/// snapshot ends without a notice, whatever the snapshot holds.
pub proof fn lemma_cycle_after_announcement_is_silent(
    product: Seq<char>,
    observed: ObservedState,
    price: ProductPriceView,
    sale: Option<Seq<char>>,
    stock: bool,
)
    requires
        observed.had_offer,
        observed.was_in_stock,
    ensures
        step_after_stock(product, observed, price, sale, Ok(stock)) == (StepView::Done {
            notices: Seq::empty(),
        }),
{
    assert(announced(Seq::<OfferView>::empty())->notices =~= Seq::<NoticeView>::empty());
}

/// A cycle that finds the product out of stock ends without a notice and
/// remembers it as out of stock.
pub proof fn lemma_cycle_out_of_stock_is_silent(
    product: Seq<char>,
    observed: ObservedState,
    price: ProductPriceView,
    sale: Option<Seq<char>>,
)
    ensures
        step_after_stock(product, observed, price, sale, Ok(false)) == (StepView::Done {
            notices: Seq::empty(),
        }),
        !observed_after_stock(observed, price, sale, Ok(false)).was_in_stock,
{
    assert(announced(Seq::<OfferView>::empty())->notices =~= Seq::<NoticeView>::empty());
}

/// The view of a reading of the price, or of the reason why there is none.
pub open spec fn price_outcome_view(r: Result<ProductPrice, CycleError>) -> Result<
    ProductPriceView,
    CycleErrorView,
> {
    match r {
        Ok(price) => Ok(price@),
        Err(e) => Err(e@),
    }
}

/// The view of a reading of the special sale, or of the reason why there
/// is none.
pub open spec fn sale_outcome_view(r: Result<Option<String>, CycleError>) -> Result<
    Option<Seq<char>>,
    CycleErrorView,
> {
    match r {
        Ok(sale) => Ok(text_opt_view(sale)),
        Err(e) => Err(e@),
    }
}

/// The view of a reading of the stock, or of the reason why there is none.
pub open spec fn stock_outcome_view(r: Result<bool, CycleError>) -> Result<bool, CycleErrorView> {
    match r {
        Ok(stock) => Ok(stock),
        Err(e) => Err(e@),
    }
}

/// Reads the price from the reply to the request for the product page.
pub fn product_data(reply: Reply) -> (r: Result<ProductPrice, CycleError>)
    ensures
        price_outcome_view(r) == price_outcome(reply@),
{
    match accept(reply) {
        Ok(body) => match extract_price(body.as_str()) {
            Ok(price) => Ok(price),
            Err(e) => Err(CycleError::Extraction(e)),
        },
        Err(e) => Err(CycleError::Fetch(e)),
    }
}

/// Reads the special sale from the reply to the request for the promotion
/// fragment.
pub fn special_sale(reply: Reply) -> (r: Result<Option<String>, CycleError>)
    ensures
        sale_outcome_view(r) == sale_outcome(reply@),
{
    match accept(reply) {
        Ok(body) => match extract_special_sale(body.as_str()) {
            Ok(sale) => Ok(sale),
            Err(e) => Err(CycleError::Extraction(e)),
        },
        Err(e) => Err(CycleError::Fetch(e)),
    }
}

/// Reads the stock from the reply to the request for the stock document.
pub fn stock_status(reply: Reply) -> (r: Result<bool, CycleError>)
    ensures
        stock_outcome_view(r) == stock_outcome(reply@),
{
    match accept(reply) {
        Ok(body) => match extract_stock(body.as_str()) {
            Ok(stock) => Ok(stock),
            Err(e) => Err(CycleError::Extraction(e)),
        },
        Err(e) => Err(CycleError::Fetch(e)),
    }
}

/// The watcher of one product: its page and what the last complete cycle
/// saw.
#[derive(Clone, Debug, PartialEq, Eq)]
pub struct Monitor {
    pub product_url: String,
    pub observed: ObservedState,
}

/// The mathematical content of a [`Monitor`].
pub struct MonitorView {
    pub product_url: Seq<char>,
    pub observed: ObservedState,
}

impl View for Monitor {
    type V = MonitorView;

    open spec fn view(&self) -> MonitorView {
        MonitorView { product_url: self.product_url@, observed: self.observed }
    }
}

impl Monitor {
    /// A monitor that has seen nothing yet.
    pub fn new(product_url: String) -> (m: Monitor)
        ensures
            m@.product_url == product_url@,
            m@.observed == (ObservedState { had_offer: false, was_in_stock: false }),
    {
        Monitor { product_url, observed: ObservedState::initial() }
    }

    fn abort(&self, error: CycleError) -> (step: Step)
        ensures
            step@ == aborted(self@.product_url, error@),
    {
        let mut notices: Vec<Notice> = Vec::new();
        notices.push(Notice::Failure { url: self.product_url.clone(), error });
        let step = Step::Done { notices };
        assert(step@->notices =~= seq![
            NoticeView::Failure { url: self@.product_url, error: error@ },
        ]);
        step
    }

    /// Starts a cycle: the product page is to be requested.
    pub fn begin(&self) -> (step: Step)
        ensures
            step@ == first_step(self@.product_url),
    {
        Step::Fetch { url: self.product_url.clone(), phase: Phase::AwaitingPrice }
    }

    /// Goes on after the product page: with the promotion fragment where
    /// the price was read, to the end of the cycle where it was not.
    pub fn after_price(&self, outcome: Result<ProductPrice, CycleError>) -> (step: Step)
        ensures
            step@ == step_after_price(self@.product_url, price_outcome_view(outcome)),
    {
        match outcome {
            Ok(price) => Step::Fetch {
                url: promotion_url(self.product_url.as_str()),
                phase: Phase::AwaitingSale { price },
            },
            Err(error) => self.abort(error),
        }
    }

    /// Goes on after the promotion fragment: with the stock document where
    /// the special sale was read, to the end of the cycle where it was not.
    pub fn after_sale(&self, price: ProductPrice, outcome: Result<Option<String>, CycleError>) -> (step:
        Step)
        ensures
            step@ == step_after_sale(self@.product_url, price@, sale_outcome_view(outcome)),
    {
        match outcome {
            Ok(sale) => Step::Fetch {
                url: stock_url(self.product_url.as_str()),
                phase: Phase::AwaitingStock { price, sale },
            },
            Err(error) => self.abort(error),
        }
    }

    /// Ends the cycle after the stock document.
    ///
    /// Where the stock was read the snapshot is complete: the offers that
    /// are due after the remembered state are announced, and the state of
    /// the snapshot is remembered. Where it was not, the cycle is given up
    /// and the remembered state stays.
    pub fn after_stock(
        &mut self,
        price: ProductPrice,
        sale: Option<String>,
        outcome: Result<bool, CycleError>,
    ) -> (step: Step)
        ensures
            step@ == step_after_stock(
                old(self)@.product_url,
                old(self)@.observed,
                price@,
                text_opt_view(sale),
                stock_outcome_view(outcome),
            ),
            final(self)@.observed == observed_after_stock(
                old(self)@.observed,
                price@,
                text_opt_view(sale),
                stock_outcome_view(outcome),
            ),
            final(self)@.product_url == old(self)@.product_url,
    {
        match outcome {
            Ok(stock) => {
                let snapshot = CycleSnapshot { price, sale, stock };
                let decision = decide(self.observed, &snapshot);
                let mut offers = decision.offers;
                let ghost due = offers@;
                let mut notices: Vec<Notice> = Vec::new();
                while offers.len() > 0
                    invariant
                        offers@.len() <= due.len(),
                        offers@ == due.take(offers@.len() as int),
                        notices@.len() == due.len() - offers@.len(),
                        forall|i: int|
                            0 <= i < notices@.len() ==> (#[trigger] notices@[i])@
                                == NoticeView::Offer(due[offers@.len() + i]@),
                    decreases offers.len(),
                {
                    let offer = offers.pop().unwrap();
                    notices.insert(0, Notice::Offer(offer));
                }
                self.observed = decision.state;
                let step = Step::Done { notices };
                assert(step@->notices =~= offer_views(due).map_values(
                    |o: OfferView| NoticeView::Offer(o),
                ));
                step
            },
            Err(error) => self.abort(error),
        }
    }

    /// Takes the reply to the request that the last step asked for and
    /// says what comes next.
    ///
    /// The reply is read as the phase demands. A reply that cannot be read
    /// ends the cycle with one failure notice and without a change of the
    /// remembered state; the reply that completes the snapshot ends it with
    /// the offers that are due and commits the new state; every other
    /// reply leads to the next request.
    pub fn advance(&mut self, phase: Phase, reply: Reply) -> (step: Step)
        ensures
            step@ == step_after(old(self)@.product_url, old(self)@.observed, phase@, reply@),
            final(self)@.observed == observed_after(old(self)@.observed, phase@, reply@),
            final(self)@.product_url == old(self)@.product_url,
    {
        match phase {
            Phase::AwaitingPrice => {
                let outcome = product_data(reply);
                self.after_price(outcome)
            },
            Phase::AwaitingSale { price } => {
                let outcome = special_sale(reply);
                self.after_sale(price, outcome)
            },
            Phase::AwaitingStock { price, sale } => {
                let outcome = stock_status(reply);
                self.after_stock(price, sale, outcome)
            },
        }
    }
}

} // verus!
