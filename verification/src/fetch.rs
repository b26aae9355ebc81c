//! What a request brought back, and where the requests go.

use vstd::prelude::*;
use vstd::string::StringExecFns;
use crate::text::{last_segment, trailing_segment};

verus! {

/// Why a request brought no body.
#[derive(Clone, Debug, PartialEq, Eq)]
pub enum FetchError {
    /// The server answered with a status outside 200 to 299.
    Status(u16),
    /// No answer came; the text says what the transport reported.
    Transport(String),
}

/// The mathematical content of a [`FetchError`].
pub enum FetchErrorView {
    Status(u16),
    Transport(Seq<char>),
}

impl View for FetchError {
    type V = FetchErrorView;

    open spec fn view(&self) -> FetchErrorView {
        match *self {
            FetchError::Status(status) => FetchErrorView::Status(status),
            FetchError::Transport(detail) => FetchErrorView::Transport(detail@),
        }
    }
}

/// What came back for one request.
#[derive(Clone, Debug, PartialEq, Eq)]
pub enum Reply {
    /// The server answered.
    Answer { status: u16, body: String },
    /// The request failed before any answer.
    Failure { detail: String },
}

/// The mathematical content of a [`Reply`].
pub enum ReplyView {
    Answer { status: u16, body: Seq<char> },
    Failure { detail: Seq<char> },
}

impl View for Reply {
    type V = ReplyView;

    open spec fn view(&self) -> ReplyView {
        match *self {
            Reply::Answer { status, body } => ReplyView::Answer { status, body: body@ },
            Reply::Failure { detail } => ReplyView::Failure { detail: detail@ },
        }
    }
}

/// A status from 200 to 299.
pub open spec fn is_success(status: u16) -> bool {
    200 <= status && status < 300
}

/// The body that a reply delivers: that of an answer with a successful
/// status. Any other reply is a fetch error.
pub open spec fn body_of(reply: ReplyView) -> Result<Seq<char>, FetchErrorView> {
    match reply {
        ReplyView::Answer { status, body } => if is_success(status) {
            Ok(body)
        } else {
            Err(FetchErrorView::Status(status))
        },
        ReplyView::Failure { detail } => Err(FetchErrorView::Transport(detail)),
    }
}

/// The view of a delivered body or fetch error.
pub open spec fn body_result_view(r: Result<String, FetchError>) -> Result<
    Seq<char>,
    FetchErrorView,
> {
    match r {
        Ok(body) => Ok(body@),
        Err(e) => Err(e@),
    }
}

/// Tells whether a status is one of success.
pub fn status_is_success(status: u16) -> (b: bool)
    ensures
        b == is_success(status),
{
    200 <= status && status < 300
}

/// Takes the body out of a reply, or says why there is none.
pub fn accept(reply: Reply) -> (r: Result<String, FetchError>)
    ensures
        body_result_view(r) == body_of(reply@),
{
    match reply {
        Reply::Answer { status, body } => {
            if status_is_success(status) {
                Ok(body)
            } else {
                Err(FetchError::Status(status))
            }
        },
        Reply::Failure { detail } => Err(FetchError::Transport(detail)),
    }
}

/// The promotion endpoint, up to the product code.
pub const PROMOTION_PREFIX: &'static str =
    "https://www.kruidvat.nl/view/PromotionBoxComponentController?componentUid=PromotionBoxComponent&currentProductCode=";

/// The stock endpoint, up to the product code.
pub const STOCK_PREFIX: &'static str = "https://www.kruidvat.nl/api/v2/kvn/products/";

/// The stock endpoint, behind the product code.
pub const STOCK_SUFFIX: &'static str = "/onlinestock";

/// The address that tells the special sale of the product at `product`:
/// the promotion endpoint, keyed by the trailing path segment.
pub open spec fn promotion_address(product: Seq<char>) -> Seq<char> {
    PROMOTION_PREFIX@ + last_segment(product)
}

/// The address that tells the stock of the product at `product`.
pub open spec fn stock_address(product: Seq<char>) -> Seq<char> {
    STOCK_PREFIX@ + last_segment(product) + STOCK_SUFFIX@
}

/// Builds the address of the promotion fragment for a product page.
pub fn promotion_url(product_url: &str) -> (r: String)
    ensures
        r@ == promotion_address(product_url@),
{
    let code = trailing_segment(product_url);
    let mut url = String::from_str(PROMOTION_PREFIX);
    url.append(code.as_str());
    url
}

/// Builds the address of the stock document for a product page.
pub fn stock_url(product_url: &str) -> (r: String)
    ensures
        r@ == stock_address(product_url@),
{
    let code = trailing_segment(product_url);
    let mut url = String::from_str(STOCK_PREFIX);
    url.append(code.as_str());
    url.append(STOCK_SUFFIX);
    url
}

} // verus!
