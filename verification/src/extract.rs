//! What a product page, a promotion fragment and a stock document say.

use vstd::prelude::*;
use vstd::string::StringExecFns;
use crate::json::{json_string_member, string_member};
use crate::markup::{
    first_match_text, fits_parser, is_parseable, select_first_text, text_list_view,
};
use crate::price::{decimal_of, lemma_normalize_idempotent, normalized, parse_price, Price};
use crate::state::{ProductPrice, ProductPriceView};
use crate::text::{join, joined, text_opt_view, text_views, trim, trimmed};

verus! {

/// The pieces that a document must hold.
#[derive(Clone, Copy, Debug, PartialEq, Eq, Structural)]
pub enum Field {
    Title,
    CurrentPrice,
    SaleText,
    StockLevel,
}

/// The prices that a product page can show.
#[derive(Clone, Copy, Debug, PartialEq, Eq, Structural)]
pub enum Amount {
    Current,
    Old,
}

/// Why a document could not be read.
#[derive(Clone, Copy, Debug, PartialEq, Eq, Structural)]
pub enum ExtractionError {
    /// An expected node or member is absent.
    MissingField(Field),
    /// The text of a price is no number.
    MalformedNumber(Amount),
    /// The document is longer than the parser takes.
    DocumentTooLong,
}

/// Selects the product title.
pub const TITLE_SELECTOR: &'static str = ".title";

/// Selects the current price.
pub const CURRENT_PRICE_SELECTOR: &'static str = ".pricebadge__new-price-wrapper";

/// Selects the price before the discount.
pub const OLD_PRICE_SELECTOR: &'static str = ".pricebadge__old-price-content";

/// Selects the description of a special sale.
pub const SALE_SELECTOR: &'static str = ".promotion-box__information-text";

/// The member of the stock document that tells the stock level.
pub const STOCK_MEMBER: &'static str = "stockLevelStatus";

/// The stock level that means the product cannot be bought.
pub const OUT_OF_STOCK: &'static str = "outOfStock";

/// A single space.
pub open spec fn space() -> Seq<char> {
    seq![' ']
}

/// The caption that the text nodes of an element make: the nodes joined by
/// single spaces, without whitespace at either end.
pub open spec fn caption_of(texts: Seq<Seq<char>>) -> Seq<char> {
    trimmed(joined(texts, space()))
}

/// The amount that the text nodes of a price element write: the nodes put
/// together, normalized and read as a decimal numeral.
pub open spec fn amount_of(texts: Seq<Seq<char>>) -> Option<Price> {
    decimal_of(normalized(joined(texts, Seq::empty())))
}

/// What the three nodes of a product page say of the price.
///
/// The title and the current price must be there, and each price that is
/// there must be a number. An absent old price is no error: it says that
/// no discount is advertised.
pub open spec fn price_reading(
    title: Option<Seq<Seq<char>>>,
    current: Option<Seq<Seq<char>>>,
    old: Option<Seq<Seq<char>>>,
) -> Result<ProductPriceView, ExtractionError> {
    if title is None {
        Err(ExtractionError::MissingField(Field::Title))
    } else if current is None {
        Err(ExtractionError::MissingField(Field::CurrentPrice))
    } else if amount_of(current->0) is None {
        Err(ExtractionError::MalformedNumber(Amount::Current))
    } else if old is Some && amount_of(old->0) is None {
        Err(ExtractionError::MalformedNumber(Amount::Old))
    } else {
        Ok(
            ProductPriceView {
                name: caption_of(title->0),
                current_price: amount_of(current->0)->0,
                previous_price: match old {
                    Some(texts) => amount_of(texts),
                    None => None,
                },
            },
        )
    }
}

/// The view of a reading of the price.
pub open spec fn price_result_view(r: Result<ProductPrice, ExtractionError>) -> Result<
    ProductPriceView,
    ExtractionError,
> {
    match r {
        Ok(price) => Ok(price@),
        Err(e) => Err(e),
    }
}

fn caption(texts: &Vec<String>) -> (r: String)
    ensures
        r@ == caption_of(text_views(texts@)),
{
    proof {
        reveal_strlit(" ");
        assert(" "@ =~= space());
    }
    let line = join(texts, " ");
    trim(line.as_str())
}

fn amount(texts: &Vec<String>) -> (r: Option<Price>)
    ensures
        r == amount_of(text_views(texts@)),
{
    proof {
        reveal_strlit("");
        assert(""@ =~= Seq::<char>::empty());
    }
    let line = join(texts, "");
    parse_price(line.as_str())
}

/// Reads the price from the text nodes of the title, the current price and
/// the old price, each as selected from the page or absent.
pub fn price_from_texts(
    title: Option<Vec<String>>,
    current: Option<Vec<String>>,
    old: Option<Vec<String>>,
) -> (r: Result<ProductPrice, ExtractionError>)
    ensures
        price_result_view(r) == price_reading(
            text_list_view(title),
            text_list_view(current),
            text_list_view(old),
        ),
{
    let title = match title {
        Some(texts) => texts,
        None => { return Err(ExtractionError::MissingField(Field::Title)); },
    };
    let current = match current {
        Some(texts) => texts,
        None => { return Err(ExtractionError::MissingField(Field::CurrentPrice)); },
    };
    let current_price = match amount(&current) {
        Some(price) => price,
        None => { return Err(ExtractionError::MalformedNumber(Amount::Current)); },
    };
    let previous_price = match old {
        Some(texts) => match amount(&texts) {
            Some(price) => Some(price),
            None => { return Err(ExtractionError::MalformedNumber(Amount::Old)); },
        },
        None => None,
    };
    Ok(ProductPrice { name: caption(&title), current_price, previous_price })
}

/// What a product page says of the price: what its title, its current
/// price and its old price say, each taken from the first element of its
/// class. A page that is too long for the parser cannot be read.
pub open spec fn page_reading(html: Seq<char>) -> Result<ProductPriceView, ExtractionError> {
    if !fits_parser(html) {
        Err(ExtractionError::DocumentTooLong)
    } else {
        price_reading(
            first_match_text(html, TITLE_SELECTOR@),
            first_match_text(html, CURRENT_PRICE_SELECTOR@),
            first_match_text(html, OLD_PRICE_SELECTOR@),
        )
    }
}

/// Reads name, current price and old price from a product page.
///
/// The first element of each class counts. `Ok` exactly when the page is
/// not too long, the title and the current price are found and every price
/// found is a number.
pub fn extract_price(html: &str) -> (r: Result<ProductPrice, ExtractionError>)
    ensures
        price_result_view(r) == page_reading(html@),
{
    if !is_parseable(html) {
        return Err(ExtractionError::DocumentTooLong);
    }
    let title = select_first_text(html, TITLE_SELECTOR);
    let current = select_first_text(html, CURRENT_PRICE_SELECTOR);
    let old = select_first_text(html, OLD_PRICE_SELECTOR);
    price_from_texts(title, current, old)
}

/// A price node that holds a text reads like one that holds the same text
/// already normalized.
pub proof fn lemma_normalized_text_reads_alike(text: Seq<char>)
    ensures
        amount_of(seq![normalized(text)]) == amount_of(seq![text]),
{
    lemma_normalize_idempotent(text);
    assert(joined(seq![text], Seq::empty()) == text);
    assert(joined(seq![normalized(text)], Seq::empty()) == normalized(text));
}

/// A page without an old price is read without a discount, and not as an
/// error, wherever its title and current price can be read.
pub proof fn lemma_absent_old_price_is_no_discount(
    title: Seq<Seq<char>>,
    current: Seq<Seq<char>>,
)
    requires
        amount_of(current) is Some,
    ensures
        price_reading(Some(title), Some(current), None) == Ok::<
            ProductPriceView,
            ExtractionError,
        >(
            ProductPriceView {
                name: caption_of(title),
                current_price: amount_of(current)->0,
                previous_price: None,
            },
        ),
{
}

/// A page without a current price cannot be read, whatever else it holds.
pub proof fn lemma_absent_current_price_is_an_error(
    title: Option<Seq<Seq<char>>>,
    old: Option<Seq<Seq<char>>>,
)
    ensures
        price_reading(title, None, old) is Err,
        title is Some ==> price_reading(title, None, old) == Err::<
            ProductPriceView,
            ExtractionError,
        >(ExtractionError::MissingField(Field::CurrentPrice)),
{
}

/// What a promotion fragment says: an empty fragment means that there is no
/// special sale; any other fragment must hold the description.
pub open spec fn sale_reading(body: Seq<char>, description: Option<Seq<Seq<char>>>) -> Result<
    Option<Seq<char>>,
    ExtractionError,
> {
    if body.len() == 0 {
        Ok(None)
    } else {
        match description {
            Some(texts) => Ok(Some(caption_of(texts))),
            None => Err(ExtractionError::MissingField(Field::SaleText)),
        }
    }
}

/// An empty fragment says that there is no special sale, whatever a
/// selection from it would hold.
pub proof fn lemma_empty_fragment_is_no_sale(description: Option<Seq<Seq<char>>>)
    ensures
        sale_reading(Seq::empty(), description) == Ok::<Option<Seq<char>>, ExtractionError>(None),
{
}

/// The view of a reading of the special sale.
pub open spec fn sale_result_view(r: Result<Option<String>, ExtractionError>) -> Result<
    Option<Seq<char>>,
    ExtractionError,
> {
    match r {
        Ok(sale) => Ok(text_opt_view(sale)),
        Err(e) => Err(e),
    }
}

/// Reads the special sale from a promotion fragment and the text nodes of
/// its description, as selected from the fragment or absent.
pub fn sale_from_texts(body: &str, description: Option<Vec<String>>) -> (r: Result<
    Option<String>,
    ExtractionError,
>)
    ensures
        sale_result_view(r) == sale_reading(body@, text_list_view(description)),
{
    if body.is_empty() {
        return Ok(None);
    }
    match description {
        Some(texts) => Ok(Some(caption(&texts))),
        None => Err(ExtractionError::MissingField(Field::SaleText)),
    }
}

/// What the answer of the promotion endpoint says: an empty answer means
/// that there is no special sale; any other answer must hold the
/// description in the first element of its class. An answer that is too
/// long for the parser cannot be read.
pub open spec fn fragment_reading(body: Seq<char>) -> Result<Option<Seq<char>>, ExtractionError> {
    if body.len() == 0 {
        Ok(None)
    } else if !fits_parser(body) {
        Err(ExtractionError::DocumentTooLong)
    } else {
        sale_reading(body, first_match_text(body, SALE_SELECTOR@))
    }
}

/// An empty answer of the promotion endpoint is read as no special sale,
/// and not as an error.
pub proof fn lemma_empty_answer_is_no_sale()
    ensures
        fragment_reading(Seq::empty()) == Ok::<Option<Seq<char>>, ExtractionError>(None),
{
}

/// Reads the special sale from the answer of the promotion endpoint.
///
/// An empty answer is `Ok(None)`; any other answer must hold an element
/// with the description.
pub fn extract_special_sale(body: &str) -> (r: Result<Option<String>, ExtractionError>)
    ensures
        sale_result_view(r) == fragment_reading(body@),
        body@.len() == 0 ==> r == Ok::<Option<String>, ExtractionError>(None),
{
    if body.is_empty() {
        return Ok(None);
    }
    if !is_parseable(body) {
        return Err(ExtractionError::DocumentTooLong);
    }
    let description = select_first_text(body, SALE_SELECTOR);
    sale_from_texts(body, description)
}

/// What the stock member of a stock document says: any level but
/// `outOfStock` means that the product is in stock; a document without the
/// member, or with something other than a string there, cannot be read.
pub open spec fn stock_reading(member: Option<Option<Seq<char>>>) -> Result<
    bool,
    ExtractionError,
> {
    match member {
        Some(Some(level)) => Ok(level != OUT_OF_STOCK@),
        _ => Err(ExtractionError::MissingField(Field::StockLevel)),
    }
}

/// The view of a stock member as read from a document.
pub open spec fn member_view(member: Option<Option<String>>) -> Option<Option<Seq<char>>> {
    match member {
        Some(level) => Some(text_opt_view(level)),
        None => None,
    }
}

/// Reads the stock status from the stock member of a document: `None` for
/// a text that is no document, `Some(None)` for a document without a
/// string there.
pub fn stock_from_member(member: Option<Option<String>>) -> (r: Result<bool, ExtractionError>)
    ensures
        r == stock_reading(member_view(member)),
{
    match member {
        Some(Some(level)) => {
            let exhausted = String::from_str(OUT_OF_STOCK);
            Ok(level != exhausted)
        },
        _ => Err(ExtractionError::MissingField(Field::StockLevel)),
    }
}

/// What a stock document says: what its stock member says.
pub open spec fn document_reading(json: Seq<char>) -> Result<bool, ExtractionError> {
    stock_reading(json_string_member(json, STOCK_MEMBER@))
}

/// Reads the stock status from a stock document.
///
/// `Ok` exactly when the text is a JSON document that holds a string under
/// `stockLevelStatus`; the product is in stock unless that string is
/// `outOfStock`.
pub fn extract_stock(json: &str) -> (r: Result<bool, ExtractionError>)
    ensures
        r == document_reading(json@),
{
    let member = match string_member(json, STOCK_MEMBER) {
        Ok(level) => Some(level),
        Err(_) => None,
    };
    stock_from_member(member)
}

} // verus!
