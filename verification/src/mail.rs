//! The mails that tell of offers and failures.

use vstd::prelude::*;
use vstd::string::StringExecFns;
use crate::cycle::{CycleError, CycleErrorView, Notice, NoticeView};
use crate::extract::{Amount, ExtractionError, Field};
use crate::fetch::{accept, body_of, FetchError, FetchErrorView, Reply, ReplyView};
use crate::price::{digits_of, number_text};
use crate::state::{Offer, OfferView};

verus! {

/// Where mails come from and where they go.
#[derive(Clone, Debug, PartialEq, Eq)]
pub struct MailSettings {
    /// The sending domain at the mail provider.
    pub domain: String,
    /// The address that mails are sent from.
    pub sender: String,
    /// The address that is told of offers.
    pub recipient: String,
    /// The address that is told of failures.
    pub error_recipient: String,
}

/// The mathematical content of [`MailSettings`].
pub struct MailSettingsView {
    pub domain: Seq<char>,
    pub sender: Seq<char>,
    pub recipient: Seq<char>,
    pub error_recipient: Seq<char>,
}

impl View for MailSettings {
    type V = MailSettingsView;

    open spec fn view(&self) -> MailSettingsView {
        MailSettingsView {
            domain: self.domain@,
            sender: self.sender@,
            recipient: self.recipient@,
            error_recipient: self.error_recipient@,
        }
    }
}

/// One mail, ready to be posted to the provider.
#[derive(Clone, Debug, PartialEq, Eq)]
pub struct Message {
    /// The address of the provider's endpoint for the sending domain.
    pub endpoint: String,
    pub from: String,
    pub to: String,
    pub subject: String,
    pub text: String,
}

/// The mathematical content of a [`Message`].
pub struct MessageView {
    pub endpoint: Seq<char>,
    pub from: Seq<char>,
    pub to: Seq<char>,
    pub subject: Seq<char>,
    pub text: Seq<char>,
}

impl View for Message {
    type V = MessageView;

    open spec fn view(&self) -> MessageView {
        MessageView {
            endpoint: self.endpoint@,
            from: self.from@,
            to: self.to@,
            subject: self.subject@,
            text: self.text@,
        }
    }
}

/// The provider's endpoint, up to the sending domain.
pub const ENDPOINT_PREFIX: &'static str = "https://api.mailgun.net/v3/";

/// The provider's endpoint, behind the sending domain.
pub const ENDPOINT_SUFFIX: &'static str = "/messages";

/// Stands between the product's name and the old price.
pub const DISCOUNT_FROM: &'static str = " in de aanbieding van \u{20ac}";

/// Stands between the old price and the new one.
pub const DISCOUNT_FOR: &'static str = " voor \u{20ac}";

/// Stands behind the product's name where a special sale is told.
pub const SALE_TAIL: &'static str = " is in de actie";

/// Stands before the product's address where a failure is told.
pub const FAILURE_HEAD: &'static str = "ERROR: kruidvat-notification failed for ";

/// Ends the first line of the text of a failure mail.
pub const LINE_END: &'static str = "\n";

/// Stands before the status where a refused request is described.
pub const STATUS_HEAD: &'static str = "Request failed with status ";

/// Stands before the field's name where a missing field is described.
pub const MISSING_HEAD: &'static str = "Could not find ";

/// Stands before the field's name where a malformed number is described.
pub const MALFORMED_HEAD: &'static str = "Could not read a number from ";

/// Describes a document that is too long for the parser.
pub const TOO_LONG: &'static str = "The document is too long to read";

/// How the title is called.
pub const TITLE_NAME: &'static str = "the product name";

/// How the current price is called.
pub const CURRENT_PRICE_NAME: &'static str = "the price";

/// How the price before the discount is called.
pub const OLD_PRICE_NAME: &'static str = "the old price";

/// How the description of a special sale is called.
pub const SALE_TEXT_NAME: &'static str = "the sale description";

/// How the stock member is called.
pub const STOCK_LEVEL_NAME: &'static str = "the stock level";

/// The endpoint that takes the mails of a sending domain.
pub open spec fn endpoint_for(domain: Seq<char>) -> Seq<char> {
    ENDPOINT_PREFIX@ + domain + ENDPOINT_SUFFIX@
}

/// How a field is called in the description of an error.
pub open spec fn field_name(field: Field) -> Seq<char> {
    match field {
        Field::Title => TITLE_NAME@,
        Field::CurrentPrice => CURRENT_PRICE_NAME@,
        Field::SaleText => SALE_TEXT_NAME@,
        Field::StockLevel => STOCK_LEVEL_NAME@,
    }
}

/// How a price is called in the description of an error.
pub open spec fn amount_name(amount: Amount) -> Seq<char> {
    match amount {
        Amount::Current => CURRENT_PRICE_NAME@,
        Amount::Old => OLD_PRICE_NAME@,
    }
}

/// The description of an error, as the text of a failure mail gives it.
pub open spec fn description_of(error: CycleErrorView) -> Seq<char> {
    match error {
        CycleErrorView::Fetch(FetchErrorView::Status(status)) => STATUS_HEAD@ + digits_of(
            status as nat,
        ),
        CycleErrorView::Fetch(FetchErrorView::Transport(detail)) => detail,
        CycleErrorView::Extraction(ExtractionError::MissingField(field)) => MISSING_HEAD@
            + field_name(field),
        CycleErrorView::Extraction(ExtractionError::MalformedNumber(amount)) => MALFORMED_HEAD@
            + amount_name(amount),
        CycleErrorView::Extraction(ExtractionError::DocumentTooLong) => TOO_LONG@,
    }
}

/// The address that a notice is sent to: failures go to the error
/// recipient, offers to the recipient.
pub open spec fn addressee(settings: MailSettingsView, notice: NoticeView) -> Seq<char> {
    match notice {
        NoticeView::Offer(_) => settings.recipient,
        NoticeView::Failure { .. } => settings.error_recipient,
    }
}

/// The subject line of the mail for a notice.
pub open spec fn subject_of(notice: NoticeView) -> Seq<char> {
    match notice {
        NoticeView::Offer(OfferView::Discount { name, new_price, old_price }) => name
            + DISCOUNT_FROM@ + old_price.text() + DISCOUNT_FOR@ + new_price.text(),
        NoticeView::Offer(OfferView::SpecialSale { name, sale_text }) => name + SALE_TAIL@,
        NoticeView::Failure { url, error } => FAILURE_HEAD@ + url,
    }
}

/// The text of the mail for a notice about the product at `product`: the
/// product's address, and for a failure the description of the error on a
/// line of its own.
pub open spec fn text_of(product: Seq<char>, notice: NoticeView) -> Seq<char> {
    match notice {
        NoticeView::Offer(_) => product,
        NoticeView::Failure { url, error } => url + LINE_END@ + description_of(error),
    }
}

/// The mail for a notice about the product at `product`.
pub open spec fn message_for(settings: MailSettingsView, product: Seq<char>, notice: NoticeView)
    -> MessageView {
    MessageView {
        endpoint: endpoint_for(settings.domain),
        from: settings.sender,
        to: addressee(settings, notice),
        subject: subject_of(notice),
        text: text_of(product, notice),
    }
}

fn name_of_field(field: Field) -> (r: &'static str)
    ensures
        r@ == field_name(field),
{
    match field {
        Field::Title => TITLE_NAME,
        Field::CurrentPrice => CURRENT_PRICE_NAME,
        Field::SaleText => SALE_TEXT_NAME,
        Field::StockLevel => STOCK_LEVEL_NAME,
    }
}

fn name_of_amount(amount: Amount) -> (r: &'static str)
    ensures
        r@ == amount_name(amount),
{
    match amount {
        Amount::Current => CURRENT_PRICE_NAME,
        Amount::Old => OLD_PRICE_NAME,
    }
}

/// Describes an error in words.
pub fn describe(error: &CycleError) -> (r: String)
    ensures
        r@ == description_of(error@),
{
    match error {
        CycleError::Fetch(FetchError::Status(status)) => {
            let mut out = String::from_str(STATUS_HEAD);
            let code = number_text(*status as u64);
            out.append(code.as_str());
            out
        },
        CycleError::Fetch(FetchError::Transport(detail)) => detail.clone(),
        CycleError::Extraction(ExtractionError::MissingField(field)) => {
            let mut out = String::from_str(MISSING_HEAD);
            out.append(name_of_field(*field));
            out
        },
        CycleError::Extraction(ExtractionError::MalformedNumber(amount)) => {
            let mut out = String::from_str(MALFORMED_HEAD);
            out.append(name_of_amount(*amount));
            out
        },
        CycleError::Extraction(ExtractionError::DocumentTooLong) => String::from_str(TOO_LONG),
    }
}

/// Writes the mail that tells of `notice`, found while watching the
/// product at `product_url`.
pub fn compose(settings: &MailSettings, product_url: &str, notice: &Notice) -> (m: Message)
    ensures
        m@ == message_for(settings@, product_url@, notice@),
{
    let mut endpoint = String::from_str(ENDPOINT_PREFIX);
    endpoint.append(settings.domain.as_str());
    endpoint.append(ENDPOINT_SUFFIX);
    let from = settings.sender.clone();
    match notice {
        Notice::Offer(Offer::Discount { name, new_price, old_price }) => {
            let mut subject = name.clone();
            subject.append(DISCOUNT_FROM);
            let old_text = old_price.to_text();
            subject.append(old_text.as_str());
            subject.append(DISCOUNT_FOR);
            let new_text = new_price.to_text();
            subject.append(new_text.as_str());
            Message {
                endpoint,
                from,
                to: settings.recipient.clone(),
                subject,
                text: String::from_str(product_url),
            }
        },
        Notice::Offer(Offer::SpecialSale { name, sale_text }) => {
            let mut subject = name.clone();
            subject.append(SALE_TAIL);
            Message {
                endpoint,
                from,
                to: settings.recipient.clone(),
                subject,
                text: String::from_str(product_url),
            }
        },
        Notice::Failure { url, error } => {
            let mut subject = String::from_str(FAILURE_HEAD);
            subject.append(url.as_str());
            let mut text = url.clone();
            text.append(LINE_END);
            let detail = describe(error);
            text.append(detail.as_str());
            Message { endpoint, from, to: settings.error_recipient.clone(), subject, text }
        },
    }
}

/// Why a mail did not go out.
#[derive(Clone, Debug, PartialEq, Eq)]
pub enum NotifierError {
    /// The provider answered with a status outside 200 to 299.
    Rejected(u16),
    /// No answer came; the text says what the transport reported.
    Unsent(String),
}

/// The mathematical content of a [`NotifierError`].
pub enum NotifierErrorView {
    Rejected(u16),
    Unsent(Seq<char>),
}

impl View for NotifierError {
    type V = NotifierErrorView;

    open spec fn view(&self) -> NotifierErrorView {
        match *self {
            NotifierError::Rejected(status) => NotifierErrorView::Rejected(status),
            NotifierError::Unsent(detail) => NotifierErrorView::Unsent(detail@),
        }
    }
}

/// Whether the provider took the mail: it did exactly when it answered
/// with a successful status.
pub open spec fn delivery_of(reply: ReplyView) -> Result<(), NotifierErrorView> {
    match body_of(reply) {
        Ok(_) => Ok(()),
        Err(FetchErrorView::Status(status)) => Err(NotifierErrorView::Rejected(status)),
        Err(FetchErrorView::Transport(detail)) => Err(NotifierErrorView::Unsent(detail)),
    }
}

/// The view of a delivery or of the reason why there was none.
pub open spec fn delivery_view(r: Result<(), NotifierError>) -> Result<(), NotifierErrorView> {
    match r {
        Ok(_) => Ok(()),
        Err(e) => Err(e@),
    }
}

/// Judges the provider's reply to a posted mail.
pub fn confirm(reply: Reply) -> (r: Result<(), NotifierError>)
    ensures
        delivery_view(r) == delivery_of(reply@),
{
    match accept(reply) {
        Ok(_) => Ok(()),
        Err(FetchError::Status(status)) => Err(NotifierError::Rejected(status)),
        Err(FetchError::Transport(detail)) => Err(NotifierError::Unsent(detail)),
    }
}

} // verus!
