use kruidvat_notification::cycle::{CycleError, Notice};
use kruidvat_notification::extract::{Amount, ExtractionError, Field};
use kruidvat_notification::fetch::{FetchError, Reply};
use kruidvat_notification::mail::{compose, confirm, describe, MailSettings, Message, NotifierError};
use kruidvat_notification::price::Price;
use kruidvat_notification::state::Offer;

const PRODUCT: &str = "https://www.kruidvat.nl/soap/p/12345";

fn settings() -> MailSettings {
    MailSettings {
        domain: String::from("mg.example.org"),
        sender: String::from("Watcher <watcher@example.org>"),
        recipient: String::from("buyer@example.org"),
        error_recipient: String::from("operator@example.org"),
    }
}

#[test]
fn discount_mail() {
    let notice = Notice::Offer(Offer::Discount {
        name: String::from("Soap"),
        new_price: Price { units: 500, scale: 2 },
        old_price: Price { units: 900, scale: 2 },
    });
    assert_eq!(
        compose(&settings(), PRODUCT, &notice),
        Message {
            endpoint: String::from("https://api.mailgun.net/v3/mg.example.org/messages"),
            from: String::from("Watcher <watcher@example.org>"),
            to: String::from("buyer@example.org"),
            subject: String::from("Soap in de aanbieding van \u{20ac}9 voor \u{20ac}5"),
            text: String::from(PRODUCT),
        }
    );
    let notice = Notice::Offer(Offer::Discount {
        name: String::from("Shampoo 250 ml"),
        new_price: Price { units: 1234, scale: 2 },
        old_price: Price { units: 1500, scale: 2 },
    });
    let message = compose(&settings(), PRODUCT, &notice);
    assert_eq!(
        message.subject,
        format!("{} in de aanbieding van \u{20ac}{} voor \u{20ac}{}", "Shampoo 250 ml", 15f32, 12.34f32)
    );
}

#[test]
fn special_sale_mail() {
    let notice = Notice::Offer(Offer::SpecialSale {
        name: String::from("Soap"),
        sale_text: String::from("1+1 gratis"),
    });
    assert_eq!(
        compose(&settings(), PRODUCT, &notice),
        Message {
            endpoint: String::from("https://api.mailgun.net/v3/mg.example.org/messages"),
            from: String::from("Watcher <watcher@example.org>"),
            to: String::from("buyer@example.org"),
            subject: String::from("Soap is in de actie"),
            text: String::from(PRODUCT),
        }
    );
}

#[test]
fn failure_mail_goes_to_the_operator() {
    let notice = Notice::Failure {
        url: String::from(PRODUCT),
        error: CycleError::Fetch(FetchError::Status(503)),
    };
    assert_eq!(
        compose(&settings(), PRODUCT, &notice),
        Message {
            endpoint: String::from("https://api.mailgun.net/v3/mg.example.org/messages"),
            from: String::from("Watcher <watcher@example.org>"),
            to: String::from("operator@example.org"),
            subject: String::from(
                "ERROR: kruidvat-notification failed for https://www.kruidvat.nl/soap/p/12345"
            ),
            text: String::from(
                "https://www.kruidvat.nl/soap/p/12345\nRequest failed with status 503"
            ),
        }
    );
}

#[test]
fn errors_are_described_in_words() {
    assert_eq!(describe(&CycleError::Fetch(FetchError::Status(404))), "Request failed with status 404");
    assert_eq!(describe(&CycleError::Fetch(FetchError::Status(0))), "Request failed with status 0");
    assert_eq!(
        describe(&CycleError::Fetch(FetchError::Transport(String::from("connection reset")))),
        "connection reset"
    );
    let missing = |field| describe(&CycleError::Extraction(ExtractionError::MissingField(field)));
    assert_eq!(missing(Field::Title), "Could not find the product name");
    assert_eq!(missing(Field::CurrentPrice), "Could not find the price");
    assert_eq!(missing(Field::SaleText), "Could not find the sale description");
    assert_eq!(missing(Field::StockLevel), "Could not find the stock level");
    assert_eq!(
        describe(&CycleError::Extraction(ExtractionError::DocumentTooLong)),
        "The document is too long to read"
    );
    let malformed =
        |field| describe(&CycleError::Extraction(ExtractionError::MalformedNumber(field)));
    assert_eq!(malformed(Amount::Current), "Could not read a number from the price");
    assert_eq!(malformed(Amount::Old), "Could not read a number from the old price");
}

#[test]
fn provider_reply_is_judged() {
    assert_eq!(confirm(Reply::Answer { status: 200, body: String::from("Queued.") }), Ok(()));
    assert_eq!(confirm(Reply::Answer { status: 299, body: String::new() }), Ok(()));
    assert_eq!(
        confirm(Reply::Answer { status: 401, body: String::from("Forbidden") }),
        Err(NotifierError::Rejected(401))
    );
    assert_eq!(
        confirm(Reply::Failure { detail: String::from("dns failure") }),
        Err(NotifierError::Unsent(String::from("dns failure")))
    );
}
