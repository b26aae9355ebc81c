use kruidvat_notification::extract::{
    extract_price, extract_special_sale, extract_stock, price_from_texts, sale_from_texts,
    stock_from_member, Amount, ExtractionError, Field,
};
use kruidvat_notification::markup::{is_parseable, MAX_DOCUMENT_BYTES};
use kruidvat_notification::price::Price;
use kruidvat_notification::state::ProductPrice;

const PAGE_WITH_DISCOUNT: &str = "<html><head><title>Shop</title></head><body>\
<h1 class=\"title\"> Soap </h1>\
<div class=\"pricebadge__new-price-wrapper\"><span>5</span>\n<span>,</span> <span>00</span></div>\
<div class=\"pricebadge__old-price-content\"> 9,00 </div>\
</body></html>";

const PAGE_WITHOUT_DISCOUNT: &str = "<html><body>\
<h1 class=\"title\">Soap</h1>\
<div class=\"pricebadge__new-price-wrapper\">12.34</div>\
</body></html>";

fn texts(parts: &[&str]) -> Option<Vec<String>> {
    Some(parts.iter().map(|part| String::from(*part)).collect())
}

#[test]
fn page_with_discount_is_read() {
    assert_eq!(
        extract_price(PAGE_WITH_DISCOUNT),
        Ok(ProductPrice {
            name: String::from("Soap"),
            current_price: Price { units: 500, scale: 2 },
            previous_price: Some(Price { units: 900, scale: 2 }),
        })
    );
}

#[test]
fn missing_old_price_is_no_discount() {
    assert_eq!(
        extract_price(PAGE_WITHOUT_DISCOUNT),
        Ok(ProductPrice {
            name: String::from("Soap"),
            current_price: Price { units: 1234, scale: 2 },
            previous_price: None,
        })
    );
}

#[test]
fn missing_current_price_is_an_error() {
    let page = "<html><body><h1 class=\"title\">Soap</h1>\
<div class=\"pricebadge__old-price-content\">9,00</div></body></html>";
    assert_eq!(extract_price(page), Err(ExtractionError::MissingField(Field::CurrentPrice)));
}

#[test]
fn missing_title_is_an_error() {
    let page = "<html><body><div class=\"pricebadge__new-price-wrapper\">5,00</div></body></html>";
    assert_eq!(extract_price(page), Err(ExtractionError::MissingField(Field::Title)));
    assert_eq!(extract_price(""), Err(ExtractionError::MissingField(Field::Title)));
}

#[test]
fn malformed_prices_are_errors() {
    let page = "<html><body><h1 class=\"title\">Soap</h1>\
<div class=\"pricebadge__new-price-wrapper\">cheap</div></body></html>";
    assert_eq!(extract_price(page), Err(ExtractionError::MalformedNumber(Amount::Current)));
    let page = "<html><body><h1 class=\"title\">Soap</h1>\
<div class=\"pricebadge__new-price-wrapper\">5,00</div>\
<div class=\"pricebadge__old-price-content\">was more</div></body></html>";
    assert_eq!(extract_price(page), Err(ExtractionError::MalformedNumber(Amount::Old)));
    let page = "<html><body><h1 class=\"title\">Soap</h1>\
<div class=\"pricebadge__new-price-wrapper\"></div></body></html>";
    assert_eq!(extract_price(page), Err(ExtractionError::MalformedNumber(Amount::Current)));
}

#[test]
fn first_element_of_a_class_counts() {
    let page = "<html><body><h1 class=\"title\">Soap</h1><h2 class=\"title\">Other</h2>\
<div class=\"pricebadge__new-price-wrapper\">1,50</div>\
<div class=\"pricebadge__new-price-wrapper\">2,50</div></body></html>";
    assert_eq!(
        extract_price(page),
        Ok(ProductPrice {
            name: String::from("Soap"),
            current_price: Price { units: 150, scale: 2 },
            previous_price: None,
        })
    );
}

#[test]
fn text_nodes_of_the_title_are_joined_by_spaces() {
    let page = "<html><body><h1 class=\"big title\"> Soap <b>Deluxe</b>\n</h1>\
<div class=\"pricebadge__new-price-wrapper\">3</div></body></html>";
    assert_eq!(
        extract_price(page),
        Ok(ProductPrice {
            name: String::from("Soap  Deluxe"),
            current_price: Price { units: 3, scale: 0 },
            previous_price: None,
        })
    );
}

#[test]
fn price_is_read_from_given_texts() {
    assert_eq!(
        price_from_texts(texts(&[" Soap ", "Bar"]), texts(&["12", "\n", ",", "34"]), None),
        Ok(ProductPrice {
            name: String::from("Soap  Bar"),
            current_price: Price { units: 1234, scale: 2 },
            previous_price: None,
        })
    );
    assert_eq!(
        price_from_texts(texts(&["Soap"]), texts(&["5,00"]), texts(&[" 9", ",00 "])),
        Ok(ProductPrice {
            name: String::from("Soap"),
            current_price: Price { units: 500, scale: 2 },
            previous_price: Some(Price { units: 900, scale: 2 }),
        })
    );
    assert_eq!(
        price_from_texts(None, None, None),
        Err(ExtractionError::MissingField(Field::Title))
    );
    assert_eq!(
        price_from_texts(texts(&["Soap"]), None, texts(&["9"])),
        Err(ExtractionError::MissingField(Field::CurrentPrice))
    );
    assert_eq!(
        price_from_texts(texts(&["Soap"]), texts(&[]), None),
        Err(ExtractionError::MalformedNumber(Amount::Current))
    );
    assert_eq!(
        price_from_texts(texts(&["Soap"]), texts(&["1"]), texts(&["x"])),
        Err(ExtractionError::MalformedNumber(Amount::Old))
    );
}

#[test]
fn empty_promotion_answer_is_no_sale() {
    assert_eq!(extract_special_sale(""), Ok(None));
    assert_eq!(sale_from_texts("", texts(&["ignored"])), Ok(None));
    assert_eq!(sale_from_texts("", None), Ok(None));
}

#[test]
fn promotion_fragment_is_read() {
    let fragment = "<div class=\"promotion-box\">\
<div class=\"promotion-box__information-text\">\n 2 voor <b>5 euro</b> </div></div>";
    assert_eq!(extract_special_sale(fragment), Ok(Some(String::from("2 voor  5 euro"))));
    assert_eq!(
        sale_from_texts("x", texts(&[" 1+1 ", "gratis "])),
        Ok(Some(String::from("1+1  gratis")))
    );
}

#[test]
fn promotion_fragment_without_description_is_an_error() {
    assert_eq!(
        extract_special_sale("<div class=\"promotion-box\">soon</div>"),
        Err(ExtractionError::MissingField(Field::SaleText))
    );
    assert_eq!(extract_special_sale(" "), Err(ExtractionError::MissingField(Field::SaleText)));
    assert_eq!(sale_from_texts("x", None), Err(ExtractionError::MissingField(Field::SaleText)));
}

#[test]
fn stock_level_is_read() {
    assert_eq!(extract_stock("{\"stockLevelStatus\":\"inStock\"}"), Ok(true));
    assert_eq!(extract_stock("{\"stockLevelStatus\":\"lowStock\",\"n\":3}"), Ok(true));
    assert_eq!(extract_stock("{\"stockLevelStatus\":\"\"}"), Ok(true));
    assert_eq!(extract_stock("{\"stockLevelStatus\":\"outOfStock\"}"), Ok(false));
    assert_eq!(extract_stock(" { \"a\": [1, 2], \"stockLevelStatus\" : \"outOfStock\" } "), Ok(false));
    assert_eq!(extract_stock("{\"stockLevelStatus\":\"OutOfStock\"}"), Ok(true));
}

#[test]
fn unreadable_stock_documents_are_errors() {
    let missing = Err(ExtractionError::MissingField(Field::StockLevel));
    assert_eq!(extract_stock("{}"), missing);
    assert_eq!(extract_stock("{\"stockLevelStatus\":3}"), missing);
    assert_eq!(extract_stock("{\"stockLevelStatus\":null}"), missing);
    assert_eq!(extract_stock("{\"stockLevelStatus\":{\"x\":\"inStock\"}}"), missing);
    assert_eq!(extract_stock("[\"stockLevelStatus\"]"), missing);
    assert_eq!(extract_stock("\"stockLevelStatus\""), missing);
    assert_eq!(extract_stock("{\"stockLevelStatus\":\"inStock\""), missing);
    assert_eq!(extract_stock(""), missing);
    assert_eq!(extract_stock("<html></html>"), missing);
}

#[test]
fn stock_is_read_from_a_given_member() {
    assert_eq!(stock_from_member(Some(Some(String::from("inStock")))), Ok(true));
    assert_eq!(stock_from_member(Some(Some(String::from("outOfStock")))), Ok(false));
    assert_eq!(
        stock_from_member(Some(None)),
        Err(ExtractionError::MissingField(Field::StockLevel))
    );
    assert_eq!(stock_from_member(None), Err(ExtractionError::MissingField(Field::StockLevel)));
}

#[test]
fn whitespace_in_a_price_node_is_stripped() {
    let page = "<h1 class='title'>Soap</h1>\
<div class='pricebadge__new-price-wrapper'>&#9;12,34</div>";
    assert_eq!(
        extract_price(page),
        Ok(ProductPrice {
            name: String::from("Soap"),
            current_price: Price { units: 1234, scale: 2 },
            previous_price: None,
        })
    );
    let page = "<h1 class='title'>Soap</h1>\
<div class='pricebadge__new-price-wrapper'>\r\n\t12,&nbsp;34\r\n</div>\
<div class='pricebadge__old-price-content'>&nbsp;15,00\r\n</div>";
    assert_eq!(
        extract_price(page),
        Ok(ProductPrice {
            name: String::from("Soap"),
            current_price: Price { units: 1234, scale: 2 },
            previous_price: Some(Price { units: 1500, scale: 2 }),
        })
    );
    assert_eq!(
        price_from_texts(texts(&["Soap"]), texts(&["\t12,34"]), None),
        price_from_texts(texts(&["Soap"]), texts(&["12.34"]), None)
    );
    assert_eq!(
        price_from_texts(texts(&["Soap"]), texts(&["12,34\r\n"]), texts(&["\u{a0}20"])),
        Ok(ProductPrice {
            name: String::from("Soap"),
            current_price: Price { units: 1234, scale: 2 },
            previous_price: Some(Price { units: 20, scale: 0 }),
        })
    );
}

#[test]
fn documents_of_ordinary_length_fit_the_parser() {
    assert!(is_parseable(""));
    assert!(is_parseable(PAGE_WITH_DISCOUNT));
    assert!(is_parseable("\u{20ac}"));
    assert_eq!(MAX_DOCUMENT_BYTES, 715_827_882);
    assert!(3 * (MAX_DOCUMENT_BYTES as u64) <= 1 << 31);
    assert!(3 * (MAX_DOCUMENT_BYTES as u64 + 1) > 1 << 31);
}

#[test]
fn too_long_documents_are_refused() {
    let length = match MAX_DOCUMENT_BYTES.checked_add(1) {
        Some(length) => length,
        None => return,
    };
    let mut page = String::new();
    if page.try_reserve_exact(length).is_err() {
        return;
    }
    let chunk = " ".repeat(1 << 20);
    while page.len() < length {
        page.push_str(&chunk[..chunk.len().min(length - page.len())]);
    }
    assert_eq!(page.len(), length);
    assert!(!is_parseable(&page));
    assert_eq!(extract_price(&page), Err(ExtractionError::DocumentTooLong));
    assert_eq!(extract_special_sale(&page), Err(ExtractionError::DocumentTooLong));
}
