use vstd::prelude::*;
use vstd::string::*;

use crate::api::card_url;
use crate::api::ApiClient;
use crate::api::Product;
use crate::money::basic_unit_text;
use crate::money::cents_to_basic_unit;
use crate::policy::ChangeKind;
use crate::policy::NotificationEvent;

verus! {

/// A listing in one line: price in major units, currency, seller country and
/// card name.
pub open spec fn product_text(p: Product) -> Seq<char> {
    basic_unit_text(p.price.cents as nat) + " "@ + p.price.currency@ + " - "@
        + p.user.country_code@ + " - "@ + p.name_en@
}

/// A listing that may be absent, in one line.
pub open spec fn optional_product_text(p: Option<Product>) -> Seq<char> {
    match p {
        Some(v) => product_text(v),
        None => "None"@,
    }
}

/// The direction marker: up for a price increase, down for a listing that
/// appeared or got cheaper.
pub open spec fn glyph(increase: bool) -> Seq<char> {
    if increase {
        "+"@
    } else {
        "-"@
    }
}

pub open spec fn change_subject(increase: bool, new: Product) -> Seq<char> {
    "["@ + glyph(increase) + "] "@ + product_text(new)
}

pub open spec fn change_body(previous: Option<Product>, new: Product) -> Seq<char> {
    "New:      "@ + product_text(new) + "\nPrevious: "@ + optional_product_text(previous) + "\n"@
        + card_url(new.blueprint_id as nat)
}

pub open spec fn unavailable_subject(previous: Product) -> Seq<char> {
    "[0] Unavailable - "@ + previous.name_en@
}

pub open spec fn unavailable_body(previous: Product) -> Seq<char> {
    "New:      None\nPrevious: "@ + product_text(previous) + "\n"@ + card_url(
        previous.blueprint_id as nat,
    )
}

/// The log line of an item that has no qualifying listing any more, named
/// after the listing that went away.
pub open spec fn unavailable_log(previous: Product) -> Seq<char> {
    "[0] None - "@ + previous.name_en@
}

/// A composed message, and the line that records it in the log.
#[derive(Debug)]
pub struct Notification {
    pub subject: String,
    pub body: String,
    pub log_line: String,
}

/// The subject of an event's message.
pub open spec fn event_subject(e: NotificationEvent) -> Seq<char> {
    match e.kind {
        ChangeKind::BecameUnavailable => unavailable_subject(e.previous->Some_0),
        _ => change_subject(e.kind == ChangeKind::PriceIncreased, e.new->Some_0),
    }
}

/// The body of an event's message.
pub open spec fn event_body(e: NotificationEvent) -> Seq<char> {
    match e.kind {
        ChangeKind::BecameUnavailable => unavailable_body(e.previous->Some_0),
        _ => change_body(e.previous, e.new->Some_0),
    }
}

/// The log line of an event.
pub open spec fn event_log(e: NotificationEvent) -> Seq<char> {
    match e.kind {
        ChangeKind::BecameUnavailable => unavailable_log(e.previous->Some_0),
        _ => change_subject(e.kind == ChangeKind::PriceIncreased, e.new->Some_0),
    }
}

/// Writes a listing, or "None", in one line.
pub fn format_product_details(product: Option<&Product>) -> (r: String)
    ensures
        product matches Some(p) ==> r@ == product_text(*p),
        product is None ==> r@ == "None"@,
{
    match product {
        Some(value) => {
            let mut s = cents_to_basic_unit(value.price.cents);
            s.append(" ");
            s.append(value.price.currency.as_str());
            s.append(" - ");
            s.append(value.user.country_code.as_str());
            s.append(" - ");
            s.append(value.name_en.as_str());
            s
        },
        None => String::from_str("None"),
    }
}

fn format_optional(product: &Option<Product>) -> (r: String)
    ensures
        r@ == optional_product_text(*product),
{
    match product {
        Some(p) => format_product_details(Some(p)),
        None => format_product_details(None),
    }
}

fn change_line(increase: bool, new: &Product) -> (r: String)
    ensures
        r@ == change_subject(increase, *new),
{
    let mut s = String::from_str("[");
    if increase {
        s.append("+");
    } else {
        s.append("-");
    }
    s.append("] ");
    s.append(format_product_details(Some(new)).as_str());
    s
}

/// The subject and body of the message for a listing that appeared or changed
/// price.
pub fn build_price_change_email(increase: bool, previous: Option<&Product>, new: &Product) -> (r: (
    String,
    String,
))
    ensures
        r.0@ == change_subject(increase, *new),
        previous matches Some(p) ==> r.1@ == change_body(Some(*p), *new),
        previous is None ==> r.1@ == change_body(None, *new),
{
    let subject = change_line(increase, new);
    let mut body = String::from_str("New:      ");
    body.append(format_product_details(Some(new)).as_str());
    body.append("\nPrevious: ");
    body.append(format_product_details(previous).as_str());
    body.append("\n");
    body.append(ApiClient::build_card_url(new.blueprint_id).as_str());
    (subject, body)
}

/// The subject and body of the message for a listing that went away.
pub fn build_not_available_anymore_email(previous: &Product) -> (r: (String, String))
    ensures
        r.0@ == unavailable_subject(*previous),
        r.1@ == unavailable_body(*previous),
{
    let mut subject = String::from_str("[0] Unavailable - ");
    subject.append(previous.name_en.as_str());
    let mut body = String::from_str("New:      None\nPrevious: ");
    body.append(format_product_details(Some(previous)).as_str());
    body.append("\n");
    body.append(ApiClient::build_card_url(previous.blueprint_id).as_str());
    (subject, body)
}

/// Notification Composer: the message and the log line for an event.
pub fn compose(event: &NotificationEvent) -> (r: Notification)
    requires
        event.well_formed(),
    ensures
        r.subject@ == event_subject(*event),
        r.body@ == event_body(*event),
        r.log_line@ == event_log(*event),
{
    match event.kind {
        ChangeKind::BecameUnavailable => {
            let previous = event.previous.as_ref().unwrap();
            let (subject, body) = build_not_available_anymore_email(previous);
            let mut log_line = String::from_str("[0] None - ");
            log_line.append(previous.name_en.as_str());
            Notification { subject, body, log_line }
        },
        _ => {
            let increase = event.kind == ChangeKind::PriceIncreased;
            let new = event.new.as_ref().unwrap();
            let (subject, body) = match &event.previous {
                Some(p) => build_price_change_email(increase, Some(p), new),
                None => build_price_change_email(increase, None, new),
            };
            let log_line = change_line(increase, new);
            Notification { subject, body, log_line }
        },
    }
}

} // verus!
