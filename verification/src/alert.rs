//! Out-of-stock alerts: the notice placed in the alert event, reading the
//! event back, and the e-mail text sent to the administrator.

use vstd::prelude::*;
use crate::text::join3;
use crate::order::opt_string_view;

verus! {

#[verifier::external_type_specification]
#[verifier::external_body]
pub struct ExJsonValue(serde_json::Value);

#[verifier::external_type_specification]
#[verifier::external_body]
pub struct ExJsonError(serde_json::Error);

/// Name for whether `serde_json::from_str::<Value>` accepts a text as JSON.
pub uninterp spec fn json_is_well_formed(text: Seq<char>) -> bool;

/// `serde_json::from_str::<serde_json::Value>`. Claims only that it
/// succeeds exactly on the texts named well-formed; the parsed value is
/// opaque here.
#[verifier::external_body]
fn parse_json(text: &str) -> (r: Result<serde_json::Value, serde_json::Error>)
    ensures
        r is Ok == json_is_well_formed(text@),
{
    serde_json::from_str(text)
}

/// Name for the member `key` of the JSON text `text` read as a string:
/// its text when `text` is a JSON object holding a string member under
/// `key`, `None` when the member is missing or holds another kind of value.
pub uninterp spec fn json_string_member(text: Seq<char>, key: Seq<char>) -> Option<Seq<char>>;

/// `serde_json::from_str::<Value>` followed by `Value::get(key)`, with the
/// member's string variant told apart from the others. Claims: the result
/// is the member named by `json_string_member`, and there is none where the
/// text does not parse (`from_str` fails, so no member is looked up).
#[verifier::external_body]
fn json_member_text(text: &str, key: &str) -> (r: Option<String>)
    ensures
        opt_string_view(r) == json_string_member(text@, key@),
        !json_is_well_formed(text@) ==> r is None,
{
    match serde_json::from_str::<serde_json::Value>(text) {
        Ok(v) => match v.get(key) {
            Some(serde_json::Value::String(s)) => Some(s.clone()),
            _ => None,
        },
        Err(_) => None,
    }
}

/// The notice an out-of-stock event carries.
pub fn out_of_stock_notice() -> (r: &'static str)
    ensures
        r@ == "Product is out of stock. Please restock."@,
{
    "Product is out of stock. Please restock."
}

/// The subject of the alert e-mail.
pub fn alert_subject() -> (r: &'static str)
    ensures
        r@ == " Product Out of Stock Alert"@,
{
    " Product Out of Stock Alert"
}

/// The text fields read from an out-of-stock event; a field that is
/// missing or not a JSON string is `None`.
#[derive(Clone, Debug, PartialEq, Eq)]
pub struct StockAlertFields {
    pub message: Option<String>,
    pub product_id: Option<String>,
    pub product_name: Option<String>,
    pub remaining_stock: Option<String>,
}

/// A field's text, or "Unknown" when it is absent.
pub open spec fn field_or_unknown(f: Option<String>) -> Seq<char> {
    match f {
        Some(s) => s@,
        None => "Unknown"@,
    }
}

/// The alert e-mail body.
pub open spec fn alert_email_text(
    message: Seq<char>,
    product_id: Seq<char>,
    product_name: Seq<char>,
    remaining_stock: Seq<char>,
) -> Seq<char> {
    " "@ + message + " , product id : "@ + product_id + ", product name: "@ + product_name
        + ", remaining_stock :"@ + remaining_stock + " "@
}

fn text_or_unknown(f: &Option<String>) -> (r: &str)
    ensures
        r@ == field_or_unknown(*f),
{
    match f {
        Some(s) => s.as_str(),
        None => "Unknown",
    }
}

/// The alert e-mail body for the fields of an event, each missing field
/// written as "Unknown".
pub fn stock_alert_email(fields: &StockAlertFields) -> (r: String)
    ensures
        r@ == alert_email_text(
            field_or_unknown(fields.message),
            field_or_unknown(fields.product_id),
            field_or_unknown(fields.product_name),
            field_or_unknown(fields.remaining_stock),
        ),
{
    let a = join3(" ", text_or_unknown(&fields.message), " , product id : ");
    let b = join3(a.as_str(), text_or_unknown(&fields.product_id), ", product name: ");
    let c = join3(b.as_str(), text_or_unknown(&fields.product_name), ", remaining_stock :");
    let d = join3(c.as_str(), text_or_unknown(&fields.remaining_stock), " ");
    d
}

/// Why an out-of-stock event could not be read.
#[derive(Clone, Copy, Debug, PartialEq, Eq, Structural)]
pub enum AlertReadError {
    /// The payload is not JSON.
    MalformedJson,
}

/// Reads an out-of-stock event: fails exactly when the payload is not
/// JSON; otherwise the string members `message`, `product_id`,
/// `product_name` and `remaining_stock` (each `None` when missing or not
/// a JSON string).
pub fn read_stock_alert(payload: &str) -> (r: Result<StockAlertFields, AlertReadError>)
    ensures
        r is Ok == json_is_well_formed(payload@),
        r matches Err(e) ==> e == AlertReadError::MalformedJson,
        r matches Ok(f) ==> {
            &&& opt_string_view(f.message) == json_string_member(payload@, "message"@)
            &&& opt_string_view(f.product_id) == json_string_member(payload@, "product_id"@)
            &&& opt_string_view(f.product_name) == json_string_member(payload@, "product_name"@)
            &&& opt_string_view(f.remaining_stock) == json_string_member(payload@, "remaining_stock"@)
        },
{
    match parse_json(payload) {
        Ok(_) => Ok(StockAlertFields {
            message: json_member_text(payload, "message"),
            product_id: json_member_text(payload, "product_id"),
            product_name: json_member_text(payload, "product_name"),
            remaining_stock: json_member_text(payload, "remaining_stock"),
        }),
        Err(_) => Err(AlertReadError::MalformedJson),
    }
}

} // verus!
