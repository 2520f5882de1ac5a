//! The call request form and what becomes of a submission.

use crate::domain::call_request::{
    contact_name_rejection, phone_number_rejection, valid_contact_name, valid_phone_number,
    CallRequest, CallRequestContactName, CallRequestPhoneNumber, NewCallRequest,
};
use crate::flash::{
    error_message, info_message, message_html, messages_html, messages_html_shows_each,
    occurs_in, occurs_in_the_middle, render_messages, FlashMessage, FlashMessageView,
};
use crate::routes::{
    bad_request, page, see_other, Body, Response, ResponseView, BAD_REQUEST,
    INTERNAL_SERVER_ERROR, OK, SEE_OTHER,
};
use vstd::prelude::*;
use vstd::string::StringExecFns;

verus! {

/// The form page down to its heading; the pending messages follow.
pub const FORM_HEAD: &'static str =
    "<!DOCTYPE html>\n<html lang=\"en\">\n<head>\n<meta charset=\"utf-8\">\n<title>Request a call - Bubble Services</title>\n</head>\n<body>\n<h1>Request a call</h1>\n";

/// The form itself: one input for the name, one for the phone number.
pub const FORM: &'static str =
    "<form id=\"call-request-form\" action=\"/call_request\" method=\"post\">\n<label for=\"name\">Name</label>\n<input id=\"name\" type=\"text\" name=\"contact_name\">\n<label for=\"phone\">Phone number</label>\n<input id=\"phone\" type=\"tel\" name=\"phone_number\">\n<button type=\"submit\">Call me</button>\n</form>\n";

/// The end of the form page.
pub const FORM_FOOT: &'static str = "</body>\n</html>\n";

/// The form page that shows `messages`: the heading, the messages, the form.
pub open spec fn form_page(messages: Seq<FlashMessageView>) -> Seq<char> {
    FORM_HEAD@ + messages_html(messages) + FORM@ + FORM_FOOT@
}

/// The form page shows every message handed to it.
pub proof fn form_page_shows_each_message(messages: Seq<FlashMessageView>, at: int)
    requires
        0 <= at < messages.len(),
    ensures
        occurs_in(message_html(messages[at]), form_page(messages)),
{
    messages_html_shows_each(messages, at);
    occurs_in_the_middle(
        message_html(messages[at]),
        FORM_HEAD@,
        messages_html(messages),
        FORM@ + FORM_FOOT@,
    );
    assert(form_page(messages) =~= FORM_HEAD@ + messages_html(messages) + (FORM@ + FORM_FOOT@));
}

/// Every form page holds the form, whatever messages it shows.
pub proof fn form_page_holds_the_form(messages: Seq<FlashMessageView>)
    ensures
        occurs_in(FORM@, form_page(messages)),
{
    let before = FORM_HEAD@ + messages_html(messages);
    assert(FORM@.subrange(0, 0int + FORM@.len()) =~= FORM@);
    occurs_in_the_middle(FORM@, before, FORM@, FORM_FOOT@);
}

/// The call request form, with the messages that are pending for this
/// visitor.
pub fn get(messages: &Vec<FlashMessage>) -> (response: Response)
    ensures
        response@ == page(form_page(messages.deep_view())),
{
    let mut html = String::from_str(FORM_HEAD);
    let shown = render_messages(messages);
    html.append(shown.as_str());
    html.append(FORM);
    html.append(FORM_FOOT);
    Response { status: OK, location: None, flash: None, body: Body::Html(html) }
}

/// Raw call request input that needs to be parsed.
#[derive(Debug)]
pub struct CallRequestForm {
    pub phone_number: String,
    pub contact_name: String,
}

/// The fields of the call request form.
#[derive(Clone, Copy, Debug, PartialEq, Eq, Structural)]
pub enum FormField {
    PhoneNumber,
    ContactName,
}

/// Why a submitted body is no call request form at all.
#[derive(Clone, Copy, Debug, PartialEq, Eq, Structural)]
pub enum FormError {
    /// The body gives no value for the field.
    MissingField(FormField),
    /// The body gives the field a second time.
    DuplicateField(FormField),
}

/// The key under which a field is submitted.
pub open spec fn field_name(field: FormField) -> Seq<char> {
    match field {
        FormField::PhoneNumber => "phone_number"@,
        FormField::ContactName => "contact_name"@,
    }
}

/// Whether the pair at `at` gives a field of the form that an earlier pair
/// has given already.
pub open spec fn repeats(pairs: Seq<(Seq<char>, Seq<char>)>, at: int) -> bool {
    &&& 0 <= at < pairs.len()
    &&& (pairs[at].0 == field_name(FormField::PhoneNumber) || pairs[at].0 == field_name(
        FormField::ContactName,
    ))
    &&& exists|before: int| 0 <= before < at && (#[trigger] pairs[before]).0 == pairs[at].0
}

/// Whether some pair gives `field`.
pub open spec fn gives(pairs: Seq<(Seq<char>, Seq<char>)>, field: FormField) -> bool {
    exists|at: int| 0 <= at < pairs.len() && (#[trigger] pairs[at]).0 == field_name(field)
}

/// Whether some pair gives `field` the value `value`.
pub open spec fn gives_value(
    pairs: Seq<(Seq<char>, Seq<char>)>,
    field: FormField,
    value: Seq<char>,
) -> bool {
    exists|at: int|
        0 <= at < pairs.len() && #[trigger] pairs[at] == (field_name(field), value)
}

/// What is said of a body that is no call request form.
pub open spec fn form_error_text(error: FormError) -> Seq<char> {
    match error {
        FormError::MissingField(field) => "missing field `"@ + field_name(field) + "`"@,
        FormError::DuplicateField(field) => "duplicate field `"@ + field_name(field) + "`"@,
    }
}

impl FormField {
    /// The key under which this field is submitted.
    pub fn name(self) -> (key: &'static str)
        ensures
            key@ == field_name(self),
    {
        match self {
            FormField::PhoneNumber => "phone_number",
            FormField::ContactName => "contact_name",
        }
    }
}

impl FormError {
    /// What is said of the body that was turned away.
    pub fn message(&self) -> (text: String)
        ensures
            text@ == form_error_text(*self),
    {
        match self {
            FormError::MissingField(field) => {
                let mut text = String::from_str("missing field `");
                text.append(field.name());
                text.append("`");
                text
            },
            FormError::DuplicateField(field) => {
                let mut text = String::from_str("duplicate field `");
                text.append(field.name());
                text.append("`");
                text
            },
        }
    }

    /// The answer to a body that is no call request form: 400, with no
    /// redirect and no flash message.
    pub fn error_response(&self) -> (response: Response)
        ensures
            response@ == bad_request(form_error_text(*self)),
    {
        Response {
            status: BAD_REQUEST,
            location: None,
            flash: None,
            body: Body::Text(self.message()),
        }
    }
}

impl CallRequestForm {
    /// Reads the form out of the decoded pairs of a submitted body, in the
    /// order in which the body gave them. Pairs under other keys are passed
    /// over. A field given twice is an error, reported for the first pair that
    /// repeats one; otherwise a field not given is an error, the phone number
    /// before the contact name. What the fields hold plays no part here.
    pub fn from_pairs(pairs: &Vec<(String, String)>) -> (r: Result<CallRequestForm, FormError>)
        ensures
            match r {
                Ok(form) => {
                    &&& forall|at: int| !repeats(pairs.deep_view(), at)
                    &&& gives_value(pairs.deep_view(), FormField::PhoneNumber, form.phone_number@)
                    &&& gives_value(pairs.deep_view(), FormField::ContactName, form.contact_name@)
                },
                Err(FormError::DuplicateField(field)) => exists|at: int|
                    {
                        &&& #[trigger] repeats(pairs.deep_view(), at)
                        &&& pairs.deep_view()[at].0 == field_name(field)
                        &&& forall|earlier: int|
                            0 <= earlier < at ==> !repeats(pairs.deep_view(), earlier)
                    },
                Err(FormError::MissingField(field)) => {
                    &&& forall|at: int| !repeats(pairs.deep_view(), at)
                    &&& !gives(pairs.deep_view(), field)
                    &&& field == FormField::ContactName ==> gives(
                        pairs.deep_view(),
                        FormField::PhoneNumber,
                    )
                },
            },
    {
        let ghost given = pairs.deep_view();
        let phone_key = String::from_str("phone_number");
        let name_key = String::from_str("contact_name");
        proof {
            reveal_strlit("phone_number");
            reveal_strlit("contact_name");
            assert("phone_number"@[0] != "contact_name"@[0]);
        }
        let mut phone_number: Option<String> = None;
        let mut contact_name: Option<String> = None;
        let ghost mut phone_at: int = -1;
        let ghost mut name_at: int = -1;
        let mut at: usize = 0;
        while at < pairs.len()
            invariant
                at <= pairs.len(),
                given == pairs.deep_view(),
                phone_key@ == field_name(FormField::PhoneNumber),
                name_key@ == field_name(FormField::ContactName),
                phone_key@ != name_key@,
                forall|earlier: int| 0 <= earlier < at ==> !repeats(given, earlier),
                -1 <= phone_at < at,
                -1 <= name_at < at,
                phone_number is Some <==> phone_at >= 0,
                contact_name is Some <==> name_at >= 0,
                phone_number matches Some(value) ==> given[phone_at] == (phone_key@, value@),
                contact_name matches Some(value) ==> given[name_at] == (name_key@, value@),
                phone_at < 0 ==> forall|earlier: int|
                    0 <= earlier < at ==> (#[trigger] given[earlier]).0 != phone_key@,
                name_at < 0 ==> forall|earlier: int|
                    0 <= earlier < at ==> (#[trigger] given[earlier]).0 != name_key@,
            decreases pairs.len() - at,
        {
            let pair = &pairs[at];
            assert(given[at as int] == (pair.0@, pair.1@));
            if pair.0 == phone_key {
                if phone_number.is_some() {
                    assert(given[phone_at].0 == given[at as int].0);
                    assert(repeats(given, at as int));
                    return Err(FormError::DuplicateField(FormField::PhoneNumber));
                }
                phone_number = Some(pair.1.clone());
                proof {
                    phone_at = at as int;
                }
            } else if pair.0 == name_key {
                if contact_name.is_some() {
                    assert(given[name_at].0 == given[at as int].0);
                    assert(repeats(given, at as int));
                    return Err(FormError::DuplicateField(FormField::ContactName));
                }
                contact_name = Some(pair.1.clone());
                proof {
                    name_at = at as int;
                }
            }
            at += 1;
        }
        match phone_number {
            None => Err(FormError::MissingField(FormField::PhoneNumber)),
            Some(phone_number) => match contact_name {
                None => {
                    assert(given[phone_at].0 == field_name(FormField::PhoneNumber));
                    Err(FormError::MissingField(FormField::ContactName))
                },
                Some(contact_name) => {
                    assert(given[phone_at] == (
                        field_name(FormField::PhoneNumber),
                        phone_number@,
                    ));
                    assert(given[name_at] == (field_name(FormField::ContactName), contact_name@));
                    Ok(CallRequestForm { phone_number, contact_name })
                },
            },
        }
    }
}

/// Why a well-formed submission was not registered.
#[derive(Debug)]
pub enum CallRequestError {
    /// A field is out of its bounds; the text says which and quotes it.
    ValidationError(String),
    /// The store failed; the text is the store's own account, kept for the
    /// operator and never shown to the visitor.
    InsertionError(String),
}

/// A submission error as contracts see it.
pub enum CallRequestErrorView {
    ValidationError(Seq<char>),
    InsertionError(Seq<char>),
}

impl View for CallRequestError {
    type V = CallRequestErrorView;

    open spec fn view(&self) -> CallRequestErrorView {
        match self {
            CallRequestError::ValidationError(reason) => CallRequestErrorView::ValidationError(
                reason@,
            ),
            CallRequestError::InsertionError(detail) => CallRequestErrorView::InsertionError(
                detail@,
            ),
        }
    }
}

/// The first thing wrong with the fields of a form, the contact name looked
/// at before the phone number; `None` when both are within their bounds.
pub open spec fn rejection(phone_number: Seq<char>, contact_name: Seq<char>) -> Option<
    Seq<char>,
> {
    if !valid_contact_name(contact_name) {
        Some(contact_name_rejection(contact_name))
    } else if !valid_phone_number(phone_number) {
        Some(phone_number_rejection(phone_number))
    } else {
        None
    }
}

/// The class an error falls in, as an HTTP status: 400 where the visitor's
/// input is at fault, 500 where the store is.
pub open spec fn error_status(error: CallRequestErrorView) -> u16 {
    match error {
        CallRequestErrorView::ValidationError(_) => BAD_REQUEST,
        CallRequestErrorView::InsertionError(_) => INTERNAL_SERVER_ERROR,
    }
}

/// What the visitor is told of an error: the reason of a validation error as
/// it stands, of a store failure only that there was one.
pub open spec fn error_notice(error: CallRequestErrorView) -> Seq<char> {
    match error {
        CallRequestErrorView::ValidationError(reason) => reason,
        CallRequestErrorView::InsertionError(_) => "Database error!"@,
    }
}

/// The error as text: the reason of a validation error, the store's account
/// of a store failure.
pub open spec fn error_text(error: CallRequestErrorView) -> Seq<char> {
    match error {
        CallRequestErrorView::ValidationError(reason) => reason,
        CallRequestErrorView::InsertionError(detail) => detail,
    }
}

/// The answer to a registered call request: back to the home page, with the
/// confirmation as flash message.
pub open spec fn registered() -> ResponseView {
    see_other("/"@, info_message("Call request registered. You will be called soon!"@))
}

/// Whether `id` is the number of a random (version 4) UUID in the RFC 4122
/// layout: the version digit is 4 and the two variant bits are `10`.
pub open spec fn is_random_uuid(id: u128) -> bool {
    (id & 0x0000_0000_0000_f000_c000_0000_0000_0000) == 0x0000_0000_0000_4000_8000_0000_0000_0000
}

/// `Uuid::new_v4` of the uuid crate, which sqlx re-exports, converted with
/// `as_u128`. The crate draws 128 random bits from the operating system and
/// overwrites the version and variant bits, so the contract states those bits
/// and nothing of the rest. The call aborts when the system has no random
/// bytes to give.
#[verifier::external_body]
fn fresh_id() -> (id: u128)
    ensures
        is_random_uuid(id),
{
    sqlx::types::Uuid::new_v4().as_u128()
}

/// `chrono::Utc::now`, converted with `timestamp_micros`. The crate measures
/// the system clock from the Unix epoch and aborts when the clock stands
/// before it, so the count is never negative; nothing else is claimed of it.
#[verifier::external_body]
fn now_micros() -> (micros: i64)
    ensures
        micros >= 0,
{
    chrono::Utc::now().timestamp_micros()
}

impl CallRequestError {
    /// The class the error falls in: 400 for a validation error, 500 for a
    /// store failure.
    pub fn status_code(&self) -> (status: u16)
        ensures
            status == error_status(self@),
    {
        match self {
            CallRequestError::ValidationError(_) => BAD_REQUEST,
            CallRequestError::InsertionError(_) => INTERNAL_SERVER_ERROR,
        }
    }

    /// The answer to a submission that failed: back to the form, with the
    /// notice for the visitor as an error flash message.
    pub fn error_response(&self) -> (response: Response)
        ensures
            response@ == see_other("/call_request"@, error_message(error_notice(self@))),
    {
        let notice = match self {
            CallRequestError::ValidationError(reason) => reason.clone(),
            CallRequestError::InsertionError(_) => String::from_str("Database error!"),
        };
        Response {
            status: SEE_OTHER,
            location: Some(String::from_str("/call_request")),
            flash: Some(FlashMessage::error(notice)),
            body: Body::Empty,
        }
    }

    /// The error as text, for logs.
    pub fn message(&self) -> (text: String)
        ensures
            text@ == error_text(self@),
    {
        match self {
            CallRequestError::ValidationError(reason) => reason.clone(),
            CallRequestError::InsertionError(detail) => detail.clone(),
        }
    }
}

impl TryFrom<CallRequestForm> for NewCallRequest {
    type Error = String;

    /// Validates both fields of the form, the contact name first. Succeeds
    /// exactly when both are within their bounds, and then keeps both texts
    /// as they came; fails with the rejection of the first field that is not.
    fn try_from(value: CallRequestForm) -> (r: Result<Self, Self::Error>)
        ensures
            match rejection(value.phone_number@, value.contact_name@) {
                Some(reason) => r matches Err(text) && text@ == reason,
                None => r matches Ok(request) && request.phone_number@ == value.phone_number@
                    && request.contact_name@ == value.contact_name@,
            },
    {
        let contact_name = match CallRequestContactName::parse(value.contact_name) {
            Ok(contact_name) => contact_name,
            Err(reason) => {
                return Err(reason);
            },
        };
        let phone_number = match CallRequestPhoneNumber::parse(value.phone_number) {
            Ok(phone_number) => phone_number,
            Err(reason) => {
                return Err(reason);
            },
        };
        Ok(NewCallRequest { phone_number, contact_name })
    }
}

/// The contract of `try_from` stands on the function itself and speaks of
/// the texts, not of the `String`s that hold them. No specification can name
/// the `String` of an error, so the conversion claims no spec function as
/// its meaning.
impl vstd::std_specs::convert::TryFromSpecImpl<CallRequestForm> for NewCallRequest {
    open spec fn obeys_try_from_spec() -> bool {
        false
    }

    open spec fn try_from_spec(value: CallRequestForm) -> Result<Self, Self::Error> {
        arbitrary()
    }
}

/// Takes in a submitted form. When both fields are within their bounds, the
/// row to write to the store comes back: the two texts as submitted, a fresh
/// random identifier and the current time. Otherwise the validation error
/// comes back, and no identifier is drawn.
pub fn post(form: CallRequestForm) -> (r: Result<CallRequest, CallRequestError>)
    ensures
        match rejection(form.phone_number@, form.contact_name@) {
            Some(reason) => r matches Err(error) && error@
                == CallRequestErrorView::ValidationError(reason),
            None => r matches Ok(row) && row.phone_number@ == form.phone_number@
                && row.contact_name@ == form.contact_name@ && is_random_uuid(row.id)
                && row.created_at >= 0,
        },
{
    match NewCallRequest::try_from(form) {
        Ok(request) => Ok(CallRequest::new(request, fresh_id(), now_micros())),
        Err(reason) => Err(CallRequestError::ValidationError(reason)),
    }
}

/// Closes a submission once the store has answered the single attempt to
/// write its row: the confirmation when the row was written, the store
/// failure, with the store's account of it, when it was not.
pub fn conclude(stored: Result<(), String>) -> (r: Result<Response, CallRequestError>)
    ensures
        match stored {
            Ok(_) => r matches Ok(response) && response@ == registered(),
            Err(detail) => r matches Err(error) && error@ == CallRequestErrorView::InsertionError(
                detail@,
            ),
        },
{
    match stored {
        Ok(_) => Ok(
            Response {
                status: SEE_OTHER,
                location: Some(String::from_str("/")),
                flash: Some(
                    FlashMessage::info(
                        String::from_str("Call request registered. You will be called soon!"),
                    ),
                ),
                body: Body::Empty,
            },
        ),
        Err(detail) => Err(CallRequestError::InsertionError(detail)),
    }
}

} // verus!
