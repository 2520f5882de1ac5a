use bubble_services::domain::call_request::NewCallRequest;
use bubble_services::flash::{FlashMessage, Level};
use bubble_services::routes::call_request::{
    conclude, get, post, CallRequestError, CallRequestForm, FormError, FormField,
};
use bubble_services::routes::{healthcheck, home, login, Body, Response};
use scraper::{ElementRef, Html, Selector};

fn pairs(given: &[(&str, &str)]) -> Vec<(String, String)> {
    given
        .iter()
        .map(|(key, value)| (key.to_string(), value.to_string()))
        .collect()
}

fn form(phone_number: &str, contact_name: &str) -> CallRequestForm {
    CallRequestForm {
        phone_number: phone_number.to_string(),
        contact_name: contact_name.to_string(),
    }
}

fn count(text: &str, part: &str) -> usize {
    text.matches(part).count()
}

fn assert_is_redirect_to(response: &Response, location: &str) {
    assert_eq!(response.status, 303);
    assert_eq!(response.location.as_deref(), Some(location));
}

#[test]
fn home_should_have_link_to_call_request() {
    let response = home(&vec![]);

    assert!((200..300).contains(&response.status));

    let link_selector = Selector::parse("a[id='call-request-link']").unwrap();
    let page_doc = Html::parse_document(response.body.text());

    let call_request_link: Vec<ElementRef> = page_doc.select(&link_selector).collect();

    assert!(
        !call_request_link.is_empty(),
        "There should be at least one call request link."
    );

    for link in call_request_link {
        let href = link.attr("href");
        assert!(href.is_some_and(|href| href == "/call_request"))
    }
}

#[test]
fn call_request_page_should_have_form() {
    let response = get(&vec![]);

    assert!((200..300).contains(&response.status));

    let form_selector = Selector::parse("form#call-request-form").unwrap();
    let phone_input_selector = Selector::parse("input#phone").unwrap();
    let name_input_selector = Selector::parse("input#name").unwrap();
    let page_doc = Html::parse_document(response.body.text());

    let call_request_forms: Vec<ElementRef> = page_doc.select(&form_selector).collect();
    assert!(
        !call_request_forms.is_empty(),
        "There should be at least one call request form!"
    );
    for form in call_request_forms {
        assert!(
            form.select(&phone_input_selector).count() == 1,
            "There should be one phone input"
        );
        assert!(
            form.select(&name_input_selector).count() == 1,
            "There should be one name input"
        );
    }
}

#[test]
fn call_request_form_posts_both_fields_to_the_submission_route() {
    let response = get(&vec![]);
    let page_doc = Html::parse_document(response.body.text());
    let form_selector = Selector::parse("form#call-request-form").unwrap();
    let forms: Vec<ElementRef> = page_doc.select(&form_selector).collect();
    assert_eq!(forms.len(), 1);
    assert_eq!(forms[0].attr("action"), Some("/call_request"));
    assert_eq!(forms[0].attr("method"), Some("post"));
    let phone = Selector::parse("input#phone").unwrap();
    let name = Selector::parse("input#name").unwrap();
    assert_eq!(
        forms[0].select(&phone).next().unwrap().attr("name"),
        Some("phone_number")
    );
    assert_eq!(
        forms[0].select(&name).next().unwrap().attr("name"),
        Some("contact_name")
    );
}

#[test]
fn pages_are_well_formed_whatever_a_message_says() {
    let hostile = "</h2><a id='call-request-link' href=\"//elsewhere\">x</a><script>&amp;";
    let messages = vec![FlashMessage::error(hostile.to_string())];
    let heading = Selector::parse("h2").unwrap();
    let link = Selector::parse("a[id='call-request-link']").unwrap();
    let script = Selector::parse("script").unwrap();
    for response in [home(&messages), get(&messages), login::get(&messages)] {
        let page_doc = Html::parse_document(response.body.text());
        let headings: Vec<ElementRef> = page_doc.select(&heading).collect();
        assert_eq!(headings.len(), 1);
        assert_eq!(headings[0].text().collect::<String>(), hostile);
        assert_eq!(headings[0].attr("class"), Some("error"));
        assert_eq!(page_doc.select(&script).count(), 0);
        for anchor in page_doc.select(&link) {
            assert_eq!(anchor.attr("href"), Some("/call_request"));
        }
    }
}

#[test]
fn malformed_call_requests_are_rejected() {
    let test_cases = vec![
        (
            pairs(&[("phone_number", "320 406 7090")]),
            "missing contact_name",
        ),
        (
            pairs(&[("contact_name", "Gregory Sech")]),
            "missing phone_number",
        ),
        (pairs(&[]), "empty body"),
    ];
    for (body, description) in test_cases {
        let response = match CallRequestForm::from_pairs(&body) {
            Ok(_) => panic!("The form was read when the payload was {}", description),
            Err(error) => error.error_response(),
        };
        assert!(
            response.status == 400,
            "The API did not return BAD_REQUEST when the payload was {}",
            description
        );
    }
}

#[test]
fn bad_call_requests_redirect_and_display_error() {
    let test_cases = vec![
        (
            pairs(&[("phone_number", "320 406 7090"), ("contact_name", "a")]),
            "bad contact_name",
        ),
        (
            pairs(&[("contact_name", "Gregory Sech"), ("phone_number", "3")]),
            "bad phone_number",
        ),
    ];
    for (body, description) in test_cases {
        let form = CallRequestForm::from_pairs(&body).unwrap();
        let err_response = match post(form) {
            Ok(_) => panic!("The form was accepted for test case {}", description),
            Err(error) => error.error_response(),
        };
        assert_is_redirect_to(&err_response, "/call_request");
        let response = get(&vec![err_response.flash.unwrap()]);
        let response_text = response.body.text();
        assert!(response_text.contains("h2"),);
    }
}

#[test]
fn submitting_call_request_form_adds_it_to_db() {
    let body = pairs(&[
        ("phone_number", "321 456 7891"),
        ("contact_name", "Rino Pape"),
    ]);
    let form = CallRequestForm::from_pairs(&body).unwrap();
    let saved = post(form).unwrap();
    let response = conclude(Ok(())).unwrap();
    assert_is_redirect_to(&response, "/");

    assert_eq!(saved.phone_number.as_ref(), "321 456 7891");
    assert_eq!(saved.contact_name.as_ref(), "Rino Pape");
}

#[test]
fn health_check_works() {
    let response = healthcheck();

    assert!((200..300).contains(&response.status));
}

#[test]
fn health_check_answers_200_with_nothing_else() {
    let response = healthcheck();
    assert_eq!(response.status, 200);
    assert_eq!(response.location, None);
    assert!(response.flash.is_none());
    assert!(matches!(response.body, Body::Empty));
    assert_eq!(response.body.text(), "");
}

#[test]
fn missing_phone_number_is_structural_even_when_the_name_is_bad() {
    let body = pairs(&[("contact_name", "a")]);
    let error = CallRequestForm::from_pairs(&body).unwrap_err();
    assert_eq!(error, FormError::MissingField(FormField::PhoneNumber));
    let response = error.error_response();
    assert_eq!(response.status, 400);
    assert_eq!(response.location, None);
    assert!(response.flash.is_none());
    assert!(matches!(&response.body, Body::Text(reason) if reason == "missing field `phone_number`"));
    assert_eq!(response.body.text(), "missing field `phone_number`");
}

#[test]
fn missing_fields_are_reported_phone_number_first() {
    assert_eq!(
        CallRequestForm::from_pairs(&pairs(&[])).unwrap_err(),
        FormError::MissingField(FormField::PhoneNumber)
    );
    assert_eq!(
        CallRequestForm::from_pairs(&pairs(&[("phone_number", "320 406 7090")])).unwrap_err(),
        FormError::MissingField(FormField::ContactName)
    );
    assert_eq!(
        CallRequestForm::from_pairs(&pairs(&[("contact_name", "Gregory Sech")])).unwrap_err(),
        FormError::MissingField(FormField::PhoneNumber)
    );
    assert_eq!(
        CallRequestForm::from_pairs(&pairs(&[("Phone_Number", "320 406 7090"), ("name", "x")]))
            .unwrap_err(),
        FormError::MissingField(FormField::PhoneNumber)
    );
}

#[test]
fn repeated_fields_are_rejected() {
    let body = pairs(&[
        ("phone_number", "320 406 7090"),
        ("contact_name", "Gregory Sech"),
        ("contact_name", "Rino Pape"),
        ("phone_number", "321 456 7891"),
    ]);
    assert_eq!(
        CallRequestForm::from_pairs(&body).unwrap_err(),
        FormError::DuplicateField(FormField::ContactName)
    );
    let body = pairs(&[("phone_number", "1"), ("phone_number", "1")]);
    let error = CallRequestForm::from_pairs(&body).unwrap_err();
    assert_eq!(error, FormError::DuplicateField(FormField::PhoneNumber));
    assert_eq!(error.message(), "duplicate field `phone_number`");
    assert_eq!(error.error_response().status, 400);
}

#[test]
fn form_error_messages() {
    assert_eq!(
        FormError::MissingField(FormField::PhoneNumber).message(),
        "missing field `phone_number`"
    );
    assert_eq!(
        FormError::MissingField(FormField::ContactName).message(),
        "missing field `contact_name`"
    );
    assert_eq!(
        FormError::DuplicateField(FormField::ContactName).message(),
        "duplicate field `contact_name`"
    );
    assert_eq!(FormField::PhoneNumber.name(), "phone_number");
    assert_eq!(FormField::ContactName.name(), "contact_name");
}

#[test]
fn other_keys_are_passed_over_and_order_is_free() {
    let body = pairs(&[
        ("utm_source", "mail"),
        ("contact_name", "Rino Pape"),
        ("", ""),
        ("phone_number", "321 456 7891"),
        ("utm_source", "again"),
    ]);
    let form = CallRequestForm::from_pairs(&body).unwrap();
    assert_eq!(form.phone_number, "321 456 7891");
    assert_eq!(form.contact_name, "Rino Pape");
}

#[test]
fn valid_phone_with_bad_name_redirects_with_error_flash() {
    let error = match post(form("320 406 7090", "a")) {
        Ok(_) => panic!("a one-character name was accepted"),
        Err(error) => error,
    };
    assert!(matches!(&error, CallRequestError::ValidationError(reason) if reason == "Invalid contact name: a"));
    assert_eq!(error.status_code(), 400);
    assert_eq!(error.message(), "Invalid contact name: a");
    let response = error.error_response();
    assert_eq!(response.status, 303);
    assert_eq!(response.location.as_deref(), Some("/call_request"));
    assert!(matches!(response.body, Body::Empty));
    let flash = response.flash.unwrap();
    assert_eq!(flash.level(), Level::Error);
    assert_eq!(flash.content(), "Invalid contact name: a");
    let page = get(&vec![flash]);
    assert_eq!(page.status, 200);
    assert!(page
        .body
        .text()
        .contains("<h2 class=\"error\">Invalid contact name: a</h2>"));
}

#[test]
fn bad_phone_number_is_reported_when_the_name_is_good() {
    let error = match post(form("3", "Gregory Sech")) {
        Ok(_) => panic!("a one-character phone number was accepted"),
        Err(error) => error,
    };
    assert_eq!(error.message(), "Invalid phone number: 3");
    assert_eq!(error.status_code(), 400);
    let flash = error.error_response().flash.unwrap();
    assert_eq!(flash.content(), "Invalid phone number: 3");
}

#[test]
fn contact_name_is_checked_before_phone_number() {
    let error = match post(form("3", "a")) {
        Ok(_) => panic!("two bad fields were accepted"),
        Err(error) => error,
    };
    assert_eq!(error.message(), "Invalid contact name: a");
    let reason = match NewCallRequest::try_from(form("3", "a")) {
        Ok(_) => panic!("two bad fields were accepted"),
        Err(reason) => reason,
    };
    assert_eq!(reason, "Invalid contact name: a");
}

#[test]
fn try_from_keeps_both_fields() {
    let request = match NewCallRequest::try_from(form("321 456 7891", "Rino Pape")) {
        Ok(request) => request,
        Err(reason) => panic!("{}", reason),
    };
    assert_eq!(request.phone_number.as_ref(), "321 456 7891");
    assert_eq!(request.contact_name.as_ref(), "Rino Pape");
    let reason = match NewCallRequest::try_from(form("321 456 7891 0", "Rino Pape")) {
        Ok(_) => panic!("a phone number of 14 characters was accepted"),
        Err(reason) => reason,
    };
    assert_eq!(reason, "Invalid phone number: 321 456 7891 0");
}

#[test]
fn accepted_submission_gets_random_identifier_and_current_time() {
    let first = post(form("321 456 7891", "Rino Pape")).unwrap();
    let second = post(form("321 456 7891", "Rino Pape")).unwrap();
    for row in [&first, &second] {
        // Version 4, RFC 4122 variant.
        assert_eq!((row.id >> 76) & 0xf, 4);
        assert_eq!((row.id >> 62) & 0x3, 2);
        // After 2020-01-01 and before 2200-01-01, in microseconds.
        assert!(row.created_at > 1_577_836_800_000_000);
        assert!(row.created_at < 7_258_118_400_000_000);
    }
    // Equal phone numbers are accepted again, under another identifier.
    assert_ne!(first.id, second.id);
    assert!(first.created_at <= second.created_at);
}

#[test]
fn registered_request_redirects_home_with_confirmation() {
    let response = conclude(Ok(())).unwrap();
    assert_eq!(response.status, 303);
    assert_eq!(response.location.as_deref(), Some("/"));
    assert!(matches!(response.body, Body::Empty));
    let flash = response.flash.unwrap();
    assert_eq!(flash.level(), Level::Info);
    assert_eq!(
        flash.content(),
        "Call request registered. You will be called soon!"
    );
    let page = home(&vec![flash]);
    assert!(page
        .body
        .text()
        .contains("<h2 class=\"info\">Call request registered. You will be called soon!</h2>"));
}

#[test]
fn store_failure_is_reported_without_its_detail() {
    let detail = "error returned from database: relation \"call_requests\" does not exist";
    let error = match conclude(Err(detail.to_string())) {
        Ok(_) => panic!("a failed insert was confirmed"),
        Err(error) => error,
    };
    assert!(matches!(&error, CallRequestError::InsertionError(kept) if kept == detail));
    assert_eq!(error.status_code(), 500);
    assert_eq!(error.message(), detail);
    let response = error.error_response();
    assert_eq!(response.status, 303);
    assert_eq!(response.location.as_deref(), Some("/call_request"));
    let flash = response.flash.unwrap();
    assert_eq!(flash.level(), Level::Error);
    assert_eq!(flash.content(), "Database error!");
}

#[test]
fn home_page_text() {
    let response = home(&vec![FlashMessage::info("Welcome <back>".to_string())]);
    assert_eq!(response.status, 200);
    assert_eq!(response.location, None);
    assert!(response.flash.is_none());
    assert!(matches!(response.body, Body::Html(_)));
    assert_eq!(
        response.body.text(),
        "<!DOCTYPE html>\n<html lang=\"en\">\n<head>\n<meta charset=\"utf-8\">\n<title>Bubble Services</title>\n</head>\n<body>\n<h1>Bubble Services</h1>\n<h2 class=\"info\">Welcome &lt;back&gt;</h2>\n<nav>\n<a id=\"call-request-link\" href=\"/call_request\">Request a call</a>\n<a id=\"login-link\" href=\"/login\">Login</a>\n</nav>\n</body>\n</html>\n"
    );
}

#[test]
fn pages_show_pending_messages_in_order() {
    let messages = vec![
        FlashMessage::error("first".to_string()),
        FlashMessage::info("second".to_string()),
    ];
    let shown = "<h2 class=\"error\">first</h2>\n<h2 class=\"info\">second</h2>\n";
    assert_eq!(count(home(&messages).body.text(), shown), 1);
    assert_eq!(count(get(&messages).body.text(), shown), 1);
    assert_eq!(count(login::get(&messages).body.text(), shown), 1);
    assert_eq!(count(home(&vec![]).body.text(), "<h2"), 0);
    assert_eq!(count(get(&vec![]).body.text(), "<h2"), 0);
    assert_eq!(count(login::get(&vec![]).body.text(), "<h2"), 0);
}

#[test]
fn login_page_is_served() {
    let response = login::get(&vec![]);
    assert_eq!(response.status, 200);
    assert!(response.body.text().contains("<h1>Login</h1>"));
    assert!(response
        .body
        .text()
        .contains("<a id=\"home-link\" href=\"/\">"));
}
