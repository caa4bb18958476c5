use backend::contact::{
    contact_after_send, contact_handler, format_relay_text, ContactForm, ContactReply,
    ContactStep, Delivery,
};
use backend::http::{is_success, Method, Pair};

fn form() -> ContactForm {
    ContactForm {
        name: "Ada".to_string(),
        email: "ada@example.org".to_string(),
        message: "Hello\nthere".to_string(),
    }
}

fn refused(error: &str) -> ContactReply {
    ContactReply { success: "false".to_string(), error: Some(error.to_string()) }
}

fn pair(name: &str, value: &str) -> Pair {
    Pair { name: name.to_string(), value: value.to_string() }
}

#[test]
fn missing_credentials_are_refused() {
    let refusal = ContactStep::Respond(refused("Telegram credentials missing"));
    assert_eq!(contact_handler("", "42", &form()), refusal);
    assert_eq!(contact_handler("123:abc", "", &form()), refusal);
    assert_eq!(contact_handler("", "", &form()), refusal);
}

#[test]
fn upstream_refusal_carries_its_body() {
    let delivery = Delivery::Answered { status: 400, body: "Bad Request".to_string() };
    assert_eq!(contact_after_send(&delivery), refused("Telegram API error: Bad Request"));
}

#[test]
fn upstream_refusal_with_empty_body() {
    let delivery = Delivery::Answered { status: 500, body: String::new() };
    assert_eq!(contact_after_send(&delivery), refused("Telegram API error: "));
}

#[test]
fn transport_failure_is_refused() {
    assert_eq!(contact_after_send(&Delivery::Failed), refused("Failed to send message"));
}

#[test]
fn delivery_is_confirmed_as_text() {
    let delivery = Delivery::Answered { status: 200, body: "{\"ok\":true}".to_string() };
    assert_eq!(
        contact_after_send(&delivery),
        ContactReply { success: "true".to_string(), error: None }
    );
}

#[test]
fn success_is_the_class_of_two_hundred() {
    for status in [200u16, 201, 204, 299] {
        assert!(is_success(status));
        let delivery = Delivery::Answered { status, body: "x".to_string() };
        assert_eq!(contact_after_send(&delivery).success, "true");
    }
    for status in [0u16, 100, 199, 300, 301, 404, 500, u16::MAX] {
        assert!(!is_success(status));
        let delivery = Delivery::Answered { status, body: "x".to_string() };
        assert_eq!(contact_after_send(&delivery), refused("Telegram API error: x"));
    }
}

#[test]
fn relay_text_lays_out_the_form() {
    assert_eq!(
        format_relay_text(&form()),
        "Nuovo Contatto dal Sito*\n\n *Nome:* Ada\n *Email:* ada@example.org\n *Messaggio:* \nHello\nthere"
    );
}

#[test]
fn relay_text_of_an_empty_form() {
    let empty = ContactForm { name: String::new(), email: String::new(), message: String::new() };
    assert_eq!(
        format_relay_text(&empty),
        "Nuovo Contatto dal Sito*\n\n *Nome:* \n *Email:* \n *Messaggio:* \n"
    );
}

#[test]
fn credentials_lead_to_the_send_request() {
    match contact_handler("123:abc", "42", &form()) {
        ContactStep::Send(request) => {
            assert_eq!(request.method, Method::Post);
            assert_eq!(request.url, "https://api.telegram.org/bot123:abc/sendMessage");
            assert!(request.headers.is_empty());
            assert_eq!(
                request.form,
                vec![
                    pair("chat_id", "42"),
                    pair("text", &format_relay_text(&form())),
                    pair("parse_mode", "Markdown"),
                ]
            );
        }
        other => panic!("unexpected {other:?}"),
    }
}
