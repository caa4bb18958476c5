//! The contact relay: a submitted form is laid out as one text and sent to
//! a messaging bot, and the bot's answer decides the reply.

use vstd::prelude::*;
use crate::http::{
    is_success,
    success_status,
    Method,
    OutboundRequest,
    OutboundRequestModel,
    Pair,
    PairModel,
};
use crate::text::text_join;

verus! {

/// A submitted contact form. Its fields are relayed as they came.
#[derive(Clone, Debug, PartialEq, Eq)]
pub struct ContactForm {
    pub name: String,
    pub email: String,
    pub message: String,
}

/// What a [`ContactForm`] holds.
pub struct ContactFormModel {
    pub name: Seq<char>,
    pub email: Seq<char>,
    pub message: Seq<char>,
}

impl View for ContactForm {
    type V = ContactFormModel;

    open spec fn view(&self) -> ContactFormModel {
        ContactFormModel { name: self.name@, email: self.email@, message: self.message@ }
    }
}

/// The reply to a submission. `success` is served as a text, `"true"` or
/// `"false"`, never as a boolean; `error` is served only where it is given.
#[derive(Clone, Debug, PartialEq, Eq)]
pub struct ContactReply {
    pub success: String,
    pub error: Option<String>,
}

/// What a [`ContactReply`] holds.
pub struct ContactReplyModel {
    pub success: Seq<char>,
    pub error: Option<Seq<char>>,
}

impl View for ContactReply {
    type V = ContactReplyModel;

    open spec fn view(&self) -> ContactReplyModel {
        ContactReplyModel { success: self.success@, error: self.error.deep_view() }
    }
}

/// What a handler step asks of its caller: send a request upstream and
/// come back with the outcome, or serve a reply and stop.
#[derive(Clone, Debug, PartialEq, Eq)]
pub enum ContactStep {
    Send(OutboundRequest),
    Respond(ContactReply),
}

/// What a [`ContactStep`] holds.
pub enum ContactStepModel {
    Send(OutboundRequestModel),
    Respond(ContactReplyModel),
}

impl View for ContactStep {
    type V = ContactStepModel;

    open spec fn view(&self) -> ContactStepModel {
        match self {
            ContactStep::Send(request) => ContactStepModel::Send(request@),
            ContactStep::Respond(reply) => ContactStepModel::Respond(reply@),
        }
    }
}

/// How sending the message ended.
#[derive(Clone, Debug, PartialEq, Eq)]
pub enum Delivery {
    /// The bot service answered. `body` is the text of its answer, empty
    /// where the text could not be read.
    Answered { status: u16, body: String },
    /// The bot service could not be reached.
    Failed,
}

/// What a [`Delivery`] holds.
pub enum DeliveryModel {
    Answered { status: u16, body: Seq<char> },
    Failed,
}

impl View for Delivery {
    type V = DeliveryModel;

    open spec fn view(&self) -> DeliveryModel {
        match self {
            Delivery::Answered { status, body } => DeliveryModel::Answered {
                status: *status,
                body: body@,
            },
            Delivery::Failed => DeliveryModel::Failed,
        }
    }
}

/// The reply to a submission that was relayed.
pub open spec fn delivered() -> ContactReplyModel {
    ContactReplyModel { success: "true"@, error: None }
}

/// The reply to a submission that was not relayed, with the reason.
pub open spec fn refused(error: Seq<char>) -> ContactReplyModel {
    ContactReplyModel { success: "false"@, error: Some(error) }
}

/// The text that is sent for a form.
pub open spec fn relay_text(form: ContactFormModel) -> Seq<char> {
    "Nuovo Contatto dal Sito*\n\n *Nome:* "@ + form.name + "\n *Email:* "@ + form.email
        + "\n *Messaggio:* \n"@ + form.message
}

/// The send-message call of the bot identified by `token`, to the chat
/// `chat_id`, with the text of `form`.
pub open spec fn relay_request(
    token: Seq<char>,
    chat_id: Seq<char>,
    form: ContactFormModel,
) -> OutboundRequestModel {
    OutboundRequestModel {
        method: Method::Post,
        url: "https://api.telegram.org/bot"@ + token + "/sendMessage"@,
        headers: Seq::empty(),
        form: seq![
            PairModel { name: "chat_id"@, value: chat_id },
            PairModel { name: "text"@, value: relay_text(form) },
            PairModel { name: "parse_mode"@, value: "Markdown"@ },
        ],
    }
}

/// The first step: without the bot's token or the chat, the refusal;
/// with both, the request to send. A value that is not configured reaches
/// the handler as the empty text.
pub open spec fn contact_first_step(
    token: Seq<char>,
    chat_id: Seq<char>,
    form: ContactFormModel,
) -> ContactStepModel {
    if token.len() == 0 || chat_id.len() == 0 {
        ContactStepModel::Respond(refused("Telegram credentials missing"@))
    } else {
        ContactStepModel::Send(relay_request(token, chat_id, form))
    }
}

/// The reply after sending: success under a status from 200 to 299; under
/// any other status the bot's answer, behind a fixed prefix; a fixed error
/// where the bot could not be reached.
pub open spec fn reply_after_send(delivery: DeliveryModel) -> ContactReplyModel {
    match delivery {
        DeliveryModel::Answered { status, body } => {
            if success_status(status) {
                delivered()
            } else {
                refused("Telegram API error: "@ + body)
            }
        },
        DeliveryModel::Failed => refused("Failed to send message"@),
    }
}

/// Lays out the text that is sent for `form`.
pub fn format_relay_text(form: &ContactForm) -> (text: String)
    ensures
        text@ == relay_text(form@),
{
    let mut text = String::from_str("Nuovo Contatto dal Sito*\n\n *Nome:* ");
    text.append(form.name.as_str());
    text.append("\n *Email:* ");
    text.append(form.email.as_str());
    text.append("\n *Messaggio:* \n");
    text.append(form.message.as_str());
    text
}

/// Starts the relay of `form`: checks the configured credentials and
/// builds the request to send.
pub fn contact_handler(token: &str, chat_id: &str, form: &ContactForm) -> (step: ContactStep)
    ensures
        step@ == contact_first_step(token@, chat_id@, form@),
{
    if token.is_empty() || chat_id.is_empty() {
        return ContactStep::Respond(
            ContactReply {
                success: String::from_str("false"),
                error: Some(String::from_str("Telegram credentials missing")),
            },
        );
    }
    let text = format_relay_text(form);
    let mut url = String::from_str("https://api.telegram.org/bot");
    url.append(token);
    url.append("/sendMessage");
    let mut fields: Vec<Pair> = Vec::new();
    fields.push(Pair::new("chat_id", chat_id));
    fields.push(Pair::new("text", text.as_str()));
    fields.push(Pair::new("parse_mode", "Markdown"));
    let request = OutboundRequest { method: Method::Post, url, headers: Vec::new(), form: fields };
    proof {
        let wanted = relay_request(token@, chat_id@, form@);
        assert(request@.headers =~= wanted.headers);
        assert(request@.form =~= wanted.form);
    }
    ContactStep::Send(request)
}

/// Ends the relay with the outcome of sending.
pub fn contact_after_send(delivery: &Delivery) -> (reply: ContactReply)
    ensures
        reply@ == reply_after_send(delivery@),
{
    match delivery {
        Delivery::Answered { status, body } => {
            if is_success(*status) {
                ContactReply { success: String::from_str("true"), error: None }
            } else {
                ContactReply {
                    success: String::from_str("false"),
                    error: Some(text_join("Telegram API error: ", body.as_str())),
                }
            }
        },
        Delivery::Failed => ContactReply {
            success: String::from_str("false"),
            error: Some(String::from_str("Failed to send message")),
        },
    }
}

} // verus!
