//! The messages of a conversation with a model.

use crate::actions::parser::option_view;
use crate::json::{json_string_text, write_string};
use crate::text::{from_chars, push_str, to_chars};
use vstd::prelude::*;

verus! {

/// Who speaks.
#[derive(Debug, Clone, Copy, PartialEq, Eq, Structural)]
pub enum Role {
    System,
    User,
    Assistant,
}

/// One message of a conversation: who speaks, the text, and for a user's
/// message the screenshot that goes with it, as base64 text.
#[derive(Debug, Clone, PartialEq, Eq)]
pub struct Message {
    pub role: Role,
    pub text: String,
    pub image: Option<String>,
}

/// The mathematical value of a [`Message`].
pub struct MessageView {
    pub role: Role,
    pub text: Seq<char>,
    pub image: Option<Seq<char>>,
}

impl View for Message {
    type V = MessageView;

    open spec fn view(&self) -> MessageView {
        MessageView { role: self.role, text: self.text@, image: option_view(self.image) }
    }
}

/// The values of the messages of a conversation, in order.
pub open spec fn messages_view(context: Seq<Message>) -> Seq<MessageView> {
    context.map_values(|m: Message| m@)
}

/// A message of `role` with the text `text` and no image.
pub open spec fn plain(role: Role, text: Seq<char>) -> MessageView {
    MessageView { role, text, image: None }
}

/// The description of the screen that is sent to the model: a JSON object
/// that names the application in front.
pub open spec fn screen_info(current_app: Seq<char>) -> Seq<char> {
    "{\"current_app\":"@ + (match json_string_text(current_app) {
        Some(quoted) => quoted,
        None => "\"\""@,
    }) + "}"@
}

impl Message {
    /// A copy of the message.
    pub fn duplicate(&self) -> (r: Self)
        ensures
            r@ == self@,
    {
        Message {
            role: self.role,
            text: self.text.clone(),
            image: match &self.image {
                Some(i) => Some(i.clone()),
                None => None,
            },
        }
    }
}

/// Builds the messages of a conversation.
pub struct MessageBuilder;

impl MessageBuilder {
    /// A system message.
    pub fn create_system_message(content: &str) -> (r: Message)
        ensures
            r@ == plain(Role::System, content@),
    {
        Message { role: Role::System, text: String::from_str(content), image: None }
    }

    /// A user's message, with a screenshot where there is one.
    pub fn create_user_message(text: &str, image_base64: Option<&str>) -> (r: Message)
        ensures
            r@ == (MessageView {
                role: Role::User,
                text: text@,
                image: match image_base64 {
                    Some(i) => Some(i@),
                    None => None,
                },
            }),
    {
        Message {
            role: Role::User,
            text: String::from_str(text),
            image: match image_base64 {
                Some(i) => Some(String::from_str(i)),
                None => None,
            },
        }
    }

    /// An assistant's message.
    pub fn create_assistant_message(content: &str) -> (r: Message)
        ensures
            r@ == plain(Role::Assistant, content@),
    {
        Message { role: Role::Assistant, text: String::from_str(content), image: None }
    }

    /// Takes the image out of a message, to keep the conversation small.
    pub fn remove_images_from_message(message: &mut Message)
        ensures
            final(message)@ == (MessageView { image: None, ..old(message)@ }),
    {
        message.image = None;
    }

    /// The description of the screen for the model.
    pub fn build_screen_info(current_app: &str) -> (r: String)
        ensures
            r@ == screen_info(current_app@),
    {
        let mut out = to_chars("{\"current_app\":");
        match write_string(current_app) {
            Some(quoted) => push_str(&mut out, quoted.as_str()),
            None => push_str(&mut out, "\"\""),
        }
        push_str(&mut out, "}");
        from_chars(&out)
    }
}

} // verus!
