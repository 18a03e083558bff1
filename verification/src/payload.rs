//! The values exchanged with the completion endpoint.

use vstd::prelude::*;

verus! {

/// One turn of a chat.
#[derive(Clone, Debug, PartialEq, Eq)]
pub struct Message {
    pub role: String,
    pub content: String,
}

/// The body of a completion request. The two sampling parameters are kept in
/// hundredths, so that `70` stands for a temperature of 0.70.
#[derive(Clone, Debug, PartialEq, Eq)]
pub struct RequestPayload {
    pub messages: Vec<Message>,
    pub temperature_hundredths: u32,
    pub top_p_hundredths: u32,
    pub max_tokens: u32,
}

/// One candidate answer of the model.
#[derive(Clone, Debug, PartialEq, Eq)]
pub struct Choice {
    pub message: Message,
    pub finish_reason: String,
    pub index: u32,
}

/// Token counts reported by the endpoint. They are carried through as they
/// came: nothing is assumed about how they relate to each other.
#[derive(Clone, Copy, Debug, PartialEq, Eq, Structural)]
pub struct Usage {
    pub prompt_tokens: u32,
    pub completion_tokens: u32,
    pub total_tokens: u32,
}

/// The body of a completion response.
#[derive(Clone, Debug, PartialEq, Eq)]
pub struct ResponsePayload {
    pub id: String,
    pub object: String,
    pub created: u64,
    pub model: String,
    pub choices: Vec<Choice>,
    pub usage: Usage,
}

/// A message as a pair of character sequences.
pub struct MessageView {
    pub role: Seq<char>,
    pub content: Seq<char>,
}

/// A request as plain mathematical values.
pub struct RequestView {
    pub messages: Seq<MessageView>,
    pub temperature_hundredths: nat,
    pub top_p_hundredths: nat,
    pub max_tokens: nat,
}

impl View for Message {
    type V = MessageView;

    open spec fn view(&self) -> MessageView {
        MessageView { role: self.role@, content: self.content@ }
    }
}

impl View for RequestPayload {
    type V = RequestView;

    open spec fn view(&self) -> RequestView {
        RequestView {
            messages: self.messages@.map_values(|m: Message| m@),
            temperature_hundredths: self.temperature_hundredths as nat,
            top_p_hundredths: self.top_p_hundredths as nat,
            max_tokens: self.max_tokens as nat,
        }
    }
}

/// The request that carries `prompt`: a single message of the user, with the
/// fixed sampling parameters 0.70 and 0.95 and room for 800 tokens.
pub open spec fn user_request(prompt: Seq<char>) -> RequestView {
    RequestView {
        messages: seq![MessageView { role: "user"@, content: prompt }],
        temperature_hundredths: 70,
        top_p_hundredths: 95,
        max_tokens: 800,
    }
}

impl Message {
    /// A message written by the user.
    pub fn from_user(content: String) -> (message: Message)
        ensures
            message@ == (MessageView { role: "user"@, content: content@ }),
    {
        Message { role: String::from_str("user"), content }
    }
}

impl RequestPayload {
    /// Builds the request for one prompt.
    pub fn for_prompt(prompt: String) -> (request: RequestPayload)
        ensures
            request@ == user_request(prompt@),
    {
        let mut messages: Vec<Message> = Vec::new();
        messages.push(Message::from_user(prompt));
        let request = RequestPayload {
            messages,
            temperature_hundredths: 70,
            top_p_hundredths: 95,
            max_tokens: 800,
        };
        assert(request@.messages =~= user_request(prompt@).messages);
        request
    }
}

impl ResponsePayload {
    /// The text of the first choice, if the response holds any choice.
    pub open spec fn first_content(&self) -> Option<Seq<char>> {
        if self.choices@.len() > 0 {
            Some(self.choices@[0].message.content@)
        } else {
            None
        }
    }
}

} // verus!
