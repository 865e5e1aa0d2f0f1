//! Types for the AI endpoints: chat completions and embeddings.

use vstd::prelude::*;

verus! {

#[derive(Clone, Copy, Debug, PartialEq, Eq, Structural)]
pub enum AgentStatus {
    Active,
    Inactive,
    Draft,
}

/// One turn of a chat conversation.
#[derive(Clone, Debug)]
pub struct ChatMessage {
    pub role: String,
    pub content: String,
}

impl ChatMessage {
    pub fn user(content: &str) -> (m: Self)
        ensures
            m.role@ == "user"@,
            m.content@ == content@,
    {
        ChatMessage { role: "user".to_owned(), content: content.to_owned() }
    }

    pub fn assistant(content: &str) -> (m: Self)
        ensures
            m.role@ == "assistant"@,
            m.content@ == content@,
    {
        ChatMessage { role: "assistant".to_owned(), content: content.to_owned() }
    }

    pub fn system(content: &str) -> (m: Self)
        ensures
            m.role@ == "system"@,
            m.content@ == content@,
    {
        ChatMessage { role: "system".to_owned(), content: content.to_owned() }
    }
}

#[derive(Clone, Debug)]
pub struct CompletionResponse {
    pub id: String,
    pub object: String,
    pub created: i64,
    pub model: String,
    pub choices: Vec<Choice>,
    pub usage: Option<Usage>,
}

impl CompletionResponse {
    /// The text of the first choice's message, when one came back.
    pub fn content(&self) -> (r: Option<&str>)
        ensures
            match r {
                Some(s) => self.choices@.len() > 0 && (self.choices@[0].message matches Some(m)
                    && m.content@ == s@),
                None => self.choices@.len() == 0 || self.choices@[0].message is None,
            },
    {
        if self.choices.len() == 0 {
            return None;
        }
        match &self.choices[0].message {
            Some(m) => Some(m.content.as_str()),
            None => None,
        }
    }
}

#[derive(Clone, Debug)]
pub struct Choice {
    pub index: i32,
    pub message: Option<ChatMessage>,
    pub finish_reason: Option<String>,
}

#[derive(Clone, Debug)]
pub struct Usage {
    pub prompt_tokens: i32,
    pub completion_tokens: i32,
    pub total_tokens: i32,
}

/// Input to the embeddings endpoint: one text or a batch, never both.
#[derive(Clone, Debug)]
pub struct EmbeddingInput {
    pub input: Option<String>,
    pub inputs: Option<Vec<String>>,
    pub model: Option<String>,
}

impl EmbeddingInput {
    pub fn single(text: &str) -> (e: Self)
        ensures
            e.input matches Some(t) && t@ == text@,
            e.inputs is None,
            e.model is None,
    {
        EmbeddingInput { input: Some(text.to_owned()), inputs: None, model: None }
    }

    pub fn batch(texts: Vec<String>) -> (e: Self)
        ensures
            e.input is None,
            e.inputs == Some(texts),
            e.model is None,
    {
        EmbeddingInput { input: None, inputs: Some(texts), model: None }
    }
}

} // verus!
