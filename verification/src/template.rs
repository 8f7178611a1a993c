//! The chat template, as far as the pipeline reads it.

use vstd::prelude::*;

verus! {

/// An added-token record of a tokenizer configuration.
#[derive(Clone, Debug, PartialEq, Eq)]
pub struct AddedTokensDecoder {
    pub content: String,
    pub lstrip: bool,
    pub normalized: bool,
    pub rstrip: bool,
    pub single_word: bool,
}

/// The end-of-sequence marker of a chat template: a plain string, or an
/// added-token record that carries the string.
#[derive(Clone, Debug, PartialEq, Eq)]
pub enum EosToken {
    Literal(String),
    Added(AddedTokensDecoder),
}

impl EosToken {
    /// The marker's text.
    pub open spec fn text(&self) -> Seq<char> {
        match self {
            EosToken::Literal(s) => s@,
            EosToken::Added(added) => added.content@,
        }
    }

    /// The marker's text.
    pub fn as_string(&self) -> (s: &String)
        ensures
            s@ == self.text(),
    {
        match self {
            EosToken::Literal(s) => s,
            EosToken::Added(added) => &added.content,
        }
    }
}

/// A chat template: the end-of-sequence marker and the template's source,
/// where one is known.
#[derive(Clone, Debug, PartialEq, Eq)]
pub struct ChatTemplate {
    pub eos_token: EosToken,
    pub chat_template: Option<String>,
}

impl ChatTemplate {
    /// The template source that is in force: the template's own where it has
    /// one, else the override.
    pub open spec fn resolved_source(&self, fallback: Option<String>) -> Option<String> {
        if self.chat_template is Some {
            self.chat_template
        } else {
            fallback
        }
    }

    /// Settles the template's source: a template that brings its own source
    /// keeps it, any other takes the override. The end-of-sequence marker is
    /// kept as it is.
    pub fn resolve(self, fallback: Option<String>) -> (resolved: ChatTemplate)
        ensures
            resolved.eos_token == self.eos_token,
            resolved.chat_template == self.resolved_source(fallback),
    {
        match self.chat_template {
            Some(source) => ChatTemplate { eos_token: self.eos_token, chat_template: Some(source) },
            None => ChatTemplate { eos_token: self.eos_token, chat_template: fallback },
        }
    }
}

} // verus!
