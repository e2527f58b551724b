//! A prompt: the question that is put to the model, with the model that is
//! to answer it and the system text that frames it.

use vstd::prelude::*;
use crate::json::str_view;
use crate::output::{copy_text, text_view};
use crate::server::{message_views, Message, MessageView};
use crate::text::join;

verus! {

/// A prompt, as configured or as given on the command line.
#[derive(Debug, Clone, PartialEq)]
pub struct Prompt {
    /// The name by which the prompt is chosen; empty for a prompt that was
    /// typed in.
    pub label: String,
    /// The text of the system message, if there is to be one.
    pub system: Option<String>,
    /// The question.
    pub question: String,
    /// The model that is to answer.
    pub model: Option<String>,
}

/// The mathematical value of a [`Prompt`].
pub struct PromptView {
    pub label: Seq<char>,
    pub system: Option<Seq<char>>,
    pub question: Seq<char>,
    pub model: Option<Seq<char>>,
}

impl View for Prompt {
    type V = PromptView;

    open spec fn view(&self) -> PromptView {
        PromptView {
            label: self.label@,
            system: text_view(self.system),
            question: self.question@,
            model: text_view(self.model),
        }
    }
}

impl PromptView {
    /// The prompt with the system text that the user asks for, where the
    /// user asks for one.
    pub open spec fn with_system(self, system: Option<Seq<char>>) -> PromptView {
        match system {
            Some(text) => PromptView { system: Some(text), ..self },
            None => self,
        }
    }

    /// The message that carries the question.
    pub open spec fn user_message(self) -> MessageView {
        MessageView { role: "user"@, content: "#Prompt\n\n"@ + self.question }
    }

    /// The messages that the prompt is sent as: the system message where
    /// the prompt has a system text, then the question.
    pub open spec fn messages(self) -> Seq<MessageView> {
        match self.system {
            Some(text) => seq![MessageView { role: "system"@, content: text }, self.user_message()],
            None => seq![self.user_message()],
        }
    }
}

impl Prompt {
    /// A copy of the prompt.
    pub fn duplicate(&self) -> (r: Prompt)
        ensures
            r@ == self@,
    {
        Prompt {
            label: self.label.clone(),
            system: copy_text(&self.system),
            question: self.question.clone(),
            model: copy_text(&self.model),
        }
    }

    /// Puts the system text that the user asks for in place of the prompt's
    /// own; without one the prompt stays as it is.
    pub fn with_system(self, system: Option<&str>) -> (r: Prompt)
        ensures
            r@ == self@.with_system(str_view(system)),
    {
        match system {
            Some(text) => Prompt {
                label: self.label,
                system: Some(text.to_owned()),
                question: self.question,
                model: self.model,
            },
            None => self,
        }
    }

    /// Converts the prompt into the messages that are sent to the model.
    /// The system text, where there is one, goes first with the role
    /// `system`; the question follows with the role `user`.
    pub fn as_messages(&self) -> (r: Vec<Message>)
        ensures
            message_views(r@) == self@.messages(),
    {
        let mut result: Vec<Message> = Vec::new();
        match &self.system {
            Some(text) => {
                result.push(Message { role: "system".to_owned(), content: text.clone() });
            },
            None => {},
        }
        result.push(
            Message {
                role: "user".to_owned(),
                content: join("#Prompt\n\n", self.question.as_str()),
            },
        );
        assert(message_views(result@) =~= self@.messages());
        result
    }
}

} // verus!
