//! The user's configuration, and the choice of the prompt that a question
//! stands for.

use vstd::prelude::*;
use vstd::string::StrSliceExecFns;
use vstd::string::StringExecFns;
use crate::json::str_view;
use crate::output::{copy_text, text_view};
use crate::prompt::{Prompt, PromptView};
use crate::server::{Server, ServerView};
use crate::text::{chars_of, join, same_text};

verus! {

/// The user's configuration.
#[derive(Debug, Clone, PartialEq)]
pub struct Config {
    pub server: Server,
    /// The label of the prompt that is used when no question is given.
    pub default_prompt: Option<String>,
    /// The model that answers where neither the user nor the prompt names
    /// one.
    pub default_model: Option<String>,
    /// The configured prompts.
    pub prompt: Vec<Prompt>,
}

/// The mathematical value of a [`Config`].
pub struct ConfigView {
    pub server: ServerView,
    pub default_prompt: Option<Seq<char>>,
    pub default_model: Option<Seq<char>>,
    pub prompt: Seq<PromptView>,
}

/// The values of a sequence of prompts, in order.
pub open spec fn prompt_views(prompts: Seq<Prompt>) -> Seq<PromptView> {
    prompts.map_values(|p: Prompt| p@)
}

impl View for Config {
    type V = ConfigView;

    open spec fn view(&self) -> ConfigView {
        ConfigView {
            server: self.server@,
            default_prompt: text_view(self.default_prompt),
            default_model: text_view(self.default_model),
            prompt: prompt_views(self.prompt@),
        }
    }
}

/// The value of an optional prompt.
pub open spec fn prompt_view(prompt: Option<Prompt>) -> Option<PromptView> {
    match prompt {
        Some(p) => Some(p@),
        None => None,
    }
}

/// The value of the outcome of resolving a prompt.
pub open spec fn resolution_view(outcome: Result<Prompt, String>) -> Result<
    PromptView,
    Seq<char>,
> {
    match outcome {
        Ok(prompt) => Ok(prompt@),
        Err(message) => Err(message@),
    }
}

/// The first of `prompts` that bears `label`.
pub open spec fn first_labelled(prompts: Seq<PromptView>, label: Seq<char>) -> Option<PromptView>
    decreases prompts.len(),
{
    if prompts.len() == 0 {
        None
    } else if prompts[0].label == label {
        Some(prompts[0])
    } else {
        first_labelled(prompts.skip(1), label)
    }
}

/// The first of the three models that is there: the user's, the prompt's,
/// the configuration's.
pub open spec fn chosen_model(
    user: Option<Seq<char>>,
    prompt: Option<Seq<char>>,
    fallback: Option<Seq<char>>,
) -> Option<Seq<char>> {
    if user is Some {
        user
    } else if prompt is Some {
        prompt
    } else {
        fallback
    }
}

impl ConfigView {
    /// The prompt that a question typed in by the user stands for. An empty
    /// question is refused, and so is one for which no model is known.
    pub open spec fn typed(self, question: Seq<char>, model: Option<Seq<char>>) -> Result<
        PromptView,
        Seq<char>,
    > {
        if question.len() == 0 {
            Err("prompt is empty"@)
        } else {
            match chosen_model(model, None, self.default_model) {
                Some(m) => Ok(
                    PromptView {
                        label: Seq::empty(),
                        system: None,
                        question,
                        model: Some(m),
                    },
                ),
                None => Err("no default model specified"@),
            }
        }
    }

    /// The configured prompt that bears `label`, with the model that is to
    /// answer it; `what` says in the error message which kind of prompt was
    /// looked for.
    pub open spec fn labelled(
        self,
        what: Seq<char>,
        label: Seq<char>,
        model: Option<Seq<char>>,
    ) -> Result<PromptView, Seq<char>> {
        match first_labelled(self.prompt, label) {
            Some(found) => Ok(
                PromptView { model: chosen_model(model, found.model, self.default_model), ..found },
            ),
            None => Err(what + " '"@ + label + "' not found"@),
        }
    }

    /// The prompt that `question` stands for. No question stands for the
    /// default prompt; a question that begins with `@` stands for the
    /// configured prompt whose label follows the `@`; any other question is
    /// itself the prompt.
    pub open spec fn resolve(self, question: Option<Seq<char>>, model: Option<Seq<char>>) -> Result<
        PromptView,
        Seq<char>,
    > {
        match question {
            None => match self.default_prompt {
                Some(label) => self.labelled("default prompt"@, label, model),
                None => Err("no default prompt specified"@),
            },
            Some(text) => if text.len() > 0 && text[0] == '@' {
                self.labelled("prompt"@, text.skip(1), model)
            } else {
                self.typed(text, model)
            },
        }
    }
}

/// The owned copy of the first of two optional texts that is there.
fn first_text(first: Option<&str>, second: &Option<String>) -> (r: Option<String>)
    ensures
        text_view(r) == chosen_model(str_view(first), None, text_view(*second)),
{
    match first {
        Some(text) => Some(text.to_owned()),
        None => copy_text(second),
    }
}

impl Config {
    /// Finds the first configured prompt that bears `label`.
    pub fn find_prompt(&self, label: &str) -> (r: Option<Prompt>)
        ensures
            prompt_view(r) == first_labelled(self@.prompt, label@),
    {
        let ghost all = self@.prompt;
        let mut i: usize = 0;
        assert(all.skip(0) =~= all);
        while i < self.prompt.len()
            invariant
                i <= self.prompt.len(),
                all == prompt_views(self.prompt@),
                first_labelled(all, label@) == first_labelled(all.skip(i as int), label@),
            decreases self.prompt.len() - i,
        {
            assert(all.skip(i as int).skip(1) =~= all.skip(i + 1));
            if same_text(self.prompt[i].label.as_str(), label) {
                return Some(self.prompt[i].duplicate());
            }
            i += 1;
        }
        None
    }

    /// Looks up the configured prompt that bears `label` and settles the
    /// model that is to answer it.
    fn labelled(&self, what: &str, label: &str, model: Option<&str>) -> (outcome: Result<
        Prompt,
        String,
    >)
        ensures
            resolution_view(outcome) == self@.labelled(what@, label@, str_view(model)),
    {
        match self.find_prompt(label) {
            Some(found) => {
                let chosen = match model {
                    Some(m) => Some(m.to_owned()),
                    None => match found.model {
                        Some(m) => Some(m),
                        None => copy_text(&self.default_model),
                    },
                };
                Ok(
                    Prompt {
                        label: found.label,
                        system: found.system,
                        question: found.question,
                        model: chosen,
                    },
                )
            },
            None => {
                let mut message = join(what, " '");
                message.append(label);
                message.append("' not found");
                Err(message)
            },
        }
    }

    /// Settles the prompt that `question` stands for, and the model that is
    /// to answer it: the user's `model` where one is given, else the
    /// prompt's own, else the default model.
    pub fn resolve_prompt(&self, question: Option<&str>, model: Option<&str>) -> (outcome: Result<
        Prompt,
        String,
    >)
        ensures
            resolution_view(outcome) == self@.resolve(str_view(question), str_view(model)),
    {
        match question {
            None => match &self.default_prompt {
                Some(label) => self.labelled("default prompt", label.as_str(), model),
                None => Err("no default prompt specified".to_owned()),
            },
            Some(text) => {
                let chars = chars_of(text);
                if chars.len() > 0 && chars[0] == '@' {
                    self.labelled("prompt", text.substring_char(1, chars.len()), model)
                } else if chars.len() == 0 {
                    Err("prompt is empty".to_owned())
                } else {
                    match first_text(model, &self.default_model) {
                        Some(m) => Ok(
                            Prompt {
                                label: String::new(),
                                system: None,
                                question: text.to_owned(),
                                model: Some(m),
                            },
                        ),
                        None => Err("no default model specified".to_owned()),
                    }
                }
            },
        }
    }
}

} // verus!
