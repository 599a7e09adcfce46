use vstd::prelude::*;
use vstd::string::*;

use crate::error::GenerationError;
use crate::which::{template_of, TemplateKind, Which};

verus! {

/// The fixed system preamble of the instruction-bracketed chat template.
pub const DEFAULT_SYSTEM_PROMPT: &'static str = "<s>[INST] Always respond with concise messages with correct grammar. Avoid html tags, garbled content, and words that run into one another. If you don't know the answer to a question say 'I don't know'.[/INST] Understood! I will always respond with concise messages and correct grammar. If I don't know the answer to a question, I will say 'I don't know'.</s>";

/// The exact text handed to the tokenizer.
#[derive(Debug)]
pub struct GeneratedPrompt(pub String);

impl GeneratedPrompt {
    /// The text of the prompt.
    pub fn as_str(&self) -> (r: &str)
        ensures
            r@ == self.0@,
    {
        self.0.as_str()
    }
}

/// What the user asked for: a chat turn to wrap in the family's template, or
/// a raw prompt used as it is.
#[derive(Debug)]
pub enum Prompt {
    Chat(String),
    One(String),
}

/// The prior turns that a prompt build sees, as character sequences.
pub open spec fn history_view(h: Option<&[String]>) -> Option<Seq<Seq<char>>> {
    match h {
        Some(s) => Some(s@.map_values(|x: String| x@)),
        None => None,
    }
}

pub open spec fn system_preamble() -> Seq<char> {
    DEFAULT_SYSTEM_PROMPT@
}

/// Single instruction bracket after the system preamble.
pub open spec fn preamble_prompt(turn: Seq<char>) -> Seq<char> {
    system_preamble() + " [INST] "@ + turn + " [/INST]"@
}

/// System preamble, one closed bracket per earlier question and answer, then
/// the open bracket holding the new turn.
pub open spec fn history_prompt(q: Seq<char>, a: Seq<char>, turn: Seq<char>) -> Seq<char> {
    system_preamble() + "\n[INST] "@ + q + " [/INST] "@ + a + "\n[INST] "@ + turn + " [/INST] "@
}

/// The multi-turn instruction template: only the last two history entries
/// are read; with fewer than two it is the single-bracket form.
pub open spec fn instruct_chat_prompt(turn: Seq<char>, history: Option<Seq<Seq<char>>>) -> Seq<char> {
    match history {
        Some(h) if h.len() >= 2 => history_prompt(h[h.len() - 2], h[h.len() - 1], turn),
        _ => preamble_prompt(turn),
    }
}

/// The prompt text that a family's template builds around a chat turn.
pub open spec fn chat_prompt(w: Which, turn: Seq<char>, history: Option<Seq<Seq<char>>>) -> Seq<char> {
    match template_of(w) {
        TemplateKind::CorrectUserAssistant => "GPT4 Correct User: "@ + turn + "GPT4 Correct Assistant:"@,
        TemplateKind::UserAssistantTagged => "<|user|>\n"@ + turn + "</s>\n<|assistant|>"@,
        TemplateKind::InstructBracketed { multi_turn } => if multi_turn {
            instruct_chat_prompt(turn, history)
        } else {
            "[INST] "@ + turn + " [/INST]"@
        },
        TemplateKind::Plain => turn,
    }
}

pub open spec fn prompt_text(p: &Prompt, w: Which, history: Option<Seq<Seq<char>>>) -> Seq<char> {
    match p {
        Prompt::One(s) => s@,
        Prompt::Chat(s) => chat_prompt(w, s@, history),
    }
}

/// Only the last two history entries reach a multi-turn prompt: with two or
/// more entries the prompt is the preamble, one closed bracket holding the
/// second-to-last entry followed by the last one, and an open bracket holding
/// the new turn; dropping any older entries changes nothing.
pub proof fn lemma_history_last_two(w: Which, turn: Seq<char>, history: Seq<Seq<char>>)
    requires
        template_of(w) == (TemplateKind::InstructBracketed { multi_turn: true }),
        history.len() >= 2,
    ensures
        chat_prompt(w, turn, Some(history)) == history_prompt(
            history[history.len() - 2],
            history[history.len() - 1],
            turn,
        ),
        chat_prompt(w, turn, Some(history)) == chat_prompt(
            w,
            turn,
            Some(history.subrange(history.len() - 2, history.len() as int)),
        ),
{
}

/// Without usable history a multi-turn family falls back to the
/// single-bracket preamble form: no history and an empty history give the
/// same prompt.
pub proof fn lemma_no_history_fallback(w: Which, turn: Seq<char>)
    requires
        template_of(w) == (TemplateKind::InstructBracketed { multi_turn: true }),
    ensures
        chat_prompt(w, turn, None) == preamble_prompt(turn),
        chat_prompt(w, turn, None) == chat_prompt(w, turn, Some(Seq::empty())),
{
}

impl Prompt {
    /// Generates the prompt string for the prompt type and the model family.
    pub fn generate_prompt(
        &self,
        which: &Which,
        conversation_history: Option<&[String]>,
    ) -> (r: Result<GeneratedPrompt, GenerationError>)
        ensures
            r is Ok,
            r->Ok_0.0@ == prompt_text(self, *which, history_view(conversation_history)),
    {
        match self {
            Prompt::One(prompt) => Ok(GeneratedPrompt(prompt.clone())),
            Prompt::Chat(prompt) => {
                self.generate_user_input_prompt(which, prompt.as_str(), conversation_history)
            },
        }
    }

    /// Wraps a chat turn in the template of the model family.
    fn generate_user_input_prompt(
        &self,
        which: &Which,
        prompt_text: &str,
        conversation_history: Option<&[String]>,
    ) -> (r: Result<GeneratedPrompt, GenerationError>)
        ensures
            r is Ok,
            r->Ok_0.0@ == chat_prompt(*which, prompt_text@, history_view(conversation_history)),
    {
        match which.template() {
            TemplateKind::CorrectUserAssistant => {
                let mut s = String::from_str("GPT4 Correct User: ");
                s.append(prompt_text);
                s.append("GPT4 Correct Assistant:");
                Ok(GeneratedPrompt(s))
            },
            TemplateKind::UserAssistantTagged => {
                let mut s = String::from_str("<|user|>\n");
                s.append(prompt_text);
                s.append("</s>\n<|assistant|>");
                Ok(GeneratedPrompt(s))
            },
            TemplateKind::InstructBracketed { multi_turn } => {
                if multi_turn {
                    self.generate_mistral_prompt(prompt_text, conversation_history)
                } else {
                    let mut s = String::from_str("[INST] ");
                    s.append(prompt_text);
                    s.append(" [/INST]");
                    Ok(GeneratedPrompt(s))
                }
            },
            TemplateKind::Plain => Ok(GeneratedPrompt(String::from_str(prompt_text))),
        }
    }

    /// The multi-turn instruction prompt, reading the last two history entries.
    fn generate_mistral_prompt(
        &self,
        text_from_chat: &str,
        conversation_history: Option<&[String]>,
    ) -> (r: Result<GeneratedPrompt, GenerationError>)
        ensures
            r is Ok,
            r->Ok_0.0@ == instruct_chat_prompt(text_from_chat@, history_view(conversation_history)),
    {
        let mut s = String::from_str(DEFAULT_SYSTEM_PROMPT);
        match conversation_history {
            Some(history) if history.len() >= 2 => {
                let n = history.len();
                let question = &history[n - 2];
                let answer = &history[n - 1];
                s.append("\n[INST] ");
                s.append(question.as_str());
                s.append(" [/INST] ");
                s.append(answer.as_str());
                s.append("\n[INST] ");
                s.append(text_from_chat);
                s.append(" [/INST] ");
            },
            _ => {
                s.append(" [INST] ");
                s.append(text_from_chat);
                s.append(" [/INST]");
            },
        }
        Ok(GeneratedPrompt(s))
    }
}

/// Builds the chat prompt for one user turn with no earlier turns.
pub fn handle_user_input(which: Which, input: &str) -> (r: Result<GeneratedPrompt, GenerationError>)
    ensures
        r is Ok,
        r->Ok_0.0@ == chat_prompt(which, input@, None),
{
    let prompt = Prompt::Chat(String::from_str(input));
    prompt.generate_prompt(&which, None)
}

} // verus!
