use vstd::prelude::*;

verus! {

/// The supported model variants.
#[derive(Clone, Copy, Debug, PartialEq, Eq, Structural)]
pub enum Which {
    Mistral7b,
    Mistral7bInstruct,
    Mistral7bInstructQ2,
    Zephyr7bBeta,
    Mixtral,
    MixtralInstruct,
    OpenChat35,
}

/// How a family wraps a user turn into the text handed to the tokenizer.
#[derive(Clone, Copy, Debug, PartialEq, Eq, Structural)]
pub enum TemplateKind {
    /// The turn is used verbatim.
    Plain,
    /// `[INST] ... [/INST]` brackets; `multi_turn` families also take a system
    /// preamble and up to two earlier turns.
    InstructBracketed { multi_turn: bool },
    /// `<|user|>` / `<|assistant|>` tags.
    UserAssistantTagged,
    /// `GPT4 Correct User:` / `GPT4 Correct Assistant:` role markers.
    CorrectUserAssistant,
}

pub open spec fn template_of(w: Which) -> TemplateKind {
    match w {
        Which::OpenChat35 => TemplateKind::CorrectUserAssistant,
        Which::Zephyr7bBeta => TemplateKind::UserAssistantTagged,
        Which::Mistral7bInstruct | Which::MixtralInstruct | Which::Mistral7bInstructQ2 =>
            TemplateKind::InstructBracketed { multi_turn: true },
        Which::Mistral7b | Which::Mixtral => TemplateKind::InstructBracketed { multi_turn: false },
    }
}

pub open spec fn eos_marker_of(w: Which) -> Seq<char> {
    match w {
        Which::OpenChat35 => "<|end_of_turn|>"@,
        _ => "</s>"@,
    }
}

/// The capability record of a model family for this process: the family and
/// whether its weights are ready locally. Fixed once built.
#[derive(Clone, Copy, Debug, PartialEq, Eq, Structural)]
pub struct ModelFamily {
    pub which: Which,
    pub available: bool,
}

impl ModelFamily {
    pub fn new(which: Which, available: bool) -> (r: ModelFamily)
        ensures
            r == (ModelFamily { which, available }),
    {
        ModelFamily { which, available }
    }

    /// Whether the family may be used for generation.
    pub fn is_available(&self) -> (r: bool)
        ensures
            r == self.available,
    {
        self.available
    }
}

impl Which {
    /// Every supported family belongs to the Mistral architecture line.
    pub fn is_mistral(&self) -> (r: bool)
        ensures
            r,
    {
        match self {
            Which::OpenChat35
            | Which::Zephyr7bBeta
            | Which::Mixtral
            | Which::MixtralInstruct
            | Which::Mistral7bInstructQ2
            | Which::Mistral7b
            | Which::Mistral7bInstruct => true,
        }
    }

    /// Determines if the model is of type Zephyr.
    pub fn is_zephyr(&self) -> (r: bool)
        ensures
            r == (*self == Which::Zephyr7bBeta),
    {
        matches!(self, Which::Zephyr7bBeta)
    }

    /// Determines if the model is OpenChat.
    pub fn is_open_chat(&self) -> (r: bool)
        ensures
            r == (*self == Which::OpenChat35),
    {
        matches!(self, Which::OpenChat35)
    }

    /// The chat template of the family.
    pub fn template(&self) -> (r: TemplateKind)
        ensures
            r == template_of(*self),
    {
        match self {
            Which::OpenChat35 => TemplateKind::CorrectUserAssistant,
            Which::Zephyr7bBeta => TemplateKind::UserAssistantTagged,
            Which::Mistral7bInstruct | Which::MixtralInstruct | Which::Mistral7bInstructQ2 =>
                TemplateKind::InstructBracketed { multi_turn: true },
            Which::Mistral7b | Which::Mixtral => TemplateKind::InstructBracketed {
                multi_turn: false,
            },
        }
    }

    /// The vocabulary entry that ends a reply of this family.
    pub fn eos_token(&self) -> (r: &'static str)
        ensures
            r@ == eos_marker_of(*self),
    {
        match self {
            Which::OpenChat35 => "<|end_of_turn|>",
            _ => "</s>",
        }
    }

    /// The repository the tokenizer of the family is taken from.
    pub fn tokenizer_repo(&self) -> (r: &'static str)
        ensures
            r@ == match *self {
                Which::Mixtral | Which::MixtralInstruct => "mistralai/Mixtral-8x7B-v0.1"@,
                Which::OpenChat35 => "openchat/openchat_3.5"@,
                _ => "mistralai/Mistral-7B-v0.1"@,
            },
    {
        match self {
            Which::Mixtral | Which::MixtralInstruct => "mistralai/Mixtral-8x7B-v0.1",
            Which::Mistral7b
            | Which::Mistral7bInstruct
            | Which::Mistral7bInstructQ2
            | Which::Zephyr7bBeta => "mistralai/Mistral-7B-v0.1",
            Which::OpenChat35 => "openchat/openchat_3.5",
        }
    }

    /// The weight repository and the quantized weight file of the family.
    pub fn get_repo_and_filename(&self) -> (r: (&'static str, &'static str))
        ensures
            (r.0@, r.1@) == match *self {
                Which::Mixtral => ("TheBloke/Mixtral-8x7B-v0.1-GGUF"@, "mixtral-8x7b-v0.1.Q4_K_M.gguf"@),
                Which::MixtralInstruct => (
                    "TheBloke/Mixtral-8x7B-Instruct-v0.1-GGUF"@,
                    "mixtral-8x7b-instruct-v0.1.Q4_K_M.gguf"@,
                ),
                Which::Mistral7b => ("TheBloke/Mistral-7B-v0.1-GGUF"@, "mistral-7b-v0.1.Q4_K_S.gguf"@),
                Which::Mistral7bInstruct => (
                    "TheBloke/Mistral-7B-Instruct-v0.1-GGUF"@,
                    "mistral-7b-instruct-v0.1.Q4_K_S.gguf"@,
                ),
                Which::Mistral7bInstructQ2 => (
                    "TheBloke/Mistral-7B-Instruct-v0.1-GGUF"@,
                    "mistral-7b-instruct-v0.1.Q2_K.gguf"@,
                ),
                Which::Zephyr7bBeta => ("TheBloke/zephyr-7B-beta-GGUF"@, "zephyr-7b-beta.Q4_K_M.gguf"@),
                Which::OpenChat35 => ("TheBloke/openchat_3.5-GGUF"@, "openchat_3.5.Q4_K_M.gguf"@),
            },
    {
        match self {
            Which::Mixtral => ("TheBloke/Mixtral-8x7B-v0.1-GGUF", "mixtral-8x7b-v0.1.Q4_K_M.gguf"),
            Which::MixtralInstruct => (
                "TheBloke/Mixtral-8x7B-Instruct-v0.1-GGUF",
                "mixtral-8x7b-instruct-v0.1.Q4_K_M.gguf",
            ),
            Which::Mistral7b => ("TheBloke/Mistral-7B-v0.1-GGUF", "mistral-7b-v0.1.Q4_K_S.gguf"),
            Which::Mistral7bInstruct => (
                "TheBloke/Mistral-7B-Instruct-v0.1-GGUF",
                "mistral-7b-instruct-v0.1.Q4_K_S.gguf",
            ),
            Which::Mistral7bInstructQ2 => (
                "TheBloke/Mistral-7B-Instruct-v0.1-GGUF",
                "mistral-7b-instruct-v0.1.Q2_K.gguf",
            ),
            Which::Zephyr7bBeta => ("TheBloke/zephyr-7B-beta-GGUF", "zephyr-7b-beta.Q4_K_M.gguf"),
            Which::OpenChat35 => ("TheBloke/openchat_3.5-GGUF", "openchat_3.5.Q4_K_M.gguf"),
        }
    }
}

} // verus!
