use edgerunner::prompt::{handle_user_input, GeneratedPrompt, Prompt, DEFAULT_SYSTEM_PROMPT};
use edgerunner::which::Which;

#[test]
fn test_one_prompt() {
    let prompt = Prompt::One("Example prompt".to_string());
    let which = Which::Mistral7b;
    let generated_prompt = prompt.generate_prompt(&which, None).unwrap();
    assert_eq!(generated_prompt.as_str(), "Example prompt");
}

#[test]
fn test_chat_prompt_zephyr() {
    let prompt_text = "User question";
    let prompt = Prompt::Chat(prompt_text.to_string());
    let which = Which::Zephyr7bBeta;
    let generated_prompt = prompt.generate_prompt(&which, None).unwrap();
    println!("Chat prompt (zephyr): {}", generated_prompt.as_str());
    assert!(generated_prompt.as_str().contains(prompt_text));
}

#[test]
fn test_chat_prompt_zephyr_formatting() {
    let prompt_text = "User question";
    let prompt = Prompt::Chat(prompt_text.to_string());
    let which = Which::Zephyr7bBeta;
    let generated_prompt = prompt.generate_prompt(&which, None).unwrap();
    println!("Chat prompt (zephyr): {}", generated_prompt.as_str());
    assert!(generated_prompt.as_str().contains("<|user|>"));
    assert!(generated_prompt.as_str().contains("</s>"));
    assert!(generated_prompt.as_str().contains("<|assistant|>"));
    assert_eq!(
        generated_prompt.as_str(),
        format!("<|user|>\n{}</s>\n<|assistant|>", prompt_text)
    );
}

#[test]
fn test_chat_prompt_no_history() {
    let prompt_text = "User question";
    let prompt = Prompt::Chat(prompt_text.to_string());
    let which = Which::Mistral7bInstruct;
    let generated_prompt = prompt.generate_prompt(&which, None).unwrap();
    println!("Chat prompt (no history): {}", generated_prompt.as_str());
    assert!(generated_prompt.as_str().contains(prompt_text));
    assert!(generated_prompt.as_str().contains(DEFAULT_SYSTEM_PROMPT));
}

#[test]
fn test_chat_prompt_with_history() {
    let prompt_text = "User question";
    let prompt = Prompt::Chat(prompt_text.to_string());
    let which = Which::Mistral7bInstruct;
    let history = vec![
        "Previous user question".to_string(),
        "Previous bot response".to_string(),
    ];
    let generated_prompt = prompt.generate_prompt(&which, Some(&history)).unwrap();
    println!("Chat prompt (with history): {}", generated_prompt.as_str());
    assert!(generated_prompt.as_str().contains(prompt_text));
    assert!(generated_prompt.as_str().contains("Previous user question"));
    assert!(generated_prompt.as_str().contains("Previous bot response"));
    assert!(generated_prompt.as_str().contains(DEFAULT_SYSTEM_PROMPT));
}

#[test]
fn test_chat_prompt_mistral_formatting() {
    let prompt_text = "User question";
    let prompt = Prompt::Chat(prompt_text.to_string());
    let which = Which::Mistral7bInstruct;
    let generated_prompt = prompt.generate_prompt(&which, None).unwrap();
    println!("Chat prompt (mistral): {}", generated_prompt.as_str());
    assert!(generated_prompt.as_str().contains("[INST]"));
    assert!(generated_prompt.as_str().contains("[/INST]"));
    assert_eq!(
        generated_prompt.as_str(),
        format!("{} [INST] {} [/INST]", DEFAULT_SYSTEM_PROMPT, prompt_text)
    );
}

#[test]
fn test_chat_prompt_mistral_formatting_with_history() {
    let prompt_text = "User question";
    let prompt = Prompt::Chat(prompt_text.to_string());
    let which = Which::Mistral7bInstruct;
    let history = vec![
        "Previous user question".to_string(),
        "Previous bot response".to_string(),
    ];
    let generated_prompt = prompt.generate_prompt(&which, Some(&history)).unwrap();
    println!("Chat prompt (mistral): {}", generated_prompt.as_str());
    assert!(generated_prompt.as_str().contains("[INST]"));
    assert!(generated_prompt.as_str().contains("[/INST]"));
    assert_eq!(
        generated_prompt.as_str(),
        format!(
            "{}\n[INST] {} [/INST] {}\n[INST] {} [/INST] ",
            DEFAULT_SYSTEM_PROMPT, history[0], history[1], prompt_text
        )
    );
}

#[test]
fn test_chat_prompt_mistral_formatting_without_history() {
    let prompt_text = "User question";
    let prompt = Prompt::Chat(prompt_text.to_string());
    let which = Which::Mistral7bInstruct;
    let generated_prompt = prompt.generate_prompt(&which, None).unwrap();
    println!("Chat prompt (mistral): {}", generated_prompt.as_str());
    assert!(generated_prompt.as_str().contains("[INST]"));
    assert!(generated_prompt.as_str().contains("[/INST]"));
    assert_eq!(
        generated_prompt.as_str(),
        format!("{} [INST] {} [/INST]", DEFAULT_SYSTEM_PROMPT, prompt_text)
    );
}

#[test]
fn zephyr_template_is_exact() {
    let p = handle_user_input(Which::Zephyr7bBeta, "User question").unwrap();
    assert_eq!(p.as_str(), "<|user|>\nUser question</s>\n<|assistant|>");
}

#[test]
fn open_chat_template_is_exact() {
    let p = handle_user_input(Which::OpenChat35, "Hi").unwrap();
    assert_eq!(p.as_str(), "GPT4 Correct User: HiGPT4 Correct Assistant:");
}

#[test]
fn base_mistral_template_has_no_preamble() {
    let p = handle_user_input(Which::Mixtral, "Hi").unwrap();
    assert_eq!(p.as_str(), "[INST] Hi [/INST]");
    let p = handle_user_input(Which::Mistral7b, "Hi").unwrap();
    assert_eq!(p.as_str(), "[INST] Hi [/INST]");
}

#[test]
fn history_of_two_gives_two_closed_brackets_and_one_open() {
    let history = vec!["q1".to_string(), "a1".to_string()];
    let p = Prompt::Chat("q2".to_string())
        .generate_prompt(&Which::MixtralInstruct, Some(&history))
        .unwrap();
    let expected = format!(
        "{}\n[INST] q1 [/INST] a1\n[INST] q2 [/INST] ",
        DEFAULT_SYSTEM_PROMPT
    );
    assert_eq!(p.as_str(), expected);
    assert_eq!(p.as_str().matches("[INST]").count(), 3);
    assert!(p.as_str().ends_with("[INST] q2 [/INST] "));
}

#[test]
fn older_history_entries_are_ignored() {
    let history = vec![
        "old question".to_string(),
        "old answer".to_string(),
        "q1".to_string(),
        "a1".to_string(),
    ];
    let p = Prompt::Chat("q2".to_string())
        .generate_prompt(&Which::Mistral7bInstructQ2, Some(&history))
        .unwrap();
    assert!(!p.as_str().contains("old"));
    let last_two = vec!["q1".to_string(), "a1".to_string()];
    let q = Prompt::Chat("q2".to_string())
        .generate_prompt(&Which::Mistral7bInstructQ2, Some(&last_two))
        .unwrap();
    assert_eq!(p.as_str(), q.as_str());
}

#[test]
fn empty_or_short_history_equals_no_history() {
    let none = Prompt::Chat("q".to_string())
        .generate_prompt(&Which::Mistral7bInstruct, None)
        .unwrap();
    let empty: Vec<String> = vec![];
    let with_empty = Prompt::Chat("q".to_string())
        .generate_prompt(&Which::Mistral7bInstruct, Some(&empty))
        .unwrap();
    let one = vec!["only".to_string()];
    let with_one = Prompt::Chat("q".to_string())
        .generate_prompt(&Which::Mistral7bInstruct, Some(&one))
        .unwrap();
    assert_eq!(none.as_str(), with_empty.as_str());
    assert_eq!(none.as_str(), with_one.as_str());
    assert_eq!(none.as_str(), format!("{} [INST] q [/INST]", DEFAULT_SYSTEM_PROMPT));
}

#[test]
fn generated_prompt_exposes_its_text() {
    let p = GeneratedPrompt("abc".to_string());
    assert_eq!(p.as_str(), "abc");
}
