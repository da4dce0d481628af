use codictate::shortcut::post_process::{
    add_post_process_prompt, change_post_process_base_url, delete_post_process_prompt,
    find_post_process_provider, plan_model_listing, set_post_process_selected_prompt,
    update_post_process_prompt, LLMPrompt, ModelListing, PostProcessProvider,
};

fn prompt(id: &str, name: &str) -> LLMPrompt {
    LLMPrompt { id: id.to_string(), name: name.to_string(), prompt: format!("text of {}", name) }
}

fn provider(id: &str, label: &str) -> PostProcessProvider {
    PostProcessProvider { id: id.to_string(), label: label.to_string(), base_url: String::new() }
}

#[test]
fn added_prompt_id_comes_from_the_time() {
    let mut prompts = vec![prompt("default", "Default")];
    let added = add_post_process_prompt(&mut prompts, "Mine".to_string(), "Fix it".to_string(), 1_700_000_000_123);
    assert_eq!(added.id, "prompt_1700000000123");
    assert_eq!(prompts.len(), 2);
    assert_eq!(prompts[1], added);
    let negative = add_post_process_prompt(&mut prompts, "Old".to_string(), "x".to_string(), -5);
    assert_eq!(negative.id, "prompt_-5");
}

#[test]
fn updating_a_prompt_keeps_its_id() {
    let mut prompts = vec![prompt("a", "A"), prompt("b", "B")];
    assert_eq!(update_post_process_prompt(&mut prompts, "b", "Bee", "new"), Ok(()));
    assert_eq!(prompts[1], LLMPrompt { id: "b".to_string(), name: "Bee".to_string(), prompt: "new".to_string() });
    assert_eq!(
        update_post_process_prompt(&mut prompts, "c", "C", "x"),
        Err("Prompt with id 'c' not found".to_string())
    );
}

#[test]
fn the_last_prompt_cannot_be_deleted() {
    let mut prompts = vec![prompt("a", "A")];
    let mut selected = Some("a".to_string());
    assert_eq!(
        delete_post_process_prompt(&mut prompts, &mut selected, "a"),
        Err("Cannot delete the last prompt".to_string())
    );
    assert_eq!(prompts.len(), 1);
}

#[test]
fn deleting_the_selected_prompt_selects_the_first() {
    let mut prompts = vec![prompt("a", "A"), prompt("b", "B"), prompt("c", "C")];
    let mut selected = Some("b".to_string());
    assert_eq!(
        delete_post_process_prompt(&mut prompts, &mut selected, "x"),
        Err("Prompt with id 'x' not found".to_string())
    );
    assert_eq!(delete_post_process_prompt(&mut prompts, &mut selected, "b"), Ok(()));
    assert_eq!(prompts, vec![prompt("a", "A"), prompt("c", "C")]);
    assert_eq!(selected, Some("a".to_string()));
    assert_eq!(delete_post_process_prompt(&mut prompts, &mut selected, "c"), Ok(()));
    assert_eq!(selected, Some("a".to_string()));
}

#[test]
fn selecting_needs_an_existing_prompt() {
    let prompts = vec![prompt("a", "A")];
    let mut selected = None;
    assert_eq!(
        set_post_process_selected_prompt(&prompts, &mut selected, "z"),
        Err("Prompt with id 'z' not found".to_string())
    );
    assert_eq!(selected, None);
    assert_eq!(set_post_process_selected_prompt(&prompts, &mut selected, "a"), Ok(()));
    assert_eq!(selected, Some("a".to_string()));
}

#[test]
fn only_the_custom_base_url_is_editable() {
    let mut providers = vec![provider("openai", "OpenAI"), provider("custom", "Custom")];
    assert_eq!(
        change_post_process_base_url(&mut providers, "openai", "http://x"),
        Err("Provider 'OpenAI' does not allow editing the base URL".to_string())
    );
    assert_eq!(
        change_post_process_base_url(&mut providers, "nope", "http://x"),
        Err("Provider 'nope' not found".to_string())
    );
    assert_eq!(change_post_process_base_url(&mut providers, "custom", "http://x"), Ok(()));
    assert_eq!(providers[1].base_url, "http://x");
    assert_eq!(find_post_process_provider(&providers, "custom"), Ok(1));
}

#[test]
fn listing_models_needs_a_key_except_for_custom() {
    let providers = vec![provider("openai", "OpenAI"), provider("custom", "Custom"), provider("apple", "Apple")];
    assert_eq!(
        plan_model_listing(&providers, "openai", "  ", "apple", true),
        Err("API key is required for OpenAI. Please add an API key to list available models.".to_string())
    );
    assert_eq!(plan_model_listing(&providers, "openai", "sk", "apple", true), Ok(ModelListing::Fetch(0)));
    assert_eq!(plan_model_listing(&providers, "custom", "", "apple", true), Ok(ModelListing::Fetch(1)));
    assert_eq!(plan_model_listing(&providers, "apple", "", "apple", true), Ok(ModelListing::AppleIntelligenceDefault));
    assert_eq!(
        plan_model_listing(&providers, "apple", "", "apple", false),
        Err("Apple Intelligence is only available on Apple silicon Macs running macOS 15 or later.".to_string())
    );
}
