//! Editing the post-processing settings: the prompts, the selected prompt and the
//! providers' base URLs, and the checks made before a provider's models are listed.

use vstd::prelude::*;
use crate::text::{concat3, concat_str, i64_to_decimal, is_blank, signed_decimal, str_equals, string_from_chars, trim};

verus! {

/// A prompt for post-processing transcriptions.
#[derive(Clone, Debug, PartialEq, Eq)]
pub struct LLMPrompt {
    pub id: String,
    pub name: String,
    pub prompt: String,
}

/// A post-processing provider: its ID, the label shown for it, and its base URL.
#[derive(Clone, Debug, PartialEq, Eq)]
pub struct PostProcessProvider {
    pub id: String,
    pub label: String,
    pub base_url: String,
}

/// The views of a prompt's fields: ID, name, text.
pub type PromptView = (Seq<char>, Seq<char>, Seq<char>);

/// The view of a prompt.
pub open spec fn prompt_view(p: LLMPrompt) -> PromptView {
    (p.id@, p.name@, p.prompt@)
}

/// The views of a sequence of prompts.
pub open spec fn prompt_views(s: Seq<LLMPrompt>) -> Seq<PromptView> {
    s.map_values(|p: LLMPrompt| prompt_view(p))
}

/// The position of the first prompt with the given ID.
pub open spec fn prompt_position(s: Seq<PromptView>, id: Seq<char>) -> Option<int>
    decreases s.len(),
{
    if s.len() == 0 {
        None
    } else if s[0].0 == id {
        Some(0)
    } else {
        match prompt_position(s.drop_first(), id) {
            Some(i) => Some(i + 1),
            None => None,
        }
    }
}

proof fn lemma_prompt_position(s: Seq<PromptView>, id: Seq<char>, i: int)
    requires
        0 <= i <= s.len(),
        forall|j: int| 0 <= j < i ==> (#[trigger] s[j]).0 != id,
        i < s.len() ==> s[i].0 == id,
    ensures
        i < s.len() ==> prompt_position(s, id) == Some(i),
        i == s.len() ==> prompt_position(s, id) is None,
    decreases i,
{
    if i > 0 {
        let rest = s.drop_first();
        assert(s[0].0 != id);
        assert forall|j: int| 0 <= j < i - 1 implies (#[trigger] rest[j]).0 != id by {
            assert(rest[j] == s[j + 1]);
        }
        if i < s.len() {
            assert(rest[i - 1] == s[i]);
        }
        lemma_prompt_position(rest, id, i - 1);
    }
}

fn find_prompt(prompts: &Vec<LLMPrompt>, id: &str) -> (r: Option<usize>)
    ensures
        match prompt_position(prompt_views(prompts@), id@) {
            Some(i) => r matches Some(x) && x as int == i && x < prompts.len(),
            None => r is None,
        },
{
    let ghost v = prompt_views(prompts@);
    let mut i: usize = 0;
    while i < prompts.len()
        invariant
            i <= prompts.len(),
            v == prompt_views(prompts@),
            forall|j: int| 0 <= j < i ==> (#[trigger] v[j]).0 != id@,
        decreases prompts.len() - i,
    {
        if str_equals(prompts[i].id.as_str(), id) {
            proof {
                lemma_prompt_position(v, id@, i as int);
            }
            return Some(i);
        }
        i = i + 1;
    }
    proof {
        lemma_prompt_position(v, id@, i as int);
    }
    None
}

fn copy_prompt(p: &LLMPrompt) -> (r: LLMPrompt)
    ensures
        prompt_view(r) == prompt_view(*p),
{
    LLMPrompt { id: p.id.clone(), name: p.name.clone(), prompt: p.prompt.clone() }
}

/// Adds a prompt whose ID is made from the current time in milliseconds.
pub fn add_post_process_prompt(
    prompts: &mut Vec<LLMPrompt>,
    name: String,
    prompt: String,
    now_ms: i64,
) -> (r: LLMPrompt)
    ensures
        r.id@ == "prompt_"@ + signed_decimal(now_ms as int),
        r.name@ == name@,
        r.prompt@ == prompt@,
        prompt_views(final(prompts)@) == prompt_views(old(prompts)@).push(prompt_view(r)),
{
    let digits = string_from_chars(&i64_to_decimal(now_ms));
    let id = concat_str("prompt_", digits.as_str());
    let new_prompt = LLMPrompt { id, name, prompt };
    prompts.push(copy_prompt(&new_prompt));
    assert(prompt_views(prompts@) =~= prompt_views(old(prompts)@).push(prompt_view(new_prompt)));
    new_prompt
}

/// The error for a prompt ID that no prompt has.
pub open spec fn prompt_not_found(id: Seq<char>) -> Seq<char> {
    "Prompt with id '"@ + id + "' not found"@
}

/// Renames the first prompt with the given ID and replaces its text.
pub fn update_post_process_prompt(
    prompts: &mut Vec<LLMPrompt>,
    id: &str,
    name: &str,
    prompt: &str,
) -> (r: Result<(), String>)
    ensures
        match prompt_position(prompt_views(old(prompts)@), id@) {
            Some(i) => r is Ok && prompt_views(final(prompts)@) == prompt_views(old(prompts)@).update(
                i,
                (old(prompts)@[i].id@, name@, prompt@),
            ),
            None => r matches Err(e) && e@ == prompt_not_found(id@) && prompt_views(
                final(prompts)@,
            ) == prompt_views(old(prompts)@),
        },
{
    match find_prompt(prompts, id) {
        Some(i) => {
            let updated = LLMPrompt {
                id: prompts[i].id.clone(),
                name: name.to_string(),
                prompt: prompt.to_string(),
            };
            prompts.set(i, updated);
            assert(prompt_views(prompts@) =~= prompt_views(old(prompts)@).update(
                i as int,
                (old(prompts)@[i as int].id@, name@, prompt@),
            ));
            Ok(())
        },
        None => Err(concat3("Prompt with id '", id, "' not found")),
    }
}

/// The view of an optional string.
pub open spec fn opt_string_view(o: Option<String>) -> Option<Seq<char>> {
    match o {
        Some(s) => Some(s@),
        None => None,
    }
}

/// Deletes every prompt with the given ID, which some prompt must have, unless it would
/// leave no prompt; a deleted selected prompt gives the selection to the first prompt left.
pub fn delete_post_process_prompt(
    prompts: &mut Vec<LLMPrompt>,
    selected: &mut Option<String>,
    id: &str,
) -> (r: Result<(), String>)
    ensures
        ({
            let kept = prompt_views(old(prompts)@).filter(|p: PromptView| p.0 != id@);
            if old(prompts)@.len() <= 1 {
                &&& r matches Err(e) && e@ == "Cannot delete the last prompt"@
                &&& prompt_views(final(prompts)@) == prompt_views(old(prompts)@)
                &&& opt_string_view(*final(selected)) == opt_string_view(*old(selected))
            } else if kept.len() == old(prompts)@.len() {
                &&& r matches Err(e) && e@ == prompt_not_found(id@)
                &&& prompt_views(final(prompts)@) == prompt_views(old(prompts)@)
                &&& opt_string_view(*final(selected)) == opt_string_view(*old(selected))
            } else {
                &&& r is Ok
                &&& prompt_views(final(prompts)@) == kept
                &&& opt_string_view(*final(selected)) == if opt_string_view(*old(selected))
                    == Some(id@) {
                    if kept.len() > 0 {
                        Some(kept[0].0)
                    } else {
                        None
                    }
                } else {
                    opt_string_view(*old(selected))
                }
            }
        }),
{
    if prompts.len() <= 1 {
        return Err("Cannot delete the last prompt".to_string());
    }
    let ghost pred = |p: PromptView| p.0 != id@;
    let ghost old_views = prompt_views(prompts@);
    let mut kept: Vec<LLMPrompt> = Vec::new();
    let mut i: usize = 0;
    while i < prompts.len()
        invariant
            i <= prompts.len(),
            old_views == prompt_views(prompts@),
            pred == (|p: PromptView| p.0 != id@),
            prompt_views(kept@) == old_views.take(i as int).filter(pred),
        decreases prompts.len() - i,
    {
        assert(old_views.take(i + 1).drop_last() =~= old_views.take(i as int));
        assert(old_views.take(i + 1).last() == prompt_view(prompts@[i as int]));
        proof {
            reveal(Seq::filter);
        }
        assert(old_views.take(i + 1).filter(pred) == if pred(prompt_view(prompts@[i as int])) {
            old_views.take(i as int).filter(pred).push(prompt_view(prompts@[i as int]))
        } else {
            old_views.take(i as int).filter(pred)
        });
        if !str_equals(prompts[i].id.as_str(), id) {
            kept.push(copy_prompt(&prompts[i]));
            assert(prompt_views(kept@) =~= prompt_views(kept@.drop_last()).push(
                prompt_view(prompts@[i as int]),
            ));
        }
        i = i + 1;
    }
    assert(old_views.take(prompts.len() as int) =~= old_views);
    if kept.len() == prompts.len() {
        return Err(concat3("Prompt with id '", id, "' not found"));
    }
    let was_selected = match selected {
        Some(s) => str_equals(s.as_str(), id),
        None => false,
    };
    if was_selected {
        *selected = if kept.len() > 0 {
            Some(kept[0].id.clone())
        } else {
            None
        };
    }
    *prompts = kept;
    Ok(())
}

/// Selects the prompt with the given ID, which some prompt must have.
pub fn set_post_process_selected_prompt(
    prompts: &Vec<LLMPrompt>,
    selected: &mut Option<String>,
    id: &str,
) -> (r: Result<(), String>)
    ensures
        match prompt_position(prompt_views(prompts@), id@) {
            Some(_) => r is Ok && opt_string_view(*final(selected)) == Some(id@),
            None => r matches Err(e) && e@ == prompt_not_found(id@) && opt_string_view(
                *final(selected),
            ) == opt_string_view(*old(selected)),
        },
{
    match find_prompt(prompts, id) {
        Some(_) => {
            *selected = Some(id.to_string());
            Ok(())
        },
        None => Err(concat3("Prompt with id '", id, "' not found")),
    }
}

/// The position of the first provider with the given ID.
pub open spec fn provider_position(s: Seq<PostProcessProvider>, id: Seq<char>) -> Option<int>
    decreases s.len(),
{
    if s.len() == 0 {
        None
    } else if s[0].id@ == id {
        Some(0)
    } else {
        match provider_position(s.drop_first(), id) {
            Some(i) => Some(i + 1),
            None => None,
        }
    }
}

proof fn lemma_provider_position(s: Seq<PostProcessProvider>, id: Seq<char>, i: int)
    requires
        0 <= i <= s.len(),
        forall|j: int| 0 <= j < i ==> (#[trigger] s[j]).id@ != id,
        i < s.len() ==> s[i].id@ == id,
    ensures
        i < s.len() ==> provider_position(s, id) == Some(i),
        i == s.len() ==> provider_position(s, id) is None,
    decreases i,
{
    if i > 0 {
        let rest = s.drop_first();
        assert(s[0].id@ != id);
        assert forall|j: int| 0 <= j < i - 1 implies (#[trigger] rest[j]).id@ != id by {
            assert(rest[j] == s[j + 1]);
        }
        if i < s.len() {
            assert(rest[i - 1] == s[i]);
        }
        lemma_provider_position(rest, id, i - 1);
    }
}

/// Finds the first provider with the given ID.
pub fn find_post_process_provider(providers: &Vec<PostProcessProvider>, provider_id: &str) -> (r:
    Result<usize, String>)
    ensures
        match provider_position(providers@, provider_id@) {
            Some(i) => r matches Ok(x) && x as int == i && x < providers.len(),
            None => r matches Err(e) && e@ == "Provider '"@ + provider_id@ + "' not found"@,
        },
{
    let mut i: usize = 0;
    while i < providers.len()
        invariant
            i <= providers.len(),
            forall|j: int| 0 <= j < i ==> (#[trigger] providers@[j]).id@ != provider_id@,
        decreases providers.len() - i,
    {
        if str_equals(providers[i].id.as_str(), provider_id) {
            proof {
                lemma_provider_position(providers@, provider_id@, i as int);
            }
            return Ok(i);
        }
        i = i + 1;
    }
    proof {
        lemma_provider_position(providers@, provider_id@, i as int);
    }
    Err(concat3("Provider '", provider_id, "' not found"))
}

/// Sets the base URL of a provider; only the custom provider's base URL can be edited.
pub fn change_post_process_base_url(
    providers: &mut Vec<PostProcessProvider>,
    provider_id: &str,
    base_url: &str,
) -> (r: Result<(), String>)
    ensures
        match provider_position(old(providers)@, provider_id@) {
            None => r matches Err(e) && e@ == "Provider '"@ + provider_id@ + "' not found"@
                && final(providers)@ == old(providers)@,
            Some(i) => if old(providers)@[i].id@ != "custom"@ {
                r matches Err(e) && e@ == "Provider '"@ + old(providers)@[i].label@
                    + "' does not allow editing the base URL"@ && final(providers)@ == old(
                    providers,
                )@
            } else {
                &&& r is Ok
                &&& final(providers)@.len() == old(providers)@.len()
                &&& forall|j: int|
                    0 <= j < old(providers)@.len() && j != i ==> final(providers)@[j] == old(
                        providers,
                    )@[j]
                &&& final(providers)@[i].id@ == old(providers)@[i].id@
                &&& final(providers)@[i].label@ == old(providers)@[i].label@
                &&& final(providers)@[i].base_url@ == base_url@
            },
        },
{
    let i = match find_post_process_provider(providers, provider_id) {
        Ok(i) => i,
        Err(e) => {
            return Err(e);
        },
    };
    if !str_equals(providers[i].id.as_str(), "custom") {
        return Err(concat3("Provider '", providers[i].label.as_str(), "' does not allow editing the base URL"));
    }
    let updated = PostProcessProvider {
        id: providers[i].id.clone(),
        label: providers[i].label.clone(),
        base_url: base_url.to_string(),
    };
    providers.set(i, updated);
    Ok(())
}

/// How a provider's models are listed.
#[derive(Clone, Copy, Debug, PartialEq, Eq)]
pub enum ModelListing {
    /// Apple Intelligence offers its one default model.
    AppleIntelligenceDefault,
    /// The provider at this position is asked for its models.
    Fetch(usize),
}

/// The checks made before a provider's models are listed: the provider must exist; Apple
/// Intelligence needs Apple silicon; any provider but the custom one needs an API key.
pub fn plan_model_listing(
    providers: &Vec<PostProcessProvider>,
    provider_id: &str,
    api_key: &str,
    apple_intelligence_provider_id: &str,
    apple_silicon: bool,
) -> (r: Result<ModelListing, String>)
    ensures
        match provider_position(providers@, provider_id@) {
            None => r matches Err(e) && e@ == "Provider '"@ + provider_id@ + "' not found"@,
            Some(i) => if providers@[i].id@ == apple_intelligence_provider_id@ {
                if apple_silicon {
                    r == Ok::<ModelListing, String>(ModelListing::AppleIntelligenceDefault)
                } else {
                    r matches Err(e) && e@
                        == "Apple Intelligence is only available on Apple silicon Macs running macOS 15 or later."@
                }
            } else if trim(api_key@).len() == 0 && providers@[i].id@ != "custom"@ {
                r matches Err(e) && e@ == "API key is required for "@ + providers@[i].label@
                    + ". Please add an API key to list available models."@
            } else {
                r == Ok::<ModelListing, String>(ModelListing::Fetch(i as usize))
            },
        },
{
    let i = match find_post_process_provider(providers, provider_id) {
        Ok(i) => i,
        Err(e) => {
            return Err(e);
        },
    };
    if str_equals(providers[i].id.as_str(), apple_intelligence_provider_id) {
        if apple_silicon {
            return Ok(ModelListing::AppleIntelligenceDefault);
        }
        return Err(
            "Apple Intelligence is only available on Apple silicon Macs running macOS 15 or later.".to_string(),
        );
    }
    if is_blank(api_key) && !str_equals(providers[i].id.as_str(), "custom") {
        return Err(
            concat3(
                "API key is required for ",
                providers[i].label.as_str(),
                ". Please add an API key to list available models.",
            ),
        );
    }
    Ok(ModelListing::Fetch(i))
}

} // verus!
