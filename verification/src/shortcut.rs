//! Shortcut rules: validation of shortcut strings and post-processing providers, which
//! bindings belong to the `fn` key monitor, and the reserved system shortcuts.

pub mod bindings;
pub mod choices;
pub mod post_process;
pub mod reserved;

use vstd::prelude::*;
use crate::keyed::KeyedValues;
use crate::text::{chars_of, concat3, is_blank, split_chars, split_on, starts_with, str_equals, str_lowercase_mapping, str_to_lowercase, string_from_chars, trim, trim_chars, vec_starts_with, views};

verus! {

/// A configurable shortcut and what it is bound to.
#[derive(Clone, Debug, PartialEq, Eq)]
pub struct ShortcutBinding {
    pub id: String,
    pub name: String,
    pub description: String,
    pub default_binding: String,
    pub current_binding: String,
}

/// The answer to a request to change a binding.
#[derive(Clone, Debug, PartialEq, Eq)]
pub struct BindingResponse {
    pub success: bool,
    pub binding: Option<ShortcutBinding>,
    pub error: Option<String>,
}

/// The names of the modifier keys.
pub open spec fn modifier_names() -> Seq<Seq<char>> {
    seq![
        "ctrl"@,
        "control"@,
        "shift"@,
        "alt"@,
        "option"@,
        "meta"@,
        "command"@,
        "cmd"@,
        "super"@,
        "win"@,
        "windows"@,
    ]
}

/// A `+`-separated key of a shortcut that is not a modifier (compared trimmed and
/// lowercased).
pub open spec fn is_main_key(part: Seq<char>) -> bool {
    !modifier_names().contains(str_lowercase_mapping(trim(part)))
}

/// Why a shortcut string is refused, if it is: it is blank, or it holds only modifiers.
pub open spec fn shortcut_string_error(raw: Seq<char>) -> Option<Seq<char>> {
    if trim(raw).len() == 0 {
        Some("Shortcut cannot be empty"@)
    } else if exists|i: int|
        0 <= i < split_on(raw, '+').len() && is_main_key(#[trigger] split_on(raw, '+')[i]) {
        None
    } else {
        Some(
            "Shortcut must include a main key (letter, number, F-key, etc.) in addition to modifiers"@,
        )
    }
}

fn is_modifier(name: &str) -> (r: bool)
    ensures
        r == modifier_names().contains(name@),
{
    let ghost m = modifier_names();
    let names: [&str; 11] = [
        "ctrl",
        "control",
        "shift",
        "alt",
        "option",
        "meta",
        "command",
        "cmd",
        "super",
        "win",
        "windows",
    ];
    assert(names@.map_values(|s: &str| s@) =~= m);
    let mut i: usize = 0;
    while i < 11
        invariant
            i <= 11,
            m == modifier_names(),
            names@.map_values(|s: &str| s@) == m,
            forall|k: int| 0 <= k < i ==> #[trigger] m[k] != name@,
        decreases 11 - i,
    {
        assert(m[i as int] == names@[i as int]@);
        if str_equals(names[i], name) {
            return true;
        }
        i = i + 1;
    }
    false
}

/// Checks that a shortcut string is not blank and has a main key besides modifiers.
pub fn validate_shortcut_string(raw: &str) -> (r: Result<(), String>)
    ensures
        match shortcut_string_error(raw@) {
            Some(m) => r matches Err(e) && e@ == m,
            None => r is Ok,
        },
{
    if is_blank(raw) {
        return Err("Shortcut cannot be empty".to_string());
    }
    let rv = chars_of(raw);
    let parts = split_chars(&rv, '+');
    let ghost ps = split_on(raw@, '+');
    let mut i: usize = 0;
    while i < parts.len()
        invariant
            i <= parts.len(),
            views(parts@) == ps,
            ps == split_on(raw@, '+'),
            trim(raw@).len() != 0,
            forall|k: int| 0 <= k < i ==> !is_main_key(#[trigger] ps[k]),
        decreases parts.len() - i,
    {
        assert(ps[i as int] == parts@[i as int]@);
        let trimmed = string_from_chars(&trim_chars(&parts[i]));
        let lower = str_to_lowercase(trimmed.as_str());
        if !is_modifier(lower.as_str()) {
            assert(is_main_key(ps[i as int]));
            return Ok(());
        }
        i = i + 1;
    }
    Err(
        "Shortcut must include a main key (letter, number, F-key, etc.) in addition to modifiers".to_string(),
    )
}

/// Why a post-processing provider cannot be selected: it is not among the configured ones.
pub open spec fn provider_error(provider_ids: Seq<Seq<char>>, provider_id: Seq<char>) -> Option<
    Seq<char>,
> {
    if provider_ids.contains(provider_id) {
        None
    } else {
        Some("Provider '"@ + provider_id + "' not found"@)
    }
}

/// The views of a list of strings.
pub open spec fn string_seq(v: Seq<String>) -> Seq<Seq<char>> {
    v.map_values(|s: String| s@)
}

/// Checks that a provider with the given ID is configured.
pub fn validate_provider_exists(provider_ids: &Vec<String>, provider_id: &str) -> (r: Result<
    (),
    String,
>)
    ensures
        match provider_error(string_seq(provider_ids@), provider_id@) {
            Some(m) => r matches Err(e) && e@ == m,
            None => r is Ok,
        },
{
    let ghost ids = string_seq(provider_ids@);
    let mut i: usize = 0;
    while i < provider_ids.len()
        invariant
            i <= provider_ids.len(),
            ids == string_seq(provider_ids@),
            forall|k: int| 0 <= k < i ==> #[trigger] ids[k] != provider_id@,
        decreases provider_ids.len() - i,
    {
        assert(ids[i as int] == provider_ids@[i as int]@);
        if str_equals(provider_ids[i].as_str(), provider_id) {
            return Ok(());
        }
        i = i + 1;
    }
    Err(concat3("Provider '", provider_id, "' not found"))
}

/// `s` holds `p` somewhere.
pub open spec fn contains_seq(s: Seq<char>, p: Seq<char>) -> bool {
    exists|i: int| 0 <= i && i + p.len() <= s.len() && #[trigger] s.subrange(i, i + p.len()) == p
}

/// A binding handled by the `fn` key monitor rather than by global shortcuts: `fn` alone,
/// or a combination with `fn` (compared lowercased).
pub open spec fn is_fn_shortcut(binding: Seq<char>) -> bool {
    let lower = str_lowercase_mapping(binding);
    lower == "fn"@ || starts_with(lower, "fn+"@) || contains_seq(lower, "+fn"@)
}

fn vec_contains_plus_fn(v: &Vec<char>) -> (r: bool)
    ensures
        r == contains_seq(v@, "+fn"@),
{
    let ghost p = "+fn"@;
    proof {
        reveal_strlit("+fn");
    }
    assert(p =~= seq!['+', 'f', 'n']);
    if v.len() < 3 {
        return false;
    }
    let mut i: usize = 0;
    while i < v.len() - 2
        invariant
            3 <= v.len(),
            i <= v.len() - 2,
            p == seq!['+', 'f', 'n'],
            p == "+fn"@,
            forall|k: int| 0 <= k < i ==> #[trigger] v@.subrange(k, k + 3) != p,
        decreases v.len() - i,
    {
        if v[i] == '+' && v[i + 1] == 'f' && v[i + 2] == 'n' {
            assert(v@.subrange(i as int, i + 3) =~= p);
            return true;
        }
        assert(v@.subrange(i as int, i + 3)[0] == v@[i as int]);
        assert(v@.subrange(i as int, i + 3)[1] == v@[i + 1]);
        assert(v@.subrange(i as int, i + 3)[2] == v@[i + 2]);
        i = i + 1;
    }
    assert forall|k: int| 0 <= k && k + 3 <= v@.len() implies #[trigger] v@.subrange(k, k + 3)
        != p by {
        assert(k < i);
    }
    false
}

/// Whether a binding is handled by the `fn` key monitor.
pub fn is_fn_binding(binding: &str) -> (r: bool)
    ensures
        r == is_fn_shortcut(binding@),
{
    let lower = str_to_lowercase(binding);
    let lv = chars_of(lower.as_str());
    str_equals(lower.as_str(), "fn") || vec_starts_with(&lv, "fn+") || vec_contains_plus_fn(&lv)
}

/// Why an `fn` shortcut cannot be given to binding `id`: another binding already uses it
/// (compared lowercased).
pub open spec fn fn_shortcut_conflict(
    bindings: Seq<ShortcutBinding>,
    id: Seq<char>,
    binding: Seq<char>,
) -> Option<Seq<char>> {
    if exists|k: int|
        0 <= k < bindings.len() && bindings[k].id@ != id && str_lowercase_mapping(
            #[trigger] bindings[k].current_binding@,
        ) == str_lowercase_mapping(binding) {
        Some("Shortcut '"@ + binding + "' is already in use"@)
    } else {
        None
    }
}

/// Checks that no other binding uses the shortcut.
pub fn check_fn_shortcut_unused(bindings: &Vec<ShortcutBinding>, id: &str, binding: &str) -> (r:
    Result<(), String>)
    ensures
        match fn_shortcut_conflict(bindings@, id@, binding@) {
            Some(m) => r matches Err(e) && e@ == m,
            None => r is Ok,
        },
{
    let lower = str_to_lowercase(binding);
    let mut i: usize = 0;
    while i < bindings.len()
        invariant
            i <= bindings.len(),
            lower@ == str_lowercase_mapping(binding@),
            forall|k: int|
                0 <= k < i ==> !(bindings@[k].id@ != id@ && str_lowercase_mapping(
                    #[trigger] bindings@[k].current_binding@,
                ) == str_lowercase_mapping(binding@)),
        decreases bindings.len() - i,
    {
        let other = &bindings[i];
        if !str_equals(other.id.as_str(), id) {
            let other_lower = str_to_lowercase(other.current_binding.as_str());
            if str_equals(other_lower.as_str(), lower.as_str()) {
                return Err(concat3("Shortcut '", binding, "' is already in use"));
            }
        }
        i = i + 1;
    }
    Ok(())
}

/// Whether a global shortcut was pressed or released.
#[derive(Clone, Copy, Debug, PartialEq, Eq, Structural)]
pub enum ShortcutEventState {
    Pressed,
    Released,
}

/// What a shortcut event does to its binding's action.
#[derive(Clone, Copy, Debug, PartialEq, Eq, Structural)]
pub enum ShortcutActionStep {
    Start,
    Stop,
    Ignore,
}

/// Which bindings toggle an action on and off, and whether each is on.
pub struct ToggleStates {
    active: KeyedValues<bool>,
}

impl View for ToggleStates {
    type V = Map<Seq<char>, bool>;

    closed spec fn view(&self) -> Map<Seq<char>, bool> {
        self.active@
    }
}

impl ToggleStates {
    /// No toggle is on.
    pub fn new() -> (r: Self)
        ensures
            r@ == Map::<Seq<char>, bool>::empty(),
    {
        ToggleStates { active: KeyedValues::new() }
    }

    /// Whether the binding's toggle is on.
    pub fn is_active(&self, binding_id: &str) -> (r: bool)
        ensures
            r == (self@.contains_key(binding_id@) && self@[binding_id@]),
    {
        match self.active.get(binding_id) {
            Some(v) => v,
            None => false,
        }
    }
}

/// The step a shortcut event causes, and the toggle states afterwards: cancel and paste
/// act once on press; the main transcribe shortcut is push-to-talk (press starts, release
/// stops); every other binding (hands-free included) toggles on press and ignores release.
pub open spec fn shortcut_step(
    binding_id: Seq<char>,
    event: ShortcutEventState,
    toggles: Map<Seq<char>, bool>,
) -> (ShortcutActionStep, Map<Seq<char>, bool>) {
    if binding_id == "cancel"@ || binding_id == "paste_last_transcript"@ {
        if event == ShortcutEventState::Pressed {
            (ShortcutActionStep::Start, toggles)
        } else {
            (ShortcutActionStep::Ignore, toggles)
        }
    } else if binding_id == "transcribe"@ {
        if event == ShortcutEventState::Pressed {
            (ShortcutActionStep::Start, toggles)
        } else {
            (ShortcutActionStep::Stop, toggles)
        }
    } else if event == ShortcutEventState::Pressed {
        let active = toggles.contains_key(binding_id) && toggles[binding_id];
        (
            if active {
                ShortcutActionStep::Stop
            } else {
                ShortcutActionStep::Start
            },
            toggles.insert(binding_id, !active),
        )
    } else {
        (ShortcutActionStep::Ignore, toggles)
    }
}

/// Decides what a global shortcut event does, updating the toggle states.
pub fn shortcut_event_action(
    binding_id: &str,
    event: ShortcutEventState,
    toggles: &mut ToggleStates,
) -> (r: ShortcutActionStep)
    ensures
        (r, final(toggles)@) == shortcut_step(binding_id@, event, old(toggles)@),
{
    let pressed = matches!(event, ShortcutEventState::Pressed);
    if str_equals(binding_id, "cancel") || str_equals(binding_id, "paste_last_transcript") {
        if pressed {
            ShortcutActionStep::Start
        } else {
            ShortcutActionStep::Ignore
        }
    } else if str_equals(binding_id, "transcribe") {
        if pressed {
            ShortcutActionStep::Start
        } else {
            ShortcutActionStep::Stop
        }
    } else if pressed {
        let active = toggles.is_active(binding_id);
        toggles.active.set(binding_id, !active);
        if active {
            ShortcutActionStep::Stop
        } else {
            ShortcutActionStep::Start
        }
    } else {
        ShortcutActionStep::Ignore
    }
}

/// Pressing a toggling shortcut twice starts then stops its action and leaves it off;
/// releases never change a toggle.
pub proof fn law_toggle_press_twice(binding_id: Seq<char>, toggles: Map<Seq<char>, bool>)
    requires
        binding_id != "cancel"@,
        binding_id != "paste_last_transcript"@,
        binding_id != "transcribe"@,
        !(toggles.contains_key(binding_id) && toggles[binding_id]),
    ensures
        ({
            let first = shortcut_step(binding_id, ShortcutEventState::Pressed, toggles);
            let second = shortcut_step(binding_id, ShortcutEventState::Pressed, first.1);
            &&& first.0 == ShortcutActionStep::Start
            &&& second.0 == ShortcutActionStep::Stop
            &&& !second.1[binding_id]
            &&& shortcut_step(binding_id, ShortcutEventState::Released, first.1).1 == first.1
        }),
{
}

/// The position of the first binding with the given ID.
pub open spec fn binding_position(bindings: Seq<ShortcutBinding>, id: Seq<char>) -> Option<int>
    decreases bindings.len(),
{
    if bindings.len() == 0 {
        None
    } else if bindings[0].id@ == id {
        Some(0)
    } else {
        match binding_position(bindings.drop_first(), id) {
            Some(i) => Some(i + 1),
            None => None,
        }
    }
}

proof fn lemma_binding_position(bindings: Seq<ShortcutBinding>, id: Seq<char>, i: int)
    requires
        0 <= i <= bindings.len(),
        forall|j: int| 0 <= j < i ==> (#[trigger] bindings[j]).id@ != id,
        i < bindings.len() ==> bindings[i].id@ == id,
    ensures
        i < bindings.len() ==> binding_position(bindings, id) == Some(i),
        i == bindings.len() ==> binding_position(bindings, id) is None,
    decreases i,
{
    if i > 0 {
        let rest = bindings.drop_first();
        assert(bindings[0].id@ != id);
        assert forall|j: int| 0 <= j < i - 1 implies (#[trigger] rest[j]).id@ != id by {
            assert(rest[j] == bindings[j + 1]);
        }
        if i < bindings.len() {
            assert(rest[i - 1] == bindings[i]);
        }
        lemma_binding_position(rest, id, i - 1);
    }
}

fn find_binding(bindings: &Vec<ShortcutBinding>, id: &str) -> (r: Option<usize>)
    ensures
        match binding_position(bindings@, id@) {
            Some(i) => r matches Some(x) && x as int == i && x < bindings.len(),
            None => r is None,
        },
{
    let mut i: usize = 0;
    while i < bindings.len()
        invariant
            i <= bindings.len(),
            forall|j: int| 0 <= j < i ==> (#[trigger] bindings@[j]).id@ != id@,
        decreases bindings.len() - i,
    {
        if str_equals(bindings[i].id.as_str(), id) {
            proof {
                lemma_binding_position(bindings@, id@, i as int);
            }
            return Some(i);
        }
        i = i + 1;
    }
    proof {
        lemma_binding_position(bindings@, id@, i as int);
    }
    None
}

/// The same binding with another current shortcut.
pub open spec fn rebound(b: ShortcutBinding, current: Seq<char>) -> (
    Seq<char>,
    Seq<char>,
    Seq<char>,
    Seq<char>,
    Seq<char>,
) {
    (b.id@, b.name@, b.description@, b.default_binding@, current)
}

/// The views of a binding's fields.
pub open spec fn binding_view(b: ShortcutBinding) -> (
    Seq<char>,
    Seq<char>,
    Seq<char>,
    Seq<char>,
    Seq<char>,
) {
    (b.id@, b.name@, b.description@, b.default_binding@, b.current_binding@)
}

fn with_current_binding(b: &ShortcutBinding, current: &str) -> (r: ShortcutBinding)
    ensures
        binding_view(r) == rebound(*b, current@),
{
    ShortcutBinding {
        id: b.id.clone(),
        name: b.name.clone(),
        description: b.description.clone(),
        default_binding: b.default_binding.clone(),
        current_binding: current.to_string(),
    }
}

/// What changing a binding comes to; the app performs the registration steps.
#[derive(Clone, Debug, PartialEq, Eq)]
pub enum BindingChange {
    /// The command fails with this error.
    Reject(String),
    /// The command answers this, changing nothing.
    Answer(BindingResponse),
    /// The cancel binding is stored as it is; it is registered while recording only.
    StoreCancel(ShortcutBinding),
    /// An `fn` binding is stored after unregistering the previous global shortcut; the key
    /// monitor handles it.
    StoreFn { previous: ShortcutBinding, updated: ShortcutBinding },
    /// The previous shortcut is unregistered, then the command fails with this error.
    UnregisterThenReject { previous: ShortcutBinding, error: String },
    /// The previous shortcut is unregistered, the updated one registered and stored.
    Register { previous: ShortcutBinding, updated: ShortcutBinding },
}

/// A failed binding response with this error.
pub open spec fn is_failure_response(r: BindingResponse, error: Seq<char>) -> bool {
    !r.success && r.binding is None && (r.error matches Some(e) && e@ == error)
}

/// The plan for changing binding `id` to `binding`, from the stored and the default
/// bindings, in the order the checks are made: a blank binding is refused; an unknown ID
/// is answered with a failure; the cancel binding is just stored; a reserved system
/// shortcut is answered with its reason; an `fn` binding is checked for duplicates and
/// stored; otherwise the previous shortcut is unregistered and the new one validated and
/// registered.
pub open spec fn binding_change_ok(
    stored: Seq<ShortcutBinding>,
    defaults: Seq<ShortcutBinding>,
    platform: reserved::Platform,
    id: Seq<char>,
    binding: Seq<char>,
    r: BindingChange,
) -> bool {
    let in_stored = binding_position(stored, id);
    let in_defaults = binding_position(defaults, id);
    if trim(binding).len() == 0 {
        r matches BindingChange::Reject(e) && e@ == "Binding cannot be empty"@
    } else if in_stored is None && in_defaults is None {
        r matches BindingChange::Answer(a) && is_failure_response(
            a,
            "Binding with id '"@ + id + "' not found in defaults"@,
        )
    } else {
        let to_modify = match in_stored {
            Some(i) => stored[i],
            None => defaults[in_defaults->0],
        };
        if id == "cancel"@ && in_stored is Some {
            r matches BindingChange::StoreCancel(b) && binding_view(b) == rebound(
                stored[in_stored->0],
                binding,
            )
        } else if reserved::reserved_reason(platform, binding) is Some {
            r matches BindingChange::Answer(a) && is_failure_response(
                a,
                "RESERVED:"@ + reserved::reserved_reason(platform, binding)->0,
            )
        } else if is_fn_shortcut(binding) && fn_shortcut_conflict(stored, id, binding) is Some {
            r matches BindingChange::Answer(a) && is_failure_response(
                a,
                fn_shortcut_conflict(stored, id, binding)->0,
            )
        } else if is_fn_shortcut(binding) && in_stored is Some {
            r matches BindingChange::StoreFn { previous: p, updated: u } && binding_view(p)
                == binding_view(stored[in_stored->0]) && binding_view(u) == rebound(
                stored[in_stored->0],
                binding,
            )
        } else if shortcut_string_error(binding) is Some {
            r matches BindingChange::UnregisterThenReject { previous: p, error: e }
                && binding_view(p) == binding_view(to_modify) && e@ == shortcut_string_error(
                binding,
            )->0
        } else {
            r matches BindingChange::Register { previous: p, updated: u } && binding_view(p)
                == binding_view(to_modify) && binding_view(u) == rebound(to_modify, binding)
        }
    }
}

fn copy_binding(b: &ShortcutBinding) -> (r: ShortcutBinding)
    ensures
        binding_view(r) == binding_view(*b),
{
    ShortcutBinding {
        id: b.id.clone(),
        name: b.name.clone(),
        description: b.description.clone(),
        default_binding: b.default_binding.clone(),
        current_binding: b.current_binding.clone(),
    }
}

fn failure(error: String) -> (r: BindingResponse)
    ensures
        is_failure_response(r, error@),
{
    BindingResponse { success: false, binding: None, error: Some(error) }
}

/// Plans a binding change.
pub fn plan_binding_change(
    stored: &Vec<ShortcutBinding>,
    defaults: &Vec<ShortcutBinding>,
    platform: reserved::Platform,
    id: &str,
    binding: &str,
) -> (r: BindingChange)
    ensures
        binding_change_ok(stored@, defaults@, platform, id@, binding@, r),
{
    if is_blank(binding) {
        return BindingChange::Reject("Binding cannot be empty".to_string());
    }
    let in_stored = find_binding(stored, id);
    let in_defaults = find_binding(defaults, id);
    let to_modify = match in_stored {
        Some(i) => copy_binding(&stored[i]),
        None => match in_defaults {
            Some(i) => copy_binding(&defaults[i]),
            None => {
                return BindingChange::Answer(
                    failure(concat3("Binding with id '", id, "' not found in defaults")),
                );
            },
        },
    };
    if str_equals(id, "cancel") {
        match in_stored {
            Some(i) => {
                return BindingChange::StoreCancel(with_current_binding(&stored[i], binding));
            },
            None => {},
        }
    }
    match reserved::check_reserved_shortcut(platform, binding) {
        Err(reason) => {
            return BindingChange::Answer(failure(reason));
        },
        Ok(()) => {},
    }
    if is_fn_binding(binding) {
        match check_fn_shortcut_unused(stored, id, binding) {
            Err(e) => {
                return BindingChange::Answer(failure(e));
            },
            Ok(()) => {},
        }
        match in_stored {
            Some(i) => {
                return BindingChange::StoreFn {
                    previous: copy_binding(&stored[i]),
                    updated: with_current_binding(&stored[i], binding),
                };
            },
            None => {},
        }
    }
    match validate_shortcut_string(binding) {
        Err(e) => {
            return BindingChange::UnregisterThenReject { previous: to_modify, error: e };
        },
        Ok(()) => {},
    }
    let updated = with_current_binding(&to_modify, binding);
    BindingChange::Register { previous: to_modify, updated }
}

/// A key name that is one of the modifiers: ctrl, control, shift, alt, option, meta,
/// command, cmd, super, win or windows.
pub open spec fn names_a_modifier(k: Seq<char>) -> bool {
    ||| k == "ctrl"@
    ||| k == "control"@
    ||| k == "shift"@
    ||| k == "alt"@
    ||| k == "option"@
    ||| k == "meta"@
    ||| k == "command"@
    ||| k == "cmd"@
    ||| k == "super"@
    ||| k == "win"@
    ||| k == "windows"@
}

proof fn lemma_modifier_names_are(k: Seq<char>)
    ensures
        modifier_names().contains(k) <==> names_a_modifier(k),
{
    let m = modifier_names();
    if names_a_modifier(k) {
        if k == "ctrl"@ { assert(m[0] == k); }
        else if k == "control"@ { assert(m[1] == k); }
        else if k == "shift"@ { assert(m[2] == k); }
        else if k == "alt"@ { assert(m[3] == k); }
        else if k == "option"@ { assert(m[4] == k); }
        else if k == "meta"@ { assert(m[5] == k); }
        else if k == "command"@ { assert(m[6] == k); }
        else if k == "cmd"@ { assert(m[7] == k); }
        else if k == "super"@ { assert(m[8] == k); }
        else if k == "win"@ { assert(m[9] == k); }
        else { assert(m[10] == k); }
    }
}

/// A non-blank shortcut whose `+`-separated keys, each trimmed and lowercased, are all
/// modifiers (ctrl, control, shift, alt, option, meta, command, cmd, super, win, windows)
/// is refused for want of a main key; as soon as one key is something else, the shortcut
/// is accepted.
pub proof fn law_modifiers_alone_are_refused(raw: Seq<char>)
    requires
        trim(raw).len() > 0,
    ensures
        (forall|i: int|
            0 <= i < split_on(raw, '+').len() ==> names_a_modifier(
                str_lowercase_mapping(trim(#[trigger] split_on(raw, '+')[i])),
            )) ==> shortcut_string_error(raw) == Some(
            "Shortcut must include a main key (letter, number, F-key, etc.) in addition to modifiers"@,
        ),
        (exists|i: int|
            0 <= i < split_on(raw, '+').len() && !names_a_modifier(
                str_lowercase_mapping(trim(#[trigger] split_on(raw, '+')[i])),
            )) ==> shortcut_string_error(raw) is None,
{
    let ps = split_on(raw, '+');
    assert forall|i: int| 0 <= i < ps.len() implies is_main_key(#[trigger] ps[i]) == !names_a_modifier(
        str_lowercase_mapping(trim(ps[i])),
    ) by {
        lemma_modifier_names_are(str_lowercase_mapping(trim(ps[i])));
    }
}

} // verus!

