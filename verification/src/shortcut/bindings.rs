//! Which bindings go to the global shortcut service at startup, on suspend and resume, and
//! what resetting bindings to their defaults does to the stored bindings.

use vstd::prelude::*;
use crate::shortcut::{
    binding_position, binding_view, copy_binding, failure, find_binding, is_fn_binding, is_fn_shortcut, BindingResponse, ShortcutBinding,
};
use crate::text::{concat3, str_equals};

verus! {

/// The views of a binding's fields: ID, name, description, default and current shortcut.
pub type BindingView = (Seq<char>, Seq<char>, Seq<char>, Seq<char>, Seq<char>);

/// The view of a response: success, the binding, the error.
pub type ResponseView = (bool, Option<BindingView>, Option<Seq<char>>);

/// The views of a sequence of bindings.
pub open spec fn binding_views(s: Seq<ShortcutBinding>) -> Seq<BindingView> {
    s.map_values(|b: ShortcutBinding| binding_view(b))
}

/// The view of a response.
pub open spec fn response_view(r: BindingResponse) -> ResponseView {
    (
        r.success,
        match r.binding {
            Some(b) => Some(binding_view(b)),
            None => None,
        },
        match r.error {
            Some(e) => Some(e@),
            None => None,
        },
    )
}

/// The views of a sequence of strings.
pub open spec fn string_views(s: Seq<String>) -> Seq<Seq<char>> {
    s.map_values(|x: String| x@)
}

/// The position of the first binding view with the given ID.
pub open spec fn view_position(s: Seq<BindingView>, id: Seq<char>) -> Option<int>
    decreases s.len(),
{
    if s.len() == 0 {
        None
    } else if s[0].0 == id {
        Some(0)
    } else {
        match view_position(s.drop_first(), id) {
            Some(i) => Some(i + 1),
            None => None,
        }
    }
}

proof fn lemma_view_position_of_views(s: Seq<ShortcutBinding>, id: Seq<char>)
    ensures
        binding_position(s, id) == view_position(binding_views(s), id),
    decreases s.len(),
{
    if s.len() > 0 {
        assert(binding_views(s.drop_first()) =~= binding_views(s).drop_first());
        lemma_view_position_of_views(s.drop_first(), id);
    }
}

proof fn lemma_view_position_found(s: Seq<BindingView>, id: Seq<char>)
    ensures
        match view_position(s, id) {
            Some(i) => 0 <= i < s.len() && s[i].0 == id && forall|j: int|
                0 <= j < i ==> (#[trigger] s[j]).0 != id,
            None => forall|j: int| 0 <= j < s.len() ==> (#[trigger] s[j]).0 != id,
        },
    decreases s.len(),
{
    if s.len() > 0 {
        let rest = s.drop_first();
        lemma_view_position_found(rest, id);
        if s[0].0 != id {
            match view_position(rest, id) {
                Some(i) => {
                    assert forall|j: int| 0 <= j < i + 1 implies (#[trigger] s[j]).0 != id by {
                        if j > 0 {
                            assert(s[j] == rest[j - 1]);
                        }
                    }
                },
                None => {
                    assert forall|j: int| 0 <= j < s.len() implies (#[trigger] s[j]).0 != id by {
                        if j > 0 {
                            assert(s[j] == rest[j - 1]);
                        }
                    }
                },
            }
        }
    }
}

/// Positions depend on the IDs alone.
proof fn lemma_view_position_same_ids(a: Seq<BindingView>, b: Seq<BindingView>, id: Seq<char>)
    requires
        a.len() == b.len(),
        forall|j: int| 0 <= j < a.len() ==> (#[trigger] a[j]).0 == b[j].0,
    ensures
        view_position(a, id) == view_position(b, id),
    decreases a.len(),
{
    if a.len() > 0 {
        assert forall|j: int| 0 <= j < a.len() - 1 implies (#[trigger] a.drop_first()[j]).0
            == b.drop_first()[j].0 by {
            assert(a.drop_first()[j] == a[j + 1]);
            assert(b.drop_first()[j] == b[j + 1]);
        }
        lemma_view_position_same_ids(a.drop_first(), b.drop_first(), id);
    }
}

/// The binding in effect for a default binding: the stored one with its ID, or else the
/// default itself.
pub open spec fn effective_binding(stored: Seq<ShortcutBinding>, default: ShortcutBinding) -> BindingView {
    match binding_position(stored, default.id@) {
        Some(i) => binding_view(stored[i]),
        None => binding_view(default),
    }
}

/// The bindings registered with the global shortcut service at startup: for each default
/// binding in order, except `cancel` (registered while recording only), the binding in
/// effect, unless the `fn` key monitor handles it.
pub open spec fn startup_registrations(
    stored: Seq<ShortcutBinding>,
    defaults: Seq<ShortcutBinding>,
) -> Seq<BindingView>
    decreases defaults.len(),
{
    if defaults.len() == 0 {
        seq![]
    } else {
        let rest = startup_registrations(stored, defaults.drop_last());
        let d = defaults.last();
        let b = effective_binding(stored, d);
        if d.id@ == "cancel"@ || is_fn_shortcut(b.4) {
            rest
        } else {
            rest.push(b)
        }
    }
}

/// The bindings to register when the app starts.
pub fn startup_bindings(stored: &Vec<ShortcutBinding>, defaults: &Vec<ShortcutBinding>) -> (r: Vec<
    ShortcutBinding,
>)
    ensures
        binding_views(r@) == startup_registrations(stored@, defaults@),
{
    let mut r: Vec<ShortcutBinding> = Vec::new();
    let mut i: usize = 0;
    while i < defaults.len()
        invariant
            i <= defaults.len(),
            binding_views(r@) == startup_registrations(stored@, defaults@.take(i as int)),
        decreases defaults.len() - i,
    {
        assert(defaults@.take(i + 1).drop_last() =~= defaults@.take(i as int));
        let d = &defaults[i];
        let b = match find_binding(stored, d.id.as_str()) {
            Some(j) => copy_binding(&stored[j]),
            None => copy_binding(d),
        };
        if !str_equals(d.id.as_str(), "cancel") && !is_fn_binding(b.current_binding.as_str()) {
            r.push(b);
            assert(binding_views(r@) =~= binding_views(r@.drop_last()).push(binding_view(b)));
        }
        i = i + 1;
    }
    assert(defaults@.take(defaults.len() as int) =~= defaults@);
    r
}

/// The stored binding with this ID that the global shortcut service handles, if any; a
/// binding of the `fn` key monitor is left alone when a binding is suspended or resumed.
pub open spec fn global_shortcut_for(stored: Seq<ShortcutBinding>, id: Seq<char>) -> Option<BindingView> {
    match binding_position(stored, id) {
        Some(i) => if is_fn_shortcut(stored[i].current_binding@) {
            None
        } else {
            Some(binding_view(stored[i]))
        },
        None => None,
    }
}

/// The binding to unregister while the user edits binding `id`, or to register again
/// afterwards.
pub fn global_shortcut_binding(stored: &Vec<ShortcutBinding>, id: &str) -> (r: Option<
    ShortcutBinding,
>)
    ensures
        match global_shortcut_for(stored@, id@) {
            Some(v) => r matches Some(b) && binding_view(b) == v,
            None => r is None,
        },
{
    match find_binding(stored, id) {
        Some(i) => {
            if is_fn_binding(stored[i].current_binding.as_str()) {
                None
            } else {
                Some(copy_binding(&stored[i]))
            }
        },
        None => None,
    }
}

/// A binding view reset to the default shortcut `d`.
pub open spec fn reset_view(b: BindingView, d: Seq<char>) -> BindingView {
    (b.0, b.1, b.2, d, d)
}

/// The default shortcut of binding `id`.
pub open spec fn default_shortcut(defaults: Seq<ShortcutBinding>, id: Seq<char>) -> Seq<char> {
    defaults[binding_position(defaults, id)->0].default_binding@
}

fn reset_binding_to(b: &ShortcutBinding, d: &str) -> (r: ShortcutBinding)
    ensures
        binding_view(r) == reset_view(binding_view(*b), d@),
{
    ShortcutBinding {
        id: b.id.clone(),
        name: b.name.clone(),
        description: b.description.clone(),
        default_binding: d.to_string(),
        current_binding: d.to_string(),
    }
}

/// What resetting binding `id` does before it is changed: the stored binding, if there is
/// one, gets the default's `default_binding`; the binding is then changed to that shortcut.
pub struct ResetBindingPlan {
    /// The stored binding with its default brought up to date, to be written back.
    pub synced: Option<ShortcutBinding>,
    /// The shortcut to change the binding to.
    pub binding: String,
}

/// Plans resetting binding `id` to its default shortcut; fails when the defaults have no
/// such binding.
pub fn plan_reset_binding(
    stored: &Vec<ShortcutBinding>,
    defaults: &Vec<ShortcutBinding>,
    id: &str,
) -> (r: Result<ResetBindingPlan, String>)
    ensures
        match binding_position(defaults@, id@) {
            None => r matches Err(e) && e@ == "No default binding found for id '"@ + id@ + "'"@,
            Some(d) => r matches Ok(p) && p.binding@ == defaults@[d].default_binding@ && match binding_position(
                stored@,
                id@,
            ) {
                Some(i) => p.synced matches Some(b) && binding_view(b) == (
                    stored@[i].id@,
                    stored@[i].name@,
                    stored@[i].description@,
                    defaults@[d].default_binding@,
                    stored@[i].current_binding@,
                ),
                None => p.synced is None,
            },
        },
{
    let d = match find_binding(defaults, id) {
        Some(d) => d,
        None => {
            return Err(concat3("No default binding found for id '", id, "'"));
        },
    };
    let default_value = defaults[d].default_binding.clone();
    let synced = match find_binding(stored, id) {
        Some(i) => {
            let b = &stored[i];
            Some(
                ShortcutBinding {
                    id: b.id.clone(),
                    name: b.name.clone(),
                    description: b.description.clone(),
                    default_binding: default_value.clone(),
                    current_binding: b.current_binding.clone(),
                },
            )
        },
        None => None,
    };
    Ok(ResetBindingPlan { synced, binding: default_value })
}

/// The state of resetting bindings in turn: the bindings, those unregistered so far, and
/// the responses so far.
pub type ResetState = (Seq<BindingView>, Seq<BindingView>, Seq<ResponseView>);

/// Resetting binding `id`, whose default exists: a stored binding is unregistered, then
/// gets the default shortcut as default and current one and is answered; an ID that is not
/// stored is answered with a failure.
pub open spec fn reset_step(defaults: Seq<ShortcutBinding>, state: ResetState, id: Seq<char>) -> ResetState {
    let d = default_shortcut(defaults, id);
    match view_position(state.0, id) {
        Some(i) => {
            let b = reset_view(state.0[i], d);
            (state.0.update(i, b), state.1.push(state.0[i]), state.2.push((true, Some(b), None)))
        },
        None => (
            state.0,
            state.1,
            state.2.push((false, None, Some("Binding '"@ + id + "' not found"@))),
        ),
    }
}

/// Resetting the bindings `ids` in turn, starting from `stored`: the final state, or, at
/// the first ID without a default binding, the bindings unregistered until then and the
/// error.
pub open spec fn reset_all(
    stored: Seq<BindingView>,
    defaults: Seq<ShortcutBinding>,
    ids: Seq<Seq<char>>,
) -> Result<ResetState, (Seq<BindingView>, Seq<char>)>
    decreases ids.len(),
{
    if ids.len() == 0 {
        Ok((stored, seq![], seq![]))
    } else {
        match reset_all(stored, defaults, ids.drop_last()) {
            Err(e) => Err(e),
            Ok(st) => if binding_position(defaults, ids.last()) is None {
                Err((st.1, "No default binding found for id '"@ + ids.last() + "'"@))
            } else {
                Ok(reset_step(defaults, st, ids.last()))
            },
        }
    }
}

/// The bindings of successful responses that the global shortcut service handles, in order.
pub open spec fn registrations_after_reset(responses: Seq<ResponseView>) -> Seq<BindingView>
    decreases responses.len(),
{
    if responses.len() == 0 {
        seq![]
    } else {
        let rest = registrations_after_reset(responses.drop_last());
        match responses.last().1 {
            Some(b) => if is_fn_shortcut(b.4) {
                rest
            } else {
                rest.push(b)
            },
            None => rest,
        }
    }
}

proof fn lemma_reset_error_persists(
    stored: Seq<BindingView>,
    defaults: Seq<ShortcutBinding>,
    ids: Seq<Seq<char>>,
    n: int,
    m: int,
)
    requires
        0 <= n <= m <= ids.len(),
        reset_all(stored, defaults, ids.take(n)) is Err,
    ensures
        reset_all(stored, defaults, ids.take(m)) == reset_all(stored, defaults, ids.take(n)),
    decreases m - n,
{
    if m > n {
        lemma_reset_error_persists(stored, defaults, ids, n, m - 1);
        assert(ids.take(m).drop_last() =~= ids.take(m - 1));
    }
}

/// Resetting bindings that all have defaults keeps every binding's ID, name and
/// description; each listed binding that is stored ends with its default shortcut as both
/// its default and current shortcut, every other binding is left as it was, and the
/// response for each ID succeeds exactly when the ID is stored.
pub proof fn law_reset_restores_defaults(
    stored: Seq<BindingView>,
    defaults: Seq<ShortcutBinding>,
    ids: Seq<Seq<char>>,
)
    requires
        reset_all(stored, defaults, ids) is Ok,
    ensures
        ({
            let st = reset_all(stored, defaults, ids)->Ok_0;
            &&& forall|k: int| 0 <= k < ids.len() ==> binding_position(defaults, #[trigger] ids[k])
                is Some
            &&& st.0.len() == stored.len()
            &&& forall|j: int|
                0 <= j < stored.len() ==> (#[trigger] st.0[j]).0 == stored[j].0 && st.0[j].1
                    == stored[j].1 && st.0[j].2 == stored[j].2
            &&& st.2.len() == ids.len()
            &&& forall|k: int| 0 <= k < ids.len() ==> (#[trigger] st.2[k]).0 == (view_position(
                stored,
                ids[k],
            ) is Some)
            &&& forall|k: int|
                0 <= k < ids.len() && view_position(stored, #[trigger] ids[k]) is Some ==> st.0[view_position(
                    stored,
                    ids[k],
                )->0] == reset_view(
                    stored[view_position(stored, ids[k])->0],
                    default_shortcut(defaults, ids[k]),
                )
            &&& forall|j: int|
                0 <= j < stored.len() && (forall|k: int|
                    0 <= k < ids.len() ==> view_position(stored, #[trigger] ids[k]) != Some(j))
                    ==> #[trigger] st.0[j] == stored[j]
        }),
    decreases ids.len(),
{
    if ids.len() > 0 {
        let prev_ids = ids.drop_last();
        let id = ids.last();
        law_reset_restores_defaults(stored, defaults, prev_ids);
        let prev = reset_all(stored, defaults, prev_ids)->Ok_0;
        let st = reset_all(stored, defaults, ids)->Ok_0;
        assert(st == reset_step(defaults, prev, id));
        lemma_view_position_same_ids(prev.0, stored, id);
        lemma_view_position_found(stored, id);
        assert forall|k: int| 0 <= k < prev_ids.len() implies #[trigger] prev_ids[k] == ids[k] by {}
        match view_position(stored, id) {
            Some(i) => {
                let d = default_shortcut(defaults, id);
                assert(st.0 == prev.0.update(i, reset_view(prev.0[i], d)));
                assert forall|k: int|
                    0 <= k < ids.len() && view_position(stored, #[trigger] ids[k]) is Some implies st.0[view_position(
                    stored,
                    ids[k],
                )->0] == reset_view(
                    stored[view_position(stored, ids[k])->0],
                    default_shortcut(defaults, ids[k]),
                ) by {
                    lemma_view_position_found(stored, ids[k]);
                    if k < ids.len() - 1 {
                        assert(prev_ids[k] == ids[k]);
                    }
                }
                assert forall|j: int|
                    0 <= j < stored.len() && (forall|k: int|
                        0 <= k < ids.len() ==> view_position(stored, #[trigger] ids[k]) != Some(j))
                        implies #[trigger] st.0[j] == stored[j] by {
                    assert(view_position(stored, ids[ids.len() - 1]) != Some(j));
                    assert forall|k: int| 0 <= k < prev_ids.len() implies view_position(
                        stored,
                        #[trigger] prev_ids[k],
                    ) != Some(j) by {
                        assert(prev_ids[k] == ids[k]);
                    }
                }
            },
            None => {
                assert forall|k: int|
                    0 <= k < ids.len() && view_position(stored, #[trigger] ids[k]) is Some implies st.0[view_position(
                    stored,
                    ids[k],
                )->0] == reset_view(
                    stored[view_position(stored, ids[k])->0],
                    default_shortcut(defaults, ids[k]),
                ) by {
                    if k < ids.len() - 1 {
                        assert(prev_ids[k] == ids[k]);
                    }
                }
                assert forall|j: int|
                    0 <= j < stored.len() && (forall|k: int|
                        0 <= k < ids.len() ==> view_position(stored, #[trigger] ids[k]) != Some(j))
                        implies #[trigger] st.0[j] == stored[j] by {
                    assert forall|k: int| 0 <= k < prev_ids.len() implies view_position(
                        stored,
                        #[trigger] prev_ids[k],
                    ) != Some(j) by {
                        assert(prev_ids[k] == ids[k]);
                    }
                }
            },
        }
        assert forall|k: int| 0 <= k < ids.len() implies binding_position(defaults, #[trigger] ids[k])
            is Some by {
            if k < ids.len() - 1 {
                assert(prev_ids[k] == ids[k]);
            }
        }
        assert forall|k: int| 0 <= k < ids.len() implies (#[trigger] st.2[k]).0 == (view_position(
            stored,
            ids[k],
        ) is Some) by {
            if k < ids.len() - 1 {
                assert(prev_ids[k] == ids[k]);
            }
        }
    }
}

/// The outcome of resetting bindings when every ID has a default.
pub struct ResetBindingsOutcome {
    /// The bindings to store.
    pub stored: Vec<ShortcutBinding>,
    /// One response per ID, in order.
    pub responses: Vec<BindingResponse>,
    /// The reset bindings to register again, in order.
    pub register: Vec<ShortcutBinding>,
}

/// What resetting several bindings does.
pub struct ResetBindingsPlan {
    /// The bindings unregistered before they were reset, in order.
    pub unregister: Vec<ShortcutBinding>,
    /// The outcome, or the error for the first ID without a default binding.
    pub outcome: Result<ResetBindingsOutcome, String>,
}

/// The response views of a sequence of responses.
pub open spec fn response_views(s: Seq<BindingResponse>) -> Seq<ResponseView> {
    s.map_values(|r: BindingResponse| response_view(r))
}

fn success(b: ShortcutBinding) -> (r: BindingResponse)
    ensures
        response_view(r) == (true, Some(binding_view(b)), None::<Seq<char>>),
{
    BindingResponse { success: true, binding: Some(b), error: None }
}

proof fn lemma_views_update(s: Seq<ShortcutBinding>, i: int, b: ShortcutBinding)
    requires
        0 <= i < s.len(),
    ensures
        binding_views(s.update(i, b)) == binding_views(s).update(i, binding_view(b)),
{
    assert(binding_views(s.update(i, b)) =~= binding_views(s).update(i, binding_view(b)));
}

/// Resets the bindings `ids` to their defaults together, so that no reset binding is
/// refused because of the current shortcut of another.
pub fn plan_reset_bindings(
    stored: &Vec<ShortcutBinding>,
    defaults: &Vec<ShortcutBinding>,
    ids: &Vec<String>,
) -> (r: ResetBindingsPlan)
    ensures
        match reset_all(binding_views(stored@), defaults@, string_views(ids@)) {
            Ok(st) => r.outcome matches Ok(o) && binding_views(o.stored@) == st.0 && binding_views(
                r.unregister@,
            ) == st.1 && response_views(o.responses@) == st.2 && binding_views(o.register@)
                == registrations_after_reset(st.2),
            Err((u, e)) => r.outcome matches Err(m) && m@ == e && binding_views(r.unregister@) == u,
        },
{
    let mut current: Vec<ShortcutBinding> = Vec::new();
    let mut j: usize = 0;
    while j < stored.len()
        invariant
            j <= stored.len(),
            current@.len() == j,
            forall|i: int| 0 <= i < j ==> binding_view(#[trigger] current@[i]) == binding_view(
                stored@[i],
            ),
        decreases stored.len() - j,
    {
        current.push(copy_binding(&stored[j]));
        j = j + 1;
    }
    assert(binding_views(current@) =~= binding_views(stored@));
    let ghost idv = string_views(ids@);
    let mut unregister: Vec<ShortcutBinding> = Vec::new();
    let mut responses: Vec<BindingResponse> = Vec::new();
    assert(idv.take(0) =~= Seq::<Seq<char>>::empty());
    assert(binding_views(unregister@) =~= Seq::<BindingView>::empty());
    assert(response_views(responses@) =~= Seq::<ResponseView>::empty());
    let mut k: usize = 0;
    while k < ids.len()
        invariant
            k <= ids.len(),
            idv == string_views(ids@),
            reset_all(binding_views(stored@), defaults@, idv.take(k as int)) == Ok::<
                ResetState,
                (Seq<BindingView>, Seq<char>),
            >((binding_views(current@), binding_views(unregister@), response_views(responses@))),
        decreases ids.len() - k,
    {
        assert(idv.take(k + 1).drop_last() =~= idv.take(k as int));
        assert(idv.take(k + 1).last() == ids@[k as int]@);
        let id = ids[k].as_str();
        let d = match find_binding(defaults, id) {
            Some(d) => d,
            None => {
                proof {
                    lemma_reset_error_persists(
                        binding_views(stored@),
                        defaults@,
                        idv,
                        k + 1,
                        ids.len() as int,
                    );
                    assert(idv.take(ids.len() as int) =~= idv);
                }
                return ResetBindingsPlan {
                    unregister,
                    outcome: Err(concat3("No default binding found for id '", id, "'")),
                };
            },
        };
        proof {
            lemma_view_position_of_views(current@, id@);
        }
        match find_binding(&current, id) {
            Some(i) => {
                let previous = copy_binding(&current[i]);
                unregister.push(previous);
                let b = reset_binding_to(&current[i], defaults[d].default_binding.as_str());
                let resp = success(copy_binding(&b));
                proof {
                    lemma_views_update(current@, i as int, b);
                }
                current.set(i, b);
                responses.push(resp);
            },
            None => {
                responses.push(failure(concat3("Binding '", id, "' not found")));
            },
        }
        assert(binding_views(unregister@) =~= reset_all(
            binding_views(stored@),
            defaults@,
            idv.take(k + 1),
        )->Ok_0.1);
        assert(response_views(responses@) =~= reset_all(
            binding_views(stored@),
            defaults@,
            idv.take(k + 1),
        )->Ok_0.2);
        k = k + 1;
    }
    assert(idv.take(ids.len() as int) =~= idv);
    let mut register: Vec<ShortcutBinding> = Vec::new();
    let mut m: usize = 0;
    while m < responses.len()
        invariant
            m <= responses.len(),
            binding_views(register@) == registrations_after_reset(
                response_views(responses@).take(m as int),
            ),
        decreases responses.len() - m,
    {
        assert(response_views(responses@).take(m + 1).drop_last() =~= response_views(
            responses@,
        ).take(m as int));
        match &responses[m].binding {
            Some(b) => {
                if !is_fn_binding(b.current_binding.as_str()) {
                    register.push(copy_binding(b));
                    assert(binding_views(register@) =~= binding_views(register@.drop_last()).push(
                        binding_view(*b),
                    ));
                }
            },
            None => {},
        }
        m = m + 1;
    }
    assert(response_views(responses@).take(responses.len() as int) =~= response_views(responses@));
    ResetBindingsPlan {
        unregister,
        outcome: Ok(ResetBindingsOutcome { stored: current, responses, register }),
    }
}

} // verus!
