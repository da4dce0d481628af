//! The catalog of local MLX models: model entries with their download sources, the
//! validated catalog (unique IDs and aliases, a default that exists), alias resolution,
//! and the catalog that ships with the app.

use vstd::prelude::*;
use crate::text::{concat3, concat_str, str_equals};
use vstd::std_specs::iter::IteratorSpec;

verus! {

#[derive(Clone, Copy, Debug, PartialEq, Eq, Structural)]
pub enum ModelSourceKind {
    HuggingfaceRepo,
    HttpMirror,
}

#[derive(Clone, Debug, PartialEq, Eq)]
pub struct ModelSource {
    pub kind: ModelSourceKind,
    pub value: String,
    pub priority: u32,
    pub enabled: bool,
    pub allow_fallback: bool,
}

#[derive(Clone, Debug, PartialEq, Eq)]
pub struct MlxCatalogModel {
    pub canonical_id: String,
    pub aliases: Vec<String>,
    pub display_name: String,
    pub description: String,
    pub size_bytes: u64,
    pub parameters: String,
    pub sources: Vec<ModelSource>,
}

/// An enabled Hugging Face source.
pub open spec fn hf_candidate(s: ModelSource) -> bool {
    s.enabled && s.kind == ModelSourceKind::HuggingfaceRepo
}

/// Among the first `n` sources, source `i` is the first enabled Hugging Face source of
/// lowest priority.
pub open spec fn primary_within(sources: Seq<ModelSource>, i: int, n: int) -> bool {
    &&& 0 <= i < n <= sources.len()
    &&& hf_candidate(sources[i])
    &&& forall|j: int|
        0 <= j < n && hf_candidate(#[trigger] sources[j]) ==> sources[i].priority
            <= sources[j].priority
    &&& forall|j: int|
        0 <= j < i && hf_candidate(#[trigger] sources[j]) ==> sources[i].priority
            < sources[j].priority
}

/// Source `i` is the first enabled Hugging Face source of lowest priority.
pub open spec fn is_primary_hf(sources: Seq<ModelSource>, i: int) -> bool {
    primary_within(sources, i, sources.len() as int)
}

impl MlxCatalogModel {
    /// The repository of the enabled Hugging Face source with the lowest priority (the
    /// first of them on a tie).
    pub fn primary_hf_repo(&self) -> (r: Option<&str>)
        ensures
            r.is_none() <==> forall|j: int|
                0 <= j < self.sources@.len() ==> !hf_candidate(#[trigger] self.sources@[j]),
            r.is_some() ==> exists|i: int|
                is_primary_hf(self.sources@, i) && r.unwrap()@ == self.sources@[i].value@,
    {
        let mut best: Option<usize> = None;
        let mut i: usize = 0;
        while i < self.sources.len()
            invariant
                i <= self.sources.len(),
                match best {
                    None => forall|j: int|
                        0 <= j < i ==> !hf_candidate(#[trigger] self.sources@[j]),
                    Some(b) => primary_within(self.sources@, b as int, i as int),
                },
            decreases self.sources.len() - i,
        {
            let s = &self.sources[i];
            if s.enabled && s.kind == ModelSourceKind::HuggingfaceRepo {
                match best {
                    None => {
                        best = Some(i);
                    },
                    Some(b) => {
                        if s.priority < self.sources[b].priority {
                            best = Some(i);
                        }
                    },
                }
            }
            i = i + 1;
        }
        match best {
            None => None,
            Some(b) => {
                assert(is_primary_hf(self.sources@, b as int));
                Some(self.sources[b].value.as_str())
            },
        }
    }
}

#[derive(Clone, Copy, Debug, PartialEq, Eq, Structural)]
pub enum CatalogErrorKind {
    DuplicateCanonicalId,
    NoEnabledSource,
    AliasEqualsCanonicalId,
    DuplicateAlias,
    DefaultNotInCatalog,
    AliasCollidesWithCanonicalId,
}

/// Why a list of models does not make a catalog, and the ID or alias concerned.
#[derive(Clone, Debug, PartialEq, Eq)]
pub struct CatalogError {
    pub kind: CatalogErrorKind,
    pub subject: String,
}

/// The text of a catalog error.
pub open spec fn catalog_error_message(kind: CatalogErrorKind, subject: Seq<char>) -> Seq<char> {
    match kind {
        CatalogErrorKind::DuplicateCanonicalId => "Duplicate canonical MLX model ID: "@ + subject,
        CatalogErrorKind::NoEnabledSource => "MLX model "@ + subject
            + " has no enabled download source"@,
        CatalogErrorKind::AliasEqualsCanonicalId => "MLX model "@ + subject
            + " has alias equal to canonical ID"@,
        CatalogErrorKind::DuplicateAlias => "Duplicate MLX model alias: "@ + subject,
        CatalogErrorKind::DefaultNotInCatalog => "Default MLX model "@ + subject
            + " is not in catalog"@,
        CatalogErrorKind::AliasCollidesWithCanonicalId => "MLX alias "@ + subject
            + " collides with canonical model ID"@,
    }
}

impl CatalogError {
    pub fn message(&self) -> (r: String)
        ensures
            r@ == catalog_error_message(self.kind, self.subject@),
    {
        let s = self.subject.as_str();
        match self.kind {
            CatalogErrorKind::DuplicateCanonicalId => concat_str(
                "Duplicate canonical MLX model ID: ",
                s,
            ),
            CatalogErrorKind::NoEnabledSource => concat3(
                "MLX model ",
                s,
                " has no enabled download source",
            ),
            CatalogErrorKind::AliasEqualsCanonicalId => concat3(
                "MLX model ",
                s,
                " has alias equal to canonical ID",
            ),
            CatalogErrorKind::DuplicateAlias => concat_str("Duplicate MLX model alias: ", s),
            CatalogErrorKind::DefaultNotInCatalog => concat3(
                "Default MLX model ",
                s,
                " is not in catalog",
            ),
            CatalogErrorKind::AliasCollidesWithCanonicalId => concat3(
                "MLX alias ",
                s,
                " collides with canonical model ID",
            ),
        }
    }
}

/// The canonical IDs of the models, in order.
pub open spec fn model_ids(models: Seq<MlxCatalogModel>) -> Seq<Seq<char>> {
    models.map_values(|m: MlxCatalogModel| m.canonical_id@)
}

/// The aliases of a model, in order.
pub open spec fn alias_views(m: MlxCatalogModel) -> Seq<Seq<char>> {
    m.aliases@.map_values(|a: String| a@)
}

/// Every alias of every model with the canonical ID it stands for, model by model.
pub open spec fn alias_entries(models: Seq<MlxCatalogModel>) -> Seq<(Seq<char>, Seq<char>)>
    decreases models.len(),
{
    if models.len() == 0 {
        Seq::empty()
    } else {
        let m = models.last();
        alias_entries(models.drop_last()) + alias_views(m).map_values(
            |a: Seq<char>| (a, m.canonical_id@),
        )
    }
}

/// The aliases of all models, model by model.
pub open spec fn alias_names(models: Seq<MlxCatalogModel>) -> Seq<Seq<char>> {
    alias_entries(models).map_values(|e: (Seq<char>, Seq<char>)| e.0)
}

/// The model has at least one enabled download source.
pub open spec fn has_enabled_source(m: MlxCatalogModel) -> bool {
    exists|j: int| 0 <= j < m.sources@.len() && (#[trigger] m.sources@[j]).enabled
}

/// The first problem among a model's aliases, in order, given the aliases seen before:
/// an alias equal to the model's own ID, or one seen already.
pub open spec fn alias_error(seen: Seq<Seq<char>>, aliases: Seq<Seq<char>>, id: Seq<char>) -> Option<
    (CatalogErrorKind, Seq<char>),
>
    decreases aliases.len(),
{
    if aliases.len() == 0 {
        None
    } else {
        match alias_error(seen, aliases.drop_last(), id) {
            Some(e) => Some(e),
            None => {
                let a = aliases.last();
                if a == id {
                    Some((CatalogErrorKind::AliasEqualsCanonicalId, id))
                } else if (seen + aliases.drop_last()).contains(a) {
                    Some((CatalogErrorKind::DuplicateAlias, a))
                } else {
                    None
                }
            },
        }
    }
}

/// The first problem with a model, given the models before it: a repeated canonical ID, no
/// enabled source, or a problem with its aliases.
pub open spec fn model_error(prev: Seq<MlxCatalogModel>, m: MlxCatalogModel) -> Option<
    (CatalogErrorKind, Seq<char>),
> {
    if model_ids(prev).contains(m.canonical_id@) {
        Some((CatalogErrorKind::DuplicateCanonicalId, m.canonical_id@))
    } else if !has_enabled_source(m) {
        Some((CatalogErrorKind::NoEnabledSource, m.canonical_id@))
    } else {
        alias_error(alias_names(prev), alias_views(m), m.canonical_id@)
    }
}

/// The first problem found walking the models in order.
pub open spec fn models_error(models: Seq<MlxCatalogModel>) -> Option<(CatalogErrorKind, Seq<char>)>
    decreases models.len(),
{
    if models.len() == 0 {
        None
    } else {
        match models_error(models.drop_last()) {
            Some(e) => Some(e),
            None => model_error(models.drop_last(), models.last()),
        }
    }
}

/// The first alias, in order, that is also a canonical ID.
pub open spec fn first_colliding_alias(names: Seq<Seq<char>>, ids: Seq<Seq<char>>) -> Option<
    Seq<char>,
>
    decreases names.len(),
{
    if names.len() == 0 {
        None
    } else if ids.contains(names[0]) {
        Some(names[0])
    } else {
        first_colliding_alias(names.drop_first(), ids)
    }
}

/// Why the models and default ID do not make a catalog, or `None` when they do.
pub open spec fn catalog_outcome(models: Seq<MlxCatalogModel>, default_id: Seq<char>) -> Option<
    (CatalogErrorKind, Seq<char>),
> {
    match models_error(models) {
        Some(e) => Some(e),
        None => if !model_ids(models).contains(default_id) {
            Some((CatalogErrorKind::DefaultNotInCatalog, default_id))
        } else {
            match first_colliding_alias(alias_names(models), model_ids(models)) {
                Some(a) => Some((CatalogErrorKind::AliasCollidesWithCanonicalId, a)),
                None => None,
            }
        },
    }
}

/// The views of alias-to-canonical pairs.
pub open spec fn entry_views(v: Seq<(String, String)>) -> Seq<(Seq<char>, Seq<char>)> {
    v.map_values(|e: (String, String)| (e.0@, e.1@))
}

/// No element occurs twice.
pub open spec fn distinct(s: Seq<Seq<char>>) -> bool {
    forall|i: int, j: int| 0 <= i < j < s.len() ==> #[trigger] s[i] != #[trigger] s[j]
}

/// A consistent catalog: canonical IDs are distinct, aliases are distinct and none is a
/// canonical ID, every alias stands for a model of the catalog, and the default is one.
pub open spec fn catalog_consistent(
    models: Seq<MlxCatalogModel>,
    aliases: Seq<(Seq<char>, Seq<char>)>,
    default_id: Seq<char>,
) -> bool {
    &&& distinct(model_ids(models))
    &&& distinct(aliases.map_values(|e: (Seq<char>, Seq<char>)| e.0))
    &&& forall|k: int| 0 <= k < aliases.len() ==> !model_ids(models).contains(#[trigger] aliases[k].0)
    &&& forall|k: int| 0 <= k < aliases.len() ==> model_ids(models).contains(#[trigger] aliases[k].1)
    &&& model_ids(models).contains(default_id)
}

/// A validated set of models, with their aliases and the default model.
#[derive(Debug)]
pub struct MlxCatalog {
    models: Vec<MlxCatalogModel>,
    alias_to_canonical: Vec<(String, String)>,
    default_canonical_id: String,
}

impl MlxCatalog {
    /// The models, in the order they were given.
    pub closed spec fn model_seq(self) -> Seq<MlxCatalogModel> {
        self.models@
    }

    /// The aliases with the canonical IDs they stand for.
    pub closed spec fn alias_seq(self) -> Seq<(Seq<char>, Seq<char>)> {
        entry_views(self.alias_to_canonical@)
    }

    /// The default model's canonical ID.
    pub closed spec fn default_id(self) -> Seq<char> {
        self.default_canonical_id@
    }

    #[verifier::type_invariant]
    spec fn consistent(self) -> bool {
        catalog_consistent(self.model_seq(), self.alias_seq(), self.default_id())
    }
}

proof fn lemma_models_error_extends(models: Seq<MlxCatalogModel>, n: int)
    requires
        0 <= n <= models.len(),
        models_error(models.take(n)) is Some,
    ensures
        models_error(models) == models_error(models.take(n)),
    decreases models.len() - n,
{
    if n == models.len() {
        assert(models.take(n) =~= models);
    } else {
        assert(models.take(n + 1).drop_last() =~= models.take(n));
        lemma_models_error_extends(models, n + 1);
    }
}

proof fn lemma_ids_push(prev: Seq<MlxCatalogModel>, m: MlxCatalogModel)
    ensures
        model_ids(prev.push(m)) == model_ids(prev).push(m.canonical_id@),
{
    assert(model_ids(prev.push(m)) =~= model_ids(prev).push(m.canonical_id@));
}

proof fn lemma_alias_names_push(prev: Seq<MlxCatalogModel>, m: MlxCatalogModel)
    ensures
        alias_names(prev.push(m)) == alias_names(prev) + alias_views(m),
        alias_entries(prev.push(m)) == alias_entries(prev) + alias_views(m).map_values(
            |a: Seq<char>| (a, m.canonical_id@),
        ),
{
    let ms = prev.push(m);
    assert(ms.drop_last() =~= prev);
    assert(alias_names(ms) =~= alias_names(prev) + alias_views(m));
}

proof fn lemma_ids_distinct(models: Seq<MlxCatalogModel>)
    requires
        models_error(models) is None,
    ensures
        distinct(model_ids(models)),
    decreases models.len(),
{
    if models.len() > 0 {
        let prev = models.drop_last();
        let m = models.last();
        assert(prev.push(m) =~= models);
        lemma_ids_distinct(prev);
        lemma_ids_push(prev, m);
        let ids = model_ids(models);
        assert forall|i: int, j: int| 0 <= i < j < ids.len() implies #[trigger] ids[i]
            != #[trigger] ids[j] by {
            if j == ids.len() - 1 && ids[i] == ids[j] {
                assert(model_ids(prev)[i] == m.canonical_id@);
                assert(model_ids(prev).contains(m.canonical_id@));
            }
        }
    }
}

proof fn lemma_alias_error_none(seen: Seq<Seq<char>>, aliases: Seq<Seq<char>>, id: Seq<char>)
    requires
        alias_error(seen, aliases, id) is None,
        distinct(seen),
    ensures
        distinct(seen + aliases),
        forall|k: int| 0 <= k < aliases.len() ==> #[trigger] aliases[k] != id,
    decreases aliases.len(),
{
    if aliases.len() > 0 {
        let front = aliases.drop_last();
        let a = aliases.last();
        lemma_alias_error_none(seen, front, id);
        assert((seen + front).push(a) =~= seen + aliases);
        let all = seen + aliases;
        assert forall|i: int, j: int| 0 <= i < j < all.len() implies #[trigger] all[i]
            != #[trigger] all[j] by {
            if j == all.len() - 1 && all[i] == all[j] {
                assert((seen + front)[i] == a);
                assert((seen + front).contains(a));
            }
        }
        assert forall|k: int| 0 <= k < aliases.len() implies #[trigger] aliases[k] != id by {
            if k < front.len() {
                assert(front[k] == aliases[k]);
            }
        }
    }
}

proof fn lemma_alias_names_distinct(models: Seq<MlxCatalogModel>)
    requires
        models_error(models) is None,
    ensures
        distinct(alias_names(models)),
    decreases models.len(),
{
    if models.len() == 0 {
        assert(alias_names(models) =~= Seq::<Seq<char>>::empty());
    } else {
        let prev = models.drop_last();
        let m = models.last();
        assert(prev.push(m) =~= models);
        lemma_alias_names_distinct(prev);
        lemma_alias_names_push(prev, m);
        lemma_alias_error_none(alias_names(prev), alias_views(m), m.canonical_id@);
    }
}

proof fn lemma_alias_targets(models: Seq<MlxCatalogModel>)
    ensures
        forall|k: int|
            0 <= k < alias_entries(models).len() ==> model_ids(models).contains(
                #[trigger] alias_entries(models)[k].1,
            ),
    decreases models.len(),
{
    if models.len() > 0 {
        let prev = models.drop_last();
        let m = models.last();
        assert(prev.push(m) =~= models);
        lemma_alias_targets(prev);
        lemma_alias_names_push(prev, m);
        lemma_ids_push(prev, m);
        let ids = model_ids(models);
        let entries = alias_entries(models);
        assert forall|k: int| 0 <= k < entries.len() implies ids.contains(
            #[trigger] entries[k].1,
        ) by {
            if k < alias_entries(prev).len() {
                let t = entries[k].1;
                assert(alias_entries(prev)[k].1 == t);
                let w = choose|w: int| 0 <= w < model_ids(prev).len() && model_ids(prev)[w] == t;
                assert(ids[w] == t);
            } else {
                assert(ids[ids.len() - 1] == m.canonical_id@);
            }
        }
    }
}

proof fn lemma_no_collision(names: Seq<Seq<char>>, ids: Seq<Seq<char>>)
    requires
        first_colliding_alias(names, ids) is None,
    ensures
        forall|k: int| 0 <= k < names.len() ==> !ids.contains(#[trigger] names[k]),
    decreases names.len(),
{
    if names.len() > 0 {
        lemma_no_collision(names.drop_first(), ids);
        assert forall|k: int| 0 <= k < names.len() implies !ids.contains(#[trigger] names[k]) by {
            if k > 0 {
                assert(names.drop_first()[k - 1] == names[k]);
            }
        }
    }
}

proof fn lemma_collision_skip(names: Seq<Seq<char>>, ids: Seq<Seq<char>>, k: int)
    requires
        0 <= k <= names.len(),
        forall|j: int| 0 <= j < k ==> !ids.contains(#[trigger] names[j]),
    ensures
        first_colliding_alias(names, ids) == first_colliding_alias(names.skip(k), ids),
    decreases k,
{
    if k == 0 {
        assert(names.skip(0) =~= names);
    } else {
        let rest = names.drop_first();
        assert forall|j: int| 0 <= j < k - 1 implies !ids.contains(#[trigger] rest[j]) by {
            assert(rest[j] == names[j + 1]);
        }
        assert(!ids.contains(names[0]));
        lemma_collision_skip(rest, ids, k - 1);
        assert(rest.skip(k - 1) =~= names.skip(k));
    }
}

fn id_seen(models: &Vec<MlxCatalogModel>, upto: usize, id: &str) -> (r: bool)
    requires
        upto <= models.len(),
    ensures
        r == model_ids(models@.take(upto as int)).contains(id@),
{
    let ghost ids = model_ids(models@.take(upto as int));
    let mut j: usize = 0;
    while j < upto
        invariant
            j <= upto <= models.len(),
            ids == model_ids(models@.take(upto as int)),
            forall|k: int| 0 <= k < j ==> #[trigger] ids[k] != id@,
        decreases upto - j,
    {
        if str_equals(models[j].canonical_id.as_str(), id) {
            assert(ids[j as int] == id@);
            return true;
        }
        assert(ids[j as int] == models@[j as int].canonical_id@);
        j = j + 1;
    }
    false
}

fn any_enabled(m: &MlxCatalogModel) -> (r: bool)
    ensures
        r == has_enabled_source(*m),
{
    let mut j: usize = 0;
    while j < m.sources.len()
        invariant
            j <= m.sources.len(),
            forall|k: int| 0 <= k < j ==> !(#[trigger] m.sources@[k]).enabled,
        decreases m.sources.len() - j,
    {
        if m.sources[j].enabled {
            return true;
        }
        j = j + 1;
    }
    false
}

fn alias_seen(entries: &Vec<(String, String)>, a: &str) -> (r: bool)
    ensures
        r == entry_views(entries@).map_values(|e: (Seq<char>, Seq<char>)| e.0).contains(a@),
{
    let ghost names = entry_views(entries@).map_values(|e: (Seq<char>, Seq<char>)| e.0);
    let mut j: usize = 0;
    while j < entries.len()
        invariant
            j <= entries.len(),
            names == entry_views(entries@).map_values(|e: (Seq<char>, Seq<char>)| e.0),
            forall|k: int| 0 <= k < j ==> #[trigger] names[k] != a@,
        decreases entries.len() - j,
    {
        if str_equals(entries[j].0.as_str(), a) {
            assert(names[j as int] == a@);
            return true;
        }
        assert(names[j as int] == entries@[j as int].0@);
        j = j + 1;
    }
    false
}

impl MlxCatalog {
    /// Validates the models and the default: canonical IDs distinct, each model with an
    /// enabled source, aliases distinct and unlike their own model's ID, the default among
    /// the models, no alias equal to a canonical ID. The first problem, in that order and
    /// model by model, is the error.
    pub fn new(models: Vec<MlxCatalogModel>, default_canonical_id: String) -> (r: Result<
        Self,
        CatalogError,
    >)
        ensures
            match r {
                Ok(c) => {
                    &&& catalog_outcome(models@, default_canonical_id@) is None
                    &&& c.model_seq() == models@
                    &&& c.alias_seq() == alias_entries(models@)
                    &&& c.default_id() == default_canonical_id@
                    &&& catalog_consistent(c.model_seq(), c.alias_seq(), c.default_id())
                },
                Err(e) => catalog_outcome(models@, default_canonical_id@) == Some(
                    (e.kind, e.subject@),
                ),
            },
    {
        let mut entries: Vec<(String, String)> = Vec::new();
        let mut i: usize = 0;
        while i < models.len()
            invariant
                i <= models.len(),
                models_error(models@.take(i as int)) is None,
                entry_views(entries@) == alias_entries(models@.take(i as int)),
            decreases models.len() - i,
        {
            let m = &models[i];
            let ghost prev = models@.take(i as int);
            let ghost id = m.canonical_id@;
            assert(models@.take(i + 1) =~= prev.push(*m));
            assert(prev.push(*m).drop_last() =~= prev);
            if id_seen(&models, i, m.canonical_id.as_str()) {
                proof {
                    lemma_models_error_extends(models@, i + 1);
                }
                return Err(
                    CatalogError {
                        kind: CatalogErrorKind::DuplicateCanonicalId,
                        subject: m.canonical_id.clone(),
                    },
                );
            }
            if !any_enabled(m) {
                proof {
                    lemma_models_error_extends(models@, i + 1);
                }
                return Err(
                    CatalogError {
                        kind: CatalogErrorKind::NoEnabledSource,
                        subject: m.canonical_id.clone(),
                    },
                );
            }
            let ghost seen = alias_names(prev);
            let ghost av = alias_views(*m);
            let mut k: usize = 0;
            while k < m.aliases.len()
                invariant
                    k <= m.aliases.len(),
                    m == &models@[i as int],
                    i < models.len(),
                    prev == models@.take(i as int),
                    models@.take(i + 1) == prev.push(*m),
                    prev.push(*m).drop_last() == prev,
                    models_error(prev) is None,
                    !model_ids(prev).contains(id),
                    has_enabled_source(*m),
                    id == m.canonical_id@,
                    seen == alias_names(prev),
                    av == alias_views(*m),
                    alias_error(seen, av.take(k as int), id) is None,
                    entry_views(entries@) == alias_entries(prev) + av.take(k as int).map_values(
                        |a: Seq<char>| (a, id),
                    ),
                decreases m.aliases.len() - k,
            {
                let a = &m.aliases[k];
                let ghost front = av.take(k as int);
                assert(av.take(k + 1) =~= front.push(a@));
                assert(front.push(a@).drop_last() =~= front);
                assert(entry_views(entries@).map_values(|e: (Seq<char>, Seq<char>)| e.0) =~= seen
                    + front);
                if str_equals(a.as_str(), m.canonical_id.as_str()) {
                    assert(alias_error(seen, av.take(k + 1), id) == Some(
                        (CatalogErrorKind::AliasEqualsCanonicalId, id),
                    ));
                    proof {
                        lemma_alias_error_prefix(seen, av, id, k + 1);
                        lemma_models_error_extends(models@, i + 1);
                    }
                    return Err(
                        CatalogError {
                            kind: CatalogErrorKind::AliasEqualsCanonicalId,
                            subject: m.canonical_id.clone(),
                        },
                    );
                }
                if alias_seen(&entries, a.as_str()) {
                    assert(alias_error(seen, av.take(k + 1), id) == Some(
                        (CatalogErrorKind::DuplicateAlias, a@),
                    ));
                    proof {
                        lemma_alias_error_prefix(seen, av, id, k + 1);
                        lemma_models_error_extends(models@, i + 1);
                    }
                    return Err(
                        CatalogError { kind: CatalogErrorKind::DuplicateAlias, subject: a.clone() },
                    );
                }
                let ghost before = entries@;
                let pair = (a.clone(), m.canonical_id.clone());
                entries.push(pair);
                assert(entries@ == before.push(pair));
                assert(entry_views(entries@) =~= entry_views(before).push((a@, id)));
                assert(av.take(k + 1).map_values(|x: Seq<char>| (x, id)) =~= front.map_values(
                    |x: Seq<char>| (x, id),
                ).push((a@, id)));
                k = k + 1;
            }
            assert(av.take(m.aliases.len() as int) =~= av);
            proof {
                lemma_alias_names_push(prev, *m);
            }
            i = i + 1;
        }
        assert(models@.take(models.len() as int) =~= models@);
        if !id_seen(&models, models.len(), default_canonical_id.as_str()) {
            return Err(
                CatalogError {
                    kind: CatalogErrorKind::DefaultNotInCatalog,
                    subject: default_canonical_id,
                },
            );
        }
        let ghost names = alias_names(models@);
        let ghost ids = model_ids(models@);
        assert(entry_views(entries@).map_values(|e: (Seq<char>, Seq<char>)| e.0) =~= names);
        let mut k: usize = 0;
        while k < entries.len()
            invariant
                k <= entries.len(),
                names.len() == entries.len(),
                names == alias_names(models@),
                ids == model_ids(models@),
                forall|j: int| 0 <= j < k ==> !ids.contains(#[trigger] names[j]),
                forall|j: int| 0 <= j < entries.len() ==> #[trigger] names[j] == entries@[j].0@,
                model_ids(models@.take(models.len() as int)) == ids,
                models_error(models@) is None,
                ids.contains(default_canonical_id@),
                entry_views(entries@) == alias_entries(models@),
            decreases entries.len() - k,
        {
            if id_seen(&models, models.len(), entries[k].0.as_str()) {
                proof {
                    lemma_collision_skip(names, ids, k as int);
                    assert(names.skip(k as int)[0] == names[k as int]);
                }
                return Err(
                    CatalogError {
                        kind: CatalogErrorKind::AliasCollidesWithCanonicalId,
                        subject: entries[k].0.clone(),
                    },
                );
            }
            k = k + 1;
        }
        proof {
            lemma_collision_skip(names, ids, names.len() as int);
            assert(names.skip(names.len() as int) =~= Seq::<Seq<char>>::empty());
            lemma_no_collision(names, ids);
            assert(alias_entries(models@).map_values(|e: (Seq<char>, Seq<char>)| e.0) =~= names);
            lemma_ids_distinct(models@);
            lemma_alias_names_distinct(models@);
            lemma_alias_targets(models@);
        }
        let ghost al = entry_views(entries@);
        assert(distinct(model_ids(models@)));
        assert(al.map_values(|e: (Seq<char>, Seq<char>)| e.0) =~= names);
        assert(distinct(al.map_values(|e: (Seq<char>, Seq<char>)| e.0)));
        assert forall|k: int| 0 <= k < al.len() implies !model_ids(models@).contains(
            #[trigger] al[k].0,
        ) by {
            assert(names[k] == al[k].0);
        }
        Ok(MlxCatalog { models, alias_to_canonical: entries, default_canonical_id })
    }
}

proof fn lemma_alias_error_prefix(seen: Seq<Seq<char>>, aliases: Seq<Seq<char>>, id: Seq<char>, n: int)
    requires
        0 <= n <= aliases.len(),
        alias_error(seen, aliases.take(n), id) is Some,
    ensures
        alias_error(seen, aliases, id) == alias_error(seen, aliases.take(n), id),
    decreases aliases.len() - n,
{
    if n == aliases.len() {
        assert(aliases.take(n) =~= aliases);
    } else {
        assert(aliases.take(n + 1).drop_last() =~= aliases.take(n));
        lemma_alias_error_prefix(seen, aliases, id, n + 1);
    }
}

/// The canonical ID that the first entry for `id` stands for.
pub open spec fn alias_lookup(entries: Seq<(Seq<char>, Seq<char>)>, id: Seq<char>) -> Option<
    Seq<char>,
>
    decreases entries.len(),
{
    if entries.len() == 0 {
        None
    } else if entries[0].0 == id {
        Some(entries[0].1)
    } else {
        alias_lookup(entries.drop_first(), id)
    }
}

/// What an ID resolves to: itself when it is a canonical ID, else the canonical ID its
/// alias stands for.
pub open spec fn resolved_id(
    models: Seq<MlxCatalogModel>,
    entries: Seq<(Seq<char>, Seq<char>)>,
    id: Seq<char>,
) -> Option<Seq<char>> {
    if model_ids(models).contains(id) {
        Some(id)
    } else {
        alias_lookup(entries, id)
    }
}

proof fn lemma_alias_lookup_from(entries: Seq<(Seq<char>, Seq<char>)>, id: Seq<char>)
    ensures
        alias_lookup(entries, id) matches Some(t) ==> exists|k: int|
            0 <= k < entries.len() && #[trigger] entries[k].1 == t,
    decreases entries.len(),
{
    if entries.len() > 0 && entries[0].0 != id {
        let rest = entries.drop_first();
        lemma_alias_lookup_from(rest, id);
        if alias_lookup(rest, id) is Some {
            let t = alias_lookup(rest, id)->0;
            let k = choose|k: int| 0 <= k < rest.len() && #[trigger] rest[k].1 == t;
            assert(entries[k + 1].1 == t);
        }
    } else if entries.len() > 0 {
        assert(entries[0].1 == alias_lookup(entries, id)->0);
    }
}

/// Whatever an ID resolves to is the canonical ID of a model of the catalog, and resolving
/// it again gives it back.
pub proof fn law_resolution_names_a_model(
    models: Seq<MlxCatalogModel>,
    entries: Seq<(Seq<char>, Seq<char>)>,
    default_id: Seq<char>,
    id: Seq<char>,
)
    requires
        catalog_consistent(models, entries, default_id),
    ensures
        resolved_id(models, entries, id) matches Some(t) ==> model_ids(models).contains(t)
            && resolved_id(models, entries, t) == Some(t),
{
    lemma_alias_lookup_from(entries, id);
    if !model_ids(models).contains(id) && alias_lookup(entries, id) is Some {
        let t = alias_lookup(entries, id)->0;
        let k = choose|k: int| 0 <= k < entries.len() && #[trigger] entries[k].1 == t;
        assert(model_ids(models).contains(entries[k].1));
    }
}

fn lookup_alias(entries: &Vec<(String, String)>, id: &str) -> (r: Option<String>)
    ensures
        match alias_lookup(entry_views(entries@), id@) {
            Some(t) => r matches Some(x) && x@ == t,
            None => r is None,
        },
{
    let ghost ev = entry_views(entries@);
    let mut j: usize = 0;
    assert(ev.skip(0) =~= ev);
    while j < entries.len()
        invariant
            j <= entries.len(),
            ev == entry_views(entries@),
            alias_lookup(ev, id@) == alias_lookup(ev.skip(j as int), id@),
        decreases entries.len() - j,
    {
        let ghost rest = ev.skip(j as int);
        assert(rest[0] == (entries@[j as int].0@, entries@[j as int].1@));
        assert(rest.drop_first() =~= ev.skip(j + 1));
        if str_equals(entries[j].0.as_str(), id) {
            return Some(entries[j].1.clone());
        }
        j = j + 1;
    }
    assert(ev.skip(entries.len() as int) =~= Seq::<(Seq<char>, Seq<char>)>::empty());
    None
}

/// The first model with the given canonical ID.
pub open spec fn model_position(models: Seq<MlxCatalogModel>, id: Seq<char>) -> Option<int>
    decreases models.len(),
{
    if models.len() == 0 {
        None
    } else if models.last().canonical_id@ == id && model_position(models.drop_last(), id) is None {
        Some(models.len() - 1)
    } else {
        model_position(models.drop_last(), id)
    }
}

proof fn lemma_model_position(models: Seq<MlxCatalogModel>, id: Seq<char>)
    ensures
        model_position(models, id) is Some <==> model_ids(models).contains(id),
        model_position(models, id) matches Some(k) ==> 0 <= k < models.len()
            && models[k].canonical_id@ == id && forall|j: int|
            0 <= j < k ==> (#[trigger] models[j]).canonical_id@ != id,
    decreases models.len(),
{
    if models.len() > 0 {
        let prev = models.drop_last();
        lemma_model_position(prev, id);
        lemma_ids_push(prev, models.last());
        assert(prev.push(models.last()) =~= models);
        let ids = model_ids(models);
        if model_ids(prev).contains(id) {
            let w = choose|w: int| 0 <= w < model_ids(prev).len() && model_ids(prev)[w] == id;
            assert(ids[w] == id);
        }
        if ids.contains(id) && !model_ids(prev).contains(id) {
            let w = choose|w: int| 0 <= w < ids.len() && ids[w] == id;
            if w < prev.len() {
                assert(model_ids(prev)[w] == id);
            }
        }
        if model_position(prev, id) is None && models.last().canonical_id@ == id {
            assert(ids[ids.len() - 1] == id);
        }
        if model_position(models, id) is None {
            assert forall|w: int| 0 <= w < ids.len() implies ids[w] != id by {
                if w < prev.len() {
                    assert(model_ids(prev)[w] == ids[w]);
                }
            }
        }
        if model_position(models, id) is Some {
            let k = model_position(models, id)->0;
            assert forall|j: int| 0 <= j < k implies (#[trigger] models[j]).canonical_id@ != id by {
                assert(models[j] == prev[j]);
                if prev[j].canonical_id@ == id {
                    assert(model_ids(prev)[j] == id);
                }
            }
        }
    } else {
        assert(model_ids(models).len() == 0);
    }
}

impl MlxCatalog {
    /// The canonical ID for a canonical ID or an alias.
    pub fn resolve_canonical_id(&self, id: &str) -> (r: Option<String>)
        ensures
            match resolved_id(self.model_seq(), self.alias_seq(), id@) {
                Some(t) => r matches Some(x) && x@ == t,
                None => r is None,
            },
    {
        if id_seen(&self.models, self.models.len(), id) {
            assert(self.models@.take(self.models.len() as int) =~= self.models@);
            return Some(id.to_string());
        }
        assert(self.models@.take(self.models.len() as int) =~= self.models@);
        lookup_alias(&self.alias_to_canonical, id)
    }

    /// The model with the given canonical ID.
    pub fn get_model(&self, canonical_id: &str) -> (r: Option<&MlxCatalogModel>)
        ensures
            match model_position(self.model_seq(), canonical_id@) {
                Some(k) => r matches Some(m) && *m == self.model_seq()[k],
                None => r is None,
            },
    {
        let mut j: usize = 0;
        proof {
            lemma_model_position(self.models@, canonical_id@);
        }
        while j < self.models.len()
            invariant
                j <= self.models.len(),
                forall|k: int| 0 <= k < j ==> (#[trigger] self.models@[k]).canonical_id@
                    != canonical_id@,
            decreases self.models.len() - j,
        {
            if str_equals(self.models[j].canonical_id.as_str(), canonical_id) {
                assert(model_ids(self.models@)[j as int] == canonical_id@);
                assert(model_position(self.models@, canonical_id@) == Some(j as int)) by {
                    lemma_model_position(self.models@, canonical_id@);
                    let k = model_position(self.models@, canonical_id@)->0;
                    if k < j {
                        assert(self.models@[k].canonical_id@ != canonical_id@);
                    }
                    if k > j {
                        assert(self.models@[j as int].canonical_id@ != canonical_id@);
                    }
                }
                return Some(&self.models[j]);
            }
            j = j + 1;
        }
        assert forall|k: int| 0 <= k < model_ids(self.models@).len() implies model_ids(
            self.models@,
        )[k] != canonical_id@ by {
            assert(model_ids(self.models@)[k] == self.models@[k].canonical_id@);
        }
        None
    }

    /// The models of the catalog, in the order they were given.
    pub fn models(&self) -> (r: std::slice::Iter<'_, MlxCatalogModel>)
        ensures
            r.remaining() == self.model_seq().as_ref(),
    {
        self.models.iter()
    }

    /// The default model's canonical ID.
    pub fn default_canonical_id(&self) -> (r: &str)
        ensures
            r@ == self.default_id(),
    {
        self.default_canonical_id.as_str()
    }
}

proof fn lemma_distinct_drop_last(s: Seq<Seq<char>>)
    requires
        distinct(s),
        s.len() > 0,
    ensures
        distinct(s.drop_last()),
{
    let t = s.drop_last();
    assert forall|i: int, j: int| 0 <= i < j < t.len() implies #[trigger] t[i] != #[trigger] t[j] by {
        assert(t[i] == s[i] && t[j] == s[j]);
    }
}

proof fn lemma_alias_error_ok(seen: Seq<Seq<char>>, aliases: Seq<Seq<char>>, id: Seq<char>)
    requires
        distinct(seen + aliases),
        forall|k: int| 0 <= k < aliases.len() ==> #[trigger] aliases[k] != id,
    ensures
        alias_error(seen, aliases, id) is None,
    decreases aliases.len(),
{
    if aliases.len() > 0 {
        let front = aliases.drop_last();
        let all = seen + aliases;
        assert(all.drop_last() =~= seen + front);
        lemma_distinct_drop_last(all);
        assert forall|k: int| 0 <= k < front.len() implies #[trigger] front[k] != id by {
            assert(front[k] == aliases[k]);
        }
        lemma_alias_error_ok(seen, front, id);
        let a = aliases.last();
        assert(aliases[aliases.len() - 1] != id);
        if (seen + front).contains(a) {
            let w = choose|w: int| 0 <= w < (seen + front).len() && (seen + front)[w] == a;
            assert(all[w] == all[all.len() - 1]);
        }
    }
}

/// The aliases of the models, when every model has exactly one.
proof fn lemma_single_alias_names(models: Seq<MlxCatalogModel>)
    requires
        forall|k: int| 0 <= k < models.len() ==> alias_views(#[trigger] models[k]).len() == 1,
    ensures
        alias_names(models) == models.map_values(|m: MlxCatalogModel| alias_views(m)[0]),
    decreases models.len(),
{
    if models.len() == 0 {
        assert(alias_names(models) =~= models.map_values(|m: MlxCatalogModel| alias_views(m)[0]));
    } else {
        let prev = models.drop_last();
        let m = models.last();
        assert(prev.push(m) =~= models);
        assert forall|k: int| 0 <= k < prev.len() implies alias_views(#[trigger] prev[k]).len()
            == 1 by {
            assert(prev[k] == models[k]);
        }
        lemma_single_alias_names(prev);
        lemma_alias_names_push(prev, m);
        assert(alias_views(models[models.len() - 1]).len() == 1);
        assert(alias_names(models) =~= models.map_values(|m: MlxCatalogModel| alias_views(m)[0]));
    }
}

/// Models with distinct IDs and aliases, an enabled source each, and no alias equal to a
/// canonical ID, pass the per-model checks.
proof fn lemma_models_ok(models: Seq<MlxCatalogModel>)
    requires
        distinct(model_ids(models)),
        distinct(alias_names(models)),
        forall|k: int| 0 <= k < models.len() ==> has_enabled_source(#[trigger] models[k]),
        forall|k: int|
            0 <= k < alias_names(models).len() ==> !model_ids(models).contains(
                #[trigger] alias_names(models)[k],
            ),
    ensures
        models_error(models) is None,
    decreases models.len(),
{
    if models.len() > 0 {
        let prev = models.drop_last();
        let m = models.last();
        assert(prev.push(m) =~= models);
        lemma_ids_push(prev, m);
        lemma_alias_names_push(prev, m);
        let ids = model_ids(models);
        let names = alias_names(models);
        assert(model_ids(prev) =~= ids.drop_last());
        lemma_distinct_drop_last(ids);
        assert forall|i: int, j: int|
            0 <= i < j < alias_names(prev).len() implies #[trigger] alias_names(prev)[i]
            != #[trigger] alias_names(prev)[j] by {
            assert(names[i] == alias_names(prev)[i]);
            assert(names[j] == alias_names(prev)[j]);
        }
        assert forall|k: int| 0 <= k < prev.len() implies has_enabled_source(#[trigger] prev[k]) by {
            assert(prev[k] == models[k]);
        }
        assert forall|k: int| 0 <= k < alias_names(prev).len() implies !model_ids(prev).contains(
            #[trigger] alias_names(prev)[k],
        ) by {
            let a = alias_names(prev)[k];
            assert(names[k] == a);
            if model_ids(prev).contains(a) {
                let w = choose|w: int| 0 <= w < model_ids(prev).len() && model_ids(prev)[w] == a;
                assert(ids[w] == a);
            }
        }
        lemma_models_ok(prev);
        if model_ids(prev).contains(m.canonical_id@) {
            let w = choose|w: int|
                0 <= w < model_ids(prev).len() && model_ids(prev)[w] == m.canonical_id@;
            assert(ids[w] == ids[ids.len() - 1]);
        }
        assert(has_enabled_source(models[models.len() - 1]));
        let av = alias_views(m);
        assert forall|k: int| 0 <= k < av.len() implies #[trigger] av[k] != m.canonical_id@ by {
            let p = alias_names(prev).len();
            assert(names[p + k] == av[k]);
            assert(ids[ids.len() - 1] == m.canonical_id@);
        }
        lemma_alias_error_ok(alias_names(prev), av, m.canonical_id@);
    }
}

proof fn lemma_no_collision_rev(names: Seq<Seq<char>>, ids: Seq<Seq<char>>)
    requires
        forall|k: int| 0 <= k < names.len() ==> !ids.contains(#[trigger] names[k]),
    ensures
        first_colliding_alias(names, ids) is None,
    decreases names.len(),
{
    if names.len() > 0 {
        assert(!ids.contains(names[0]));
        assert forall|k: int| 0 <= k < names.len() - 1 implies !ids.contains(
            #[trigger] names.drop_first()[k],
        ) by {
            assert(names.drop_first()[k] == names[k + 1]);
        }
        lemma_no_collision_rev(names.drop_first(), ids);
    }
}

/// The canonical ID of the default model for a machine with the given RAM (in GB).
pub open spec fn recommended_model_id(system_ram_gb: u64) -> Seq<char> {
    if system_ram_gb > 16 {
        "qwen3_base_8b_v1"@
    } else if system_ram_gb > 8 {
        "qwen3_base_4b_v1"@
    } else {
        "qwen3_base_1.7b_v1"@
    }
}

pub fn recommended_model_id_for_ram(system_ram_gb: u64) -> (r: &'static str)
    ensures
        r@ == recommended_model_id(system_ram_gb),
{
    if system_ram_gb > 16 {
        "qwen3_base_8b_v1"
    } else if system_ram_gb > 8 {
        "qwen3_base_4b_v1"
    } else {
        "qwen3_base_1.7b_v1"
    }
}

/// The models that ship with the app, by position: canonical ID, alias, display name,
/// description, size in bytes, parameter note, and Hugging Face repository.
pub open spec fn embedded_entry(k: int) -> (
    Seq<char>,
    Seq<char>,
    Seq<char>,
    Seq<char>,
    u64,
    Seq<char>,
    Seq<char>,
) {
    if k == 0 {
        (
            "qwen3_base_0.6b_v1"@,
            "qwen3_base_0.6b"@,
            "Qwen 3 Base 0.6B"@,
            "Ultra-fast responses. Best for simple corrections."@,
            (400 * 1024 * 1024) as u64,
            "~1 GB"@,
            "mlx-community/Qwen3-0.6B-4bit"@,
        )
    } else if k == 1 {
        (
            "qwen3_base_1.7b_v1"@,
            "qwen3_base_1.7b"@,
            "Qwen 3 Base 1.7B"@,
            "Good speed and quality. Great for 8GB Macs."@,
            (1024 * 1024 * 1024) as u64,
            "~2-3 GB"@,
            "mlx-community/Qwen3-1.7B-4bit"@,
        )
    } else if k == 2 {
        (
            "qwen3_base_4b_v1"@,
            "qwen3_base_4b"@,
            "Qwen 3 4B Instruct (2507)"@,
            "Strong instruction-following and writing quality."@,
            (2260 * 1024 * 1024) as u64,
            "~2 GB min, ~4-5 GB typical"@,
            "mlx-community/Qwen3-4B-Instruct-2507-4bit"@,
        )
    } else if k == 3 {
        (
            "qwen3_base_8b_v1"@,
            "qwen3_base_8b"@,
            "Qwen 3 Base 8B"@,
            "Best quality and complex reasoning."@,
            (4700 * 1024 * 1024) as u64,
            "~7-8 GB"@,
            "mlx-community/Qwen3-8B-4bit"@,
        )
    } else if k == 4 {
        (
            "gemma3_base_1b_v1"@,
            "gemma3_base_1b"@,
            "Gemma 3 Base 1B"@,
            "Lightweight with good multi-language support."@,
            (800 * 1024 * 1024) as u64,
            "~1 GB"@,
            "mlx-community/gemma-3-1b-it-4bit"@,
        )
    } else if k == 5 {
        (
            "gemma3_base_4b_v1"@,
            "gemma3_base_4b"@,
            "Gemma 3 Base 4B"@,
            "Excellent multi-language and translation."@,
            (2300 * 1024 * 1024) as u64,
            "~3 GB"@,
            "mlx-community/gemma-3-4b-it-4bit"@,
        )
    } else {
        (
            "smollm3_base_3b_v1"@,
            "smollm3_base_3b"@,
            "SmolLM 3 Base 3B"@,
            "HuggingFace's efficient small model."@,
            (1770 * 1024 * 1024) as u64,
            "~2 GB"@,
            "mlx-community/SmolLM3-3B-4bit"@,
        )
    }
}

/// A model with one alias and one enabled Hugging Face source of priority 10 that does not
/// allow fallback, as all shipped models are.
pub open spec fn is_hf_model(
    m: MlxCatalogModel,
    e: (Seq<char>, Seq<char>, Seq<char>, Seq<char>, u64, Seq<char>, Seq<char>),
) -> bool {
    &&& m.canonical_id@ == e.0
    &&& alias_views(m) == seq![e.1]
    &&& m.display_name@ == e.2
    &&& m.description@ == e.3
    &&& m.size_bytes == e.4
    &&& m.parameters@ == e.5
    &&& m.sources@.len() == 1
    &&& m.sources@[0].kind == ModelSourceKind::HuggingfaceRepo
    &&& m.sources@[0].value@ == e.6
    &&& m.sources@[0].priority == 10
    &&& m.sources@[0].enabled
    &&& !m.sources@[0].allow_fallback
}

fn hf_model(
    canonical_id: &str,
    alias: &str,
    display_name: &str,
    description: &str,
    size_bytes: u64,
    parameters: &str,
    repo: &str,
) -> (m: MlxCatalogModel)
    ensures
        is_hf_model(
            m,
            (canonical_id@, alias@, display_name@, description@, size_bytes, parameters@, repo@),
        ),
{
    let mut aliases: Vec<String> = Vec::new();
    aliases.push(alias.to_string());
    let mut sources: Vec<ModelSource> = Vec::new();
    sources.push(
        ModelSource {
            kind: ModelSourceKind::HuggingfaceRepo,
            value: repo.to_string(),
            priority: 10,
            enabled: true,
            allow_fallback: false,
        },
    );
    let m = MlxCatalogModel {
        canonical_id: canonical_id.to_string(),
        aliases,
        display_name: display_name.to_string(),
        description: description.to_string(),
        size_bytes,
        parameters: parameters.to_string(),
        sources,
    };
    assert(alias_views(m) =~= seq![alias@]);
    m
}

/// The shipped models are a valid catalog with any of the recommended defaults.
proof fn lemma_embedded_models_ok(models: Seq<MlxCatalogModel>, default_id: Seq<char>)
    requires
        models.len() == 7,
        forall|k: int| 0 <= k < 7 ==> is_hf_model(#[trigger] models[k], embedded_entry(k)),
        default_id == "qwen3_base_8b_v1"@ || default_id == "qwen3_base_4b_v1"@ || default_id
            == "qwen3_base_1.7b_v1"@,
    ensures
        catalog_outcome(models, default_id) is None,
{
        reveal_strlit("qwen3_base_0.6b_v1");
        reveal_strlit("qwen3_base_1.7b_v1");
        reveal_strlit("qwen3_base_4b_v1");
        reveal_strlit("qwen3_base_8b_v1");
        reveal_strlit("gemma3_base_1b_v1");
        reveal_strlit("gemma3_base_4b_v1");
        reveal_strlit("smollm3_base_3b_v1");
        reveal_strlit("qwen3_base_0.6b");
        reveal_strlit("qwen3_base_1.7b");
        reveal_strlit("qwen3_base_4b");
        reveal_strlit("qwen3_base_8b");
        reveal_strlit("gemma3_base_1b");
        reveal_strlit("gemma3_base_4b");
        reveal_strlit("smollm3_base_3b");
    let ids = model_ids(models);
    assert(is_hf_model(models[0], embedded_entry(0)));
    assert(is_hf_model(models[1], embedded_entry(1)));
    assert(is_hf_model(models[2], embedded_entry(2)));
    assert(is_hf_model(models[3], embedded_entry(3)));
    assert(is_hf_model(models[4], embedded_entry(4)));
    assert(is_hf_model(models[5], embedded_entry(5)));
    assert(is_hf_model(models[6], embedded_entry(6)));
    assert forall|k: int| 0 <= k < models.len() implies alias_views(#[trigger] models[k]).len()
        == 1 by {
        assert(is_hf_model(models[k], embedded_entry(k)));
    }
    lemma_single_alias_names(models);
    let names = alias_names(models);
    assert(ids =~= seq![
        embedded_entry(0).0,
        embedded_entry(1).0,
        embedded_entry(2).0,
        embedded_entry(3).0,
        embedded_entry(4).0,
        embedded_entry(5).0,
        embedded_entry(6).0,
    ]);
    assert(names =~= seq![
        embedded_entry(0).1,
        embedded_entry(1).1,
        embedded_entry(2).1,
        embedded_entry(3).1,
        embedded_entry(4).1,
        embedded_entry(5).1,
        embedded_entry(6).1,
    ]);
    assert(ids[0][11] != ids[1][11]);
    assert(ids[0].len() != ids[2].len());
    assert(ids[0].len() != ids[3].len());
    assert(ids[0].len() != ids[4].len());
    assert(ids[0].len() != ids[5].len());
    assert(ids[0][0] != ids[6][0]);
    assert(ids[1].len() != ids[2].len());
    assert(ids[1].len() != ids[3].len());
    assert(ids[1].len() != ids[4].len());
    assert(ids[1].len() != ids[5].len());
    assert(ids[1][0] != ids[6][0]);
    assert(ids[2][11] != ids[3][11]);
    assert(ids[2].len() != ids[4].len());
    assert(ids[2].len() != ids[5].len());
    assert(ids[2].len() != ids[6].len());
    assert(ids[3].len() != ids[4].len());
    assert(ids[3].len() != ids[5].len());
    assert(ids[3].len() != ids[6].len());
    assert(ids[4][12] != ids[5][12]);
    assert(ids[4].len() != ids[6].len());
    assert(ids[5].len() != ids[6].len());
    assert forall|i: int, j: int| 0 <= i < j < ids.len() implies #[trigger] ids[i]
        != #[trigger] ids[j] by {
        assert(0 <= i < 7 && 0 <= j < 7);
    }
    assert(names[0][11] != names[1][11]);
    assert(names[0].len() != names[2].len());
    assert(names[0].len() != names[3].len());
    assert(names[0].len() != names[4].len());
    assert(names[0].len() != names[5].len());
    assert(names[0][0] != names[6][0]);
    assert(names[1].len() != names[2].len());
    assert(names[1].len() != names[3].len());
    assert(names[1].len() != names[4].len());
    assert(names[1].len() != names[5].len());
    assert(names[1][0] != names[6][0]);
    assert(names[2][11] != names[3][11]);
    assert(names[2].len() != names[4].len());
    assert(names[2].len() != names[5].len());
    assert(names[2].len() != names[6].len());
    assert(names[3].len() != names[4].len());
    assert(names[3].len() != names[5].len());
    assert(names[3].len() != names[6].len());
    assert(names[4][12] != names[5][12]);
    assert(names[4].len() != names[6].len());
    assert(names[5].len() != names[6].len());
    assert forall|i: int, j: int| 0 <= i < j < names.len() implies #[trigger] names[i]
        != #[trigger] names[j] by {
        assert(0 <= i < 7 && 0 <= j < 7);
    }
    assert forall|k: int| 0 <= k < models.len() implies has_enabled_source(#[trigger] models[k]) by {
        assert(is_hf_model(models[k], embedded_entry(k)));
        assert(models[k].sources@[0].enabled);
    }
    assert forall|k: int| 0 <= k < names.len() implies !ids.contains(#[trigger] names[k]) by {
        assert(names[k].len() + 3 == ids[k].len());
        if ids.contains(names[k]) {
            let w = choose|w: int| 0 <= w < ids.len() && ids[w] == names[k];
            assert(ids[w][ids[w].len() - 1] == '1');
        }
    }
    lemma_models_ok(models);
    assert(ids.contains(default_id)) by {
        if default_id == "qwen3_base_8b_v1"@ {
            assert(ids[3] == default_id);
        } else if default_id == "qwen3_base_4b_v1"@ {
            assert(ids[2] == default_id);
        } else {
            assert(ids[1] == default_id);
        }
    }
    lemma_no_collision_rev(names, ids);
}

/// The catalog that ships with the app, with the default recommended for the machine's RAM.
pub fn build_embedded_catalog(system_ram_gb: u64) -> (r: Result<MlxCatalog, CatalogError>)
    ensures
        r matches Ok(c) && c.model_seq().len() == 7 && (forall|k: int|
            0 <= k < 7 ==> is_hf_model(#[trigger] c.model_seq()[k], embedded_entry(k)))
            && c.alias_seq() == alias_entries(c.model_seq())
            && c.default_id() == recommended_model_id(system_ram_gb)
            && catalog_consistent(c.model_seq(), c.alias_seq(), c.default_id()),
{
    let default_canonical_id = recommended_model_id_for_ram(system_ram_gb).to_string();
    let models = vec![
        hf_model(
            "qwen3_base_0.6b_v1",
            "qwen3_base_0.6b",
            "Qwen 3 Base 0.6B",
            "Ultra-fast responses. Best for simple corrections.",
            400 * 1024 * 1024,
            "~1 GB",
            "mlx-community/Qwen3-0.6B-4bit",
        ),
        hf_model(
            "qwen3_base_1.7b_v1",
            "qwen3_base_1.7b",
            "Qwen 3 Base 1.7B",
            "Good speed and quality. Great for 8GB Macs.",
            1024 * 1024 * 1024,
            "~2-3 GB",
            "mlx-community/Qwen3-1.7B-4bit",
        ),
        hf_model(
            "qwen3_base_4b_v1",
            "qwen3_base_4b",
            "Qwen 3 4B Instruct (2507)",
            "Strong instruction-following and writing quality.",
            2260 * 1024 * 1024,
            "~2 GB min, ~4-5 GB typical",
            "mlx-community/Qwen3-4B-Instruct-2507-4bit",
        ),
        hf_model(
            "qwen3_base_8b_v1",
            "qwen3_base_8b",
            "Qwen 3 Base 8B",
            "Best quality and complex reasoning.",
            4700 * 1024 * 1024,
            "~7-8 GB",
            "mlx-community/Qwen3-8B-4bit",
        ),
        hf_model(
            "gemma3_base_1b_v1",
            "gemma3_base_1b",
            "Gemma 3 Base 1B",
            "Lightweight with good multi-language support.",
            800 * 1024 * 1024,
            "~1 GB",
            "mlx-community/gemma-3-1b-it-4bit",
        ),
        hf_model(
            "gemma3_base_4b_v1",
            "gemma3_base_4b",
            "Gemma 3 Base 4B",
            "Excellent multi-language and translation.",
            2300 * 1024 * 1024,
            "~3 GB",
            "mlx-community/gemma-3-4b-it-4bit",
        ),
        hf_model(
            "smollm3_base_3b_v1",
            "smollm3_base_3b",
            "SmolLM 3 Base 3B",
            "HuggingFace's efficient small model.",
            1770 * 1024 * 1024,
            "~2 GB",
            "mlx-community/SmolLM3-3B-4bit",
        ),
    ];
    proof {
        lemma_embedded_models_ok(models@, default_canonical_id@);
    }
    MlxCatalog::new(models, default_canonical_id)
}

/// With one alias per model, the alias entries are the models' aliases in model order.
proof fn lemma_single_alias_entries(models: Seq<MlxCatalogModel>)
    requires
        forall|k: int| 0 <= k < models.len() ==> (#[trigger] alias_views(models[k])).len() == 1,
    ensures
        alias_entries(models).len() == models.len(),
        forall|k: int|
            0 <= k < models.len() ==> (#[trigger] alias_entries(models)[k]) == (
                alias_views(models[k])[0],
                models[k].canonical_id@,
            ),
    decreases models.len(),
{
    if models.len() > 0 {
        let prev = models.drop_last();
        assert forall|k: int| 0 <= k < prev.len() implies (#[trigger] alias_views(prev[k])).len()
            == 1 by {
            assert(prev[k] == models[k]);
        }
        lemma_single_alias_entries(prev);
        let m = models.last();
        assert(alias_views(models[models.len() - 1]).len() == 1);
        let tail = alias_views(m).map_values(|a: Seq<char>| (a, m.canonical_id@));
        assert(tail.len() == 1);
        assert forall|k: int| 0 <= k < models.len() implies (#[trigger] alias_entries(models)[k])
            == (alias_views(models[k])[0], models[k].canonical_id@) by {
            if k < prev.len() {
                assert(prev[k] == models[k]);
                assert(alias_entries(models)[k] == alias_entries(prev)[k]);
            } else {
                assert(alias_entries(models)[k] == tail[0]);
            }
        }
    }
}

/// With distinct alias names, looking up the name of an entry gives that entry's target.
proof fn lemma_alias_lookup_at(entries: Seq<(Seq<char>, Seq<char>)>, k: int)
    requires
        0 <= k < entries.len(),
        distinct(entries.map_values(|e: (Seq<char>, Seq<char>)| e.0)),
    ensures
        alias_lookup(entries, entries[k].0) == Some(entries[k].1),
    decreases k,
{
    let names = entries.map_values(|e: (Seq<char>, Seq<char>)| e.0);
    if k > 0 {
        let rest = entries.drop_first();
        assert(names[0] != names[k]);
        assert(entries[0].0 != entries[k].0);
        let rest_names = rest.map_values(|e: (Seq<char>, Seq<char>)| e.0);
        assert forall|i: int, j: int| 0 <= i < j < rest_names.len() implies #[trigger] rest_names[i]
            != #[trigger] rest_names[j] by {
            assert(rest_names[i] == names[i + 1]);
            assert(rest_names[j] == names[j + 1]);
        }
        assert(rest[k - 1] == entries[k]);
        lemma_alias_lookup_at(rest, k - 1);
    }
}

/// In the shipped catalog every legacy model ID resolves to its model's current canonical
/// ID, and every canonical ID resolves to itself.
pub proof fn law_embedded_aliases_resolve(
    models: Seq<MlxCatalogModel>,
    aliases: Seq<(Seq<char>, Seq<char>)>,
    default_id: Seq<char>,
    k: int,
)
    requires
        models.len() == 7,
        forall|i: int| 0 <= i < 7 ==> is_hf_model(#[trigger] models[i], embedded_entry(i)),
        aliases == alias_entries(models),
        catalog_consistent(models, aliases, default_id),
        0 <= k < 7,
    ensures
        resolved_id(models, aliases, embedded_entry(k).1) == Some(embedded_entry(k).0),
        resolved_id(models, aliases, embedded_entry(k).0) == Some(embedded_entry(k).0),
{
    assert forall|i: int| 0 <= i < models.len() implies (#[trigger] alias_views(models[i])).len()
        == 1 by {
        assert(is_hf_model(models[i], embedded_entry(i)));
    }
    lemma_single_alias_entries(models);
    assert(is_hf_model(models[k], embedded_entry(k)));
    assert(aliases[k] == (embedded_entry(k).1, embedded_entry(k).0));
    assert(model_ids(models)[k] == embedded_entry(k).0);
    assert(!model_ids(models).contains(aliases[k].0));
    lemma_alias_lookup_at(aliases, k);
}

} // verus!
