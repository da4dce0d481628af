//! Choosing how to download a model: sources in priority order, and what each source
//! kind dispatches to.

use vstd::prelude::*;
use crate::mlx::catalog::{MlxCatalogModel, ModelSource, ModelSourceKind};
use crate::text::{is_blank, trim};

verus! {

#[derive(Clone, Debug, PartialEq, Eq)]
pub enum DownloadSourceTarget {
    HuggingFaceRepo(String),
}

#[derive(Clone, Copy, Debug, PartialEq, Eq, Structural)]
pub enum SourceDispatchErrorKind {
    Disabled,
    NotConfigured,
}

#[derive(Clone, Debug, PartialEq, Eq)]
pub struct SourceDispatchError {
    pub kind: SourceDispatchErrorKind,
    pub allow_fallback: bool,
    pub message: String,
}

impl SourceDispatchError {
    /// Disabled sources always allow fallback; not-configured sources only do when
    /// explicitly marked with `allow_fallback`.
    pub fn can_fallback(&self) -> (r: bool)
        ensures
            r == (self.allow_fallback || self.kind != SourceDispatchErrorKind::NotConfigured),
    {
        self.allow_fallback || self.kind != SourceDispatchErrorKind::NotConfigured
    }
}

/// `x` placed into `s` after every element whose priority is not above its own.
pub open spec fn insert_by_priority(s: Seq<ModelSource>, x: ModelSource) -> Seq<ModelSource>
    decreases s.len(),
{
    if s.len() == 0 {
        seq![x]
    } else if s.last().priority <= x.priority {
        s.push(x)
    } else {
        insert_by_priority(s.drop_last(), x).push(s.last())
    }
}

/// The sources ordered by priority, sources of equal priority keeping their order (a
/// stable sort).
pub open spec fn by_priority(s: Seq<ModelSource>) -> Seq<ModelSource>
    decreases s.len(),
{
    if s.len() == 0 {
        Seq::empty()
    } else {
        insert_by_priority(by_priority(s.drop_last()), s.last())
    }
}

/// Priorities never decrease along the sequence.
pub open spec fn priority_sorted(s: Seq<ModelSource>) -> bool {
    forall|i: int, j: int| 0 <= i <= j < s.len() ==> #[trigger] s[i].priority
        <= #[trigger] s[j].priority
}

/// The sources behind a sequence of references.
pub open spec fn deref_all(s: Seq<&ModelSource>) -> Seq<ModelSource> {
    s.map_values(|r: &ModelSource| *r)
}

proof fn lemma_insert_at(s: Seq<ModelSource>, x: ModelSource, p: int)
    requires
        0 <= p <= s.len(),
        p == 0 || s[p - 1].priority <= x.priority,
        forall|j: int| p <= j < s.len() ==> (#[trigger] s[j]).priority > x.priority,
    ensures
        insert_by_priority(s, x) == s.insert(p, x),
    decreases s.len(),
{
    if s.len() == 0 {
        assert(s.insert(p, x) =~= seq![x]);
    } else if s.len() == p {
        assert(s.insert(p, x) =~= s.push(x));
    } else {
        let t = s.drop_last();
        assert forall|j: int| p <= j < t.len() implies (#[trigger] t[j]).priority > x.priority by {
            assert(t[j] == s[j]);
        }
        lemma_insert_at(t, x, p);
        assert(s.insert(p, x) =~= t.insert(p, x).push(s.last()));
    }
}

proof fn lemma_insert_sorted(s: Seq<ModelSource>, x: ModelSource)
    requires
        priority_sorted(s),
    ensures
        priority_sorted(insert_by_priority(s, x)),
        insert_by_priority(s, x).len() == s.len() + 1,
        insert_by_priority(s, x).to_multiset() == s.to_multiset().insert(x),
    decreases s.len(),
{
    broadcast use vstd::seq_lib::group_to_multiset_ensures;
    if s.len() > 0 {
        let t = s.drop_last();
        assert(t.push(s.last()) =~= s);
        if s.last().priority > x.priority {
            lemma_insert_sorted(t, x);
            let u = insert_by_priority(t, x);
            let r = u.push(s.last());
            assert forall|i: int, j: int| 0 <= i <= j < r.len() implies #[trigger] r[i].priority
                <= #[trigger] r[j].priority by {
                if j == r.len() - 1 && i < j {
                    assert(u.to_multiset().count(u[i]) > 0);
                    if u[i] == x {
                    } else {
                        assert(t.to_multiset().count(u[i]) > 0);
                        assert(t.contains(u[i]));
                        let w = choose|w: int| 0 <= w < t.len() && t[w] == u[i];
                        assert(s[w] == t[w]);
                    }
                }
            }
        }
    }
}

proof fn lemma_by_priority(s: Seq<ModelSource>)
    ensures
        priority_sorted(by_priority(s)),
        by_priority(s).len() == s.len(),
        by_priority(s).to_multiset() == s.to_multiset(),
    decreases s.len(),
{
    broadcast use vstd::seq_lib::group_to_multiset_ensures;
    if s.len() > 0 {
        lemma_by_priority(s.drop_last());
        lemma_insert_sorted(by_priority(s.drop_last()), s.last());
        assert(s.drop_last().push(s.last()) =~= s);
    }
}

/// The downloader's dispatch rules.
pub struct ModelDownloader;

impl ModelDownloader {
    /// The model's sources, lowest priority value first; sources of equal priority keep
    /// their order.
    pub fn ordered_sources(model: &MlxCatalogModel) -> (r: Vec<&ModelSource>)
        ensures
            deref_all(r@) == by_priority(model.sources@),
            priority_sorted(deref_all(r@)),
            deref_all(r@).to_multiset() == model.sources@.to_multiset(),
    {
        let mut out: Vec<&ModelSource> = Vec::new();
        let mut i: usize = 0;
        while i < model.sources.len()
            invariant
                i <= model.sources.len(),
                deref_all(out@) == by_priority(model.sources@.take(i as int)),
            decreases model.sources.len() - i,
        {
            let x = &model.sources[i];
            proof {
                lemma_by_priority(model.sources@.take(i as int));
            }
            let ghost sorted = deref_all(out@);
            let mut p: usize = out.len();
            while p > 0 && out[p - 1].priority > x.priority
                invariant
                    p <= out.len(),
                    sorted == deref_all(out@),
                    forall|j: int| p <= j < out.len() ==> (#[trigger] sorted[j]).priority
                        > x.priority,
                decreases p,
            {
                p = p - 1;
            }
            proof {
                lemma_insert_at(sorted, *x, p as int);
            }
            let ghost before = out@;
            out.insert(p, x);
            assert(deref_all(out@) =~= sorted.insert(p as int, *x));
            assert(model.sources@.take(i + 1).drop_last() =~= model.sources@.take(i as int));
            i = i + 1;
        }
        assert(model.sources@.take(model.sources.len() as int) =~= model.sources@);
        proof {
            lemma_by_priority(model.sources@);
        }
        out
    }

    /// What a source downloads from, or why it cannot be used: disabled sources fail with
    /// fallback allowed; a Hugging Face source needs a repository; HTTP mirrors are not
    /// configured.
    pub fn dispatch_download_target(source: &ModelSource) -> (r: Result<
        DownloadSourceTarget,
        SourceDispatchError,
    >)
        ensures
            !source.enabled ==> (r matches Err(e) && e.kind == SourceDispatchErrorKind::Disabled
                && e.allow_fallback && e.message@ == "Download source is disabled"@),
            source.enabled && source.kind == ModelSourceKind::HuggingfaceRepo && trim(
                source.value@,
            ).len() == 0 ==> (r matches Err(e) && e.kind == SourceDispatchErrorKind::NotConfigured
                && e.allow_fallback == source.allow_fallback && e.message@
                == "Hugging Face source is missing repo value"@),
            source.enabled && source.kind == ModelSourceKind::HuggingfaceRepo && trim(
                source.value@,
            ).len() != 0 ==> (r matches Ok(DownloadSourceTarget::HuggingFaceRepo(repo)) && repo@
                == source.value@),
            source.enabled && source.kind == ModelSourceKind::HttpMirror ==> (r matches Err(e)
                && e.kind == SourceDispatchErrorKind::NotConfigured && e.allow_fallback
                == source.allow_fallback && e.message@
                == "HTTP mirror source is not configured in this release"@),
    {
        if !source.enabled {
            return Err(
                SourceDispatchError {
                    kind: SourceDispatchErrorKind::Disabled,
                    allow_fallback: true,
                    message: "Download source is disabled".to_string(),
                },
            );
        }
        match source.kind {
            ModelSourceKind::HuggingfaceRepo => {
                if is_blank(source.value.as_str()) {
                    return Err(
                        SourceDispatchError {
                            kind: SourceDispatchErrorKind::NotConfigured,
                            allow_fallback: source.allow_fallback,
                            message: "Hugging Face source is missing repo value".to_string(),
                        },
                    );
                }
                Ok(DownloadSourceTarget::HuggingFaceRepo(source.value.clone()))
            },
            ModelSourceKind::HttpMirror => Err(
                SourceDispatchError {
                    kind: SourceDispatchErrorKind::NotConfigured,
                    allow_fallback: source.allow_fallback,
                    message: "HTTP mirror source is not configured in this release".to_string(),
                },
            ),
        }
    }
}

} // verus!
