//! The screen flow: its value, and its normal form in which every
//! transition leaves from a single timeline.
use vstd::prelude::*;

use crate::parser::ast::{Flow, FlowTarget, FlowTransition, UrlParam};
use crate::text::clone_opt_string;

verus! {

broadcast use vstd::std_specs::vec::group_vec_axioms;

/// The value of a URL parameter.
pub enum UrlParamView {
    Required(Seq<char>),
    Optional(Seq<char>),
    Wildcard,
}

pub open spec fn url_param_view(p: UrlParam) -> UrlParamView {
    match p {
        UrlParam::Required(s) => UrlParamView::Required(s@),
        UrlParam::Optional(s) => UrlParamView::Optional(s@),
        UrlParam::Wildcard => UrlParamView::Wildcard,
    }
}

pub open spec fn opt_text(s: Option<String>) -> Option<Seq<char>> {
    match s {
        Some(x) => Some(x@),
        None => None,
    }
}

/// The value of a transition target.
pub struct TargetView {
    pub timeline: Seq<char>,
    pub url: Option<Seq<char>>,
    pub params: Seq<(Seq<char>, UrlParamView)>,
}

pub open spec fn target_view(t: FlowTarget) -> TargetView {
    TargetView {
        timeline: t.timeline@,
        url: opt_text(t.url),
        params: t.params@.map_values(|p: (String, UrlParam)| (p.0@, url_param_view(p.1))),
    }
}

/// The value of a transition.
pub struct TransitionView {
    pub from: Seq<Seq<char>>,
    pub to: Seq<TargetView>,
}

pub open spec fn texts(v: Seq<String>) -> Seq<Seq<char>> {
    v.map_values(|s: String| s@)
}

pub open spec fn targets_view(v: Seq<FlowTarget>) -> Seq<TargetView> {
    v.map_values(|t: FlowTarget| target_view(t))
}

pub open spec fn transition_view(t: FlowTransition) -> TransitionView {
    TransitionView { from: texts(t.from@), to: targets_view(t.to@) }
}

pub open spec fn transitions_view(v: Seq<FlowTransition>) -> Seq<TransitionView> {
    v.map_values(|t: FlowTransition| transition_view(t))
}

/// The value of a flow.
pub struct FlowView {
    pub start: Seq<char>,
    pub start_url: Option<Seq<char>>,
    pub transitions: Seq<TransitionView>,
}

pub open spec fn flow_view(f: Flow) -> FlowView {
    FlowView {
        start: f.start@,
        start_url: opt_text(f.start_url),
        transitions: transitions_view(f.transitions@),
    }
}

/// A transition split by source: itself when it has exactly one source,
/// otherwise one transition per source, in order, each to the same targets
/// (none when it has no source).
pub open spec fn split_by_source(t: TransitionView) -> Seq<TransitionView> {
    if t.from.len() == 1 {
        seq![t]
    } else {
        Seq::new(t.from.len(), |i: int| TransitionView { from: seq![t.from[i]], to: t.to })
    }
}

/// All transitions split by source, in order.
pub open spec fn normalized(ts: Seq<TransitionView>) -> Seq<TransitionView>
    decreases ts.len(),
{
    if ts.len() == 0 {
        Seq::empty()
    } else {
        normalized(ts.drop_last()) + split_by_source(ts.last())
    }
}

/// Whether each parameter name occurs once among a target's parameters.
pub open spec fn params_distinct(params: Seq<(Seq<char>, UrlParamView)>) -> bool {
    forall|i: int, j: int| 0 <= i < j < params.len() ==> #[trigger] params[i].0 != #[trigger] params[j].0
}

/// Whether every target of every transition names each parameter once.
pub open spec fn targets_well_formed(ts: Seq<TransitionView>) -> bool {
    forall|i: int, j: int|
        0 <= i < ts.len() && 0 <= j < ts[i].to.len() ==> params_distinct(#[trigger] ts[i].to[j].params)
}

/// A well-formed flow: every target names each URL parameter once.
pub open spec fn flow_well_formed(f: FlowView) -> bool {
    targets_well_formed(f.transitions)
}

/// Normalising keeps targets well formed: every transition it gives has the
/// targets of one it was given.
pub proof fn lemma_normalized_well_formed(ts: Seq<TransitionView>)
    requires
        targets_well_formed(ts),
    ensures
        targets_well_formed(normalized(ts)),
    decreases ts.len(),
{
    if ts.len() > 0 {
        let init = ts.drop_last();
        assert(targets_well_formed(init)) by {
            assert forall|i: int, j: int| 0 <= i < init.len() && 0 <= j < init[i].to.len() implies params_distinct(
                #[trigger] init[i].to[j].params,
            ) by {
                assert(init[i] == ts[i]);
            }
        }
        lemma_normalized_well_formed(init);
        let a = normalized(init);
        let b = split_by_source(ts.last());
        assert forall|k: int| 0 <= k < b.len() implies (#[trigger] b[k]).to == ts.last().to by {}
        let n = normalized(ts);
        assert(n == a + b);
        assert forall|i: int, j: int| 0 <= i < n.len() && 0 <= j < n[i].to.len() implies params_distinct(
            #[trigger] n[i].to[j].params,
        ) by {
            if i < a.len() {
                assert(n[i] == a[i]);
            } else {
                assert(n[i] == b[i - a.len()]);
                assert(n[i].to == ts[ts.len() - 1].to);
            }
        }
    }
}

impl UrlParam {
    pub fn deep_clone(&self) -> (r: UrlParam)
        ensures
            r == *self,
    {
        match self {
            UrlParam::Required(s) => UrlParam::Required(s.clone()),
            UrlParam::Optional(s) => UrlParam::Optional(s.clone()),
            UrlParam::Wildcard => UrlParam::Wildcard,
        }
    }
}

pub fn clone_strings(v: &Vec<String>) -> (r: Vec<String>)
    ensures
        r@ == v@,
{
    let mut r: Vec<String> = Vec::new();
    let mut i: usize = 0;
    while i < v.len()
        invariant
            i <= v.len(),
            r@ == v@.take(i as int),
        decreases v.len() - i,
    {
        r.push(v[i].clone());
        proof {
            assert(v@.take(i + 1) =~= v@.take(i as int).push(v@[i as int]));
        }
        i = i + 1;
    }
    proof {
        assert(v@.take(v@.len() as int) =~= v@);
    }
    r
}

impl FlowTarget {
    /// A copy with the same value.
    pub fn deep_clone(&self) -> (r: FlowTarget)
        ensures
            r.timeline == self.timeline,
            r.url == self.url,
            r.params@ == self.params@,
    {
        let mut params: Vec<(String, UrlParam)> = Vec::new();
        let mut i: usize = 0;
        while i < self.params.len()
            invariant
                i <= self.params.len(),
                params@ == self.params@.take(i as int),
            decreases self.params.len() - i,
        {
            params.push((self.params[i].0.clone(), self.params[i].1.deep_clone()));
            proof {
                assert(self.params@.take(i + 1) =~= self.params@.take(i as int).push(self.params@[i as int]));
            }
            i = i + 1;
        }
        proof {
            assert(self.params@.take(self.params@.len() as int) =~= self.params@);
        }
        FlowTarget { timeline: self.timeline.clone(), url: clone_opt_string(&self.url), params }
    }
}

pub fn clone_targets(v: &Vec<FlowTarget>) -> (r: Vec<FlowTarget>)
    ensures
        targets_view(r@) == targets_view(v@),
{
    let mut r: Vec<FlowTarget> = Vec::new();
    let mut i: usize = 0;
    while i < v.len()
        invariant
            i <= v.len(),
            r@.len() == i,
            forall|k: int| 0 <= k < i ==> #[trigger] target_view(r@[k]) == target_view(v@[k]),
        decreases v.len() - i,
    {
        let t = v[i].deep_clone();
        proof {
            assert(target_view(t) == target_view(v@[i as int]));
        }
        r.push(t);
        i = i + 1;
    }
    proof {
        assert(targets_view(r@) =~= targets_view(v@));
    }
    r
}

impl FlowTransition {
    pub fn deep_clone(&self) -> (r: FlowTransition)
        ensures
            transition_view(r) == transition_view(*self),
    {
        FlowTransition { from: clone_strings(&self.from), to: clone_targets(&self.to) }
    }
}

impl Flow {
    /// Splits every transition with several sources into one transition per
    /// source, in order (`[A, B] -> C` becomes `A -> C`, `B -> C`); a
    /// transition with no source disappears.
    pub fn normalize(self) -> (r: Flow)
        ensures
            flow_view(r) == (FlowView {
                transitions: normalized(flow_view(self).transitions),
                ..flow_view(self)
            }),
            flow_well_formed(flow_view(self)) ==> flow_well_formed(flow_view(r)),
    {
        let mut expanded: Vec<FlowTransition> = Vec::new();
        let mut i: usize = 0;
        let ghost ts = transitions_view(self.transitions@);
        while i < self.transitions.len()
            invariant
                i <= self.transitions.len(),
                ts == transitions_view(self.transitions@),
                transitions_view(expanded@) == normalized(ts.take(i as int)),
            decreases self.transitions.len() - i,
        {
            let t = &self.transitions[i];
            let ghost before = expanded@;
            proof {
                assert(ts.take(i + 1).drop_last() =~= ts.take(i as int));
                assert(ts.take(i + 1).last() == transition_view(*t));
            }
            if t.from.len() == 1 {
                expanded.push(t.deep_clone());
                proof {
                    assert(transitions_view(expanded@) =~= transitions_view(before) + split_by_source(
                        transition_view(*t),
                    ));
                }
            } else {
                let mut j: usize = 0;
                while j < t.from.len()
                    invariant
                        j <= t.from.len(),
                        t.from.len() != 1,
                        expanded@.len() == before.len() + j,
                        forall|k: int| 0 <= k < before.len() ==> expanded@[k] == before[k],
                        forall|k: int|
                            0 <= k < j ==> #[trigger] transition_view(expanded@[before.len() + k])
                                == split_by_source(transition_view(*t))[k],
                    decreases t.from.len() - j,
                {
                    let mut from: Vec<String> = Vec::new();
                    from.push(t.from[j].clone());
                    let nt = FlowTransition { from, to: clone_targets(&t.to) };
                    proof {
                        assert(transition_view(nt).from =~= seq![t.from@[j as int]@]);
                    }
                    expanded.push(nt);
                    j = j + 1;
                }
                proof {
                    let sp = split_by_source(transition_view(*t));
                    assert(sp.len() == t.from.len());
                    let lhs = transitions_view(expanded@);
                    let rhs = transitions_view(before) + sp;
                    assert(lhs.len() == rhs.len());
                    assert forall|k: int| 0 <= k < lhs.len() implies lhs[k] == rhs[k] by {
                        if k < before.len() {
                            assert(expanded@[k] == before[k]);
                        } else {
                            assert(transition_view(expanded@[before.len() + (k - before.len())])
                                == sp[k - before.len()]);
                        }
                    }
                    assert(lhs =~= rhs);
                }
            }
            i = i + 1;
        }
        proof {
            assert(ts.take(ts.len() as int) =~= ts);
            if flow_well_formed(flow_view(self)) {
                lemma_normalized_well_formed(ts);
            }
        }
        Flow { start: self.start, start_url: self.start_url, transitions: expanded }
    }
}

/// After normalisation every transition leaves from exactly one timeline.
pub proof fn lemma_normalized_single_source(ts: Seq<TransitionView>)
    ensures
        forall|k: int| 0 <= k < normalized(ts).len() ==> #[trigger] normalized(ts)[k].from.len() == 1,
    decreases ts.len(),
{
    if ts.len() > 0 {
        lemma_normalized_single_source(ts.drop_last());
        let a = normalized(ts.drop_last());
        let b = split_by_source(ts.last());
        assert forall|k: int| 0 <= k < normalized(ts).len() implies #[trigger] normalized(ts)[k].from.len()
            == 1 by {
            if k >= a.len() {
                assert(normalized(ts)[k] == b[k - a.len()]);
            } else {
                assert(normalized(ts)[k] == a[k]);
            }
        }
    }
}

proof fn lemma_normalized_append(a: Seq<TransitionView>, b: Seq<TransitionView>)
    ensures
        normalized(a + b) == normalized(a) + normalized(b),
    decreases b.len(),
{
    if b.len() == 0 {
        assert(a + b =~= a);
        assert(normalized(a) + normalized(b) =~= normalized(a));
    } else {
        assert((a + b).drop_last() =~= a + b.drop_last());
        lemma_normalized_append(a, b.drop_last());
        assert(normalized(a) + normalized(b.drop_last()) + split_by_source(b.last()) =~= normalized(a)
            + normalized(b));
    }
}

/// Normalising a normal flow changes nothing.
pub proof fn lemma_normalized_idempotent(ts: Seq<TransitionView>)
    ensures
        normalized(normalized(ts)) == normalized(ts),
    decreases ts.len(),
{
    if ts.len() > 0 {
        lemma_normalized_idempotent(ts.drop_last());
        let a = normalized(ts.drop_last());
        let b = split_by_source(ts.last());
        lemma_normalized_append(a, b);
        lemma_split_parts_normal(b);
    }
}

proof fn lemma_split_parts_normal(b: Seq<TransitionView>)
    requires
        forall|k: int| 0 <= k < b.len() ==> #[trigger] b[k].from.len() == 1,
    ensures
        normalized(b) == b,
    decreases b.len(),
{
    if b.len() > 0 {
        lemma_split_parts_normal(b.drop_last());
        assert(split_by_source(b.last()) =~= seq![b.last()]);
        assert(b.drop_last().push(b.last()) =~= b);
        assert(b.drop_last() + seq![b.last()] =~= b);
    }
}

} // verus!
