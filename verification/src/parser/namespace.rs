//! Namespaces: qualifying names and flattening namespaced flows and
//! namespaces into one flow and one list of timelines.
use vstd::prelude::*;
use vstd::string::StringExecFns;

use crate::parser::ast::{Flow, FlowTarget, FlowTransition, Namespace, NamespacedFlow, NamespacedTransition, Timeline};
use crate::parser::flow::{
    clone_targets, flow_view, flow_well_formed, lemma_normalized_well_formed, normalized,
    params_distinct, targets_well_formed, opt_text, target_view, targets_view, texts,
    transition_view, transitions_view, FlowView, TargetView, TransitionView,
};
use crate::text::{contains_path_separator, has_path_separator, str_eq};

verus! {

broadcast use vstd::std_specs::vec::group_vec_axioms;

/// A name qualified by a namespace: a name that already contains `::` is
/// kept, a local name `n` becomes `namespace::n`.
pub open spec fn qualified(namespace: Seq<char>, name: Seq<char>) -> Seq<char> {
    if has_path_separator(name) {
        name
    } else {
        namespace + "::"@ + name
    }
}

/// Qualifies `name` by `namespace` (see `qualified`).
pub fn qualify_name(namespace: &str, name: &str) -> (r: String)
    ensures
        r@ == qualified(namespace@, name@),
{
    if contains_path_separator(name) {
        String::from_str(name)
    } else {
        let mut s = String::from_str(namespace);
        s.append("::");
        s.append(name);
        s
    }
}

/// Qualifying twice is qualifying once.
pub proof fn lemma_qualified_idempotent(namespace: Seq<char>, name: Seq<char>)
    ensures
        qualified(namespace, qualified(namespace, name)) == qualified(namespace, name),
{
    if !has_path_separator(name) {
        reveal_strlit("::");
        let q = namespace + "::"@ + name;
        assert(q[namespace.len() as int] == ':');
        assert(q[namespace.len() + 1int] == ':');
        assert(has_path_separator(q));
    }
}

/// A qualified name always contains `::` and ends with the name; a local
/// name gets exactly the namespace and `::` in front of it, and an already
/// qualified one is unchanged.
pub proof fn lemma_qualified_shape(namespace: Seq<char>, name: Seq<char>)
    ensures
        has_path_separator(qualified(namespace, name)),
        qualified(namespace, name).len() >= name.len(),
        qualified(namespace, name).subrange(qualified(namespace, name).len() - name.len(), qualified(namespace, name).len() as int) == name,
        !has_path_separator(name) ==> qualified(namespace, name).len() == namespace.len() + 2 + name.len()
            && qualified(namespace, name).take(namespace.len() as int) == namespace
            && qualified(namespace, name)[namespace.len() as int] == ':'
            && qualified(namespace, name)[namespace.len() + 1int] == ':',
        has_path_separator(name) ==> qualified(namespace, name) == name,
{
    reveal_strlit("::");
    let q = qualified(namespace, name);
    if !has_path_separator(name) {
        assert(q == namespace + seq![':', ':'] + name);
        assert(q[namespace.len() as int] == ':');
        assert(q[namespace.len() + 1int] == ':');
        assert(q.take(namespace.len() as int) =~= namespace);
        assert(q.subrange(q.len() - name.len(), q.len() as int) =~= name);
    } else {
        assert(q.subrange(q.len() - name.len(), q.len() as int) =~= name);
    }
}

/// The qualified start of the namespaced flow named `n` (the last one of
/// that name), if there is one.
pub open spec fn flow_start_of(flows: Seq<NamespacedFlow>, n: Seq<char>) -> Option<Seq<char>>
    decreases flows.len(),
{
    if flows.len() == 0 {
        None
    } else if flows.last().name@ == n {
        Some(qualified(flows.last().name@, flows.last().start@))
    } else {
        flow_start_of(flows.drop_last(), n)
    }
}

/// The names a list of namespaced transitions mentions: for each transition
/// its sources, then its targets.
pub open spec fn transition_names(ts: Seq<NamespacedTransition>) -> Seq<Seq<char>>
    decreases ts.len(),
{
    if ts.len() == 0 {
        Seq::empty()
    } else {
        transition_names(ts.drop_last()) + texts(ts.last().from@) + texts(ts.last().to@)
    }
}

/// The names a namespaced flow mentions: its start, then its transitions'.
pub open spec fn state_names(nf: NamespacedFlow) -> Seq<Seq<char>> {
    seq![nf.start@] + transition_names(nf.transitions@)
}

/// The names of `names` that are not names of flows, each once, in the
/// order of their first occurrence.
pub open spec fn distinct_states(names: Seq<Seq<char>>, flows: Seq<NamespacedFlow>) -> Seq<Seq<char>>
    decreases names.len(),
{
    if names.len() == 0 {
        Seq::empty()
    } else {
        let d = distinct_states(names.drop_last(), flows);
        let n = names.last();
        if flow_start_of(flows, n) is Some || d.contains(n) {
            d
        } else {
            d.push(n)
        }
    }
}

/// The states of a namespaced flow, qualified by the flow's name.
pub open spec fn qualified_states(nf: NamespacedFlow, flows: Seq<NamespacedFlow>) -> Seq<Seq<char>> {
    distinct_states(state_names(nf), flows).map_values(|s: Seq<char>| qualified(nf.name@, s))
}

/// The qualified states of the namespaced flow named `n` among `prefix`
/// (the last one of that name), if there is one.
pub open spec fn flow_states_of(flows: Seq<NamespacedFlow>, prefix: Seq<NamespacedFlow>, n: Seq<char>) -> Option<
    Seq<Seq<char>>,
>
    decreases prefix.len(),
{
    if prefix.len() == 0 {
        None
    } else if prefix.last().name@ == n {
        Some(qualified_states(prefix.last(), flows))
    } else {
        flow_states_of(flows, prefix.drop_last(), n)
    }
}

/// Sources of a transition of the base flow: a flow name stands for all of
/// that flow's states.
pub open spec fn expanded_sources(fs: Seq<Seq<char>>, flows: Seq<NamespacedFlow>) -> Seq<Seq<char>>
    decreases fs.len(),
{
    if fs.len() == 0 {
        Seq::empty()
    } else {
        expanded_sources(fs.drop_last(), flows) + match flow_states_of(flows, flows, fs.last()) {
            Some(s) => s,
            None => seq![fs.last()],
        }
    }
}

/// A target of the base flow: a flow name stands for that flow's start.
pub open spec fn resolved_target(t: TargetView, flows: Seq<NamespacedFlow>) -> TargetView {
    TargetView {
        timeline: match flow_start_of(flows, t.timeline) {
            Some(q) => q,
            None => t.timeline,
        },
        ..t
    }
}

pub open spec fn resolved_base_transition(t: TransitionView, flows: Seq<NamespacedFlow>) -> TransitionView {
    TransitionView {
        from: expanded_sources(t.from, flows),
        to: t.to.map_values(|x: TargetView| resolved_target(x, flows)),
    }
}

/// A target inside the namespaced flow `flow_name`: a flow name stands for
/// that flow's start, another name is qualified by `flow_name`.
pub open spec fn namespaced_target(flow_name: Seq<char>, x: Seq<char>, flows: Seq<NamespacedFlow>) -> TargetView {
    TargetView {
        timeline: match flow_start_of(flows, x) {
            Some(q) => q,
            None => qualified(flow_name, x),
        },
        url: None,
        params: Seq::empty(),
    }
}

pub open spec fn namespaced_transition(
    flow_name: Seq<char>,
    t: NamespacedTransition,
    flows: Seq<NamespacedFlow>,
) -> TransitionView {
    TransitionView {
        from: texts(t.from@).map_values(|f: Seq<char>| qualified(flow_name, f)),
        to: texts(t.to@).map_values(|x: Seq<char>| namespaced_target(flow_name, x, flows)),
    }
}

/// The transitions of the namespaced flows of `prefix`, in order.
pub open spec fn namespaced_transitions(prefix: Seq<NamespacedFlow>, flows: Seq<NamespacedFlow>) -> Seq<
    TransitionView,
>
    decreases prefix.len(),
{
    if prefix.len() == 0 {
        Seq::empty()
    } else {
        namespaced_transitions(prefix.drop_last(), flows) + prefix.last().transitions@.map_values(
            |t: NamespacedTransition| namespaced_transition(prefix.last().name@, t, flows),
        )
    }
}

/// The start of the flattened flow: the base flow's (a flow name standing
/// for that flow's start), or else the first namespaced flow's qualified
/// start.
pub open spec fn expanded_start(flows: Seq<NamespacedFlow>, base: Option<FlowView>) -> Option<Seq<char>> {
    match base {
        Some(b) => Some(
            match flow_start_of(flows, b.start) {
                Some(q) => q,
                None => b.start,
            },
        ),
        None => if flows.len() > 0 {
            Some(qualified(flows[0].name@, flows[0].start@))
        } else {
            None
        },
    }
}

/// The transitions of the flattened flow before normalisation: the base
/// flow's, resolved, then the namespaced flows'.
pub open spec fn expanded_transitions(flows: Seq<NamespacedFlow>, base: Option<FlowView>) -> Seq<TransitionView> {
    let base_ts = match base {
        Some(b) => b.transitions.map_values(|t: TransitionView| resolved_base_transition(t, flows)),
        None => Seq::empty(),
    };
    base_ts + namespaced_transitions(flows, flows)
}

/// The timelines of the namespaces, in order, each with the name of its
/// namespace.
pub open spec fn namespace_timelines(nss: Seq<Namespace>) -> Seq<(Seq<char>, Timeline)>
    decreases nss.len(),
{
    if nss.len() == 0 {
        Seq::empty()
    } else {
        namespace_timelines(nss.drop_last()) + nss.last().timelines@.map_values(
            |t: Timeline| (nss.last().name@, t),
        )
    }
}

pub open spec fn opt_flow_view(f: Option<Flow>) -> Option<FlowView> {
    match f {
        Some(x) => Some(flow_view(x)),
        None => None,
    }
}

/// The flattened flow (see `expand_namespaced_structures`), where it has a
/// start.
pub open spec fn expanded_flow(flows: Seq<NamespacedFlow>, base: Option<FlowView>) -> FlowView {
    FlowView {
        start: expanded_start(flows, base)->0,
        start_url: None,
        transitions: normalized(expanded_transitions(flows, base)),
    }
}

/// Whether `tls` is `timelines` followed by the namespaces' timelines, each
/// renamed `namespace::name` and otherwise unchanged.
pub open spec fn expanded_timelines(timelines: Seq<Timeline>, nss: Seq<Namespace>, tls: Seq<Timeline>) -> bool {
    &&& tls.len() == timelines.len() + namespace_timelines(nss).len()
    &&& forall|i: int| 0 <= i < timelines.len() ==> tls[i] == timelines[i]
    &&& forall|j: int|
        0 <= j < namespace_timelines(nss).len() ==> {
            let (prefix, t) = #[trigger] namespace_timelines(nss)[j];
            &&& tls[timelines.len() + j].name@ == prefix + "::"@ + t.name@
            &&& tls[timelines.len() + j] == (Timeline { name: tls[timelines.len() + j].name, ..t })
        }
}

proof fn lemma_namespaced_targets_plain(prefix: Seq<NamespacedFlow>, flows: Seq<NamespacedFlow>)
    ensures
        targets_well_formed(namespaced_transitions(prefix, flows)),
    decreases prefix.len(),
{
    if prefix.len() > 0 {
        lemma_namespaced_targets_plain(prefix.drop_last(), flows);
        let a = namespaced_transitions(prefix.drop_last(), flows);
        let b = prefix.last().transitions@.map_values(
            |t: NamespacedTransition| namespaced_transition(prefix.last().name@, t, flows),
        );
        let n = namespaced_transitions(prefix, flows);
        assert(n == a + b);
        assert forall|i: int, j: int| 0 <= i < n.len() && 0 <= j < n[i].to.len() implies params_distinct(
            #[trigger] n[i].to[j].params,
        ) by {
            if i < a.len() {
                assert(n[i] == a[i]);
            } else {
                assert(n[i] == b[i - a.len()]);
                assert(n[i].to[j].params.len() == 0);
            }
        }
    }
}

/// Flattening keeps the base flow's targets well formed: its targets keep
/// their parameters and the namespaced flows' targets have none.
pub proof fn lemma_expanded_well_formed(flows: Seq<NamespacedFlow>, base: Option<FlowView>)
    requires
        base matches Some(b) ==> flow_well_formed(b),
    ensures
        targets_well_formed(expanded_transitions(flows, base)),
        targets_well_formed(normalized(expanded_transitions(flows, base))),
{
    let base_ts = match base {
        Some(b) => b.transitions.map_values(|t: TransitionView| resolved_base_transition(t, flows)),
        None => Seq::empty(),
    };
    lemma_namespaced_targets_plain(flows, flows);
    let c = namespaced_transitions(flows, flows);
    let all = expanded_transitions(flows, base);
    assert(all == base_ts + c);
    assert forall|i: int, j: int| 0 <= i < all.len() && 0 <= j < all[i].to.len() implies params_distinct(
        #[trigger] all[i].to[j].params,
    ) by {
        if i < base_ts.len() {
            let b = base->0;
            assert(all[i] == resolved_base_transition(b.transitions[i], flows));
            assert(all[i].to[j] == resolved_target(b.transitions[i].to[j], flows));
            assert(params_distinct(b.transitions[i].to[j].params));
        } else {
            assert(all[i] == c[i - base_ts.len()]);
        }
    }
    lemma_normalized_well_formed(all);
}

// ---------------------------------------------------------------------
// Lookups
// ---------------------------------------------------------------------

fn find_flow_start(flows: &Vec<NamespacedFlow>, n: &str) -> (r: Option<String>)
    ensures
        opt_text(r) == flow_start_of(flows@, n@),
{
    let mut i = flows.len();
    proof {
        assert(flows@.take(flows@.len() as int) =~= flows@);
    }
    while i > 0
        invariant
            i <= flows.len(),
            flow_start_of(flows@, n@) == flow_start_of(flows@.take(i as int), n@),
        decreases i,
    {
        proof {
            assert(flows@.take(i as int).drop_last() =~= flows@.take(i - 1));
            assert(flows@.take(i as int).last() == flows@[i - 1]);
        }
        if str_eq(flows[i - 1].name.as_str(), n) {
            return Some(qualify_name(flows[i - 1].name.as_str(), flows[i - 1].start.as_str()));
        }
        i = i - 1;
    }
    None
}

fn push_texts(out: &mut Vec<String>, v: &Vec<String>)
    ensures
        texts(final(out)@) == texts(old(out)@) + texts(v@),
{
    let ghost start = out@;
    let mut i: usize = 0;
    while i < v.len()
        invariant
            i <= v.len(),
            out@ == start + v@.take(i as int),
        decreases v.len() - i,
    {
        out.push(v[i].clone());
        proof {
            assert(v@.take(i + 1) =~= v@.take(i as int).push(v@[i as int]));
        }
        i = i + 1;
    }
    proof {
        assert(v@.take(v@.len() as int) =~= v@);
        assert(texts(out@) =~= texts(start) + texts(v@));
    }
}

fn collect_state_names(nf: &NamespacedFlow) -> (r: Vec<String>)
    ensures
        texts(r@) == state_names(*nf),
{
    let mut r: Vec<String> = Vec::new();
    r.push(nf.start.clone());
    let mut i: usize = 0;
    proof {
        assert(texts(r@) =~= seq![nf.start@] + transition_names(nf.transitions@.take(0)));
    }
    while i < nf.transitions.len()
        invariant
            i <= nf.transitions.len(),
            texts(r@) == seq![nf.start@] + transition_names(nf.transitions@.take(i as int)),
        decreases nf.transitions.len() - i,
    {
        proof {
            assert(nf.transitions@.take(i + 1).drop_last() =~= nf.transitions@.take(i as int));
        }
        push_texts(&mut r, &nf.transitions[i].from);
        push_texts(&mut r, &nf.transitions[i].to);
        proof {
            let ts = nf.transitions@.take(i + 1);
            assert(ts.last() == nf.transitions@[i as int]);
            assert(texts(r@) =~= seq![nf.start@] + transition_names(ts));
        }
        i = i + 1;
    }
    proof {
        assert(nf.transitions@.take(nf.transitions@.len() as int) =~= nf.transitions@);
    }
    r
}

fn texts_contain(v: &Vec<String>, n: &str) -> (b: bool)
    ensures
        b == texts(v@).contains(n@),
{
    let mut i: usize = 0;
    while i < v.len()
        invariant
            i <= v.len(),
            forall|k: int| 0 <= k < i ==> v@[k]@ != n@,
        decreases v.len() - i,
    {
        if str_eq(v[i].as_str(), n) {
            proof {
                assert(texts(v@)[i as int] == n@);
            }
            return true;
        }
        i = i + 1;
    }
    proof {
        if texts(v@).contains(n@) {
            let k = choose|k: int| 0 <= k < texts(v@).len() && texts(v@)[k] == n@;
            assert(v@[k]@ == n@);
        }
    }
    false
}

fn collect_qualified_states(nf: &NamespacedFlow, flows: &Vec<NamespacedFlow>) -> (r: Vec<String>)
    ensures
        texts(r@) == qualified_states(*nf, flows@),
{
    let names = collect_state_names(nf);
    let ghost ns = texts(names@);
    let mut d: Vec<String> = Vec::new();
    let mut i: usize = 0;
    while i < names.len()
        invariant
            i <= names.len(),
            ns == texts(names@),
            ns == state_names(*nf),
            texts(d@) == distinct_states(ns.take(i as int), flows@),
        decreases names.len() - i,
    {
        proof {
            assert(ns.take(i + 1).drop_last() =~= ns.take(i as int));
            assert(ns.take(i + 1).last() == names@[i as int]@);
        }
        let n = names[i].as_str();
        let is_flow = find_flow_start(flows, n).is_some();
        if !is_flow && !texts_contain(&d, n) {
            d.push(names[i].clone());
            proof {
                assert(texts(d@) =~= texts(d@.drop_last()).push(n@));
            }
        }
        i = i + 1;
    }
    proof {
        assert(ns.take(ns.len() as int) =~= ns);
    }
    let mut r: Vec<String> = Vec::new();
    let mut j: usize = 0;
    while j < d.len()
        invariant
            j <= d.len(),
            r@.len() == j,
            forall|k: int| 0 <= k < j ==> #[trigger] r@[k]@ == qualified(nf.name@, d@[k]@),
        decreases d.len() - j,
    {
        r.push(qualify_name(nf.name.as_str(), d[j].as_str()));
        j = j + 1;
    }
    proof {
        assert(texts(r@) =~= texts(d@).map_values(|s: Seq<char>| qualified(nf.name@, s)));
    }
    r
}

fn find_flow_states(flows: &Vec<NamespacedFlow>, n: &str) -> (r: Option<Vec<String>>)
    ensures
        match r {
            Some(v) => flow_states_of(flows@, flows@, n@) == Some(texts(v@)),
            None => flow_states_of(flows@, flows@, n@) is None,
        },
{
    let mut i = flows.len();
    proof {
        assert(flows@.take(flows@.len() as int) =~= flows@);
    }
    while i > 0
        invariant
            i <= flows.len(),
            flow_states_of(flows@, flows@, n@) == flow_states_of(flows@, flows@.take(i as int), n@),
        decreases i,
    {
        proof {
            assert(flows@.take(i as int).drop_last() =~= flows@.take(i - 1));
            assert(flows@.take(i as int).last() == flows@[i - 1]);
        }
        if str_eq(flows[i - 1].name.as_str(), n) {
            return Some(collect_qualified_states(&flows[i - 1], flows));
        }
        i = i - 1;
    }
    None
}

// ---------------------------------------------------------------------
// Transitions
// ---------------------------------------------------------------------

fn expand_sources(fs: &Vec<String>, flows: &Vec<NamespacedFlow>) -> (r: Vec<String>)
    ensures
        texts(r@) == expanded_sources(texts(fs@), flows@),
{
    let ghost t = texts(fs@);
    let mut r: Vec<String> = Vec::new();
    let mut i: usize = 0;
    while i < fs.len()
        invariant
            i <= fs.len(),
            t == texts(fs@),
            texts(r@) == expanded_sources(t.take(i as int), flows@),
        decreases fs.len() - i,
    {
        proof {
            assert(t.take(i + 1).drop_last() =~= t.take(i as int));
            assert(t.take(i + 1).last() == fs@[i as int]@);
        }
        match find_flow_states(flows, fs[i].as_str()) {
            Some(states) => {
                push_texts(&mut r, &states);
            },
            None => {
                let ghost before = r@;
                r.push(fs[i].clone());
                proof {
                    assert(texts(r@) =~= texts(before) + seq![fs@[i as int]@]);
                }
            },
        }
        i = i + 1;
    }
    proof {
        assert(t.take(t.len() as int) =~= t);
    }
    r
}

fn resolve_target(t: &FlowTarget, flows: &Vec<NamespacedFlow>) -> (r: FlowTarget)
    ensures
        target_view(r) == resolved_target(target_view(*t), flows@),
{
    let copy = t.deep_clone();
    let timeline = match find_flow_start(flows, t.timeline.as_str()) {
        Some(q) => q,
        None => t.timeline.clone(),
    };
    FlowTarget { timeline, url: copy.url, params: copy.params }
}

fn resolve_base_transition(t: &FlowTransition, flows: &Vec<NamespacedFlow>) -> (r: FlowTransition)
    ensures
        transition_view(r) == resolved_base_transition(transition_view(*t), flows@),
{
    let from = expand_sources(&t.from, flows);
    let mut to: Vec<FlowTarget> = Vec::new();
    let mut i: usize = 0;
    while i < t.to.len()
        invariant
            i <= t.to.len(),
            to@.len() == i,
            forall|k: int|
                0 <= k < i ==> #[trigger] target_view(to@[k]) == resolved_target(target_view(t.to@[k]), flows@),
        decreases t.to.len() - i,
    {
        to.push(resolve_target(&t.to[i], flows));
        i = i + 1;
    }
    proof {
        assert(targets_view(to@) =~= targets_view(t.to@).map_values(
            |x: TargetView| resolved_target(x, flows@),
        ));
    }
    FlowTransition { from, to }
}

fn namespaced_target_exec(flow_name: &str, x: &str, flows: &Vec<NamespacedFlow>) -> (r: FlowTarget)
    ensures
        target_view(r) == namespaced_target(flow_name@, x@, flows@),
{
    let timeline = match find_flow_start(flows, x) {
        Some(q) => q,
        None => qualify_name(flow_name, x),
    };
    let r = FlowTarget { timeline, url: None, params: Vec::new() };
    proof {
        assert(target_view(r).params =~= Seq::<(Seq<char>, crate::parser::flow::UrlParamView)>::empty());
    }
    r
}

fn namespaced_transition_exec(flow_name: &str, t: &NamespacedTransition, flows: &Vec<NamespacedFlow>) -> (r:
    FlowTransition)
    ensures
        transition_view(r) == namespaced_transition(flow_name@, *t, flows@),
{
    let mut from: Vec<String> = Vec::new();
    let mut i: usize = 0;
    while i < t.from.len()
        invariant
            i <= t.from.len(),
            from@.len() == i,
            forall|k: int| 0 <= k < i ==> #[trigger] from@[k]@ == qualified(flow_name@, t.from@[k]@),
        decreases t.from.len() - i,
    {
        from.push(qualify_name(flow_name, t.from[i].as_str()));
        i = i + 1;
    }
    let mut to: Vec<FlowTarget> = Vec::new();
    let mut j: usize = 0;
    while j < t.to.len()
        invariant
            j <= t.to.len(),
            to@.len() == j,
            forall|k: int|
                0 <= k < j ==> #[trigger] target_view(to@[k]) == namespaced_target(flow_name@, t.to@[k]@, flows@),
        decreases t.to.len() - j,
    {
        to.push(namespaced_target_exec(flow_name, t.to[j].as_str(), flows));
        j = j + 1;
    }
    let r = FlowTransition { from, to };
    proof {
        assert(transition_view(r).from =~= namespaced_transition(flow_name@, *t, flows@).from);
        assert(transition_view(r).to =~= namespaced_transition(flow_name@, *t, flows@).to);
    }
    r
}

// ---------------------------------------------------------------------
// Flattening
// ---------------------------------------------------------------------

/// Flattens namespaces and namespaced flows.
///
/// The timelines are `timelines` followed by every namespace's timelines,
/// renamed `namespace::name`. The flow starts at the base flow's start (a
/// flow name standing for that flow's start) or else at the first
/// namespaced flow's qualified start; without either, the result is an
/// error. Its transitions are the base flow's, with flow names standing for
/// all of that flow's states among the sources and for its start among the
/// targets, followed by every namespaced flow's transitions with their names
/// qualified; the flow is then normalised. The base flow's start URL is not
/// kept.
pub fn expand_namespaced_structures(
    namespaced_flows: Vec<NamespacedFlow>,
    namespaces: Vec<Namespace>,
    timelines: Vec<Timeline>,
    base_flow: Option<Flow>,
) -> (r: Result<(Flow, Vec<Timeline>), String>)
    ensures
        r is Err <==> expanded_start(namespaced_flows@, opt_flow_view(base_flow)) is None,
        r matches Err(msg) ==> msg@ == "start定義が見つかりません"@,
        r matches Ok((flow, tls)) ==> {
            &&& flow_view(flow) == expanded_flow(namespaced_flows@, opt_flow_view(base_flow))
            &&& expanded_timelines(timelines@, namespaces@, tls@)
            &&& (base_flow matches Some(b) ==> flow_well_formed(flow_view(b))) ==> flow_well_formed(
                flow_view(flow),
            )
        },
{
    let ghost base_view = opt_flow_view(base_flow);
    proof {
        if base_view matches Some(b) ==> flow_well_formed(b) {
            lemma_expanded_well_formed(namespaced_flows@, base_view);
        }
    }
    let ghost flows = namespaced_flows@;
    let ghost base = opt_flow_view(base_flow);
    // 1. the namespaces' timelines, prefixed
    let tls = prefix_namespace_timelines(namespaces, timelines);
    // 2. the start
    let start = match &base_flow {
        Some(b) => match find_flow_start(&namespaced_flows, b.start.as_str()) {
            Some(q) => Some(q),
            None => Some(b.start.clone()),
        },
        None => if namespaced_flows.len() > 0 {
            Some(qualify_name(namespaced_flows[0].name.as_str(), namespaced_flows[0].start.as_str()))
        } else {
            None
        },
    };
    // 3. the base flow's transitions, resolved
    let mut all: Vec<FlowTransition> = Vec::new();
    match &base_flow {
        Some(b) => {
            let mut i: usize = 0;
            while i < b.transitions.len()
                invariant
                    i <= b.transitions.len(),
                    flows == namespaced_flows@,
                    all@.len() == i,
                    forall|k: int|
                        0 <= k < i ==> #[trigger] transition_view(all@[k]) == resolved_base_transition(
                            transition_view(b.transitions@[k]),
                            flows,
                        ),
                decreases b.transitions.len() - i,
            {
                all.push(resolve_base_transition(&b.transitions[i], &namespaced_flows));
                i = i + 1;
            }
        },
        None => {},
    }
    let ghost base_part = transitions_view(all@);
    proof {
        match base {
            Some(bv) => {
                assert(base_part =~= bv.transitions.map_values(
                    |t: TransitionView| resolved_base_transition(t, flows),
                ));
            },
            None => {
                assert(base_part =~= Seq::<TransitionView>::empty());
            },
        }
    }
    // 4. the namespaced flows' transitions
    let mut f: usize = 0;
    while f < namespaced_flows.len()
        invariant
            f <= namespaced_flows.len(),
            flows == namespaced_flows@,
            transitions_view(all@) == base_part + namespaced_transitions(flows.take(f as int), flows),
        decreases namespaced_flows.len() - f,
    {
        let nf = &namespaced_flows[f];
        let ghost before = all@;
        let mut j: usize = 0;
        while j < nf.transitions.len()
            invariant
                j <= nf.transitions.len(),
                flows == namespaced_flows@,
                all@.len() == before.len() + j,
                forall|k: int| 0 <= k < before.len() ==> all@[k] == before[k],
                forall|k: int|
                    0 <= k < j ==> #[trigger] transition_view(all@[before.len() + k]) == namespaced_transition(
                        nf.name@,
                        nf.transitions@[k],
                        flows,
                    ),
            decreases nf.transitions.len() - j,
        {
            all.push(namespaced_transition_exec(nf.name.as_str(), &nf.transitions[j], &namespaced_flows));
            j = j + 1;
        }
        proof {
            let pre = flows.take(f + 1);
            assert(pre.drop_last() =~= flows.take(f as int));
            assert(pre.last() == *nf);
            let added = nf.transitions@.map_values(
                |t: crate::parser::ast::NamespacedTransition| namespaced_transition(nf.name@, t, flows),
            );
            let lhs = transitions_view(all@);
            let rhs = transitions_view(before) + added;
            assert forall|k: int| 0 <= k < lhs.len() implies lhs[k] == rhs[k] by {
                if k < before.len() {
                    assert(all@[k] == before[k]);
                } else {
                    assert(transition_view(all@[before.len() + (k - before.len())]) == added[k
                        - before.len()]);
                }
            }
            assert(lhs =~= rhs);
            assert(namespaced_transitions(pre, flows) == namespaced_transitions(flows.take(f as int), flows)
                + added);
        }
        f = f + 1;
    }
    proof {
        assert(flows.take(flows.len() as int) =~= flows);
    }
    match start {
        Some(s) => {
            let flow = Flow { start: s, start_url: None, transitions: all };
            let flow = flow.normalize();
            Ok((flow, tls))
        },
        None => Err(String::from_str("start定義が見つかりません")),
    }
}

/// The elements in reverse order.
fn reversed<T>(v: Vec<T>) -> (r: Vec<T>)
    ensures
        r@.len() == v@.len(),
        forall|k: int| 0 <= k < v@.len() ==> r@[k] == v@[v@.len() - 1 - k],
{
    let ghost orig = v@;
    let mut v = v;
    let mut r: Vec<T> = Vec::new();
    while v.len() > 0
        invariant
            v@ == orig.take(v@.len() as int),
            r@.len() + v@.len() == orig.len(),
            forall|k: int| 0 <= k < r@.len() ==> r@[k] == orig[orig.len() - 1 - k],
        decreases v@.len(),
    {
        let x = v.pop().unwrap();
        r.push(x);
    }
    r
}

fn prefix_namespace_timelines(namespaces: Vec<Namespace>, timelines: Vec<Timeline>) -> (tls: Vec<Timeline>)
    ensures
        tls@.len() == timelines@.len() + namespace_timelines(namespaces@).len(),
        forall|i: int| 0 <= i < timelines@.len() ==> tls@[i] == timelines@[i],
        forall|j: int|
            0 <= j < namespace_timelines(namespaces@).len() ==> {
                let (prefix, t) = #[trigger] namespace_timelines(namespaces@)[j];
                &&& tls@[timelines@.len() + j].name@ == prefix + "::"@ + t.name@
                &&& tls@[timelines@.len() + j] == (Timeline { name: tls@[timelines@.len() + j].name, ..t })
            },
{
    let ghost nss = namespaces@;
    let mut tls = timelines;
    let ghost base = tls@;
    let mut namespaces = reversed(namespaces);
    let ghost rev = namespaces@;
    let mut n: usize = 0;
    proof {
        assert(nss.len() == namespaces.len());
    }
    while namespaces.len() > 0
        invariant
            n + namespaces@.len() == nss.len(),
            nss.len() <= usize::MAX,
            namespaces@ == rev.take(namespaces@.len() as int),
            forall|k: int| 0 <= k < rev.len() ==> rev[k] == nss[nss.len() - 1 - k],
            rev.len() == nss.len(),
            tls@.len() == base.len() + namespace_timelines(nss.take(n as int)).len(),
            forall|i: int| 0 <= i < base.len() ==> tls@[i] == base[i],
            forall|j: int|
                0 <= j < namespace_timelines(nss.take(n as int)).len() ==> {
                    let (prefix, t) = #[trigger] namespace_timelines(nss.take(n as int))[j];
                    &&& tls@[base.len() + j].name@ == prefix + "::"@ + t.name@
                    &&& tls@[base.len() + j] == (Timeline { name: tls@[base.len() + j].name, ..t })
                },
        decreases namespaces@.len(),
    {
        let ns = namespaces.pop().unwrap();
        proof {
            assert(ns == nss[n as int]);
        }
        let ghost before = tls@;
        let ghost ts = ns.timelines@;
        let Namespace { name, timelines: ns_tls, components: _ } = ns;
        let mut ns_tls = reversed(ns_tls);
        let ghost rts = ns_tls@;
        let mut m: usize = 0;
        proof {
            assert(ts.len() == ns_tls.len());
        }
        while ns_tls.len() > 0
            invariant
                m + ns_tls@.len() == ts.len(),
                ts.len() <= usize::MAX,
                ns_tls@ == rts.take(ns_tls@.len() as int),
                forall|k: int| 0 <= k < rts.len() ==> rts[k] == ts[ts.len() - 1 - k],
                rts.len() == ts.len(),
                tls@.len() == before.len() + m,
                forall|i: int| 0 <= i < before.len() ==> tls@[i] == before[i],
                forall|k: int|
                    0 <= k < m ==> {
                        &&& (#[trigger] tls@[before.len() + k]).name@ == name@ + "::"@ + ts[k].name@
                        &&& tls@[before.len() + k] == (Timeline { name: tls@[before.len() + k].name, ..ts[k] })
                    },
            decreases ns_tls@.len(),
        {
            let mut t = ns_tls.pop().unwrap();
            proof {
                assert(t == ts[m as int]);
            }
            let mut new_name = name.clone();
            new_name.append("::");
            new_name.append(t.name.as_str());
            t.name = new_name;
            tls.push(t);
            m = m + 1;
        }
        proof {
            let pre = nss.take(n + 1);
            assert(pre.drop_last() =~= nss.take(n as int));
            assert(pre.last() == nss[n as int]);
            let old_part = namespace_timelines(nss.take(n as int));
            let added = ts.map_values(|t: Timeline| (name@, t));
            assert(namespace_timelines(pre) == old_part + added);
            assert forall|j: int| 0 <= j < namespace_timelines(pre).len() implies {
                let (prefix, t) = #[trigger] namespace_timelines(pre)[j];
                &&& tls@[base.len() + j].name@ == prefix + "::"@ + t.name@
                &&& tls@[base.len() + j] == (Timeline { name: tls@[base.len() + j].name, ..t })
            } by {
                if j < old_part.len() {
                    assert(namespace_timelines(pre)[j] == old_part[j]);
                    assert(tls@[base.len() + j] == before[base.len() + j]);
                } else {
                    let k = j - old_part.len();
                    assert(namespace_timelines(pre)[j] == added[k]);
                    assert(base.len() + j == before.len() + k);
                }
            }
        }
        n = n + 1;
    }
    proof {
        assert(nss.take(nss.len() as int) =~= nss);
    }
    tls
}

} // verus!
