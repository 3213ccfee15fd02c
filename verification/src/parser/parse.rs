//! Assembling a program from the top-level definitions of a `.nilo` file:
//! at most one flow, namespaces flattened, and a flow required.
use vstd::prelude::*;
use vstd::string::StringExecFns;

use crate::parser::ast::{App, Component, Flow, Namespace, NamespacedFlow, Timeline};
use crate::parser::flow::{flow_view, flow_well_formed, normalized, FlowView};
use crate::parser::namespace::{
    expand_namespaced_structures, expanded_flow, expanded_start, expanded_timelines, opt_flow_view,
};

verus! {

broadcast use vstd::std_specs::vec::group_vec_axioms;

/// A top-level definition of a `.nilo` file.
pub enum Definition {
    /// `flow { ... }`
    Flow(Flow),
    /// `flow Name { ... }`
    NamespacedFlow(NamespacedFlow),
    /// `namespace Name { ... }`
    Namespace(Namespace),
    /// `timeline Name { ... }`
    Timeline(Timeline),
    /// `component Name(...) { ... }`
    Component(Component),
}

/// The flows among the definitions, in order.
pub open spec fn flows_in(defs: Seq<Definition>) -> Seq<Flow>
    decreases defs.len(),
{
    if defs.len() == 0 {
        Seq::empty()
    } else {
        let rest = flows_in(defs.drop_last());
        match defs.last() {
            Definition::Flow(f) => rest.push(f),
            _ => rest,
        }
    }
}

/// The namespaced flows among the definitions, in order.
pub open spec fn namespaced_flows_in(defs: Seq<Definition>) -> Seq<NamespacedFlow>
    decreases defs.len(),
{
    if defs.len() == 0 {
        Seq::empty()
    } else {
        let rest = namespaced_flows_in(defs.drop_last());
        match defs.last() {
            Definition::NamespacedFlow(f) => rest.push(f),
            _ => rest,
        }
    }
}

/// The namespaces among the definitions, in order.
pub open spec fn namespaces_in(defs: Seq<Definition>) -> Seq<Namespace>
    decreases defs.len(),
{
    if defs.len() == 0 {
        Seq::empty()
    } else {
        let rest = namespaces_in(defs.drop_last());
        match defs.last() {
            Definition::Namespace(n) => rest.push(n),
            _ => rest,
        }
    }
}

/// The timelines among the definitions, in order.
pub open spec fn timelines_in(defs: Seq<Definition>) -> Seq<Timeline>
    decreases defs.len(),
{
    if defs.len() == 0 {
        Seq::empty()
    } else {
        let rest = timelines_in(defs.drop_last());
        match defs.last() {
            Definition::Timeline(t) => rest.push(t),
            _ => rest,
        }
    }
}

/// The components among the definitions, in order.
pub open spec fn components_in(defs: Seq<Definition>) -> Seq<Component>
    decreases defs.len(),
{
    if defs.len() == 0 {
        Seq::empty()
    } else {
        let rest = components_in(defs.drop_last());
        match defs.last() {
            Definition::Component(c) => rest.push(c),
            _ => rest,
        }
    }
}

/// The flow written without a name, if any.
pub open spec fn base_flow_in(defs: Seq<Definition>) -> Option<Flow> {
    if flows_in(defs).len() > 0 {
        Some(flows_in(defs)[0])
    } else {
        None
    }
}

/// Whether the definitions have namespaces or namespaced flows to flatten.
pub open spec fn has_namespaces(defs: Seq<Definition>) -> bool {
    namespaces_in(defs).len() > 0 || namespaced_flows_in(defs).len() > 0
}

/// The message for a second flow.
pub open spec fn multiple_flows_message() -> Seq<char> {
    "フロー定義は1つまでしか許可されていません"@
}

/// The message for a program without a flow.
pub open spec fn missing_flow_message() -> Seq<char> {
    "フロー定義が見つかりません"@
}

proof fn lemma_flows_in_prefix(defs: Seq<Definition>, k: int)
    requires
        0 <= k <= defs.len(),
    ensures
        flows_in(defs.take(k)).len() <= flows_in(defs).len(),
        flows_in(defs.take(k)).len() > 0 ==> flows_in(defs)[0] == flows_in(defs.take(k))[0],
    decreases defs.len() - k,
{
    if k < defs.len() {
        lemma_flows_in_prefix(defs, k + 1);
        assert(defs.take(k + 1).drop_last() =~= defs.take(k));
    } else {
        assert(defs.take(k) =~= defs);
    }
}

/// The program that the top-level definitions of a file make, in the order
/// written.
///
/// A second flow is an error. Where there are namespaces or namespaced
/// flows, they are flattened with the flow (see
/// `expand_namespaced_structures`), which fails without a start; otherwise
/// the flow is normalised (see `Flow::normalize`) and the timelines are
/// kept as written. A program without a flow is an error. The components
/// are kept as written. A well-formed flow gives a well-formed one.
pub fn assemble_app(defs: Vec<Definition>) -> (r: Result<App, String>)
    ensures
        flows_in(defs@).len() >= 2 ==> (r matches Err(m) && m@ == multiple_flows_message()),
        flows_in(defs@).len() < 2 && has_namespaces(defs@) ==> {
            &&& r is Err <==> expanded_start(
                namespaced_flows_in(defs@),
                opt_flow_view(base_flow_in(defs@)),
            ) is None
            &&& r matches Err(m) ==> m@ == "start定義が見つかりません"@
            &&& r matches Ok(app) ==> {
                &&& flow_view(app.flow) == expanded_flow(
                    namespaced_flows_in(defs@),
                    opt_flow_view(base_flow_in(defs@)),
                )
                &&& expanded_timelines(timelines_in(defs@), namespaces_in(defs@), app.timelines@)
                &&& app.components@ == components_in(defs@)
                &&& (base_flow_in(defs@) matches Some(b) ==> flow_well_formed(flow_view(b)))
                    ==> flow_well_formed(flow_view(app.flow))
            }
        },
        flows_in(defs@).len() < 2 && !has_namespaces(defs@) ==> {
            &&& r is Err <==> base_flow_in(defs@) is None
            &&& r matches Err(m) ==> m@ == missing_flow_message()
            &&& r matches Ok(app) ==> {
                &&& flow_view(app.flow) == (FlowView {
                    transitions: normalized(flow_view(base_flow_in(defs@)->0).transitions),
                    ..flow_view(base_flow_in(defs@)->0)
                })
                &&& flow_well_formed(flow_view(base_flow_in(defs@)->0)) ==> flow_well_formed(
                    flow_view(app.flow),
                )
                &&& app.timelines@ == timelines_in(defs@)
                &&& app.components@ == components_in(defs@)
            }
        },
{
    let ghost all = defs@;
    let mut flow: Option<Flow> = None;
    let mut namespaced_flows: Vec<NamespacedFlow> = Vec::new();
    let mut namespaces: Vec<Namespace> = Vec::new();
    let mut timelines: Vec<Timeline> = Vec::new();
    let mut components: Vec<Component> = Vec::new();
    for d in it: defs.into_iter()
        invariant
            it.seq() == all,
            flows_in(all.take(it.index() as int)).len() <= 1,
            flow == base_flow_in(all.take(it.index() as int)),
            namespaced_flows@ == namespaced_flows_in(all.take(it.index() as int)),
            namespaces@ == namespaces_in(all.take(it.index() as int)),
            timelines@ == timelines_in(all.take(it.index() as int)),
            components@ == components_in(all.take(it.index() as int)),
    {
        let ghost i = it.index() as int;
        proof {
            assert(all.take(i + 1).drop_last() =~= all.take(i));
            assert(all.take(i + 1).last() == d);
        }
        match d {
            Definition::Flow(f) => {
                if flow.is_some() {
                    proof {
                        lemma_flows_in_prefix(all, i + 1);
                    }
                    return Err(String::from_str("フロー定義は1つまでしか許可されていません"));
                }
                flow = Some(f);
            },
            Definition::NamespacedFlow(nf) => namespaced_flows.push(nf),
            Definition::Namespace(ns) => namespaces.push(ns),
            Definition::Timeline(t) => timelines.push(t),
            Definition::Component(c) => components.push(c),
        }
    }
    proof {
        assert(all.take(all.len() as int) =~= all);
    }
    if namespaces.len() > 0 || namespaced_flows.len() > 0 {
        match expand_namespaced_structures(namespaced_flows, namespaces, timelines, flow) {
            Ok((expanded, tls)) => Ok(App { flow: expanded, timelines: tls, components }),
            Err(e) => Err(e),
        }
    } else {
        match flow {
            Some(f) => Ok(App { flow: f.normalize(), timelines, components }),
            None => Err(String::from_str("フロー定義が見つかりません")),
        }
    }
}

} // verus!
