//! The segment resolver: walking a parsed template, resolving each variable
//! through the caller's three lookup functions, applying conditional-group
//! semantics, and producing an ordered sequence of styled segments or a
//! structural error.

use vstd::prelude::*;
use crate::style::{Style, empty_style, spec_compose, compose, spec_style_of, parse_style};
use crate::template::{NodeModel, Node, Template, spec_parse, copy_range};
use crate::text::{str_to_chars, chars_to_string};

verus! {

/// How many layers of meta-variable expansion a render will follow before
/// giving up; a bound this deep is never reached by acyclic lookups.
pub const META_DEPTH: u64 = 16;

/// A contiguous span of output text with one resolved style.
#[derive(Debug, PartialEq, Eq)]
pub struct Segment {
    pub text: String,
    pub style: Style,
}

/// The mathematical shape of a segment.
pub struct SegmentModel {
    pub text: Seq<char>,
    pub style: Style,
}

impl View for Segment {
    type V = SegmentModel;

    open spec fn view(&self) -> SegmentModel {
        SegmentModel { text: self.text@, style: self.style }
    }
}

/// The models of a sequence of segments, in order.
pub open spec fn segs_model(s: Seq<Segment>) -> Seq<SegmentModel> {
    s.map_values(|x: Segment| x@)
}

/// A failure of a whole render.
#[derive(Debug, PartialEq, Eq)]
pub enum ResolutionError {
    /// A top-level variable that no lookup claimed.
    UnknownVariable(String),
    /// A lookup explicitly reported a failure for the named variable; the
    /// second field carries the cause.
    ResolverFailed(String, String),
}

/// The mathematical shape of a resolution error.
pub enum ResolutionErrorModel {
    UnknownVariable(Seq<char>),
    ResolverFailed(Seq<char>, Seq<char>),
}

impl View for ResolutionError {
    type V = ResolutionErrorModel;

    open spec fn view(&self) -> ResolutionErrorModel {
        match self {
            ResolutionError::UnknownVariable(n) => ResolutionErrorModel::UnknownVariable(n@),
            ResolutionError::ResolverFailed(n, c) => ResolutionErrorModel::ResolverFailed(n@, c@),
        }
    }
}

/// What one detector unit contributes to the prompt: its rendered segments
/// in order.
#[derive(Debug, PartialEq, Eq)]
pub struct Module {
    pub segments: Vec<Segment>,
}

/// The cause reported when a meta variable's value is not a well-formed
/// format string.
pub open spec fn meta_parse_cause() -> Seq<char> {
    "meta value failed to parse"@
}

/// The cause reported when meta expansion exceeds `META_DEPTH`.
pub open spec fn meta_depth_cause() -> Seq<char> {
    "meta expansion too deep"@
}

/// The three ordered lookup functions a caller supplies: meta variables
/// (whose values are format strings expanded in place), style variables, and
/// value variables. For each name the first lookup that claims it wins, in
/// that order.
pub trait Resolver {
    /// What the meta lookup returns for each name.
    spec fn meta_spec(&self, name: Seq<char>) -> Option<Seq<char>>;

    /// What the style lookup returns for each name.
    spec fn style_spec(&self, name: Seq<char>) -> Option<Result<Style, Seq<char>>>;

    /// What the value lookup returns for each name.
    spec fn value_spec(&self, name: Seq<char>) -> Option<Result<Seq<char>, Seq<char>>>;

    /// Looks a name up among the meta variables.
    fn lookup_meta(&self, name: &str) -> (r: Option<String>)
        ensures
            match r {
                Some(v) => self.meta_spec(name@) == Some(v@),
                None => self.meta_spec(name@) is None,
            },
    ;

    /// Looks a name up among the style variables.
    fn lookup_style(&self, name: &str) -> (r: Option<Result<Style, String>>)
        ensures
            match r {
                Some(Ok(st)) => self.style_spec(name@) == Some(
                    Result::<Style, Seq<char>>::Ok(st),
                ),
                Some(Err(e)) => self.style_spec(name@) == Some(
                    Result::<Style, Seq<char>>::Err(e@),
                ),
                None => self.style_spec(name@) is None,
            },
    ;

    /// Looks a name up among the value variables.
    fn lookup_value(&self, name: &str) -> (r: Option<Result<String, String>>)
        ensures
            match r {
                Some(Ok(v)) => self.value_spec(name@) == Some(
                    Result::<Seq<char>, Seq<char>>::Ok(v@),
                ),
                Some(Err(e)) => self.value_spec(name@) == Some(
                    Result::<Seq<char>, Seq<char>>::Err(e@),
                ),
                None => self.value_spec(name@) is None,
            },
    ;
}

/// Outcome of rendering a node or a run of nodes: the contributed segments,
/// or the name of an absent variable, or a hard failure.
pub enum Rendered {
    Done(Seq<SegmentModel>),
    Missing(Seq<char>),
    Failed(ResolutionErrorModel),
}

/// Renders one node under the ambient style `sty`.
///
/// A literal contributes its text. A variable is resolved meta-first: a meta
/// value is parsed and expanded in place (`fuel` bounds the expansion
/// depth), a style variable contributes no text, a value variable
/// contributes its text, a lookup failure fails the render, and a name no
/// lookup claims is reported absent. A group composes its style annotation
/// (a `$name` style variable or a literal descriptor) onto the ambient style
/// and renders its children; a group any of whose variables is absent — or
/// whose own style variable is absent — contributes nothing at all.
pub open spec fn render_node_s<R: Resolver>(n: NodeModel, r: R, sty: Style, fuel: nat) -> Rendered
    decreases fuel, n, 0int,
{
    match n {
        NodeModel::Literal(t) => Rendered::Done(seq![SegmentModel { text: t, style: sty }]),
        NodeModel::Variable(name) => match r.meta_spec(name) {
            Some(m) => if fuel == 0 {
                Rendered::Failed(ResolutionErrorModel::ResolverFailed(name, meta_depth_cause()))
            } else {
                match spec_parse(m) {
                    Err(_) => Rendered::Failed(
                        ResolutionErrorModel::ResolverFailed(name, meta_parse_cause()),
                    ),
                    Ok(ns) => render_nodes_s(ns, r, sty, (fuel - 1) as nat, 0),
                }
            },
            None => match r.style_spec(name) {
                Some(Ok(_)) => Rendered::Done(Seq::empty()),
                Some(Err(e)) => Rendered::Failed(ResolutionErrorModel::ResolverFailed(name, e)),
                None => match r.value_spec(name) {
                    Some(Ok(v)) => Rendered::Done(seq![SegmentModel { text: v, style: sty }]),
                    Some(Err(e)) => Rendered::Failed(
                        ResolutionErrorModel::ResolverFailed(name, e),
                    ),
                    None => Rendered::Missing(name),
                },
            },
        },
        NodeModel::Group { style, children } => match style {
            None => render_group_s(children, r, sty, fuel),
            Some(sd) => if sd.len() >= 1 && sd[0] == '$' {
                let sname = sd.subrange(1, sd.len() as int);
                match r.style_spec(sname) {
                    Some(Ok(st)) => render_group_s(children, r, spec_compose(st, sty), fuel),
                    Some(Err(e)) => Rendered::Failed(
                        ResolutionErrorModel::ResolverFailed(sname, e),
                    ),
                    None => Rendered::Done(Seq::empty()),
                }
            } else {
                render_group_s(children, r, spec_compose(spec_style_of(sd), sty), fuel)
            },
        },
    }
}

/// Renders a group's children under its effective style: an absent variable
/// anywhere inside silently omits the whole group, everything else passes
/// through.
pub open spec fn render_group_s<R: Resolver>(
    children: Seq<NodeModel>,
    r: R,
    eff: Style,
    fuel: nat,
) -> Rendered
    decreases fuel, children, children.len() + 1,
{
    match render_nodes_s(children, r, eff, fuel, 0) {
        Rendered::Missing(_) => Rendered::Done(Seq::empty()),
        o => o,
    }
}

/// Renders the run of sibling nodes from position `i` on, left to right,
/// stopping at the first absent variable or failure.
pub open spec fn render_nodes_s<R: Resolver>(
    ns: Seq<NodeModel>,
    r: R,
    sty: Style,
    fuel: nat,
    i: int,
) -> Rendered
    decreases fuel, ns, ns.len() - i,
{
    if i < 0 || i >= ns.len() {
        Rendered::Done(Seq::empty())
    } else {
        match render_node_s(ns[i], r, sty, fuel) {
            Rendered::Failed(e) => Rendered::Failed(e),
            Rendered::Missing(name) => Rendered::Missing(name),
            Rendered::Done(p) => match render_nodes_s(ns, r, sty, fuel, i + 1) {
                Rendered::Failed(e) => Rendered::Failed(e),
                Rendered::Missing(name) => Rendered::Missing(name),
                Rendered::Done(q) => Rendered::Done(p + q),
            },
        }
    }
}

/// The render of a whole template: its segments in order, or the error. A
/// top-level absent variable is `UnknownVariable`; a lookup failure anywhere
/// is passed through.
pub open spec fn spec_render<R: Resolver>(ns: Seq<NodeModel>, r: R) -> Result<
    Seq<SegmentModel>,
    ResolutionErrorModel,
> {
    match render_nodes_s(ns, r, empty_style(), META_DEPTH as nat, 0) {
        Rendered::Done(segs) => Ok(segs),
        Rendered::Missing(name) => Err(ResolutionErrorModel::UnknownVariable(name)),
        Rendered::Failed(e) => Err(e),
    }
}

/// The concatenation of the texts of a run of segments.
pub open spec fn pieces_text(p: Seq<SegmentModel>) -> Seq<char>
    decreases p.len(),
{
    if p.len() == 0 {
        Seq::empty()
    } else {
        p[0].text + pieces_text(p.subrange(1, p.len() as int))
    }
}

/// Segment text concatenates piecewise.
proof fn lemma_pieces_text_concat(p: Seq<SegmentModel>, q: Seq<SegmentModel>)
    ensures
        pieces_text(p + q) == pieces_text(p) + pieces_text(q),
    decreases p.len(),
{
    if p.len() == 0 {
        assert(p + q =~= q);
        assert(Seq::<char>::empty() + pieces_text(q) =~= pieces_text(q));
    } else {
        assert((p + q).subrange(1, (p + q).len() as int) =~= p.subrange(1, p.len() as int) + q);
        lemma_pieces_text_concat(p.subrange(1, p.len() as int), q);
        assert((p + q)[0] == p[0]);
        assert(p[0].text + (pieces_text(p.subrange(1, p.len() as int)) + pieces_text(q)) =~= (p[0].text
            + pieces_text(p.subrange(1, p.len() as int))) + pieces_text(q));
    }
}

/// The text one node contributes when its render succeeds: the literal or
/// substituted variable text, with expanded metas and groups, and nothing
/// for omitted groups and style variables.
pub open spec fn subst_node_s<R: Resolver>(n: NodeModel, r: R, sty: Style, fuel: nat) -> Seq<char>
    decreases fuel, n, 0int,
{
    match n {
        NodeModel::Literal(t) => t,
        NodeModel::Variable(name) => match r.meta_spec(name) {
            Some(m) => if fuel == 0 {
                Seq::empty()
            } else {
                match spec_parse(m) {
                    Err(_) => Seq::empty(),
                    Ok(ns) => subst_nodes_s(ns, r, sty, (fuel - 1) as nat, 0),
                }
            },
            None => match r.style_spec(name) {
                Some(_) => Seq::empty(),
                None => match r.value_spec(name) {
                    Some(Ok(v)) => v,
                    Some(Err(_)) => Seq::empty(),
                    None => Seq::empty(),
                },
            },
        },
        NodeModel::Group { style, children } => match style {
            None => subst_group_s(children, r, sty, fuel),
            Some(sd) => if sd.len() >= 1 && sd[0] == '$' {
                let sname = sd.subrange(1, sd.len() as int);
                match r.style_spec(sname) {
                    Some(Ok(st)) => subst_group_s(children, r, spec_compose(st, sty), fuel),
                    Some(Err(_)) => Seq::empty(),
                    None => Seq::empty(),
                }
            } else {
                subst_group_s(children, r, spec_compose(spec_style_of(sd), sty), fuel)
            },
        },
    }
}

/// The text a group contributes: nothing when a variable inside is absent,
/// its children's substituted text otherwise.
pub open spec fn subst_group_s<R: Resolver>(
    children: Seq<NodeModel>,
    r: R,
    eff: Style,
    fuel: nat,
) -> Seq<char>
    decreases fuel, children, children.len() + 1,
{
    match render_nodes_s(children, r, eff, fuel, 0) {
        Rendered::Missing(_) => Seq::empty(),
        _ => subst_nodes_s(children, r, eff, fuel, 0),
    }
}

/// The text a run of sibling nodes contributes, in order.
pub open spec fn subst_nodes_s<R: Resolver>(
    ns: Seq<NodeModel>,
    r: R,
    sty: Style,
    fuel: nat,
    i: int,
) -> Seq<char>
    decreases fuel, ns, ns.len() - i,
{
    if i < 0 || i >= ns.len() {
        Seq::empty()
    } else {
        subst_node_s(ns[i], r, sty, fuel) + subst_nodes_s(ns, r, sty, fuel, i + 1)
    }
}

/// When a node's render succeeds, its segments' concatenated text is its
/// substituted text.
proof fn lemma_node_text<R: Resolver>(n: NodeModel, r: R, sty: Style, fuel: nat)
    requires
        render_node_s(n, r, sty, fuel) is Done,
    ensures
        pieces_text(render_node_s(n, r, sty, fuel)->Done_0) == subst_node_s(n, r, sty, fuel),
    decreases fuel, n, 0int,
{
    match n {
        NodeModel::Literal(t) => {
            let p = seq![SegmentModel { text: t, style: sty }];
            assert(render_node_s(n, r, sty, fuel)->Done_0 == p);
            assert(p.subrange(1, 1) =~= Seq::<SegmentModel>::empty());
            assert(p[0].text == t);
            assert(pieces_text(p) == t + pieces_text(Seq::<SegmentModel>::empty()));
            assert(t + Seq::<char>::empty() =~= t);
            assert(subst_node_s(n, r, sty, fuel) == t);
            assert(pieces_text(render_node_s(n, r, sty, fuel)->Done_0) == subst_node_s(
                n,
                r,
                sty,
                fuel,
            ));
        },
        NodeModel::Variable(name) => {
            match r.meta_spec(name) {
                Some(m) => {
                    if fuel == 0 {
                        assert(false);
                    } else {
                        match spec_parse(m) {
                            Err(_) => {
                                assert(false);
                            },
                            Ok(ns) => {
                                lemma_nodes_text(ns, r, sty, (fuel - 1) as nat, 0);
                            },
                        }
                    }
                },
                None => {
                    match r.style_spec(name) {
                        Some(Ok(_)) => {},
                        Some(Err(_)) => {
                            assert(false);
                        },
                        None => {
                            match r.value_spec(name) {
                                Some(Ok(v)) => {
                                    let p = seq![SegmentModel { text: v, style: sty }];
                                    assert(render_node_s(n, r, sty, fuel)->Done_0 == p);
                                    assert(p.subrange(1, 1) =~= Seq::<SegmentModel>::empty());
                                    assert(pieces_text(p) == v + pieces_text(
                                        Seq::<SegmentModel>::empty(),
                                    ));
                                    assert(v + Seq::<char>::empty() =~= v);
                                    assert(subst_node_s(n, r, sty, fuel) == v);
                                },
                                Some(Err(_)) => {
                                    assert(false);
                                },
                                None => {
                                    assert(false);
                                },
                            }
                        },
                    }
                },
            }
        },
        NodeModel::Group { style, children } => {
            match style {
                None => {
                    lemma_group_text(children, r, sty, fuel);
                },
                Some(sd) => {
                    if sd.len() >= 1 && sd[0] == '$' {
                        let sname = sd.subrange(1, sd.len() as int);
                        match r.style_spec(sname) {
                            Some(Ok(st)) => {
                                lemma_group_text(children, r, spec_compose(st, sty), fuel);
                            },
                            Some(Err(_)) => {
                                assert(false);
                            },
                            None => {},
                        }
                    } else {
                        lemma_group_text(children, r, spec_compose(spec_style_of(sd), sty), fuel);
                    }
                },
            }
        },
    }
}

/// When a group's render succeeds, its segments' concatenated text is its
/// substituted text.
proof fn lemma_group_text<R: Resolver>(children: Seq<NodeModel>, r: R, eff: Style, fuel: nat)
    requires
        render_group_s(children, r, eff, fuel) is Done,
    ensures
        pieces_text(render_group_s(children, r, eff, fuel)->Done_0) == subst_group_s(children, r,
            eff, fuel),
    decreases fuel, children, children.len() + 1,
{
    match render_nodes_s(children, r, eff, fuel, 0) {
        Rendered::Missing(_) => {},
        Rendered::Done(_) => {
            lemma_nodes_text(children, r, eff, fuel, 0);
        },
        Rendered::Failed(_) => {
            assert(false);
        },
    }
}

/// When a run of siblings renders successfully, its segments' concatenated
/// text is the concatenation of the nodes' substituted texts.
proof fn lemma_nodes_text<R: Resolver>(ns: Seq<NodeModel>, r: R, sty: Style, fuel: nat, i: int)
    requires
        render_nodes_s(ns, r, sty, fuel, i) is Done,
    ensures
        pieces_text(render_nodes_s(ns, r, sty, fuel, i)->Done_0) == subst_nodes_s(ns, r, sty, fuel,
            i),
    decreases fuel, ns, ns.len() - i,
{
    if 0 <= i < ns.len() {
        match render_node_s(ns[i], r, sty, fuel) {
            Rendered::Done(p) => {
                lemma_node_text(ns[i], r, sty, fuel);
                match render_nodes_s(ns, r, sty, fuel, i + 1) {
                    Rendered::Done(q) => {
                        lemma_nodes_text(ns, r, sty, fuel, i + 1);
                        lemma_pieces_text_concat(p, q);
                    },
                    _ => {
                        assert(false);
                    },
                }
            },
            _ => {
                assert(false);
            },
        }
    }
}

/// When every top-level variable of a template resolves and no lookup
/// fails, rendering succeeds, and the concatenation of the segments' texts
/// is the template's text with variables substituted and groups expanded.
pub proof fn lemma_render_success_text<R: Resolver>(ns: Seq<NodeModel>, r: R)
    requires
        render_nodes_s(ns, r, empty_style(), META_DEPTH as nat, 0) is Done,
    ensures
        spec_render(ns, r) is Ok,
        pieces_text(spec_render(ns, r)->Ok_0) == subst_nodes_s(ns, r, empty_style(),
            META_DEPTH as nat, 0),
{
    lemma_nodes_text(ns, r, empty_style(), META_DEPTH as nat, 0);
}

/// An unresolved top-level variable fails the whole render with
/// `UnknownVariable`, and no partial output survives.
pub proof fn lemma_unresolved_top_level<R: Resolver>(ns: Seq<NodeModel>, r: R, name: Seq<char>)
    requires
        render_nodes_s(ns, r, empty_style(), META_DEPTH as nat, 0) == Rendered::Missing(name),
    ensures
        spec_render(ns, r) == Err::<Seq<SegmentModel>, ResolutionErrorModel>(
            ResolutionErrorModel::UnknownVariable(name),
        ),
{
}

/// A group that contains a variable no lookup claims contributes no
/// segments at all, and raises no error.
pub proof fn lemma_absent_group_omitted<R: Resolver>(
    children: Seq<NodeModel>,
    r: R,
    sty: Style,
    fuel: nat,
    name: Seq<char>,
)
    requires
        render_nodes_s(children, r, sty, fuel, 0) == Rendered::Missing(name),
    ensures
        render_node_s(NodeModel::Group { style: None, children }, r, sty, fuel) == Rendered::Done(
            Seq::<SegmentModel>::empty(),
        ),
{
}

/// A node that contributes no segments leaves the rest of the template's
/// render exactly as it would have been without it.
pub proof fn lemma_omitted_node_skipped<R: Resolver>(
    ns: Seq<NodeModel>,
    i: int,
    r: R,
    sty: Style,
    fuel: nat,
)
    requires
        0 <= i < ns.len(),
        render_node_s(ns[i], r, sty, fuel) == Rendered::Done(Seq::<SegmentModel>::empty()),
    ensures
        render_nodes_s(ns, r, sty, fuel, i) == render_nodes_s(ns, r, sty, fuel, i + 1),
{
    match render_nodes_s(ns, r, sty, fuel, i + 1) {
        Rendered::Done(q) => {
            assert(Seq::<SegmentModel>::empty() + q =~= q);
        },
        _ => {},
    }
}

/// Outcome of the executable render of a node or a run of nodes.
enum Progress {
    Done(Vec<Segment>),
    Missing(String),
    Failed(ResolutionError),
}

/// The model of an executable outcome.
spec fn progress_model(p: Progress) -> Rendered {
    match p {
        Progress::Done(segs) => Rendered::Done(segs_model(segs@)),
        Progress::Missing(n) => Rendered::Missing(n@),
        Progress::Failed(e) => Rendered::Failed(e@),
    }
}

/// The models of a run of nodes, indexed: `nodes_model` restated for loops.
proof fn lemma_nodes_model_index(ns: Seq<Node>, i: int)
    requires
        0 <= i < ns.len(),
    ensures
        crate::template::nodes_model(ns).len() == ns.len(),
        crate::template::nodes_model(ns)[i] == crate::template::node_model(ns[i]),
    decreases i,
{
    lemma_nodes_model_len(ns);
    if i > 0 {
        lemma_nodes_model_index(ns.subrange(1, ns.len() as int), i - 1);
    }
}

/// A run of nodes has as many models as nodes.
proof fn lemma_nodes_model_len(ns: Seq<Node>)
    ensures
        crate::template::nodes_model(ns).len() == ns.len(),
    decreases ns.len(),
{
    if ns.len() > 0 {
        lemma_nodes_model_len(ns.subrange(1, ns.len() as int));
    }
}

/// Prefixing already-rendered segments onto a pending outcome.
spec fn prepend(p: Seq<SegmentModel>, o: Rendered) -> Rendered {
    match o {
        Rendered::Done(q) => Rendered::Done(p + q),
        o2 => o2,
    }
}

/// An outcome holding no segments at all.
fn empty_progress() -> (p: Progress)
    ensures
        progress_model(p) == Rendered::Done(Seq::<SegmentModel>::empty()),
{
    let v: Vec<Segment> = Vec::new();
    proof {
        assert(segs_model(v@) =~= Seq::<SegmentModel>::empty());
    }
    Progress::Done(v)
}

/// Renders one node, matching `render_node_s`.
fn render_node_exec<R: Resolver>(node: &Node, r: &R, sty: Style, fuel: u64) -> (res: Progress)
    ensures
        progress_model(res) == render_node_s(crate::template::node_model(*node), *r, sty,
            fuel as nat),
    decreases fuel, node, 0int,
{
    match node {
        Node::Literal(t) => {
            let mut segs: Vec<Segment> = Vec::new();
            segs.push(Segment { text: t.clone(), style: sty });
            proof {
                assert(segs_model(segs@) =~= seq![SegmentModel { text: t@, style: sty }]);
            }
            Progress::Done(segs)
        },
        Node::Variable(name) => {
            match r.lookup_meta(name.as_str()) {
                Some(m) => {
                    if fuel == 0 {
                        Progress::Failed(
                            ResolutionError::ResolverFailed(
                                name.clone(),
                                String::from_str("meta expansion too deep"),
                            ),
                        )
                    } else {
                        match Template::parse(m.as_str()) {
                            Err(_) => Progress::Failed(
                                ResolutionError::ResolverFailed(
                                    name.clone(),
                                    String::from_str("meta value failed to parse"),
                                ),
                            ),
                            Ok(t) => render_nodes_exec(&t.nodes, r, sty, fuel - 1),
                        }
                    }
                },
                None => {
                    match r.lookup_style(name.as_str()) {
                        Some(st_or) => {
                            match st_or {
                                Ok(_) => empty_progress(),
                                Err(e) => Progress::Failed(
                                    ResolutionError::ResolverFailed(name.clone(), e),
                                ),
                            }
                        },
                        None => {
                            match r.lookup_value(name.as_str()) {
                                Some(v_or) => {
                                    match v_or {
                                        Ok(v) => {
                                            let mut segs: Vec<Segment> = Vec::new();
                                            let ghost vm = v@;
                                            segs.push(Segment { text: v, style: sty });
                                            proof {
                                                assert(segs_model(segs@) =~= seq![
                                                    SegmentModel { text: vm, style: sty },
                                                ]);
                                            }
                                            Progress::Done(segs)
                                        },
                                        Err(e) => Progress::Failed(
                                            ResolutionError::ResolverFailed(name.clone(), e),
                                        ),
                                    }
                                },
                                None => Progress::Missing(name.clone()),
                            }
                        },
                    }
                },
            }
        },
        Node::Group { style, children } => {
            let eff: Style;
            match style {
                None => {
                    eff = sty;
                },
                Some(sd) => {
                    let sdc = str_to_chars(sd.as_str());
                    if sdc.len() >= 1 && sdc[0] == '$' {
                        let rest = copy_range(&sdc, 1, sdc.len());
                        let sname = chars_to_string(&rest);
                        match r.lookup_style(sname.as_str()) {
                            Some(st_or) => {
                                match st_or {
                                    Ok(st) => {
                                        eff = compose(&st, &sty);
                                    },
                                    Err(e) => {
                                        return Progress::Failed(
                                            ResolutionError::ResolverFailed(sname, e),
                                        );
                                    },
                                }
                            },
                            None => {
                                return empty_progress();
                            },
                        }
                    } else {
                        eff = compose(&parse_style(sd.as_str()), &sty);
                    }
                },
            }
            match render_nodes_exec(children, r, eff, fuel) {
                Progress::Missing(_) => empty_progress(),
                o => o,
            }
        },
    }
}

/// Renders a run of sibling nodes, matching `render_nodes_s` from position
/// zero.
fn render_nodes_exec<R: Resolver>(ns: &Vec<Node>, r: &R, sty: Style, fuel: u64) -> (res: Progress)
    ensures
        progress_model(res) == render_nodes_s(crate::template::nodes_model(ns@), *r, sty,
            fuel as nat, 0),
    decreases fuel, ns@, 1int,
{
    let ghost m = crate::template::nodes_model(ns@);
    proof {
        lemma_nodes_model_len(ns@);
    }
    let n = ns.len();
    let mut segs: Vec<Segment> = Vec::new();
    proof {
        assert(segs_model(segs@) =~= Seq::<SegmentModel>::empty());
        match render_nodes_s(m, *r, sty, fuel as nat, 0) {
            Rendered::Done(q) => {
                assert(Seq::<SegmentModel>::empty() + q =~= q);
            },
            _ => {},
        }
    }
    let mut k: usize = 0;
    while k < n
        invariant
            n == ns@.len(),
            m == crate::template::nodes_model(ns@),
            m.len() == n,
            k <= n,
            render_nodes_s(m, *r, sty, fuel as nat, 0) == prepend(
                segs_model(segs@),
                render_nodes_s(m, *r, sty, fuel as nat, k as int),
            ),
        decreases n - k,
    {
        proof {
            lemma_nodes_model_index(ns@, k as int);
        }
        match render_node_exec(&ns[k], r, sty, fuel) {
            Progress::Failed(e) => {
                return Progress::Failed(e);
            },
            Progress::Missing(nm) => {
                return Progress::Missing(nm);
            },
            Progress::Done(mut p) => {
                let ghost pre = segs_model(segs@);
                let ghost pm = segs_model(p@);
                segs.append(&mut p);
                proof {
                    assert(segs_model(segs@) =~= pre + pm);
                    let rest = render_nodes_s(m, *r, sty, fuel as nat, k as int + 1);
                    match rest {
                        Rendered::Done(q) => {
                            assert(pre + (pm + q) =~= (pre + pm) + q);
                        },
                        _ => {},
                    }
                }
                k = k + 1;
            },
        }
    }
    proof {
        assert(segs_model(segs@) + Seq::<SegmentModel>::empty() =~= segs_model(segs@));
    }
    Progress::Done(segs)
}

/// Renders a template through the given lookups into an ordered segment
/// sequence, or reports why the render as a whole failed.
pub fn render<R: Resolver>(template: &Template, resolvers: &R) -> (r: Result<
    Vec<Segment>,
    ResolutionError,
>)
    ensures
        match r {
            Ok(segs) => spec_render(template@, *resolvers) == Ok::<
                Seq<SegmentModel>,
                ResolutionErrorModel,
            >(segs_model(segs@)),
            Err(e) => spec_render(template@, *resolvers) == Err::<
                Seq<SegmentModel>,
                ResolutionErrorModel,
            >(e@),
        },
{
    match render_nodes_exec(&template.nodes, resolvers, Style::plain(), META_DEPTH) {
        Progress::Done(segs) => Ok(segs),
        Progress::Missing(name) => Err(ResolutionError::UnknownVariable(name)),
        Progress::Failed(e) => Err(e),
    }
}

} // verus!
