//! The format-string mini-language: literal text with escapes, `$name` and
//! `${name}` variable references, `(...)` conditional groups, and
//! `[...](style)` styled groups.

use vstd::prelude::*;
use crate::text::chars_to_string;
use crate::text::str_to_chars;

verus! {

/// A malformed format string.
#[derive(Clone, Copy, Debug, PartialEq, Eq, Structural)]
pub enum ParseError {
    /// An unmatched `(`, `)`, `[` or `]`.
    UnbalancedDelimiter,
    /// A lone `\` at the end of the string.
    DanglingEscape,
}

/// One node of a parsed template.
#[derive(Debug, PartialEq, Eq)]
pub enum Node {
    /// Verbatim text.
    Literal(String),
    /// A `$name` or `${name}` variable reference.
    Variable(String),
    /// A parenthesized or bracketed subtree, with the style annotation of a
    /// `[...](style)` form if one was given.
    Group { style: Option<String>, children: Vec<Node> },
}

/// The mathematical shape of a node: the same tree over character sequences.
pub enum NodeModel {
    Literal(Seq<char>),
    Variable(Seq<char>),
    Group { style: Option<Seq<char>>, children: Seq<NodeModel> },
}

/// The model of one node.
pub open spec fn node_model(n: Node) -> NodeModel
    decreases n,
{
    match n {
        Node::Literal(t) => NodeModel::Literal(t@),
        Node::Variable(v) => NodeModel::Variable(v@),
        Node::Group { style, children } => NodeModel::Group {
            style: match style {
                Some(s) => Some(s@),
                None => None,
            },
            children: nodes_model(children@),
        },
    }
}

/// The models of a sequence of nodes, in order.
pub open spec fn nodes_model(ns: Seq<Node>) -> Seq<NodeModel>
    decreases ns,
{
    if ns.len() == 0 {
        Seq::empty()
    } else {
        seq![node_model(ns[0])] + nodes_model(ns.subrange(1, ns.len() as int))
    }
}

/// The characters that delimit literal text: each can be escaped with `\`.
pub open spec fn is_special(c: char) -> bool {
    c == '\\' || c == '$' || c == '(' || c == ')' || c == '[' || c == ']'
}

/// Whether `c` may appear in an unbraced variable name.
pub open spec fn is_ident_char(c: char) -> bool {
    ('a' as u32 <= c as u32 && c as u32 <= 'z' as u32) || ('A' as u32 <= c as u32 && c as u32
        <= 'Z' as u32) || ('0' as u32 <= c as u32 && c as u32 <= '9' as u32) || c == '_'
}

/// The end of the run of identifier characters starting at `i`.
pub open spec fn ident_end(s: Seq<char>, i: int) -> int
    decreases s.len() - i,
{
    if i < 0 || i >= s.len() || !is_ident_char(s[i]) {
        i
    } else {
        ident_end(s, i + 1)
    }
}

/// The end of the run of plain literal characters starting at `i`.
pub open spec fn text_end(s: Seq<char>, i: int) -> int
    decreases s.len() - i,
{
    if i < 0 || i >= s.len() || is_special(s[i]) {
        i
    } else {
        text_end(s, i + 1)
    }
}

/// The position of the first occurrence of `c` at or after `i`, or the
/// length of `s` if there is none.
pub open spec fn find_char(s: Seq<char>, i: int, c: char) -> int
    decreases s.len() - i,
{
    if i < 0 || i >= s.len() {
        s.len() as int
    } else if s[i] == c {
        i
    } else {
        find_char(s, i + 1, c)
    }
}

/// Outcome of parsing a single item at some position.
pub enum ItemStep {
    Done { node: NodeModel, end: int },
    Fail(ParseError),
}

/// Outcome of parsing a run of sibling nodes from some position.
pub enum ParseStep {
    Done { nodes: Seq<NodeModel>, end: int },
    Fail(ParseError),
}

/// Parses sibling nodes from position `i` until the end of the string or an
/// unconsumed `)` or `]`.
pub open spec fn parse_from(s: Seq<char>, i: int) -> ParseStep
    decreases s.len() - i, 1int,
{
    if i < 0 || i >= s.len() {
        ParseStep::Done { nodes: Seq::empty(), end: i }
    } else if s[i] == ')' || s[i] == ']' {
        ParseStep::Done { nodes: Seq::empty(), end: i }
    } else {
        match parse_item(s, i) {
            ItemStep::Fail(e) => ParseStep::Fail(e),
            ItemStep::Done { node, end } => {
                let nx = if end < i + 1 {
                    i + 1
                } else if end > s.len() {
                    s.len() as int
                } else {
                    end
                };
                match parse_from(s, nx) {
                    ParseStep::Fail(e) => ParseStep::Fail(e),
                    ParseStep::Done { nodes, end: e2 } => ParseStep::Done {
                        nodes: seq![node] + nodes,
                        end: e2,
                    },
                }
            },
        }
    }
}

/// Parses the single item starting at position `i`: an escape, a variable
/// reference, a group, a bracketed group, or a run of literal text.
pub open spec fn parse_item(s: Seq<char>, i: int) -> ItemStep
    decreases s.len() - i, 0int,
{
    if i < 0 || i >= s.len() {
        ItemStep::Fail(ParseError::UnbalancedDelimiter)
    } else if s[i] == '\\' {
        if i + 1 >= s.len() {
            ItemStep::Fail(ParseError::DanglingEscape)
        } else if is_special(s[i + 1]) {
            ItemStep::Done { node: NodeModel::Literal(seq![s[i + 1]]), end: i + 2 }
        } else {
            ItemStep::Done { node: NodeModel::Literal(seq!['\\', s[i + 1]]), end: i + 2 }
        }
    } else if s[i] == '$' {
        if i + 1 < s.len() && s[i + 1] == '{' {
            let p = find_char(s, i + 2, '}');
            if p >= s.len() {
                ItemStep::Fail(ParseError::UnbalancedDelimiter)
            } else {
                ItemStep::Done { node: NodeModel::Variable(s.subrange(i + 2, p)), end: p + 1 }
            }
        } else {
            let j = ident_end(s, i + 1);
            if j == i + 1 {
                ItemStep::Done { node: NodeModel::Literal(seq!['$']), end: i + 1 }
            } else {
                ItemStep::Done { node: NodeModel::Variable(s.subrange(i + 1, j)), end: j }
            }
        }
    } else if s[i] == '(' {
        match parse_from(s, i + 1) {
            ParseStep::Fail(e) => ItemStep::Fail(e),
            ParseStep::Done { nodes, end } => {
                if end >= s.len() || s[end] != ')' {
                    ItemStep::Fail(ParseError::UnbalancedDelimiter)
                } else {
                    ItemStep::Done {
                        node: NodeModel::Group { style: None, children: nodes },
                        end: end + 1,
                    }
                }
            },
        }
    } else if s[i] == '[' {
        match parse_from(s, i + 1) {
            ParseStep::Fail(e) => ItemStep::Fail(e),
            ParseStep::Done { nodes, end } => {
                if end >= s.len() || s[end] != ']' {
                    ItemStep::Fail(ParseError::UnbalancedDelimiter)
                } else if end + 1 < s.len() && s[end + 1] == '(' {
                    let k = find_char(s, end + 2, ')');
                    if k >= s.len() {
                        ItemStep::Fail(ParseError::UnbalancedDelimiter)
                    } else {
                        ItemStep::Done {
                            node: NodeModel::Group {
                                style: Some(s.subrange(end + 2, k)),
                                children: nodes,
                            },
                            end: k + 1,
                        }
                    }
                } else {
                    ItemStep::Done {
                        node: NodeModel::Group { style: None, children: nodes },
                        end: end + 1,
                    }
                }
            },
        }
    } else {
        let j = text_end(s, i);
        ItemStep::Done { node: NodeModel::Literal(s.subrange(i, j)), end: j }
    }
}

/// The parse of a whole format string: its top-level nodes, or the error.
/// A stray `)` or `]` leaves the top-level parse short of the end and is an
/// unbalanced delimiter.
pub open spec fn spec_parse(s: Seq<char>) -> Result<Seq<NodeModel>, ParseError> {
    match parse_from(s, 0) {
        ParseStep::Fail(e) => Err(e),
        ParseStep::Done { nodes, end } => if end == s.len() {
            Ok(nodes)
        } else {
            Err(ParseError::UnbalancedDelimiter)
        },
    }
}

/// Parsing is deterministic: equal format strings parse to equal trees.
pub proof fn lemma_parse_deterministic(a: Seq<char>, b: Seq<char>)
    requires
        a == b,
    ensures
        spec_parse(a) == spec_parse(b),
{
}

/// Executable test matching `is_special`.
fn char_is_special(c: char) -> (r: bool)
    ensures
        r == is_special(c),
{
    c == '\\' || c == '$' || c == '(' || c == ')' || c == '[' || c == ']'
}

/// Executable test matching `is_ident_char`.
fn char_is_ident(c: char) -> (r: bool)
    ensures
        r == is_ident_char(c),
{
    let u = c as u32;
    ('a' as u32 <= u && u <= 'z' as u32) || ('A' as u32 <= u && u <= 'Z' as u32) || ('0' as u32 <= u
        && u <= '9' as u32) || c == '_'
}

/// The characters of `s` from `a` up to `b`, as a fresh vector.
pub(crate) fn copy_range(s: &Vec<char>, a: usize, b: usize) -> (v: Vec<char>)
    requires
        a <= b <= s@.len(),
    ensures
        v@ == s@.subrange(a as int, b as int),
{
    let mut v: Vec<char> = Vec::new();
    let mut k: usize = a;
    while k < b
        invariant
            a <= k <= b <= s@.len(),
            v@ == s@.subrange(a as int, k as int),
        decreases b - k,
    {
        v.push(s[k]);
        k = k + 1;
        proof {
            assert(v@ =~= s@.subrange(a as int, k as int));
        }
    }
    v
}

/// The first occurrence of `c` at or after `i`, matching `find_char`.
fn find_char_exec(s: &Vec<char>, i: usize, c: char) -> (r: usize)
    requires
        i <= s@.len(),
    ensures
        r as int == find_char(s@, i as int, c),
        i <= r <= s@.len(),
{
    let n = s.len();
    let mut k: usize = i;
    while k < n && s[k] != c
        invariant
            i <= k <= n,
            n == s@.len(),
            find_char(s@, i as int, c) == find_char(s@, k as int, c),
        decreases n - k,
    {
        k = k + 1;
    }
    k
}

/// The end of the identifier run at `i`, matching `ident_end`.
fn ident_end_exec(s: &Vec<char>, i: usize) -> (r: usize)
    requires
        i <= s@.len(),
    ensures
        r as int == ident_end(s@, i as int),
        i <= r <= s@.len(),
{
    let n = s.len();
    let mut k: usize = i;
    while k < n && char_is_ident(s[k])
        invariant
            i <= k <= n,
            n == s@.len(),
            ident_end(s@, i as int) == ident_end(s@, k as int),
        decreases n - k,
    {
        k = k + 1;
    }
    k
}

/// The end of the literal run at `i`, matching `text_end`.
fn text_end_exec(s: &Vec<char>, i: usize) -> (r: usize)
    requires
        i <= s@.len(),
    ensures
        r as int == text_end(s@, i as int),
        i <= r <= s@.len(),
{
    let n = s.len();
    let mut k: usize = i;
    while k < n && !char_is_special(s[k])
        invariant
            i <= k <= n,
            n == s@.len(),
            text_end(s@, i as int) == text_end(s@, k as int),
        decreases n - k,
    {
        k = k + 1;
    }
    k
}

/// Outcome of the executable single-item parse.
enum ItemRes {
    Done { node: Node, end: usize },
    Fail(ParseError),
}

/// Outcome of the executable sibling-run parse.
enum NodesRes {
    Done { nodes: Vec<Node>, end: usize },
    Fail(ParseError),
}

/// Parses sibling nodes from `i`, matching `parse_from`.
fn parse_from_exec(s: &Vec<char>, i: usize) -> (r: NodesRes)
    requires
        i <= s@.len(),
    ensures
        match r {
            NodesRes::Done { nodes, end } => parse_from(s@, i as int) == (ParseStep::Done {
                nodes: nodes_model(nodes@),
                end: end as int,
            }) && end <= s@.len(),
            NodesRes::Fail(e) => parse_from(s@, i as int) == ParseStep::Fail(e),
        },
    decreases s@.len() - i, 1int,
{
    let n = s.len();
    if i >= n {
        return NodesRes::Done { nodes: Vec::new(), end: i };
    }
    let c = s[i];
    if c == ')' || c == ']' {
        return NodesRes::Done { nodes: Vec::new(), end: i };
    }
    match parse_item_exec(s, i) {
        ItemRes::Fail(e) => NodesRes::Fail(e),
        ItemRes::Done { node, end } => {
            let nx: usize = if end < i + 1 {
                i + 1
            } else if end > n {
                n
            } else {
                end
            };
            match parse_from_exec(s, nx) {
                NodesRes::Fail(e) => NodesRes::Fail(e),
                NodesRes::Done { nodes, end: e2 } => {
                    let ghost tail = nodes@;
                    let mut nodes = nodes;
                    nodes.insert(0, node);
                    proof {
                        assert(nodes@[0] == node);
                        assert(nodes@.subrange(1, nodes@.len() as int) =~= tail);
                        assert(nodes_model(nodes@) == seq![node_model(node)] + nodes_model(tail));
                    }
                    NodesRes::Done { nodes, end: e2 }
                },
            }
        },
    }
}

/// Parses the single item at `i`, matching `parse_item`.
fn parse_item_exec(s: &Vec<char>, i: usize) -> (r: ItemRes)
    requires
        i < s@.len(),
    ensures
        match r {
            ItemRes::Done { node, end } => parse_item(s@, i as int) == (ItemStep::Done {
                node: node_model(node),
                end: end as int,
            }) && end <= s@.len(),
            ItemRes::Fail(e) => parse_item(s@, i as int) == ItemStep::Fail(e),
        },
    decreases s@.len() - i, 0int,
{
    let n = s.len();
    let c = s[i];
    if c == '\\' {
        if i + 1 >= n {
            return ItemRes::Fail(ParseError::DanglingEscape);
        }
        let c2 = s[i + 1];
        let mut v: Vec<char> = Vec::new();
        if char_is_special(c2) {
            v.push(c2);
            proof {
                assert(v@ =~= seq![s@[i + 1]]);
            }
        } else {
            v.push('\\');
            v.push(c2);
            proof {
                assert(v@ =~= seq!['\\', s@[i + 1]]);
            }
        }
        ItemRes::Done { node: Node::Literal(chars_to_string(&v)), end: i + 2 }
    } else if c == '$' {
        if i + 1 < n && s[i + 1] == '{' {
            let p = find_char_exec(s, i + 2, '}');
            if p >= n {
                ItemRes::Fail(ParseError::UnbalancedDelimiter)
            } else {
                let name = copy_range(s, i + 2, p);
                ItemRes::Done { node: Node::Variable(chars_to_string(&name)), end: p + 1 }
            }
        } else {
            let j = ident_end_exec(s, i + 1);
            if j == i + 1 {
                let mut v: Vec<char> = Vec::new();
                v.push('$');
                proof {
                    assert(v@ =~= seq!['$']);
                }
                ItemRes::Done { node: Node::Literal(chars_to_string(&v)), end: i + 1 }
            } else {
                let name = copy_range(s, i + 1, j);
                ItemRes::Done { node: Node::Variable(chars_to_string(&name)), end: j }
            }
        }
    } else if c == '(' {
        match parse_from_exec(s, i + 1) {
            NodesRes::Fail(e) => ItemRes::Fail(e),
            NodesRes::Done { nodes, end } => {
                if end < n && s[end] == ')' {
                    ItemRes::Done {
                        node: Node::Group { style: None, children: nodes },
                        end: end + 1,
                    }
                } else {
                    ItemRes::Fail(ParseError::UnbalancedDelimiter)
                }
            },
        }
    } else if c == '[' {
        match parse_from_exec(s, i + 1) {
            NodesRes::Fail(e) => ItemRes::Fail(e),
            NodesRes::Done { nodes, end } => {
                if !(end < n && s[end] == ']') {
                    ItemRes::Fail(ParseError::UnbalancedDelimiter)
                } else if end + 1 < n && s[end + 1] == '(' {
                    let k = find_char_exec(s, end + 2, ')');
                    if k >= n {
                        ItemRes::Fail(ParseError::UnbalancedDelimiter)
                    } else {
                        let sty = copy_range(s, end + 2, k);
                        ItemRes::Done {
                            node: Node::Group {
                                style: Some(chars_to_string(&sty)),
                                children: nodes,
                            },
                            end: k + 1,
                        }
                    }
                } else {
                    ItemRes::Done {
                        node: Node::Group { style: None, children: nodes },
                        end: end + 1,
                    }
                }
            },
        }
    } else {
        let j = text_end_exec(s, i);
        let t = copy_range(s, i, j);
        ItemRes::Done { node: Node::Literal(chars_to_string(&t)), end: j }
    }
}

/// A parsed format string: an ordered sequence of top-level nodes.
#[derive(Debug, PartialEq, Eq)]
pub struct Template {
    pub nodes: Vec<Node>,
}

impl View for Template {
    type V = Seq<NodeModel>;

    open spec fn view(&self) -> Seq<NodeModel> {
        nodes_model(self.nodes@)
    }
}

impl Template {
    /// Parses a format string into a template, or reports the malformation.
    pub fn parse(format: &str) -> (r: Result<Template, ParseError>)
        ensures
            match r {
                Ok(t) => spec_parse(format@) == Ok::<Seq<NodeModel>, ParseError>(t@),
                Err(e) => spec_parse(format@) == Err::<Seq<NodeModel>, ParseError>(e),
            },
    {
        let cs = str_to_chars(format);
        match parse_from_exec(&cs, 0) {
            NodesRes::Fail(e) => Err(e),
            NodesRes::Done { nodes, end } => {
                if end == cs.len() {
                    Ok(Template { nodes })
                } else {
                    Err(ParseError::UnbalancedDelimiter)
                }
            },
        }
    }
}

} // verus!
