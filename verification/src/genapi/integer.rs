//! The integer node and how it is read from its element.

use crate::genapi::elem_type::{
    bool_from_text, bool_of, representation_of, ImmOrPNode, IntegerRepresentation, PIndex, PValue,
    ValueIndexed, ValueKind, ValueKindView,
};
use crate::genapi::node_base::{
    or_default, NodeAttributeBase, NodeBase, NodeElementBase, NodeElementBaseView,
};
use crate::genapi::xml::{
    attribute_value, lemma_run_end, run_end, tag_is, text_if, texts, Element, Node,
};
use crate::text::{i64_of, parse_i64, str_eq};
use vstd::prelude::*;

verus! {

/// The value at the cursor, where the child there is named `imm_tag` and
/// holds a number or is named `p_tag` and holds the name of a node; no value
/// where the child has another name. `None` where the number is none.
pub open spec fn imm_or_pnode_if(
    children: Seq<Element>,
    at: int,
    imm_tag: Seq<char>,
    p_tag: Seq<char>,
) -> Option<(Option<ImmOrPNode<i64>>, int)> {
    if tag_is(children, at, imm_tag) {
        match i64_of(children[at].text@) {
            Some(value) => Some((Some(ImmOrPNode::Imm(value)), at + 1)),
            None => None,
        }
    } else if tag_is(children, at, p_tag) {
        Some((Some(ImmOrPNode::PNode(children[at].text)), at + 1))
    } else {
        Some((None, at))
    }
}

/// Reads the value at the cursor as `imm_or_pnode_if` says.
pub fn parse_imm_or_pnode_if(node: &mut Node, imm_tag: &str, p_tag: &str) -> (res: Option<
    Option<ImmOrPNode<i64>>,
>)
    requires
        old(node).wf(),
    ensures
        final(node).wf(),
        final(node).element == old(node).element,
        match imm_or_pnode_if(old(node).children(), old(node).next as int, imm_tag@, p_tag@) {
            Some((value, end)) => res == Some(value) && final(node).next == end,
            None => res is None,
        },
{
    match node.next_if(imm_tag) {
        Some(child) => match parse_i64(child.text.as_str()) {
            Some(value) => Some(Some(ImmOrPNode::Imm(value))),
            None => None,
        },
        None => match node.parse_if(p_tag) {
            Some(name) => Some(Some(ImmOrPNode::PNode(name))),
            None => Some(None),
        },
    }
}

/// The indexed value that an element holds: its index in the attribute
/// `Index`, its value as a number or as the name of a node.
pub open spec fn value_indexed_of(element: Element) -> Option<ValueIndexed<i64>> {
    let index = match attribute_value(element.attributes@, "Index"@) {
        Some(text) => i64_of(text@),
        None => None,
    };
    let indexed = if element.tag_name@ == "ValueIndexed"@ {
        match i64_of(element.text@) {
            Some(value) => Some(ImmOrPNode::Imm(value)),
            None => None,
        }
    } else {
        Some(ImmOrPNode::PNode(element.text))
    };
    if index is Some && indexed is Some {
        Some(ValueIndexed { indexed: indexed->0, index: index->0 })
    } else {
        None
    }
}

/// Whether the child at `at` holds an indexed value.
pub open spec fn is_indexed(children: Seq<Element>, at: int) -> bool {
    tag_is(children, at, "ValueIndexed"@) || tag_is(children, at, "pValueIndexed"@)
}

/// The indexed values that the children from `at` on hold, up to the first
/// child that holds none, and the place of that child.
pub open spec fn indexed_run(children: Seq<Element>, at: int) -> Option<
    (Seq<ValueIndexed<i64>>, int),
>
    decreases children.len() - at,
{
    if is_indexed(children, at) {
        match (value_indexed_of(children[at]), indexed_run(children, at + 1)) {
            (Some(value), Some((rest, end))) => Some((seq![value] + rest, end)),
            _ => None,
        }
    } else {
        Some((Seq::empty(), at))
    }
}

/// Where the value of an integer node comes from, as the children from `at`
/// on say: a number, a node with the nodes that copy it before and behind,
/// or an index with its values and a default.
pub open spec fn value_kind_at(children: Seq<Element>, at: int) -> Option<
    (ValueKindView<i64>, int),
> {
    if tag_is(children, at, "Value"@) {
        match i64_of(children[at].text@) {
            Some(value) => Some((ValueKindView::Value(value), at + 1)),
            None => None,
        }
    } else if tag_is(children, at, "pValueCopy"@) || tag_is(children, at, "pValue"@) {
        let p_value_at = run_end(children, at, "pValueCopy"@);
        if tag_is(children, p_value_at, "pValue"@) {
            let end = run_end(children, p_value_at + 1, "pValueCopy"@);
            Some(
                (
                    ValueKindView::PValue {
                        p_value: children[p_value_at].text,
                        p_value_copies: texts(children, at, p_value_at) + texts(
                            children,
                            p_value_at + 1,
                            end,
                        ),
                    },
                    end,
                ),
            )
        } else {
            None
        }
    } else if tag_is(children, at, "pIndex"@) {
        match indexed_run(children, at + 1) {
            Some((value_indexed, default_at)) => match imm_or_pnode_if(
                children,
                default_at,
                "ValueDefault"@,
                "pValueDefault"@,
            ) {
                Some((Some(value_default), end)) => Some(
                    (
                        ValueKindView::PIndex {
                            p_index: children[at].text,
                            value_indexed,
                            value_default,
                        },
                        end,
                    ),
                ),
                _ => None,
            },
            None => None,
        }
    } else {
        None
    }
}

/// Reads one indexed value.
fn parse_value_indexed(element: &Element) -> (res: Option<ValueIndexed<i64>>)
    ensures
        res == value_indexed_of(*element),
{
    let index = match element.attribute_of("Index") {
        Some(text) => match parse_i64(text.as_str()) {
            Some(index) => index,
            None => { return None; },
        },
        None => { return None; },
    };
    let indexed = if str_eq(element.tag_name.as_str(), "ValueIndexed") {
        match parse_i64(element.text.as_str()) {
            Some(value) => ImmOrPNode::Imm(value),
            None => { return None; },
        }
    } else {
        ImmOrPNode::PNode(element.text.clone())
    };
    Some(ValueIndexed { indexed, index })
}

/// Reads the indexed values at the cursor, which moves behind them.
fn parse_indexed_run(node: &mut Node) -> (res: Option<Vec<ValueIndexed<i64>>>)
    requires
        old(node).wf(),
    ensures
        final(node).wf(),
        final(node).element == old(node).element,
        match indexed_run(old(node).children(), old(node).next as int) {
            Some((values, end)) => res matches Some(found) && found@ == values && final(node).next
                == end,
            None => res is None,
        },
{
    let mut found: Vec<ValueIndexed<i64>> = Vec::new();
    loop
        invariant
            node.wf(),
            node.element == old(node).element,
            indexed_run(old(node).children(), old(node).next as int) == (match indexed_run(
                node.children(),
                node.next as int,
            ) {
                Some((rest, end)) => Some((found@ + rest, end)),
                None => None,
            }),
        decreases node.children().len() - node.next,
    {
        let child = match node.next_if("ValueIndexed") {
            Some(child) => child,
            None => match node.next_if("pValueIndexed") {
                Some(child) => child,
                None => {
                    assert(found@ + Seq::<ValueIndexed<i64>>::empty() =~= found@);
                    return Some(found);
                },
            },
        };
        let ghost before = found@;
        match parse_value_indexed(child) {
            Some(value) => {
                found.push(value);
                proof {
                    match indexed_run(node.children(), node.next as int) {
                        Some((rest, end)) => {
                            assert(before + (seq![value] + rest) =~= found@ + rest);
                        },
                        None => {},
                    }
                }
            },
            None => { return None; },
        }
    }
}

/// Reads where the value of an integer node comes from; the cursor moves
/// behind what was read.
pub fn parse_value_kind(node: &mut Node) -> (res: Option<ValueKind<i64>>)
    requires
        old(node).wf(),
    ensures
        final(node).wf(),
        final(node).element == old(node).element,
        match value_kind_at(old(node).children(), old(node).next as int) {
            Some((kind, end)) => res matches Some(found) && found@ == kind && final(node).next
                == end,
            None => res is None,
        },
{
    if node.is_next_node_name("Value") {
        let child = match node.next_if("Value") {
            Some(child) => child,
            None => { return None; },
        };
        match parse_i64(child.text.as_str()) {
            Some(value) => Some(ValueKind::Value(value)),
            None => None,
        }
    } else if node.is_next_node_name("pValueCopy") || node.is_next_node_name("pValue") {
        proof {
            lemma_run_end(node.children(), node.next as int, "pValueCopy"@);
        }
        let mut p_value_copies = node.parse_while("pValueCopy");
        let p_value = match node.parse_if("pValue") {
            Some(p_value) => p_value,
            None => { return None; },
        };
        proof {
            lemma_run_end(node.children(), node.next as int, "pValueCopy"@);
        }
        let mut behind = node.parse_while("pValueCopy");
        let ghost copies_before = p_value_copies@;
        let ghost copies_behind = behind@;
        p_value_copies.append(&mut behind);
        assert(p_value_copies@ =~= copies_before + copies_behind);
        Some(ValueKind::PValue(PValue { p_value, p_value_copies }))
    } else if node.is_next_node_name("pIndex") {
        let p_index = match node.parse_if("pIndex") {
            Some(p_index) => p_index,
            None => { return None; },
        };
        let value_indexed = match parse_indexed_run(node) {
            Some(value_indexed) => value_indexed,
            None => { return None; },
        };
        let value_default = match parse_imm_or_pnode_if(node, "ValueDefault", "pValueDefault") {
            Some(Some(value_default)) => value_default,
            _ => { return None; },
        };
        Some(ValueKind::PIndex(PIndex { p_index, value_indexed, value_default }))
    } else {
        None
    }
}

/// A node that holds an integer.
#[derive(Debug, Clone)]
pub struct IntegerNode {
    attr_base: NodeAttributeBase,
    elem_base: NodeElementBase,
    p_invalidators: Vec<String>,
    streamable: bool,
    value_kind: ValueKind<i64>,
    min: ImmOrPNode<i64>,
    max: ImmOrPNode<i64>,
    inc: ImmOrPNode<i64>,
    unit: Option<String>,
    representation: IntegerRepresentation,
    p_selected: Vec<String>,
}

/// `IntegerNode` with its lists as sequences.
pub ghost struct IntegerNodeView {
    pub attr_base: NodeAttributeBase,
    pub elem_base: NodeElementBaseView,
    pub p_invalidators: Seq<String>,
    pub streamable: bool,
    pub value_kind: ValueKindView<i64>,
    pub min: ImmOrPNode<i64>,
    pub max: ImmOrPNode<i64>,
    pub inc: ImmOrPNode<i64>,
    pub unit: Option<String>,
    pub representation: IntegerRepresentation,
    pub p_selected: Seq<String>,
}

impl View for IntegerNode {
    type V = IntegerNodeView;

    closed spec fn view(&self) -> IntegerNodeView {
        IntegerNodeView {
            attr_base: self.attr_base,
            elem_base: self.elem_base@,
            p_invalidators: self.p_invalidators@,
            streamable: self.streamable,
            value_kind: self.value_kind@,
            min: self.min,
            max: self.max,
            inc: self.inc,
            unit: self.unit,
            representation: self.representation,
            p_selected: self.p_selected@,
        }
    }
}

impl IntegerNode {
    /// The integer node that an element named `Integer` holds.
    ///
    /// Behind the leading elements of every node stand, each of them
    /// optional but the value: the nodes that invalidate this one, whether
    /// the node is streamable, where the value comes from, minimum, maximum
    /// and increment, the unit, the representation, and the nodes that this
    /// one selects. Without them the node is not streamable, its increment
    /// is 1, its representation a pure number, and minimum and maximum are
    /// those that the representation gives.
    pub open spec fn spec_parse(element: Element) -> Option<IntegerNodeView> {
        let children = element.children@;
        match (
            NodeAttributeBase::spec_parse(element.attributes@),
            NodeElementBase::spec_parse(children, 0),
        ) {
            (Some(attr_base), Some((elem_base, pos0))) => {
                let pos1 = run_end(children, pos0, "pInvalidator"@);
                let (streamable, pos2) = text_if(children, pos1, "Streamable"@);
                let streamable = or_default(streamable, false, |text: Seq<char>| bool_of(text));
                match value_kind_at(children, pos2) {
                    Some((value_kind, pos3)) => match imm_or_pnode_if(
                        children,
                        pos3,
                        "Min"@,
                        "pMin"@,
                    ) {
                        Some((min, pos4)) => match imm_or_pnode_if(children, pos4, "Max"@, "pMax"@) {
                            Some((max, pos5)) => match imm_or_pnode_if(
                                children,
                                pos5,
                                "Inc"@,
                                "pInc"@,
                            ) {
                                Some((inc, pos6)) => {
                                    let (unit, pos7) = text_if(children, pos6, "Unit"@);
                                    let (representation, pos8) = text_if(
                                        children,
                                        pos7,
                                        "Representation"@,
                                    );
                                    let representation = or_default(
                                        representation,
                                        IntegerRepresentation::PureNumber,
                                        |text: Seq<char>| representation_of(text),
                                    );
                                    let pos9 = run_end(children, pos8, "pSelected"@);
                                    if element.tag_name@ == "Integer"@ && streamable is Some
                                        && representation is Some {
                                        Some(
                                            IntegerNodeView {
                                                attr_base,
                                                elem_base,
                                                p_invalidators: texts(children, pos0, pos1),
                                                streamable: streamable->0,
                                                value_kind,
                                                min: match min {
                                                    Some(min) => min,
                                                    None => ImmOrPNode::Imm(
                                                        representation->0.spec_deduce_min(),
                                                    ),
                                                },
                                                max: match max {
                                                    Some(max) => max,
                                                    None => ImmOrPNode::Imm(
                                                        representation->0.spec_deduce_max(),
                                                    ),
                                                },
                                                inc: match inc {
                                                    Some(inc) => inc,
                                                    None => ImmOrPNode::Imm(1),
                                                },
                                                unit,
                                                representation: representation->0,
                                                p_selected: texts(children, pos8, pos9),
                                            },
                                        )
                                    } else {
                                        None
                                    }
                                },
                                None => None,
                            },
                            None => None,
                        },
                        None => None,
                    },
                    None => None,
                }
            },
            _ => None,
        }
    }

    /// Reads an integer node from its element. An element that is no integer
    /// node gives `None`.
    pub fn parse(element: &Element) -> (res: Option<Self>)
        ensures
            match Self::spec_parse(*element) {
                Some(node) => res matches Some(parsed) && parsed@ == node,
                None => res is None,
            },
    {
        if !str_eq(element.tag_name.as_str(), "Integer") {
            return None;
        }
        let attr_base = match NodeAttributeBase::parse(element) {
            Some(attr_base) => attr_base,
            None => { return None; },
        };
        let mut node = Node::new(element);
        let elem_base = match NodeElementBase::parse(&mut node) {
            Some(elem_base) => elem_base,
            None => { return None; },
        };

        let p_invalidators = node.parse_while("pInvalidator");

        let streamable = match node.parse_if("Streamable") {
            None => false,
            Some(text) => match bool_from_text(text.as_str()) {
                Some(streamable) => streamable,
                None => { return None; },
            },
        };

        let value_kind = match parse_value_kind(&mut node) {
            Some(value_kind) => value_kind,
            None => { return None; },
        };

        let min = match parse_imm_or_pnode_if(&mut node, "Min", "pMin") {
            Some(min) => min,
            None => { return None; },
        };

        let max = match parse_imm_or_pnode_if(&mut node, "Max", "pMax") {
            Some(max) => max,
            None => { return None; },
        };

        let inc = match parse_imm_or_pnode_if(&mut node, "Inc", "pInc") {
            Some(Some(inc)) => inc,
            Some(None) => ImmOrPNode::Imm(1),
            None => { return None; },
        };

        let unit = node.parse_if("Unit");

        let representation = match node.parse_if("Representation") {
            None => IntegerRepresentation::PureNumber,
            Some(text) => match IntegerRepresentation::from_text(text.as_str()) {
                Some(representation) => representation,
                None => { return None; },
            },
        };

        // Deduce min and max value based on representation if not specified.
        let min = match min {
            Some(min) => min,
            None => ImmOrPNode::Imm(representation.deduce_min()),
        };
        let max = match max {
            Some(max) => max,
            None => ImmOrPNode::Imm(representation.deduce_max()),
        };

        let p_selected = node.parse_while("pSelected");

        Some(
            Self {
                attr_base,
                elem_base,
                p_invalidators,
                streamable,
                value_kind,
                min,
                max,
                inc,
                unit,
                representation,
                p_selected,
            },
        )
    }

    pub fn node_base(&self) -> (base: NodeBase<'_>)
        ensures
            *base.attr == self@.attr_base,
            base.elem@ == self@.elem_base,
    {
        NodeBase::new(&self.attr_base, &self.elem_base)
    }

    pub fn p_invalidators(&self) -> (names: &[String])
        ensures
            names@ == self@.p_invalidators,
    {
        self.p_invalidators.as_slice()
    }

    pub fn streamable(&self) -> (streamable: bool)
        ensures
            streamable == self@.streamable,
    {
        self.streamable
    }

    pub fn value_kind(&self) -> (kind: &ValueKind<i64>)
        ensures
            kind@ == self@.value_kind,
    {
        &self.value_kind
    }

    pub fn min(&self) -> (min: &ImmOrPNode<i64>)
        ensures
            *min == self@.min,
    {
        &self.min
    }

    pub fn max(&self) -> (max: &ImmOrPNode<i64>)
        ensures
            *max == self@.max,
    {
        &self.max
    }

    pub fn inc(&self) -> (inc: &ImmOrPNode<i64>)
        ensures
            *inc == self@.inc,
    {
        &self.inc
    }

    pub fn unit(&self) -> (unit: Option<&str>)
        ensures
            match self@.unit {
                Some(text) => unit matches Some(found) && found@ == text@,
                None => unit is None,
            },
    {
        match &self.unit {
            Some(unit) => Some(unit.as_str()),
            None => None,
        }
    }

    pub fn representation(&self) -> (representation: IntegerRepresentation)
        ensures
            representation == self@.representation,
    {
        self.representation
    }

    pub fn p_selected(&self) -> (names: &[String])
        ensures
            names@ == self@.p_selected,
    {
        self.p_selected.as_slice()
    }
}

} // verus!
