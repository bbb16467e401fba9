//! What every node has: its attributes and its leading elements.

use crate::genapi::elem_type::{
    access_mode_of, bool_from_text, bool_of, visibility_of, AccessMode, Visibility,
};
use crate::genapi::xml::{attribute_value, run_end, run_texts, text_if, Attribute, Element, Node};
use crate::text::str_eq;
use vstd::prelude::*;

verus! {

/// Whether a node belongs to the standard or to the vendor.
#[derive(Clone, Copy, Debug, PartialEq, Eq, Structural)]
pub enum NameSpace {
    Standard,
    Custom,
}

/// The name space that a text names.
pub open spec fn name_space_of(text: Seq<char>) -> Option<NameSpace> {
    if text == "Standard"@ {
        Some(NameSpace::Standard)
    } else if text == "Custom"@ {
        Some(NameSpace::Custom)
    } else {
        None
    }
}

/// Which of two nodes of one name wins when descriptions are merged.
#[derive(Clone, Copy, Debug, PartialEq, Eq, Structural)]
pub enum MergePriority {
    High,
    Mid,
    Low,
}

/// The merge priority that a text names.
pub open spec fn merge_priority_of(text: Seq<char>) -> Option<MergePriority> {
    if text == "1"@ {
        Some(MergePriority::High)
    } else if text == "0"@ {
        Some(MergePriority::Mid)
    } else if text == "-1"@ {
        Some(MergePriority::Low)
    } else {
        None
    }
}

/// The attributes of a node.
#[derive(Clone, Debug, PartialEq, Eq)]
pub struct NodeAttributeBase {
    pub name: String,
    pub name_space: NameSpace,
    pub merge_priority: MergePriority,
    pub expose_static: Option<bool>,
}

/// What an attribute that may be missing stands for: `default` where it is
/// missing, what `of` makes of its text where it is there.
pub open spec fn or_default<T>(
    text: Option<String>,
    default: T,
    of: spec_fn(Seq<char>) -> Option<T>,
) -> Option<T> {
    match text {
        None => Some(default),
        Some(text) => of(text@),
    }
}

impl NodeAttributeBase {
    /// The attributes of a node as the attributes of its element give them:
    /// the name has to be there; the name space is custom, the merge priority
    /// middle and nothing said of static exposure unless the element says
    /// otherwise.
    pub open spec fn spec_parse(attributes: Seq<Attribute>) -> Option<NodeAttributeBase> {
        let name = attribute_value(attributes, "Name"@);
        let name_space = or_default(
            attribute_value(attributes, "NameSpace"@),
            NameSpace::Custom,
            |text: Seq<char>| name_space_of(text),
        );
        let merge_priority = or_default(
            attribute_value(attributes, "MergePriority"@),
            MergePriority::Mid,
            |text: Seq<char>| merge_priority_of(text),
        );
        let expose_static = match attribute_value(attributes, "ExposeStatic"@) {
            None => Some(None),
            Some(text) => match bool_of(text@) {
                Some(expose) => Some(Some(expose)),
                None => None,
            },
        };
        if name is Some && name_space is Some && merge_priority is Some && expose_static is Some {
            Some(
                NodeAttributeBase {
                    name: name->0,
                    name_space: name_space->0,
                    merge_priority: merge_priority->0,
                    expose_static: expose_static->0,
                },
            )
        } else {
            None
        }
    }

    /// Reads the attributes of a node from its element.
    pub fn parse(element: &Element) -> (res: Option<Self>)
        ensures
            res == Self::spec_parse(element.attributes@),
    {
        let name = match element.attribute_of("Name") {
            Some(name) => name.clone(),
            None => { return None; },
        };
        let name_space = match element.attribute_of("NameSpace") {
            None => NameSpace::Custom,
            Some(text) => {
                if str_eq(text.as_str(), "Standard") {
                    NameSpace::Standard
                } else if str_eq(text.as_str(), "Custom") {
                    NameSpace::Custom
                } else {
                    return None;
                }
            },
        };
        let merge_priority = match element.attribute_of("MergePriority") {
            None => MergePriority::Mid,
            Some(text) => {
                if str_eq(text.as_str(), "1") {
                    MergePriority::High
                } else if str_eq(text.as_str(), "0") {
                    MergePriority::Mid
                } else if str_eq(text.as_str(), "-1") {
                    MergePriority::Low
                } else {
                    return None;
                }
            },
        };
        let expose_static = match element.attribute_of("ExposeStatic") {
            None => None,
            Some(text) => match bool_from_text(text.as_str()) {
                Some(expose) => Some(expose),
                None => { return None; },
            },
        };
        Some(Self { name, name_space, merge_priority, expose_static })
    }
}

/// The leading elements of a node.
#[derive(Clone, Debug, PartialEq, Eq)]
pub struct NodeElementBase {
    pub tooltip: Option<String>,
    pub description: Option<String>,
    pub display_name: Option<String>,
    pub visibility: Visibility,
    pub docu_url: Option<String>,
    pub is_deprecated: bool,
    pub event_id: Option<String>,
    pub p_is_implemented: Option<String>,
    pub p_is_available: Option<String>,
    pub p_is_locked: Option<String>,
    pub p_block_polling: Option<String>,
    pub imposed_access_mode: AccessMode,
    pub p_errors: Vec<String>,
    pub p_alias: Option<String>,
    pub p_cast_alias: Option<String>,
}

/// `NodeElementBase` with its list as a sequence.
pub ghost struct NodeElementBaseView {
    pub tooltip: Option<String>,
    pub description: Option<String>,
    pub display_name: Option<String>,
    pub visibility: Visibility,
    pub docu_url: Option<String>,
    pub is_deprecated: bool,
    pub event_id: Option<String>,
    pub p_is_implemented: Option<String>,
    pub p_is_available: Option<String>,
    pub p_is_locked: Option<String>,
    pub p_block_polling: Option<String>,
    pub imposed_access_mode: AccessMode,
    pub p_errors: Seq<String>,
    pub p_alias: Option<String>,
    pub p_cast_alias: Option<String>,
}

impl View for NodeElementBase {
    type V = NodeElementBaseView;

    open spec fn view(&self) -> NodeElementBaseView {
        NodeElementBaseView {
            tooltip: self.tooltip,
            description: self.description,
            display_name: self.display_name,
            visibility: self.visibility,
            docu_url: self.docu_url,
            is_deprecated: self.is_deprecated,
            event_id: self.event_id,
            p_is_implemented: self.p_is_implemented,
            p_is_available: self.p_is_available,
            p_is_locked: self.p_is_locked,
            p_block_polling: self.p_block_polling,
            imposed_access_mode: self.imposed_access_mode,
            p_errors: self.p_errors@,
            p_alias: self.p_alias,
            p_cast_alias: self.p_cast_alias,
        }
    }
}

impl NodeElementBase {
    /// The leading elements of a node as the children from `at` on give
    /// them, and the place of the first child behind them. Each element may
    /// be missing, and they stand in the order of the fields; a node is
    /// visible to beginners, not deprecated and open to reading and writing
    /// unless an element says otherwise.
    pub open spec fn spec_parse(children: Seq<Element>, at: int) -> Option<
        (NodeElementBaseView, int),
    > {
        let (tooltip, pos1) = text_if(children, at, "ToolTip"@);
        let (description, pos2) = text_if(children, pos1, "Description"@);
        let (display_name, pos3) = text_if(children, pos2, "DisplayName"@);
        let (visibility, pos4) = text_if(children, pos3, "Visibility"@);
        let (docu_url, pos5) = text_if(children, pos4, "DocuURL"@);
        let (is_deprecated, pos6) = text_if(children, pos5, "IsDeprecated"@);
        let (event_id, pos7) = text_if(children, pos6, "EventID"@);
        let (p_is_implemented, pos8) = text_if(children, pos7, "pIsImplemented"@);
        let (p_is_available, pos9) = text_if(children, pos8, "pIsAvailable"@);
        let (p_is_locked, pos10) = text_if(children, pos9, "pIsLocked"@);
        let (p_block_polling, pos11) = text_if(children, pos10, "pBlockPolling"@);
        let (imposed_access_mode, pos12) = text_if(children, pos11, "ImposedAccessMode"@);
        let p_errors = run_texts(children, pos12, "pError"@);
        let pos13 = run_end(children, pos12, "pError"@);
        let (p_alias, pos14) = text_if(children, pos13, "pAlias"@);
        let (p_cast_alias, pos15) = text_if(children, pos14, "pCastAlias"@);
        let visibility = or_default(
            visibility,
            Visibility::Beginner,
            |text: Seq<char>| visibility_of(text),
        );
        let is_deprecated = or_default(is_deprecated, false, |text: Seq<char>| bool_of(text));
        let imposed_access_mode = or_default(
            imposed_access_mode,
            AccessMode::RW,
            |text: Seq<char>| access_mode_of(text),
        );
        if visibility is Some && is_deprecated is Some && imposed_access_mode is Some {
            Some(
                (
                    NodeElementBaseView {
                        tooltip,
                        description,
                        display_name,
                        visibility: visibility->0,
                        docu_url,
                        is_deprecated: is_deprecated->0,
                        event_id,
                        p_is_implemented,
                        p_is_available,
                        p_is_locked,
                        p_block_polling,
                        imposed_access_mode: imposed_access_mode->0,
                        p_errors,
                        p_alias,
                        p_cast_alias,
                    },
                    pos15,
                ),
            )
        } else {
            None
        }
    }

    /// Reads the leading elements of a node; the cursor moves behind them.
    pub fn parse(node: &mut Node) -> (res: Option<Self>)
        requires
            old(node).wf(),
        ensures
            final(node).wf(),
            final(node).element == old(node).element,
            match Self::spec_parse(old(node).children(), old(node).next as int) {
                Some((base, end)) => {
                    &&& res matches Some(parsed)
                    &&& parsed@ == base
                    &&& final(node).next == end
                },
                None => res is None,
            },
    {
        let tooltip = node.parse_if("ToolTip");
        let description = node.parse_if("Description");
        let display_name = node.parse_if("DisplayName");
        let visibility = node.parse_if("Visibility");
        let docu_url = node.parse_if("DocuURL");
        let is_deprecated = node.parse_if("IsDeprecated");
        let event_id = node.parse_if("EventID");
        let p_is_implemented = node.parse_if("pIsImplemented");
        let p_is_available = node.parse_if("pIsAvailable");
        let p_is_locked = node.parse_if("pIsLocked");
        let p_block_polling = node.parse_if("pBlockPolling");
        let imposed_access_mode = node.parse_if("ImposedAccessMode");
        let p_errors = node.parse_while("pError");
        let p_alias = node.parse_if("pAlias");
        let p_cast_alias = node.parse_if("pCastAlias");
        let visibility = match visibility {
            None => Visibility::Beginner,
            Some(text) => match Visibility::from_text(text.as_str()) {
                Some(visibility) => visibility,
                None => { return None; },
            },
        };
        let is_deprecated = match is_deprecated {
            None => false,
            Some(text) => match bool_from_text(text.as_str()) {
                Some(is_deprecated) => is_deprecated,
                None => { return None; },
            },
        };
        let imposed_access_mode = match imposed_access_mode {
            None => AccessMode::RW,
            Some(text) => match AccessMode::from_text(text.as_str()) {
                Some(imposed_access_mode) => imposed_access_mode,
                None => { return None; },
            },
        };
        Some(
            Self {
                tooltip,
                description,
                display_name,
                visibility,
                docu_url,
                is_deprecated,
                event_id,
                p_is_implemented,
                p_is_available,
                p_is_locked,
                p_block_polling,
                imposed_access_mode,
                p_errors,
                p_alias,
                p_cast_alias,
            },
        )
    }
}

/// The attributes and the leading elements of a node, borrowed from it.
#[derive(Clone, Copy, Debug)]
pub struct NodeBase<'a> {
    pub attr: &'a NodeAttributeBase,
    pub elem: &'a NodeElementBase,
}

impl<'a> NodeBase<'a> {
    /// Borrows the two parts of the base of a node.
    pub fn new(attr: &'a NodeAttributeBase, elem: &'a NodeElementBase) -> (base: Self)
        ensures
            base.attr == attr,
            base.elem == elem,
    {
        Self { attr, elem }
    }

    /// The name of the node.
    pub fn name(&self) -> (name: &'a str)
        ensures
            name@ == self.attr.name@,
    {
        self.attr.name.as_str()
    }
}

} // verus!
