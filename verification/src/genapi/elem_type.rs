//! The types of what the elements of a node hold.

use crate::text::str_eq;
use vstd::prelude::*;

verus! {

/// An immediate value, or the name of the node that gives the value.
#[derive(Clone, Debug, PartialEq, Eq)]
pub enum ImmOrPNode<T> {
    Imm(T),
    PNode(String),
}

/// One of the values that an index selects.
#[derive(Clone, Debug, PartialEq, Eq)]
pub struct ValueIndexed<T> {
    pub indexed: ImmOrPNode<T>,
    pub index: i64,
}

/// The node that gives the value, and the nodes that take a copy of it.
#[derive(Clone, Debug, PartialEq, Eq)]
pub struct PValue {
    pub p_value: String,
    pub p_value_copies: Vec<String>,
}

/// The node that gives the index, the values that the index selects and the
/// value for an index that selects none.
#[derive(Clone, Debug, PartialEq, Eq)]
pub struct PIndex<T> {
    pub p_index: String,
    pub value_indexed: Vec<ValueIndexed<T>>,
    pub value_default: ImmOrPNode<T>,
}

/// Where the value of a node comes from.
#[derive(Clone, Debug, PartialEq, Eq)]
pub enum ValueKind<T> {
    Value(T),
    PValue(PValue),
    PIndex(PIndex<T>),
}

/// `ValueKind` with its lists as sequences.
pub ghost enum ValueKindView<T> {
    Value(T),
    PValue { p_value: String, p_value_copies: Seq<String> },
    PIndex { p_index: String, value_indexed: Seq<ValueIndexed<T>>, value_default: ImmOrPNode<T> },
}

impl<T> View for ValueKind<T> {
    type V = ValueKindView<T>;

    open spec fn view(&self) -> ValueKindView<T> {
        match *self {
            ValueKind::Value(value) => ValueKindView::Value(value),
            ValueKind::PValue(p_value) => ValueKindView::PValue {
                p_value: p_value.p_value,
                p_value_copies: p_value.p_value_copies@,
            },
            ValueKind::PIndex(p_index) => ValueKindView::PIndex {
                p_index: p_index.p_index,
                value_indexed: p_index.value_indexed@,
                value_default: p_index.value_default,
            },
        }
    }
}

/// How the value of an integer node is meant to be shown.
#[derive(Clone, Copy, Debug, PartialEq, Eq, Structural)]
pub enum IntegerRepresentation {
    /// Slider with linear behaviour.
    Linear,
    /// Slider with logarithmic behaviour.
    Logarithmic,
    /// Checkbox.
    Boolean,
    /// Decimal number in an edit control.
    PureNumber,
    /// Hex number in an edit control.
    HexNumber,
    /// IP address.
    IpV4Address,
    /// MAC address.
    MacAddress,
}

/// The representation that a text names.
pub open spec fn representation_of(text: Seq<char>) -> Option<IntegerRepresentation> {
    if text == "Linear"@ {
        Some(IntegerRepresentation::Linear)
    } else if text == "Logarithmic"@ {
        Some(IntegerRepresentation::Logarithmic)
    } else if text == "Boolean"@ {
        Some(IntegerRepresentation::Boolean)
    } else if text == "PureNumber"@ {
        Some(IntegerRepresentation::PureNumber)
    } else if text == "HexNumber"@ {
        Some(IntegerRepresentation::HexNumber)
    } else if text == "IPV4Address"@ {
        Some(IntegerRepresentation::IpV4Address)
    } else if text == "MACAddress"@ {
        Some(IntegerRepresentation::MacAddress)
    } else {
        None
    }
}

impl IntegerRepresentation {
    /// The representation that `text` names.
    pub fn from_text(text: &str) -> (res: Option<Self>)
        ensures
            res == representation_of(text@),
    {
        if str_eq(text, "Linear") {
            Some(IntegerRepresentation::Linear)
        } else if str_eq(text, "Logarithmic") {
            Some(IntegerRepresentation::Logarithmic)
        } else if str_eq(text, "Boolean") {
            Some(IntegerRepresentation::Boolean)
        } else if str_eq(text, "PureNumber") {
            Some(IntegerRepresentation::PureNumber)
        } else if str_eq(text, "HexNumber") {
            Some(IntegerRepresentation::HexNumber)
        } else if str_eq(text, "IPV4Address") {
            Some(IntegerRepresentation::IpV4Address)
        } else if str_eq(text, "MACAddress") {
            Some(IntegerRepresentation::MacAddress)
        } else {
            None
        }
    }

    /// The smallest value of a node that states no minimum.
    pub open spec fn spec_deduce_min(self) -> i64 {
        match self {
            IntegerRepresentation::IpV4Address | IntegerRepresentation::MacAddress => 0,
            _ => i64::MIN,
        }
    }

    /// The largest value of a node that states no maximum.
    pub open spec fn spec_deduce_max(self) -> i64 {
        match self {
            IntegerRepresentation::IpV4Address => 0xffff_ffff,
            IntegerRepresentation::MacAddress => 0xffff_ffff_ffff,
            _ => i64::MAX,
        }
    }

    /// Deduce the minimum of a node from its representation: an address is
    /// not negative, any other value has the range of its type.
    pub fn deduce_min(self) -> (min: i64)
        ensures
            min == self.spec_deduce_min(),
    {
        match self {
            IntegerRepresentation::IpV4Address | IntegerRepresentation::MacAddress => 0,
            _ => i64::MIN,
        }
    }

    /// Deduce the maximum of a node from its representation: an address has
    /// 32 or 48 bits, any other value has the range of its type.
    pub fn deduce_max(self) -> (max: i64)
        ensures
            max == self.spec_deduce_max(),
    {
        match self {
            IntegerRepresentation::IpV4Address => 0xffff_ffff,
            IntegerRepresentation::MacAddress => 0xffff_ffff_ffff,
            _ => i64::MAX,
        }
    }
}

/// How the value of a converter follows the value that it converts.
#[derive(Clone, Copy, Debug, PartialEq, Eq, Structural)]
pub enum Slope {
    Increasing,
    Decreasing,
    Varying,
    Automatic,
}

/// A value with a name.
#[derive(Clone, Debug, PartialEq, Eq)]
pub struct NamedValue<T> {
    pub name: String,
    pub value: T,
}

/// Who is meant to see a node.
#[derive(Clone, Copy, Debug, PartialEq, Eq, Structural)]
pub enum Visibility {
    Beginner,
    Expert,
    Guru,
    Invisible,
}

/// The visibility that a text names.
pub open spec fn visibility_of(text: Seq<char>) -> Option<Visibility> {
    if text == "Beginner"@ {
        Some(Visibility::Beginner)
    } else if text == "Expert"@ {
        Some(Visibility::Expert)
    } else if text == "Guru"@ {
        Some(Visibility::Guru)
    } else if text == "Invisible"@ {
        Some(Visibility::Invisible)
    } else {
        None
    }
}

impl Visibility {
    /// The visibility that `text` names.
    pub fn from_text(text: &str) -> (res: Option<Self>)
        ensures
            res == visibility_of(text@),
    {
        if str_eq(text, "Beginner") {
            Some(Visibility::Beginner)
        } else if str_eq(text, "Expert") {
            Some(Visibility::Expert)
        } else if str_eq(text, "Guru") {
            Some(Visibility::Guru)
        } else if str_eq(text, "Invisible") {
            Some(Visibility::Invisible)
        } else {
            None
        }
    }
}

/// How a node may be accessed.
#[derive(Clone, Copy, Debug, PartialEq, Eq, Structural)]
pub enum AccessMode {
    /// Read only.
    RO,
    /// Write only.
    WO,
    /// Read and write.
    RW,
}

/// The access mode that a text names.
pub open spec fn access_mode_of(text: Seq<char>) -> Option<AccessMode> {
    if text == "RO"@ {
        Some(AccessMode::RO)
    } else if text == "WO"@ {
        Some(AccessMode::WO)
    } else if text == "RW"@ {
        Some(AccessMode::RW)
    } else {
        None
    }
}

impl AccessMode {
    /// The access mode that `text` names.
    pub fn from_text(text: &str) -> (res: Option<Self>)
        ensures
            res == access_mode_of(text@),
    {
        if str_eq(text, "RO") {
            Some(AccessMode::RO)
        } else if str_eq(text, "WO") {
            Some(AccessMode::WO)
        } else if str_eq(text, "RW") {
            Some(AccessMode::RW)
        } else {
            None
        }
    }
}

/// The truth value that a text names.
pub open spec fn bool_of(text: Seq<char>) -> Option<bool> {
    if text == "Yes"@ || text == "true"@ {
        Some(true)
    } else if text == "No"@ || text == "false"@ {
        Some(false)
    } else {
        None
    }
}

/// The truth value that `text` names.
pub fn bool_from_text(text: &str) -> (res: Option<bool>)
    ensures
        res == bool_of(text@),
{
    if str_eq(text, "Yes") || str_eq(text, "true") {
        Some(true)
    } else if str_eq(text, "No") || str_eq(text, "false") {
        Some(false)
    } else {
        None
    }
}

} // verus!
