//! The converter node for integers: a node whose value is that of another
//! node, taken through a formula in each direction.

use crate::genapi::elem_type::{IntegerRepresentation, NamedValue, Slope};
use crate::genapi::formula::{Expr, Formula};
use crate::genapi::node_base::{NodeAttributeBase, NodeBase, NodeElementBase};
use vstd::prelude::*;

verus! {

/// The place of a node in the store of nodes.
#[derive(Clone, Copy, Debug, PartialEq, Eq, Hash, Structural)]
pub struct NodeId {
    pub index: u32,
}

/// An error of the feature model.
#[derive(Clone, Copy, Debug, PartialEq, Eq)]
pub enum GenApiError {
    /// The node does not take the operation.
    AccessDenied(&'static str),
    /// The description of the camera names a node that cannot do what it is
    /// named for.
    InvalidNode(&'static str),
}

/// Result of the feature model.
pub type GenApiResult<T> = Result<T, GenApiError>;

/// How the increment of a node is given.
#[derive(Clone, Copy, Debug, PartialEq, Eq, Structural)]
pub enum IncrementMode {
    FixedIncrement,
    ListIncrement,
}

/// Message of the error for setting the minimum of a converter.
pub const MSG_SET_MIN: &'static str = "can't set value to min elem of `IntConverterNode`";

/// Message of the error for setting the maximum of a converter.
pub const MSG_SET_MAX: &'static str = "can't set value to max elem of `IntConverterNode`";

/// Message of the error for a converter whose value comes from a node that
/// holds no number and no truth value.
pub const MSG_P_VALUE: &'static str =
    "`pValue` elem of `IntConverterNode` doesn't implement `IInteger`/`IFloat`/`IBoolean`";

/// Which kinds of value a node holds.
#[derive(Clone, Copy, Debug, PartialEq, Eq, Structural)]
pub struct NodeInterfaces {
    pub integer: bool,
    pub float: bool,
    pub boolean: bool,
}

/// As which kind of value the result of a formula is written to a node.
#[derive(Clone, Copy, Debug, PartialEq, Eq, Structural)]
pub enum WriteAs {
    Integer,
    Float,
    Boolean,
}

/// A converter node for integers.
#[derive(Debug)]
pub struct IntConverterNode {
    pub attr_base: NodeAttributeBase,
    pub elem_base: NodeElementBase,
    pub streamable: bool,
    pub p_variables: Vec<NamedValue<NodeId>>,
    pub constants: Vec<NamedValue<i64>>,
    pub expressions: Vec<NamedValue<Expr>>,
    pub formula_to: Formula,
    pub formula_from: Formula,
    pub p_value: NodeId,
    pub unit: Option<String>,
    pub representation: IntegerRepresentation,
    pub slope: Slope,
}

impl IntConverterNode {
    #[must_use]
    pub fn node_base(&self) -> (base: NodeBase<'_>)
        ensures
            *base.attr == self.attr_base,
            *base.elem == self.elem_base,
    {
        NodeBase::new(&self.attr_base, &self.elem_base)
    }

    #[must_use]
    pub fn streamable(&self) -> (streamable: bool)
        ensures
            streamable == self.streamable,
    {
        self.streamable
    }

    #[must_use]
    pub fn p_variables(&self) -> (variables: &[NamedValue<NodeId>])
        ensures
            variables@ == self.p_variables@,
    {
        self.p_variables.as_slice()
    }

    #[must_use]
    pub fn constants(&self) -> (constants: &[NamedValue<i64>])
        ensures
            constants@ == self.constants@,
    {
        self.constants.as_slice()
    }

    #[must_use]
    pub fn expressions(&self) -> (expressions: &[NamedValue<Expr>])
        ensures
            expressions@ == self.expressions@,
    {
        self.expressions.as_slice()
    }

    #[must_use]
    pub fn formula_to(&self) -> (formula: &Formula)
        ensures
            *formula == self.formula_to,
    {
        &self.formula_to
    }

    #[must_use]
    pub fn formula_from(&self) -> (formula: &Formula)
        ensures
            *formula == self.formula_from,
    {
        &self.formula_from
    }

    #[must_use]
    pub fn p_value(&self) -> (id: NodeId)
        ensures
            id == self.p_value,
    {
        self.p_value
    }

    #[must_use]
    pub fn unit_elem(&self) -> (unit: Option<&str>)
        ensures
            match self.unit {
                Some(text) => unit matches Some(found) && found@ == text@,
                None => unit is None,
            },
    {
        match &self.unit {
            Some(unit) => Some(unit.as_str()),
            None => None,
        }
    }

    #[must_use]
    pub fn representation_elem(&self) -> (representation: IntegerRepresentation)
        ensures
            representation == self.representation,
    {
        self.representation
    }

    #[must_use]
    pub fn slope(&self) -> (slope: Slope)
        ensures
            slope == self.slope,
    {
        self.slope
    }

    /// The smallest value of the node: a converter does not bound its value.
    pub fn min(&self) -> (res: GenApiResult<i64>)
        ensures
            res == Ok::<i64, GenApiError>(i64::MIN),
    {
        Ok(i64::MIN)
    }

    /// The largest value of the node: a converter does not bound its value.
    pub fn max(&self) -> (res: GenApiResult<i64>)
        ensures
            res == Ok::<i64, GenApiError>(i64::MAX),
    {
        Ok(i64::MAX)
    }

    /// How the increment of the node is given: a converter has none.
    pub fn inc_mode(&self) -> (res: GenApiResult<Option<IncrementMode>>)
        ensures
            res == Ok::<Option<IncrementMode>, GenApiError>(None),
    {
        Ok(None)
    }

    /// The increment of the node: a converter has none.
    pub fn inc(&self) -> (res: GenApiResult<Option<i64>>)
        ensures
            res == Ok::<Option<i64>, GenApiError>(None),
    {
        Ok(None)
    }

    /// The values that the node may take, where they are listed: a converter
    /// lists none.
    pub fn valid_value_set(&self) -> (values: Vec<i64>)
        ensures
            values@.len() == 0,
    {
        Vec::new()
    }

    /// How the value of the node is meant to be shown.
    pub fn representation(&self) -> (representation: IntegerRepresentation)
        ensures
            representation == self.representation,
    {
        self.representation
    }

    /// Setting the minimum of a converter is refused.
    pub fn set_min(&self, _value: i64) -> (res: GenApiResult<()>)
        ensures
            res == Err::<(), GenApiError>(GenApiError::AccessDenied(MSG_SET_MIN)),
    {
        Err(GenApiError::AccessDenied(MSG_SET_MIN))
    }

    /// Setting the maximum of a converter is refused.
    pub fn set_max(&self, _value: i64) -> (res: GenApiResult<()>)
        ensures
            res == Err::<(), GenApiError>(GenApiError::AccessDenied(MSG_SET_MAX)),
    {
        Err(GenApiError::AccessDenied(MSG_SET_MAX))
    }

    /// As which kind of value the result of the formula is written to the
    /// node that the value comes from: as an integer where that node holds
    /// one, else as a floating-point number, else as a truth value. A node
    /// that holds none of them is no node to convert.
    pub fn write_target(interfaces: NodeInterfaces) -> (res: GenApiResult<WriteAs>)
        ensures
            res == (if interfaces.integer {
                Ok::<WriteAs, GenApiError>(WriteAs::Integer)
            } else if interfaces.float {
                Ok::<WriteAs, GenApiError>(WriteAs::Float)
            } else if interfaces.boolean {
                Ok::<WriteAs, GenApiError>(WriteAs::Boolean)
            } else {
                Err::<WriteAs, GenApiError>(GenApiError::InvalidNode(MSG_P_VALUE))
            }),
    {
        if interfaces.integer {
            Ok(WriteAs::Integer)
        } else if interfaces.float {
            Ok(WriteAs::Float)
        } else if interfaces.boolean {
            Ok(WriteAs::Boolean)
        } else {
            Err(GenApiError::InvalidNode(MSG_P_VALUE))
        }
    }
}

} // verus!
