//! The abstract syntax tree of the filter expression language.

use vstd::prelude::*;

verus! {

/// A binary operator of the filter language: the two logical combinators
/// and the six comparisons.
#[derive(Clone, Copy, PartialEq, Eq, Structural, Debug)]
pub enum Operator {
    /// Logical conjunction, rendered `AND`.
    And,
    /// Logical disjunction, rendered `OR`.
    Or,
    /// Equality, rendered `==`.
    Eq,
    /// Inequality, rendered `!=`.
    Neq,
    /// Strictly below, rendered `<`.
    Le,
    /// At most, rendered `<=`.
    Leq,
    /// Strictly above, rendered `>`.
    Ge,
    /// At least, rendered `>=`.
    Geq,
}

impl Operator {
    /// True of `And` and `Or`.
    pub open spec fn spec_is_logical(self) -> bool {
        self == Operator::And || self == Operator::Or
    }

    /// True of the six comparison operators.
    pub open spec fn spec_is_comparison(self) -> bool {
        !self.spec_is_logical()
    }

    /// The storage-dialect rendering of each operator.
    pub open spec fn spec_sql_str(self) -> Seq<char> {
        match self {
            Operator::And => "AND"@,
            Operator::Or => "OR"@,
            Operator::Eq => "=="@,
            Operator::Neq => "!="@,
            Operator::Le => "<"@,
            Operator::Leq => "<="@,
            Operator::Ge => ">"@,
            Operator::Geq => ">="@,
        }
    }

    /// The storage-dialect rendering of the operator.
    pub fn sql_str(self) -> (r: &'static str)
        ensures
            r@ == self.spec_sql_str(),
    {
        match self {
            Operator::And => "AND",
            Operator::Or => "OR",
            Operator::Eq => "==",
            Operator::Neq => "!=",
            Operator::Le => "<",
            Operator::Leq => "<=",
            Operator::Ge => ">",
            Operator::Geq => ">=",
        }
    }

    /// The binding strength of the operator when used infix: comparisons
    /// bind tighter than `and`, which binds tighter than `or`.
    pub open spec fn spec_precedence(self) -> int {
        if self == Operator::Or {
            1
        } else if self == Operator::And {
            2
        } else {
            3
        }
    }

    /// The binding strength of the operator.
    pub fn precedence(self) -> (r: u32)
        ensures
            r == self.spec_precedence(),
    {
        match self {
            Operator::Or => 1,
            Operator::And => 2,
            _ => 3,
        }
    }
}

/// The mathematical model of a filter expression: the same tree as
/// [`AstNode`], with text carried as character sequences.
pub enum SpecAst {
    /// A boolean combination of two subtrees.
    LogicalFilter { lhs: Box<SpecAst>, op: Operator, rhs: Box<SpecAst> },
    /// A comparison of a column against a literal.
    ComparativeFilter { column: Seq<char>, op: Operator, value: Box<SpecAst> },
    /// A bare column name.
    Identifier(Seq<char>),
    /// A string literal, quotes already stripped.
    StringLit(Seq<char>),
    /// An integer literal.
    Integer(i32),
    /// A float literal, kept as its source text.
    Float(Seq<char>),
    /// A boolean literal.
    Bool(bool),
}

impl SpecAst {
    /// True of the nodes that denote a boolean-producing filter.
    pub open spec fn is_filter(self) -> bool {
        self is LogicalFilter || self is ComparativeFilter
    }

    /// True of the literal nodes that may stand on the right of a
    /// comparison.
    pub open spec fn is_literal(self) -> bool {
        self is StringLit || self is Integer || self is Float || self is Bool
    }

    /// Well-formedness: a logical node combines two filters with a logical
    /// operator, and a comparative node compares a column against a literal
    /// with a comparison operator.
    pub open spec fn wf(self) -> bool
        decreases self,
    {
        match self {
            SpecAst::LogicalFilter { lhs, op, rhs } => {
                &&& op.spec_is_logical()
                &&& lhs.is_filter()
                &&& rhs.is_filter()
                &&& lhs.wf()
                &&& rhs.wf()
            },
            SpecAst::ComparativeFilter { column, op, value } => {
                &&& op.spec_is_comparison()
                &&& value.is_literal()
            },
            _ => true,
        }
    }
}

/// A node of a parsed filter expression. A filter string is parsed into one
/// such tree, compiled into a predicate string, and discarded; the tree is
/// never mutated.
#[derive(PartialEq, Debug)]
pub enum AstNode {
    /// A boolean combination of two subtrees.
    LogicalFilter {
        /// The left operand.
        lhs: Box<AstNode>,
        /// `And` or `Or`.
        op: Operator,
        /// The right operand.
        rhs: Box<AstNode>,
    },
    /// A comparison of a column against a literal.
    ComparativeFilter {
        /// The column name.
        column: String,
        /// One of the six comparison operators.
        op: Operator,
        /// The literal compared against.
        value: Box<AstNode>,
    },
    /// A bare column name.
    Identifier(String),
    /// A string literal, quotes already stripped.
    StringLit(String),
    /// An integer literal.
    Integer(i32),
    /// A float literal, kept as its source text.
    Float(String),
    /// A boolean literal.
    Bool(bool),
}

impl AstNode {
    /// The mathematical model of the tree, with text as character
    /// sequences: the node's view.
    pub open spec fn deep(&self) -> SpecAst
        decreases self,
    {
        match self {
            AstNode::LogicalFilter { lhs, op, rhs } => SpecAst::LogicalFilter {
                lhs: Box::new(lhs.deep()),
                op: *op,
                rhs: Box::new(rhs.deep()),
            },
            AstNode::ComparativeFilter { column, op, value } => SpecAst::ComparativeFilter {
                column: column@,
                op: *op,
                value: Box::new(value.deep()),
            },
            AstNode::Identifier(i) => SpecAst::Identifier(i@),
            AstNode::StringLit(s) => SpecAst::StringLit(s@),
            AstNode::Integer(i) => SpecAst::Integer(*i),
            AstNode::Float(f) => SpecAst::Float(f@),
            AstNode::Bool(b) => SpecAst::Bool(*b),
        }
    }
}

impl View for AstNode {
    type V = SpecAst;

    open spec fn view(&self) -> SpecAst {
        self.deep()
    }
}

impl Clone for AstNode {
    /// A deep copy: the copy has the same view as the original.
    fn clone(&self) -> (r: AstNode)
        ensures
            r@ == self@,
        decreases self,
    {
        match self {
            AstNode::LogicalFilter { lhs, op, rhs } => AstNode::LogicalFilter {
                lhs: Box::new((**lhs).clone()),
                op: *op,
                rhs: Box::new((**rhs).clone()),
            },
            AstNode::ComparativeFilter { column, op, value } => AstNode::ComparativeFilter {
                column: column.clone(),
                op: *op,
                value: Box::new((**value).clone()),
            },
            AstNode::Identifier(i) => AstNode::Identifier(i.clone()),
            AstNode::StringLit(s) => AstNode::StringLit(s.clone()),
            AstNode::Integer(i) => AstNode::Integer(*i),
            AstNode::Float(f) => AstNode::Float(f.clone()),
            AstNode::Bool(b) => AstNode::Bool(*b),
        }
    }
}

impl AstNode {
    /// A logical node combining `lhs` and `rhs` with `op`.
    pub fn logical_filter(lhs: AstNode, op: Operator, rhs: AstNode) -> (r: AstNode)
        ensures
            r@ == (SpecAst::LogicalFilter { lhs: Box::new(lhs@), op, rhs: Box::new(rhs@) }),
    {
        AstNode::LogicalFilter { lhs: Box::new(lhs), op, rhs: Box::new(rhs) }
    }

    /// A comparative node comparing `column` against `value` with `op`.
    pub fn comparative_filter(column: &str, op: Operator, value: AstNode) -> (r: AstNode)
        ensures
            r@ == (SpecAst::ComparativeFilter { column: column@, op, value: Box::new(value@) }),
    {
        AstNode::ComparativeFilter { column: column.to_owned(), op, value: Box::new(value) }
    }

    /// An identifier node.
    pub fn identifier(i: &str) -> (r: AstNode)
        ensures
            r@ == SpecAst::Identifier(i@),
    {
        AstNode::Identifier(i.to_owned())
    }

    /// A string literal node.
    pub fn string(i: &str) -> (r: AstNode)
        ensures
            r@ == SpecAst::StringLit(i@),
    {
        AstNode::StringLit(i.to_owned())
    }

    /// An integer literal node.
    pub fn integer(i: i32) -> (r: AstNode)
        ensures
            r@ == SpecAst::Integer(i),
    {
        AstNode::Integer(i)
    }

    /// A float literal node carrying its source text.
    pub fn float(f: &str) -> (r: AstNode)
        ensures
            r@ == SpecAst::Float(f@),
    {
        AstNode::Float(f.to_owned())
    }

    /// A boolean literal node.
    pub fn bool(b: bool) -> (r: AstNode)
        ensures
            r@ == SpecAst::Bool(b),
    {
        AstNode::Bool(b)
    }
}

} // verus!
