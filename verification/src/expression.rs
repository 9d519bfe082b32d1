//! The arithmetic in which a ledger writes a number.

use vstd::prelude::*;
use crate::decimal::{
    checked_difference, checked_product, checked_quotient, checked_sum, decimal_difference,
    decimal_product, decimal_quotient, decimal_sum, Decimal,
};

verus! {

/// One of the four operations of arithmetic.
#[derive(Clone, Copy, Debug, PartialEq, Eq, Structural)]
pub enum Operator {
    Divide,
    Multiply,
    Add,
    Subtract,
}

/// A number as a ledger writes it: plainly, or as arithmetic on other numbers.
#[derive(Debug, PartialEq, Eq)]
pub enum NumberExpression {
    /// A number written out.
    Value(Decimal),
    /// An operator between a left and a right operand.
    Operation(Operator, Box<NumberExpression>, Box<NumberExpression>),
    /// Anything else: a form of expression that has no value here.
    Unsupported,
}

impl Operator {
    /// The outcome of this operation on two numbers in decimal arithmetic,
    /// `None` where it has none: on overflow, and on division by zero.
    pub open spec fn outcome(self, left: Decimal, right: Decimal) -> Option<Decimal> {
        match self {
            Operator::Divide => decimal_quotient(left, right),
            Operator::Multiply => decimal_product(left, right),
            Operator::Add => decimal_sum(left, right),
            Operator::Subtract => decimal_difference(left, right),
        }
    }

    /// Carries this operation out on two numbers.
    pub fn apply(self, left: Decimal, right: Decimal) -> (outcome: Option<Decimal>)
        ensures
            outcome == self.outcome(left, right),
    {
        match self {
            Operator::Divide => checked_quotient(left, right),
            Operator::Multiply => checked_product(left, right),
            Operator::Add => checked_sum(left, right),
            Operator::Subtract => checked_difference(left, right),
        }
    }
}

impl NumberExpression {
    /// The number this expression stands for: a written number is itself, an
    /// operation is its operator applied to what its operands stand for.
    /// `None` where an operand has no value or the operation has no outcome.
    pub open spec fn value(self) -> Option<Decimal>
        decreases self,
    {
        match self {
            NumberExpression::Value(number) => Some(number),
            NumberExpression::Operation(operator, left, right) => match (
                left.value(),
                right.value(),
            ) {
                (Some(a), Some(b)) => operator.outcome(a, b),
                _ => None,
            },
            NumberExpression::Unsupported => None,
        }
    }

    /// Works out the number this expression stands for.
    pub fn evaluate(&self) -> (number: Option<Decimal>)
        ensures
            number == self.value(),
        decreases self,
    {
        match self {
            NumberExpression::Value(number) => Some(*number),
            NumberExpression::Operation(operator, left, right) => {
                let a = left.evaluate();
                let b = right.evaluate();
                match (a, b) {
                    (Some(a), Some(b)) => operator.apply(a, b),
                    _ => None,
                }
            },
            NumberExpression::Unsupported => None,
        }
    }
}

} // verus!
