//! The failures that the core reports, and their messages.

use crate::text::{decimal, push_decimal};
use vstd::prelude::*;

verus! {

/// Why two matrices have no product.
#[derive(Debug, Clone, Copy, PartialEq, Eq, Structural)]
pub enum ShapeFault {
    /// One of the operands has no rows.
    EmptyOperand,
    /// The left operand's column count differs from the right one's row count.
    InnerMismatch,
}

/// A failure of the core, returned to the caller as a value.
#[derive(Debug, Clone, PartialEq, Eq)]
pub enum NetworkError {
    /// The document is not JSON of the expected shape; `diagnostic` is the
    /// parser's own message.
    Schema { diagnostic: String },
    /// The layer at `index` (zero-based) has an empty type.
    Validation { index: usize },
    /// The operands of a matrix product do not fit together.
    IncompatibleDimensions { fault: ShapeFault },
    /// No activation function goes by `name`.
    UnsupportedActivation { name: String },
}

impl NetworkError {
    /// The message that describes the failure.
    pub open spec fn message_text(&self) -> Seq<char> {
        match self {
            NetworkError::Schema { diagnostic } => "JSON parsing error: "@ + diagnostic@,
            NetworkError::Validation { index } => "Layer "@ + decimal(*index as nat)
                + " has empty type"@,
            NetworkError::IncompatibleDimensions { fault } => match fault {
                ShapeFault::EmptyOperand => "Empty matrices"@,
                ShapeFault::InnerMismatch => "Incompatible matrix dimensions"@,
            },
            NetworkError::UnsupportedActivation { name } => "Unsupported activation function: "@
                + name@,
        }
    }

    /// Builds the message that describes the failure.
    pub fn message(&self) -> (text: String)
        ensures
            text@ == self.message_text(),
    {
        let mut text = String::new();
        match self {
            NetworkError::Schema { diagnostic } => {
                text.append("JSON parsing error: ");
                text.append(diagnostic.as_str());
            },
            NetworkError::Validation { index } => {
                text.append("Layer ");
                push_decimal(&mut text, *index as u128);
                text.append(" has empty type");
            },
            NetworkError::IncompatibleDimensions { fault } => match fault {
                ShapeFault::EmptyOperand => {
                    text.append("Empty matrices");
                },
                ShapeFault::InnerMismatch => {
                    text.append("Incompatible matrix dimensions");
                },
            },
            NetworkError::UnsupportedActivation { name } => {
                text.append("Unsupported activation function: ");
                text.append(name.as_str());
            },
        }
        assert(text@ =~= self.message_text());
        text
    }
}

} // verus!
