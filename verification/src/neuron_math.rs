//! Integer helpers of the numeric kernel and the dispatch rules around it.

use crate::error::{NetworkError, ShapeFault};
use crate::text::{lowercase_of, str_equals, to_lowercase};
use vstd::prelude::*;

verus! {

/// The activation functions that can be asked for by name.
#[derive(Debug, Clone, Copy, PartialEq, Eq, Structural)]
pub enum Activation {
    Relu,
    Sigmoid,
    Tanh,
    Softmax,
}

impl Activation {
    /// The activation that an already lowercased name stands for, if any.
    pub open spec fn spec_from_lowercase(lowered: Seq<char>) -> Option<Activation> {
        if lowered == "relu"@ {
            Some(Activation::Relu)
        } else if lowered == "sigmoid"@ {
            Some(Activation::Sigmoid)
        } else if lowered == "tanh"@ {
            Some(Activation::Tanh)
        } else if lowered == "softmax"@ {
            Some(Activation::Softmax)
        } else {
            None
        }
    }

    /// The activation that a name in any letter case stands for, if any.
    pub open spec fn spec_parse(name: Seq<char>) -> Option<Activation> {
        Self::spec_from_lowercase(lowercase_of(name))
    }

    /// Matches an already lowercased name against the known activations.
    pub fn from_lowercase(lowered: &str) -> (activation: Option<Activation>)
        ensures
            activation == Self::spec_from_lowercase(lowered@),
    {
        if str_equals(lowered, "relu") {
            Some(Activation::Relu)
        } else if str_equals(lowered, "sigmoid") {
            Some(Activation::Sigmoid)
        } else if str_equals(lowered, "tanh") {
            Some(Activation::Tanh)
        } else if str_equals(lowered, "softmax") {
            Some(Activation::Softmax)
        } else {
            None
        }
    }

    /// Finds the activation that `name` asks for, in any letter case. A name
    /// that matches none is an error that carries the name as it was given;
    /// there is no fallback.
    pub fn parse(name: &str) -> (activation: Result<Activation, NetworkError>)
        ensures
            match activation {
                Ok(found) => Self::spec_parse(name@) == Some(found),
                Err(error) => {
                    &&& Self::spec_parse(name@) is None
                    &&& error matches NetworkError::UnsupportedActivation { name: given }
                    &&& given@ == name@
                },
            },
    {
        let lowered = to_lowercase(name);
        match Self::from_lowercase(lowered.as_str()) {
            Some(found) => Ok(found),
            None => Err(NetworkError::UnsupportedActivation { name: String::from_str(name) }),
        }
    }
}

/// Why the convolution output-size formula has no value.
#[derive(Debug, Clone, Copy, PartialEq, Eq, Structural)]
pub enum ConvSizeError {
    /// The stride is zero.
    ZeroStride,
    /// The kernel is larger than the padded input.
    KernelTooLarge,
    /// The result does not fit into a `u32`.
    Overflow,
}

/// The output size of a convolution along one axis:
/// `(input_size + 2 * padding - kernel_size) / stride + 1`.
pub open spec fn conv_output_size(input_size: int, kernel_size: int, stride: int, padding: int) -> int {
    (input_size + 2 * padding - kernel_size) / stride + 1
}

/// Stateless handle for the numeric helpers.
pub struct NeuronMath;

impl NeuronMath {
    pub fn new() -> (math: Self)
        ensures
            math == NeuronMath,
    {
        NeuronMath
    }

    /// Evaluates the convolution output-size formula. The stride must be
    /// non-zero, the kernel must fit into the padded input, and the result
    /// must fit into a `u32`.
    pub fn calculate_conv_output_size(
        &self,
        input_size: u32,
        kernel_size: u32,
        stride: u32,
        padding: u32,
    ) -> (size: u32)
        requires
            stride != 0,
            kernel_size <= input_size + 2 * padding,
            conv_output_size(input_size as int, kernel_size as int, stride as int, padding as int)
                <= u32::MAX,
        ensures
            size == conv_output_size(
                input_size as int,
                kernel_size as int,
                stride as int,
                padding as int,
            ),
    {
        let padded: u64 = input_size as u64 + 2 * (padding as u64);
        let span: u64 = padded - kernel_size as u64;
        let steps: u64 = span / (stride as u64);
        (steps + 1) as u32
    }

    /// Evaluates the convolution output-size formula for any arguments, and
    /// says why where it has no value: a zero stride is reported first, then
    /// a kernel larger than the padded input, then a result beyond `u32`.
    pub fn try_conv_output_size(
        &self,
        input_size: u32,
        kernel_size: u32,
        stride: u32,
        padding: u32,
    ) -> (size: Result<u32, ConvSizeError>)
        ensures
            size == (if stride == 0 {
                Err::<u32, ConvSizeError>(ConvSizeError::ZeroStride)
            } else if kernel_size > input_size + 2 * padding {
                Err(ConvSizeError::KernelTooLarge)
            } else if conv_output_size(
                input_size as int,
                kernel_size as int,
                stride as int,
                padding as int,
            ) > u32::MAX {
                Err(ConvSizeError::Overflow)
            } else {
                Ok(
                    conv_output_size(
                        input_size as int,
                        kernel_size as int,
                        stride as int,
                        padding as int,
                    ) as u32,
                )
            }),
    {
        if stride == 0 {
            return Err(ConvSizeError::ZeroStride);
        }
        let padded: u64 = input_size as u64 + 2 * (padding as u64);
        if kernel_size as u64 > padded {
            return Err(ConvSizeError::KernelTooLarge);
        }
        let steps: u64 = (padded - kernel_size as u64) / (stride as u64);
        if steps >= u32::MAX as u64 {
            return Err(ConvSizeError::Overflow);
        }
        Ok(self.calculate_conv_output_size(input_size, kernel_size, stride, padding))
    }

    /// The shape of the product of two matrices given as rows: `Ok` with the
    /// row count of `a` and the column count of `b` where both have rows and
    /// the first row of `a` is as long as `b` has rows. The column counts
    /// are read off the first rows.
    pub fn product_shape<T>(&self, a: &[Vec<T>], b: &[Vec<T>]) -> (shape: Result<
        (usize, usize),
        NetworkError,
    >)
        ensures
            match shape {
                Ok((rows, cols)) => {
                    &&& a@.len() > 0
                    &&& b@.len() > 0
                    &&& a@[0]@.len() == b@.len()
                    &&& rows == a@.len()
                    &&& cols == b@[0]@.len()
                },
                Err(error) => if a@.len() == 0 || b@.len() == 0 {
                    error == (NetworkError::IncompatibleDimensions {
                        fault: ShapeFault::EmptyOperand,
                    })
                } else {
                    &&& a@[0]@.len() != b@.len()
                    &&& error == (NetworkError::IncompatibleDimensions {
                        fault: ShapeFault::InnerMismatch,
                    })
                },
            },
    {
        if a.len() == 0 || b.len() == 0 {
            return Err(NetworkError::IncompatibleDimensions { fault: ShapeFault::EmptyOperand });
        }
        let rows_a = a.len();
        let cols_a = a[0].len();
        let rows_b = b.len();
        let cols_b = b[0].len();
        if cols_a != rows_b {
            return Err(NetworkError::IncompatibleDimensions { fault: ShapeFault::InnerMismatch });
        }
        Ok((rows_a, cols_b))
    }
}

} // verus!
