//! The coloring interface a disassembly printer draws from.
//!
//! Each method names a syntactic role — an arithmetic mnemonic, a
//! register, an address — and wraps a piece of text for output in that
//! role. The one palette here, [`NoColors`], colors nothing; richer
//! palettes live with the presentation layer.

use vstd::prelude::*;

verus! {

/// Relies on `core::fmt::Error`: the error type that formatting
/// interfaces report, carried through unchanged by the traits declared
/// here.
#[verifier::external_type_specification]
#[verifier::external_body]
pub struct ExFmtError(core::fmt::Error);

/// A piece of text on its way to output. Without a color scheme every
/// piece is the bare text.
pub enum Colored<T> {
    Just(T),
}

/// The palette a disassembly printer draws from: one method per syntactic
/// role, each wrapping the given text for output in that role.
pub trait YaxColors {
    fn arithmetic_op<T>(&self, t: T) -> Colored<T>;

    fn stack_op<T>(&self, t: T) -> Colored<T>;

    fn nop_op<T>(&self, t: T) -> Colored<T>;

    fn stop_op<T>(&self, t: T) -> Colored<T>;

    fn control_flow_op<T>(&self, t: T) -> Colored<T>;

    fn data_op<T>(&self, t: T) -> Colored<T>;

    fn comparison_op<T>(&self, t: T) -> Colored<T>;

    fn invalid_op<T>(&self, t: T) -> Colored<T>;

    fn platform_op<T>(&self, t: T) -> Colored<T>;

    fn misc_op<T>(&self, t: T) -> Colored<T>;

    fn register<T>(&self, t: T) -> Colored<T>;

    fn program_counter<T>(&self, t: T) -> Colored<T>;

    fn number<T>(&self, t: T) -> Colored<T>;

    fn zero<T>(&self, t: T) -> Colored<T>;

    fn one<T>(&self, t: T) -> Colored<T>;

    fn minus_one<T>(&self, t: T) -> Colored<T>;

    fn address<T>(&self, t: T) -> Colored<T>;

    fn symbol<T>(&self, t: T) -> Colored<T>;

    fn function<T>(&self, t: T) -> Colored<T>;
}

/// The palette that colors nothing: every role yields the bare text.
pub struct NoColors;

impl YaxColors for NoColors {
    fn arithmetic_op<T>(&self, t: T) -> (r: Colored<T>)
        ensures
            r == Colored::Just(t),
    {
        Colored::Just(t)
    }

    fn stack_op<T>(&self, t: T) -> (r: Colored<T>)
        ensures
            r == Colored::Just(t),
    {
        Colored::Just(t)
    }

    fn nop_op<T>(&self, t: T) -> (r: Colored<T>)
        ensures
            r == Colored::Just(t),
    {
        Colored::Just(t)
    }

    fn stop_op<T>(&self, t: T) -> (r: Colored<T>)
        ensures
            r == Colored::Just(t),
    {
        Colored::Just(t)
    }

    fn control_flow_op<T>(&self, t: T) -> (r: Colored<T>)
        ensures
            r == Colored::Just(t),
    {
        Colored::Just(t)
    }

    fn data_op<T>(&self, t: T) -> (r: Colored<T>)
        ensures
            r == Colored::Just(t),
    {
        Colored::Just(t)
    }

    fn comparison_op<T>(&self, t: T) -> (r: Colored<T>)
        ensures
            r == Colored::Just(t),
    {
        Colored::Just(t)
    }

    fn invalid_op<T>(&self, t: T) -> (r: Colored<T>)
        ensures
            r == Colored::Just(t),
    {
        Colored::Just(t)
    }

    fn platform_op<T>(&self, t: T) -> (r: Colored<T>)
        ensures
            r == Colored::Just(t),
    {
        Colored::Just(t)
    }

    fn misc_op<T>(&self, t: T) -> (r: Colored<T>)
        ensures
            r == Colored::Just(t),
    {
        Colored::Just(t)
    }

    fn register<T>(&self, t: T) -> (r: Colored<T>)
        ensures
            r == Colored::Just(t),
    {
        Colored::Just(t)
    }

    fn program_counter<T>(&self, t: T) -> (r: Colored<T>)
        ensures
            r == Colored::Just(t),
    {
        Colored::Just(t)
    }

    fn number<T>(&self, t: T) -> (r: Colored<T>)
        ensures
            r == Colored::Just(t),
    {
        Colored::Just(t)
    }

    fn zero<T>(&self, t: T) -> (r: Colored<T>)
        ensures
            r == Colored::Just(t),
    {
        Colored::Just(t)
    }

    fn one<T>(&self, t: T) -> (r: Colored<T>)
        ensures
            r == Colored::Just(t),
    {
        Colored::Just(t)
    }

    fn minus_one<T>(&self, t: T) -> (r: Colored<T>)
        ensures
            r == Colored::Just(t),
    {
        Colored::Just(t)
    }

    fn address<T>(&self, t: T) -> (r: Colored<T>)
        ensures
            r == Colored::Just(t),
    {
        Colored::Just(t)
    }

    fn symbol<T>(&self, t: T) -> (r: Colored<T>)
        ensures
            r == Colored::Just(t),
    {
        Colored::Just(t)
    }

    fn function<T>(&self, t: T) -> (r: Colored<T>)
        ensures
            r == Colored::Just(t),
    {
        Colored::Just(t)
    }
}

/// Writing a value into `out`, colored by `Y`.
pub trait Colorize<T, Y: YaxColors + ?Sized> {
    fn colorize(&self, colors: &Y, out: &mut T) -> Result<(), core::fmt::Error>;
}

} // verus!
