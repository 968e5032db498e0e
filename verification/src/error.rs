//! Compilation failures.
//!
//! Every failure of the lowering pass is fatal: no partial output is
//! returned, and no default is substituted.

use vstd::prelude::*;
use crate::ast::Discriminant;

verus! {

/// The ways lowering a widget tree can fail.
#[derive(Clone, PartialEq, Eq, Debug)]
pub enum CompileError {
    /// The same attachment-point discriminant, named or default, was declared
    /// twice in one tree.
    DuplicateContainerDiscriminant(Discriminant),
    /// A named attachment point exists but no default attachment point does.
    MissingDefaultContainer,
    /// A binding with a `ReturnValue` or `ComputedReturn` policy was declared
    /// on a Composed widget, which only supports message-feeding bindings.
    UnsupportedEventShape { widget: String, event_name: String },
    /// The compilation context was read before a root widget was recorded.
    MissingRoot,
}

} // verus!
