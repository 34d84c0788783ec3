//! The identity/location capability shared by every node kind, and the
//! inferred-type capability shared by every expression kind.
//!
//! Every node kind, every union over node kinds, and every wrapper around
//! one (a boxed node, a generic handle) exposes its identifier and its
//! source location through [`NodeTrait`]; wrappers forward to the held
//! value. Expression kinds additionally expose the externally inferred
//! canonical type string through [`ExpressionTrait`], which may be absent
//! when the compiler could not infer one.

use vstd::prelude::*;

use crate::location::SourceLocation;

verus! {

/// Identity and location, exposed uniformly by every node kind.
pub trait NodeTrait {
    /// The node's identifier, unique within one decoded source unit.
    spec fn spec_id(&self) -> usize;

    /// The node's source location.
    spec fn spec_src(&self) -> SourceLocation;

    /// The identifier and location together.
    fn node_data(&self) -> (r: (usize, SourceLocation))
        ensures
            r == (self.spec_id(), self.spec_src()),
    ;

    /// The node's identifier.
    fn id(&self) -> (r: usize)
        ensures
            r == self.spec_id(),
    ;

    /// The node's source location.
    fn src(&self) -> (r: SourceLocation)
        ensures
            r == self.spec_src(),
    ;
}

impl<T: NodeTrait> NodeTrait for Box<T> {
    open spec fn spec_id(&self) -> usize {
        (**self).spec_id()
    }

    open spec fn spec_src(&self) -> SourceLocation {
        (**self).spec_src()
    }

    fn node_data(&self) -> (r: (usize, SourceLocation)) {
        (&**self).node_data()
    }

    fn id(&self) -> (r: usize) {
        (&**self).id()
    }

    fn src(&self) -> (r: SourceLocation) {
        (&**self).src()
    }
}

/// The externally inferred canonical type string of an expression, absent
/// when the compiler could not infer one.
pub trait ExpressionTrait {
    /// The inferred canonical type string, if any.
    spec fn spec_type(&self) -> Option<String>;

    /// A borrow of the inferred canonical type string, if any.
    fn get_type(&self) -> (r: &Option<String>)
        ensures
            *r == self.spec_type(),
    ;
}

impl<T: ExpressionTrait> ExpressionTrait for Box<T> {
    open spec fn spec_type(&self) -> Option<String> {
        (**self).spec_type()
    }

    fn get_type(&self) -> (r: &Option<String>) {
        (&**self).get_type()
    }
}

} // verus!
