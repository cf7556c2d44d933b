//! The descriptive contract an extension author implements: the identity
//! the runtime reads when it builds a registration. The asynchronous
//! lifecycle callbacks (initialize, shutdown) are driven outside the
//! library, which only decides when they run.

use vstd::prelude::*;
use vstd::pervasive::arbitrary;
use crate::dependency::ExtensionDependency;

verus! {

/// An out-of-process unit of host-delegated behaviour. Each accessor
/// reports the value named by its specification function, so that the
/// runtime's contracts can speak about the identity it was handed. The
/// specification functions default to an unspecified value: an implementor
/// that wants its accessors verified overrides them.
pub trait Extension {
    open spec fn spec_name(&self) -> Seq<char> {
        arbitrary()
    }

    open spec fn spec_unique_id(&self) -> Seq<char> {
        arbitrary()
    }

    open spec fn spec_version(&self) -> Seq<char> {
        arbitrary()
    }

    open spec fn spec_opensearch_version(&self) -> Seq<char> {
        arbitrary()
    }

    fn name(&self) -> (r: &str)
        ensures
            r@ == self.spec_name(),
    ;

    fn unique_id(&self) -> (r: &str)
        ensures
            r@ == self.spec_unique_id(),
    ;

    fn version(&self) -> (r: &str)
        ensures
            r@ == self.spec_version(),
    ;

    fn opensearch_version(&self) -> (r: &str)
        ensures
            r@ == self.spec_opensearch_version(),
    ;

    /// The Java version the extension reports to the host; "11" unless
    /// overridden.
    fn java_version(&self) -> (r: &str) {
        "11"
    }

    /// The extensions this one depends on; none unless overridden.
    fn dependencies(&self) -> (r: Vec<ExtensionDependency>) {
        Vec::new()
    }
}

} // verus!
