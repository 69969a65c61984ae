//! The configuration that the handlers of a server share.

use serde_json::Value;
use std::sync::Arc;
use vstd::prelude::*;

verus! {

struct Inner<L, P> {
    version: Option<String>,
    layout: L,
    shared_props: Vec<P>,
}

/// The asset version, the layout and the sources of shared props of a
/// server. It is made once; its clones share one value.
pub struct InertiaConfig<L, P> {
    inner: Arc<Inner<L, P>>,
}

/// `Arc::clone`: another pointer to the same value.
#[verifier::external_body]
fn share<T>(shared: &Arc<T>) -> (other: Arc<T>)
    ensures
        other == *shared,
{
    Arc::clone(shared)
}

impl<L, P> Clone for InertiaConfig<L, P> {
    /// A configuration that shares this one's value.
    fn clone(&self) -> (copy: InertiaConfig<L, P>)
        ensures
            copy@ == self@,
    {
        InertiaConfig { inner: share(&self.inner) }
    }
}

/// A configuration as plain values.
pub struct InertiaConfigView<L, P> {
    pub version: Option<Seq<char>>,
    pub layout: L,
    pub shared_props: Seq<P>,
}

impl<L, P> View for InertiaConfig<L, P> {
    type V = InertiaConfigView<L, P>;

    closed spec fn view(&self) -> InertiaConfigView<L, P> {
        InertiaConfigView {
            version: self.inner.version.deep_view(),
            layout: self.inner.layout,
            shared_props: self.inner.shared_props@,
        }
    }
}

impl<L: Fn(String) -> String, P: Fn() -> Value> InertiaConfig<L, P> {
    /// The configuration of a server with the given asset version, or none,
    /// that renders first visits with `layout` and adds to every page what
    /// the functions in `shared_props` give.
    pub fn new(version: Option<String>, layout: L, shared_props: Vec<P>) -> (config: InertiaConfig<
        L,
        P,
    >)
        ensures
            config@ == (InertiaConfigView {
                version: version.deep_view(),
                layout,
                shared_props: shared_props@,
            }),
    {
        let inner = Inner { version, layout, shared_props };
        InertiaConfig { inner: Arc::new(inner) }
    }

    /// A copy of the asset version.
    pub fn version(&self) -> (version: Option<String>)
        ensures
            version.deep_view() == self@.version,
    {
        self.inner.version.clone()
    }

    /// The layout.
    pub fn layout(&self) -> (layout: &L)
        ensures
            *layout == self@.layout,
    {
        &self.inner.layout
    }

    /// The sources of shared props, in the order in which they were given.
    pub fn shared_props(&self) -> (shared_props: &Vec<P>)
        ensures
            shared_props@ == self@.shared_props,
    {
        &self.inner.shared_props
    }
}

} // verus!
