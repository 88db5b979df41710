//! Feature objects: the root object a plugin built, bound to the library that
//! holds its code, with borrowed and owned views whose optional interfaces
//! are reached only through a capability query.
use vstd::prelude::*;

use std::sync::Arc;

use crate::api_traits::{Loadable, PluginInner};
use crate::headers::{bit_mask, FeatureSupport};

verus! {

/// Relies on `Clone for Arc`: the clone points to the same allocation.
#[verifier::external_body]
fn share_arc<L>(a: &Arc<L>) -> (r: Arc<L>)
    ensures
        r == *a,
{
    Arc::clone(a)
}

/// A shared handle on an opened library. Every object whose code lives in the
/// library holds one; the library is closed when the last handle is dropped.
pub struct LibraryHandle<L> {
    library: Arc<L>,
}

impl<L> LibraryHandle<L> {
    /// The library this handle keeps open.
    pub closed spec fn spec_library(&self) -> L {
        *self.library
    }

    /// Takes the first handle on a freshly opened library.
    pub fn new(library: L) -> (r: LibraryHandle<L>)
        ensures
            r.spec_library() == library,
    {
        LibraryHandle { library: Arc::new(library) }
    }

    /// One more handle on the same library.
    pub fn share(&self) -> (r: LibraryHandle<L>)
        ensures
            r.spec_library() == self.spec_library(),
    {
        LibraryHandle { library: share_arc(&self.library) }
    }

    /// The library itself.
    pub fn library(&self) -> (r: &L)
        ensures
            *r == self.spec_library(),
    {
        &*self.library
    }
}

/// A query for `requested` on an object with capabilities `granted` succeeds:
/// every requested bit is granted.
pub open spec fn grants(granted: FeatureSupport, requested: FeatureSupport) -> bool {
    requested@.subset_of(granted@)
}

/// The loaded plugin: its root object, the capabilities its header declared,
/// and a handle on its library.
pub struct PluginBox<R, L> {
    root: R,
    capabilities: FeatureSupport,
    library: LibraryHandle<L>,
}

impl<R: PluginInner, L> PluginBox<R, L> {
    pub closed spec fn spec_root(&self) -> R {
        self.root
    }

    pub closed spec fn spec_capabilities(&self) -> FeatureSupport {
        self.capabilities
    }

    pub closed spec fn spec_library(&self) -> L {
        self.library.spec_library()
    }

    /// Binds a root object to the capabilities declared for it and to its library.
    pub fn new(root: R, capabilities: FeatureSupport, library: LibraryHandle<L>) -> (r: PluginBox<R, L>)
        ensures
            r.spec_root() == root,
            r.spec_capabilities() == capabilities,
            r.spec_library() == library.spec_library(),
    {
        PluginBox { root, capabilities, library }
    }

    /// The declared capability bits.
    pub fn capabilities(&self) -> (r: u8)
        ensures
            r == self.spec_capabilities().spec_bits(),
    {
        self.capabilities.bits()
    }

    /// A view of the features for the length of the borrow.
    pub fn borrow_features(&mut self) -> (r: BorrowedFeatures<'_, R::Features>)
        ensures
            r.spec_capabilities() == old(self).spec_capabilities(),
            final(self).spec_capabilities() == old(self).spec_capabilities(),
            final(self).spec_library() == old(self).spec_library(),
    {
        BorrowedFeatures { features: self.root.borrow_features(), capabilities: self.capabilities }
    }

    /// The features moved out, with their own handle on the library.
    pub fn into_features(self) -> (r: OwnedFeatures<R::Features, L>)
        ensures
            r.spec_capabilities() == self.spec_capabilities(),
            r.spec_library() == self.spec_library(),
            call_ensures(R::into_features, (self.spec_root(),), r.spec_features()),
    {
        let PluginBox { root, capabilities, library } = self;
        OwnedFeatures { features: root.into_features(), capabilities, library }
    }
}

/// Features borrowed from a loaded plugin.
pub struct BorrowedFeatures<'a, F> {
    features: &'a mut F,
    capabilities: FeatureSupport,
}

impl<'a, F: Loadable> BorrowedFeatures<'a, F> {
    pub closed spec fn spec_capabilities(&self) -> FeatureSupport {
        self.capabilities
    }

    /// The features as they stand.
    pub closed spec fn spec_features(&self) -> F {
        *self.features
    }

    /// The plugin's name, as its mandatory interface gives it.
    pub fn name(&self) -> (r: String)
        ensures
            call_ensures(F::name, (&self.spec_features(),), r),
    {
        self.features.name()
    }

    /// The declared capability bits.
    pub fn capabilities(&self) -> (r: u8)
        ensures
            r == self.spec_capabilities().spec_bits(),
    {
        self.capabilities.bits()
    }

    /// The features, typed for every interface in `requested`, or nothing
    /// when one of them was not declared.
    pub fn as_mut(&mut self, requested: FeatureSupport) -> (r: Option<&mut F>)
        ensures
            r.is_some() <==> grants(old(self).spec_capabilities(), requested),
            final(self).spec_capabilities() == old(self).spec_capabilities(),
            r matches Some(v) ==> *v == old(self).spec_features() && final(self).spec_features() == *final(v),
            r is None ==> final(self).spec_features() == old(self).spec_features(),
    {
        if self.capabilities.contains(requested) {
            Some(&mut *self.features)
        } else {
            None
        }
    }
}

/// Features moved out of a loaded plugin; they keep the library open.
pub struct OwnedFeatures<F, L> {
    features: F,
    capabilities: FeatureSupport,
    library: LibraryHandle<L>,
}

impl<F: Loadable, L> OwnedFeatures<F, L> {
    pub closed spec fn spec_capabilities(&self) -> FeatureSupport {
        self.capabilities
    }

    pub closed spec fn spec_library(&self) -> L {
        self.library.spec_library()
    }

    /// The features as they stand.
    pub closed spec fn spec_features(&self) -> F {
        self.features
    }

    /// The plugin's name, as its mandatory interface gives it.
    pub fn name(&self) -> (r: String)
        ensures
            call_ensures(F::name, (&self.spec_features(),), r),
    {
        self.features.name()
    }

    /// The declared capability bits.
    pub fn capabilities(&self) -> (r: u8)
        ensures
            r == self.spec_capabilities().spec_bits(),
    {
        self.capabilities.bits()
    }

    /// The features, typed for every interface in `requested`, or nothing
    /// when one of them was not declared.
    pub fn as_mut(&mut self, requested: FeatureSupport) -> (r: Option<&mut F>)
        ensures
            r.is_some() <==> grants(old(self).spec_capabilities(), requested),
            final(self).spec_capabilities() == old(self).spec_capabilities(),
            final(self).spec_library() == old(self).spec_library(),
            r matches Some(v) ==> *v == old(self).spec_features() && final(self).spec_features() == *final(v),
            r is None ==> final(self).spec_features() == old(self).spec_features(),
    {
        if self.capabilities.contains(requested) {
            Some(&mut self.features)
        } else {
            None
        }
    }

    /// The features moved into a view that holds all of `requested`, or
    /// nothing when one of them was not declared.
    pub fn cast(self, requested: FeatureSupport) -> (r: Option<OwnedFeatures<F, L>>)
        ensures
            r.is_some() <==> grants(self.spec_capabilities(), requested),
            r matches Some(v) ==> v.spec_capabilities() == self.spec_capabilities()
                && v.spec_library() == self.spec_library() && v.spec_features() == self.spec_features(),
    {
        if self.capabilities.contains(requested) {
            Some(self)
        } else {
            None
        }
    }

    /// A further handle on the library these features came from.
    pub fn library(&self) -> (r: LibraryHandle<L>)
        ensures
            r.spec_library() == self.spec_library(),
    {
        self.library.share()
    }
}

/// A single bit that is not declared is never granted: querying it gives
/// nothing, whichever position it has.
pub proof fn lemma_unset_bit_absent(granted: FeatureSupport, i: nat)
    requires
        i < 8,
        granted.spec_bits() & bit_mask(i) == 0,
    ensures
        !grants(granted, FeatureSupport { bits: bit_mask(i) }),
{
    let b = bit_mask(i);
    assert(FeatureSupport { bits: b }@.contains(i)) by {
        if i == 0 {
            assert(1u8 & 1u8 != 0) by (bit_vector);
        } else if i == 1 {
            assert(2u8 & 2u8 != 0) by (bit_vector);
        } else if i == 2 {
            assert(4u8 & 4u8 != 0) by (bit_vector);
        } else if i == 3 {
            assert(8u8 & 8u8 != 0) by (bit_vector);
        } else if i == 4 {
            assert(16u8 & 16u8 != 0) by (bit_vector);
        } else if i == 5 {
            assert(32u8 & 32u8 != 0) by (bit_vector);
        } else if i == 6 {
            assert(64u8 & 64u8 != 0) by (bit_vector);
        } else {
            assert(128u8 & 128u8 != 0) by (bit_vector);
        }
    }
    assert(!granted@.contains(i));
}

/// A combination is granted whole or not at all: if one requested bit is not
/// declared, the query gives nothing, however many of the others are.
pub proof fn lemma_partial_combination_absent(granted: FeatureSupport, requested: FeatureSupport, i: nat)
    requires
        requested@.contains(i),
        !granted@.contains(i),
    ensures
        !grants(granted, requested),
{
}

} // verus!
