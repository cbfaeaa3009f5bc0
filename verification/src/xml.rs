//! XML component loading.
//!
//! UI components defined in XML can be registered under a name and then
//! instantiated.  The registry is modeled by the set of registered names;
//! parsing and rendering the XML itself belongs to the embedding.

use crate::widgets::Obj;
use vstd::prelude::*;

verus! {

/// XML loading error.
#[derive(Clone, Copy, Debug, PartialEq, Eq, Structural)]
pub enum XmlError {
    /// Failed to load or parse the XML.
    LoadFailed,
    /// The component was not found.
    NotFound,
    /// Invalid XML data.
    InvalidData,
}

/// The registry of XML components, keyed by name.
#[derive(Debug)]
pub struct XmlRegistry {
    /// The names of the registered components, in registration order,
    /// each name held once.
    pub names: Vec<Vec<u8>>,
}

impl XmlRegistry {
    /// The registered names as byte sequences, in registration order.
    pub open spec fn names_view(self) -> Seq<Seq<u8>> {
        self.names@.map_values(|v: Vec<u8>| v@)
    }

    /// Whether a name is registered.
    pub open spec fn holds(self, name: Seq<u8>) -> bool {
        exists|i: int| 0 <= i < self.names@.len() && self.names@[i]@ == name
    }

    /// Create an empty registry.
    pub fn new() -> (r: XmlRegistry)
        ensures
            r.names@ == Seq::<Vec<u8>>::empty(),
    {
        XmlRegistry { names: Vec::new() }
    }

    /// Find the position of a registered name.
    fn position(&self, name: &[u8]) -> (r: Option<usize>)
        ensures
            match r {
                Some(i) => i < self.names@.len() && self.names@[i as int]@ == name@,
                None => !self.holds(name@),
            },
    {
        let mut i: usize = 0;
        while i < self.names.len()
            invariant
                i <= self.names@.len(),
                forall|j: int| 0 <= j < i ==> self.names@[j]@ != name@,
            decreases self.names@.len() - i,
        {
            if compare_bytes(&self.names[i], name) {
                return Some(i);
            }
            i = i + 1;
        }
        None
    }

    /// Register a component under a name.
    ///
    /// Registration fails with `InvalidData` exactly when the XML data is
    /// empty, and succeeds otherwise.  Other registered names are kept; a
    /// name registered again replaces the earlier component, adding no
    /// entry.
    pub fn register_component_from_data(&mut self, name: &[u8], xml_data: &[u8]) -> (r: Result<
        (),
        XmlError,
    >)
        ensures
            (r matches Ok(())) <==> xml_data@.len() > 0,
            r matches Ok(()) ==> final(self).holds(name@) && final(self).names_view() == if old(
                self,
            ).holds(name@) {
                old(self).names_view()
            } else {
                old(self).names_view().push(name@)
            },
            r matches Err(e) ==> e == XmlError::InvalidData && *final(self) == *old(self),
    {
        if xml_data.len() == 0 {
            return Err(XmlError::InvalidData);
        }
        let pos = self.position(name);
        match pos {
            Some(i) => {
                proof {
                    assert(self.holds(name@));
                }
            },
            None => {
                self.names.push(crate::copy_bytes(name));
                proof {
                    assert(self.names@[self.names@.len() - 1]@ == name@);
                    assert(self.names_view() =~= old(self).names_view().push(name@));
                }
            },
        }
        Ok(())
    }

    /// Unregister a previously registered component.
    ///
    /// Fails with `NotFound` exactly when the name is not registered; on
    /// success exactly one entry with that name leaves and the others are
    /// kept in order.
    pub fn unregister_component(&mut self, name: &[u8]) -> (r: Result<(), XmlError>)
        ensures
            (r matches Ok(())) <==> old(self).holds(name@),
            r matches Ok(()) ==> exists|i: int|
                0 <= i < old(self).names_view().len() && #[trigger] old(self).names_view()[i]
                    == name@ && final(self).names_view() == old(self).names_view().remove(i),
            r matches Err(e) ==> e == XmlError::NotFound && *final(self) == *old(self),
    {
        let pos = self.position(name);
        match pos {
            Some(i) => {
                let _ = self.names.remove(i);
                proof {
                    assert(old(self).names_view()[i as int] == name@);
                    assert(self.names_view() =~= old(self).names_view().remove(i as int));
                }
                Ok(())
            },
            None => Err(XmlError::NotFound),
        }
    }

    /// Create an instance of a registered component as a child of the
    /// given parent; a created instance is counted on the parent.
    ///
    /// Returns a fresh widget exactly when the name is registered.
    pub fn create_simple(&self, parent: &mut Obj, name: &[u8]) -> (r: Option<Obj>)
        requires
            old(parent).child_count < u64::MAX,
        ensures
            (r is Some) <==> self.holds(name@),
            r matches Some(o) ==> o == Obj::initial(),
            *final(parent) == if self.holds(name@) {
                old(parent).with_child_inc()
            } else {
                *old(parent)
            },
    {
        match self.position(name) {
            Some(_) => {
                parent.child_count = parent.child_count + 1;
                Some(Obj::new_initial())
            },
            None => None,
        }
    }

    /// The number of registered components.
    pub fn component_count(&self) -> (r: usize)
        ensures
            r == self.names@.len(),
    {
        self.names.len()
    }
}

/// Whether two byte slices hold the same bytes.
fn compare_bytes(a: &[u8], b: &[u8]) -> (r: bool)
    ensures
        r == (a@ == b@),
{
    if a.len() != b.len() {
        proof {
            assert(a@ != b@);
        }
        return false;
    }
    let mut i: usize = 0;
    while i < a.len()
        invariant
            i <= a@.len(),
            a@.len() == b@.len(),
            forall|j: int| 0 <= j < i ==> a@[j] == b@[j],
        decreases a@.len() - i,
    {
        if a[i] != b[i] {
            proof {
                assert(a@ != b@);
            }
            return false;
        }
        i = i + 1;
    }
    proof {
        assert(a@ =~= b@);
    }
    true
}

} // verus!
