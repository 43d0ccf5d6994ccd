//! Service registry.
//!
//! The dispatch engine owns an ordered collection of service descriptors,
//! built once at startup (insertion order is declaration order) and
//! immutable thereafter.  The lookup key is the 128-bit service identifier
//! carried by an inbound message.  Identifiers are unique within a registry:
//! a build with two services sharing an identifier is rejected, never
//! silently resolved to the first match.

use vstd::prelude::*;

verus! {

/// What the registry records of one service: its protocol-significant
/// identifier and its diagnostic name.
#[derive(Clone, Copy, Debug)]
pub struct ServiceDescriptor {
    /// 128-bit identifier, stable for the partition's lifetime and agreed
    /// with the callers outside it.
    pub id: u128,
    /// Human-readable name, for diagnostics only.
    pub name: &'static str,
}

/// Why a registry could not be built.
#[derive(Clone, Copy, Debug, PartialEq, Eq, Structural)]
pub enum RegistryError {
    /// Two services share an identifier.
    DuplicateIdentifier,
}

/// An identifier-keyed, insertion-ordered collection of service
/// descriptors, viewed as its descriptor sequence.
pub struct ServiceRegistry {
    entries: Vec<ServiceDescriptor>,
}

impl View for ServiceRegistry {
    type V = Seq<ServiceDescriptor>;

    closed spec fn view(&self) -> Seq<ServiceDescriptor> {
        self.entries@
    }
}

impl ServiceRegistry {
    /// Identifiers are unique within the registry.
    pub open spec fn wf(&self) -> bool {
        forall|i: int, j: int|
            #![trigger self@[i].id, self@[j].id]
            0 <= i < j < self@.len() ==> self@[i].id != self@[j].id
    }

    /// Some registered service carries the identifier `id`.
    pub open spec fn contains_id(&self, id: u128) -> bool {
        exists|i: int| 0 <= i < self@.len() && #[trigger] self@[i].id == id
    }

    /// The index of the service carrying `id`; meaningful only when
    /// [`Self::contains_id`] holds, and then unique by [`Self::wf`].
    pub open spec fn index_of_id(&self, id: u128) -> int {
        choose|i: int| 0 <= i < self@.len() && #[trigger] self@[i].id == id
    }

    /// Builds a registry from descriptors in declaration order.
    ///
    /// Succeeds exactly when all identifiers are distinct; a duplicate is
    /// rejected at initialisation.
    pub fn build(entries: Vec<ServiceDescriptor>) -> (r: Result<ServiceRegistry, RegistryError>)
        ensures
            (forall|i: int, j: int|
                #![trigger entries@[i].id, entries@[j].id]
                0 <= i < j < entries@.len() ==> entries@[i].id != entries@[j].id) ==> (
            r matches Ok(reg) && reg@ == entries@ && reg.wf()),
            (exists|i: int, j: int|
                #![trigger entries@[i].id, entries@[j].id]
                0 <= i < j < entries@.len() && entries@[i].id == entries@[j].id) ==> r
                == Err::<ServiceRegistry, RegistryError>(RegistryError::DuplicateIdentifier),
    {
        let n = entries.len();
        let mut i: usize = 0;
        while i < n
            invariant
                n == entries@.len(),
                i <= n,
                forall|p: int, q: int|
                    #![trigger entries@[p].id, entries@[q].id]
                    0 <= p < q < n && p < i ==> entries@[p].id != entries@[q].id,
            decreases n - i,
        {
            let mut j: usize = i + 1;
            while j < n
                invariant
                    n == entries@.len(),
                    i < j || (i + 1 == j && j <= n),
                    i < n,
                    j <= n,
                    i + 1 <= j,
                    forall|q: int| i < q < j ==> entries@[i as int].id != #[trigger] entries@[q].id,
                decreases n - j,
            {
                if entries[j].id == entries[i].id {
                    return Err(RegistryError::DuplicateIdentifier);
                }
                j = j + 1;
            }
            i = i + 1;
        }
        Ok(ServiceRegistry { entries })
    }

    /// Number of registered services.
    pub fn len(&self) -> (r: usize)
        ensures
            r == self@.len(),
    {
        self.entries.len()
    }

    /// The identifier of the service at `index`.
    pub fn id_at(&self, index: usize) -> (r: u128)
        requires
            index < self@.len(),
        ensures
            r == self@[index as int].id,
    {
        self.entries[index].id
    }

    /// The diagnostic name of the service at `index`.
    pub fn name_at(&self, index: usize) -> (r: &'static str)
        requires
            index < self@.len(),
        ensures
            r == self@[index as int].name,
    {
        self.entries[index].name
    }

    /// Looks an identifier up.
    ///
    /// Returns the index of the service carrying `id` exactly when one is
    /// registered, and `None` exactly when none is: an unknown identifier is
    /// a protocol error for the caller to surface, never a crash.
    pub fn lookup(&self, id: u128) -> (r: Option<usize>)
        ensures
            r matches Some(i) ==> i < self@.len() && self@[i as int].id == id,
            r is None ==> !self.contains_id(id),
            self.contains_id(id) ==> r is Some,
    {
        let n = self.entries.len();
        let mut k: usize = 0;
        while k < n
            invariant
                n == self@.len(),
                k <= n,
                forall|p: int| 0 <= p < k ==> #[trigger] self@[p].id != id,
            decreases n - k,
        {
            if self.entries[k].id == id {
                return Some(k);
            }
            k = k + 1;
        }
        None
    }
}

} // verus!
