use vstd::prelude::*;

verus! {

/// Identity of a source texture.
///
/// Two sprites share a texture exactly when their identities are equal.
#[derive(Clone, Copy, Debug, PartialEq, Eq, Hash, Structural)]
pub enum ImageId {
    /// A texture held in a slot of the asset registry.
    Index { generation: u32, index: u32 },
    /// A texture named by a universally unique identifier.
    Uuid { uuid: u128 },
}

impl ImageId {
    /// The total order on texture identities that breaks ties between sprites
    /// of equal depth: slot identities come first, ordered by generation and
    /// then by slot, followed by the unique identifiers in numeric order.
    pub open spec fn precedes(self, other: ImageId) -> bool {
        match (self, other) {
            (
                ImageId::Index { generation: g1, index: i1 },
                ImageId::Index { generation: g2, index: i2 },
            ) => g1 < g2 || (g1 == g2 && i1 <= i2),
            (ImageId::Index { .. }, ImageId::Uuid { .. }) => true,
            (ImageId::Uuid { .. }, ImageId::Index { .. }) => false,
            (ImageId::Uuid { uuid: u1 }, ImageId::Uuid { uuid: u2 }) => u1 <= u2,
        }
    }

    /// Decides `self.precedes(other)`.
    pub fn le(&self, other: &ImageId) -> (r: bool)
        ensures
            r == self.precedes(*other),
    {
        match (*self, *other) {
            (
                ImageId::Index { generation: g1, index: i1 },
                ImageId::Index { generation: g2, index: i2 },
            ) => g1 < g2 || (g1 == g2 && i1 <= i2),
            (ImageId::Index { .. }, ImageId::Uuid { .. }) => true,
            (ImageId::Uuid { .. }, ImageId::Index { .. }) => false,
            (ImageId::Uuid { uuid: u1 }, ImageId::Uuid { uuid: u2 }) => u1 <= u2,
        }
    }

    /// `precedes` is a total order: any two identities are comparable, and two
    /// identities that precede each other are the same identity.
    pub proof fn lemma_precedes_total(a: ImageId, b: ImageId)
        ensures
            a.precedes(b) || b.precedes(a),
            a.precedes(b) && b.precedes(a) ==> a == b,
            a.precedes(a),
    {
    }

    /// `precedes` is transitive.
    pub proof fn lemma_precedes_transitive(a: ImageId, b: ImageId, c: ImageId)
        requires
            a.precedes(b),
            b.precedes(c),
        ensures
            a.precedes(c),
    {
    }
}

/// Pixel dimensions of a texture that is resident on the GPU.
#[derive(Clone, Copy, Debug, PartialEq, Eq, Structural)]
pub struct ImageSize {
    pub width: u32,
    pub height: u32,
}

/// A change in the life of a texture asset.
#[derive(Clone, Copy, Debug, PartialEq, Eq, Structural)]
pub enum AssetEvent {
    Added { id: ImageId },
    Modified { id: ImageId },
    Removed { id: ImageId },
    Unused { id: ImageId },
    LoadedWithDependencies { id: ImageId },
}

impl AssetEvent {
    /// The texture whose GPU resources this event makes stale: the texture
    /// that was modified, removed or left unused. Other events make nothing
    /// stale.
    pub open spec fn spec_invalidated(self) -> Option<ImageId> {
        match self {
            AssetEvent::Modified { id } => Some(id),
            AssetEvent::Removed { id } => Some(id),
            AssetEvent::Unused { id } => Some(id),
            AssetEvent::Added { .. } => None,
            AssetEvent::LoadedWithDependencies { .. } => None,
        }
    }

    /// Computes `spec_invalidated`.
    pub fn invalidated(&self) -> (id: Option<ImageId>)
        ensures
            id == self.spec_invalidated(),
    {
        match *self {
            AssetEvent::Modified { id } => Some(id),
            AssetEvent::Removed { id } => Some(id),
            AssetEvent::Unused { id } => Some(id),
            AssetEvent::Added { .. } => None,
            AssetEvent::LoadedWithDependencies { .. } => None,
        }
    }
}

/// The textures that a sequence of events makes stale.
pub open spec fn invalidated_images(events: Seq<AssetEvent>) -> Set<ImageId> {
    Set::new(
        |id: ImageId|
            exists|i: int|
                0 <= i < events.len() && (#[trigger] events[i]).spec_invalidated() == Some(id),
    )
}

/// A finite map keyed by texture identity.
///
/// The renderer touches only a handful of distinct textures per frame, so the
/// entries are kept in two parallel vectors and found by a linear scan.
pub struct ImageMap<V> {
    keys: Vec<ImageId>,
    values: Vec<V>,
}

impl<V> View for ImageMap<V> {
    type V = Map<ImageId, V>;

    closed spec fn view(&self) -> Map<ImageId, V> {
        Map::new(
            |k: ImageId| self.keys@.contains(k),
            |k: ImageId| self.values@[self.keys@.index_of(k)],
        )
    }
}

impl<V> ImageMap<V> {
    /// Every key has exactly one value and occurs once.
    pub closed spec fn wf(&self) -> bool {
        &&& self.keys@.len() == self.values@.len()
        &&& self.keys@.no_duplicates()
    }

    proof fn lemma_position(&self, i: int)
        requires
            self.wf(),
            0 <= i < self.keys@.len(),
        ensures
            self.keys@.index_of(self.keys@[i]) == i,
            self@.contains_key(self.keys@[i]),
            self@[self.keys@[i]] == self.values@[i],
    {
        let k = self.keys@[i];
        assert(self.keys@.contains(k));
        let j = self.keys@.index_of(k);
        assert(0 <= j < self.keys@.len() && self.keys@[j] == k);
    }

    /// An empty map.
    pub fn new() -> (m: Self)
        ensures
            m.wf(),
            m@ == Map::<ImageId, V>::empty(),
    {
        let m = ImageMap { keys: Vec::new(), values: Vec::new() };
        assert(m@ =~= Map::<ImageId, V>::empty());
        m
    }

    fn position(&self, key: ImageId) -> (r: Option<usize>)
        requires
            self.wf(),
        ensures
            match r {
                Some(i) => i < self.keys@.len() && self.keys@[i as int] == key,
                None => !self.keys@.contains(key),
            },
    {
        let mut i: usize = 0;
        while i < self.keys.len()
            invariant
                i <= self.keys@.len(),
                forall|j: int| 0 <= j < i ==> self.keys@[j] != key,
            decreases self.keys@.len() - i,
        {
            if self.keys[i] == key {
                return Some(i);
            }
            i += 1;
        }
        None
    }

    /// Whether `key` has a value.
    pub fn contains_key(&self, key: ImageId) -> (r: bool)
        requires
            self.wf(),
        ensures
            r == self@.contains_key(key),
    {
        self.position(key).is_some()
    }

    /// The value stored for `key`, if there is one.
    pub fn get(&self, key: ImageId) -> (r: Option<&V>)
        requires
            self.wf(),
        ensures
            match r {
                Some(v) => self@.contains_key(key) && *v == self@[key],
                None => !self@.contains_key(key),
            },
    {
        match self.position(key) {
            Some(i) => {
                proof {
                    self.lemma_position(i as int);
                }
                Some(&self.values[i])
            },
            None => None,
        }
    }

    /// Stores `value` for `key`, replacing the value that `key` had.
    pub fn insert(&mut self, key: ImageId, value: V)
        requires
            old(self).wf(),
        ensures
            final(self).wf(),
            final(self)@ == old(self)@.insert(key, value),
    {
        let ghost before = *self;
        match self.position(key) {
            Some(i) => {
                self.values.set(i, value);
                proof {
                    let after = *self;
                    assert forall|k: ImageId| after@.contains_key(k) implies after@[k]
                        == before@.insert(key, value)[k] by {
                        let j = after.keys@.index_of(k);
                        assert(0 <= j < after.keys@.len() && after.keys@[j] == k);
                        after.lemma_position(j);
                        before.lemma_position(j);
                    }
                    assert(after@ =~= before@.insert(key, value));
                }
            },
            None => {
                self.keys.push(key);
                self.values.push(value);
                proof {
                    let after = *self;
                    assert(after.keys@.no_duplicates());
                    assert forall|k: ImageId| #[trigger]
                        after@.contains_key(k) == before@.insert(key, value).contains_key(
                            k,
                        ) by {
                        if before.keys@.contains(k) {
                            let j = before.keys@.index_of(k);
                            assert(after.keys@[j] == k);
                        }
                        if k == key {
                            assert(after.keys@[before.keys@.len() as int] == k);
                        }
                    }
                    assert forall|k: ImageId| after@.contains_key(k) implies after@[k]
                        == before@.insert(key, value)[k] by {
                        let j = after.keys@.index_of(k);
                        assert(0 <= j < after.keys@.len() && after.keys@[j] == k);
                        after.lemma_position(j);
                        if j < before.keys@.len() {
                            before.lemma_position(j);
                        }
                    }
                    assert(after@ =~= before@.insert(key, value));
                }
            },
        }
    }

    /// Forgets the value stored for `key`, if there is one.
    pub fn remove(&mut self, key: ImageId)
        requires
            old(self).wf(),
        ensures
            final(self).wf(),
            final(self)@ == old(self)@.remove(key),
    {
        let ghost before = *self;
        match self.position(key) {
            Some(i) => {
                self.keys.remove(i);
                self.values.remove(i);
                proof {
                    let after = *self;
                    assert(after.keys@ == before.keys@.remove(i as int));
                    assert(after.values@ == before.values@.remove(i as int));
                    assert forall|a: int, b: int|
                        0 <= a < after.keys@.len() && 0 <= b < after.keys@.len() && a
                            != b implies after.keys@[a] != after.keys@[b] by {
                        let a0 = if a < i { a } else { a + 1 };
                        let b0 = if b < i { b } else { b + 1 };
                        assert(after.keys@[a] == before.keys@[a0]);
                        assert(after.keys@[b] == before.keys@[b0]);
                    }
                    assert forall|k: ImageId| #[trigger]
                        after@.contains_key(k) == before@.remove(key).contains_key(k) by {
                        if after.keys@.contains(k) {
                            let j = after.keys@.index_of(k);
                            let j0 = if j < i { j } else { j + 1 };
                            assert(before.keys@[j0] == k);
                        }
                        if before.keys@.contains(k) && k != key {
                            let j0 = before.keys@.index_of(k);
                            let j = if j0 < i { j0 } else { j0 - 1 };
                            assert(after.keys@[j] == k);
                        }
                    }
                    assert forall|k: ImageId| after@.contains_key(k) implies after@[k]
                        == before@.remove(key)[k] by {
                        let j = after.keys@.index_of(k);
                        assert(0 <= j < after.keys@.len() && after.keys@[j] == k);
                        let j0 = if j < i { j } else { j + 1 };
                        after.lemma_position(j);
                        before.lemma_position(j0);
                    }
                    assert(after@ =~= before@.remove(key));
                }
            },
            None => {
                proof {
                    assert(before@ =~= before@.remove(key));
                }
            },
        }
    }
}

impl<V> Default for ImageMap<V> {
    fn default() -> (m: ImageMap<V>)
        ensures
            m.wf(),
            m@ == Map::<ImageId, V>::empty(),
    {
        ImageMap::new()
    }
}

} // verus!
