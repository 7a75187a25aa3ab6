//! Small keyed stores of the game's progress: sets of object names and a
//! table from object names to positions.  Names are compared as strings.
use vstd::prelude::*;

verus! {

/// A position in the game world, as the bit patterns of its two 32-bit
/// floating-point coordinates.  The engine side converts with `to_bits` and
/// `from_bits`, so a position is stored and handed back exactly.
#[derive(Clone, Copy, Debug, PartialEq, Eq, Structural)]
pub struct Position {
    pub x_bits: u32,
    pub y_bits: u32,
}

/// The texts of a sequence of strings.
pub open spec fn name_views(names: Seq<String>) -> Seq<Seq<char>> {
    names.map_values(|s: String| s@)
}

/// Looks a name up in a list of names.
pub fn find_name(names: &Vec<String>, key: &String) -> (r: Option<usize>)
    ensures
        match r {
            Some(i) => i < names.len() && names@[i as int]@ == key@,
            None => !name_views(names@).contains(key@),
        },
{
    let mut i: usize = 0;
    while i < names.len()
        invariant
            i <= names.len(),
            forall|j: int| 0 <= j < i ==> names@[j]@ != key@,
        decreases names.len() - i,
    {
        if names[i] == *key {
            return Some(i);
        }
        i += 1;
    }
    proof {
        assert forall|j: int| 0 <= j < name_views(names@).len() implies name_views(names@)[j]
            != key@ by {
            assert(names@[j]@ != key@);
        }
    }
    None
}

/// A set of names without repetition.
pub struct NameSet {
    names: Vec<String>,
}

impl View for NameSet {
    type V = Set<Seq<char>>;

    closed spec fn view(&self) -> Set<Seq<char>> {
        name_views(self.names@).to_set()
    }
}

impl NameSet {
    /// The stored list holds each name once.
    pub closed spec fn wf(&self) -> bool {
        name_views(self.names@).no_duplicates()
    }

    /// An empty set.
    pub fn new() -> (s: NameSet)
        ensures
            s.wf(),
            s@ == Set::<Seq<char>>::empty(),
    {
        let s = NameSet { names: Vec::new() };
        assert(s@ =~= Set::<Seq<char>>::empty());
        s
    }

    /// Whether the set holds `name`.
    pub fn contains(&self, name: &String) -> (r: bool)
        ensures
            r == self@.contains(name@),
    {
        match find_name(&self.names, name) {
            Some(i) => {
                assert(name_views(self.names@)[i as int] == name@);
                true
            },
            None => false,
        }
    }

    /// Adds `name` to the set.
    pub fn insert(&mut self, name: String)
        requires
            old(self).wf(),
        ensures
            final(self).wf(),
            final(self)@ == old(self)@.insert(name@),
    {
        match find_name(&self.names, &name) {
            Some(i) => {
                assert(name_views(self.names@)[i as int] == name@);
                assert(self@.insert(name@) =~= self@);
            },
            None => {
                let ghost before = self.names@;
                let ghost k = name@;
                self.names.push(name);
                assert(name_views(self.names@) =~= name_views(before).push(k));
                proof {
                    name_views(before).lemma_push_to_set_commute(k);
                }
            },
        }
    }

    /// Empties the set.
    pub fn clear(&mut self)
        ensures
            final(self).wf(),
            final(self)@ == Set::<Seq<char>>::empty(),
    {
        self.names.clear();
        assert(self@ =~= Set::<Seq<char>>::empty());
    }

    /// The number of names in the set.
    pub fn len(&self) -> (n: usize)
        requires
            self.wf(),
        ensures
            n == self@.len(),
            self@.finite(),
    {
        proof {
            name_views(self.names@).unique_seq_to_set();
        }
        self.names.len()
    }
}

/// A table from names to positions.
pub struct PositionTable {
    names: Vec<String>,
    positions: Vec<Position>,
}

impl View for PositionTable {
    type V = Map<Seq<char>, Position>;

    closed spec fn view(&self) -> Map<Seq<char>, Position> {
        Map::new(
            |k: Seq<char>| name_views(self.names@).contains(k),
            |k: Seq<char>| self.positions@[name_views(self.names@).index_of(k)],
        )
    }
}

impl PositionTable {
    /// Names and positions stand side by side and each name occurs once.
    pub closed spec fn wf(&self) -> bool {
        &&& self.names.len() == self.positions.len()
        &&& name_views(self.names@).no_duplicates()
    }

    /// An empty table.
    pub fn new() -> (t: PositionTable)
        ensures
            t.wf(),
            t@ == Map::<Seq<char>, Position>::empty(),
    {
        let t = PositionTable { names: Vec::new(), positions: Vec::new() };
        assert(t@ =~= Map::<Seq<char>, Position>::empty());
        t
    }

    /// The position stored under `name`, if any.
    pub fn get(&self, name: &String) -> (r: Option<Position>)
        requires
            self.wf(),
        ensures
            r == (if self@.contains_key(name@) {
                Some(self@[name@])
            } else {
                None::<Position>
            }),
    {
        match find_name(&self.names, name) {
            Some(i) => {
                let ghost v = name_views(self.names@);
                assert(v[i as int] == name@);
                assert(v.contains(name@));
                assert(v.index_of(name@) == i);
                Some(self.positions[i])
            },
            None => None,
        }
    }

    /// Stores `pos` under `name`, replacing what was stored there.
    pub fn insert(&mut self, name: String, pos: Position)
        requires
            old(self).wf(),
        ensures
            final(self).wf(),
            final(self)@ == old(self)@.insert(name@, pos),
    {
        let ghost old_map = self@;
        let ghost v = name_views(self.names@);
        let ghost k = name@;
        match find_name(&self.names, &name) {
            Some(i) => {
                assert(v[i as int] == k);
                self.positions.set(i, pos);
                assert(name_views(self.names@) == v);
                assert forall|q: Seq<char>| #[trigger] self@.contains_key(q) == old_map.insert(
                    k,
                    pos,
                ).contains_key(q) by {}
                assert forall|q: Seq<char>| self@.contains_key(q) implies #[trigger] self@[q]
                    == old_map.insert(k, pos)[q] by {
                    let j = v.index_of(q);
                    assert(v[j] == q);
                    if q == k {
                        assert(j == i);
                    } else {
                        assert(j != i);
                    }
                }
                assert(self@ =~= old_map.insert(k, pos));
            },
            None => {
                self.names.push(name);
                self.positions.push(pos);
                let ghost nv = name_views(self.names@);
                assert(nv =~= v.push(k));
                assert forall|q: Seq<char>| #[trigger] self@.contains_key(q) == old_map.insert(
                    k,
                    pos,
                ).contains_key(q) by {
                    if nv.contains(q) {
                        let j = nv.index_of(q);
                        if j < v.len() {
                            assert(v[j] == q);
                        }
                    }
                    if v.contains(q) {
                        let j = v.index_of(q);
                        assert(nv[j] == q);
                    }
                    if q == k {
                        assert(nv[v.len() as int] == k);
                    }
                }
                assert forall|q: Seq<char>| self@.contains_key(q) implies #[trigger] self@[q]
                    == old_map.insert(k, pos)[q] by {
                    let j = nv.index_of(q);
                    assert(nv[j] == q);
                    if q == k {
                        assert(nv[v.len() as int] == k);
                        assert(j == v.len());
                    } else {
                        assert(j < v.len());
                        assert(v[j] == q);
                        let j0 = v.index_of(q);
                        assert(v[j0] == q);
                        assert(nv[j0] == q);
                        assert(j0 == j);
                    }
                }
                assert(self@ =~= old_map.insert(k, pos));
            },
        }
    }

    /// Empties the table.
    pub fn clear(&mut self)
        ensures
            final(self).wf(),
            final(self)@ == Map::<Seq<char>, Position>::empty(),
    {
        self.names.clear();
        self.positions.clear();
        assert(self@ =~= Map::<Seq<char>, Position>::empty());
    }
}

} // verus!
