use vstd::prelude::*;

verus! {

/// A dynamically-typed detail value attached to an error.
#[derive(Debug)]
pub enum Value {
    /// A textual value.
    Text(String),
    /// A signed integer value.
    Int(i64),
    /// An unsigned integer value.
    Uint(u64),
    /// A boolean value.
    Boolean(bool),
    /// The unit (empty) value.
    Unit,
}

/// The mathematical shape of a `Value`.
pub enum ValueView {
    Text(Seq<char>),
    Int(i64),
    Uint(u64),
    Boolean(bool),
    Unit,
}

impl View for Value {
    type V = ValueView;

    open spec fn view(&self) -> ValueView {
        match self {
            Value::Text(s) => ValueView::Text(s@),
            Value::Int(n) => ValueView::Int(*n),
            Value::Uint(n) => ValueView::Uint(*n),
            Value::Boolean(b) => ValueView::Boolean(*b),
            Value::Unit => ValueView::Unit,
        }
    }
}

impl Clone for Value {
    fn clone(&self) -> (r: Self)
        ensures
            r == *self,
    {
        match self {
            Value::Text(s) => Value::Text(s.clone()),
            Value::Int(n) => Value::Int(*n),
            Value::Uint(n) => Value::Uint(*n),
            Value::Boolean(b) => Value::Boolean(*b),
            Value::Unit => Value::Unit,
        }
    }
}

impl PartialEq for Value {
    fn eq(&self, other: &Self) -> (r: bool) {
        match (self, other) {
            (Value::Text(a), Value::Text(b)) => *a == *b,
            (Value::Int(a), Value::Int(b)) => *a == *b,
            (Value::Uint(a), Value::Uint(b)) => *a == *b,
            (Value::Boolean(a), Value::Boolean(b)) => *a == *b,
            (Value::Unit, Value::Unit) => true,
            _ => false,
        }
    }
}

impl vstd::std_specs::cmp::PartialEqSpecImpl for Value {
    open spec fn obeys_eq_spec() -> bool {
        true
    }

    open spec fn eq_spec(&self, other: &Value) -> bool {
        self@ == other@
    }
}

/// The mapping that a sequence of key/value entries stands for, later entries
/// overriding earlier ones with the same key.
pub open spec fn map_of(s: Seq<(String, Value)>) -> Map<Seq<char>, ValueView>
    decreases s.len(),
{
    if s.len() == 0 {
        Map::empty()
    } else {
        map_of(s.drop_last()).insert(s.last().0@, s.last().1@)
    }
}

/// Whether no two entries of the sequence share a key.
pub open spec fn unique_keys(s: Seq<(String, Value)>) -> bool {
    forall|i: int, j: int| 0 <= i < j < s.len() ==> s[i].0@ != s[j].0@
}

/// An ordered mapping from string keys to detail values; keys are unique and
/// insertion order carries no meaning. Viewed as a `Map` from key text to
/// value shape.
#[derive(Debug)]
pub struct Details {
    entries: Vec<(String, Value)>,
}

impl View for Details {
    type V = Map<Seq<char>, ValueView>;

    closed spec fn view(&self) -> Map<Seq<char>, ValueView> {
        map_of(self.entries@)
    }
}

proof fn lemma_map_of_props(s: Seq<(String, Value)>)
    ensures
        map_of(s).dom().finite(),
        forall|k: Seq<char>|
            #[trigger] map_of(s).contains_key(k) <==> exists|i: int|
                0 <= i < s.len() && s[i].0@ == k,
        unique_keys(s) ==> forall|i: int|
            0 <= i < s.len() ==> map_of(s).contains_key(#[trigger] s[i].0@) && map_of(s)[s[i].0@]
                == s[i].1@,
        unique_keys(s) ==> map_of(s).dom().len() == s.len(),
    decreases s.len(),
{
    broadcast use vstd::set::axiom_set_insert_len;

    if s.len() == 0 {
    } else {
        let d = s.drop_last();
        let last = s.last();
        lemma_map_of_props(d);
        assert(forall|i: int| 0 <= i < d.len() ==> d[i] == s[i]);
        assert forall|k: Seq<char>| #[trigger]
            map_of(s).contains_key(k) implies exists|i: int| 0 <= i < s.len() && s[i].0@ == k by {
            if k == last.0@ {
                assert(s[s.len() - 1].0@ == k);
            } else {
                let i = choose|i: int| 0 <= i < d.len() && d[i].0@ == k;
                assert(s[i].0@ == k);
            }
        }
        assert forall|k: Seq<char>|
            exists|i: int| 0 <= i < s.len() && s[i].0@ == k implies #[trigger] map_of(
            s,
        ).contains_key(k) by {
            let i = choose|i: int| 0 <= i < s.len() && s[i].0@ == k;
            if i < s.len() - 1 {
                assert(d[i].0@ == k);
                assert(map_of(d).contains_key(k));
            }
        }
        if unique_keys(s) {
            assert(unique_keys(d));
            assert forall|i: int| 0 <= i < s.len() implies map_of(s).contains_key(
                #[trigger] s[i].0@,
            ) && map_of(s)[s[i].0@] == s[i].1@ by {
                if i < s.len() - 1 {
                    assert(d[i].0@ == s[i].0@ && d[i].1@ == s[i].1@);
                    assert(s[i].0@ != last.0@);
                }
            }
            assert(!map_of(d).contains_key(last.0@)) by {
                if map_of(d).contains_key(last.0@) {
                    let i = choose|i: int| 0 <= i < d.len() && d[i].0@ == last.0@;
                    assert(s[i].0@ == s[s.len() - 1].0@);
                }
            }
            assert(map_of(s).dom() == map_of(d).dom().insert(last.0@));
        }
    }
}

proof fn lemma_insert_entry(
    s_old: Seq<(String, Value)>,
    s_new: Seq<(String, Value)>,
    pos: Option<int>,
    key: String,
    value: Value,
)
    requires
        unique_keys(s_old),
        match pos {
            Some(i) => 0 <= i < s_old.len() && s_old[i].0@ == key@ && s_new == s_old.remove(
                i,
            ).push((key, value)),
            None => (forall|j: int| 0 <= j < s_old.len() ==> s_old[j].0@ != key@) && s_new
                == s_old.push((key, value)),
        },
    ensures
        unique_keys(s_new),
        map_of(s_new) == map_of(s_old).insert(key@, value@),
{
    let s_mid = match pos {
        Some(i) => s_old.remove(i),
        None => s_old,
    };
    if let Some(i) = pos {
        s_old.remove_ensures(i);
        assert forall|j: int| 0 <= j < s_mid.len() implies (#[trigger] s_mid[j]).0@ != key@ by {
            if j < i {
                assert(s_mid[j] == s_old[j]);
            } else {
                assert(s_mid[j] == s_old[j + 1]);
            }
        }
        assert forall|a: int, b: int| 0 <= a < b < s_mid.len() implies s_mid[a].0@ != s_mid[b].0@ by {
            let a0 = if a < i {
                a
            } else {
                a + 1
            };
            let b0 = if b < i {
                b
            } else {
                b + 1
            };
            assert(s_mid[a] == s_old[a0]);
            assert(s_mid[b] == s_old[b0]);
        }
        assert(unique_keys(s_mid));
    }
    assert(s_new.drop_last() =~= s_mid);
    assert(s_new.last() == (key, value));
    assert(unique_keys(s_new)) by {
        assert forall|a: int, b: int| 0 <= a < b < s_new.len() implies s_new[a].0@ != s_new[b].0@ by {
            assert(s_new[a] == s_mid[a]);
            if b < s_new.len() - 1 {
                assert(s_new[b] == s_mid[b]);
            }
        }
    }
    lemma_map_of_props(s_old);
    lemma_map_of_props(s_mid);
    lemma_map_of_props(s_new);
    assert(map_of(s_new) == map_of(s_mid).insert(key@, value@)) by {
        assert(map_of(s_new) == map_of(s_new.drop_last()).insert(s_new.last().0@, s_new.last().1@));
        assert(s_new.drop_last() == s_mid);
    }
    assert forall|k: Seq<char>|
        k != key@ && #[trigger] map_of(s_new).contains_key(k) implies map_of(s_old).contains_key(k)
        && map_of(s_old)[k] == map_of(s_new)[k] by {
        let j = choose|j: int| 0 <= j < s_new.len() && s_new[j].0@ == k;
        assert(j < s_new.len() - 1);
        assert(s_new[j] == s_mid[j]);
        let j0 = match pos {
            Some(i) => if j < i {
                j
            } else {
                j + 1
            },
            None => j,
        };
        assert(s_mid[j] == s_old[j0]);
        assert(s_old[j0].0@ == k);
        assert(map_of(s_new)[k] == s_new[j].1@);
        assert(map_of(s_old)[k] == s_old[j0].1@);
    }
    assert forall|k: Seq<char>|
        k != key@ && #[trigger] map_of(s_old).contains_key(k) implies map_of(s_new).contains_key(
        k,
    ) by {
        let j0 = choose|j0: int| 0 <= j0 < s_old.len() && s_old[j0].0@ == k;
        let j = match pos {
            Some(i) => if j0 < i {
                j0
            } else {
                j0 - 1
            },
            None => j0,
        };
        assert(s_mid[j] == s_old[j0]);
        assert(s_new[j] == s_mid[j]);
        assert(s_new[j].0@ == k);
    }
    assert(map_of(s_new) =~= map_of(s_old).insert(key@, value@));
}

impl Details {
    #[verifier::type_invariant]
    spec fn wf(self) -> bool {
        unique_keys(self.entries@)
    }

    /// Creates an empty details map.
    pub fn new() -> (r: Details)
        ensures
            r@ == Map::<Seq<char>, ValueView>::empty(),
    {
        Details { entries: Vec::new() }
    }

    /// The index of the entry holding `key`, if one is present.
    fn position_of(&self, key: &String) -> (r: Option<usize>)
        ensures
            match r {
                Some(i) => i < self.entries@.len() && self.entries@[i as int].0@ == key@,
                None => forall|i: int| 0 <= i < self.entries@.len() ==> self.entries@[i].0@ != key@,
            },
    {
        let mut i: usize = 0;
        while i < self.entries.len()
            invariant
                i <= self.entries@.len(),
                forall|j: int| 0 <= j < i ==> self.entries@[j].0@ != key@,
            decreases self.entries@.len() - i,
        {
            if self.entries[i].0 == *key {
                return Some(i);
            }
            i = i + 1;
        }
        None
    }

    /// Inserts `value` under `key`, replacing any entry the key already had.
    pub fn insert(&mut self, key: String, value: Value)
        ensures
            final(self)@ == old(self)@.insert(key@, value@),
    {
        proof {
            use_type_invariant(&*self);
        }
        let ghost s_old = self.entries@;
        let pos = self.position_of(&key);
        let mut entries: Vec<(String, Value)> = Vec::new();
        core::mem::swap(&mut entries, &mut self.entries);
        if let Some(i) = pos {
            entries.remove(i);
        }
        proof {
            let ghost_pos: Option<int> = match pos {
                Some(i) => Some(i as int),
                None => None,
            };
            lemma_insert_entry(s_old, entries@.push((key, value)), ghost_pos, key, value);
        }
        entries.push((key, value));
        self.entries = entries;
    }

    /// Looks up the value stored under `key`.
    pub fn get(&self, key: &str) -> (r: Option<&Value>)
        ensures
            match r {
                Some(v) => self@.contains_key(key@) && v@ == self@[key@],
                None => !self@.contains_key(key@),
            },
    {
        proof {
            use_type_invariant(&*self);
            lemma_map_of_props(self.entries@);
        }
        let k = key.to_owned();
        match self.position_of(&k) {
            Some(i) => Some(&self.entries[i].1),
            None => None,
        }
    }

    /// Whether an entry is stored under `key`.
    pub fn contains_key(&self, key: &str) -> (r: bool)
        ensures
            r == self@.contains_key(key@),
    {
        self.get(key).is_some()
    }

    /// A copy of the stored entries, one per binding of the mapping; the
    /// keys are unique and the sequence stands for the same mapping.
    pub fn items(&self) -> (r: Vec<(String, Value)>)
        ensures
            unique_keys(r@),
            map_of(r@) == self@,
    {
        proof {
            use_type_invariant(&*self);
        }
        let mut entries: Vec<(String, Value)> = Vec::new();
        let mut i: usize = 0;
        while i < self.entries.len()
            invariant
                i <= self.entries@.len(),
                entries@.len() == i,
                forall|j: int| 0 <= j < i ==> entries@[j] == self.entries@[j],
                unique_keys(self.entries@),
            decreases self.entries@.len() - i,
        {
            let p = &self.entries[i];
            entries.push((p.0.clone(), p.1.clone()));
            i = i + 1;
        }
        proof {
            assert(entries@ =~= self.entries@);
        }
        entries
    }

    /// Whether the map holds no entry.
    pub fn is_empty(&self) -> (r: bool)
        ensures
            r == (self@ == Map::<Seq<char>, ValueView>::empty()),
    {
        proof {
            use_type_invariant(&*self);
            lemma_map_of_props(self.entries@);
            if self.entries@.len() > 0 {
                assert(map_of(self.entries@).contains_key(self.entries@[0].0@));
            }
        }
        self.entries.is_empty()
    }
}

impl Clone for Details {
    /// Copies the map; the copy stands for the same mapping.
    fn clone(&self) -> (r: Self)
        ensures
            r@ == self@,
    {
        Details { entries: self.items() }
    }
}

impl PartialEq for Details {
    #[verifier::loop_isolation(false)]
    fn eq(&self, other: &Self) -> (r: bool) {
        proof {
            use_type_invariant(&*self);
            use_type_invariant(&*other);
            lemma_map_of_props(self.entries@);
            lemma_map_of_props(other.entries@);
        }
        if self.entries.len() != other.entries.len() {
            return false;
        }
        let n = self.entries.len();
        let mut i: usize = 0;
        while i < n
            invariant
                n == self.entries@.len() == other.entries@.len(),
                i <= n,
                unique_keys(self.entries@),
                unique_keys(other.entries@),
                forall|j: int|
                    0 <= j < i ==> other@.contains_key(#[trigger] self.entries@[j].0@)
                        && other@[self.entries@[j].0@] == self.entries@[j].1@,
            decreases n - i,
        {
            let p = &self.entries[i];
            match other.get(p.0.as_str()) {
                Some(w) => {
                    if !(p.1 == *w) {
                        proof {
                            assert(self@[p.0@] == p.1@);
                        }
                        return false;
                    }
                },
                None => {
                    proof {
                        assert(self@.contains_key(p.0@));
                    }
                    return false;
                },
            }
            i = i + 1;
        }
        proof {
            assert forall|k: Seq<char>| #[trigger]
                self@.contains_key(k) implies other@.contains_key(k) && other@[k] == self@[k] by {
                let j = choose|j: int| 0 <= j < self.entries@.len() && self.entries@[j].0@ == k;
                assert(self@[self.entries@[j].0@] == self.entries@[j].1@);
            }
            assert(self@.dom() =~= other@.dom()) by {
                if self@.dom() != other@.dom() {
                    assert(self@.dom().subset_of(other@.dom()));
                    assert(!(self@.dom() =~= other@.dom()));
                    let x = choose|x: Seq<char>|
                        other@.dom().contains(x) && !self@.dom().contains(x);
                    self@.dom().lemma_subset_not_in_lt(other@.dom(), x);
                }
            }
            assert(self@ =~= other@);
        }
        true
    }
}

impl vstd::std_specs::cmp::PartialEqSpecImpl for Details {
    open spec fn obeys_eq_spec() -> bool {
        true
    }

    open spec fn eq_spec(&self, other: &Details) -> bool {
        self@ == other@
    }
}

} // verus!
