use vstd::prelude::*;
use crate::object::{Dictionary, Object, ObjectId};

verus! {

/// A parsed document: its object table and its trailer.
#[derive(Debug)]
pub struct Document {
    pub objects: Vec<(ObjectId, Object)>,
    pub trailer: Dictionary,
}

/// The object stored under `id`; where an id is listed twice, the later entry counts.
pub open spec fn lookup_id(s: Seq<(ObjectId, Object)>, id: ObjectId) -> Option<Object>
    decreases s.len(),
{
    if s.len() == 0 {
        None
    } else if s.last().0 == id {
        Some(s.last().1)
    } else {
        lookup_id(s.drop_last(), id)
    }
}

/// Writing `o` at position `i`, under the id already there, changes what that id
/// resolves to and nothing else.
pub proof fn lemma_lookup_id_update(s: Seq<(ObjectId, Object)>, i: int, o: Object, id: ObjectId)
    requires
        0 <= i < s.len(),
        lookup_id(s, s[i].0) == Some(s[i].1),
        forall|j: int| i < j < s.len() ==> s[j].0 != s[i].0,
    ensures
        lookup_id(s.update(i, (s[i].0, o)), id) == if id == s[i].0 {
            Some(o)
        } else {
            lookup_id(s, id)
        },
    decreases s.len(),
{
    let t = s.update(i, (s[i].0, o));
    if i < s.len() - 1 {
        assert(t.drop_last() =~= s.drop_last().update(i, (s[i].0, o)));
        assert(s.last().0 != s[i].0);
        lemma_lookup_id_update(s.drop_last(), i, o, id);
    } else {
        assert(t.drop_last() =~= s.drop_last());
    }
}

/// No two entries of the object table share an id.
pub open spec fn ids_unique(s: Seq<(ObjectId, Object)>) -> bool {
    forall|i: int, j: int| 0 <= i < j < s.len() ==> #[trigger] s[i].0 != #[trigger] s[j].0
}

impl Document {
    /// Every object id is listed once.
    pub open spec fn wf(&self) -> bool {
        ids_unique(self.objects@)
    }

    /// The object that `id` resolves to, if any.
    pub open spec fn resolve(&self, id: ObjectId) -> Option<Object> {
        lookup_id(self.objects@, id)
    }

    pub open spec fn contains(&self, id: ObjectId) -> bool {
        self.resolve(id) is Some
    }

    /// The position of the entry that `id` resolves to: no later entry has that id.
    pub fn find(&self, id: ObjectId) -> (r: Option<usize>)
        ensures
            match r {
                Some(i) => i < self.objects@.len() && self.objects@[i as int].0 == id
                    && self.resolve(id) == Some(self.objects@[i as int].1)
                    && forall|j: int| i < j < self.objects@.len() ==> self.objects@[j].0 != id,
                None => self.resolve(id) is None,
            },
    {
        let mut i = self.objects.len();
        assert(self.objects@.subrange(0, i as int) =~= self.objects@);
        while i > 0
            invariant
                i <= self.objects@.len(),
                lookup_id(self.objects@, id) == lookup_id(self.objects@.subrange(0, i as int), id),
                forall|j: int| i <= j < self.objects@.len() ==> self.objects@[j].0 != id,
            decreases i,
        {
            let ghost pre = self.objects@.subrange(0, i as int);
            assert(pre.drop_last() =~= self.objects@.subrange(0, i - 1));
            let found = self.objects[i - 1].0;
            if found.0 == id.0 && found.1 == id.1 {
                return Some(i - 1);
            }
            i = i - 1;
        }
        None
    }

    /// The object that `id` resolves to, if any.
    pub fn get(&self, id: ObjectId) -> (r: Option<&Object>)
        ensures
            match r {
                Some(o) => self.resolve(id) == Some(*o),
                None => self.resolve(id) is None,
            },
    {
        match self.find(id) {
            Some(i) => Some(&self.objects[i].1),
            None => None,
        }
    }

    /// Puts `object` in place of the object that `id` resolves to. Every id keeps
    /// resolving exactly when it did before, so no reference is left dangling; an
    /// id that resolves to nothing is left so and `false` comes back.
    pub fn replace(&mut self, id: ObjectId, object: Object) -> (r: bool)
        ensures
            r == old(self).contains(id),
            final(self).trailer == old(self).trailer,
            final(self).objects@.len() == old(self).objects@.len(),
            forall|i: int| 0 <= i < old(self).objects@.len()
                ==> #[trigger] final(self).objects@[i].0 == old(self).objects@[i].0,
            r ==> final(self).resolve(id) == Some(object),
            forall|k: ObjectId| k != id ==> #[trigger] final(self).resolve(k) == old(self).resolve(k),
            forall|k: ObjectId| #[trigger] final(self).contains(k) == old(self).contains(k),
            old(self).wf() ==> final(self).wf(),
            !r ==> final(self).objects@ == old(self).objects@,
    {
        match self.find(id) {
            Some(i) => {
                let ghost s = self.objects@;
                let ghost o = object;
                self.objects.set(i, (id, object));
                proof {
                    assert(self.objects@ == s.update(i as int, (s[i as int].0, o)));
                    assert forall|k: ObjectId| true implies #[trigger] lookup_id(self.objects@, k)
                        == if k == id {
                        Some(o)
                    } else {
                        lookup_id(s, k)
                    } by {
                        lemma_lookup_id_update(s, i as int, o, k);
                    }
                }
                true
            },
            None => false,
        }
    }
}

/// Two object tables that list the same ids in the same order resolve the same
/// ids: a pass that only changes objects in place leaves every reference
/// resolving.
pub proof fn lemma_same_ids_same_domain(a: Seq<(ObjectId, Object)>, b: Seq<(ObjectId, Object)>, id: ObjectId)
    requires
        a.len() == b.len(),
        forall|i: int| 0 <= i < a.len() ==> #[trigger] a[i].0 == b[i].0,
    ensures
        lookup_id(a, id) is Some <==> lookup_id(b, id) is Some,
    decreases a.len(),
{
    if a.len() > 0 {
        assert(a.last().0 == b.last().0);
        lemma_same_ids_same_domain(a.drop_last(), b.drop_last(), id);
    }
}

/// In a table with unique ids, an id resolves to `v` exactly when the table
/// holds the entry `(id, v)`.
pub proof fn lemma_unique_lookup(s: Seq<(ObjectId, Object)>, id: ObjectId, v: Object)
    requires
        ids_unique(s),
    ensures
        lookup_id(s, id) == Some(v) <==> s.contains((id, v)),
    decreases s.len(),
{
    if s.len() > 0 {
        let t = s.drop_last();
        assert forall|i: int, j: int| 0 <= i < j < t.len() implies #[trigger] t[i].0 != #[trigger] t[j].0 by {
            assert(s[i] == t[i] && s[j] == t[j]);
        }
        lemma_unique_lookup(t, id, v);
        if s.contains((id, v)) && s.last() != (id, v) {
            let i = choose|i: int| 0 <= i < s.len() && s[i] == (id, v);
            assert(i < s.len() - 1);
            assert(s[i].0 != s[s.len() - 1].0);
            assert(s.last().0 != id);
            assert(t[i] == (id, v));
        }
        if t.contains((id, v)) {
            let i = choose|i: int| 0 <= i < t.len() && t[i] == (id, v);
            assert(s[i] == (id, v));
        }
        if s.last() == (id, v) {
            assert(s[s.len() - 1] == (id, v));
        }
    }
}

} // verus!
