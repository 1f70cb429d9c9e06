use vstd::prelude::*;

verus! {

/// An object number and a generation number, unique within a document.
pub type ObjectId = (u32, u16);

/// How a string object is written in the file.
#[derive(Clone, Copy, Debug, PartialEq, Eq, Structural)]
pub enum StringFormat {
    Literal,
    Hexadecimal,
}

/// A value of the document's object graph.
///
/// A real number is held as the text it is written with, so that it survives
/// a round trip through this model unchanged.
#[derive(Debug)]
pub enum Object {
    Null,
    Boolean(bool),
    Integer(i64),
    Real(Vec<u8>),
    Name(Vec<u8>),
    Text(Vec<u8>, StringFormat),
    Array(Vec<Object>),
    Dictionary(Dictionary),
    Stream(Stream),
    Reference(ObjectId),
}

/// A dictionary: entries from a name to a value, in the order they were written.
#[derive(Debug)]
pub struct Dictionary {
    pub entries: Vec<(Vec<u8>, Object)>,
}

/// A dictionary with a raw byte payload.
#[derive(Debug)]
pub struct Stream {
    pub dict: Dictionary,
    pub content: Vec<u8>,
}

/// The value stored under `k`; where a key is written twice, the later entry counts.
pub open spec fn lookup_key(s: Seq<(Vec<u8>, Object)>, k: Seq<u8>) -> Option<Object>
    decreases s.len(),
{
    if s.len() == 0 {
        None
    } else if s.last().0@ == k {
        Some(s.last().1)
    } else {
        lookup_key(s.drop_last(), k)
    }
}

/// The entries of `s` whose key is not `k`, in their order.
pub open spec fn without_key(s: Seq<(Vec<u8>, Object)>, k: Seq<u8>) -> Seq<(Vec<u8>, Object)>
    decreases s.len(),
{
    if s.len() == 0 {
        s
    } else if s.first().0@ == k {
        without_key(s.drop_first(), k)
    } else {
        seq![s.first()] + without_key(s.drop_first(), k)
    }
}

pub proof fn lemma_lookup_push(s: Seq<(Vec<u8>, Object)>, e: (Vec<u8>, Object), k: Seq<u8>)
    ensures
        lookup_key(s.push(e), k) == if e.0@ == k {
            Some(e.1)
        } else {
            lookup_key(s, k)
        },
{
    assert(s.push(e).drop_last() =~= s);
}

pub proof fn lemma_lookup_prepend(s: Seq<(Vec<u8>, Object)>, e: (Vec<u8>, Object), k: Seq<u8>)
    ensures
        lookup_key(seq![e] + s, k) == match lookup_key(s, k) {
            Some(v) => Some(v),
            None => if e.0@ == k {
                Some(e.1)
            } else {
                None
            },
        },
    decreases s.len(),
{
    if s.len() == 0 {
        assert((seq![e] + s).drop_last() =~= s);
    } else {
        assert((seq![e] + s).drop_last() =~= seq![e] + s.drop_last());
        lemma_lookup_prepend(s.drop_last(), e, k);
    }
}

pub proof fn lemma_lookup_without(s: Seq<(Vec<u8>, Object)>, k: Seq<u8>, k2: Seq<u8>)
    ensures
        lookup_key(without_key(s, k), k2) == if k2 == k {
            None
        } else {
            lookup_key(s, k2)
        },
    decreases s.len(),
{
    if s.len() > 0 {
        let t = s.drop_first();
        lemma_lookup_without(t, k, k2);
        assert(s =~= seq![s.first()] + t);
        lemma_lookup_prepend(t, s.first(), k2);
        if s.first().0@ != k {
            lemma_lookup_prepend(without_key(t, k), s.first(), k2);
        }
    }
}

impl Dictionary {
    /// The value stored under `k`, if any.
    pub open spec fn lookup(&self, k: Seq<u8>) -> Option<Object> {
        lookup_key(self.entries@, k)
    }

    pub open spec fn has(&self, k: Seq<u8>) -> bool {
        self.lookup(k) is Some
    }

    /// An empty dictionary.
    pub fn new() -> (r: Dictionary)
        ensures
            r.entries@.len() == 0,
            forall|k: Seq<u8>| #[trigger] r.lookup(k) is None,
    {
        Dictionary { entries: Vec::new() }
    }

    /// The position of the entry that holds the value under `key`.
    pub fn find(&self, key: &[u8]) -> (r: Option<usize>)
        ensures
            match r {
                Some(i) => i < self.entries@.len() && self.entries@[i as int].0@ == key@
                    && self.lookup(key@) == Some(self.entries@[i as int].1),
                None => self.lookup(key@) is None,
            },
    {
        let mut i = self.entries.len();
        assert(self.entries@.subrange(0, i as int) =~= self.entries@);
        while i > 0
            invariant
                i <= self.entries@.len(),
                lookup_key(self.entries@, key@) == lookup_key(self.entries@.subrange(0, i as int), key@),
            decreases i,
        {
            let ghost pre = self.entries@.subrange(0, i as int);
            assert(pre.drop_last() =~= self.entries@.subrange(0, i - 1));
            if bytes_eq(self.entries[i - 1].0.as_slice(), key) {
                return Some(i - 1);
            }
            i = i - 1;
        }
        None
    }

    /// The value stored under `key`, if any.
    pub fn get(&self, key: &[u8]) -> (r: Option<&Object>)
        ensures
            match r {
                Some(o) => self.lookup(key@) == Some(*o),
                None => self.lookup(key@) is None,
            },
    {
        match self.find(key) {
            Some(i) => Some(&self.entries[i].1),
            None => None,
        }
    }

    /// Removes every entry under `key`; missing keys are no error.
    pub fn remove(&mut self, key: &[u8])
        ensures
            final(self).entries@ == without_key(old(self).entries@, key@),
            final(self).lookup(key@) is None,
            forall|k: Seq<u8>| k != key@ ==> #[trigger] final(self).lookup(k) == old(self).lookup(k),
    {
        let ghost orig = self.entries@;
        let n = self.entries.len();
        let mut i = n;
        while i > 0
            invariant
                i <= n == orig.len(),
                self.entries@ == orig.subrange(0, i as int) + without_key(orig.subrange(i as int, n as int), key@),
            decreases i,
        {
            let ghost tail = orig.subrange(i as int, n as int);
            let ghost longer = orig.subrange(i - 1, n as int);
            assert(longer.drop_first() =~= tail);
            assert(longer.first() == orig[i - 1]);
            assert(orig.subrange(0, i as int) =~= orig.subrange(0, i - 1).push(orig[i - 1]));
            if bytes_eq(self.entries[i - 1].0.as_slice(), key) {
                self.entries.remove(i - 1);
                assert(self.entries@ =~= orig.subrange(0, i - 1) + without_key(longer, key@));
            } else {
                assert(self.entries@ =~= orig.subrange(0, i - 1) + without_key(longer, key@));
            }
            i = i - 1;
        }
        assert(orig.subrange(0, n as int) =~= orig);
        assert(orig.subrange(0, 0) + without_key(orig, key@) =~= without_key(orig, key@));
        proof {
            assert forall|k: Seq<u8>| true implies #[trigger] lookup_key(self.entries@, k) == if k == key@ {
                None
            } else {
                lookup_key(orig, k)
            } by {
                lemma_lookup_without(orig, key@, k);
            }
        }
    }

    /// Stores `value` under `key`, in place of any earlier value.
    pub fn set(&mut self, key: Vec<u8>, value: Object)
        ensures
            final(self).lookup(key@) == Some(value),
            forall|k: Seq<u8>| k != key@ ==> #[trigger] final(self).lookup(k) == old(self).lookup(k),
    {
        let ghost k0 = key@;
        self.remove(key.as_slice());
        let ghost mid_d = *self;
        let ghost mid = self.entries@;
        self.entries.push((key, value));
        proof {
            lemma_lookup_push(mid, (key, value), k0);
            assert forall|k: Seq<u8>| k != k0 implies #[trigger] self.lookup(k) == old(self).lookup(k) by {
                lemma_lookup_push(mid, (key, value), k);
                assert(mid_d.lookup(k) == old(self).lookup(k));
            }
        }
    }
}

/// Byte-wise equality of two slices.
pub fn bytes_eq(a: &[u8], b: &[u8]) -> (r: bool)
    ensures
        r == (a@ == b@),
{
    if a.len() != b.len() {
        return false;
    }
    let mut i: usize = 0;
    while i < a.len()
        invariant
            a@.len() == b@.len(),
            i <= a@.len(),
            forall|j: int| 0 <= j < i ==> a@[j] == b@[j],
        decreases a@.len() - i,
    {
        if a[i] != b[i] {
            return false;
        }
        i = i + 1;
    }
    assert(a@ =~= b@);
    true
}

} // verus!
