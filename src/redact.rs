use vstd::prelude::*;
use crate::document::{lemma_lookup_id_update, lookup_id, Document};
use crate::names;
use crate::object::{without_key, Dictionary, Object, ObjectId};

verus! {

/// The id that the trailer's `Root` entry refers to.
pub open spec fn root_id(trailer: Dictionary) -> Option<ObjectId> {
    match trailer.lookup(names::name_root()) {
        Some(Object::Reference(id)) => Some(id),
        _ => None,
    }
}

/// The catalog dictionary, where the trailer's `Root` resolves to a dictionary.
pub open spec fn catalog_of(doc: Document) -> Option<Dictionary> {
    match root_id(doc.trailer) {
        Some(id) => match doc.resolve(id) {
            Some(Object::Dictionary(c)) => Some(c),
            _ => None,
        },
        None => None,
    }
}

/// The trailer's entries once the chosen keys are gone.
pub open spec fn redacted_trailer(
    t: Seq<(Vec<u8>, Object)>,
    strip_info: bool,
    strip_metadata: bool,
) -> Seq<(Vec<u8>, Object)> {
    let a = if strip_info {
        without_key(t, names::name_info())
    } else {
        t
    };
    if strip_metadata {
        without_key(a, names::name_metadata())
    } else {
        a
    }
}

/// Removes `Info` from the trailer when `strip_info` is set; removes `Metadata`
/// from the trailer and from the catalog when `strip_metadata` is set.
pub fn redact_metadata(doc: &mut Document, strip_info: bool, strip_metadata: bool)
    ensures
        final(doc).trailer.entries@ == redacted_trailer(
            old(doc).trailer.entries@,
            strip_info,
            strip_metadata,
        ),
        strip_info ==> !final(doc).trailer.has(names::name_info()),
        strip_metadata ==> !final(doc).trailer.has(names::name_metadata()),
        strip_metadata ==> match catalog_of(*final(doc)) {
            Some(c) => !c.has(names::name_metadata()),
            None => true,
        },
        strip_metadata && catalog_of(*old(doc)) is Some ==> catalog_of(*final(doc)) is Some
            && catalog_of(*final(doc)).unwrap().entries@ == without_key(
            catalog_of(*old(doc)).unwrap().entries@,
            names::name_metadata(),
        ),
        final(doc).objects@.len() == old(doc).objects@.len(),
        forall|i: int| 0 <= i < old(doc).objects@.len()
            ==> #[trigger] final(doc).objects@[i].0 == old(doc).objects@[i].0,
        forall|id: ObjectId| #[trigger] final(doc).contains(id) == old(doc).contains(id),
        old(doc).wf() ==> final(doc).wf(),
        forall|i: int| 0 <= i < old(doc).objects@.len() ==> #[trigger] final(doc).objects@[i].1
            == old(doc).objects@[i].1 || (old(doc).objects@[i].1 is Dictionary && final(doc).objects@[i].1 is Dictionary),
        forall|id: ObjectId| !(strip_metadata && catalog_of(*old(doc)) is Some
            && root_id(old(doc).trailer) == Some(id))
            ==> #[trigger] final(doc).resolve(id) == old(doc).resolve(id),
        !strip_info && !strip_metadata ==> *final(doc) == *old(doc),
{
    if strip_info {
        let k = names::key_info();
        doc.trailer.remove(k.as_slice());
    }
    if strip_metadata {
        let k = names::key_metadata();
        doc.trailer.remove(k.as_slice());
        let kr = names::key_root();
        assert(doc.trailer.lookup(names::name_root()) == old(doc).trailer.lookup(names::name_root()));
        let root = match doc.trailer.get(kr.as_slice()) {
            Some(Object::Reference(id)) => Some(*id),
            _ => None,
        };
        if let Some(id) = root {
            if let Some(i) = doc.find(id) {
                let ghost s = doc.objects@;
                let (oid, obj) = doc.objects.remove(i);
                match obj {
                    Object::Dictionary(mut catalog) => {
                        let ghost c0 = catalog;
                        catalog.remove(k.as_slice());
                        let ghost o = Object::Dictionary(catalog);
                        doc.objects.insert(i, (oid, Object::Dictionary(catalog)));
                        proof {
                            assert(doc.objects@ =~= s.update(i as int, (s[i as int].0, o)));
                            assert forall|k2: ObjectId| true implies #[trigger] lookup_id(doc.objects@, k2)
                                == if k2 == id {
                                Some(o)
                            } else {
                                lookup_id(s, k2)
                            } by {
                                lemma_lookup_id_update(s, i as int, o, k2);
                            }
                        }
                    },
                    other => {
                        doc.objects.insert(i, (oid, other));
                        assert(doc.objects@ =~= s);
                    },
                }
            }
        }
    }
}

} // verus!
