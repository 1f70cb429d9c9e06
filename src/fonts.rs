use vstd::prelude::*;
use crate::document::{ids_unique, Document};
use crate::names;
use crate::object::{Dictionary, Object, ObjectId};

verus! {

/// The elements of `s` that `keep` holds of, in their order.
pub open spec fn retain<A>(s: Seq<A>, keep: spec_fn(A) -> bool) -> Seq<A>
    decreases s.len(),
{
    if s.len() == 0 {
        s
    } else if keep(s.first()) {
        seq![s.first()] + retain(s.drop_first(), keep)
    } else {
        retain(s.drop_first(), keep)
    }
}

pub proof fn lemma_retain_contains<A>(s: Seq<A>, keep: spec_fn(A) -> bool, x: A)
    ensures
        retain(s, keep).contains(x) <==> s.contains(x) && keep(x),
    decreases s.len(),
{
    if s.len() > 0 {
        lemma_retain_contains(s.drop_first(), keep, x);
        assert(s =~= seq![s.first()] + s.drop_first());
        if s.contains(x) && s.first() != x {
            let i = choose|i: int| 0 <= i < s.len() && s[i] == x;
            assert(s.drop_first()[i - 1] == x);
        }
        if keep(s.first()) {
            let r = retain(s.drop_first(), keep);
            if r.contains(x) {
                let i = choose|i: int| 0 <= i < r.len() && r[i] == x;
                assert((seq![s.first()] + r)[i + 1] == x);
            }
            if (seq![s.first()] + r).contains(x) && s.first() != x {
                let i = choose|i: int| 0 <= i < r.len() + 1 && (seq![s.first()] + r)[i] == x;
                assert(r[i - 1] == x);
            }
            assert((seq![s.first()] + r)[0] == s.first());
        }
        if s.drop_first().contains(x) {
            let i = choose|i: int| 0 <= i < s.drop_first().len() && s.drop_first()[i] == x;
            assert(s[i + 1] == x);
        }
    }
}

pub proof fn lemma_retain_all<A>(s: Seq<A>, keep: spec_fn(A) -> bool)
    requires
        forall|i: int| 0 <= i < s.len() ==> keep(#[trigger] s[i]),
    ensures
        retain(s, keep) == s,
    decreases s.len(),
{
    if s.len() > 0 {
        assert(keep(s[0]));
        lemma_retain_all(s.drop_first(), keep);
        assert(s =~= seq![s.first()] + s.drop_first());
    }
}

/// Keeping some entries of an object table keeps its ids unique.
pub proof fn lemma_retain_keeps_ids_unique(s: Seq<(ObjectId, Object)>, keep: spec_fn((ObjectId, Object)) -> bool)
    requires
        ids_unique(s),
    ensures
        ids_unique(retain(s, keep)),
    decreases s.len(),
{
    if s.len() > 0 {
        let t = s.drop_first();
        assert forall|i: int, j: int| 0 <= i < j < t.len() implies #[trigger] t[i].0 != #[trigger] t[j].0 by {
            assert(s[i + 1] == t[i] && s[j + 1] == t[j]);
        }
        lemma_retain_keeps_ids_unique(t, keep);
        if keep(s.first()) {
            let r = retain(t, keep);
            let u = seq![s.first()] + r;
            assert forall|i: int, j: int| 0 <= i < j < u.len() implies #[trigger] u[i].0 != #[trigger] u[j].0 by {
                if i == 0 {
                    let e = r[j - 1];
                    assert(r.contains(e));
                    lemma_retain_contains(t, keep, e);
                    let k = choose|k: int| 0 <= k < t.len() && t[k] == e;
                    assert(s[k + 1] == e);
                } else {
                    assert(u[i] == r[i - 1] && u[j] == r[j - 1]);
                }
            }
        }
    }
}

/// A dictionary whose `Type` is the name `Font`.
pub open spec fn is_font(o: Object) -> bool {
    match o {
        Object::Dictionary(d) => match d.lookup(names::name_type()) {
            Some(Object::Name(n)) => n@ == names::name_font(),
            _ => false,
        },
        _ => false,
    }
}

/// A page's font map: its resources' `Font` entry, itself a dictionary or a
/// reference to one.
pub open spec fn font_map(doc: Document, resources: Option<Dictionary>) -> Option<Dictionary> {
    match resources {
        Some(r) => match r.lookup(names::name_font()) {
            Some(Object::Dictionary(f)) => Some(f),
            Some(Object::Reference(fid)) => match doc.resolve(fid) {
                Some(Object::Dictionary(f)) => Some(f),
                _ => None,
            },
            _ => None,
        },
        None => None,
    }
}

/// Some entry of the dictionary refers to `id`.
pub open spec fn refers_to(d: Dictionary, id: ObjectId) -> bool {
    exists|k: int| 0 <= k < d.entries@.len() && #[trigger] d.entries@[k].1 == Object::Reference(id)
}

pub open spec fn page_uses(doc: Document, resources: Option<Dictionary>, id: ObjectId) -> bool {
    match font_map(doc, resources) {
        Some(f) => refers_to(f, id),
        None => false,
    }
}

/// Some page's font map refers to `id`.
pub open spec fn used_by_pages(doc: Document, pages: Seq<Option<Dictionary>>, id: ObjectId) -> bool {
    exists|p: int| 0 <= p < pages.len() && #[trigger] page_uses(doc, pages[p], id)
}

/// A font object that no page uses.
pub open spec fn unused_font(doc: Document, pages: Seq<Option<Dictionary>>, e: (ObjectId, Object)) -> bool {
    is_font(e.1) && !used_by_pages(doc, pages, e.0)
}

/// Whether an entry survives the sweep.
pub open spec fn survives(doc: Document, pages: Seq<Option<Dictionary>>) -> spec_fn((ObjectId, Object)) -> bool {
    |e: (ObjectId, Object)| !unused_font(doc, pages, e)
}

/// The object table once the unused fonts are gone.
pub open spec fn swept(doc: Document, pages: Seq<Option<Dictionary>>) -> Seq<(ObjectId, Object)> {
    retain(doc.objects@, survives(doc, pages))
}

/// Whether `o` is a font dictionary.
pub fn is_font_object(o: &Object) -> (r: bool)
    ensures
        r == is_font(*o),
{
    match o {
        Object::Dictionary(d) => {
            let k = names::key_type();
            match d.get(k.as_slice()) {
                Some(Object::Name(n)) => {
                    let f = names::key_font();
                    crate::object::bytes_eq(n.as_slice(), f.as_slice())
                },
                _ => false,
            }
        },
        _ => false,
    }
}

fn id_listed(ids: &Vec<ObjectId>, id: ObjectId) -> (r: bool)
    ensures
        r == ids@.contains(id),
{
    let mut i: usize = 0;
    while i < ids.len()
        invariant
            i <= ids@.len(),
            forall|j: int| 0 <= j < i ==> ids@[j] != id,
        decreases ids@.len() - i,
    {
        let x = ids[i];
        if x.0 == id.0 && x.1 == id.1 {
            assert(ids@[i as int] == id);
            return true;
        }
        i = i + 1;
    }
    false
}

/// Mark: every font id that some page's font map refers to.
pub fn used_fonts(doc: &Document, pages: &Vec<Option<Dictionary>>) -> (r: Vec<ObjectId>)
    ensures
        forall|id: ObjectId| #[trigger] r@.contains(id) <==> used_by_pages(*doc, pages@, id),
{
    let mut used: Vec<ObjectId> = Vec::new();
    let mut p: usize = 0;
    let fk = names::key_font();
    while p < pages.len()
        invariant
            p <= pages@.len(),
            fk@ == names::name_font(),
            forall|id: ObjectId| #[trigger] used@.contains(id) <==> exists|q: int|
                0 <= q < p && #[trigger] page_uses(*doc, pages@[q], id),
        decreases pages@.len() - p,
    {
        let ghost before = used@;
        let fonts: Option<&Dictionary> = match &pages[p] {
            Some(res) => match res.get(fk.as_slice()) {
                Some(Object::Dictionary(f)) => Some(f),
                Some(Object::Reference(fid)) => match doc.get(*fid) {
                    Some(Object::Dictionary(f)) => Some(f),
                    _ => None,
                },
                _ => None,
            },
            None => None,
        };
        assert(fonts matches Some(f) ==> font_map(*doc, pages@[p as int]) == Some(*f));
        assert(fonts is None ==> font_map(*doc, pages@[p as int]) is None);
        if let Some(f) = fonts {
            let mut k: usize = 0;
            while k < f.entries.len()
                invariant
                    k <= f.entries@.len(),
                    forall|id: ObjectId| #[trigger] used@.contains(id) <==> before.contains(id)
                        || exists|j: int| 0 <= j < k && #[trigger] f.entries@[j].1 == Object::Reference(id),
                decreases f.entries@.len() - k,
            {
                let ghost u0 = used@;
                if let Object::Reference(id) = &f.entries[k].1 {
                    used.push(*id);
                    proof {
                        assert forall|x: ObjectId| #[trigger] used@.contains(x) <==> u0.contains(x) || x == *id by {
                            if used@.contains(x) && x != *id {
                                let j = choose|j: int| 0 <= j < used@.len() && used@[j] == x;
                                assert(u0[j] == x);
                            }
                            if u0.contains(x) {
                                let j = choose|j: int| 0 <= j < u0.len() && u0[j] == x;
                                assert(used@[j] == x);
                            }
                            if x == *id {
                                assert(used@[u0.len() as int] == x);
                            }
                        }
                    }
                }
                k = k + 1;
            }
        }
        proof {
            assert forall|id: ObjectId| #[trigger] used@.contains(id) <==> exists|q: int|
                0 <= q < p + 1 && #[trigger] page_uses(*doc, pages@[q], id) by {
                if used@.contains(id) && !before.contains(id) {
                    assert(page_uses(*doc, pages@[p as int], id));
                }
                if exists|q: int| 0 <= q < p + 1 && #[trigger] page_uses(*doc, pages@[q], id) {
                    let q = choose|q: int| 0 <= q < p + 1 && #[trigger] page_uses(*doc, pages@[q], id);
                    if q == p {
                        let f = font_map(*doc, pages@[p as int]).unwrap();
                        let j = choose|j: int| 0 <= j < f.entries@.len() && #[trigger] f.entries@[j].1 == Object::Reference(id);
                        assert(f.entries@[j].1 == Object::Reference(id));
                    }
                }
            }
        }
        p = p + 1;
    }
    used
}

/// Font garbage collection: marks every font that some page's font map refers
/// to, then deletes each font object that was not marked. `pages` holds each
/// page's resource dictionary; a page whose resources could not be read comes
/// as `None` and marks nothing.
pub fn remove_unused_fonts(doc: &mut Document, pages: &Vec<Option<Dictionary>>)
    ensures
        final(doc).objects@ == swept(*old(doc), pages@),
        final(doc).trailer == old(doc).trailer,
        old(doc).wf() ==> final(doc).wf(),
{
    let used = used_fonts(doc, pages);
    let ghost d0 = *doc;
    let ghost keep = survives(d0, pages@);
    let ghost orig = doc.objects@;
    let n = doc.objects.len();
    let mut i = n;
    assert(orig.subrange(n as int, n as int) =~= Seq::<(ObjectId, Object)>::empty());
    while i > 0
        invariant
            i <= n == orig.len(),
            doc.trailer == d0.trailer,
            keep == survives(d0, pages@),
            forall|id: ObjectId| #[trigger] used@.contains(id) <==> used_by_pages(d0, pages@, id),
            doc.objects@ == orig.subrange(0, i as int) + retain(orig.subrange(i as int, n as int), keep),
        decreases i,
    {
        let ghost tail = orig.subrange(i as int, n as int);
        let ghost longer = orig.subrange(i - 1, n as int);
        assert(longer.drop_first() =~= tail);
        assert(longer.first() == orig[i - 1]);
        assert(doc.objects@[i - 1] == orig[i - 1]);
        let font = is_font_object(&doc.objects[i - 1].1);
        let listed = id_listed(&used, doc.objects[i - 1].0);
        let doomed = font && !listed;
        assert(listed == used_by_pages(d0, pages@, orig[i - 1].0));
        assert(doomed == unused_font(d0, pages@, orig[i - 1]));
        assert(doomed == !keep(orig[i - 1]));
        assert(retain(longer, keep) == if keep(orig[i - 1]) {
            seq![orig[i - 1]] + retain(tail, keep)
        } else {
            retain(tail, keep)
        });
        assert(orig.subrange(0, i as int) =~= orig.subrange(0, i - 1).push(orig[i - 1]));
        if doomed {
            doc.objects.remove(i - 1);
            assert(doc.objects@ =~= orig.subrange(0, i - 1) + retain(longer, keep));
        } else {
            assert(doc.objects@ =~= orig.subrange(0, i - 1) + retain(longer, keep));
        }
        i = i - 1;
    }
    assert(orig.subrange(0, n as int) =~= orig);
    assert(doc.objects@ =~= retain(orig, keep));
    proof {
        if d0.wf() {
            lemma_retain_keeps_ids_unique(orig, keep);
        }
    }
}

/// Font garbage collection removes nothing when every font object is used by
/// some page.
pub proof fn lemma_font_gc_noop_when_all_used(doc: Document, pages: Seq<Option<Dictionary>>)
    requires
        forall|i: int| 0 <= i < doc.objects@.len() && is_font(#[trigger] doc.objects@[i].1)
            ==> used_by_pages(doc, pages, doc.objects@[i].0),
    ensures
        swept(doc, pages) == doc.objects@,
{
    let keep = survives(doc, pages);
    assert forall|i: int| 0 <= i < doc.objects@.len() implies keep(#[trigger] doc.objects@[i]) by {
        if is_font(doc.objects@[i].1) {
            assert(used_by_pages(doc, pages, doc.objects@[i].0));
        }
    }
    lemma_retain_all(doc.objects@, keep);
}

/// Font garbage collection removes exactly the font objects that no page uses:
/// an entry stays if and only if it was there and is not such a font.
pub proof fn lemma_font_gc_removes_exactly_unused(doc: Document, pages: Seq<Option<Dictionary>>, e: (ObjectId, Object))
    ensures
        swept(doc, pages).contains(e) <==> doc.objects@.contains(e) && !unused_font(doc, pages, e),
{
    lemma_retain_contains(doc.objects@, survives(doc, pages), e);
}

} // verus!
