//! The document compressor: metadata redaction, font garbage collection and
//! image recompression, run in that order over one object graph.
use vstd::prelude::*;
use crate::config_json::PdfConfig;
use crate::document::{ids_unique, lemma_unique_lookup, Document};
use crate::fonts::{lemma_retain_contains, lemma_retain_keeps_ids_unique, remove_unused_fonts, survives, swept};
use crate::images::{compress_images, image_kind, may_fail, replaced, ColorProfiles, DecodedJpeg, ImageFailure, ImageKind};
use crate::names;
use crate::object::{without_key, Dictionary, Object, ObjectId};
use crate::redact::{catalog_of, redact_metadata, redacted_trailer, root_id};

verus! {

/// `after` is `before` with the chosen metadata removed.
pub open spec fn redaction_of(before: Document, after: Document, strip_info: bool, strip_metadata: bool) -> bool {
    &&& after.trailer.entries@ == redacted_trailer(before.trailer.entries@, strip_info, strip_metadata)
    &&& !strip_info && !strip_metadata ==> after == before
    &&& strip_metadata ==> match catalog_of(after) {
        Some(c) => !c.has(names::name_metadata()),
        None => true,
    }
    &&& strip_metadata && catalog_of(before) is Some ==> catalog_of(after) is Some
        && catalog_of(after).unwrap().entries@ == without_key(
        catalog_of(before).unwrap().entries@,
        names::name_metadata(),
    )
    &&& after.objects@.len() == before.objects@.len()
    &&& forall|i: int| 0 <= i < before.objects@.len() ==> #[trigger] after.objects@[i].0 == before.objects@[i].0
    &&& forall|id: ObjectId| !(strip_metadata && catalog_of(before) is Some && root_id(before.trailer) == Some(id))
        ==> #[trigger] after.resolve(id) == before.resolve(id)
    &&& forall|i: int| 0 <= i < before.objects@.len() ==> #[trigger] after.objects@[i].1 == before.objects@[i].1
        || (before.objects@[i].1 is Dictionary && after.objects@[i].1 is Dictionary)
}

/// No object of the table is an image that the pipeline re-encodes.
pub open spec fn without_images(objects: Seq<(ObjectId, Object)>) -> bool {
    forall|i: int| 0 <= i < objects.len() ==> image_kind(#[trigger] objects[i].1) == ImageKind::Untouched
}

/// `after` is `before` with every JPEG and raw Flate image recompressed.
pub open spec fn images_of<F: Fn(&Vec<u8>) -> Option<DecodedJpeg>>(
    decode: F,
    before: Document,
    after: Document,
    config: PdfConfig,
    profiles: ColorProfiles,
) -> bool {
    &&& after.trailer == before.trailer
    &&& after.objects@.len() == before.objects@.len()
    &&& forall|i: int| 0 <= i < before.objects@.len() ==> #[trigger] after.objects@[i].0 == before.objects@[i].0
    &&& forall|i: int| 0 <= i < before.objects@.len() ==> replaced(
        decode,
        #[trigger] before.objects@[i].1,
        after.objects@[i].1,
        config,
        profiles,
    )
}

/// Some image of `doc` may fail with `f`: its id is `f.id` and `may_fail` holds.
pub open spec fn failed_in<F: Fn(&Vec<u8>) -> Option<DecodedJpeg>>(
    decode: F,
    doc: Document,
    f: ImageFailure,
    config: PdfConfig,
    profiles: ColorProfiles,
) -> bool {
    exists|i: int| 0 <= i < doc.objects@.len() && (#[trigger] doc.objects@[i]).0 == f.id
        && may_fail(decode, doc.objects@[i].1, f.error, config, profiles)
}

/// The stages before image recompression: `mid` is `before` once redacted and,
/// where the configuration asks for it, swept of unused fonts.
pub open spec fn prepared(before: Document, mid: Document, pages: Seq<Option<Dictionary>>, config: PdfConfig) -> bool {
    exists|redacted: Document| {
        &&& #[trigger] redaction_of(before, redacted, config.remove_info, config.remove_metadata)
        &&& if config.remove_unuse_fonts {
            mid.objects@ == swept(redacted, pages) && mid.trailer == redacted.trailer
        } else {
            mid == redacted
        }
    }
}

/// Runs the three passes over `doc`: metadata redaction, then (when configured)
/// font garbage collection with the page resources in `pages`, then image
/// recompression. Should an image fail, the document stays as the first two
/// passes left it and the failing image is named.
pub fn compress_document<F>(
    doc: &mut Document,
    pages: &Vec<Option<Dictionary>>,
    config: &PdfConfig,
    profiles: &ColorProfiles,
    decode: F,
) -> (r: Result<(), ImageFailure>)
    where
        F: Fn(&Vec<u8>) -> Option<DecodedJpeg>,
    requires
        config.jpeg.max_length >= 1,
        forall|b: &Vec<u8>| #[trigger] decode.requires((b,)),
    ensures
        exists|mid: Document| {
            &&& prepared(*old(doc), mid, pages@, *config)
            &&& match r {
                Ok(_) => images_of(decode, mid, *final(doc), *config, *profiles),
                Err(f) => *final(doc) == mid && failed_in(decode, mid, f, *config, *profiles),
            }
        },
        without_images(old(doc).objects@) ==> r is Ok,
        old(doc).wf() ==> final(doc).wf(),
{
    let ghost d0 = *doc;
    redact_metadata(doc, config.remove_info, config.remove_metadata);
    let ghost d1 = *doc;
    assert(redaction_of(d0, d1, config.remove_info, config.remove_metadata));
    if config.remove_unuse_fonts {
        remove_unused_fonts(doc, pages);
    }
    let ghost d2 = *doc;
    assert(if config.remove_unuse_fonts {
        d2.objects@ == swept(d1, pages@) && d2.trailer == d1.trailer
    } else {
        d2 == d1
    });
    assert(prepared(d0, d2, pages@, *config));
    proof {
        if without_images(d0.objects@) {
            assert(without_images(d1.objects@));
            if config.remove_unuse_fonts {
                assert forall|k: int| 0 <= k < d2.objects@.len() implies image_kind(#[trigger] d2.objects@[k].1)
                    == ImageKind::Untouched by {
                    let x = d2.objects@[k];
                    assert(swept(d1, pages@).contains(x));
                    lemma_retain_contains(d1.objects@, survives(d1, pages@), x);
                    let j = choose|j: int| 0 <= j < d1.objects@.len() && d1.objects@[j] == x;
                    assert(image_kind(d1.objects@[j].1) == ImageKind::Untouched);
                }
            }
            assert(without_images(d2.objects@));
        }
    }
    let r = compress_images(doc, config, profiles, decode);
    proof {
        match r {
            Ok(_) => assert(images_of(decode, d2, *doc, *config, *profiles)),
            Err(f) => assert(*doc == d2 && failed_in(decode, d2, f, *config, *profiles)),
        }
    }
    r
}

/// After a full run the trailer holds exactly what redaction left: `Info` gone
/// when it is stripped, `Metadata` gone when it is stripped, both kept when
/// neither is.
pub proof fn lemma_run_redacts_trailer<F: Fn(&Vec<u8>) -> Option<DecodedJpeg>>(
    decode: F,
    before: Document,
    mid: Document,
    after: Document,
    pages: Seq<Option<Dictionary>>,
    config: PdfConfig,
    profiles: ColorProfiles,
)
    requires
        prepared(before, mid, pages, config),
        images_of(decode, mid, after, config, profiles),
    ensures
        after.trailer.entries@ == redacted_trailer(before.trailer.entries@, config.remove_info, config.remove_metadata),
{
}

/// A stream that is no image the pipeline re-encodes (another filter, another
/// color space, or no image at all) comes out of a full run byte for byte as it
/// was, under the same id.
pub proof fn lemma_run_passes_other_streams_through<F: Fn(&Vec<u8>) -> Option<DecodedJpeg>>(
    decode: F,
    before: Document,
    mid: Document,
    after: Document,
    pages: Seq<Option<Dictionary>>,
    config: PdfConfig,
    profiles: ColorProfiles,
    i: int,
)
    requires
        prepared(before, mid, pages, config),
        images_of(decode, mid, after, config, profiles),
        0 <= i < before.objects@.len(),
        before.objects@[i].1 is Stream,
        image_kind(before.objects@[i].1) == ImageKind::Untouched,
    ensures
        after.objects@.contains(before.objects@[i]),
{
    let e = before.objects@[i];
    let redacted = choose|redacted: Document| {
        &&& #[trigger] redaction_of(before, redacted, config.remove_info, config.remove_metadata)
        &&& if config.remove_unuse_fonts {
            mid.objects@ == swept(redacted, pages) && mid.trailer == redacted.trailer
        } else {
            mid == redacted
        }
    };
    assert(redacted.objects@[i] == e);
    assert(redacted.objects@.contains(e));
    if config.remove_unuse_fonts {
        lemma_retain_contains(redacted.objects@, survives(redacted, pages), e);
    }
    assert(mid.objects@.contains(e));
    let j = choose|j: int| 0 <= j < mid.objects@.len() && mid.objects@[j] == e;
    assert(replaced(decode, mid.objects@[j].1, after.objects@[j].1, config, profiles));
    assert(after.objects@[j] == e);
}

/// After a full run with `Metadata` stripped, the catalog of a document whose
/// ids are unique has no `Metadata` entry (where the trailer's `Root` still
/// resolves to a dictionary).
pub proof fn lemma_run_strips_catalog_metadata<F: Fn(&Vec<u8>) -> Option<DecodedJpeg>>(
    decode: F,
    before: Document,
    mid: Document,
    after: Document,
    pages: Seq<Option<Dictionary>>,
    config: PdfConfig,
    profiles: ColorProfiles,
)
    requires
        before.wf(),
        config.remove_metadata,
        prepared(before, mid, pages, config),
        images_of(decode, mid, after, config, profiles),
    ensures
        match catalog_of(after) {
            Some(c) => !c.has(names::name_metadata()),
            None => true,
        },
{
    let redacted = choose|redacted: Document| {
        &&& #[trigger] redaction_of(before, redacted, config.remove_info, config.remove_metadata)
        &&& if config.remove_unuse_fonts {
            mid.objects@ == swept(redacted, pages) && mid.trailer == redacted.trailer
        } else {
            mid == redacted
        }
    };
    assert forall|i: int, j: int| 0 <= i < j < redacted.objects@.len() implies #[trigger] redacted.objects@[i].0
        != #[trigger] redacted.objects@[j].0 by {
        assert(redacted.objects@[i].0 == before.objects@[i].0 && redacted.objects@[j].0 == before.objects@[j].0);
    }
    if config.remove_unuse_fonts {
        lemma_retain_keeps_ids_unique(redacted.objects@, survives(redacted, pages));
    }
    assert(ids_unique(mid.objects@));
    assert forall|i: int, j: int| 0 <= i < j < after.objects@.len() implies #[trigger] after.objects@[i].0
        != #[trigger] after.objects@[j].0 by {
        assert(after.objects@[i].0 == mid.objects@[i].0 && after.objects@[j].0 == mid.objects@[j].0);
    }
    if let Some(c) = catalog_of(after) {
        let root = root_id(after.trailer).unwrap();
        let o = Object::Dictionary(c);
        lemma_unique_lookup(after.objects@, root, o);
        let j = choose|j: int| 0 <= j < after.objects@.len() && after.objects@[j] == (root, o);
        assert(replaced(decode, mid.objects@[j].1, after.objects@[j].1, config, profiles));
        assert(mid.objects@[j] == (root, o));
        assert(mid.objects@.contains((root, o)));
        if config.remove_unuse_fonts {
            lemma_retain_contains(redacted.objects@, survives(redacted, pages), (root, o));
        }
        assert(redacted.objects@.contains((root, o)));
        lemma_unique_lookup(redacted.objects@, root, o);
        assert(catalog_of(redacted) == Some(c));
    }
}

} // verus!
