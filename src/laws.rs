//! Properties of whole passes, stated over the models of the other modules.

use vstd::prelude::*;
use crate::document::{document_of, magnet_link, TorrentView, DEFAULT_POSTER};
use crate::record::{decoded_files, parent_of_row, FileView, ParentView};
use crate::row::Cell;

verus! {

/// The documents that one pass publishes: one for each parent row that
/// decodes, in row order, with the files that `children` holds for its identity.
pub open spec fn pass_documents(
    parents: Seq<Vec<Cell>>,
    children: spec_fn(u64) -> Seq<Vec<Cell>>,
) -> Seq<TorrentView>
    decreases parents.len(),
{
    if parents.len() == 0 {
        Seq::empty()
    } else {
        let rest = pass_documents(parents.drop_last(), children);
        match parent_of_row(parents.last()@) {
            Ok(p) => rest.push(document_of(p, decoded_files(children(p.id)))),
            Err(_) => rest,
        }
    }
}

/// The number of parent rows that do not decode.
pub open spec fn malformed_rows(parents: Seq<Vec<Cell>>) -> nat
    decreases parents.len(),
{
    if parents.len() == 0 {
        0
    } else {
        malformed_rows(parents.drop_last()) + if parent_of_row(parents.last()@) is Err {
            1nat
        } else {
            0nat
        }
    }
}

/// A malformed parent row costs the pass that row alone: every other row
/// yields a document, so documents and skipped rows together account for
/// every row read.
pub proof fn lemma_every_row_published_or_skipped(
    parents: Seq<Vec<Cell>>,
    children: spec_fn(u64) -> Seq<Vec<Cell>>,
)
    ensures
        pass_documents(parents, children).len() + malformed_rows(parents) == parents.len(),
    decreases parents.len(),
{
    if parents.len() > 0 {
        lemma_every_row_published_or_skipped(parents.drop_last(), children);
    }
}

/// Appending a row that does not decode leaves the documents of a pass as they were.
pub proof fn lemma_malformed_row_adds_no_document(
    parents: Seq<Vec<Cell>>,
    bad: Vec<Cell>,
    children: spec_fn(u64) -> Seq<Vec<Cell>>,
)
    requires
        parent_of_row(bad@) is Err,
    ensures
        pass_documents(parents.push(bad), children) == pass_documents(parents, children),
        malformed_rows(parents.push(bad)) == malformed_rows(parents) + 1,
{
    assert(parents.push(bad).drop_last() == parents);
}

/// An index that stores each published document under its identity,
/// replacing what it held there.
pub open spec fn upsert_all(index: Map<u64, TorrentView>, docs: Seq<TorrentView>) -> Map<
    u64,
    TorrentView,
>
    decreases docs.len(),
{
    if docs.len() == 0 {
        index
    } else {
        upsert_all(index, docs.drop_last()).insert(docs.last().id, docs.last())
    }
}

proof fn lemma_upsert_all_overlays(index: Map<u64, TorrentView>, docs: Seq<TorrentView>)
    ensures
        upsert_all(index, docs) == index.union_prefer_right(upsert_all(Map::empty(), docs)),
    decreases docs.len(),
{
    if docs.len() > 0 {
        lemma_upsert_all_overlays(index, docs.drop_last());
        lemma_upsert_all_overlays(Map::empty(), docs.drop_last());
        assert(upsert_all(index, docs) =~= index.union_prefer_right(
            upsert_all(Map::empty(), docs),
        ));
    }
}

/// Publishing the documents of a pass into an index that upserts by identity,
/// then running the same pass again over the unchanged source, leaves the index
/// as the first pass left it.
pub proof fn lemma_rerun_leaves_index_unchanged(
    index: Map<u64, TorrentView>,
    parents: Seq<Vec<Cell>>,
    children: spec_fn(u64) -> Seq<Vec<Cell>>,
)
    ensures
        ({
            let docs = pass_documents(parents, children);
            upsert_all(upsert_all(index, docs), docs) == upsert_all(index, docs)
        }),
{
    let docs = pass_documents(parents, children);
    let once = upsert_all(index, docs);
    lemma_upsert_all_overlays(index, docs);
    lemma_upsert_all_overlays(once, docs);
    assert(once.union_prefer_right(upsert_all(Map::empty(), docs)) =~= once);
}

/// The locator of a document depends on the fingerprint and the name alone:
/// two documents built from records that agree on both carry the same one,
/// the magnet link of that fingerprint and name.
pub proof fn lemma_locator_deterministic(
    p: ParentView,
    q: ParentView,
    f: Seq<FileView>,
    g: Seq<FileView>,
)
    requires
        p.hash == q.hash,
        p.name == q.name,
    ensures
        document_of(p, f).url == document_of(q, g).url,
        document_of(p, f).url == magnet_link(p.hash, p.name),
{
}

/// A built document carries exactly the files it was given, in their order,
/// and the default poster.
pub proof fn lemma_document_files_and_poster(p: ParentView, f: Seq<FileView>)
    ensures
        document_of(p, f).files == f,
        document_of(p, f).files.len() == f.len(),
        document_of(p, f).poster == DEFAULT_POSTER@,
{
}

} // verus!
