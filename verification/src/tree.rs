//! The file tree, from what the directories hold.
//!
//! Reading directories is left to whoever drives the editor. The tree is
//! built from a snapshot: for each directory that was read, the
//! directories and the files in it, in whatever order they were found.
//! In the tree they stand in the order of their paths, byte by byte.

use vstd::prelude::*;
use vstd::string::{StringExecFns, StringSliceAdditionalSpecFns};
use vstd::utf8::encode_utf8;
use crate::buffer::texts;
use crate::editor::TreeItem;
use crate::text::holds;

verus! {

/// What one directory holds.
#[derive(Clone, Debug, PartialEq, Eq)]
pub struct Listing {
    /// The path of the directory.
    pub dir: String,
    /// The paths of the directories in it.
    pub dirs: Vec<String>,
    /// The paths of the files in it.
    pub files: Vec<String>,
}

/// A row of the tree in plain values.
pub struct Row {
    pub path: Seq<char>,
    pub prefix: Seq<char>,
    pub is_dir: bool,
}

/// Whether the bytes `a` stand at or before the bytes `b` in a dictionary:
/// the first byte in which they differ is the smaller in `a`, or there is
/// none and `a` is not the longer.
pub open spec fn in_order(a: Seq<u8>, b: Seq<u8>) -> bool
    decreases a.len(),
{
    if a.len() == 0 {
        true
    } else if b.len() == 0 {
        false
    } else if a.first() != b.first() {
        a.first() < b.first()
    } else {
        in_order(a.drop_first(), b.drop_first())
    }
}

/// Whether the path `a` is listed before the path `b`: its bytes stand
/// before those of `b`, and are not the same.
pub open spec fn listed_before(a: Seq<char>, b: Seq<char>) -> bool {
    !in_order(encode_utf8(b), encode_utf8(a))
}

/// `sorted` with `path` put behind every path that it is not listed
/// before.
pub open spec fn insert_path(sorted: Seq<Seq<char>>, path: Seq<char>) -> Seq<Seq<char>>
    decreases sorted.len(),
{
    if sorted.len() > 0 && listed_before(path, sorted.last()) {
        insert_path(sorted.drop_last(), path).push(sorted.last())
    } else {
        sorted.push(path)
    }
}

/// The paths in the order in which they are listed.
pub open spec fn path_order(paths: Seq<Seq<char>>) -> Seq<Seq<char>>
    decreases paths.len(),
{
    if paths.len() == 0 {
        paths
    } else {
        insert_path(path_order(paths.drop_last()), paths.last())
    }
}

/// Of two runs of bytes, one stands at or before the other.
pub proof fn lemma_in_order_total(a: Seq<u8>, b: Seq<u8>)
    ensures
        in_order(a, b) || in_order(b, a),
    decreases a.len(),
{
    if a.len() > 0 && b.len() > 0 && a.first() == b.first() {
        lemma_in_order_total(a.drop_first(), b.drop_first());
    }
}

/// What stands at or before a run of bytes stands at or before everything
/// that the run stands at or before.
pub proof fn lemma_in_order_transitive(a: Seq<u8>, b: Seq<u8>, c: Seq<u8>)
    requires
        in_order(a, b),
        in_order(b, c),
    ensures
        in_order(a, c),
    decreases a.len(),
{
    if a.len() > 0 && b.len() > 0 && c.len() > 0 && a.first() == b.first() && b.first()
        == c.first() {
        lemma_in_order_transitive(a.drop_first(), b.drop_first(), c.drop_first());
    }
}

proof fn lemma_insert_path_at(sorted: Seq<Seq<char>>, path: Seq<char>, at: int)
    requires
        0 <= at <= sorted.len(),
        forall|k: int| at <= k < sorted.len() ==> listed_before(path, #[trigger] sorted[k]),
        at == 0 || !listed_before(path, sorted[at - 1]),
    ensures
        insert_path(sorted, path) == sorted.insert(at, path),
    decreases sorted.len(),
{
    if at < sorted.len() {
        assert(listed_before(path, sorted[sorted.len() - 1]));
        lemma_insert_path_at(sorted.drop_last(), path, at);
        assert(sorted.drop_last().insert(at, path).push(sorted.last()) =~= sorted.insert(
            at,
            path,
        ));
    } else {
        assert(sorted.push(path) =~= sorted.insert(at, path));
    }
}

proof fn lemma_insert_path_keeps_order(sorted: Seq<Seq<char>>, path: Seq<char>)
    requires
        forall|i: int, j: int| 0 <= i < j < sorted.len() ==> !listed_before(sorted[j], sorted[i]),
    ensures
        forall|i: int, j: int|
            0 <= i < j < insert_path(sorted, path).len() ==> !listed_before(
                insert_path(sorted, path)[j],
                insert_path(sorted, path)[i],
            ),
        insert_path(sorted, path).len() == sorted.len() + 1,
        insert_path(sorted, path).to_multiset() == sorted.to_multiset().insert(path),
        forall|i: int|
            0 <= i < insert_path(sorted, path).len() ==> insert_path(sorted, path)[i] == path
                || sorted.contains(#[trigger] insert_path(sorted, path)[i]),
    decreases sorted.len(),
{
    broadcast use vstd::seq_lib::group_to_multiset_ensures;

    let out = insert_path(sorted, path);
    if sorted.len() > 0 && listed_before(path, sorted.last()) {
        let rest = sorted.drop_last();
        let inner = insert_path(rest, path);
        let last = sorted.last();
        lemma_insert_path_keeps_order(rest, path);
        assert(out == inner.push(last));
        assert(sorted =~= rest.push(last));
        assert forall|i: int, j: int| 0 <= i < j < out.len() implies !listed_before(
            out[j],
            out[i],
        ) by {
            if j == out.len() - 1 {
                if inner[i] == path {
                    lemma_in_order_total(encode_utf8(last), encode_utf8(path));
                } else {
                    let k = choose|k: int| 0 <= k < rest.len() && rest[k] == inner[i];
                    assert(sorted[k] == inner[i]);
                    assert(!listed_before(sorted[sorted.len() - 1], sorted[k]));
                }
            }
        }
        assert forall|i: int| 0 <= i < out.len() implies out[i] == path || sorted.contains(
            #[trigger] out[i],
        ) by {
            if i == out.len() - 1 {
                assert(sorted[sorted.len() - 1] == out[i]);
            } else if inner[i] != path {
                let k = choose|k: int| 0 <= k < rest.len() && rest[k] == inner[i];
                assert(sorted[k] == out[i]);
            }
        }
    } else {
        assert(out == sorted.push(path));
        assert forall|i: int, j: int| 0 <= i < j < out.len() implies !listed_before(
            out[j],
            out[i],
        ) by {
            if j == out.len() - 1 && sorted.len() > 0 {
                let last = sorted[sorted.len() - 1];
                assert(!listed_before(path, last));
                if i < sorted.len() - 1 {
                    assert(!listed_before(last, sorted[i]));
                    lemma_in_order_transitive(
                        encode_utf8(sorted[i]),
                        encode_utf8(last),
                        encode_utf8(path),
                    );
                }
            }
        }
        assert forall|i: int| 0 <= i < out.len() implies out[i] == path || sorted.contains(
            #[trigger] out[i],
        ) by {
            if i < sorted.len() {
                assert(sorted[i] == out[i]);
            }
        }
    }
}

/// The order of listing is an order: it holds the paths that were given,
/// each as often as it was given, and none of them is listed before one
/// that stands before it.
pub proof fn lemma_path_order_sorts(paths: Seq<Seq<char>>)
    ensures
        path_order(paths).len() == paths.len(),
        path_order(paths).to_multiset() == paths.to_multiset(),
        forall|i: int, j: int|
            0 <= i < j < path_order(paths).len() ==> !listed_before(
                path_order(paths)[j],
                path_order(paths)[i],
            ),
    decreases paths.len(),
{
    broadcast use vstd::seq_lib::group_to_multiset_ensures;

    if paths.len() > 0 {
        lemma_path_order_sorts(paths.drop_last());
        lemma_insert_path_keeps_order(path_order(paths.drop_last()), paths.last());
        assert(paths =~= paths.drop_last().push(paths.last()));
    }
}

/// Whether `a` is listed before `b`.
pub fn comes_first(a: &str, b: &str) -> (first: bool)
    ensures
        first == listed_before(a@, b@),
{
    let x = a.as_bytes();
    let y = b.as_bytes();
    let mut i: usize = 0;
    proof {
        assert(x@.skip(0) =~= x@);
        assert(y@.skip(0) =~= y@);
    }
    while i < x.len() && i < y.len() && x[i] == y[i]
        invariant
            i <= x@.len(),
            i <= y@.len(),
            in_order(y@, x@) == in_order(y@.skip(i as int), x@.skip(i as int)),
        decreases x@.len() - i,
    {
        proof {
            assert(y@.skip(i as int).first() == y@[i as int]);
            assert(x@.skip(i as int).first() == x@[i as int]);
            assert(y@.skip(i as int).drop_first() =~= y@.skip(i + 1));
            assert(x@.skip(i as int).drop_first() =~= x@.skip(i + 1));
        }
        i += 1;
    }
    proof {
        if i < x@.len() {
            assert(x@.skip(i as int).first() == x@[i as int]);
        }
        if i < y@.len() {
            assert(y@.skip(i as int).first() == y@[i as int]);
        }
    }
    if i >= y.len() {
        false
    } else if i >= x.len() {
        true
    } else {
        x[i] < y[i]
    }
}

/// Puts paths into the order in which they are listed.
pub fn sort_paths(paths: &Vec<String>) -> (ordered: Vec<String>)
    ensures
        texts(ordered@) == path_order(texts(paths@)),
{
    let mut ordered: Vec<String> = Vec::new();
    let mut i: usize = 0;
    proof {
        assert(texts(paths@).take(0) =~= Seq::<Seq<char>>::empty());
        assert(texts(ordered@) =~= Seq::<Seq<char>>::empty());
    }
    while i < paths.len()
        invariant
            i <= paths@.len(),
            texts(ordered@) == path_order(texts(paths@).take(i as int)),
            ordered@.len() == i,
        decreases paths@.len() - i,
    {
        let path = paths[i].clone();
        let mut at: usize = ordered.len();
        while at > 0 && comes_first(path.as_str(), ordered[at - 1].as_str())
            invariant
                at <= ordered@.len(),
                forall|k: int|
                    at <= k < ordered@.len() ==> listed_before(
                        path@,
                        #[trigger] texts(ordered@)[k],
                    ),
            decreases at,
        {
            at -= 1;
        }
        let ghost before = texts(ordered@);
        proof {
            lemma_insert_path_at(before, path@, at as int);
            assert(texts(paths@).take(i + 1).drop_last() =~= texts(paths@).take(i as int));
            assert(texts(paths@).take(i + 1).last() == path@);
        }
        ordered.insert(at, path);
        assert(texts(ordered@) =~= before.insert(at as int, path@));
        i += 1;
    }
    proof {
        assert(texts(paths@).take(i as int) =~= texts(paths@));
    }
    ordered
}

/// The rows that items stand for.
pub open spec fn rows_of(items: Seq<TreeItem>) -> Seq<Row> {
    Seq::new(
        items.len(),
        |i: int| Row { path: items[i].path@, prefix: items[i].prefix@, is_dir: items[i].is_dir },
    )
}

/// The index of the first listing of `path` from `from` on, or the number
/// of listings if there is none.
pub open spec fn listing_at(listings: Seq<Listing>, path: Seq<char>, from: int) -> int
    decreases listings.len() - from,
{
    if from < 0 || from >= listings.len() || listings[from].dir@ == path {
        from
    } else {
        listing_at(listings, path, from + 1)
    }
}

/// The rows of files in a directory whose rows begin with `prefix`.
pub open spec fn file_rows(files: Seq<Seq<char>>, prefix: Seq<char>) -> Seq<Row> {
    Seq::new(files.len(), |i: int| Row { path: files[i], prefix, is_dir: false })
}

/// The rows below the directory `path`, each beginning with `prefix`: its
/// directories first, in the order of their paths, each followed by what
/// is below it if it is unfolded, two spaces further in; then its files,
/// in the order of their paths. A directory that was not read has
/// nothing below it, and neither has one that lies `depth` directories
/// deep.
pub open spec fn rows_below(
    listings: Seq<Listing>,
    path: Seq<char>,
    prefix: Seq<char>,
    expanded: Seq<Seq<char>>,
    depth: nat,
) -> Seq<Row>
    decreases depth, 1nat, 0nat,
{
    let at = listing_at(listings, path, 0);
    if 0 <= at < listings.len() {
        dir_rows(
            listings,
            path_order(texts(listings[at].dirs@)),
            prefix,
            expanded,
            depth,
        ) + file_rows(path_order(texts(listings[at].files@)), prefix)
    } else {
        seq![]
    }
}

/// The rows of the directories `dirs`, each followed by what is below it
/// if it is unfolded.
pub open spec fn dir_rows(
    listings: Seq<Listing>,
    dirs: Seq<Seq<char>>,
    prefix: Seq<char>,
    expanded: Seq<Seq<char>>,
    depth: nat,
) -> Seq<Row>
    decreases depth, 0nat, dirs.len(),
{
    if dirs.len() == 0 {
        seq![]
    } else {
        dir_rows(listings, dirs.drop_last(), prefix, expanded, depth) + seq![
            Row { path: dirs.last(), prefix, is_dir: true },
        ] + (if depth > 0 && expanded.contains(dirs.last()) {
            rows_below(listings, dirs.last(), prefix + "  "@, expanded, (depth - 1) as nat)
        } else {
            seq![]
        })
    }
}

fn find_listing(listings: &Vec<Listing>, path: &String) -> (at: usize)
    ensures
        at == listing_at(listings@, path@, 0),
        at <= listings@.len(),
{
    let mut at: usize = 0;
    while at < listings.len() && !(listings[at].dir == *path)
        invariant
            at <= listings@.len(),
            listing_at(listings@, path@, 0) == listing_at(listings@, path@, at as int),
        decreases listings@.len() - at,
    {
        at += 1;
    }
    at
}

/// Builds the rows below the directory `path`, as `rows_below` says.
pub fn list_below(
    listings: &Vec<Listing>,
    path: &String,
    prefix: String,
    expanded_dirs: &Vec<String>,
    depth: usize,
) -> (items: Vec<TreeItem>)
    ensures
        rows_of(items@) == rows_below(
            listings@,
            path@,
            prefix@,
            texts(expanded_dirs@),
            depth as nat,
        ),
    decreases depth,
{
    let mut items: Vec<TreeItem> = Vec::new();
    let at = find_listing(listings, path);
    if at >= listings.len() {
        assert(rows_of(items@) =~= Seq::<Row>::empty());
        return items;
    }
    let listing = &listings[at];
    let sorted_dirs = sort_paths(&listing.dirs);
    let sorted_files = sort_paths(&listing.files);
    let ghost dirs = texts(sorted_dirs@);
    let ghost files = texts(sorted_files@);
    let mut i: usize = 0;
    proof {
        assert(dirs.take(0) =~= Seq::<Seq<char>>::empty());
        assert(rows_of(items@) =~= Seq::<Row>::empty());
    }
    while i < sorted_dirs.len()
        invariant
            i <= sorted_dirs@.len(),
            dirs == texts(sorted_dirs@),
            rows_of(items@) == dir_rows(
                listings@,
                dirs.take(i as int),
                prefix@,
                texts(expanded_dirs@),
                depth as nat,
            ),
        decreases sorted_dirs@.len() - i,
    {
        let dir = &sorted_dirs[i];
        let ghost before = rows_of(items@);
        proof {
            assert(dirs.take(i + 1).drop_last() =~= dirs.take(i as int));
            assert(dirs.take(i + 1).last() == dir@);
        }
        items.push(TreeItem { path: dir.clone(), prefix: prefix.clone(), is_dir: true });
        assert(rows_of(items@) =~= before + seq![
            Row { path: dir@, prefix: prefix@, is_dir: true },
        ]);
        if depth > 0 && holds(expanded_dirs, dir) {
            let mut deeper = prefix.clone();
            deeper.append("  ");
            let mut below = list_below(listings, dir, deeper, expanded_dirs, depth - 1);
            let ghost head = rows_of(items@);
            let ghost tail = rows_of(below@);
            items.append(&mut below);
            assert(rows_of(items@) =~= head + tail);
        }
        i += 1;
    }
    proof {
        assert(dirs.take(i as int) =~= dirs);
    }
    let ghost above = rows_of(items@);
    let mut k: usize = 0;
    while k < sorted_files.len()
        invariant
            k <= sorted_files@.len(),
            files == texts(sorted_files@),
            rows_of(items@) == above + file_rows(files.take(k as int), prefix@),
        decreases sorted_files@.len() - k,
    {
        let ghost before = rows_of(items@);
        items.push(
            TreeItem { path: sorted_files[k].clone(), prefix: prefix.clone(), is_dir: false },
        );
        proof {
            let row = Row { path: files[k as int], prefix: prefix@, is_dir: false };
            assert(rows_of(items@) =~= before.push(row));
            assert(file_rows(files.take(k + 1), prefix@) =~= file_rows(
                files.take(k as int),
                prefix@,
            ).push(row));
            assert(rows_of(items@) =~= above + file_rows(files.take(k + 1), prefix@));
        }
        k += 1;
    }
    proof {
        assert(files.take(k as int) =~= files);
    }
    items
}

/// Builds the file tree below the directory `path`: its directories, then
/// its files, each in the order of their paths, and below each unfolded
/// directory what it holds, two spaces further in with each step down.
pub fn get_tree_items(
    listings: &Vec<Listing>,
    path: &String,
    prefix: String,
    expanded_dirs: &Vec<String>,
) -> (items: Vec<TreeItem>)
    ensures
        rows_of(items@) == rows_below(
            listings@,
            path@,
            prefix@,
            texts(expanded_dirs@),
            listings@.len(),
        ),
{
    list_below(listings, path, prefix, expanded_dirs, listings.len())
}

} // verus!
