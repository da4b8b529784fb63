//! Which functions a `use` item brings in, and under which names their
//! doubles are found.

use vstd::prelude::*;
use vstd::string::StringExecFns;

verus! {

/// A `use` tree: what stands behind the word `use`.
pub enum UseTree {
    /// `ident::tree`
    Path(String, Box<UseTree>),
    /// `ident`
    Name(String),
    /// `ident as other`
    Rename(String, String),
    /// `*`
    Glob,
    /// `{tree, tree, ..}`
    Group(Vec<UseTree>),
}

/// Whether the tree is made of paths, names and groups alone. Globs and
/// renames cannot be matched with doubles.
pub open spec fn supported(tree: UseTree) -> bool
    decreases tree,
{
    match tree {
        UseTree::Path(_, rest) => supported(*rest),
        UseTree::Name(_) => true,
        UseTree::Rename(_, _) => false,
        UseTree::Glob => false,
        UseTree::Group(items) => forall|i: int|
            0 <= i < items@.len() ==> supported(#[trigger] items@[i]),
    }
}

/// The path segments in front of the first name or group of the tree.
pub open spec fn leading_path(tree: UseTree) -> Seq<Seq<char>>
    decreases tree,
{
    match tree {
        UseTree::Path(segment, rest) => seq![segment@] + leading_path(*rest),
        _ => Seq::empty(),
    }
}

/// Each function that the tree names, paired with the name of its double,
/// in the order in which the tree names them.
pub open spec fn mappings(tree: UseTree, suffix: Seq<char>) -> Seq<(Seq<char>, Seq<char>)>
    decreases tree, 0nat,
{
    match tree {
        UseTree::Path(_, rest) => mappings(*rest, suffix),
        UseTree::Name(name) => seq![(name@, name@ + suffix)],
        UseTree::Group(items) => group_mappings(items@, suffix),
        _ => Seq::empty(),
    }
}

/// The mappings of the trees of a group, one tree after the other.
pub open spec fn group_mappings(items: Seq<UseTree>, suffix: Seq<char>) -> Seq<
    (Seq<char>, Seq<char>),
>
    decreases items, 1nat,
{
    if items.len() == 0 {
        Seq::empty()
    } else {
        group_mappings(items.drop_last(), suffix) + mappings(items.last(), suffix)
    }
}

/// The texts of a list of segments.
pub open spec fn segment_texts(segments: Seq<String>) -> Seq<Seq<char>> {
    Seq::new(segments.len(), |i: int| segments[i]@)
}

/// The texts of a list of name pairs.
pub open spec fn pair_texts(pairs: Seq<(String, String)>) -> Seq<(Seq<char>, Seq<char>)> {
    Seq::new(pairs.len(), |i: int| (pairs[i].0@, pairs[i].1@))
}

/// Tells whether the tree can be processed.
pub fn is_supported(tree: &UseTree) -> (ok: bool)
    ensures
        ok == supported(*tree),
    decreases tree,
{
    match tree {
        UseTree::Path(_, rest) => is_supported(rest),
        UseTree::Name(_) => true,
        UseTree::Rename(_, _) => false,
        UseTree::Glob => false,
        UseTree::Group(items) => {
            let mut i: usize = 0;
            while i < items.len()
                invariant
                    i <= items.len(),
                    tree is Group,
                    tree->Group_0 == *items,
                    forall|j: int| 0 <= j < i ==> supported(#[trigger] items@[j]),
                decreases items.len() - i,
            {
                if !is_supported(&items[i]) {
                    return false;
                }
                i += 1;
            }
            true
        },
    }
}

/// The name of the double of `fn_name`.
pub fn double_name(fn_name: &str, suffix: &str) -> (name: String)
    ensures
        name@ == fn_name@ + suffix@,
{
    let mut name = String::from_str(fn_name);
    name.append(suffix);
    name
}

/// Walks the tree. The path segments in front of the first name or group are
/// put behind what `base_path` holds; the result pairs each function that the
/// tree names with its double.
pub fn process_use_tree(tree: &UseTree, base_path: &mut Vec<String>, suffix: &str) -> (found: Vec<
    (String, String),
>)
    requires
        supported(*tree),
    ensures
        segment_texts(final(base_path)@) == segment_texts(old(base_path)@) + leading_path(*tree),
        pair_texts(found@) == mappings(*tree, suffix@),
    decreases tree,
{
    match tree {
        UseTree::Path(segment, rest) => {
            let ghost before = base_path@;
            base_path.push(segment.clone());
            let ghost pushed = base_path@;
            let found = process_use_tree(rest, base_path, suffix);
            proof {
                assert(segment_texts(pushed) =~= segment_texts(before) + seq![segment@]);
                assert(segment_texts(base_path@) =~= segment_texts(before) + leading_path(*tree));
            }
            found
        },
        UseTree::Name(name) => {
            let mut found: Vec<(String, String)> = Vec::new();
            found.push((name.clone(), double_name(name.as_str(), suffix)));
            proof {
                assert(segment_texts(base_path@) =~= segment_texts(base_path@) + leading_path(
                    *tree,
                ));
                assert(pair_texts(found@) =~= mappings(*tree, suffix@));
            }
            found
        },
        UseTree::Group(items) => {
            let mut found: Vec<(String, String)> = Vec::new();
            let mut i: usize = 0;
            proof {
                assert(segment_texts(base_path@) =~= segment_texts(base_path@) + leading_path(
                    *tree,
                ));
                assert(items@.take(0) =~= Seq::<UseTree>::empty());
                assert(pair_texts(found@) =~= group_mappings(items@.take(0), suffix@));
            }
            while i < items.len()
                invariant
                    i <= items.len(),
                    tree is Group,
                    tree->Group_0 == *items,
                    supported(*tree),
                    pair_texts(found@) == group_mappings(items@.take(i as int), suffix@),
                decreases items.len() - i,
            {
                let mut item_path: Vec<String> = Vec::new();
                let mut more = process_use_tree(&items[i], &mut item_path, suffix);
                let ghost earlier = found@;
                let ghost added = more@;
                found.append(&mut more);
                proof {
                    assert(items@.take(i + 1).drop_last() =~= items@.take(i as int));
                    assert(items@.take(i + 1).last() == items@[i as int]);
                    assert(pair_texts(found@) =~= pair_texts(earlier) + pair_texts(added));
                }
                i += 1;
            }
            proof {
                assert(items@.take(items@.len() as int) =~= items@);
            }
            found
        },
        _ => Vec::new(),
    }
}

/// The path of a function with its last segment replaced by the name of the
/// function's double; nothing for a path without segments.
pub fn process_inline(path: &Vec<String>, suffix: &str) -> (renamed: Option<Vec<String>>)
    ensures
        match renamed {
            None => path@.len() == 0,
            Some(segments) => {
                &&& path@.len() > 0
                &&& segment_texts(segments@) == segment_texts(path@.drop_last()).push(
                    path@.last()@ + suffix@,
                )
            },
        },
{
    if path.len() == 0 {
        return None;
    }
    let last = path.len() - 1;
    let mut segments: Vec<String> = Vec::new();
    let mut i: usize = 0;
    while i < last
        invariant
            i <= last,
            last == path.len() - 1,
            segment_texts(segments@) == segment_texts(path@.take(i as int)),
        decreases last - i,
    {
        let ghost earlier = segments@;
        segments.push(path[i].clone());
        proof {
            assert(segment_texts(earlier).len() == i);
            assert forall|k: int| 0 <= k < i implies segments@[k]@ == path@[k]@ by {
                assert(segment_texts(earlier)[k] == segment_texts(path@.take(i as int))[k]);
            }
            assert(segment_texts(segments@) =~= segment_texts(path@.take(i + 1)));
        }
        i += 1;
    }
    segments.push(double_name(path[last].as_str(), suffix));
    proof {
        assert(path@.take(last as int) =~= path@.drop_last());
        assert(segment_texts(segments@) =~= segment_texts(path@.drop_last()).push(
            path@.last()@ + suffix@,
        ));
    }
    Some(segments)
}

} // verus!
