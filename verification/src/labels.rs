//! The labels of a host name, and what the router's rule for dotted names
//! says of them.
//!
//! The router cuts a dotted name at its last dot. Read as a rule on labels,
//! that is: the last label is the target, and the labels before it, joined
//! again, are the new host. This module states the labels of a name and
//! proves that the two readings agree.

use crate::router::{decoded, Decision};
use crate::text::{first_dashes, is_decimal, last_at, lemma_last_index_of};
use vstd::prelude::*;

verus! {

/// The labels of `name`: what stands between its dots, in order. A name
/// without a dot is one label; a dot at either end borders an empty label.
pub open spec fn labels(name: Seq<char>) -> Seq<Seq<char>>
    decreases name.len(),
{
    if name.len() == 0 {
        seq![Seq::empty()]
    } else {
        let before = labels(name.drop_last());
        if name.last() == '.' {
            before.push(Seq::empty())
        } else {
            before.update(before.len() - 1, before.last().push(name.last()))
        }
    }
}

/// The labels of `parts` with a dot between each two.
pub open spec fn joined(parts: Seq<Seq<char>>) -> Seq<char>
    decreases parts.len(),
{
    if parts.len() == 0 {
        Seq::empty()
    } else if parts.len() == 1 {
        parts[0]
    } else {
        joined(parts.drop_last()) + seq!['.'] + parts.last()
    }
}

/// A name has at least one label, and its labels joined again are the name.
pub proof fn lemma_labels_join_back(name: Seq<char>)
    ensures
        labels(name).len() >= 1,
        joined(labels(name)) == name,
    decreases name.len(),
{
    if name.len() > 0 {
        let front = name.drop_last();
        lemma_labels_join_back(front);
        let before = labels(front);
        let all = labels(name);
        if name.last() == '.' {
            assert(all.drop_last() =~= before);
        } else if before.len() > 1 {
            assert(all.drop_last() =~= before.drop_last());
            assert(joined(all) =~= joined(before).push(name.last()));
        }
    }
}

/// No label holds a dot.
pub proof fn lemma_labels_have_no_dot(name: Seq<char>, i: int)
    requires
        0 <= i < labels(name).len(),
    ensures
        !labels(name)[i].contains('.'),
    decreases name.len(),
{
    let label = labels(name)[i];
    assert forall|j: int| 0 <= j < label.len() implies label[j] != '.' by {
        if name.len() > 0 {
            let front = name.drop_last();
            let before = labels(front);
            lemma_labels_join_back(front);
            if i < before.len() {
                lemma_labels_have_no_dot(front, i);
            }
        }
    }
}

/// A name without a dot is its own single label.
pub proof fn lemma_single_label(name: Seq<char>)
    requires
        !name.contains('.'),
    ensures
        labels(name) == seq![name],
    decreases name.len(),
{
    if name.len() == 0 {
        assert(name =~= Seq::empty());
    } else {
        let front = name.drop_last();
        lemma_single_label(front);
        assert(name =~= front.push(name.last()));
    }
}

/// Cutting a name at its last dot parts the last label from the labels
/// before it: what follows the dot is the last label, and what precedes it
/// is the other labels joined.
pub proof fn lemma_last_dot_parts_labels(name: Seq<char>, d: int)
    requires
        last_at(name, '.', d),
    ensures
        labels(name).len() >= 2,
        labels(name).last() == name.skip(d + 1),
        joined(labels(name).drop_last()) == name.take(d),
    decreases name.len(),
{
    let front = name.drop_last();
    let before = labels(front);
    let all = labels(name);
    lemma_labels_join_back(front);
    if name.last() == '.' {
        assert(all.drop_last() =~= before);
    } else {
        lemma_last_dot_parts_labels(front, d);
        assert(all.drop_last() =~= before.drop_last());
    }
}

/// The rule for dotted names, read on labels. A label that is neither
/// a number nor a `name--port` pair, and that holds a dot, goes to its last
/// label on port 80, with the labels before it, joined again, as the new
/// host. One that holds no dot goes to itself on port 80.
pub proof fn lemma_dotted_name_is_hoisted(name: Seq<char>)
    requires
        !is_decimal(name),
        first_dashes(name) is None,
    ensures
        name.contains('.') ==> decoded(name) == (Decision::Forward {
            authority: labels(name).last() + ":80"@,
            host: joined(labels(name).drop_last()),
        }),
        !name.contains('.') ==> decoded(name) == (Decision::Forward {
            authority: name + ":80"@,
            host: name,
        }) && labels(name) == seq![name],
{
    if name.contains('.') {
        let w = choose|w: int| 0 <= w < name.len() && name[w] == '.';
        lemma_greatest_occurrence(name, w, name.len() as int);
        let d = choose|d: int| last_at(name, '.', d);
        lemma_last_index_of(name, '.', d);
        lemma_last_dot_parts_labels(name, d);
    } else {
        lemma_single_label(name);
    }
}

/// Above any dot there is a last one.
proof fn lemma_greatest_occurrence(name: Seq<char>, w: int, bound: int)
    requires
        0 <= w < bound <= name.len(),
        name[w] == '.',
        forall|j: int| bound <= j < name.len() ==> name[j] != '.',
    ensures
        exists|d: int| last_at(name, '.', d),
    decreases bound - w,
{
    if name[bound - 1] == '.' {
        assert(last_at(name, '.', bound - 1));
    } else {
        lemma_greatest_occurrence(name, w, bound - 1);
    }
}

} // verus!
