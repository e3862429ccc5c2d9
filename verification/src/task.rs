//! What the hooks read from a task.
use crate::json::{lemma_members_agree, lemma_trees_index, trees, Json, JsonView};
use crate::text::same_text;
use vstd::prelude::*;

verus! {

/// The member that names the issue of a task.
pub const LINEAR_ID: &'static str = "linearid";

/// The member with the address of the issue.
pub const LINEAR_URL: &'static str = "linearurl";

/// The member with the name of the issue that people use.
pub const LINEAR_IDENTIFIER: &'static str = "linearidentifier";

/// The member with the description of the issue.
pub const LINEAR_DESCRIPTION: &'static str = "lineardescription";

/// The member with a comment that waits to be posted.
pub const LINEAR_COMMENT: &'static str = "linearcomment";

/// An annotation that has both of its parts: when it was entered, and its body.
pub open spec fn annotation_view(item: JsonView) -> Option<(Seq<char>, Seq<char>)> {
    match (item.member("entry"@).text(), item.member("description"@).text()) {
        (Some(entry), Some(body)) => Some((entry, body)),
        _ => None,
    }
}

/// `list` without the annotation that was entered at `entry`.
pub open spec fn without_entry(
    list: Seq<(Seq<char>, Seq<char>)>,
    entry: Seq<char>,
) -> Seq<(Seq<char>, Seq<char>)>
    decreases list.len(),
{
    if list.len() == 0 {
        list
    } else {
        let rest = without_entry(list.drop_last(), entry);
        if list.last().0 == entry {
            rest
        } else {
            rest.push(list.last())
        }
    }
}

/// The annotations among `items`, one for each entry: the last one.
pub open spec fn annotation_list(items: Seq<JsonView>) -> Seq<(Seq<char>, Seq<char>)>
    decreases items.len(),
{
    if items.len() == 0 {
        Seq::empty()
    } else {
        let rest = annotation_list(items.drop_last());
        match annotation_view(items.last()) {
            Some(annotation) => without_entry(rest, annotation.0).push(annotation),
            None => rest,
        }
    }
}

/// The annotations of a task; a task without a list of them has none.
pub open spec fn annotations_view(task: JsonView) -> Seq<(Seq<char>, Seq<char>)> {
    match task.member("annotations"@) {
        JsonView::Array(items) => annotation_list(items),
        _ => Seq::empty(),
    }
}

/// Whether `list` has an annotation that was entered at `entry`.
pub open spec fn has_entry(list: Seq<(Seq<char>, Seq<char>)>, entry: Seq<char>) -> bool {
    exists|i: int| 0 <= i < list.len() && (#[trigger] list[i]).0 == entry
}

/// The texts of a list of pairs.
pub open spec fn pair_texts(list: Seq<(String, String)>) -> Seq<(Seq<char>, Seq<char>)> {
    list.map_values(|p: (String, String)| (p.0@, p.1@))
}

/// The annotations of a task as pairs of entry and body, each entry once.
pub fn annotations_set(task: &Json) -> (set: Vec<(String, String)>)
    ensures
        pair_texts(set@) == annotations_view(task@),
{
    let mut set: Vec<(String, String)> = Vec::new();
    match task.get("annotations") {
        Some(Json::Array(items)) => {
            let ghost views = trees(items@);
            proof {
                lemma_trees_index(items@);
                assert(views.take(0) =~= Seq::empty());
                assert(pair_texts(set@) =~= annotation_list(views.take(0)));
            }
            let mut i: usize = 0;
            while i < items.len()
                invariant
                    i <= items@.len(),
                    views == trees(items@),
                    views.len() == items@.len(),
                    forall|j: int| 0 <= j < items@.len() ==> #[trigger] views[j] == items@[j]@,
                    pair_texts(set@) == annotation_list(views.take(i as int)),
                decreases items@.len() - i,
            {
                let item: &Json = &items[i];
                assert(views.take(i + 1).drop_last() =~= views.take(i as int));
                assert(views.take(i + 1).last() == item@);
                match (item.member_text("entry"), item.member_text("description")) {
                    (Some(entry), Some(body)) => {
                        set = drop_entry(set, entry);
                        let ghost before = set@;
                        set.push((entry.to_owned(), body.to_owned()));
                        assert(pair_texts(set@) =~= pair_texts(before).push((entry@, body@)));
                    },
                    _ => {},
                }
                i = i + 1;
            }
            assert(views.take(items@.len() as int) =~= views);
            set
        },
        _ => {
            assert(pair_texts(set@) =~= Seq::empty());
            set
        },
    }
}

/// `set` without the pair of `entry`.
fn drop_entry(set: Vec<(String, String)>, entry: &str) -> (kept: Vec<(String, String)>)
    ensures
        pair_texts(kept@) == without_entry(pair_texts(set@), entry@),
{
    let ghost all = pair_texts(set@);
    let ghost pairs = set@;
    let mut kept: Vec<(String, String)> = Vec::new();
    assert(all.take(0) =~= Seq::empty());
    assert(pair_texts(kept@) =~= without_entry(all.take(0), entry@));
    for pair in it: set
        invariant
            it.seq() == pairs,
            all == pair_texts(pairs),
            pair_texts(kept@) == without_entry(all.take(it.index() as int), entry@),
    {
        assert(all.take(it.index() + 1).drop_last() =~= all.take(it.index() as int));
        assert(all.take(it.index() + 1).last() == (pair.0@, pair.1@));
        let ghost before = kept@;
        if !same_text(pair.0.as_str(), entry) {
            kept.push(pair);
            assert(pair_texts(kept@) =~= pair_texts(before).push((pair.0@, pair.1@)));
        }
    }
    assert(all.take(all.len() as int) =~= all);
    kept
}

/// Whether `set` has a pair of `entry`.
pub(crate) fn contains_entry(set: &Vec<(String, String)>, entry: &str) -> (r: bool)
    ensures
        r == has_entry(pair_texts(set@), entry@),
{
    let ghost all = pair_texts(set@);
    let mut i: usize = 0;
    while i < set.len()
        invariant
            i <= set@.len(),
            all == pair_texts(set@),
            forall|j: int| 0 <= j < i ==> (#[trigger] all[j]).0 != entry@,
        decreases set@.len() - i,
    {
        if same_text(set[i].0.as_str(), entry) {
            assert(all[i as int].0 == entry@);
            return true;
        }
        assert(all[i as int].0 != entry@);
        i = i + 1;
    }
    false
}

/// Each entry stands at most once among the annotations of a task.
pub proof fn law_annotation_entries_differ(task: JsonView)
    ensures
        forall|i: int, j: int|
            0 <= i < j < annotations_view(task).len() ==> annotations_view(task)[i].0
                != annotations_view(task)[j].0,
{
    if let JsonView::Array(items) = task.member("annotations"@) {
        lemma_entries_differ(items);
    }
}

/// An item with entry and body gives the body of its entry, unless a later item with both
/// parts has the same entry.
pub proof fn law_annotation_last_counts(items: Seq<JsonView>, k: int)
    requires
        0 <= k < items.len(),
        annotation_view(items[k]) is Some,
        forall|j: int|
            k < j < items.len() ==> (annotation_view(#[trigger] items[j]) matches Some(later)
                ==> later.0 != (annotation_view(items[k])->0).0),
    ensures
        annotation_list(items).contains(annotation_view(items[k])->0),
    decreases items.len(),
{
    let annotation = annotation_view(items[k])->0;
    let rest = annotation_list(items.drop_last());
    if k == items.len() - 1 {
        assert(annotation_list(items).last() == annotation);
    } else {
        law_annotation_last_counts(items.drop_last(), k);
        if let Some(later) = annotation_view(items.last()) {
            assert(items.last() == items[items.len() - 1]);
            lemma_without_entry_keeps(rest, later.0, annotation);
            let kept = without_entry(rest, later.0);
            let i = choose|i: int| 0 <= i < kept.len() && kept[i] == annotation;
            assert(kept.push(later)[i] == annotation);
        }
    }
}

/// Every annotation of a task is one of its items.
pub proof fn law_annotations_come_from_items(items: Seq<JsonView>, n: int)
    requires
        0 <= n < annotation_list(items).len(),
    ensures
        exists|k: int|
            0 <= k < items.len() && annotation_view(#[trigger] items[k]) == Some(
                annotation_list(items)[n],
            ),
    decreases items.len(),
{
    let list = annotation_list(items);
    let shorter = items.drop_last();
    let rest = annotation_list(shorter);
    match annotation_view(items.last()) {
        Some(annotation) => {
            if n == list.len() - 1 {
                assert(items[items.len() - 1] == items.last());
            } else {
                lemma_without_entry_from(rest, annotation.0, n);
                let m = choose|m: int|
                    0 <= m < rest.len() && rest[m] == without_entry(rest, annotation.0)[n];
                law_annotations_come_from_items(shorter, m);
                let k = choose|k: int|
                    0 <= k < shorter.len() && annotation_view(#[trigger] shorter[k]) == Some(
                        rest[m],
                    );
                assert(items[k] == shorter[k]);
            }
        },
        None => {
            law_annotations_come_from_items(shorter, n);
            let k = choose|k: int|
                0 <= k < shorter.len() && annotation_view(#[trigger] shorter[k]) == Some(rest[n]);
            assert(items[k] == shorter[k]);
        },
    }
}

/// Tasks that agree have the same annotations.
pub proof fn lemma_annotations_agree(a: JsonView, b: JsonView)
    requires
        a.agrees(b),
    ensures
        annotations_view(a) == annotations_view(b),
{
    let left = a.member("annotations"@);
    let right = b.member("annotations"@);
    lemma_members_agree(a, b, "annotations"@);
    assert(left.agrees_to(right, 0));
    if left is Array {
        let items = left->Array_0;
        let others = right->Array_0;
        assert forall|i: int| 0 <= i < items.len() implies (#[trigger] items[i]).agrees(
            others[i],
        ) by {
            assert forall|depth: nat| #[trigger] items[i].agrees_to(others[i], depth) by {
                assert(left.agrees_to(right, depth + 1));
            }
        }
        lemma_annotation_lists_agree(items, others);
    }
}

proof fn lemma_annotation_lists_agree(a: Seq<JsonView>, b: Seq<JsonView>)
    requires
        a.len() == b.len(),
        forall|i: int| 0 <= i < a.len() ==> (#[trigger] a[i]).agrees(b[i]),
    ensures
        annotation_list(a) == annotation_list(b),
    decreases a.len(),
{
    if a.len() > 0 {
        lemma_annotation_lists_agree(a.drop_last(), b.drop_last());
        assert(a.last() == a[a.len() - 1]);
        lemma_members_agree(a.last(), b.last(), "entry"@);
        lemma_members_agree(a.last(), b.last(), "description"@);
    }
}

proof fn lemma_without_entry_keeps(
    list: Seq<(Seq<char>, Seq<char>)>,
    entry: Seq<char>,
    kept: (Seq<char>, Seq<char>),
)
    requires
        list.contains(kept),
        kept.0 != entry,
    ensures
        without_entry(list, entry).contains(kept),
    decreases list.len(),
{
    let i = choose|i: int| 0 <= i < list.len() && list[i] == kept;
    let rest = without_entry(list.drop_last(), entry);
    if i == list.len() - 1 {
        assert(without_entry(list, entry).last() == kept);
    } else {
        assert(list.drop_last()[i] == kept);
        lemma_without_entry_keeps(list.drop_last(), entry, kept);
        let j = choose|j: int| 0 <= j < rest.len() && rest[j] == kept;
        assert(without_entry(list, entry)[j] == kept);
    }
}

proof fn lemma_without_entry_from(
    list: Seq<(Seq<char>, Seq<char>)>,
    entry: Seq<char>,
    n: int,
)
    requires
        0 <= n < without_entry(list, entry).len(),
    ensures
        without_entry(list, entry)[n].0 != entry,
        exists|m: int| 0 <= m < list.len() && list[m] == without_entry(list, entry)[n],
    decreases list.len(),
{
    let shorter = list.drop_last();
    let rest = without_entry(shorter, entry);
    if n < rest.len() {
        lemma_without_entry_from(shorter, entry, n);
        let m = choose|m: int| 0 <= m < shorter.len() && shorter[m] == rest[n];
        assert(list[m] == rest[n]);
    } else {
        assert(list[list.len() - 1] == without_entry(list, entry)[n]);
    }
}

proof fn lemma_without_entry_differ(list: Seq<(Seq<char>, Seq<char>)>, entry: Seq<char>)
    requires
        forall|i: int, j: int| 0 <= i < j < list.len() ==> list[i].0 != list[j].0,
    ensures
        forall|i: int, j: int|
            0 <= i < j < without_entry(list, entry).len() ==> without_entry(list, entry)[i].0
                != without_entry(list, entry)[j].0,
    decreases list.len(),
{
    if list.len() > 0 {
        let shorter = list.drop_last();
        let rest = without_entry(shorter, entry);
        lemma_without_entry_differ(shorter, entry);
        assert forall|i: int| 0 <= i < rest.len() implies rest[i].0 != list.last().0 by {
            lemma_without_entry_from(shorter, entry, i);
            let m = choose|m: int| 0 <= m < shorter.len() && shorter[m] == rest[i];
            assert(list[m].0 != list[list.len() - 1].0);
        }
    }
}

proof fn lemma_entries_differ(items: Seq<JsonView>)
    ensures
        forall|i: int, j: int|
            0 <= i < j < annotation_list(items).len() ==> annotation_list(items)[i].0
                != annotation_list(items)[j].0,
    decreases items.len(),
{
    if items.len() > 0 {
        let rest = annotation_list(items.drop_last());
        lemma_entries_differ(items.drop_last());
        if let Some(annotation) = annotation_view(items.last()) {
            lemma_without_entry_differ(rest, annotation.0);
            let kept = without_entry(rest, annotation.0);
            assert forall|i: int| 0 <= i < kept.len() implies kept[i].0 != annotation.0 by {
                lemma_without_entry_from(rest, annotation.0, i);
            }
        }
    }
}

/// Whether the item `k` of a list is an annotation with this entry and body, and no later item
/// is an annotation with the same entry.
pub open spec fn is_last_annotation(
    items: Seq<JsonView>,
    k: int,
    entry: Seq<char>,
    body: Seq<char>,
) -> bool {
    &&& 0 <= k < items.len()
    &&& items[k].get("entry"@) == Some(JsonView::Text(entry))
    &&& items[k].get("description"@) == Some(JsonView::Text(body))
    &&& forall|j: int|
        k < j < items.len() ==> !((#[trigger] items[j]).get("entry"@) == Some(
            JsonView::Text(entry),
        ) && (items[j].get("description"@) matches Some(later) && later is Text))
}

/// Whether a task has an annotation with this entry and body.
pub open spec fn is_annotation(task: JsonView, entry: Seq<char>, body: Seq<char>) -> bool {
    task.get("annotations"@) matches Some(JsonView::Array(items)) && exists|k: int|
        is_last_annotation(items, k, entry, body)
}

/// The annotations that are handed out are exactly those of the task, each entry once.
pub proof fn law_all_annotations_are_handed_out(
    task: &Json,
    set: Vec<(String, String)>,
    entry: Seq<char>,
    body: Seq<char>,
)
    requires
        call_ensures(annotations_set, (task,), set),
    ensures
        is_annotation(task@, entry, body) <==> exists|i: int|
            0 <= i < set@.len() && (#[trigger] set@[i]).0@ == entry && set@[i].1@ == body,
        forall|i: int, j: int|
            0 <= i < j < set@.len() ==> (#[trigger] set@[i]).0@ != (#[trigger] set@[j]).0@,
{
    let list = annotations_view(task@);
    assert(pair_texts(set@) == list);
    assert forall|i: int| 0 <= i < set@.len() implies (#[trigger] set@[i]).0@ == list[i].0
        && set@[i].1@ == list[i].1 by {
        assert(pair_texts(set@)[i] == list[i]);
    }
    lemma_annotations_are_those(task@, entry, body);
    law_annotation_entries_differ(task@);
    if list.contains((entry, body)) {
        let i = choose|i: int| 0 <= i < list.len() && list[i] == (entry, body);
        assert(set@[i].0@ == entry && set@[i].1@ == body);
    }
    assert forall|i: int| 0 <= i < set@.len() && (#[trigger] set@[i]).0@ == entry && set@[i].1@
        == body implies list.contains((entry, body)) by {
        assert(list[i] == (entry, body));
    }
}

/// The annotations of a task, in terms of its items.
pub proof fn lemma_annotations_are_those(task: JsonView, entry: Seq<char>, body: Seq<char>)
    ensures
        annotations_view(task).contains((entry, body)) <==> is_annotation(task, entry, body),
        has_entry(annotations_view(task), entry) <==> exists|b: Seq<char>|
            is_annotation(task, entry, b),
{
    assert forall|b: Seq<char>| is_annotation(task, entry, b) <==> annotations_view(
        task,
    ).contains((entry, b)) by {
        if let Some(JsonView::Array(items)) = task.get("annotations"@) {
            let list = annotation_list(items);
            if exists|k: int| is_last_annotation(items, k, entry, b) {
                let k = choose|k: int| is_last_annotation(items, k, entry, b);
                assert(annotation_view(items[k]) == Some((entry, b)));
                law_annotation_last_counts(items, k);
            }
            if list.contains((entry, b)) {
                let n = choose|n: int| 0 <= n < list.len() && list[n] == (entry, b);
                lemma_annotation_is_last(items, n);
            }
        }
    }
    let list = annotations_view(task);
    if has_entry(list, entry) {
        let i = choose|i: int| 0 <= i < list.len() && (#[trigger] list[i]).0 == entry;
        assert(list[i] == (entry, list[i].1));
        assert(list.contains((entry, list[i].1)));
        assert(is_annotation(task, entry, list[i].1));
    }
    if exists|b: Seq<char>| is_annotation(task, entry, b) {
        let b = choose|b: Seq<char>| is_annotation(task, entry, b);
        assert(list.contains((entry, b)));
        let i = choose|i: int| 0 <= i < list.len() && list[i] == (entry, b);
        assert(list[i].0 == entry);
    }
}

proof fn lemma_annotation_is_last(items: Seq<JsonView>, n: int)
    requires
        0 <= n < annotation_list(items).len(),
    ensures
        exists|k: int|
            is_last_annotation(items, k, annotation_list(items)[n].0, annotation_list(items)[n].1),
    decreases items.len(),
{
    let list = annotation_list(items);
    let shorter = items.drop_last();
    let rest = annotation_list(shorter);
    let last = items.len() - 1;
    match annotation_view(items.last()) {
        Some(annotation) => {
            if n == list.len() - 1 {
                assert(is_last_annotation(items, last, list[n].0, list[n].1));
            } else {
                lemma_without_entry_from(rest, annotation.0, n);
                let m = choose|m: int|
                    0 <= m < rest.len() && rest[m] == without_entry(rest, annotation.0)[n];
                lemma_annotation_is_last(shorter, m);
                let k = choose|k: int| is_last_annotation(shorter, k, rest[m].0, rest[m].1);
                lemma_last_stays(items, k, list[n].0, list[n].1);
            }
        },
        None => {
            lemma_annotation_is_last(shorter, n);
            let k = choose|k: int| is_last_annotation(shorter, k, rest[n].0, rest[n].1);
            lemma_last_stays(items, k, list[n].0, list[n].1);
        },
    }
}

proof fn lemma_last_stays(items: Seq<JsonView>, k: int, entry: Seq<char>, body: Seq<char>)
    requires
        items.len() > 0,
        is_last_annotation(items.drop_last(), k, entry, body),
        annotation_view(items.last()) matches Some(annotation) ==> annotation.0 != entry,
    ensures
        is_last_annotation(items, k, entry, body),
{
    let shorter = items.drop_last();
    assert forall|j: int| k < j < items.len() implies !((#[trigger] items[j]).get("entry"@)
        == Some(JsonView::Text(entry)) && (items[j].get("description"@) matches Some(later)
        && later is Text)) by {
        if j < items.len() - 1 {
            assert(items[j] == shorter[j]);
        } else {
            assert(items[j] == items.last());
        }
    }
}


} // verus!
