//! Walks over the item tree of a collection.

use vstd::prelude::*;
use crate::models::collection::CollectionItem;
use crate::outside::{to_lowercase, lowercase_of};
use crate::text::{push_str, push_char, text_eq};

verus! {

/// The sub-items of a folder, as a sequence (empty for a leaf).
pub open spec fn children(it: CollectionItem) -> Seq<CollectionItem> {
    match it.item {
        Some(sub) => sub@,
        None => Seq::empty(),
    }
}

/// The names of all requests, in tree order: an item's own name (if it is a
/// request) comes before those under it.
pub open spec fn request_names(items: Seq<CollectionItem>) -> Seq<Seq<char>>
    decreases items,
{
    if items.len() == 0 {
        Seq::empty()
    } else {
        let it = items[0];
        (if it.request is Some { seq![it.name@] } else { Seq::empty() })
            + (match it.item {
                Some(sub) => request_names(sub@),
                None => Seq::empty(),
            })
            + request_names(items.drop_first())
    }
}

/// All requests in tree order; an item that is a request is not descended into.
pub open spec fn requests(items: Seq<CollectionItem>) -> Seq<CollectionItem>
    decreases items,
{
    if items.len() == 0 {
        Seq::empty()
    } else {
        let it = items[0];
        (if it.request is Some {
            seq![it]
        } else {
            match it.item {
                Some(sub) => requests(sub@),
                None => Seq::empty(),
            }
        }) + requests(items.drop_first())
    }
}

/// The number of requests, counting folders' contents only: an item with
/// sub-items counts what is under it, a leaf request counts one.
pub open spec fn request_count(items: Seq<CollectionItem>) -> nat
    decreases items,
{
    if items.len() == 0 {
        0
    } else {
        let it = items[0];
        (match it.item {
            Some(sub) => request_count(sub@),
            None => if it.request is Some { 1nat } else { 0nat },
        }) + request_count(items.drop_first())
    }
}

/// The first request in tree order whose lowercased name is `target`.
pub open spec fn find_request(items: Seq<CollectionItem>, target: Seq<char>) -> Option<CollectionItem>
    decreases items,
{
    if items.len() == 0 {
        None
    } else {
        let it = items[0];
        if lowercase_of(it.name@) == target && it.request is Some {
            Some(it)
        } else {
            match (match it.item {
                Some(sub) => find_request(sub@, target),
                None => None,
            }) {
                Some(found) => Some(found),
                None => find_request(items.drop_first(), target),
            }
        }
    }
}

/// Searches the tree for a request whose name equals `name` ignoring case.
pub fn find_request_by_name<'a>(items: &'a Vec<CollectionItem>, name: &str) -> (r: Option<&'a CollectionItem>)
    ensures
        match r {
            Some(it) => find_request(items@, lowercase_of(name@)) == Some(*it),
            None => find_request(items@, lowercase_of(name@)) is None,
        },
    decreases items@,
{
    let name_lower = to_lowercase(name);
    let n = items.len();
    let mut i: usize = 0;
    proof {
        assert(items@.skip(0) =~= items@);
    }
    while i < n
        invariant
            n == items@.len(),
            i <= n,
            name_lower@ == lowercase_of(name@),
            find_request(items@, name_lower@) == find_request(items@.skip(i as int), name_lower@),
        decreases n - i,
    {
        let it = &items[i];
        let ghost rest = items@.skip(i as int);
        proof {
            assert(rest[0] == items@[i as int]);
            assert(rest.drop_first() =~= items@.skip(i + 1));
        }
        let it_lower = to_lowercase(it.name.as_str());
        if text_eq(it_lower.as_str(), name_lower.as_str()) && it.request.is_some() {
            return Some(it);
        }
        match &it.item {
            Some(sub) => {
                assert(decreases_to!(items@ => sub@)) by {
                    assert(decreases_to!(items@ => items@[i as int]));
                };
                match find_request_by_name(sub, name) {
                    Some(found) => {
                        return Some(found);
                    },
                    None => {},
                }
            },
            None => {},
        }
        i = i + 1;
    }
    None
}


/// The model of a list of names.
pub open spec fn names_view(v: Seq<String>) -> Seq<Seq<char>> {
    v.map_values(|s: String| s@)
}

/// The names of every request of the tree, in tree order (also those of
/// requests that have sub-items).
pub fn list_request_names(items: &Vec<CollectionItem>) -> (names: Vec<String>)
    ensures
        names_view(names@) == request_names(items@),
    decreases items@,
{
    let mut names: Vec<String> = Vec::new();
    let n = items.len();
    let mut i: usize = 0;
    proof {
        assert(items@.skip(0) =~= items@);
        assert(names_view(names@) =~= Seq::<Seq<char>>::empty());
    }
    while i < n
        invariant
            n == items@.len(),
            i <= n,
            names_view(names@) + request_names(items@.skip(i as int)) == request_names(items@),
        decreases n - i,
    {
        let it = &items[i];
        let ghost rest = items@.skip(i as int);
        let ghost before = names_view(names@);
        proof {
            assert(rest[0] == items@[i as int]);
            assert(rest.drop_first() =~= items@.skip(i + 1));
        }
        if it.request.is_some() {
            names.push(it.name.clone());
        }
        let ghost own = if it.request is Some { seq![it.name@] } else { Seq::<Seq<char>>::empty() };
        assert(names_view(names@) =~= before + own);
        let ghost mid = names_view(names@);
        match &it.item {
            Some(sub) => {
                assert(decreases_to!(items@ => sub@)) by {
                    assert(decreases_to!(items@ => items@[i as int]));
                };
                let sub_names = list_request_names(sub);
                let mut k: usize = 0;
                let m = sub_names.len();
                while k < m
                    invariant
                        m == sub_names@.len(),
                        k <= m,
                        names_view(names@) == mid + names_view(sub_names@).take(k as int),
                    decreases m - k,
                {
                    let ghost prev = names@;
                    let c = sub_names[k].clone();
                    names.push(c);
                    assert(names@ == prev.push(c));
                    assert(names_view(names@) =~= names_view(prev).push(sub_names@[k as int]@));
                    assert(names_view(sub_names@).take(k + 1) =~= names_view(sub_names@).take(k as int).push(sub_names@[k as int]@));
                    assert(names_view(names@) =~= mid + names_view(sub_names@).take(k + 1));
                    k = k + 1;
                }
                assert(names_view(sub_names@).take(m as int) =~= names_view(sub_names@));
            },
            None => {},
        }
        assert(request_names(rest) == own + (match it.item {
            Some(sub) => request_names(sub@),
            None => Seq::empty(),
        }) + request_names(items@.skip(i + 1)));
        assert(names_view(names@) + request_names(items@.skip(i + 1)) =~= before + request_names(rest));
        i = i + 1;
    }
    proof {
        assert(items@.skip(n as int) =~= Seq::<CollectionItem>::empty());
        assert(names_view(names@) + Seq::<Seq<char>>::empty() =~= names_view(names@));
    }
    names
}


/// The items that a list of references points to.
pub open spec fn deref_items(v: Seq<&CollectionItem>) -> Seq<CollectionItem> {
    v.map_values(|x: &CollectionItem| *x)
}

/// Every request of the tree, in tree order, without descending into items
/// that are requests themselves.
pub fn collect_requests<'a>(items: &'a Vec<CollectionItem>) -> (result: Vec<&'a CollectionItem>)
    ensures
        deref_items(result@) == requests(items@),
    decreases items@,
{
    let mut result: Vec<&'a CollectionItem> = Vec::new();
    let n = items.len();
    let mut i: usize = 0;
    proof {
        assert(items@.skip(0) =~= items@);
        assert(deref_items(result@) =~= Seq::<CollectionItem>::empty());
    }
    while i < n
        invariant
            n == items@.len(),
            i <= n,
            deref_items(result@) + requests(items@.skip(i as int)) == requests(items@),
        decreases n - i,
    {
        let it = &items[i];
        let ghost rest = items@.skip(i as int);
        let ghost before = deref_items(result@);
        proof {
            assert(rest[0] == items@[i as int]);
            assert(rest.drop_first() =~= items@.skip(i + 1));
        }
        let ghost own = if it.request is Some {
            seq![*it]
        } else {
            requests(children(*it))
        };
        if it.request.is_some() {
            result.push(it);
            assert(deref_items(result@) =~= before.push(*it));
        } else {
            match &it.item {
                Some(sub) => {
                    assert(decreases_to!(items@ => sub@)) by {
                        assert(decreases_to!(items@ => items@[i as int]));
                    };
                    let found = collect_requests(sub);
                    let m = found.len();
                    let mut k: usize = 0;
                    while k < m
                        invariant
                            m == found@.len(),
                            k <= m,
                            deref_items(result@) == before + deref_items(found@).take(k as int),
                        decreases m - k,
                    {
                        let ghost prev = result@;
                        result.push(found[k]);
                        assert(deref_items(result@) =~= deref_items(prev).push(*found@[k as int]));
                        assert(deref_items(found@).take(k + 1) =~= deref_items(found@).take(k as int).push(*found@[k as int]));
                        k = k + 1;
                    }
                    assert(deref_items(found@).take(m as int) =~= deref_items(found@));
                },
                None => {},
            }
        }
        assert(deref_items(result@) =~= before + own);
        assert(requests(Seq::<CollectionItem>::empty()) =~= Seq::<CollectionItem>::empty());
        assert(requests(rest) == own + requests(items@.skip(i + 1)));
        assert(deref_items(result@) + requests(items@.skip(i + 1)) =~= before + requests(rest));
        i = i + 1;
    }
    proof {
        assert(items@.skip(n as int) =~= Seq::<CollectionItem>::empty());
        assert(deref_items(result@) + Seq::<CollectionItem>::empty() =~= deref_items(result@));
    }
    result
}

/// Counts the requests of the tree: a folder counts what is under it,
/// a leaf request counts one.
pub fn count_requests(items: &Vec<CollectionItem>) -> (count: usize)
    requires
        request_count(items@) <= usize::MAX,
    ensures
        count == request_count(items@),
    decreases items@,
{
    let mut count: usize = 0;
    let n = items.len();
    let mut i: usize = 0;
    proof {
        assert(items@.skip(0) =~= items@);
    }
    while i < n
        invariant
            n == items@.len(),
            i <= n,
            request_count(items@) <= usize::MAX,
            count + request_count(items@.skip(i as int)) == request_count(items@),
        decreases n - i,
    {
        let it = &items[i];
        let ghost rest = items@.skip(i as int);
        proof {
            assert(rest[0] == items@[i as int]);
            assert(rest.drop_first() =~= items@.skip(i + 1));
        }
        let c: usize = match &it.item {
            Some(sub) => {
                assert(decreases_to!(items@ => sub@)) by {
                    assert(decreases_to!(items@ => items@[i as int]));
                };
                count_requests(sub)
            },
            None => if it.request.is_some() { 1 } else { 0 },
        };
        count = count + c;
        i = i + 1;
    }
    proof {
        assert(items@.skip(n as int) =~= Seq::<CollectionItem>::empty());
    }
    count
}


/// Two spaces per level of depth.
pub open spec fn indent(depth: nat) -> Seq<char>
    decreases depth,
{
    if depth == 0 {
        Seq::empty()
    } else {
        indent((depth - 1) as nat) + seq![' ', ' ']
    }
}

/// How deep folders nest below a list of items.
pub open spec fn height(items: Seq<CollectionItem>) -> nat
    decreases items,
{
    if items.len() == 0 {
        0
    } else {
        let h0 = item_height(items[0]);
        let hr = height(items.drop_first());
        if h0 >= hr { h0 } else { hr }
    }
}

/// How deep folders nest below (and including) one item.
pub open spec fn item_height(it: CollectionItem) -> nat
    decreases it,
{
    match it.item {
        Some(sub) => 1 + height(sub@),
        None => 0,
    }
}

/// The method shown for a request, `???` when it has none.
pub open spec fn method_label(m: Option<String>) -> Seq<char> {
    match m {
        Some(s) => s@,
        None => "???"@,
    }
}

/// The outline of one item: `[folder] name` followed by its children one
/// level deeper, `  [METHOD] name` for a request, `  - name` otherwise.
pub open spec fn item_outline(it: CollectionItem, depth: nat) -> Seq<char>
    decreases it,
{
    match it.item {
        Some(sub) => {
            let folder_line = indent(depth) + "[folder] "@ + it.name@;
            let children = outline(sub@, depth + 1);
            if children.len() == 0 {
                folder_line
            } else {
                folder_line + "\n"@ + children
            }
        },
        None => match it.request {
            Some(req) => indent(depth) + "  ["@ + method_label(req.method) + "] "@ + it.name@,
            None => indent(depth) + "  - "@ + it.name@,
        },
    }
}

/// The outlines of the items, one after another, separated by newlines.
pub open spec fn outline(items: Seq<CollectionItem>, depth: nat) -> Seq<char>
    decreases items,
{
    if items.len() == 0 {
        Seq::empty()
    } else if items.len() == 1 {
        item_outline(items[0], depth)
    } else {
        item_outline(items[0], depth) + "\n"@ + outline(items.drop_first(), depth)
    }
}

proof fn lemma_height_bounds(items: Seq<CollectionItem>, i: int)
    requires
        0 <= i < items.len(),
    ensures
        item_height(items[i]) <= height(items),
        height(items.skip(i)) <= height(items),
    decreases items.len(),
{
    if i > 0 {
        lemma_height_bounds(items.drop_first(), i - 1);
        assert(items.drop_first()[i - 1] == items[i]);
        assert(items.drop_first().skip(i - 1) =~= items.skip(i));
    } else {
        assert(items.skip(0) =~= items);
    }
}

fn push_indent(s: &mut String, depth: usize)
    ensures
        final(s)@ == old(s)@ + indent(depth as nat),
{
    let mut k: usize = 0;
    while k < depth
        invariant
            k <= depth,
            s@ == old(s)@ + indent(k as nat),
        decreases depth - k,
    {
        push_char(s, ' ');
        push_char(s, ' ');
        k = k + 1;
        assert(s@ =~= old(s)@ + indent(k as nat));
    }
}

/// The outline of one item (see `item_outline`).
pub fn summarize_item(it: &CollectionItem, depth: usize) -> (out: String)
    requires
        depth + item_height(*it) <= usize::MAX / 2,
    ensures
        out@ == item_outline(*it, depth as nat),
    decreases *it,
{
    let mut out = String::new();
    push_indent(&mut out, depth);
    match &it.item {
        Some(sub) => {
            push_str(&mut out, "[folder] ");
            push_str(&mut out, it.name.as_str());
            assert(decreases_to!(*it => sub@));
            let children = summarize_items(sub, depth + 1);
            if !children.as_str().is_empty() {
                push_str(&mut out, "\n");
                push_str(&mut out, children.as_str());
            }
        },
        None => match &it.request {
            Some(req) => {
                push_str(&mut out, "  [");
                match &req.method {
                    Some(m) => push_str(&mut out, m.as_str()),
                    None => push_str(&mut out, "???"),
                }
                push_str(&mut out, "] ");
                push_str(&mut out, it.name.as_str());
            },
            None => {
                push_str(&mut out, "  - ");
                push_str(&mut out, it.name.as_str());
            },
        },
    }
    out
}

/// The outline of a list of items at the given depth, one item after
/// another separated by newlines (see `outline`).
pub fn summarize_items(items: &Vec<CollectionItem>, depth: usize) -> (out: String)
    requires
        depth + height(items@) <= usize::MAX / 2,
    ensures
        out@ == outline(items@, depth as nat),
    decreases items@,
{
    let mut out = String::new();
    let n = items.len();
    let mut i: usize = 0;
    proof {
        assert(items@.skip(0) =~= items@);
    }
    while i < n
        invariant
            n == items@.len(),
            i <= n,
            depth + height(items@) <= usize::MAX / 2,
            outline(items@, depth as nat) == out@ + (if i == 0 {
                outline(items@, depth as nat)
            } else if i < n {
                "\n"@ + outline(items@.skip(i as int), depth as nat)
            } else {
                Seq::empty()
            }),
        decreases n - i,
    {
        let it = &items[i];
        let ghost rest = items@.skip(i as int);
        proof {
            assert(rest[0] == items@[i as int]);
            assert(rest.drop_first() =~= items@.skip(i + 1));
            lemma_height_bounds(items@, i as int);
            assert(decreases_to!(items@ => items@[i as int]));
        }
        let ghost before = out@;
        if i > 0 {
            push_str(&mut out, "\n");
        }
        let line = summarize_item(it, depth);
        push_str(&mut out, line.as_str());
        proof {
            if i == 0 {
                assert(rest =~= items@);
            }
            if i + 1 < n {
                assert(outline(rest, depth as nat) == item_outline(items@[i as int], depth as nat) + "\n"@ + outline(items@.skip(i + 1), depth as nat));
            } else {
                assert(outline(rest, depth as nat) == item_outline(items@[i as int], depth as nat));
            }
        }
        i = i + 1;
    }
    proof {
        if n == 0 {
            assert(out@ =~= Seq::<char>::empty());
        }
    }
    out
}


/// No item of the tree is both a request and a folder.
pub open spec fn well_shaped(items: Seq<CollectionItem>) -> bool
    decreases items,
{
    if items.len() == 0 {
        true
    } else {
        &&& !(items[0].request is Some && items[0].item is Some)
        &&& match items[0].item {
            Some(sub) => well_shaped(sub@),
            None => true,
        }
        &&& well_shaped(items.drop_first())
    }
}

/// The names of a list of items.
pub open spec fn item_names(items: Seq<CollectionItem>) -> Seq<Seq<char>> {
    items.map_values(|it: CollectionItem| it.name@)
}

/// In a tree where no item is both a request and a folder, the count of
/// requests is the number of requests collected.
pub proof fn law_count_matches_collected(items: Seq<CollectionItem>)
    requires
        well_shaped(items),
    ensures
        request_count(items) == requests(items).len(),
    decreases items,
{
    if items.len() > 0 {
        let it = items[0];
        match it.item {
            Some(sub) => {
                law_count_matches_collected(sub@);
            },
            None => {},
        }
        law_count_matches_collected(items.drop_first());
    }
}

/// In a tree where no item is both a request and a folder, the listed
/// request names are the names of the collected requests, in order.
pub proof fn law_names_match_collected(items: Seq<CollectionItem>)
    requires
        well_shaped(items),
    ensures
        request_names(items) == item_names(requests(items)),
    decreases items,
{
    if items.len() > 0 {
        let it = items[0];
        let rest = items.drop_first();
        law_names_match_collected(rest);
        let own = if it.request is Some {
            seq![it]
        } else {
            requests(children(it))
        };
        match it.item {
            Some(sub) => {
                law_names_match_collected(sub@);
            },
            None => {
                assert(request_names(Seq::<CollectionItem>::empty()) =~= Seq::<Seq<char>>::empty());
                assert(requests(Seq::<CollectionItem>::empty()) =~= Seq::<CollectionItem>::empty());
            },
        }
        assert(requests(items) == own + requests(rest));
        assert(item_names(own + requests(rest)) =~= item_names(own) + item_names(requests(rest)));
        if it.request is Some {
            assert(item_names(own) =~= seq![it.name@]);
        }
        assert(request_names(items) =~= item_names(requests(items)));
    }
}

/// A request found by name is a request, and its lowercased name is the target.
pub proof fn law_found_is_matching_request(items: Seq<CollectionItem>, target: Seq<char>)
    ensures
        find_request(items, target) matches Some(it) ==> it.request is Some && lowercase_of(it.name@) == target,
    decreases items,
{
    if items.len() > 0 {
        match items[0].item {
            Some(sub) => law_found_is_matching_request(sub@, target),
            None => {},
        }
        law_found_is_matching_request(items.drop_first(), target);
    }
}

/// The search by name finds nothing exactly when no listed request name
/// lowercases to the target.
pub proof fn law_not_found_iff_unlisted(items: Seq<CollectionItem>, target: Seq<char>)
    ensures
        find_request(items, target) is None <==> (forall|j: int|
            0 <= j < request_names(items).len() ==> lowercase_of(#[trigger] request_names(items)[j]) != target),
    decreases items,
{
    if items.len() > 0 {
        let it = items[0];
        let rest = items.drop_first();
        law_not_found_iff_unlisted(rest, target);
        let own = if it.request is Some { seq![it.name@] } else { Seq::<Seq<char>>::empty() };
        let below = match it.item {
            Some(sub) => request_names(sub@),
            None => Seq::<Seq<char>>::empty(),
        };
        let found_below = match it.item {
            Some(sub) => find_request(sub@, target),
            None => None,
        };
        match it.item {
            Some(sub) => law_not_found_iff_unlisted(sub@, target),
            None => {},
        }
        let all = request_names(items);
        assert(all == own + below + request_names(rest));
        let tail = request_names(rest);
        if find_request(items, target) is None {
            assert forall|j: int| 0 <= j < all.len() implies lowercase_of(#[trigger] all[j]) != target by {
                if j < own.len() {
                    assert(all[j] == it.name@);
                } else if j < own.len() + below.len() {
                    assert(all[j] == below[j - own.len()]);
                } else {
                    assert(all[j] == tail[j - own.len() - below.len()]);
                }
            }
        } else {
            if lowercase_of(it.name@) == target && it.request is Some {
                assert(all[0] == it.name@);
            } else if found_below is Some {
                let k = choose|k: int| 0 <= k < below.len() && lowercase_of(#[trigger] below[k]) == target;
                assert(all[own.len() + k] == below[k]);
            } else {
                let k = choose|k: int| 0 <= k < tail.len() && lowercase_of(#[trigger] tail[k]) == target;
                assert(all[own.len() + below.len() + k] == tail[k]);
            }
        }
    }
}

/// How many line breaks a text holds.
pub open spec fn newline_count(s: Seq<char>) -> nat
    decreases s.len(),
{
    if s.len() == 0 {
        0
    } else {
        newline_count(s.drop_last()) + if s.last() == '\n' { 1nat } else { 0nat }
    }
}

/// How many items a tree holds: every item, folders and what they hold included.
pub open spec fn item_count(items: Seq<CollectionItem>) -> nat
    decreases items,
{
    if items.len() == 0 {
        0
    } else {
        1 + (match items[0].item {
            Some(sub) => item_count(sub@),
            None => 0,
        }) + item_count(items.drop_first())
    }
}

/// A text without line breaks.
pub open spec fn one_line(s: Seq<char>) -> bool {
    forall|i: int| 0 <= i < s.len() ==> s[i] != '\n'
}

/// Every name of the tree, and every method of its requests, is on one line.
pub open spec fn single_line_tree(items: Seq<CollectionItem>) -> bool
    decreases items,
{
    if items.len() == 0 {
        true
    } else {
        let it = items[0];
        &&& one_line(it.name@)
        &&& (match it.request {
            Some(r) => match r.method {
                Some(m) => one_line(m@),
                None => true,
            },
            None => true,
        })
        &&& (match it.item {
            Some(sub) => single_line_tree(sub@),
            None => true,
        })
        &&& single_line_tree(items.drop_first())
    }
}

proof fn lemma_newline_count_add(a: Seq<char>, b: Seq<char>)
    ensures
        newline_count(a + b) == newline_count(a) + newline_count(b),
    decreases b.len(),
{
    if b.len() == 0 {
        assert(a + b =~= a);
    } else {
        lemma_newline_count_add(a, b.drop_last());
        assert((a + b).drop_last() =~= a + b.drop_last());
    }
}

proof fn lemma_one_line_count(s: Seq<char>)
    requires
        one_line(s),
    ensures
        newline_count(s) == 0,
    decreases s.len(),
{
    if s.len() > 0 {
        lemma_one_line_count(s.drop_last());
    }
}

proof fn lemma_indent_one_line(d: nat)
    ensures
        one_line(indent(d)),
    decreases d,
{
    if d > 0 {
        lemma_indent_one_line((d - 1) as nat);
    }
}

proof fn lemma_literals_one_line()
    ensures
        one_line("[folder] "@),
        one_line("  ["@),
        one_line("] "@),
        one_line("  - "@),
        one_line("???"@),
        newline_count("\n"@) == 1,
        "[folder] "@.len() > 0,
        "  ["@.len() > 0,
        "  - "@.len() > 0,
{
    reveal_strlit("[folder] ");
    reveal_strlit("  [");
    reveal_strlit("] ");
    reveal_strlit("  - ");
    reveal_strlit("???");
    reveal_strlit("\n");
    assert(newline_count("\n"@.drop_last()) == 0) by {
        assert("\n"@.drop_last() =~= Seq::<char>::empty());
    }
}

proof fn lemma_join_one_line(a: Seq<char>, b: Seq<char>)
    requires
        one_line(a),
        one_line(b),
    ensures
        one_line(a + b),
{
    assert forall|i: int| 0 <= i < (a + b).len() implies (a + b)[i] != '\n' by {
        if i >= a.len() {
            assert((a + b)[i] == b[i - a.len()]);
        }
    }
}

/// The outline of a tree gives every item its own line, at any depth: with
/// names and methods on one line, the outline of a non-empty list holds
/// exactly one line per item of the tree, and that of an empty list is empty.
pub proof fn law_outline_line_per_item(items: Seq<CollectionItem>, depth: nat)
    requires
        single_line_tree(items),
    ensures
        items.len() == 0 ==> outline(items, depth) == Seq::<char>::empty(),
        items.len() > 0 ==> outline(items, depth).len() > 0
            && newline_count(outline(items, depth)) + 1 == item_count(items),
    decreases items,
{
    if items.len() > 0 {
        let it = items[0];
        let rest = items.drop_first();
        lemma_literals_one_line();
        lemma_indent_one_line(depth);
        let one = item_outline(it, depth);
        match it.item {
            Some(sub) => {
                assert(decreases_to!(items => sub@)) by {
                    assert(decreases_to!(items => items[0]));
                };
                law_outline_line_per_item(sub@, depth + 1);
                let folder_line = indent(depth) + "[folder] "@ + it.name@;
                lemma_join_one_line(indent(depth), "[folder] "@);
                lemma_join_one_line(indent(depth) + "[folder] "@, it.name@);
                lemma_one_line_count(folder_line);
                let children = outline(sub@, depth + 1);
                if children.len() > 0 {
                    lemma_newline_count_add(folder_line, "\n"@);
                    lemma_newline_count_add(folder_line + "\n"@, children);
                }
                assert(newline_count(one) == item_count(sub@));
                assert(one.len() > 0);
            },
            None => {
                match it.request {
                    Some(req) => {
                        let line = indent(depth) + "  ["@ + method_label(req.method) + "] "@ + it.name@;
                        lemma_join_one_line(indent(depth), "  ["@);
                        lemma_join_one_line(indent(depth) + "  ["@, method_label(req.method));
                        lemma_join_one_line(indent(depth) + "  ["@ + method_label(req.method), "] "@);
                        lemma_join_one_line(indent(depth) + "  ["@ + method_label(req.method) + "] "@, it.name@);
                        lemma_one_line_count(line);
                    },
                    None => {
                        let line = indent(depth) + "  - "@ + it.name@;
                        lemma_join_one_line(indent(depth), "  - "@);
                        lemma_join_one_line(indent(depth) + "  - "@, it.name@);
                        lemma_one_line_count(line);
                    },
                }
                assert(newline_count(one) == 0);
                assert(one.len() > 0);
            },
        }
        let own = match it.item {
            Some(sub) => item_count(sub@),
            None => 0,
        };
        assert(newline_count(one) == own);
        assert(item_count(items) == 1 + own + item_count(rest));
        if rest.len() > 0 {
            law_outline_line_per_item(rest, depth);
            lemma_newline_count_add(one, "\n"@);
            lemma_newline_count_add(one + "\n"@, outline(rest, depth));
            assert(outline(items, depth) == one + "\n"@ + outline(rest, depth));
        } else {
            assert(outline(items, depth) == one);
        }
    }
}

} // verus!
