//! A model of what lies below a target directory, and of what the steps of
//! a zip extraction do to it. In the model every step succeeds; it says
//! what an extraction leaves behind when it runs to its end. Unpacking a tar
//! archive lies outside the model.

use vstd::prelude::*;
use crate::archive::{
    all_readable, steps_of_entries, steps_of_entry, zip_plan, ExtractStepView,
};
use crate::codec::ZipEntryView;
use crate::text::ends_with;

verus! {

/// What lies at one name: a directory, or a file with its content; and the
/// permission bits that were set on it, if any were.
pub struct Node {
    pub is_dir: bool,
    pub data: Seq<u8>,
    pub mode: Option<u32>,
}

/// What lies at `name`, if anything.
pub open spec fn node_at(tree: Map<Seq<char>, Node>, name: Seq<char>) -> Option<Node> {
    if tree.dom().contains(name) {
        Some(tree[name])
    } else {
        None
    }
}

/// The tree after one step. A directory that is there is left as it is; a
/// file is written anew and keeps the permission bits that it had; bits
/// are set on what is there.
pub open spec fn after_step(tree: Map<Seq<char>, Node>, step: ExtractStepView) -> Map<
    Seq<char>,
    Node,
> {
    match step {
        ExtractStepView::CreateTarget => tree,
        ExtractStepView::MakeDir { name } => if tree.dom().contains(name) {
            tree
        } else {
            tree.insert(name, Node { is_dir: true, data: Seq::empty(), mode: None })
        },
        ExtractStepView::WriteFile { name, data } => tree.insert(
            name,
            Node {
                is_dir: false,
                data,
                mode: if tree.dom().contains(name) {
                    tree[name].mode
                } else {
                    None
                },
            },
        ),
        ExtractStepView::SetMode { name, mode } => if tree.dom().contains(name) {
            tree.insert(
                name,
                Node { is_dir: tree[name].is_dir, data: tree[name].data, mode: Some(mode) },
            )
        } else {
            tree
        },
        ExtractStepView::UnpackTar { .. } => tree,
    }
}

/// The tree after the first `n` of `steps`, in order.
pub open spec fn after_steps(tree: Map<Seq<char>, Node>, steps: Seq<ExtractStepView>, n: int) -> Map<
    Seq<char>,
    Node,
>
    decreases n,
{
    if n <= 0 || n > steps.len() {
        tree
    } else {
        after_step(after_steps(tree, steps, n - 1), steps[n - 1])
    }
}

/// The tree after all of `steps`.
pub open spec fn extracted(tree: Map<Seq<char>, Node>, steps: Seq<ExtractStepView>) -> Map<
    Seq<char>,
    Node,
> {
    after_steps(tree, steps, steps.len() as int)
}

/// What a run of entries does to one name: whether it places something
/// there, with which content, and which permission bits it sets last.
pub struct Effect {
    pub placed: Option<Seq<u8>>,
    pub mode: Option<u32>,
}

/// What lies at `name` after `effect`, where `before` lay there.
pub open spec fn node_after(name: Seq<char>, before: Option<Node>, effect: Effect) -> Option<Node> {
    match effect.placed {
        None => before,
        Some(data) => {
            let placed = if ends_with(name, "/"@) {
                match before {
                    Some(node) => node,
                    None => Node { is_dir: true, data: Seq::empty(), mode: None },
                }
            } else {
                Node {
                    is_dir: false,
                    data,
                    mode: match before {
                        Some(node) => node.mode,
                        None => None,
                    },
                }
            };
            match effect.mode {
                Some(mode) => Some(Node { is_dir: placed.is_dir, data: placed.data, mode: Some(mode) }),
                None => Some(placed),
            }
        },
    }
}

/// What one entry does to `name`.
pub open spec fn effect_of_entry(entry: ZipEntryView, name: Seq<char>) -> Effect {
    if entry.name == name {
        Effect { placed: Some(entry.data), mode: entry.unix_mode }
    } else {
        Effect { placed: None, mode: None }
    }
}

/// `first`, then `then`: the later content and the later bits stand.
pub open spec fn both(first: Effect, then: Effect) -> Effect {
    Effect {
        placed: match then.placed {
            Some(data) => Some(data),
            None => first.placed,
        },
        mode: match then.mode {
            Some(mode) => Some(mode),
            None => first.mode,
        },
    }
}

/// What the entries from index `i` up to the first unreadable one do to
/// `name`.
pub open spec fn effect_of_entries(entries: Seq<Option<ZipEntryView>>, i: int, name: Seq<char>) -> Effect
    decreases entries.len() - i,
{
    if i < 0 || i >= entries.len() {
        Effect { placed: None, mode: None }
    } else {
        match entries[i] {
            Some(entry) => both(
                effect_of_entry(entry, name),
                effect_of_entries(entries, i + 1, name),
            ),
            None => Effect { placed: None, mode: None },
        }
    }
}

/// An effect sets bits only on what it places.
pub open spec fn sets_what_it_places(effect: Effect) -> bool {
    effect.mode is Some ==> effect.placed is Some
}

proof fn lemma_after_steps_append(
    tree: Map<Seq<char>, Node>,
    a: Seq<ExtractStepView>,
    b: Seq<ExtractStepView>,
    n: int,
)
    requires
        0 <= n <= b.len(),
    ensures
        after_steps(tree, a + b, a.len() + n) == after_steps(extracted(tree, a), b, n),
    decreases n,
{
    if n == 0 {
        lemma_after_steps_prefix(tree, a, a + b, a.len() as int);
    } else {
        lemma_after_steps_append(tree, a, b, n - 1);
        assert((a + b)[a.len() + n - 1] == b[n - 1]);
    }
}

proof fn lemma_after_steps_prefix(
    tree: Map<Seq<char>, Node>,
    a: Seq<ExtractStepView>,
    c: Seq<ExtractStepView>,
    n: int,
)
    requires
        0 <= n <= a.len() <= c.len(),
        forall|k: int| 0 <= k < a.len() ==> a[k] == c[k],
    ensures
        after_steps(tree, c, n) == after_steps(tree, a, n),
    decreases n,
{
    if n > 0 {
        lemma_after_steps_prefix(tree, a, c, n - 1);
    }
}

proof fn lemma_entry_effect(tree: Map<Seq<char>, Node>, entry: ZipEntryView, name: Seq<char>)
    ensures
        node_at(extracted(tree, steps_of_entry(entry)), name) == node_after(
            name,
            node_at(tree, name),
            effect_of_entry(entry, name),
        ),
{
    let steps = steps_of_entry(entry);
    reveal_with_fuel(after_steps, 3);
    let place = steps[0];
    let t1 = after_step(tree, place);
    assert(after_steps(tree, steps, 1) == t1);
    match entry.unix_mode {
        Some(mode) => {
            assert(steps.len() == 2);
            assert(extracted(tree, steps) == after_step(t1, steps[1]));
            assert(t1.dom().contains(entry.name));
        },
        None => {
            assert(steps.len() == 1);
        },
    }
}

proof fn lemma_both(name: Seq<char>, before: Option<Node>, first: Effect, then: Effect)
    requires
        sets_what_it_places(first),
        sets_what_it_places(then),
    ensures
        node_after(name, node_after(name, before, first), then) == node_after(
            name,
            before,
            both(first, then),
        ),
        sets_what_it_places(both(first, then)),
{
}

proof fn lemma_effect_of_entries(entries: Seq<Option<ZipEntryView>>, i: int, name: Seq<char>)
    requires
        0 <= i,
    ensures
        sets_what_it_places(effect_of_entries(entries, i, name)),
    decreases entries.len() - i,
{
    if i < entries.len() && entries[i] is Some {
        lemma_effect_of_entries(entries, i + 1, name);
    }
}

/// What lies at a name after the steps of a run of entries is what their
/// effect on that name makes of what lay there before.
pub proof fn lemma_extracted_node(
    tree: Map<Seq<char>, Node>,
    entries: Seq<Option<ZipEntryView>>,
    i: int,
    name: Seq<char>,
)
    requires
        0 <= i,
    ensures
        node_at(extracted(tree, steps_of_entries(entries, i)), name) == node_after(
            name,
            node_at(tree, name),
            effect_of_entries(entries, i, name),
        ),
    decreases entries.len() - i,
{
    if i < entries.len() && entries[i] is Some {
        let entry = entries[i]->0;
        let head = steps_of_entry(entry);
        let tail = steps_of_entries(entries, i + 1);
        let mid = extracted(tree, head);
        lemma_after_steps_append(tree, head, tail, tail.len() as int);
        assert(extracted(tree, head + tail) == extracted(mid, tail));
        lemma_entry_effect(tree, entry, name);
        lemma_extracted_node(mid, entries, i + 1, name);
        lemma_effect_of_entries(entries, i + 1, name);
        lemma_both(
            name,
            node_at(tree, name),
            effect_of_entry(entry, name),
            effect_of_entries(entries, i + 1, name),
        );
    }
}

/// Extracting a zip archive a second time changes nothing: after the
/// steps of its entries have been carried out once, carrying them out
/// again leaves every file with the content and every file and directory
/// with the permission bits that it has.
pub proof fn lemma_extraction_is_idempotent(
    tree: Map<Seq<char>, Node>,
    entries: Seq<Option<ZipEntryView>>,
)
    ensures
        ({
            let steps = steps_of_entries(entries, 0);
            extracted(extracted(tree, steps), steps) == extracted(tree, steps)
        }),
{
    let steps = steps_of_entries(entries, 0);
    let once = extracted(tree, steps);
    let twice = extracted(once, steps);
    assert forall|name: Seq<char>| node_at(twice, name) == node_at(once, name) by {
        lemma_extracted_node(tree, entries, 0, name);
        lemma_extracted_node(once, entries, 0, name);
    }
    assert forall|name: Seq<char>| twice.dom().contains(name) == once.dom().contains(name) by {
        assert(node_at(twice, name) == node_at(once, name));
    }
    assert forall|name: Seq<char>| twice.dom().contains(name) implies twice[name] == once[name] by {
        assert(node_at(twice, name) == node_at(once, name));
    }
    assert(twice =~= once);
}

/// The same of the whole plan of a zip archive: carried out twice, it
/// leaves what it leaves when carried out once.
pub proof fn lemma_zip_plan_is_idempotent(
    tree: Map<Seq<char>, Node>,
    listing: Option<Seq<Option<ZipEntryView>>>,
)
    ensures
        extracted(extracted(tree, zip_plan(listing).0), zip_plan(listing).0) == extracted(
            tree,
            zip_plan(listing).0,
        ),
{
    let head = seq![ExtractStepView::CreateTarget];
    reveal_with_fuel(after_steps, 2);
    assert(forall|t: Map<Seq<char>, Node>| extracted(t, head) == t);
    match listing {
        Some(entries) => {
            if all_readable(entries) {
                let steps = steps_of_entries(entries, 0);
                let once = extracted(tree, steps);
                lemma_after_steps_append(tree, head, steps, steps.len() as int);
                lemma_after_steps_append(once, head, steps, steps.len() as int);
                lemma_extraction_is_idempotent(tree, entries);
            }
        },
        None => {},
    }
}

} // verus!
