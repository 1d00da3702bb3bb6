//! The registry of text triggers: for each trigger, the handlers waiting
//! for it to be typed, the longest triggers first, and the size of the
//! typed-text buffer that the longest trigger needs.

use std::cmp::Ordering;

use indexmap::IndexMap;
use vstd::prelude::*;

use crate::key_triggers::{HandleId, KeyEvent};
use crate::keys::{JsKey, JsStandardKey};
use crate::text_replacements::{
    find_trigger, grapheme_clusters, grapheme_count, kept_text, max_cluster_count,
    max_grapheme_count, texts_of, without_last_grapheme, OnTextOptions, StringRingBuffer,
};

verus! {

#[verifier::external_type_specification]
#[verifier::external_body]
#[verifier::reject_recursive_types(K)]
#[verifier::reject_recursive_types(V)]
#[verifier::reject_recursive_types(S)]
pub struct ExIndexMap<K, V, S>(IndexMap<K, V, S>);

/// A handler waiting for a trigger to be typed: its identifier and its
/// options. The replacement it inserts is kept by the input layer, under
/// the identifier.
#[derive(Clone, Copy, Debug, PartialEq, Eq, Structural)]
pub struct TextHandler {
    /// The identifier of the handler.
    pub id: HandleId,
    /// What to do once the trigger is typed.
    pub options: OnTextOptions,
}

/// The entries of the registry map, in its order: each trigger with its
/// handlers.
pub uninterp spec fn trigger_entries(m: IndexMap<String, Vec<TextHandler>>) -> Seq<
    (Seq<char>, Seq<TextHandler>),
>;

/// The number of grapheme clusters of a trigger.
pub open spec fn cluster_count(s: Seq<char>) -> nat {
    grapheme_clusters(s).len()
}

/// The triggers of some entries, in order.
pub open spec fn triggers_of(e: Seq<(Seq<char>, Seq<TextHandler>)>) -> Seq<Seq<char>> {
    e.map_values(|x: (Seq<char>, Seq<TextHandler>)| x.0)
}

/// The position of the first entry with trigger `key`, or `-1`.
pub open spec fn key_index(e: Seq<(Seq<char>, Seq<TextHandler>)>, key: Seq<char>) -> int
    decreases e.len(),
{
    if e.len() == 0 {
        -1
    } else if key_index(e.drop_last(), key) >= 0 {
        key_index(e.drop_last(), key)
    } else if e.last().0 == key {
        e.len() - 1
    } else {
        -1
    }
}

/// `x` placed into `d` after every entry whose trigger has at least as many
/// grapheme clusters, and before the others: one step of a stable sort of
/// the longest triggers first.
pub open spec fn insert_longest_first(
    d: Seq<(Seq<char>, Seq<TextHandler>)>,
    x: (Seq<char>, Seq<TextHandler>),
) -> Seq<(Seq<char>, Seq<TextHandler>)>
    decreases d.len(),
{
    if d.len() == 0 {
        seq![x]
    } else if cluster_count(d.last().0) >= cluster_count(x.0) {
        d.push(x)
    } else {
        insert_longest_first(d.drop_last(), x).push(d.last())
    }
}

/// The entries stably sorted with the longest triggers first: triggers
/// with as many clusters keep their order.
pub open spec fn sorted_longest_first(e: Seq<(Seq<char>, Seq<TextHandler>)>) -> Seq<
    (Seq<char>, Seq<TextHandler>),
>
    decreases e.len(),
{
    if e.len() == 0 {
        e
    } else {
        insert_longest_first(sorted_longest_first(e.drop_last()), e.last())
    }
}

/// The entries once `handler` is added under `key`: appended to the
/// handlers of the entry with that trigger, or in a new last entry.
pub open spec fn entries_with(
    e: Seq<(Seq<char>, Seq<TextHandler>)>,
    key: Seq<char>,
    handler: TextHandler,
) -> Seq<(Seq<char>, Seq<TextHandler>)> {
    let i = key_index(e, key);
    if i >= 0 {
        e.update(i, (e[i].0, e[i].1.push(handler)))
    } else {
        e.push((key, seq![handler]))
    }
}

/// The entries once `handler` is added under `key`: joined to the handlers
/// of that trigger, or as a new entry placed after the triggers at least as
/// long.
pub open spec fn entries_added(
    e: Seq<(Seq<char>, Seq<TextHandler>)>,
    key: Seq<char>,
    handler: TextHandler,
) -> Seq<(Seq<char>, Seq<TextHandler>)> {
    if key_index(e, key) >= 0 {
        entries_with(e, key, handler)
    } else {
        sorted_longest_first(entries_with(e, key, handler))
    }
}

/// The handlers other than those of `id`, in order.
pub open spec fn handlers_without(hs: Seq<TextHandler>, id: HandleId) -> Seq<TextHandler>
    decreases hs.len(),
{
    if hs.len() == 0 {
        hs
    } else if hs.last().id == id {
        handlers_without(hs.drop_last(), id)
    } else {
        handlers_without(hs.drop_last(), id).push(hs.last())
    }
}

/// The entries without the handlers of `id`, and without the entries left
/// with no handler, in order.
pub open spec fn entries_without(e: Seq<(Seq<char>, Seq<TextHandler>)>, id: HandleId) -> Seq<
    (Seq<char>, Seq<TextHandler>),
>
    decreases e.len(),
{
    if e.len() == 0 {
        e
    } else {
        let rest = entries_without(e.drop_last(), id);
        let hs = handlers_without(e.last().1, id);
        if hs.len() == 0 {
            rest
        } else {
            rest.push((e.last().0, hs))
        }
    }
}

/// `IndexMap::new`. Claims: no entry.
#[verifier::external_body]
fn registry_new() -> (m: IndexMap<String, Vec<TextHandler>>)
    ensures
        trigger_entries(m) == Seq::<(Seq<char>, Seq<TextHandler>)>::empty(),
{
    IndexMap::new()
}

/// `IndexMap::len`. Claims: the number of entries.
#[verifier::external_body]
fn registry_len(m: &IndexMap<String, Vec<TextHandler>>) -> (n: usize)
    ensures
        n == trigger_entries(*m).len(),
{
    m.len()
}

/// `IndexMap::contains_key`. Claims: whether an entry has the trigger.
#[verifier::external_body]
fn registry_contains(m: &IndexMap<String, Vec<TextHandler>>, key: &str) -> (b: bool)
    ensures
        b == (key_index(trigger_entries(*m), key@) >= 0),
{
    m.contains_key(key)
}

/// `IndexMap::entry(key).or_default().push(handler)`. Claims: the handler is
/// appended to those of the entry with that trigger, or put alone in a new
/// entry at the end (a vacant entry inserts at the end of the map).
#[verifier::external_body]
fn registry_push(m: &mut IndexMap<String, Vec<TextHandler>>, key: String, handler: TextHandler)
    ensures
        trigger_entries(*final(m)) == entries_with(trigger_entries(*old(m)), key@, handler),
{
    m.entry(key).or_default().push(handler);
}

/// The order of two triggers in the registry: the one with more grapheme
/// clusters first.
fn longer_first(a: &String, b: &String) -> (o: Ordering)
    ensures
        o == Ordering::Less <==> cluster_count(a@) > cluster_count(b@),
        o == Ordering::Equal <==> cluster_count(a@) == cluster_count(b@),
        o == Ordering::Greater <==> cluster_count(a@) < cluster_count(b@),
{
    let m = grapheme_count(a.as_str());
    let n = grapheme_count(b.as_str());
    if m > n {
        Ordering::Less
    } else if m == n {
        Ordering::Equal
    } else {
        Ordering::Greater
    }
}

/// `IndexMap::sort_by`, with the triggers of more grapheme clusters first.
/// Claims: the entries stably sorted that way (the crate documents its sort
/// as stable).
#[verifier::external_body]
fn registry_sort(m: &mut IndexMap<String, Vec<TextHandler>>)
    ensures
        trigger_entries(*final(m)) == sorted_longest_first(trigger_entries(*old(m))),
{
    m.sort_by(|a, _, b, _| longer_first(a, b));
}

/// Drops the handlers of `id`; says whether some handler is left.
fn keep_others(handlers: &mut Vec<TextHandler>, id: HandleId) -> (keep: bool)
    ensures
        final(handlers)@ == handlers_without(old(handlers)@, id),
        keep == (final(handlers)@.len() > 0),
{
    let mut kept: Vec<TextHandler> = Vec::new();
    let mut i: usize = 0;
    while i < handlers.len()
        invariant
            i <= handlers.len(),
            kept@ == handlers_without(handlers@.subrange(0, i as int), id),
        decreases handlers.len() - i,
    {
        proof {
            assert(handlers@.subrange(0, i + 1).drop_last() =~= handlers@.subrange(0, i as int));
        }
        if handlers[i].id != id {
            kept.push(handlers[i]);
        }
        i = i + 1;
    }
    assert(handlers@.subrange(0, handlers.len() as int) =~= handlers@);
    *handlers = kept;
    handlers.len() > 0
}

/// `IndexMap::retain`, dropping the handlers of `id` from each entry and
/// the entries left empty. Claims: the entries so filtered, in order (the
/// crate visits the entries in order and keeps the order of those kept).
#[verifier::external_body]
fn registry_drop_handlers(m: &mut IndexMap<String, Vec<TextHandler>>, id: HandleId)
    ensures
        trigger_entries(*final(m)) == entries_without(trigger_entries(*old(m)), id),
{
    m.retain(|_, handlers| keep_others(handlers, id));
}

/// `IndexMap::clear`. Claims: no entry is left.
#[verifier::external_body]
fn registry_clear(m: &mut IndexMap<String, Vec<TextHandler>>)
    ensures
        trigger_entries(*final(m)) == Seq::<(Seq<char>, Seq<TextHandler>)>::empty(),
{
    m.clear();
}

/// `IndexMap::keys`, collected. Claims: the triggers, in order.
#[verifier::external_body]
fn registry_keys(m: &IndexMap<String, Vec<TextHandler>>) -> (r: Vec<String>)
    ensures
        texts_of(r@) == triggers_of(trigger_entries(*m)),
{
    m.keys().cloned().collect()
}

/// `IndexMap::get_index`, copied. Claims: the entry at position `i`.
#[verifier::external_body]
fn registry_entry(m: &IndexMap<String, Vec<TextHandler>>, i: usize) -> (r: (String, Vec<TextHandler>))
    requires
        i < trigger_entries(*m).len(),
    ensures
        r.0@ == trigger_entries(*m)[i as int].0,
        r.1@ == trigger_entries(*m)[i as int].1,
{
    let (key, handlers) = m.get_index(i).unwrap();
    (key.clone(), handlers.clone())
}

/// The longest triggers come first.
pub open spec fn longest_first(e: Seq<(Seq<char>, Seq<TextHandler>)>) -> bool {
    forall|i: int, j: int|
        0 <= i < j < e.len() ==> cluster_count(#[trigger] e[i].0) >= cluster_count(#[trigger] e[j].0)
}

/// A well-formed registry: no two entries share a trigger, each entry has
/// a handler, and the longest triggers come first.
pub open spec fn registry_ok(e: Seq<(Seq<char>, Seq<TextHandler>)>) -> bool {
    &&& triggers_of(e).no_duplicates()
    &&& forall|i: int| 0 <= i < e.len() ==> (#[trigger] e[i]).1.len() > 0
    &&& longest_first(e)
}

/// The text triggers: for each trigger, its handlers in the order they were
/// added; the longest triggers first, so that the first trigger the typed
/// text ends with is the longest one; and the number of grapheme clusters
/// the typed-text buffer keeps, that of the longest trigger.
#[derive(Debug)]
pub struct TextReplacements {
    registry: IndexMap<String, Vec<TextHandler>>,
    max_graphemes: usize,
}

impl TextReplacements {
    #[verifier::type_invariant]
    spec fn inv(&self) -> bool {
        &&& registry_ok(trigger_entries(self.registry))
        &&& self.max_graphemes == max_cluster_count(
            triggers_of(trigger_entries(self.registry)),
            trigger_entries(self.registry).len() as int,
        )
    }

    /// The triggers and their handlers, in the registry's order.
    pub closed spec fn entries(&self) -> Seq<(Seq<char>, Seq<TextHandler>)> {
        trigger_entries(self.registry)
    }

    /// The number of grapheme clusters the typed-text buffer keeps.
    pub closed spec fn buffer_size(&self) -> nat {
        self.max_graphemes as nat
    }

    /// No trigger.
    pub fn new() -> (r: Self)
        ensures
            r.entries() == Seq::<(Seq<char>, Seq<TextHandler>)>::empty(),
            r.buffer_size() == 0,
    {
        let registry = registry_new();
        proof {
            assert(triggers_of(trigger_entries(registry)) =~= Seq::<Seq<char>>::empty());
        }
        TextReplacements { registry, max_graphemes: 0 }
    }

    /// The number of grapheme clusters of the longest trigger, or 0: the
    /// size the typed-text buffer needs.
    pub fn max_graphemes(&self) -> (n: usize)
        ensures
            n == self.buffer_size(),
            n == max_cluster_count(triggers_of(self.entries()), self.entries().len() as int),
    {
        proof {
            use_type_invariant(self);
        }
        self.max_graphemes
    }

    /// Recomputes the size of the typed-text buffer from the triggers.
    fn updated_max(registry: &IndexMap<String, Vec<TextHandler>>) -> (n: usize)
        ensures
            n == max_cluster_count(
                triggers_of(trigger_entries(*registry)),
                trigger_entries(*registry).len() as int,
            ),
    {
        let keys = registry_keys(registry);
        proof {
            assert(texts_of(keys@).len() == keys@.len());
            assert(triggers_of(trigger_entries(*registry)).len() == trigger_entries(*registry).len());
        }
        max_grapheme_count(&keys)
    }

    /// Adds a handler for `trigger`; says whether there was no trigger
    /// before. The handler joins those of the same trigger; a new trigger
    /// takes its place after the triggers at least as long.
    pub fn add(&mut self, id: HandleId, trigger: &str, options: OnTextOptions) -> (was_empty: bool)
        ensures
            was_empty == (old(self).entries().len() == 0),
            final(self).entries() == entries_added(old(self).entries(), trigger@, (TextHandler { id, options })),
            handlers_of(final(self).entries(), trigger@) == handlers_of(old(self).entries(), trigger@).push(
                TextHandler { id, options },
            ),
            forall|other: Seq<char>|
                other != trigger@ ==> #[trigger] handlers_of(final(self).entries(), other) == handlers_of(
                    old(self).entries(),
                    other,
                ),
            registry_ok(final(self).entries()),
            final(self).buffer_size() == max_cluster_count(
                triggers_of(final(self).entries()),
                final(self).entries().len() as int,
            ),
    {
        proof {
            use_type_invariant(&*self);
        }
        let handler = TextHandler { id, options };
        proof {
            let e = self.entries();
            assert(trigger@.push('x').len() != trigger@.len());
            law_add_appends_handler(e, trigger@, handler, trigger@.push('x'));
            assert forall|other: Seq<char>| other != trigger@ implies #[trigger] handlers_of(
                entries_added(e, trigger@, handler),
                other,
            ) == handlers_of(e, other) by {
                law_add_appends_handler(e, trigger@, handler, other);
            }
        }
        let mut this = TextReplacements::new();
        std::mem::swap(self, &mut this);
        let TextReplacements { registry: mut registry, .. } = this;
        let ghost before = trigger_entries(registry);
        let was_empty = registry_len(&registry) == 0;
        let is_new_trigger = !registry_contains(&registry, trigger);
        registry_push(&mut registry, String::from_str(trigger), handler);
        if is_new_trigger {
            let ghost pushed = trigger_entries(registry);
            registry_sort(&mut registry);
            proof {
                lemma_key_index_absent(before, trigger@);
                assert(pushed.drop_last() =~= before);
                lemma_sorted_when_longest_first(before);
                lemma_insert_keeps_registry(before, (trigger@, seq![handler]));
            }
        } else {
            proof {
                lemma_add_to_entry(before, trigger@, handler);
            }
        }
        let max = Self::updated_max(&registry);
        *self = TextReplacements { registry, max_graphemes: max };
        was_empty
    }

    /// Drops the handlers of `id`, and the triggers left with none; says
    /// whether this emptied the registry.
    pub fn remove(&mut self, id: HandleId) -> (emptied: bool)
        ensures
            final(self).entries() == entries_without(old(self).entries(), id),
            emptied == (old(self).entries().len() > 0 && final(self).entries().len() == 0),
            registry_ok(final(self).entries()),
            final(self).buffer_size() == max_cluster_count(
                triggers_of(final(self).entries()),
                final(self).entries().len() as int,
            ),
    {
        proof {
            use_type_invariant(&*self);
        }
        let mut this = TextReplacements::new();
        std::mem::swap(self, &mut this);
        let TextReplacements { registry: mut registry, .. } = this;
        let ghost before = trigger_entries(registry);
        let was_empty = registry_len(&registry) == 0;
        registry_drop_handlers(&mut registry, id);
        proof {
            lemma_without_keeps_registry(before, id);
        }
        let max = Self::updated_max(&registry);
        let now_empty = registry_len(&registry) == 0;
        *self = TextReplacements { registry, max_graphemes: max };
        !was_empty && now_empty
    }

    /// Drops every trigger; says whether there was any.
    pub fn clear(&mut self) -> (had_some: bool)
        ensures
            final(self).entries() == Seq::<(Seq<char>, Seq<TextHandler>)>::empty(),
            had_some == (old(self).entries().len() > 0),
            final(self).buffer_size() == 0,
    {
        let mut this = TextReplacements::new();
        std::mem::swap(self, &mut this);
        let TextReplacements { registry: mut registry, .. } = this;
        let had_some = registry_len(&registry) > 0;
        registry_clear(&mut registry);
        proof {
            assert(triggers_of(trigger_entries(registry)) =~= Seq::<Seq<char>>::empty());
        }
        *self = TextReplacements { registry, max_graphemes: 0 };
        had_some
    }

    /// The first trigger that the typed text ends with, and its handlers:
    /// with the longest triggers first, the longest trigger typed.
    pub fn matching(&self, typed: &str) -> (r: Option<(String, Vec<TextHandler>)>)
        ensures
            match r {
                Some((t, hs)) => exists|i: int|
                    0 <= i < self.entries().len() && self.entries()[i].0 == t@ && self.entries()[i].1
                        == hs@ && t@.is_suffix_of(typed@) && forall|k: int|
                        0 <= k < i ==> !(#[trigger] self.entries()[k]).0.is_suffix_of(typed@),
                None => forall|k: int|
                    0 <= k < self.entries().len() ==> !(#[trigger] self.entries()[k]).0.is_suffix_of(
                        typed@,
                    ),
            },
    {
        let keys = registry_keys(&self.registry);
        let ghost e = trigger_entries(self.registry);
        proof {
            assert(texts_of(keys@).len() == keys@.len());
            assert(triggers_of(e).len() == e.len());
            assert forall|k: int| 0 <= k < keys@.len() implies (#[trigger] keys@[k])@ == e[k].0 by {
                assert(texts_of(keys@)[k] == triggers_of(e)[k]);
            }
        }
        match find_trigger(typed, &keys) {
            Some(i) => {
                let entry = registry_entry(&self.registry, i);
                assert(keys@[i as int]@ == e[i as int].0);
                proof {
                    assert forall|k: int| 0 <= k < i implies !(#[trigger] e[k]).0.is_suffix_of(
                        typed@,
                    ) by {
                        assert(keys@[k]@ == e[k].0);
                    }
                    assert(self.entries() == e);
                    assert(e[i as int].0 == entry.0@ && e[i as int].1 == entry.1@);
                    assert(entry.0@.is_suffix_of(typed@));
                }
                Some(entry)
            },
            None => {
                proof {
                    assert forall|k: int| 0 <= k < e.len() implies !(#[trigger] e[k]).0.is_suffix_of(
                        typed@,
                    ) by {
                        assert(keys@[k]@ == e[k].0);
                    }
                    assert(self.entries() == e);
                }
                None
            },
        }
    }
}

/// A trigger absent from the entries has no position among them.
proof fn lemma_key_index_absent(e: Seq<(Seq<char>, Seq<TextHandler>)>, key: Seq<char>)
    ensures
        key_index(e, key) < 0 <==> forall|i: int| 0 <= i < e.len() ==> (#[trigger] e[i]).0 != key,
        key_index(e, key) >= 0 ==> key_index(e, key) < e.len() && e[key_index(e, key)].0 == key,
    decreases e.len(),
{
    if e.len() > 0 {
        lemma_key_index_absent(e.drop_last(), key);
        assert forall|i: int| 0 <= i < e.len() - 1 implies e.drop_last()[i] == e[i] by {}
    }
}

/// A sequence that already has the longest triggers first is its own
/// stable sort.
proof fn lemma_sorted_when_longest_first(e: Seq<(Seq<char>, Seq<TextHandler>)>)
    requires
        longest_first(e),
    ensures
        sorted_longest_first(e) == e,
    decreases e.len(),
{
    if e.len() > 0 {
        let d = e.drop_last();
        assert(longest_first(d)) by {
            assert forall|i: int, j: int| 0 <= i < j < d.len() implies cluster_count(
                #[trigger] d[i].0,
            ) >= cluster_count(#[trigger] d[j].0) by {
                assert(d[i] == e[i] && d[j] == e[j]);
            }
        }
        lemma_sorted_when_longest_first(d);
        if d.len() > 0 {
            assert(d.last() == e[e.len() - 2]);
            assert(cluster_count(e[e.len() - 2].0) >= cluster_count(e[e.len() - 1].0));
        }
        assert(d.push(e.last()) =~= e);
    }
}

/// The triggers of entries with one more at the end.
proof fn lemma_triggers_push(d: Seq<(Seq<char>, Seq<TextHandler>)>, x: (Seq<char>, Seq<TextHandler>))
    ensures
        triggers_of(d.push(x)) == triggers_of(d).push(x.0),
{
    assert(triggers_of(d.push(x)) =~= triggers_of(d).push(x.0));
}

/// Placing an entry into entries with the longest triggers first: the
/// result holds the entries and the new one, the longest triggers first;
/// triggers stay distinct when the new trigger is new; each entry keeps a
/// handler when all had one.
proof fn lemma_insert_keeps_registry(d: Seq<(Seq<char>, Seq<TextHandler>)>, x: (Seq<char>, Seq<TextHandler>))
    requires
        registry_ok(d),
        x.1.len() > 0,
        forall|i: int| 0 <= i < d.len() ==> (#[trigger] d[i]).0 != x.0,
    ensures
        registry_ok(insert_longest_first(d, x)),
        insert_longest_first(d, x).len() == d.len() + 1,
        forall|y: (Seq<char>, Seq<TextHandler>)|
            #[trigger] insert_longest_first(d, x).contains(y) <==> (d.contains(y) || y == x),
    decreases d.len(),
{
    broadcast use vstd::seq_lib::group_seq_properties;

    let r = insert_longest_first(d, x);
    if d.len() == 0 {
        assert(triggers_of(r) =~= seq![x.0]);
        assert forall|y: (Seq<char>, Seq<TextHandler>)| r.contains(y) <==> (d.contains(y) || y == x) by {
            if r.contains(y) {
                assert(r[0] == x);
            }
            if y == x {
                assert(r[0] == y);
            }
        }
    } else if cluster_count(d.last().0) >= cluster_count(x.0) {
        lemma_triggers_push(d, x);
        assert forall|i: int, j: int| 0 <= i < j < r.len() implies cluster_count(
            #[trigger] r[i].0,
        ) >= cluster_count(#[trigger] r[j].0) by {
            if j == d.len() {
                assert(r[i] == d[i]);
                if i < d.len() - 1 {
                    assert(cluster_count(d[i].0) >= cluster_count(d[d.len() - 1].0));
                }
            } else {
                assert(r[i] == d[i] && r[j] == d[j]);
            }
        }
        assert(triggers_of(d).no_duplicates());
        assert forall|i: int, j: int| 0 <= i < j < triggers_of(r).len() implies triggers_of(r)[i]
            != triggers_of(r)[j] by {
            if j == d.len() {
                assert(triggers_of(r)[i] == d[i].0);
            } else {
                assert(triggers_of(r)[i] == triggers_of(d)[i]);
                assert(triggers_of(r)[j] == triggers_of(d)[j]);
            }
        }
    } else {
        let dl = d.drop_last();
        let last = d.last();
        assert(registry_ok(dl)) by {
            assert forall|i: int, j: int| 0 <= i < j < dl.len() implies cluster_count(
                #[trigger] dl[i].0,
            ) >= cluster_count(#[trigger] dl[j].0) by {
                assert(dl[i] == d[i] && dl[j] == d[j]);
            }
            assert(triggers_of(dl) =~= triggers_of(d).drop_last());
            assert forall|i: int| 0 <= i < dl.len() implies (#[trigger] dl[i]).1.len() > 0 by {
                assert(dl[i] == d[i]);
            }
        }
        assert forall|i: int| 0 <= i < dl.len() implies (#[trigger] dl[i]).0 != x.0 by {
            assert(dl[i] == d[i]);
        }
        lemma_insert_keeps_registry(dl, x);
        let q = insert_longest_first(dl, x);
        assert(r == q.push(last));
        lemma_triggers_push(q, last);
        assert forall|y: (Seq<char>, Seq<TextHandler>)| q.contains(y) implies cluster_count(y.0)
            >= cluster_count(last.0) by {
            if dl.contains(y) {
                let k = choose|k: int| 0 <= k < dl.len() && dl[k] == y;
                assert(d[k] == y);
                assert(cluster_count(d[k].0) >= cluster_count(d[d.len() - 1].0));
            }
        }
        assert forall|i: int, j: int| 0 <= i < j < r.len() implies cluster_count(
            #[trigger] r[i].0,
        ) >= cluster_count(#[trigger] r[j].0) by {
            assert(r[i] == q[i]);
            assert(q.contains(q[i]));
            if j < q.len() {
                assert(r[j] == q[j]);
            }
        }
        assert forall|y: (Seq<char>, Seq<TextHandler>)| r.contains(y) <==> (d.contains(y) || y == x) by {
            assert(d =~= dl.push(last));
            if r.contains(y) {
                let k = choose|k: int| 0 <= k < r.len() && r[k] == y;
                if k < q.len() {
                    assert(q.contains(q[k]));
                }
            }
            if d.contains(y) {
                let k = choose|k: int| 0 <= k < d.len() && d[k] == y;
                if k < dl.len() {
                    assert(dl[k] == y);
                    assert(dl.contains(y));
                    assert(q.contains(y));
                    let m = choose|m: int| 0 <= m < q.len() && q[m] == y;
                    assert(r[m] == y);
                } else {
                    assert(r[q.len() as int] == y);
                }
            }
            if y == x {
                assert(q.contains(x));
                let m = choose|m: int| 0 <= m < q.len() && q[m] == x;
                assert(r[m] == x);
            }
        }
        assert(triggers_of(d).no_duplicates());
        assert forall|i: int, j: int| 0 <= i < j < triggers_of(r).len() implies triggers_of(r)[i]
            != triggers_of(r)[j] by {
            if j == q.len() {
                assert(triggers_of(r)[j] == last.0);
                assert(triggers_of(r)[i] == q[i].0);
                assert(q.contains(q[i]));
                if q[i] == x {
                    assert(d[d.len() - 1].0 != x.0);
                } else {
                    assert(dl.contains(q[i]));
                    let k = choose|k: int| 0 <= k < dl.len() && dl[k] == q[i];
                    assert(triggers_of(d)[k] == dl[k].0);
                    assert(triggers_of(d)[d.len() - 1] == last.0);
                }
            } else {
                assert(triggers_of(r)[i] == triggers_of(q)[i]);
                assert(triggers_of(r)[j] == triggers_of(q)[j]);
            }
        }
        assert forall|i: int| 0 <= i < r.len() implies (#[trigger] r[i]).1.len() > 0 by {
            if i < q.len() {
                assert(r[i] == q[i]);
            } else {
                assert(r[i] == last);
                assert(d[d.len() - 1] == last);
            }
        }
    }
}

/// Adding a handler keeps a registry well formed: triggers once each, each
/// with a handler, the longest first.
pub proof fn law_add_keeps_registry_ok(e: Seq<(Seq<char>, Seq<TextHandler>)>, key: Seq<char>, h: TextHandler)
    requires
        registry_ok(e),
    ensures
        registry_ok(entries_added(e, key, h)),
{
    if key_index(e, key) >= 0 {
        lemma_add_to_entry(e, key, h);
    } else {
        lemma_key_index_absent(e, key);
        let x = (key, seq![h]);
        assert(e.push(x).drop_last() =~= e);
        lemma_sorted_when_longest_first(e);
        lemma_insert_keeps_registry(e, x);
    }
}

/// The handlers registered under `key`, none when it is not a trigger.
pub open spec fn handlers_of(e: Seq<(Seq<char>, Seq<TextHandler>)>, key: Seq<char>) -> Seq<TextHandler> {
    let i = key_index(e, key);
    if i >= 0 {
        e[i].1
    } else {
        Seq::empty()
    }
}

/// In entries with distinct triggers, the handlers under an entry's trigger
/// are that entry's.
proof fn lemma_handlers_of_entry(e: Seq<(Seq<char>, Seq<TextHandler>)>, j: int)
    requires
        triggers_of(e).no_duplicates(),
        0 <= j < e.len(),
    ensures
        handlers_of(e, e[j].0) == e[j].1,
{
    lemma_key_index_absent(e, e[j].0);
    let i = key_index(e, e[j].0);
    assert(i >= 0);
    if i != j {
        assert(triggers_of(e)[i] == triggers_of(e)[j]);
    }
}

/// Adding a handler under `key` appends it to the handlers of `key` (which
/// had none when `key` was not a trigger) and leaves the handlers of every
/// other trigger as they were.
pub proof fn law_add_appends_handler(
    e: Seq<(Seq<char>, Seq<TextHandler>)>,
    key: Seq<char>,
    h: TextHandler,
    other: Seq<char>,
)
    requires
        registry_ok(e),
        other != key,
    ensures
        handlers_of(entries_added(e, key, h), key) == handlers_of(e, key).push(h),
        handlers_of(entries_added(e, key, h), other) == handlers_of(e, other),
{
    let r = entries_added(e, key, h);
    law_add_keeps_registry_ok(e, key, h);
    lemma_key_index_absent(e, key);
    lemma_key_index_absent(e, other);
    lemma_key_index_absent(r, key);
    lemma_key_index_absent(r, other);
    if key_index(e, key) >= 0 {
        let i = key_index(e, key);
        lemma_add_to_entry(e, key, h);
        assert(r[i].0 == key);
        lemma_handlers_of_entry(r, i);
        if key_index(e, other) >= 0 {
            let j = key_index(e, other);
            assert(r[j] == e[j]);
            lemma_handlers_of_entry(r, j);
            lemma_handlers_of_entry(e, j);
        } else {
            assert forall|k: int| 0 <= k < r.len() implies (#[trigger] r[k]).0 != other by {
                if k != i {
                    assert(r[k] == e[k]);
                }
            }
        }
    } else {
        let x = (key, seq![h]);
        assert(e.push(x).drop_last() =~= e);
        lemma_sorted_when_longest_first(e);
        lemma_insert_keeps_registry(e, x);
        assert(r == insert_longest_first(e, x));
        assert(r.contains(x));
        let i = choose|i: int| 0 <= i < r.len() && r[i] == x;
        lemma_handlers_of_entry(r, i);
        assert(seq![h] =~= Seq::<TextHandler>::empty().push(h));
        if key_index(e, other) >= 0 {
            let j = key_index(e, other);
            assert(e.contains(e[j]));
            assert(r.contains(e[j]));
            let k = choose|k: int| 0 <= k < r.len() && r[k] == e[j];
            lemma_handlers_of_entry(r, k);
            lemma_handlers_of_entry(e, j);
        } else {
            assert forall|k: int| 0 <= k < r.len() implies (#[trigger] r[k]).0 != other by {
                assert(r.contains(r[k]));
                if r[k] != x {
                    assert(e.contains(r[k]));
                    let m = choose|m: int| 0 <= m < e.len() && e[m] == r[k];
                    assert(e[m].0 != other);
                }
            }
        }
    }
}

/// Dropping the handlers of an identifier keeps a registry well formed.
pub proof fn law_remove_keeps_registry_ok(e: Seq<(Seq<char>, Seq<TextHandler>)>, id: HandleId)
    requires
        registry_ok(e),
    ensures
        registry_ok(entries_without(e, id)),
{
    lemma_without_keeps_registry(e, id);
}

/// Adding a handler under a trigger that has an entry keeps the registry
/// well formed.
proof fn lemma_add_to_entry(e: Seq<(Seq<char>, Seq<TextHandler>)>, key: Seq<char>, h: TextHandler)
    requires
        registry_ok(e),
        key_index(e, key) >= 0,
    ensures
        registry_ok(entries_with(e, key, h)),
        triggers_of(entries_with(e, key, h)) == triggers_of(e),
{
    lemma_key_index_absent(e, key);
    let i = key_index(e, key);
    let r = entries_with(e, key, h);
    assert(triggers_of(r) =~= triggers_of(e)) by {
        assert forall|k: int| 0 <= k < e.len() implies triggers_of(r)[k] == triggers_of(e)[k] by {
            if k == i {
                assert(r[k].0 == e[i].0);
            } else {
                assert(r[k] == e[k]);
            }
        }
    }
    assert forall|a: int, b: int| 0 <= a < b < r.len() implies cluster_count(#[trigger] r[a].0)
        >= cluster_count(#[trigger] r[b].0) by {
        assert(r[a].0 == triggers_of(r)[a] && r[b].0 == triggers_of(r)[b]);
        assert(e[a].0 == triggers_of(e)[a] && e[b].0 == triggers_of(e)[b]);
    }
    assert forall|k: int| 0 <= k < r.len() implies (#[trigger] r[k]).1.len() > 0 by {
        if k != i {
            assert(r[k] == e[k]);
        }
    }
}

/// Dropping the handlers of an identifier keeps the registry well formed.
proof fn lemma_without_keeps_registry(e: Seq<(Seq<char>, Seq<TextHandler>)>, id: HandleId)
    requires
        registry_ok(e),
    ensures
        registry_ok(entries_without(e, id)),
        forall|y: (Seq<char>, Seq<TextHandler>)|
            #[trigger] entries_without(e, id).contains(y) ==> exists|k: int|
                0 <= k < e.len() && e[k].0 == y.0,
    decreases e.len(),
{
    broadcast use vstd::seq_lib::group_seq_properties;

    if e.len() > 0 {
        let d = e.drop_last();
        assert(registry_ok(d)) by {
            assert forall|i: int, j: int| 0 <= i < j < d.len() implies cluster_count(
                #[trigger] d[i].0,
            ) >= cluster_count(#[trigger] d[j].0) by {
                assert(d[i] == e[i] && d[j] == e[j]);
            }
            assert(triggers_of(d) =~= triggers_of(e).drop_last());
            assert forall|i: int| 0 <= i < d.len() implies (#[trigger] d[i]).1.len() > 0 by {
                assert(d[i] == e[i]);
            }
        }
        lemma_without_keeps_registry(d, id);
        let rest = entries_without(d, id);
        let hs = handlers_without(e.last().1, id);
        if hs.len() > 0 {
            let x = (e.last().0, hs);
            let r = rest.push(x);
            lemma_triggers_push(rest, x);
            assert forall|y: (Seq<char>, Seq<TextHandler>)| rest.contains(y) implies cluster_count(
                y.0,
            ) >= cluster_count(x.0) && y.0 != x.0 by {
                let k = choose|k: int| 0 <= k < d.len() && d[k].0 == y.0;
                assert(e[k] == d[k]);
                assert(cluster_count(e[k].0) >= cluster_count(e[e.len() - 1].0));
                assert(triggers_of(e)[k] == e[k].0);
                assert(triggers_of(e)[e.len() - 1] == e[e.len() - 1].0);
            }
            assert forall|i: int, j: int| 0 <= i < j < r.len() implies cluster_count(
                #[trigger] r[i].0,
            ) >= cluster_count(#[trigger] r[j].0) by {
                assert(r[i] == rest[i]);
                assert(rest.contains(rest[i]));
                if j < rest.len() {
                    assert(r[j] == rest[j]);
                }
            }
            assert forall|i: int, j: int| 0 <= i < j < triggers_of(r).len() implies triggers_of(r)[i]
                != triggers_of(r)[j] by {
                assert(triggers_of(r)[i] == rest[i].0);
                assert(rest.contains(rest[i]));
                if j < rest.len() {
                    assert(triggers_of(r)[j] == rest[j].0);
                    assert(triggers_of(rest)[i] == rest[i].0 && triggers_of(rest)[j] == rest[j].0);
                }
            }
            assert forall|i: int| 0 <= i < r.len() implies (#[trigger] r[i]).1.len() > 0 by {
                if i < rest.len() {
                    assert(r[i] == rest[i]);
                }
            }
            assert forall|y: (Seq<char>, Seq<TextHandler>)| #[trigger] r.contains(y) implies exists|
                k: int,
            | 0 <= k < e.len() && e[k].0 == y.0 by {
                let m = choose|m: int| 0 <= m < r.len() && r[m] == y;
                if m < rest.len() {
                    assert(rest.contains(rest[m]));
                    let k = choose|k: int| 0 <= k < d.len() && d[k].0 == rest[m].0;
                    assert(e[k] == d[k]);
                } else {
                    assert(e[e.len() - 1].0 == y.0);
                }
            }
        } else {
            assert forall|y: (Seq<char>, Seq<TextHandler>)| #[trigger] rest.contains(y) implies exists|
                k: int,
            | 0 <= k < e.len() && e[k].0 == y.0 by {
                let k = choose|k: int| 0 <= k < d.len() && d[k].0 == y.0;
                assert(e[k] == d[k]);
            }
        }
    }
}

/// With the longest triggers first, the first trigger that the typed text
/// ends with is a longest one among all the triggers it ends with.
pub proof fn law_first_match_is_longest(
    e: Seq<(Seq<char>, Seq<TextHandler>)>,
    typed: Seq<char>,
    i: int,
    k: int,
)
    requires
        registry_ok(e),
        0 <= i < e.len(),
        0 <= k < e.len(),
        e[i].0.is_suffix_of(typed),
        forall|j: int| 0 <= j < i ==> !(#[trigger] e[j]).0.is_suffix_of(typed),
        e[k].0.is_suffix_of(typed),
    ensures
        cluster_count(e[i].0) >= cluster_count(e[k].0),
{
    if k < i {
        assert(!e[k].0.is_suffix_of(typed));
    }
}

/// Whether no handler of the entries has identifier `id`.
pub open spec fn id_unused(e: Seq<(Seq<char>, Seq<TextHandler>)>, id: HandleId) -> bool {
    forall|i: int, j: int| 0 <= i < e.len() && 0 <= j < e[i].1.len() ==> (#[trigger] e[i].1[j]).id != id
}

/// Without any handler of `id` among them, the handlers stay as they are.
proof fn lemma_handlers_without_unused(hs: Seq<TextHandler>, id: HandleId)
    requires
        forall|j: int| 0 <= j < hs.len() ==> (#[trigger] hs[j]).id != id,
    ensures
        handlers_without(hs, id) == hs,
    decreases hs.len(),
{
    if hs.len() > 0 {
        lemma_handlers_without_unused(hs.drop_last(), id);
        assert(hs.drop_last().push(hs.last()) =~= hs);
    }
}

/// Dropping the handlers of `id` from entries gives `g` when, entry by
/// entry, it leaves the handlers of `g`, none of them empty.
proof fn lemma_entries_without_each(
    f: Seq<(Seq<char>, Seq<TextHandler>)>,
    g: Seq<(Seq<char>, Seq<TextHandler>)>,
    id: HandleId,
)
    requires
        f.len() == g.len(),
        forall|j: int|
            0 <= j < f.len() ==> (#[trigger] f[j]).0 == g[j].0 && handlers_without(f[j].1, id)
                == g[j].1 && g[j].1.len() > 0,
    ensures
        entries_without(f, id) == g,
    decreases f.len(),
{
    if f.len() > 0 {
        let fd = f.drop_last();
        let gd = g.drop_last();
        assert forall|j: int| 0 <= j < fd.len() implies (#[trigger] fd[j]).0 == gd[j].0
            && handlers_without(fd[j].1, id) == gd[j].1 && gd[j].1.len() > 0 by {
            assert(fd[j] == f[j] && gd[j] == g[j]);
        }
        lemma_entries_without_each(fd, gd, id);
        assert(gd.push(g.last()) =~= g);
        assert(f.last() == f[f.len() - 1]);
    }
}

/// An entry whose handlers all go does not change what dropping the
/// handlers of `id` leaves, wherever a stable sort placed it.
proof fn lemma_without_inserted(
    d: Seq<(Seq<char>, Seq<TextHandler>)>,
    x: (Seq<char>, Seq<TextHandler>),
    id: HandleId,
)
    requires
        handlers_without(x.1, id).len() == 0,
    ensures
        entries_without(insert_longest_first(d, x), id) == entries_without(d, id),
    decreases d.len(),
{
    let empty = Seq::<(Seq<char>, Seq<TextHandler>)>::empty();
    assert(entries_without(empty, id) == empty);
    if d.len() == 0 {
        assert(seq![x].drop_last() =~= empty);
        assert(seq![x].last() == x);
        assert(insert_longest_first(d, x) == seq![x]);
    } else if cluster_count(d.last().0) >= cluster_count(x.0) {
        assert(d.push(x).drop_last() =~= d);
        assert(d.push(x).last() == x);
    } else {
        let dl = d.drop_last();
        lemma_without_inserted(dl, x, id);
        let q = insert_longest_first(dl, x);
        assert(q.push(d.last()).drop_last() =~= q);
        assert(q.push(d.last()).last() == d.last());
        assert(insert_longest_first(d, x) == q.push(d.last()));
    }
}

/// Removing a handler just added, under an identifier no other handler
/// has, gives back the triggers and handlers as they were.
pub proof fn law_remove_undoes_add(
    e: Seq<(Seq<char>, Seq<TextHandler>)>,
    key: Seq<char>,
    h: TextHandler,
)
    requires
        registry_ok(e),
        id_unused(e, h.id),
    ensures
        entries_without(
            if key_index(e, key) >= 0 {
                entries_with(e, key, h)
            } else {
                sorted_longest_first(entries_with(e, key, h))
            },
            h.id,
        ) == e,
{
    let id = h.id;
    lemma_key_index_absent(e, key);
    if key_index(e, key) >= 0 {
        let i = key_index(e, key);
        let f = entries_with(e, key, h);
        assert forall|j: int| 0 <= j < f.len() implies (#[trigger] f[j]).0 == e[j].0 && handlers_without(
            f[j].1,
            id,
        ) == e[j].1 && e[j].1.len() > 0 by {
            assert forall|m: int| 0 <= m < e[j].1.len() implies (#[trigger] e[j].1[m]).id != id by {
                assert(e[j].1[m].id != id);
            }
            lemma_handlers_without_unused(e[j].1, id);
            if j == i {
                assert(f[j].1 == e[i].1.push(h));
                assert(f[j].1.drop_last() =~= e[i].1);
            }
        }
        lemma_entries_without_each(f, e, id);
    } else {
        let x = (key, seq![h]);
        assert(entries_with(e, key, h).drop_last() =~= e);
        lemma_sorted_when_longest_first(e);
        assert(seq![h].drop_last() =~= Seq::<TextHandler>::empty());
        assert(seq![h].last() == h);
        assert(handlers_without(Seq::<TextHandler>::empty(), id) == Seq::<TextHandler>::empty());
        assert(handlers_without(seq![h], id).len() == 0);
        lemma_without_inserted(e, x, id);
        assert forall|j: int| 0 <= j < e.len() implies (#[trigger] e[j]).0 == e[j].0 && handlers_without(
            e[j].1,
            id,
        ) == e[j].1 && e[j].1.len() > 0 by {
            assert forall|m: int| 0 <= m < e[j].1.len() implies (#[trigger] e[j].1[m]).id != id by {
                assert(e[j].1[m].id != id);
            }
            lemma_handlers_without_unused(e[j].1, id);
        }
        lemma_entries_without_each(e, e, id);
    }
}

/// What a key does to the typed text: Backspace takes its last grapheme
/// cluster away; Escape and the arrow keys empty it; other keys, released
/// keys and keys a program sent leave it.
pub open spec fn text_after_key(text: Seq<char>, event: KeyEvent) -> Seq<char> {
    if event.is_injected || event.is_release {
        text
    } else {
        match event.key {
            JsKey::Standard(JsStandardKey::Backspace) => without_last_grapheme(text),
            JsKey::Standard(JsStandardKey::Escape) => Seq::empty(),
            JsKey::Standard(JsStandardKey::LeftArrow) => Seq::empty(),
            JsKey::Standard(JsStandardKey::RightArrow) => Seq::empty(),
            JsKey::Standard(JsStandardKey::UpArrow) => Seq::empty(),
            JsKey::Standard(JsStandardKey::DownArrow) => Seq::empty(),
            _ => text,
        }
    }
}

/// Updates the typed text for a key event.
pub fn on_key(buffer: &mut StringRingBuffer, event: KeyEvent)
    ensures
        final(buffer).text() == text_after_key(old(buffer).text(), event),
        final(buffer).limit() == old(buffer).limit(),
{
    if event.is_injected || event.is_release {
        return;
    }
    match event.key {
        JsKey::Standard(JsStandardKey::Backspace) => buffer.pop(),
        JsKey::Standard(JsStandardKey::Escape) => buffer.clear(),
        JsKey::Standard(JsStandardKey::LeftArrow) => buffer.clear(),
        JsKey::Standard(JsStandardKey::RightArrow) => buffer.clear(),
        JsKey::Standard(JsStandardKey::UpArrow) => buffer.clear(),
        JsKey::Standard(JsStandardKey::DownArrow) => buffer.clear(),
        _ => {},
    }
}

impl TextReplacements {
    /// Takes a typed character: a character a program sent is ignored;
    /// with no trigger the typed text is emptied; else the character is
    /// added to the typed text, kept to the length of the longest trigger,
    /// and the longest trigger it now ends with is returned with its
    /// handlers, the typed text then emptied for the replacement.
    pub fn on_text(&self, buffer: &mut StringRingBuffer, ch: char, is_injected: bool) -> (r: Option<
        (String, Vec<TextHandler>),
    >)
        ensures
            is_injected ==> r is None && final(buffer).text() == old(buffer).text()
                && final(buffer).limit() == old(buffer).limit(),
            !is_injected && self.buffer_size() == 0 ==> r is None && final(buffer).text()
                == Seq::<char>::empty() && final(buffer).limit() == old(buffer).limit(),
            !is_injected && self.buffer_size() > 0 ==> {
                let typed = kept_text(old(buffer).text().push(ch), self.buffer_size());
                &&& final(buffer).limit() == self.buffer_size()
                &&& match r {
                    Some((t, hs)) => {
                        &&& final(buffer).text() == Seq::<char>::empty()
                        &&& exists|i: int|
                            0 <= i < self.entries().len() && self.entries()[i].0 == t@
                                && self.entries()[i].1 == hs@ && t@.is_suffix_of(typed)
                                && forall|k: int|
                                0 <= k < i ==> !(#[trigger] self.entries()[k]).0.is_suffix_of(typed)
                    },
                    None => {
                        &&& final(buffer).text() == typed
                        &&& forall|k: int|
                            0 <= k < self.entries().len() ==> !(#[trigger] self.entries()[k]).0.is_suffix_of(
                                typed,
                            )
                    },
                }
            },
    {
        if is_injected {
            return None;
        }
        let max = self.max_graphemes();
        if max == 0 {
            buffer.clear();
            return None;
        }
        buffer.add_char_and_set_max_graphemes(ch, max);
        let found = self.matching(buffer.value());
        if found.is_some() {
            buffer.clear();
        }
        found
    }
}

} // verus!
