//! Key-combination triggers: the registry of handlers by key set, and the
//! press state that decides which handlers fire on each key event.

use vstd::prelude::*;

use crate::keys::{normalize, normalized, JsKey};

verus! {

/// The identifier of a registered event handler.
#[derive(Clone, Copy, Debug, PartialEq, Eq, Structural, Hash)]
pub struct HandleId {
    value: u64,
}

impl HandleId {
    /// The number identifying the handler.
    pub closed spec fn raw_spec(&self) -> u64 {
        self.value
    }

    /// The identifier numbered `value`.
    pub fn from_raw(value: u64) -> (id: Self)
        ensures
            id.raw_spec() == value,
    {
        HandleId { value }
    }

    /// The number identifying the handler.
    pub fn raw(&self) -> (v: u64)
        ensures
            v == self.raw_spec(),
    {
        self.value
    }
}

/// A handle to a registered event listener, by its identifier; cancelling
/// it removes that identifier's handlers from the registry that issued it.
#[derive(Clone, Copy, Debug)]
pub struct JsEventHandle {
    id: HandleId,
}

impl JsEventHandle {
    /// The identifier of the listener.
    pub closed spec fn handle_id(&self) -> HandleId {
        self.id
    }

    /// The handle of the listener `id`.
    pub fn new(id: HandleId) -> (r: Self)
        ensures
            r.handle_id() == id,
    {
        JsEventHandle { id }
    }

    /// The identifier of the listener.
    pub fn id(&self) -> (r: HandleId)
        ensures
            r == self.handle_id(),
    {
        self.id
    }

    /// The text shown to scripts: `EventHandle`.
    pub fn to_string_js(&self) -> (s: String)
        ensures
            s@ == "EventHandle"@,
    {
        String::from_str("EventHandle")
    }
}

/// Options of a key trigger.
#[derive(Clone, Copy, Debug, PartialEq, Eq, Structural)]
pub struct OnKeysOptions {
    /// Fire only when exactly these keys, and no others, are pressed.
    pub exclusive: bool,
}

impl Default for OnKeysOptions {
    fn default() -> (r: Self)
        ensures
            !r.exclusive,
    {
        OnKeysOptions { exclusive: false }
    }
}

/// Every key of `keys` is among `pressed`.
pub open spec fn contains_all(keys: Seq<JsKey>, pressed: Seq<JsKey>) -> bool {
    forall|i: int| 0 <= i < keys.len() ==> pressed.contains(#[trigger] keys[i])
}

/// Whether the pressed keys satisfy a trigger: all its keys are pressed and,
/// when exclusive, no other key is.
pub open spec fn keys_match_spec(trigger: Seq<JsKey>, pressed: Seq<JsKey>, exclusive: bool) -> bool {
    contains_all(trigger, pressed) && (exclusive ==> pressed.len() == trigger.len())
}

/// The position of `key` in `keys`, if it is there.
fn position(keys: &Vec<JsKey>, key: JsKey) -> (r: Option<usize>)
    ensures
        match r {
            Some(i) => i < keys.len() && keys@[i as int] == key,
            None => !keys@.contains(key),
        },
{
    let mut i: usize = 0;
    while i < keys.len()
        invariant
            i <= keys.len(),
            forall|k: int| 0 <= k < i ==> keys@[k] != key,
        decreases keys.len() - i,
    {
        if keys[i] == key {
            return Some(i);
        }
        i = i + 1;
    }
    None
}

/// Whether the pressed keys satisfy a trigger.
pub fn keys_match(trigger_keys: &Vec<JsKey>, pressed_keys: &Vec<JsKey>, exclusive: bool) -> (b: bool)
    ensures
        b == keys_match_spec(trigger_keys@, pressed_keys@, exclusive),
{
    if exclusive && pressed_keys.len() != trigger_keys.len() {
        return false;
    }
    let mut i: usize = 0;
    while i < trigger_keys.len()
        invariant
            i <= trigger_keys.len(),
            forall|k: int| 0 <= k < i ==> pressed_keys@.contains(#[trigger] trigger_keys@[k]),
        decreases trigger_keys.len() - i,
    {
        if position(pressed_keys, trigger_keys[i]).is_none() {
            return false;
        }
        i = i + 1;
    }
    true
}

/// The normal forms of `keys`, each once, in the order they first appear.
pub open spec fn canonical_keys(keys: Seq<JsKey>) -> Seq<JsKey>
    decreases keys.len(),
{
    if keys.len() == 0 {
        Seq::empty()
    } else {
        let r = canonical_keys(keys.drop_last());
        let k = normalized(keys.last());
        if r.contains(k) {
            r
        } else {
            r.push(k)
        }
    }
}

/// The canonical keys hold each key once, and exactly the normal forms of
/// the keys.
pub proof fn lemma_canonical_keys(keys: Seq<JsKey>)
    ensures
        canonical_keys(keys).no_duplicates(),
        forall|k: JsKey|
            canonical_keys(keys).contains(k) <==> keys.map_values(|x: JsKey| normalized(x)).contains(
                k,
            ),
    decreases keys.len(),
{
    broadcast use vstd::seq_lib::group_seq_properties;

    if keys.len() > 0 {
        let s0 = keys.drop_last();
        lemma_canonical_keys(s0);
        let r = canonical_keys(s0);
        let k = normalized(keys.last());
        assert(keys.map_values(|x: JsKey| normalized(x)) =~= s0.map_values(|x: JsKey| normalized(x)).push(
            k,
        ));
        if !r.contains(k) {
            assert forall|a: int, b: int|
                0 <= a < b < r.push(k).len() implies r.push(k)[a] != r.push(k)[b] by {
                if b == r.len() {
                    assert(r.contains(r[a]));
                }
            }
        }
    } else {
        assert(keys.map_values(|x: JsKey| normalized(x)) =~= Seq::<JsKey>::empty());
    }
}

/// The normal forms of `keys`, each once, in the order they first appear.
pub fn trigger_keys(keys: &Vec<JsKey>) -> (r: Vec<JsKey>)
    ensures
        r@ == canonical_keys(keys@),
        r@.no_duplicates(),
        forall|k: JsKey| r@.contains(k) <==> keys@.map_values(|x: JsKey| normalized(x)).contains(k),
{
    let mut r: Vec<JsKey> = Vec::new();
    let mut i: usize = 0;
    while i < keys.len()
        invariant
            i <= keys.len(),
            r@ == canonical_keys(keys@.subrange(0, i as int)),
        decreases keys.len() - i,
    {
        let k = normalize(keys[i]);
        proof {
            assert(keys@.subrange(0, i + 1).drop_last() =~= keys@.subrange(0, i as int));
        }
        if position(&r, k).is_none() {
            r.push(k);
        }
        i = i + 1;
    }
    assert(keys@.subrange(0, keys.len() as int) =~= keys@);
    proof {
        lemma_canonical_keys(keys@);
    }
    r
}

/// A handler of a key trigger: its identifier, what to call, and its
/// options.
#[derive(Debug)]
pub struct KeyHandler<C> {
    /// The identifier of the handler.
    pub id: HandleId,
    /// What the handler calls.
    pub callback: C,
    /// The handler's options.
    pub options: OnKeysOptions,
}

/// The identifiers and exclusivity of handlers.
pub open spec fn handler_view<C>(hs: Seq<KeyHandler<C>>) -> Seq<(HandleId, bool)> {
    hs.map_values(|h: KeyHandler<C>| (h.id, h.options.exclusive))
}

/// Two key lists hold the same keys.
pub open spec fn same_keys(a: Seq<JsKey>, b: Seq<JsKey>) -> bool {
    forall|k: JsKey| a.contains(k) <==> b.contains(k)
}

/// The registered key triggers: for each set of keys, its handlers in the
/// order they were added.
#[derive(Debug)]
pub struct KeyTriggerRegistry<C> {
    entries: Vec<(Vec<JsKey>, Vec<KeyHandler<C>>)>,
}

/// Each key set holds each key once, no two entries hold the same keys, and
/// each entry has a handler.
pub open spec fn registry_wf(v: Seq<(Seq<JsKey>, Seq<(HandleId, bool)>)>) -> bool {
    &&& forall|i: int| 0 <= i < v.len() ==> (#[trigger] v[i]).0.no_duplicates() && v[i].1.len() > 0
    &&& forall|i: int, j: int|
        0 <= i < j < v.len() ==> !same_keys(#[trigger] v[i].0, #[trigger] v[j].0)
}

/// The registry with `handler` added under the key set `keys`: appended to
/// the entry with the same keys, or in a new last entry.
pub open spec fn registry_add<H>(
    v: Seq<(Seq<JsKey>, Seq<H>)>,
    keys: Seq<JsKey>,
    handler: H,
) -> Seq<(Seq<JsKey>, Seq<H>)> {
    if exists|i: int| 0 <= i < v.len() && same_keys(#[trigger] v[i].0, keys) {
        let i = choose|i: int| 0 <= i < v.len() && same_keys(#[trigger] v[i].0, keys);
        v.update(i, (v[i].0, v[i].1.push(handler)))
    } else {
        v.push((keys, seq![handler]))
    }
}

/// The handlers of an entry without those of identifier `id`.
pub open spec fn without_id(hs: Seq<(HandleId, bool)>, id: HandleId) -> Seq<(HandleId, bool)>
    decreases hs.len(),
{
    if hs.len() == 0 {
        hs
    } else {
        let r = without_id(hs.drop_last(), id);
        if hs.last().0 != id {
            r.push(hs.last())
        } else {
            r
        }
    }
}

/// The registry without the handlers of identifier `id`, dropping entries
/// left with no handler.
pub open spec fn registry_remove(v: Seq<(Seq<JsKey>, Seq<(HandleId, bool)>)>, id: HandleId) -> Seq<
    (Seq<JsKey>, Seq<(HandleId, bool)>),
>
    decreases v.len(),
{
    if v.len() == 0 {
        v
    } else {
        let rest = registry_remove(v.drop_last(), id);
        let hs = without_id(v.last().1, id);
        if hs.len() == 0 {
            rest
        } else {
            rest.push((v.last().0, hs))
        }
    }
}

/// Removing handlers keeps a registry well formed, and keeps only key sets
/// it had.
pub proof fn lemma_registry_remove_wf(v: Seq<(Seq<JsKey>, Seq<(HandleId, bool)>)>, id: HandleId)
    requires
        registry_wf(v),
    ensures
        registry_wf(registry_remove(v, id)),
        forall|a: int|
            0 <= a < registry_remove(v, id).len() ==> exists|i: int|
                0 <= i < v.len() && (#[trigger] registry_remove(v, id)[a]).0 == v[i].0,
    decreases v.len(),
{
    if v.len() > 0 {
        let d = v.drop_last();
        assert forall|i: int| 0 <= i < d.len() implies (#[trigger] d[i]).0.no_duplicates() && d[i].1.len()
            > 0 by {
            assert(d[i] == v[i]);
        }
        assert forall|i: int, j: int| 0 <= i < j < d.len() implies !same_keys(
            #[trigger] d[i].0,
            #[trigger] d[j].0,
        ) by {
            assert(d[i] == v[i] && d[j] == v[j]);
        }
        lemma_registry_remove_wf(d, id);
        let rest = registry_remove(d, id);
        let hs = without_id(v.last().1, id);
        if hs.len() > 0 {
            let r = rest.push((v.last().0, hs));
            assert forall|a: int, b: int| 0 <= a < b < r.len() implies !same_keys(
                #[trigger] r[a].0,
                #[trigger] r[b].0,
            ) by {
                if b == r.len() - 1 {
                    assert(r[a] == rest[a]);
                    let i = choose|i: int| 0 <= i < d.len() && (#[trigger] rest[a]).0 == d[i].0;
                    assert(d[i] == v[i]);
                    assert(!same_keys(v[i].0, v[v.len() - 1].0));
                } else {
                    assert(r[a] == rest[a] && r[b] == rest[b]);
                }
            }
            assert forall|a: int| 0 <= a < r.len() implies (#[trigger] r[a]).0.no_duplicates() && r[a].1.len()
                > 0 by {
                if a < r.len() - 1 {
                    assert(r[a] == rest[a]);
                }
            }
            assert forall|a: int| 0 <= a < r.len() implies exists|i: int|
                0 <= i < v.len() && (#[trigger] r[a]).0 == v[i].0 by {
                if a == r.len() - 1 {
                    assert(r[a].0 == v[v.len() - 1].0);
                } else {
                    assert(r[a] == rest[a]);
                    let i = choose|i: int| 0 <= i < d.len() && (#[trigger] rest[a]).0 == d[i].0;
                    assert(d[i] == v[i]);
                }
            }
        } else {
            assert forall|a: int| 0 <= a < rest.len() implies exists|i: int|
                0 <= i < v.len() && (#[trigger] rest[a]).0 == v[i].0 by {
                let i = choose|i: int| 0 <= i < d.len() && (#[trigger] rest[a]).0 == d[i].0;
                assert(d[i] == v[i]);
            }
        }
    }
}

/// The view of registry entries.
pub open spec fn entries_view<C>(es: Seq<(Vec<JsKey>, Vec<KeyHandler<C>>)>) -> Seq<
    (Seq<JsKey>, Seq<(HandleId, bool)>),
> {
    es.map_values(|e: (Vec<JsKey>, Vec<KeyHandler<C>>)| (e.0@, handler_view(e.1@)))
}

/// The registry entries with their handlers whole.
pub open spec fn entries_full<C>(es: Seq<(Vec<JsKey>, Vec<KeyHandler<C>>)>) -> Seq<
    (Seq<JsKey>, Seq<KeyHandler<C>>),
> {
    es.map_values(|e: (Vec<JsKey>, Vec<KeyHandler<C>>)| (e.0@, e.1@))
}

/// Whether the handler at entry `i`, position `j` is the first one of
/// identifier `id`, entry by entry.
pub open spec fn first_with_id<C>(v: Seq<(Seq<JsKey>, Seq<KeyHandler<C>>)>, id: HandleId, i: int, j: int) -> bool {
    &&& 0 <= i < v.len()
    &&& 0 <= j < v[i].1.len()
    &&& v[i].1[j].id == id
    &&& forall|b: int| 0 <= b < j ==> (#[trigger] v[i].1[b]).id != id
    &&& forall|a: int, b: int| 0 <= a < i && 0 <= b < v[a].1.len() ==> (#[trigger] v[a].1[b]).id != id
}

/// A handler added under an identifier that no registered handler has is
/// the one found by that identifier afterwards, callback and all.
pub proof fn law_added_handler_is_found<C>(
    v: Seq<(Seq<JsKey>, Seq<KeyHandler<C>>)>,
    keys: Seq<JsKey>,
    h: KeyHandler<C>,
)
    requires
        forall|i: int, j: int| 0 <= i < v.len() && 0 <= j < v[i].1.len() ==> (#[trigger] v[i].1[j]).id != h.id,
    ensures
        exists|i: int, j: int|
            first_with_id(registry_add(v, keys, h), h.id, i, j) && registry_add(v, keys, h)[i].1[j] == h,
{
    let r = registry_add(v, keys, h);
    if exists|i: int| 0 <= i < v.len() && same_keys(#[trigger] v[i].0, keys) {
        let i = choose|i: int| 0 <= i < v.len() && same_keys(#[trigger] v[i].0, keys);
        let j = v[i].1.len() as int;
        assert(r[i].1 == v[i].1.push(h));
        assert forall|a: int, b: int| 0 <= a < i && 0 <= b < r[a].1.len() implies (#[trigger] r[a].1[b]).id
            != h.id by {
            assert(r[a] == v[a]);
        }
        assert forall|b: int| 0 <= b < j implies (#[trigger] r[i].1[b]).id != h.id by {
            assert(r[i].1[b] == v[i].1[b]);
        }
        assert(first_with_id(r, h.id, i, j));
    } else {
        let i = v.len() as int;
        assert(r == v.push((keys, seq![h])));
        assert forall|a: int, b: int| 0 <= a < i && 0 <= b < r[a].1.len() implies (#[trigger] r[a].1[b]).id
            != h.id by {
            assert(r[a] == v[a]);
        }
        assert(first_with_id(r, h.id, i, 0));
    }
}

/// Whether two key lists hold the same keys.
fn same_key_set(a: &Vec<JsKey>, b: &Vec<JsKey>) -> (r: bool)
    ensures
        r == same_keys(a@, b@),
{
    let ab = keys_match(a, b, false);
    let ba = keys_match(b, a, false);
    proof {
        if ab && ba {
            assert forall|k: JsKey| a@.contains(k) <==> b@.contains(k) by {
                if a@.contains(k) {
                    let i = choose|i: int| 0 <= i < a@.len() && a@[i] == k;
                    assert(b@.contains(a@[i]));
                }
                if b@.contains(k) {
                    let i = choose|i: int| 0 <= i < b@.len() && b@[i] == k;
                    assert(a@.contains(b@[i]));
                }
            }
        }
        if same_keys(a@, b@) {
            assert forall|i: int| 0 <= i < a@.len() implies b@.contains(#[trigger] a@[i]) by {
                assert(a@.contains(a@[i]));
            }
            assert forall|i: int| 0 <= i < b@.len() implies a@.contains(#[trigger] b@[i]) by {
                assert(b@.contains(b@[i]));
            }
        }
    }
    ab && ba
}

impl<C> KeyTriggerRegistry<C> {
    #[verifier::type_invariant]
    spec fn inv(&self) -> bool {
        registry_wf(entries_view(self.entries@))
    }

    /// The key sets and, for each, the identifiers and exclusivity of its
    /// handlers.
    pub closed spec fn view(&self) -> Seq<(Seq<JsKey>, Seq<(HandleId, bool)>)> {
        entries_view(self.entries@)
    }

    /// The key sets and, for each, its handlers whole, callbacks included.
    pub closed spec fn handlers(&self) -> Seq<(Seq<JsKey>, Seq<KeyHandler<C>>)> {
        entries_full(self.entries@)
    }

    /// The view is the handlers' identifiers and exclusivity.
    pub proof fn lemma_view_of_handlers(&self)
        ensures
            self.view().len() == self.handlers().len(),
            forall|i: int|
                0 <= i < self.view().len() ==> (#[trigger] self.view()[i]).0 == self.handlers()[i].0
                    && self.view()[i].1 == handler_view(self.handlers()[i].1),
    {
    }

    /// No trigger.
    pub fn new() -> (r: Self)
        ensures
            r.view() == Seq::<(Seq<JsKey>, Seq<(HandleId, bool)>)>::empty(),
            r.handlers() == Seq::<(Seq<JsKey>, Seq<KeyHandler<C>>)>::empty(),
    {
        let r = KeyTriggerRegistry { entries: Vec::new() };
        assert(entries_view(r.entries@) =~= Seq::<(Seq<JsKey>, Seq<(HandleId, bool)>)>::empty());
        assert(entries_full(r.entries@) =~= Seq::<(Seq<JsKey>, Seq<KeyHandler<C>>)>::empty());
        r
    }

    /// Whether no trigger is registered.
    pub fn is_empty(&self) -> (b: bool)
        ensures
            b == (self.view().len() == 0),
    {
        self.entries.len() == 0
    }

    /// Adds a handler for the keys `keys`, taken in normal form; says
    /// whether the registry was empty before.
    pub fn add(&mut self, id: HandleId, keys: &Vec<JsKey>, callback: C, options: OnKeysOptions) -> (was_empty: bool)
        ensures
            was_empty == (old(self).view().len() == 0),
            final(self).view() == registry_add(
                old(self).view(),
                canonical_keys(keys@),
                (id, options.exclusive),
            ),
            final(self).handlers() == registry_add(
                old(self).handlers(),
                canonical_keys(keys@),
                (KeyHandler { id, callback, options }),
            ),
    {
        proof {
            use_type_invariant(&*self);
        }
        let was_empty = self.entries.len() == 0;
        let normal = trigger_keys(keys);
        let ghost ks = normal@;
        let ghost v = self.view();
        let ghost full = self.handlers();
        let mut found: Option<usize> = None;
        let mut j: usize = 0;
        while j < self.entries.len()
            invariant_except_break
                found is None,
            invariant
                j <= self.entries.len(),
                v == entries_view(self.entries@),
                normal@ == ks,
                forall|i: int| 0 <= i < j ==> !same_keys(#[trigger] v[i].0, ks),
            ensures
                match found {
                    Some(p) => p < self.entries.len() && same_keys(v[p as int].0, ks),
                    None => forall|i: int| 0 <= i < v.len() ==> !same_keys(#[trigger] v[i].0, ks),
                },
            decreases self.entries.len() - j,
        {
            if same_key_set(&self.entries[j].0, &normal) {
                assert(v[j as int].0 == self.entries@[j as int].0@);
                found = Some(j);
                break;
            }
            j = j + 1;
        }
        let handler = KeyHandler { id, callback, options };
        let mut taken = KeyTriggerRegistry::new();
        std::mem::swap(self, &mut taken);
        let KeyTriggerRegistry { mut entries } = taken;
        assert(entries_view(entries@) == v);
        assert(entries_full(entries@) == full);
        let ghost hd = handler;
        match found {
            Some(p) => {
                let (entry_keys, mut handlers) = entries.remove(p);
                handlers.push(handler);
                entries.insert(p, (entry_keys, handlers));
                proof {
                    let c = choose|i: int| 0 <= i < v.len() && same_keys(#[trigger] v[i].0, ks);
                    if c != p {
                        assert(same_keys(v[c].0, v[p as int].0));
                        if c < p {
                            assert(!same_keys(v[c].0, v[p as int].0));
                        } else {
                            assert(!same_keys(v[p as int].0, v[c].0));
                        }
                    }
                    assert(handler_view(handlers@) =~= v[p as int].1.push((id, options.exclusive)));
                    assert(entries_view(entries@) =~= v.update(
                        p as int,
                        (v[p as int].0, v[p as int].1.push((id, options.exclusive))),
                    ));
                    assert(full[c].0 == v[c].0 && full[p as int].0 == v[p as int].0);
                    let cf = choose|i: int| 0 <= i < full.len() && same_keys(#[trigger] full[i].0, ks);
                    assert(full[cf].0 == v[cf].0);
                    if cf != p {
                        if cf < p {
                            assert(!same_keys(v[cf].0, v[p as int].0));
                        } else {
                            assert(!same_keys(v[p as int].0, v[cf].0));
                        }
                    }
                    assert(entries_full(entries@) =~= full.update(
                        p as int,
                        (full[p as int].0, full[p as int].1.push(hd)),
                    ));
                    assert(entries_full(entries@) == registry_add(full, ks, hd));
                }
            },
            None => {
                let mut handlers = Vec::new();
                handlers.push(handler);
                entries.push((normal, handlers));
                proof {
                    assert(handler_view(handlers@) =~= seq![(id, options.exclusive)]);
                    assert(entries_view(entries@) =~= v.push((ks, seq![(id, options.exclusive)])));
                    assert(handlers@ =~= seq![hd]);
                    assert(entries_full(entries@) =~= full.push((ks, seq![hd])));
                    assert forall|i: int| 0 <= i < full.len() implies !same_keys(#[trigger] full[i].0, ks) by {
                        assert(full[i].0 == v[i].0);
                    }
                    assert(entries_full(entries@) == registry_add(full, ks, hd));
                }
            },
        }
        proof {
            let nv = entries_view(entries@);
            assert(nv == registry_add(v, ks, (id, options.exclusive)));
            assert forall|i: int| 0 <= i < nv.len() implies (#[trigger] nv[i]).0.no_duplicates() && nv[i].1.len()
                > 0 by {
                if i < v.len() {
                    assert(v[i].0.no_duplicates());
                }
            }
            assert forall|a: int, b: int| 0 <= a < b < nv.len() implies !same_keys(
                #[trigger] nv[a].0,
                #[trigger] nv[b].0,
            ) by {
                if b == v.len() {
                    assert(nv[a].0 == v[a].0);
                    assert(!same_keys(v[a].0, ks));
                    if same_keys(nv[a].0, nv[b].0) {
                        assert forall|k: JsKey| v[a].0.contains(k) <==> ks.contains(k) by {
                            assert(nv[b].0 == ks);
                        }
                    }
                } else {
                    assert(nv[a].0 == v[a].0 && nv[b].0 == v[b].0);
                }
            }
        }
        *self = KeyTriggerRegistry { entries };
        was_empty
    }

    /// Removes the handlers of identifier `id`, dropping the key sets left
    /// with none; says whether this emptied the registry.
    pub fn remove(&mut self, id: HandleId) -> (emptied: bool)
        ensures
            final(self).view() == registry_remove(old(self).view(), id),
            emptied == (old(self).view().len() > 0 && final(self).view().len() == 0),
    {
        proof {
            use_type_invariant(&*self);
        }
        let ghost v = self.view();
        let had_some = self.entries.len() > 0;
        let mut taken = KeyTriggerRegistry::new();
        std::mem::swap(self, &mut taken);
        let KeyTriggerRegistry { entries: mut rest } = taken;
        let ghost n = rest.len();
        let mut kept: Vec<(Vec<JsKey>, Vec<KeyHandler<C>>)> = Vec::new();
        let mut k: usize = 0;
        while rest.len() > 0
            invariant
                k + rest.len() == n,
                n == v.len(),
                entries_view(rest@) == v.subrange(k as int, n as int),
                entries_view(kept@) == registry_remove(v.subrange(0, k as int), id),
            decreases rest.len(),
        {
            let ghost before = rest@;
            let (entry_keys, mut handlers) = rest.remove(0);
            proof {
                assert(entries_view(rest@) =~= entries_view(before).subrange(1, before.len() as int));
                assert(entries_view(before)[0] == v[k as int]);
            }
            let ghost hv = handler_view(handlers@);
            let mut left: Vec<KeyHandler<C>> = Vec::new();
            let ghost m = handlers.len();
            let mut h: usize = 0;
            while handlers.len() > 0
                invariant
                    h + handlers.len() == m,
                    hv.len() == m,
                    handler_view(handlers@) == hv.subrange(h as int, m as int),
                    handler_view(left@) == without_id(hv.subrange(0, h as int), id),
                decreases handlers.len(),
            {
                let ghost hb = handlers@;
                let handler = handlers.remove(0);
                proof {
                    assert(handler_view(handlers@) =~= handler_view(hb).subrange(1, hb.len() as int));
                    assert(handler_view(hb)[0] == hv[h as int]);
                    assert(hv.subrange(0, h + 1).drop_last() =~= hv.subrange(0, h as int));
                }
                if handler.id != id {
                    left.push(handler);
                    assert(handler_view(left@) =~= without_id(hv.subrange(0, h as int), id).push(
                        hv[h as int],
                    ));
                }
                h = h + 1;
            }
            assert(hv.subrange(0, m as int) =~= hv);
            proof {
                assert(v.subrange(0, k + 1).drop_last() =~= v.subrange(0, k as int));
                assert(v.subrange(0, k + 1).last() == v[k as int]);
            }
            if left.len() > 0 {
                let ghost kb = kept@;
                kept.push((entry_keys, left));
                assert(entries_view(kept@) =~= entries_view(kb).push(
                    (v[k as int].0, without_id(v[k as int].1, id)),
                ));
            }
            k = k + 1;
        }
        assert(v.subrange(0, n as int) =~= v);
        proof {
            lemma_registry_remove_wf(v, id);
        }
        let emptied = had_some && kept.len() == 0;
        *self = KeyTriggerRegistry { entries: kept };
        emptied
    }

    /// Removes every trigger; says whether there was any.
    pub fn clear(&mut self) -> (had_some: bool)
        ensures
            final(self).view() == Seq::<(Seq<JsKey>, Seq<(HandleId, bool)>)>::empty(),
            had_some == (old(self).view().len() > 0),
    {
        let had_some = self.entries.len() > 0;
        *self = KeyTriggerRegistry::new();
        had_some
    }

    /// The handler of identifier `id`, if one is registered: the first one,
    /// entry by entry.
    pub fn find_handler(&self, id: HandleId) -> (r: Option<&KeyHandler<C>>)
        ensures
            match r {
                Some(h) => exists|i: int, j: int|
                    first_with_id(self.handlers(), id, i, j) && *h == self.handlers()[i].1[j],
                None => forall|i: int, j: int|
                    0 <= i < self.view().len() && 0 <= j < self.view()[i].1.len() ==> (
                    #[trigger] self.view()[i].1[j]).0 != id,
            },
    {
        let ghost full = self.handlers();
        let mut i: usize = 0;
        while i < self.entries.len()
            invariant
                i <= self.entries.len(),
                full == entries_full(self.entries@),
                full == self.handlers(),
                forall|a: int, b: int|
                    0 <= a < i && 0 <= b < full[a].1.len() ==> (#[trigger] full[a].1[b]).id != id,
            decreases self.entries.len() - i,
        {
            let handlers = &self.entries[i].1;
            assert(full[i as int].1 == handlers@);
            let mut j: usize = 0;
            while j < handlers.len()
                invariant
                    j <= handlers.len(),
                    *handlers == self.entries@[i as int].1,
                    full == entries_full(self.entries@),
                    full == self.handlers(),
                    i < self.entries.len(),
                    full[i as int].1 == handlers@,
                    forall|a: int, b: int|
                        0 <= a < i && 0 <= b < full[a].1.len() ==> (#[trigger] full[a].1[b]).id != id,
                    forall|b: int| 0 <= b < j ==> (#[trigger] handlers@[b]).id != id,
                decreases handlers.len() - j,
            {
                if handlers[j].id == id {
                    assert(first_with_id(full, id, i as int, j as int));
                    assert(handlers[j as int] == full[i as int].1[j as int]);
                    return Some(&handlers[j]);
                }
                j = j + 1;
            }
            i = i + 1;
        }
        proof {
            assert forall|a: int, b: int|
                0 <= a < self.view().len() && 0 <= b < self.view()[a].1.len() implies (
                #[trigger] self.view()[a].1[b]).0 != id by {
                assert(self.view()[a].1[b].0 == full[a].1[b].id);
            }
        }
        None
    }
}

/// A key event as the triggers see it.
#[derive(Clone, Copy, Debug, PartialEq, Eq, Structural)]
pub struct KeyEvent {
    /// The key.
    pub key: JsKey,
    /// Whether the key was released rather than pressed.
    pub is_release: bool,
    /// Whether the event was sent by a program rather than typed.
    pub is_injected: bool,
    /// Whether the event repeats a held key.
    pub is_repeat: bool,
}

/// A key set and a handler that fired for it.
pub type Fired = (Seq<JsKey>, HandleId);

/// The handlers among the first `m` of `hs`, for the keys `t`, that fire:
/// those that have not fired during this press and whose keys are pressed.
pub open spec fn entry_fires(
    t: Seq<JsKey>,
    hs: Seq<(HandleId, bool)>,
    m: int,
    fired: Seq<Fired>,
    pressed: Seq<JsKey>,
) -> Seq<Fired>
    decreases m,
{
    if m <= 0 || m > hs.len() {
        Seq::empty()
    } else {
        let r = entry_fires(t, hs, m - 1, fired, pressed);
        let h = hs[m - 1];
        if !fired.contains((t, h.0)) && keys_match_spec(t, pressed, h.1) {
            r.push((t, h.0))
        } else {
            r
        }
    }
}

/// The handlers of the first `n` entries that fire, entry by entry.
pub open spec fn all_fires(
    v: Seq<(Seq<JsKey>, Seq<(HandleId, bool)>)>,
    n: int,
    fired: Seq<Fired>,
    pressed: Seq<JsKey>,
) -> Seq<Fired>
    decreases n,
{
    if n <= 0 || n > v.len() {
        Seq::empty()
    } else {
        all_fires(v, n - 1, fired, pressed) + entry_fires(
            v[n - 1].0,
            v[n - 1].1,
            v[n - 1].1.len() as int,
            fired,
            pressed,
        )
    }
}

/// `s` with `k` added unless it is there.
pub open spec fn with_key(s: Seq<JsKey>, k: JsKey) -> Seq<JsKey> {
    if s.contains(k) {
        s
    } else {
        s.push(k)
    }
}

/// `s` without `k`.
pub open spec fn without_key(s: Seq<JsKey>, k: JsKey) -> Seq<JsKey>
    decreases s.len(),
{
    if s.len() == 0 {
        s
    } else if s.last() == k {
        without_key(s.drop_last(), k)
    } else {
        without_key(s.drop_last(), k).push(s.last())
    }
}

/// Removing a key keeps only keys that were there, and keeps a list
/// without repeats free of them.
pub proof fn lemma_without_key(s: Seq<JsKey>, k: JsKey)
    ensures
        forall|x: JsKey| without_key(s, k).contains(x) ==> s.contains(x) && x != k,
        s.no_duplicates() ==> without_key(s, k).no_duplicates(),
    decreases s.len(),
{
    if s.len() > 0 {
        let d = s.drop_last();
        lemma_without_key(d, k);
        let r = without_key(d, k);
        assert forall|x: JsKey| without_key(s, k).contains(x) implies s.contains(x) && x != k by {
            let w = without_key(s, k);
            if s.last() != k && x == s.last() {
                assert(s[s.len() - 1] == x);
            } else {
                let i = choose|i: int| 0 <= i < w.len() && w[i] == x;
                if s.last() != k {
                    assert(w == r.push(s.last()));
                    assert(i < r.len());
                    assert(r[i] == x);
                } else {
                    assert(w == r);
                }
                assert(r.contains(x));
                assert(d.contains(x));
                let m = choose|m: int| 0 <= m < d.len() && d[m] == x;
                assert(s[m] == x);
            }
        }
        if s.no_duplicates() {
            assert(d.no_duplicates()) by {
                assert forall|a: int, b: int| 0 <= a < b < d.len() implies d[a] != d[b] by {
                    assert(d[a] == s[a] && d[b] == s[b]);
                }
            }
            if s.last() != k {
                let t = r.push(s.last());
                assert(!r.contains(s.last())) by {
                    if r.contains(s.last()) {
                        assert(d.contains(s.last()));
                        let m = choose|m: int| 0 <= m < d.len() && d[m] == s.last();
                        assert(s[m] == s[s.len() - 1]);
                    }
                }
                assert forall|a: int, b: int| 0 <= a < b < t.len() implies t[a] != t[b] by {
                    if b == t.len() - 1 {
                        assert(t[a] == r[a]);
                        assert(r.contains(r[a]));
                    } else {
                        assert(t[a] == r[a] && t[b] == r[b]);
                    }
                }
            }
        }
    }
}

/// The fired handlers whose key sets do not hold `k`.
pub open spec fn fired_without(f: Seq<Fired>, k: JsKey) -> Seq<Fired>
    decreases f.len(),
{
    if f.len() == 0 {
        f
    } else if f.last().0.contains(k) {
        fired_without(f.drop_last(), k)
    } else {
        fired_without(f.drop_last(), k).push(f.last())
    }
}

/// The keys held down and the handlers that fired since their keys were
/// last released.
#[derive(Debug)]
pub struct PressState {
    pressed: Vec<JsKey>,
    fired: Vec<(Vec<JsKey>, HandleId)>,
}

/// The texts of fired pairs.
pub open spec fn fired_view(f: Seq<(Vec<JsKey>, HandleId)>) -> Seq<Fired> {
    f.map_values(|e: (Vec<JsKey>, HandleId)| (e.0@, e.1))
}

/// Whether two key lists are equal.
fn same_list(a: &Vec<JsKey>, b: &Vec<JsKey>) -> (r: bool)
    ensures
        r == (a@ == b@),
{
    if a.len() != b.len() {
        return false;
    }
    let mut i: usize = 0;
    while i < a.len()
        invariant
            i <= a.len(),
            a.len() == b.len(),
            forall|k: int| 0 <= k < i ==> a@[k] == b@[k],
        decreases a.len() - i,
    {
        if a[i] != b[i] {
            return false;
        }
        i = i + 1;
    }
    assert(a@ =~= b@);
    true
}

/// Whether the pair `(keys, id)` has fired.
fn has_fired(fired: &Vec<(Vec<JsKey>, HandleId)>, keys: &Vec<JsKey>, id: HandleId) -> (r: bool)
    ensures
        r == fired_view(fired@).contains((keys@, id)),
{
    let mut i: usize = 0;
    while i < fired.len()
        invariant
            i <= fired.len(),
            forall|k: int| 0 <= k < i ==> fired_view(fired@)[k] != (keys@, id),
        decreases fired.len() - i,
    {
        if fired[i].1 == id && same_list(&fired[i].0, keys) {
            assert(fired_view(fired@)[i as int] == (keys@, id));
            return true;
        }
        i = i + 1;
    }
    false
}

/// A copy of a key list.
fn copy_keys(keys: &Vec<JsKey>) -> (r: Vec<JsKey>)
    ensures
        r@ == keys@,
{
    let mut r: Vec<JsKey> = Vec::new();
    let mut i: usize = 0;
    while i < keys.len()
        invariant
            i <= keys.len(),
            r@ == keys@.subrange(0, i as int),
        decreases keys.len() - i,
    {
        r.push(keys[i]);
        i = i + 1;
        assert(r@ =~= keys@.subrange(0, i as int));
    }
    assert(keys@.subrange(0, keys.len() as int) =~= keys@);
    r
}

impl PressState {
    #[verifier::type_invariant]
    spec fn inv(&self) -> bool {
        self.pressed@.no_duplicates()
    }

    /// The keys held down.
    pub closed spec fn pressed(&self) -> Seq<JsKey> {
        self.pressed@
    }

    /// The handlers that fired, with their key sets.
    pub closed spec fn fired(&self) -> Seq<Fired> {
        fired_view(self.fired@)
    }

    /// No key held, nothing fired.
    pub fn new() -> (s: Self)
        ensures
            s.pressed() == Seq::<JsKey>::empty(),
            s.fired() == Seq::<Fired>::empty(),
            s.pressed().no_duplicates(),
    {
        let s = PressState { pressed: Vec::new(), fired: Vec::new() };
        assert(fired_view(s.fired@) =~= Seq::<Fired>::empty());
        s
    }

    /// Takes in a key event and returns the handlers to call, with their
    /// key sets. Events sent by programs and repeats change nothing. A
    /// release forgets the key and what fired with it. A press adds the key
    /// and fires, entry by entry, each handler whose keys are all pressed
    /// (exactly those when exclusive) and that has not fired since.
    pub fn on_key<C>(&mut self, registry: &KeyTriggerRegistry<C>, event: KeyEvent) -> (r: Vec<
        (Vec<JsKey>, HandleId),
    >)
        ensures
            ({
                let k = normalized(event.key);
                if event.is_injected || event.is_repeat {
                    &&& final(self).pressed() == old(self).pressed()
                    &&& final(self).fired() == old(self).fired()
                    &&& r@.len() == 0
                } else if event.is_release {
                    &&& final(self).pressed() == without_key(old(self).pressed(), k)
                    &&& final(self).fired() == fired_without(old(self).fired(), k)
                    &&& r@.len() == 0
                } else {
                    let pressed = with_key(old(self).pressed(), k);
                    let fires = all_fires(
                        registry.view(),
                        registry.view().len() as int,
                        old(self).fired(),
                        pressed,
                    );
                    &&& final(self).pressed() == pressed
                    &&& fired_view(r@) == fires
                    &&& final(self).fired() == old(self).fired() + fires
                }
            }),
            final(self).pressed().no_duplicates(),
    {
        proof {
            use_type_invariant(&*self);
        }
        if event.is_injected || event.is_repeat {
            return Vec::new();
        }
        let key = normalize(event.key);
        if event.is_release {
            let mut pressed: Vec<JsKey> = Vec::new();
            let mut i: usize = 0;
            while i < self.pressed.len()
                invariant
                    i <= self.pressed.len(),
                    pressed@ == without_key(self.pressed@.subrange(0, i as int), key),
                decreases self.pressed.len() - i,
            {
                proof {
                    assert(self.pressed@.subrange(0, i + 1).drop_last() =~= self.pressed@.subrange(
                        0,
                        i as int,
                    ));
                }
                if self.pressed[i] != key {
                    pressed.push(self.pressed[i]);
                }
                i = i + 1;
            }
            assert(self.pressed@.subrange(0, self.pressed.len() as int) =~= self.pressed@);
            let ghost old_fired = fired_view(self.fired@);
            let mut fired: Vec<(Vec<JsKey>, HandleId)> = Vec::new();
            let mut j: usize = 0;
            while j < self.fired.len()
                invariant
                    j <= self.fired.len(),
                    old_fired == fired_view(self.fired@),
                    fired_view(fired@) == fired_without(old_fired.subrange(0, j as int), key),
                decreases self.fired.len() - j,
            {
                proof {
                    assert(old_fired.subrange(0, j + 1).drop_last() =~= old_fired.subrange(0, j as int));
                    assert(old_fired[j as int].0 == self.fired@[j as int].0@);
                }
                if position(&self.fired[j].0, key).is_none() {
                    let ghost fb = fired@;
                    fired.push((copy_keys(&self.fired[j].0), self.fired[j].1));
                    assert(fired_view(fired@) =~= fired_view(fb).push(old_fired[j as int]));
                }
                j = j + 1;
            }
            assert(old_fired.subrange(0, self.fired.len() as int) =~= old_fired);
            proof {
                lemma_without_key(self.pressed@, key);
            }
            self.pressed = pressed;
            self.fired = fired;
            return Vec::new();
        }
        let pos = position(&self.pressed, key);
        if pos.is_none() {
            let mut now: Vec<JsKey> = Vec::new();
            std::mem::swap(&mut now, &mut self.pressed);
            let ghost before = now@;
            now.push(key);
            proof {
                assert forall|a: int, b: int| 0 <= a < b < now@.len() implies now@[a] != now@[b] by {
                    if b == now@.len() - 1 {
                        assert(now@[a] == before[a]);
                    } else {
                        assert(now@[a] == before[a] && now@[b] == before[b]);
                    }
                }
            }
            self.pressed = now;
        }
        let ghost pressed = self.pressed@;
        assert(pressed == with_key(old(self).pressed(), key));
        let ghost old_fired = fired_view(self.fired@);
        let ghost v = registry.view();
        let mut out: Vec<(Vec<JsKey>, HandleId)> = Vec::new();
        let mut e: usize = 0;
        while e < registry.entries.len()
            invariant
                e <= registry.entries.len(),
                v == entries_view(registry.entries@),
                pressed == self.pressed@,
                old_fired == fired_view(self.fired@),
                fired_view(out@) == all_fires(v, e as int, old_fired, pressed),
            decreases registry.entries.len() - e,
        {
            let keys = &registry.entries[e].0;
            let handlers = &registry.entries[e].1;
            let ghost hv = handler_view(handlers@);
            let ghost before = fired_view(out@);
            assert(v[e as int] == (keys@, hv));
            let mut h: usize = 0;
            while h < handlers.len()
                invariant
                    h <= handlers.len(),
                    hv == handler_view(handlers@),
                    pressed == self.pressed@,
                    old_fired == fired_view(self.fired@),
                    fired_view(out@) == before + entry_fires(keys@, hv, h as int, old_fired, pressed),
                decreases handlers.len() - h,
            {
                let id = handlers[h].id;
                if !has_fired(&self.fired, keys, id) && keys_match(
                    keys,
                    &self.pressed,
                    handlers[h].options.exclusive,
                ) {
                    let ghost ob = fired_view(out@);
                    out.push((copy_keys(keys), id));
                    assert(fired_view(out@) =~= ob.push((keys@, id)));
                }
                h = h + 1;
            }
            proof {
                assert(all_fires(v, e + 1, old_fired, pressed) == all_fires(v, e as int, old_fired, pressed)
                    + entry_fires(v[e as int].0, v[e as int].1, v[e as int].1.len() as int, old_fired, pressed));
            }
            e = e + 1;
        }
        let mut i: usize = 0;
        let ghost f0 = fired_view(self.fired@);
        let mut fired: Vec<(Vec<JsKey>, HandleId)> = Vec::new();
        std::mem::swap(&mut fired, &mut self.fired);
        while i < out.len()
            invariant
                i <= out.len(),
                self.pressed@ == pressed,
                fired_view(fired@) == f0 + fired_view(out@).subrange(0, i as int),
            decreases out.len() - i,
        {
            let ghost fb = fired_view(fired@);
            fired.push((copy_keys(&out[i].0), out[i].1));
            assert(fired_view(fired@) =~= fb.push(fired_view(out@)[i as int]));
            assert(fired_view(out@).subrange(0, i + 1) =~= fired_view(out@).subrange(0, i as int).push(
                fired_view(out@)[i as int],
            ));
            i = i + 1;
        }
        assert(fired_view(out@).subrange(0, out.len() as int) =~= fired_view(out@));
        self.fired = fired;
        out
    }
}

/// An exclusive trigger fires exactly when the pressed keys are the
/// trigger's keys: with no key listed twice, every trigger key pressed and as
/// many keys pressed as the trigger has means the same keys.
pub proof fn law_exclusive_is_exact(trigger: Seq<JsKey>, pressed: Seq<JsKey>)
    requires
        trigger.no_duplicates(),
        pressed.no_duplicates(),
    ensures
        keys_match_spec(trigger, pressed, true) <==> same_keys(trigger, pressed),
{
    broadcast use vstd::seq_lib::seq_to_set_is_finite;

    trigger.unique_seq_to_set();
    pressed.unique_seq_to_set();
    if keys_match_spec(trigger, pressed, true) {
        assert(trigger.to_set().subset_of(pressed.to_set())) by {
            assert forall|k: JsKey| trigger.to_set().contains(k) implies pressed.to_set().contains(k) by {
                let i = choose|i: int| 0 <= i < trigger.len() && trigger[i] == k;
                assert(pressed.contains(trigger[i]));
            }
        }
        vstd::set_lib::lemma_subset_equality(trigger.to_set(), pressed.to_set());
        assert forall|k: JsKey| trigger.contains(k) <==> pressed.contains(k) by {
            assert(trigger.to_set().contains(k) == pressed.to_set().contains(k));
        }
    }
    if same_keys(trigger, pressed) {
        assert(trigger.to_set() =~= pressed.to_set());
        assert forall|i: int| 0 <= i < trigger.len() implies pressed.contains(#[trigger] trigger[i]) by {
            assert(trigger.contains(trigger[i]));
        }
    }
}

/// Each handler that fires for an entry had not fired during this press,
/// and the pressed keys satisfy its trigger.
pub proof fn lemma_entry_fires(
    t: Seq<JsKey>,
    hs: Seq<(HandleId, bool)>,
    m: int,
    fired: Seq<Fired>,
    pressed: Seq<JsKey>,
)
    ensures
        forall|i: int|
            0 <= i < entry_fires(t, hs, m, fired, pressed).len() ==> {
                let x = #[trigger] entry_fires(t, hs, m, fired, pressed)[i];
                &&& !fired.contains(x)
                &&& x.0 == t
                &&& exists|j: int| 0 <= j < hs.len() && hs[j].0 == x.1 && keys_match_spec(t, pressed, hs[j].1)
            },
    decreases m,
{
    if 0 < m <= hs.len() {
        lemma_entry_fires(t, hs, m - 1, fired, pressed);
        let r = entry_fires(t, hs, m - 1, fired, pressed);
        assert forall|i: int| 0 <= i < entry_fires(t, hs, m, fired, pressed).len() implies {
            let x = #[trigger] entry_fires(t, hs, m, fired, pressed)[i];
            &&& !fired.contains(x)
            &&& x.0 == t
            &&& exists|j: int| 0 <= j < hs.len() && hs[j].0 == x.1 && keys_match_spec(t, pressed, hs[j].1)
        } by {
            if i < r.len() {
                assert(entry_fires(t, hs, m, fired, pressed)[i] == r[i]);
            } else {
                let j = m - 1;
                assert(hs[j].0 == entry_fires(t, hs, m, fired, pressed)[i].1);
            }
        }
    }
}

/// A handler fires at most once while its keys stay down: whatever fires on
/// a press had not fired before it.
pub proof fn law_fires_only_once(
    v: Seq<(Seq<JsKey>, Seq<(HandleId, bool)>)>,
    n: int,
    fired: Seq<Fired>,
    pressed: Seq<JsKey>,
)
    ensures
        forall|i: int|
            0 <= i < all_fires(v, n, fired, pressed).len() ==> !fired.contains(
                #[trigger] all_fires(v, n, fired, pressed)[i],
            ),
    decreases n,
{
    if 0 < n <= v.len() {
        law_fires_only_once(v, n - 1, fired, pressed);
        let a = all_fires(v, n - 1, fired, pressed);
        let b = entry_fires(v[n - 1].0, v[n - 1].1, v[n - 1].1.len() as int, fired, pressed);
        lemma_entry_fires(v[n - 1].0, v[n - 1].1, v[n - 1].1.len() as int, fired, pressed);
        assert forall|i: int| 0 <= i < all_fires(v, n, fired, pressed).len() implies !fired.contains(
            #[trigger] all_fires(v, n, fired, pressed)[i],
        ) by {
            if i < a.len() {
                assert(all_fires(v, n, fired, pressed)[i] == a[i]);
            } else {
                assert(all_fires(v, n, fired, pressed)[i] == b[i - a.len()]);
            }
        }
    }
}

/// After a key is released, no remembered firing involves it, so its
/// triggers can fire again on the next press.
pub proof fn law_release_forgets(f: Seq<Fired>, k: JsKey)
    ensures
        forall|i: int| 0 <= i < fired_without(f, k).len() ==> !(#[trigger] fired_without(f, k)[i]).0.contains(k),
        forall|x: Fired| fired_without(f, k).contains(x) <==> f.contains(x) && !x.0.contains(k),
    decreases f.len(),
{
    broadcast use vstd::seq_lib::group_seq_properties;

    if f.len() > 0 {
        let d = f.drop_last();
        law_release_forgets(d, k);
        let r = fired_without(d, k);
        assert(f =~= d.push(f.last()));
        assert forall|x: Fired| f.contains(x) <==> d.contains(x) || x == f.last() by {
            if f.contains(x) {
                let i = choose|i: int| 0 <= i < f.len() && f[i] == x;
                if i < d.len() {
                    assert(d[i] == x);
                }
            }
            if d.contains(x) {
                let i = choose|i: int| 0 <= i < d.len() && d[i] == x;
                assert(f[i] == x);
            }
            if x == f.last() {
                assert(f[f.len() - 1] == x);
            }
        }
        if !f.last().0.contains(k) {
            let res = r.push(f.last());
            assert forall|x: Fired| res.contains(x) <==> r.contains(x) || x == f.last() by {
                if res.contains(x) {
                    let i = choose|i: int| 0 <= i < res.len() && res[i] == x;
                    if i < r.len() {
                        assert(r[i] == x);
                    }
                }
                if r.contains(x) {
                    let i = choose|i: int| 0 <= i < r.len() && r[i] == x;
                    assert(res[i] == x);
                }
                if x == f.last() {
                    assert(res[r.len() as int] == x);
                }
            }
            assert forall|i: int| 0 <= i < res.len() implies !(#[trigger] res[i]).0.contains(k) by {
                if i < r.len() {
                    assert(res[i] == r[i]);
                }
            }
        }
    }
}

/// Releasing a key takes it, and only it, out of the pressed keys.
pub proof fn law_release_removes_key(s: Seq<JsKey>, k: JsKey)
    ensures
        forall|x: JsKey| without_key(s, k).contains(x) <==> s.contains(x) && x != k,
        s.no_duplicates() ==> without_key(s, k).no_duplicates(),
    decreases s.len(),
{
    broadcast use vstd::seq_lib::group_seq_properties;

    if s.len() > 0 {
        let d = s.drop_last();
        law_release_removes_key(d, k);
        let r = without_key(d, k);
        assert(s =~= d.push(s.last()));
        assert forall|x: JsKey| s.contains(x) <==> d.contains(x) || x == s.last() by {
            if s.contains(x) {
                let i = choose|i: int| 0 <= i < s.len() && s[i] == x;
                if i < d.len() {
                    assert(d[i] == x);
                }
            }
            if d.contains(x) {
                let i = choose|i: int| 0 <= i < d.len() && d[i] == x;
                assert(s[i] == x);
            }
            if x == s.last() {
                assert(s[s.len() - 1] == x);
            }
        }
        if s.last() != k {
            let res = r.push(s.last());
            assert forall|x: JsKey| res.contains(x) <==> r.contains(x) || x == s.last() by {
                if res.contains(x) {
                    let i = choose|i: int| 0 <= i < res.len() && res[i] == x;
                    if i < r.len() {
                        assert(r[i] == x);
                    }
                }
                if r.contains(x) {
                    let i = choose|i: int| 0 <= i < r.len() && r[i] == x;
                    assert(res[i] == x);
                }
                if x == s.last() {
                    assert(res[r.len() as int] == x);
                }
            }
            if s.no_duplicates() {
                assert(!d.contains(s.last()));
                assert(d.no_duplicates());
                assert forall|a: int, b: int| 0 <= a < b < res.len() implies res[a] != res[b] by {
                    if b == r.len() {
                        assert(r.contains(r[a]));
                        assert(res[a] == r[a]);
                    } else {
                        assert(res[a] == r[a] && res[b] == r[b]);
                    }
                }
            }
        } else {
            if s.no_duplicates() {
                assert(d.no_duplicates());
            }
        }
        assert forall|x: JsKey| without_key(s, k).contains(x) <==> s.contains(x) && x != k by {
            assert(r.contains(x) <==> d.contains(x) && x != k);
        }
    }
}

/// Pressing a key adds it once to the pressed keys.
pub proof fn law_press_adds_key(s: Seq<JsKey>, k: JsKey)
    ensures
        forall|x: JsKey| with_key(s, k).contains(x) <==> s.contains(x) || x == k,
        s.no_duplicates() ==> with_key(s, k).no_duplicates(),
{
    broadcast use vstd::seq_lib::group_seq_properties;

    if !s.contains(k) && s.no_duplicates() {
        assert forall|a: int, b: int| 0 <= a < b < s.push(k).len() implies s.push(k)[a] != s.push(k)[b] by {
            if b == s.len() {
                assert(s.contains(s[a]));
            }
        }
    }
}

} // verus!
