//! Values kept by label, as the console's counters and timers keep them,
//! and the messages the console prints about them.

use vstd::prelude::*;

use crate::text::{append_decimal, decimal, push_char};

verus! {

/// Values keyed by text labels, each label at most once.
pub struct LabelMap<V> {
    entries: Vec<(String, V)>,
    map: Ghost<Map<Seq<char>, V>>,
}

/// The entries hold each label at most once, and exactly the labels of the
/// map, each with its value.
pub open spec fn entries_agree<V>(es: Seq<(String, V)>, m: Map<Seq<char>, V>) -> bool {
    &&& forall|i: int, j: int| 0 <= i < j < es.len() ==> #[trigger] es[i].0@ != #[trigger] es[j].0@
    &&& forall|i: int|
        0 <= i < es.len() ==> #[trigger] m.dom().contains(es[i].0@) && m[es[i].0@] == es[i].1
    &&& forall|k: Seq<char>|
        #[trigger] m.dom().contains(k) ==> exists|i: int| 0 <= i < es.len() && #[trigger] es[i].0@ == k
}

impl<V> LabelMap<V> {
    #[verifier::type_invariant]
    spec fn inv(&self) -> bool {
        entries_agree(self.entries@, self.map@)
    }

    /// The value of each label.
    pub closed spec fn view(&self) -> Map<Seq<char>, V> {
        self.map@
    }

    /// No label.
    pub fn new() -> (m: Self)
        ensures
            m.view() == Map::<Seq<char>, V>::empty(),
    {
        LabelMap { entries: Vec::new(), map: Ghost(Map::empty()) }
    }

    /// The position of `label` among the entries.
    fn find(&self, label: &String) -> (r: Option<usize>)
        ensures
            match r {
                Some(i) => i < self.entries.len() && self.entries@[i as int].0@ == label@,
                None => !self.view().dom().contains(label@),
            },
    {
        proof {
            use_type_invariant(self);
        }
        let mut i: usize = 0;
        while i < self.entries.len()
            invariant
                i <= self.entries.len(),
                forall|k: int| 0 <= k < i ==> self.entries@[k].0@ != label@,
            decreases self.entries.len() - i,
        {
            if self.entries[i].0 == *label {
                return Some(i);
            }
            i = i + 1;
        }
        None
    }

    /// Whether `label` has a value.
    pub fn contains(&self, label: &String) -> (b: bool)
        ensures
            b == self.view().dom().contains(label@),
    {
        proof {
            use_type_invariant(self);
        }
        match self.find(label) {
            Some(_) => true,
            None => false,
        }
    }

    /// The value of `label`, if any.
    pub fn get(&self, label: &String) -> (r: Option<&V>)
        ensures
            match r {
                Some(v) => self.view().dom().contains(label@) && *v == self.view()[label@],
                None => !self.view().dom().contains(label@),
            },
    {
        proof {
            use_type_invariant(self);
        }
        match self.find(label) {
            Some(i) => Some(&self.entries[i].1),
            None => None,
        }
    }

    /// Gives `label` the value `value`, replacing any value it had.
    pub fn insert(&mut self, label: String, value: V)
        ensures
            final(self).view() == old(self).view().insert(label@, value),
    {
        proof {
            use_type_invariant(&*self);
        }
        let found = self.find(&label);
        let ghost old_map = self.map@;
        let ghost old_entries = self.entries@;
        let ghost key = label@;
        let mut taken = LabelMap::new();
        std::mem::swap(self, &mut taken);
        let LabelMap { mut entries, map: _ } = taken;
        assert(entries@ == old_entries);
        match found {
            Some(i) => {
                entries.set(i, (label, value));
            },
            None => {
                entries.push((label, value));
            },
        }
        let ghost new_map = old_map.insert(key, value);
        proof {
            assert forall|i: int, j: int|
                0 <= i < j < entries.len() implies #[trigger] entries@[i].0@ != #[trigger] entries@[j].0@ by {
                if found is None && j == entries.len() - 1 {
                    assert(entries@[i] == old_entries[i]);
                    assert(old_map.dom().contains(old_entries[i].0@));
                } else if found is Some && (i == found->0 || j == found->0) {
                    let p = found->0;
                    if i == p {
                        assert(entries@[j] == old_entries[j]);
                        assert(old_entries[p as int].0@ != old_entries[j].0@);
                    } else {
                        assert(entries@[i] == old_entries[i]);
                        assert(old_entries[i].0@ != old_entries[p as int].0@);
                    }
                } else {
                    assert(entries@[i] == old_entries[i]);
                    assert(entries@[j] == old_entries[j]);
                }
            }
            assert forall|i: int| 0 <= i < entries.len() implies #[trigger] new_map.dom().contains(
                entries@[i].0@,
            ) && new_map[entries@[i].0@] == entries@[i].1 by {
                if entries@[i].0@ != key {
                    assert(entries@[i] == old_entries[i]);
                    assert(old_map.dom().contains(old_entries[i].0@));
                }
            }
            assert forall|k: Seq<char>| #[trigger] new_map.dom().contains(k) implies exists|i: int|
                0 <= i < entries.len() && #[trigger] entries@[i].0@ == k by {
                if k == key {
                    match found {
                        Some(p) => assert(entries@[p as int].0@ == k),
                        None => assert(entries@[entries.len() - 1].0@ == k),
                    }
                } else {
                    assert(old_map.dom().contains(k));
                    let i = choose|i: int| 0 <= i < old_entries.len() && #[trigger] old_entries[i].0@ == k;
                    assert(entries@[i] == old_entries[i]);
                }
            }
        }
        assert(entries_agree(entries@, new_map));
        *self = LabelMap { entries, map: Ghost(new_map) };
    }

    /// Takes the value of `label` out, if it has one.
    pub fn remove(&mut self, label: &String) -> (r: Option<V>)
        ensures
            match r {
                Some(v) => old(self).view().dom().contains(label@) && v == old(self).view()[label@],
                None => !old(self).view().dom().contains(label@),
            },
            final(self).view() == old(self).view().remove(label@),
    {
        proof {
            use_type_invariant(&*self);
        }
        match self.find(label) {
            None => {
                assert(self.map@.remove(label@) =~= self.map@);
                None
            },
            Some(i) => {
                let ghost old_map = self.map@;
                let ghost old_entries = self.entries@;
                let ghost key = label@;
                let mut taken = LabelMap::new();
                std::mem::swap(self, &mut taken);
                let LabelMap { mut entries, map: _ } = taken;
                assert(entries@ == old_entries);
                proof {
                    assert(old_map.dom().contains(old_entries[i as int].0@));
                }
                let (_, v) = entries.remove(i);
                let ghost new_map = old_map.remove(key);
                proof {
                    assert forall|a: int, b: int|
                        0 <= a < b < entries.len() implies #[trigger] entries@[a].0@
                        != #[trigger] entries@[b].0@ by {
                        let oa = if a < i { a } else { a + 1 };
                        let ob = if b < i { b } else { b + 1 };
                        assert(entries@[a] == old_entries[oa]);
                        assert(entries@[b] == old_entries[ob]);
                    }
                    assert forall|a: int| 0 <= a < entries.len() implies #[trigger] new_map.dom().contains(
                        entries@[a].0@,
                    ) && new_map[entries@[a].0@] == entries@[a].1 by {
                        let oa = if a < i { a } else { a + 1 };
                        assert(entries@[a] == old_entries[oa]);
                        assert(old_map.dom().contains(old_entries[oa].0@));
                    }
                    assert forall|k: Seq<char>| #[trigger] new_map.dom().contains(k) implies exists|a: int|
                        0 <= a < entries.len() && #[trigger] entries@[a].0@ == k by {
                        let o = choose|o: int| 0 <= o < old_entries.len() && #[trigger] old_entries[o].0@ == k;
                        assert(o != i);
                        let a = if o < i { o } else { o - 1 };
                        assert(entries@[a] == old_entries[o]);
                    }
                }
                assert(entries_agree(entries@, new_map));
                *self = LabelMap { entries, map: Ghost(new_map) };
                Some(v)
            },
        }
    }
}

/// The label used when none is given: `default`.
pub open spec fn label_or_default(label: Option<Seq<char>>) -> Seq<char> {
    match label {
        Some(l) => l,
        None => seq!['d', 'e', 'f', 'a', 'u', 'l', 't'],
    }
}

/// The label given, or `default`.
pub fn default_label(label: Option<String>) -> (r: String)
    ensures
        r@ == label_or_default(
            match label {
                Some(l) => Some(l@),
                None => None,
            },
        ),
{
    match label {
        Some(l) => l,
        None => {
            let mut s = String::new();
            s.append("default");
            proof {
                reveal_strlit("default");
            }
            s
        },
    }
}

/// `label: n`, as `count` prints it.
pub open spec fn count_text(label: Seq<char>, n: nat) -> Seq<char> {
    label + seq![':', ' '] + decimal(n)
}

/// Adds one to the counter of `label`, which starts at zero, and returns
/// the line that `count` prints.
pub fn count(counters: &mut LabelMap<usize>, label: String) -> (r: String)
    requires
        old(counters).view().dom().contains(label@) ==> old(counters).view()[label@] < usize::MAX,
    ensures
        ({
            let before = if old(counters).view().dom().contains(label@) {
                old(counters).view()[label@] as nat
            } else {
                0
            };
            &&& final(counters).view() == old(counters).view().insert(label@, (before + 1) as usize)
            &&& r@ == count_text(label@, before + 1)
        }),
{
    let before: usize = match counters.get(&label) {
        Some(v) => *v,
        None => 0,
    };
    let n = before + 1;
    let mut line = label.clone();
    line.append(": ");
    append_decimal(&mut line, n as u64);
    proof {
        reveal_strlit(": ");
    }
    assert(line@ =~= count_text(label@, n as nat));
    counters.insert(label, n);
    line
}

/// `Timer "label" doesn't exist.`, the error of ending a timer that was not
/// started.
pub open spec fn missing_timer_text(label: Seq<char>) -> Seq<char> {
    seq!['T', 'i', 'm', 'e', 'r', ' ', '"'] + label + seq![
        '"',
        ' ',
        'd',
        'o',
        'e',
        's',
        'n',
        '\'',
        't',
        ' ',
        'e',
        'x',
        'i',
        's',
        't',
        '.',
    ]
}

/// Ends the timer of `label`: its start when it was running, else the error
/// message.
pub fn end_timer<T>(timers: &mut LabelMap<T>, label: &String) -> (r: Result<T, String>)
    ensures
        final(timers).view() == old(timers).view().remove(label@),
        match r {
            Ok(start) => old(timers).view().dom().contains(label@) && start == old(timers).view()[label@],
            Err(message) => !old(timers).view().dom().contains(label@) && message@ == missing_timer_text(
                label@,
            ),
        },
{
    match timers.remove(label) {
        Some(start) => Ok(start),
        None => {
            let mut message = String::new();
            message.append("Timer \"");
            message.append(label.as_str());
            message.append("\" doesn't exist.");
            proof {
                reveal_strlit("Timer \"");
                reveal_strlit("\" doesn't exist.");
            }
            assert(message@ =~= missing_timer_text(label@));
            Err(message)
        },
    }
}

/// `label: elapsed - timer ended`, the line `timeEnd` prints.
pub open spec fn timer_ended_text(label: Seq<char>, elapsed: Seq<char>) -> Seq<char> {
    label + seq![':', ' '] + elapsed + seq![
        ' ',
        '-',
        ' ',
        't',
        'i',
        'm',
        'e',
        'r',
        ' ',
        'e',
        'n',
        'd',
        'e',
        'd',
    ]
}

/// The line `timeEnd` prints for `label` once `elapsed` is rendered.
pub fn timer_ended_message(label: &str, elapsed: &str) -> (r: String)
    ensures
        r@ == timer_ended_text(label@, elapsed@),
{
    let mut s = String::new();
    s.append(label);
    s.append(": ");
    s.append(elapsed);
    s.append(" - timer ended");
    proof {
        reveal_strlit(": ");
        reveal_strlit(" - timer ended");
    }
    assert(s@ =~= timer_ended_text(label@, elapsed@));
    s
}

/// The rendering of a duration by `humantime::format_duration`, from its
/// seconds and nanoseconds.
pub uninterp spec fn duration_text(secs: u64, nanos: u32) -> Seq<char>;

/// `humantime::format_duration` of `secs` seconds and `nanos` nanoseconds,
/// such as `1s 234ms`. Claims only that the text is the named rendering of
/// these two numbers.
#[verifier::external_body]
fn format_elapsed(secs: u64, nanos: u32) -> (r: String)
    requires
        nanos < 1_000_000_000,
    ensures
        r@ == duration_text(secs, nanos),
{
    humantime::format_duration(std::time::Duration::new(secs, nanos)).to_string()
}

/// The line `timeEnd` prints for `label` after `secs` seconds and `nanos`
/// nanoseconds, the duration rendered by `humantime`.
pub fn timer_ended_line(label: &str, secs: u64, nanos: u32) -> (r: String)
    requires
        nanos < 1_000_000_000,
    ensures
        r@ == timer_ended_text(label@, duration_text(secs, nanos)),
{
    let elapsed = format_elapsed(secs, nanos);
    timer_ended_message(label, elapsed.as_str())
}

} // verus!
