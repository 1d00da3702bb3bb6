//! Typed-text tracking for text triggers: a buffer that keeps the last few
//! grapheme clusters typed, and the plan that replaces a typed trigger.

use unicode_segmentation::UnicodeSegmentation;
use vstd::prelude::*;
use vstd::seq_lib::lemma_flatten_concat;

use crate::raster::Image;
use crate::text::push_char;

verus! {

broadcast use Seq::lemma_flatten_push;

/// The extended grapheme clusters of a text, in order.
pub uninterp spec fn grapheme_clusters(s: Seq<char>) -> Seq<Seq<char>>;

/// `UnicodeSegmentation::graphemes(s, true)`, collected. Claims: the clusters
/// are `grapheme_clusters(s@)`; each is non-empty; laid end to end they give
/// `s` back (the iterator hands out consecutive slices of `s`, from its start
/// to its end, each up to the next boundary).
#[verifier::external_body]
fn graphemes(s: &str) -> (r: Vec<String>)
    ensures
        r@.map_values(|g: String| g@) == grapheme_clusters(s@),
        r@.map_values(|g: String| g@).flatten() == s@,
        forall|i: int| 0 <= i < r@.len() ==> r@[i]@.len() > 0,
{
    s.graphemes(true).map(|g| g.to_string()).collect()
}

/// The clusters `k..` of `g`, laid end to end, end the text of all of `g`.
proof fn lemma_tail_is_suffix(g: Seq<Seq<char>>, k: int)
    requires
        0 <= k <= g.len(),
    ensures
        g.subrange(k, g.len() as int).flatten().is_suffix_of(g.flatten()),
        g.subrange(0, k).flatten().is_prefix_of(g.flatten()),
        g.flatten() == g.subrange(0, k).flatten() + g.subrange(k, g.len() as int).flatten(),
{
    assert(g =~= g.subrange(0, k) + g.subrange(k, g.len() as int));
    lemma_flatten_concat(g.subrange(0, k), g.subrange(k, g.len() as int));
    let a = g.subrange(0, k).flatten();
    let b = g.subrange(k, g.len() as int).flatten();
    assert((a + b).subrange(a.len() as int, (a + b).len() as int) =~= b);
    assert((a + b).subrange(0, a.len() as int) =~= a);
}

/// The text of the last `n` grapheme clusters of `s`, or all of `s` when it
/// has no more than `n`.
pub open spec fn last_graphemes(s: Seq<char>, n: nat) -> Seq<char> {
    let g = grapheme_clusters(s);
    if g.len() <= n {
        s
    } else {
        g.subrange(g.len() - n, g.len() as int).flatten()
    }
}

/// What a buffer limited to `max` grapheme clusters keeps of the text `s`:
/// nothing when the limit is zero, else its last `max` clusters.
pub open spec fn kept_text(s: Seq<char>, max: nat) -> Seq<char> {
    if max == 0 {
        Seq::empty()
    } else {
        last_graphemes(s, max)
    }
}

/// The text `s` without its last grapheme cluster.
pub open spec fn without_last_grapheme(s: Seq<char>) -> Seq<char> {
    let g = grapheme_clusters(s);
    if g.len() == 0 {
        s
    } else {
        g.drop_last().flatten()
    }
}

/// `n` is the number of leading clusters that `a` and `b` share.
pub open spec fn is_shared_prefix_len(a: Seq<Seq<char>>, b: Seq<Seq<char>>, n: nat) -> bool {
    &&& n <= a.len()
    &&& n <= b.len()
    &&& forall|i: int| 0 <= i < n ==> a[i] == b[i]
    &&& (n == a.len() || n == b.len() || a[n as int] != b[n as int])
}

/// The number of leading clusters that `a` and `b` share.
pub open spec fn shared_prefix_len(a: Seq<Seq<char>>, b: Seq<Seq<char>>) -> nat {
    choose|n: nat| is_shared_prefix_len(a, b, n)
}

/// At most one length is the shared prefix length of two sequences.
pub proof fn lemma_shared_prefix_len_unique(a: Seq<Seq<char>>, b: Seq<Seq<char>>, m: nat, n: nat)
    requires
        is_shared_prefix_len(a, b, m),
        is_shared_prefix_len(a, b, n),
    ensures
        m == n,
{
    if m < n {
        assert(a[m as int] == b[m as int]);
    } else if n < m {
        assert(a[n as int] == b[n as int]);
    }
}

/// The number of leading grapheme clusters that `left` and `right` share.
pub fn grapheme_prefix_len(left: &str, right: &str) -> (n: usize)
    ensures
        is_shared_prefix_len(grapheme_clusters(left@), grapheme_clusters(right@), n as nat),
        n == shared_prefix_len(grapheme_clusters(left@), grapheme_clusters(right@)),
{
    let l = graphemes(left);
    let r = graphemes(right);
    let ghost a = l@.map_values(|g: String| g@);
    let ghost b = r@.map_values(|g: String| g@);
    let mut i: usize = 0;
    while i < l.len() && i < r.len()
        invariant
            a == l@.map_values(|g: String| g@),
            b == r@.map_values(|g: String| g@),
            i <= l.len(),
            i <= r.len(),
            forall|k: int| 0 <= k < i ==> a[k] == b[k],
        ensures
            i <= l.len(),
            i <= r.len(),
            forall|k: int| 0 <= k < i ==> a[k] == b[k],
            i == l.len() || i == r.len() || a[i as int] != b[i as int],
        decreases l.len() - i,
    {
        if l[i] != r[i] {
            break;
        }
        i = i + 1;
    }
    proof {
        assert(is_shared_prefix_len(a, b, i as nat));
        let c = shared_prefix_len(a, b);
        lemma_shared_prefix_len_unique(a, b, c, i as nat);
    }
    i
}

/// What replaces a typed trigger.
#[derive(Debug)]
pub enum ReplacementData {
    /// Text to type.
    Text(String),
    /// An image to paste.
    Image(Image),
    /// Nothing: the trigger only starts an action.
    Nothing,
}

/// How many backspaces to send and what to insert when `trigger` was typed
/// and is replaced by `replacement_data`. Without erasing, nothing is
/// deleted. When erasing text, the grapheme clusters that the replacement
/// shares with the start of the trigger are kept: only the rest of the
/// trigger is deleted and only the rest of the replacement is typed.
pub fn replacement_plan(trigger: &str, replacement_data: ReplacementData, erase: bool) -> (r: (
    usize,
    ReplacementData,
))
    ensures
        !erase ==> r.0 == 0 && r.1 == replacement_data,
        erase ==> match replacement_data {
            ReplacementData::Text(text) => {
                let t = grapheme_clusters(trigger@);
                let g = grapheme_clusters(text@);
                let p = shared_prefix_len(t, g);
                &&& r.0 == t.len() - p
                &&& r.1 matches ReplacementData::Text(rest) && rest@ == g.subrange(
                    p as int,
                    g.len() as int,
                ).flatten()
            },
            _ => r.0 == grapheme_clusters(trigger@).len() && r.1 == replacement_data,
        },
{
    if !erase {
        return (0, replacement_data);
    }
    let trigger_graphemes = graphemes(trigger);
    let count = trigger_graphemes.len();
    match replacement_data {
        ReplacementData::Text(text) => {
            let common = grapheme_prefix_len(trigger, text.as_str());
            let parts = graphemes(text.as_str());
            let ghost g = parts@.map_values(|s: String| s@);
            let mut rest = String::new();
            let mut i: usize = common;
            while i < parts.len()
                invariant
                    g == parts@.map_values(|s: String| s@),
                    common <= i <= parts.len(),
                    rest@ == g.subrange(common as int, i as int).flatten(),
                decreases parts.len() - i,
            {
                rest.append(parts[i].as_str());
                proof {
                    assert(g.subrange(common as int, i + 1) =~= g.subrange(common as int, i as int).push(
                        g[i as int],
                    ));
                }
                i = i + 1;
            }
            (count - common, ReplacementData::Text(rest))
        },
        ReplacementData::Image(image) => (count, ReplacementData::Image(image)),
        ReplacementData::Nothing => (count, ReplacementData::Nothing),
    }
}

/// The last few grapheme clusters typed, at most a given number of them.
#[derive(Debug)]
pub struct StringRingBuffer {
    buffer: String,
    max_graphemes: usize,
}

impl StringRingBuffer {
    /// The text held.
    pub closed spec fn text(&self) -> Seq<char> {
        self.buffer@
    }

    /// The largest number of grapheme clusters kept.
    pub closed spec fn limit(&self) -> nat {
        self.max_graphemes as nat
    }

    /// An empty buffer that keeps at most `max_graphemes` clusters.
    pub fn new(max_graphemes: usize) -> (b: Self)
        ensures
            b.text() == Seq::<char>::empty(),
            b.limit() == max_graphemes,
    {
        StringRingBuffer { buffer: String::new(), max_graphemes }
    }

    /// Drops clusters from the front until at most the limit remain.
    fn update(&mut self)
        ensures
            final(self).limit() == old(self).limit(),
            final(self).text() == kept_text(old(self).text(), old(self).limit()),
            final(self).text().is_suffix_of(old(self).text()),
            old(self).limit() > 0 ==> grapheme_clusters(old(self).text()).flatten() == old(self).text(),
    {
        if self.max_graphemes == 0 {
            self.buffer = String::new();
            return;
        }
        let parts = graphemes(self.buffer.as_str());
        let ghost g = parts@.map_values(|s: String| s@);
        if parts.len() <= self.max_graphemes {
            proof {
                assert(self.buffer@.subrange(0, self.buffer@.len() as int) =~= self.buffer@);
            }
            return;
        }
        let start = parts.len() - self.max_graphemes;
        let mut out = String::new();
        let mut i: usize = start;
        while i < parts.len()
            invariant
                g == parts@.map_values(|s: String| s@),
                start <= i <= parts.len(),
                out@ == g.subrange(start as int, i as int).flatten(),
            decreases parts.len() - i,
        {
            out.append(parts[i].as_str());
            proof {
                assert(g.subrange(start as int, i + 1) =~= g.subrange(start as int, i as int).push(
                    g[i as int],
                ));
            }
            i = i + 1;
        }
        proof {
            lemma_tail_is_suffix(g, start as int);
        }
        self.buffer = out;
    }

    /// Appends a character, then keeps the last clusters up to the limit.
    pub fn add_char(&mut self, ch: char)
        ensures
            final(self).limit() == old(self).limit(),
            final(self).text() == kept_text(old(self).text().push(ch), old(self).limit()),
            final(self).text().is_suffix_of(old(self).text().push(ch)),
            old(self).limit() > 0 ==> grapheme_clusters(old(self).text().push(ch)).flatten() == old(
                self,
            ).text().push(ch),
    {
        push_char(&mut self.buffer, ch);
        self.update();
    }

    /// Appends a character under a new limit, then keeps the last clusters up
    /// to it.
    pub fn add_char_and_set_max_graphemes(&mut self, ch: char, max_graphemes: usize)
        ensures
            final(self).limit() == max_graphemes,
            final(self).text() == kept_text(old(self).text().push(ch), max_graphemes as nat),
            final(self).text().is_suffix_of(old(self).text().push(ch)),
            max_graphemes > 0 ==> grapheme_clusters(old(self).text().push(ch)).flatten() == old(
                self,
            ).text().push(ch),
    {
        push_char(&mut self.buffer, ch);
        self.max_graphemes = max_graphemes;
        self.update();
    }

    /// Appends a string, then keeps the last clusters up to the limit.
    pub fn add_str(&mut self, s: &str)
        ensures
            final(self).limit() == old(self).limit(),
            final(self).text() == kept_text(old(self).text() + s@, old(self).limit()),
            final(self).text().is_suffix_of(old(self).text() + s@),
    {
        self.buffer.append(s);
        self.update();
    }

    /// Sets the limit, then keeps the last clusters up to it.
    pub fn set_max_grapheme_count(&mut self, max_graphemes: usize)
        ensures
            final(self).limit() == max_graphemes,
            final(self).text() == kept_text(old(self).text(), max_graphemes as nat),
            final(self).text().is_suffix_of(old(self).text()),
    {
        self.max_graphemes = max_graphemes;
        self.update();
    }

    /// Removes the last grapheme cluster, if any.
    pub fn pop(&mut self)
        ensures
            final(self).limit() == old(self).limit(),
            final(self).text() == without_last_grapheme(old(self).text()),
            final(self).text().is_prefix_of(old(self).text()),
            old(self).text().len() > 0 ==> final(self).text().len() < old(self).text().len(),
            old(self).text().len() > 0 ==> grapheme_clusters(old(self).text()).len() > 0
                && final(self).text() + grapheme_clusters(old(self).text()).last() == old(self).text(),
    {
        let parts = graphemes(self.buffer.as_str());
        let ghost g = parts@.map_values(|s: String| s@);
        if parts.len() == 0 {
            proof {
                assert(self.buffer@.subrange(0, self.buffer@.len() as int) =~= self.buffer@);
            }
            return;
        }
        let end = parts.len() - 1;
        let mut out = String::new();
        let mut i: usize = 0;
        while i < end
            invariant
                g == parts@.map_values(|s: String| s@),
                end == parts.len() - 1,
                i <= end,
                out@ == g.subrange(0, i as int).flatten(),
            decreases end - i,
        {
            out.append(parts[i].as_str());
            proof {
                assert(g.subrange(0, i + 1) =~= g.subrange(0, i as int).push(g[i as int]));
            }
            i = i + 1;
        }
        proof {
            lemma_tail_is_suffix(g, end as int);
            assert(g.drop_last() =~= g.subrange(0, end as int));
            let last = g.subrange(end as int, g.len() as int);
            assert(last =~= seq![g[end as int]]);
            last.lemma_flatten_one_element();
            assert(g[end as int] == parts@[end as int]@);
        }
        self.buffer = out;
    }

    /// The text held.
    pub fn value(&self) -> (s: &str)
        ensures
            s@ == self.text(),
    {
        self.buffer.as_str()
    }

    /// Empties the buffer; the limit is kept.
    pub fn clear(&mut self)
        ensures
            final(self).limit() == old(self).limit(),
            final(self).text() == Seq::<char>::empty(),
    {
        self.buffer = String::new();
    }
}

impl Default for StringRingBuffer {
    fn default() -> (b: Self)
        ensures
            b.text() == Seq::<char>::empty(),
            b.limit() == 0,
    {
        StringRingBuffer::new(0)
    }
}

/// Options of a text trigger.
#[derive(Clone, Copy, Debug, PartialEq, Eq, Structural)]
pub struct OnTextOptions {
    /// Erase the typed trigger before inserting the replacement.
    pub erase: bool,
    /// Paste replacement text through the clipboard instead of typing it.
    pub use_clipboard_for_text: bool,
    /// Save the clipboard before a paste and restore it after.
    pub save_restore_clipboard: bool,
}

impl Default for OnTextOptions {
    fn default() -> (r: Self)
        ensures
            r == (OnTextOptions {
                erase: true,
                use_clipboard_for_text: false,
                save_restore_clipboard: true,
            }),
    {
        OnTextOptions { erase: true, use_clipboard_for_text: false, save_restore_clipboard: true }
    }
}

/// The number of grapheme clusters of a text.
pub fn grapheme_count(s: &str) -> (n: usize)
    ensures
        n == grapheme_clusters(s@).len(),
{
    let parts = graphemes(s);
    proof {
        assert(parts@.map_values(|g: String| g@).len() == parts@.len());
    }
    parts.len()
}

/// The largest number of grapheme clusters among the triggers, or 0.
pub open spec fn max_cluster_count(triggers: Seq<Seq<char>>, n: int) -> nat
    decreases n,
{
    if n <= 0 {
        0
    } else {
        let a = max_cluster_count(triggers, n - 1);
        let b = grapheme_clusters(triggers[n - 1]).len();
        if a < b {
            b
        } else {
            a
        }
    }
}

/// The texts of some strings.
pub open spec fn texts_of(v: Seq<String>) -> Seq<Seq<char>> {
    v.map_values(|s: String| s@)
}

/// The largest number of grapheme clusters among the triggers, or 0: the
/// size the typed-text buffer needs.
pub fn max_grapheme_count(triggers: &Vec<String>) -> (n: usize)
    ensures
        n == max_cluster_count(texts_of(triggers@), triggers.len() as int),
{
    let mut best: usize = 0;
    let mut i: usize = 0;
    while i < triggers.len()
        invariant
            i <= triggers.len(),
            best == max_cluster_count(texts_of(triggers@), i as int),
        decreases triggers.len() - i,
    {
        let c = grapheme_count(triggers[i].as_str());
        if c > best {
            best = c;
        }
        i = i + 1;
    }
    best
}

/// Whether `text` ends with `suffix`.
pub fn ends_with(text: &str, suffix: &str) -> (b: bool)
    ensures
        b == suffix@.is_suffix_of(text@),
{
    let n = text.unicode_len();
    let m = suffix.unicode_len();
    if m > n {
        return false;
    }
    let mut i: usize = 0;
    while i < m
        invariant
            n == text@.len(),
            m == suffix@.len(),
            m <= n,
            i <= m,
            forall|k: int| 0 <= k < i ==> suffix@[k] == text@[n - m + k],
        decreases m - i,
    {
        if suffix.get_char(i) != text.get_char(n - m + i) {
            assert(suffix@ != text@.subrange(n - m, n as int)) by {
                assert(text@.subrange(n - m, n as int)[i as int] == text@[n - m + i]);
            }
            return false;
        }
        i = i + 1;
    }
    assert(suffix@ =~= text@.subrange(n - m, n as int));
    true
}

/// The position of the first trigger that the typed text ends with: with
/// the triggers ordered longest first, the longest trigger typed.
pub fn find_trigger(typed: &str, triggers: &Vec<String>) -> (r: Option<usize>)
    ensures
        match r {
            Some(i) => i < triggers.len() && triggers@[i as int]@.is_suffix_of(typed@) && forall|k: int|
                0 <= k < i ==> !(#[trigger] triggers@[k])@.is_suffix_of(typed@),
            None => forall|k: int| 0 <= k < triggers.len() ==> !(#[trigger] triggers@[k])@.is_suffix_of(typed@),
        },
{
    let mut i: usize = 0;
    while i < triggers.len()
        invariant
            i <= triggers.len(),
            forall|k: int| 0 <= k < i ==> !(#[trigger] triggers@[k])@.is_suffix_of(typed@),
        decreases triggers.len() - i,
    {
        if ends_with(typed, triggers[i].as_str()) {
            return Some(i);
        }
        i = i + 1;
    }
    None
}

} // verus!
