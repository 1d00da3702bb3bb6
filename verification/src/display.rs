//! Text rendering of records, lists and maps: `(a: 1, b: 2)`, `[1, 2]`,
//! `{k: v, k2: v2}`. Values arrive already rendered as text.

use vstd::prelude::*;


verus! {

/// The separator between rendered items: a comma and a space.
pub open spec fn separator() -> Seq<char> {
    seq![',', ' ']
}

/// Items joined with `", "`.
pub open spec fn join(items: Seq<Seq<char>>) -> Seq<char>
    decreases items.len(),
{
    if items.len() == 0 {
        Seq::empty()
    } else if items.len() == 1 {
        items[0]
    } else {
        join(items.drop_last()) + separator() + items.last()
    }
}

/// One `name: value` entry.
pub open spec fn field_text(name: Seq<char>, value: Seq<char>) -> Seq<char> {
    name + seq![':', ' '] + value
}

/// Accumulates `name: value` fields separated by `", "`, and renders them
/// in parentheses.
#[derive(Debug)]
pub struct DisplayFields {
    buffer: String,
    not_first: bool,
}

impl DisplayFields {
    /// The fields rendered so far, without the surrounding parentheses.
    pub closed spec fn text(&self) -> Seq<char> {
        self.buffer@
    }

    /// Whether a field has been rendered already.
    pub closed spec fn started(&self) -> bool {
        self.not_first
    }

    /// The text of these fields with a further field.
    pub open spec fn text_with(&self, name: Seq<char>, value: Seq<char>) -> Seq<char> {
        if self.started() {
            self.text() + separator() + field_text(name, value)
        } else {
            field_text(name, value)
        }
    }

    /// Holds when no field has been rendered and the text is empty, or some
    /// field has been rendered.
    pub open spec fn wf(&self) -> bool {
        !self.started() ==> self.text() == Seq::<char>::empty()
    }

    /// An empty set of fields.
    pub fn new() -> (r: Self)
        ensures
            r.text() == Seq::<char>::empty(),
            !r.started(),
            r.wf(),
    {
        DisplayFields { buffer: String::new(), not_first: false }
    }

    fn maybe_space(&mut self)
        ensures
            final(self).started(),
            final(self).text() == if old(self).started() {
                old(self).text() + separator()
            } else {
                old(self).text()
            },
    {
        if self.not_first {
            self.buffer.append(", ");
            proof {
                reveal_strlit(", ");
            }
        } else {
            self.not_first = true;
        }
    }

    /// Adds the field `name: value`.
    pub fn display(self, name: &str, value: &str) -> (r: Self)
        requires
            self.wf(),
        ensures
            r.started(),
            r.wf(),
            r.text() == self.text_with(name@, value@),
    {
        let ghost before = self.text_with(name@, value@);
        let ghost started = self.started();
        let ghost prev = self.text();
        let mut fields = self;
        fields.maybe_space();
        fields.buffer.append(name);
        fields.buffer.append(": ");
        fields.buffer.append(value);
        proof {
            reveal_strlit(": ");
        }
        assert(fields.buffer@ =~= before) by {
            if started {
                assert(before =~= prev + separator() + name@ + seq![':', ' '] + value@);
            }
        }
        fields
    }

    /// Adds the field `name: value` when a value is present.
    pub fn display_if_some(self, name: &str, value: Option<&str>) -> (r: Self)
        requires
            self.wf(),
        ensures
            r.wf(),
            value is None ==> r.text() == self.text() && r.started() == self.started(),
            value is Some ==> r.started() && r.text() == self.text_with(name@, value->0@),
    {
        match value {
            Some(v) => self.display(name, v),
            None => self,
        }
    }

    /// Appends the fields, in parentheses, to `out`.
    pub fn finish(self, out: &mut String)
        ensures
            final(out)@ == old(out)@ + seq!['('] + self.text() + seq![')'],
    {
        out.append("(");
        out.append(self.buffer.as_str());
        out.append(")");
        proof {
            reveal_strlit("(");
            reveal_strlit(")");
        }
        assert(final(out)@ =~= old(out)@ + seq!['('] + self.text() + seq![')']);
    }

    /// The fields in parentheses.
    pub fn finish_as_string(self) -> (s: String)
        ensures
            s@ == seq!['('] + self.text() + seq![')'],
    {
        let mut s = String::new();
        self.finish(&mut s);
        s
    }
}

impl Default for DisplayFields {
    fn default() -> (r: Self)
        ensures
            r.text() == Seq::<char>::empty(),
            !r.started(),
    {
        DisplayFields { buffer: String::new(), not_first: false }
    }
}

/// Rendered items to be shown as a list.
#[derive(Debug)]
pub struct DisplayList {
    items: Vec<String>,
}

/// Rendered key and value pairs to be shown as a map.
#[derive(Debug)]
pub struct DisplayMap(pub Vec<(String, String)>);

/// The rendered texts of some items.
pub open spec fn texts(items: Seq<String>) -> Seq<Seq<char>> {
    items.map_values(|s: String| s@)
}

/// The `key: value` texts of some pairs.
pub open spec fn entry_texts(entries: Seq<(String, String)>) -> Seq<Seq<char>> {
    entries.map_values(|e: (String, String)| field_text(e.0@, e.1@))
}

/// Appends `items` joined with `", "`.
fn append_joined(out: &mut String, items: &Vec<String>)
    ensures
        final(out)@ == old(out)@ + join(texts(items@)),
{
    let ghost start = old(out)@;
    let mut i: usize = 0;
    while i < items.len()
        invariant
            i <= items.len(),
            out@ == start + join(texts(items@.take(i as int))),
        decreases items.len() - i,
    {
        if i > 0 {
            out.append(", ");
            proof {
                reveal_strlit(", ");
            }
        }
        out.append(items[i].as_str());
        proof {
            let t = texts(items@.take(i as int + 1));
            assert(t.drop_last() =~= texts(items@.take(i as int)));
            assert(t.last() == items@[i as int]@);
            if i == 0 {
                assert(t.len() == 1);
            }
        }
        assert(out@ =~= start + join(texts(items@.take(i as int + 1))));
        i = i + 1;
    }
    assert(items@.take(items.len() as int) =~= items@);
}

impl DisplayList {
    /// The rendered items.
    pub closed spec fn items(&self) -> Seq<Seq<char>> {
        texts(self.items@)
    }

    /// The list text: `[a, b, c]`.
    pub fn render(&self) -> (s: String)
        ensures
            s@ == seq!['['] + join(self.items()) + seq![']'],
    {
        let mut s = String::new();
        s.append("[");
        append_joined(&mut s, &self.items);
        s.append("]");
        proof {
            reveal_strlit("[");
            reveal_strlit("]");
        }
        assert(s@ =~= seq!['['] + join(self.items()) + seq![']']);
        s
    }
}

impl DisplayMap {
    /// The list text: `{k: v, k2: v2}`.
    pub fn render(&self) -> (s: String)
        ensures
            s@ == seq!['{'] + join(entry_texts(self.0@)) + seq!['}'],
    {
        let ghost entries = self.0@;
        let mut s = String::new();
        s.append("{");
        proof {
            reveal_strlit("{");
        }
        let mut i: usize = 0;
        while i < self.0.len()
            invariant
                i <= self.0.len(),
                entries == self.0@,
                s@ == seq!['{'] + join(entry_texts(entries.take(i as int))),
            decreases self.0.len() - i,
        {
            if i > 0 {
                s.append(", ");
                proof {
                    reveal_strlit(", ");
                }
            }
            s.append(self.0[i].0.as_str());
            s.append(": ");
            s.append(self.0[i].1.as_str());
            proof {
                reveal_strlit(": ");
                let t = entry_texts(entries.take(i as int + 1));
                assert(t.drop_last() =~= entry_texts(entries.take(i as int)));
                assert(t.last() == field_text(entries[i as int].0@, entries[i as int].1@));
                if i == 0 {
                    assert(t.len() == 1);
                }
            }
            assert(s@ =~= seq!['{'] + join(entry_texts(entries.take(i as int + 1))));
            i = i + 1;
        }
        assert(entries.take(self.0.len() as int) =~= entries);
        s.append("}");
        proof {
            reveal_strlit("}");
        }
        assert(s@ =~= seq!['{'] + join(entry_texts(self.0@)) + seq!['}']);
        s
    }
}

/// A list of rendered items.
pub fn display_list(v: Vec<String>) -> (l: DisplayList)
    ensures
        l.items() == texts(v@),
{
    DisplayList { items: v }
}

/// A map of rendered key and value pairs.
pub fn display_map(entries: Vec<(String, String)>) -> (m: DisplayMap)
    ensures
        m.0 == entries,
{
    DisplayMap(entries)
}

} // verus!
