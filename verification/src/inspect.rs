//! How the console renders script values: strings quoted and escaped,
//! arrays as `[ a, b ]`, objects as `{ k: v }`, functions by kind and name,
//! and an indented multi-line form for arrays and objects.

use vstd::prelude::*;

use crate::text::push_char;

verus! {

/// A script value as the console sees it, gathered from the script engine.
#[derive(Debug)]
pub enum Inspected {
    /// A value shown as a fixed text: `undefined`, `null`, a boolean, a
    /// number, `[Symbol]`, `[Promise]`, the result of a custom `toString`...
    Shown(String),
    /// A string value.
    Str(String),
    /// An array and its elements.
    Array(Vec<Inspected>),
    /// A function or constructor: the name of its kind and its own name,
    /// empty when anonymous.
    Function(String, String),
    /// An object and its fields, in order.
    Object(Vec<(String, Inspected)>),
}

/// Whether a character is a control code (general category `Cc`).
pub open spec fn is_control(c: char) -> bool {
    (c as u32) <= 0x1f || (0x7f <= (c as u32) && (c as u32) <= 0x9f)
}

/// The lowercase hexadecimal digit of `d`.
pub open spec fn hex_digit(d: nat) -> char {
    if d < 10 {
        (48 + d) as char
    } else {
        (87 + d) as char
    }
}

/// The escape `\xHH` of a byte.
pub open spec fn byte_escape(b: nat) -> Seq<char> {
    seq!['\\', 'x', hex_digit(b / 16), hex_digit(b % 16)]
}

/// A character as it appears inside a quoted string: backslash, quote and
/// the usual control characters get a backslash escape, other control
/// characters become `\xHH` for each byte of their UTF-8 encoding.
pub open spec fn escaped_char(c: char) -> Seq<char> {
    if c == '\\' {
        seq!['\\', '\\']
    } else if c == '\'' {
        seq!['\\', '\'']
    } else if c == '\n' {
        seq!['\\', 'n']
    } else if c == '\r' {
        seq!['\\', 'r']
    } else if c == '\t' {
        seq!['\\', 't']
    } else if c == '\0' {
        seq!['\\', '0']
    } else if is_control(c) {
        if (c as u32) < 0x80 {
            byte_escape(c as nat)
        } else {
            byte_escape(0xc2) + byte_escape(c as nat)
        }
    } else {
        seq![c]
    }
}

/// A text with each character escaped.
pub open spec fn escaped(s: Seq<char>) -> Seq<char>
    decreases s.len(),
{
    if s.len() == 0 {
        Seq::empty()
    } else {
        escaped(s.drop_last()) + escaped_char(s.last())
    }
}

/// A text escaped and put between single quotes.
pub open spec fn quoted(s: Seq<char>) -> Seq<char> {
    seq!['\''] + escaped(s) + seq!['\'']
}

/// `n` spaces.
pub open spec fn spaces(n: nat) -> Seq<char> {
    Seq::new(n, |i: int| ' ')
}

/// The one-line text of a value.
pub open spec fn value_text(v: Inspected) -> Seq<char>
    decreases v, 0int,
{
    match v {
        Inspected::Shown(s) => s@,
        Inspected::Str(s) => quoted(s@),
        Inspected::Array(items) => if items.len() == 0 {
            seq!['[', ']']
        } else {
            seq!['[', ' '] + elements_text(items@, items@.len() as int) + seq![' ', ']']
        },
        Inspected::Function(kind, name) => if name@.len() == 0 {
            seq!['['] + kind@ + seq![' ', '(', 'a', 'n', 'o', 'n', 'y', 'm', 'o', 'u', 's', ')', ']']
        } else {
            seq!['['] + kind@ + seq![':', ' '] + name@ + seq![']']
        },
        Inspected::Object(fields) => if fields.len() == 0 {
            seq!['{', '}']
        } else {
            seq!['{', ' '] + fields_text(fields@, fields@.len() as int) + seq![' ', '}']
        },
    }
}

/// The one-line texts of the first `n` elements, joined with `", "`.
pub open spec fn elements_text(s: Seq<Inspected>, n: int) -> Seq<char>
    decreases s, n,
{
    if n <= 0 || n > s.len() {
        Seq::empty()
    } else if n == 1 {
        value_text(s[0])
    } else {
        elements_text(s, n - 1) + seq![',', ' '] + value_text(s[n - 1])
    }
}

/// The first `n` fields as `key: value`, joined with `", "`.
pub open spec fn fields_text(s: Seq<(String, Inspected)>, n: int) -> Seq<char>
    decreases s, n,
{
    if n <= 0 || n > s.len() {
        Seq::empty()
    } else if n == 1 {
        s[0].0@ + seq![':', ' '] + value_text(s[0].1)
    } else {
        fields_text(s, n - 1) + seq![',', ' '] + s[n - 1].0@ + seq![':', ' '] + value_text(
            s[n - 1].1,
        )
    }
}

/// The multi-line text of a value at indentation `indent`: non-empty arrays
/// and objects put one entry per line, two spaces deeper, and close on a
/// line of their own; other values keep their one-line text.
pub open spec fn pretty_text(v: Inspected, indent: nat) -> Seq<char>
    decreases v, 0int,
{
    match v {
        Inspected::Array(items) => if items.len() == 0 {
            seq!['[', ']']
        } else {
            seq!['[', '\n'] + pretty_elements_text(items@, items@.len() as int, indent) + seq!['\n']
                + spaces(indent) + seq![']']
        },
        Inspected::Object(fields) => if fields.len() == 0 {
            seq!['{', '}']
        } else {
            seq!['{', '\n'] + pretty_fields_text(fields@, fields@.len() as int, indent) + seq!['\n']
                + spaces(indent) + seq!['}']
        },
        _ => value_text(v),
    }
}

/// The first `n` elements, each on its own line at `indent + 2`.
pub open spec fn pretty_elements_text(s: Seq<Inspected>, n: int, indent: nat) -> Seq<char>
    decreases s, n,
{
    if n <= 0 || n > s.len() {
        Seq::empty()
    } else if n == 1 {
        spaces(indent + 2) + pretty_text(s[0], indent + 2)
    } else {
        pretty_elements_text(s, n - 1, indent) + seq![',', '\n'] + spaces(indent + 2) + pretty_text(
            s[n - 1],
            indent + 2,
        )
    }
}

/// The first `n` fields, each as `key: value` on its own line at
/// `indent + 2`.
pub open spec fn pretty_fields_text(s: Seq<(String, Inspected)>, n: int, indent: nat) -> Seq<char>
    decreases s, n,
{
    if n <= 0 || n > s.len() {
        Seq::empty()
    } else if n == 1 {
        spaces(indent + 2) + s[0].0@ + seq![':', ' '] + pretty_text(s[0].1, indent + 2)
    } else {
        pretty_fields_text(s, n - 1, indent) + seq![',', '\n'] + spaces(indent + 2) + s[n - 1].0@
            + seq![':', ' '] + pretty_text(s[n - 1].1, indent + 2)
    }
}

/// How deeply arrays and objects nest in a value.
pub open spec fn depth(v: Inspected) -> nat
    decreases v, 0int,
{
    match v {
        Inspected::Array(items) => 1 + elements_depth(items@, items@.len() as int),
        Inspected::Object(fields) => 1 + fields_depth(fields@, fields@.len() as int),
        _ => 0,
    }
}

/// The deepest nesting among the first `n` elements.
pub open spec fn elements_depth(s: Seq<Inspected>, n: int) -> nat
    decreases s, n,
{
    if n <= 0 || n > s.len() {
        0
    } else {
        let a = elements_depth(s, n - 1);
        let b = depth(s[n - 1]);
        if a < b {
            b
        } else {
            a
        }
    }
}

/// The deepest nesting among the values of the first `n` fields.
pub open spec fn fields_depth(s: Seq<(String, Inspected)>, n: int) -> nat
    decreases s, n,
{
    if n <= 0 || n > s.len() {
        0
    } else {
        let a = fields_depth(s, n - 1);
        let b = depth(s[n - 1].1);
        if a < b {
            b
        } else {
            a
        }
    }
}

/// The element at `i` nests no deeper than the deepest of the first `n`.
proof fn lemma_elements_depth(s: Seq<Inspected>, n: int, i: int)
    requires
        0 <= i < n <= s.len(),
    ensures
        depth(s[i]) <= elements_depth(s, n),
    decreases n,
{
    if i < n - 1 {
        lemma_elements_depth(s, n - 1, i);
    }
}

/// The field at `i` nests no deeper than the deepest of the first `n`.
proof fn lemma_fields_depth(s: Seq<(String, Inspected)>, n: int, i: int)
    requires
        0 <= i < n <= s.len(),
    ensures
        depth(s[i].1) <= fields_depth(s, n),
    decreases n,
{
    if i < n - 1 {
        lemma_fields_depth(s, n - 1, i);
    }
}

/// The lowercase hexadecimal digit of `d`.
fn hex(d: u8) -> (c: char)
    requires
        d < 16,
    ensures
        c == hex_digit(d as nat),
{
    if d < 10 {
        (48u8 + d) as char
    } else {
        (87u8 + d) as char
    }
}

/// Appends the escape `\xHH` of a byte.
fn push_byte_escape(out: &mut String, b: u8)
    ensures
        final(out)@ == old(out)@ + byte_escape(b as nat),
{
    push_char(out, '\\');
    push_char(out, 'x');
    push_char(out, hex(b / 16));
    push_char(out, hex(b % 16));
    assert(final(out)@ =~= old(out)@ + byte_escape(b as nat));
}

/// Appends a character as it appears inside a quoted string.
fn push_escaped_char(out: &mut String, c: char)
    ensures
        final(out)@ == old(out)@ + escaped_char(c),
{
    let ghost start = out@;
    if c == '\\' {
        push_char(out, '\\');
        push_char(out, '\\');
    } else if c == '\'' {
        push_char(out, '\\');
        push_char(out, '\'');
    } else if c == '\n' {
        push_char(out, '\\');
        push_char(out, 'n');
    } else if c == '\r' {
        push_char(out, '\\');
        push_char(out, 'r');
    } else if c == '\t' {
        push_char(out, '\\');
        push_char(out, 't');
    } else if c == '\0' {
        push_char(out, '\\');
        push_char(out, '0');
    } else {
        let code = c as u32;
        if code <= 0x1f || (0x7f <= code && code <= 0x9f) {
            if code < 0x80 {
                push_byte_escape(out, code as u8);
            } else {
                push_byte_escape(out, 0xc2);
                push_byte_escape(out, code as u8);
            }
        } else {
            push_char(out, c);
        }
    }
    assert(out@ =~= start + escaped_char(c));
}

/// A string quoted with single quotes, with backslash, quote and control
/// characters escaped.
pub fn inspect_string(value: &str) -> (r: String)
    ensures
        r@ == quoted(value@),
{
    let mut out = String::new();
    push_char(&mut out, '\'');
    let n = value.unicode_len();
    let mut i: usize = 0;
    while i < n
        invariant
            n == value@.len(),
            i <= n,
            out@ == seq!['\''] + escaped(value@.subrange(0, i as int)),
        decreases n - i,
    {
        let c = value.get_char(i);
        push_escaped_char(&mut out, c);
        proof {
            let next = value@.subrange(0, i + 1);
            assert(next.drop_last() =~= value@.subrange(0, i as int));
            assert(next.last() == c);
        }
        i = i + 1;
    }
    push_char(&mut out, '\'');
    assert(value@.subrange(0, n as int) =~= value@);
    assert(out@ =~= quoted(value@));
    out
}

/// Appends `n` spaces.
fn push_spaces(out: &mut String, n: usize)
    ensures
        final(out)@ == old(out)@ + spaces(n as nat),
{
    let mut i: usize = 0;
    while i < n
        invariant
            i <= n,
            out@ == old(out)@ + spaces(i as nat),
        decreases n - i,
    {
        push_char(out, ' ');
        i = i + 1;
        assert(out@ =~= old(out)@ + spaces(i as nat));
    }
}

/// Appends a text given as a sequence of characters held in a string.
fn push_text(out: &mut String, s: &str)
    ensures
        final(out)@ == old(out)@ + s@,
{
    out.append(s);
}

/// The one-line text of a value, as the console prints it inside other
/// values.
pub fn print_value(value: &Inspected) -> (r: String)
    ensures
        r@ == value_text(*value),
    decreases value,
{
    match value {
        Inspected::Shown(s) => s.clone(),
        Inspected::Str(s) => inspect_string(s.as_str()),
        Inspected::Array(items) => {
            if items.len() == 0 {
                let mut out = String::new();
                push_char(&mut out, '[');
                push_char(&mut out, ']');
                assert(out@ =~= value_text(*value));
                return out;
            }
            let mut out = String::new();
            push_char(&mut out, '[');
            push_char(&mut out, ' ');
            let mut i: usize = 0;
            while i < items.len()
                invariant
                    *value == Inspected::Array(*items),
                    i <= items.len(),
                    out@ == seq!['[', ' '] + elements_text(items@, i as int),
                decreases items.len() - i,
            {
                proof {
                    vstd::std_specs::vec::axiom_vec_index_decreases(*items, i as int);
                    assert(decreases_to!(*value => (*value)->Array_0));
                }
                let t = print_value(&items[i]);
                if i > 0 {
                    push_char(&mut out, ',');
                    push_char(&mut out, ' ');
                }
                push_text(&mut out, t.as_str());
                proof {
                    if i == 0 {
                        assert(elements_text(items@, 1) == value_text(items@[0]));
                    }
                }
                i = i + 1;
                assert(out@ =~= seq!['[', ' '] + elements_text(items@, i as int));
            }
            push_char(&mut out, ' ');
            push_char(&mut out, ']');
            assert(out@ =~= value_text(*value));
            out
        },
        Inspected::Function(kind, name) => {
            let mut out = String::new();
            push_char(&mut out, '[');
            push_text(&mut out, kind.as_str());
            if name.as_str().unicode_len() == 0 {
                push_text(&mut out, " (anonymous)]");
                proof {
                    reveal_strlit(" (anonymous)]");
                }
            } else {
                push_char(&mut out, ':');
                push_char(&mut out, ' ');
                push_text(&mut out, name.as_str());
                push_char(&mut out, ']');
            }
            assert(out@ =~= value_text(*value));
            out
        },
        Inspected::Object(fields) => {
            if fields.len() == 0 {
                let mut out = String::new();
                push_char(&mut out, '{');
                push_char(&mut out, '}');
                assert(out@ =~= value_text(*value));
                return out;
            }
            let mut out = String::new();
            push_char(&mut out, '{');
            push_char(&mut out, ' ');
            let mut i: usize = 0;
            while i < fields.len()
                invariant
                    *value == Inspected::Object(*fields),
                    i <= fields.len(),
                    out@ == seq!['{', ' '] + fields_text(fields@, i as int),
                decreases fields.len() - i,
            {
                proof {
                    vstd::std_specs::vec::axiom_vec_index_decreases(*fields, i as int);
                    assert(decreases_to!(*value => (*value)->Object_0));
                }
                let t = print_value(&fields[i].1);
                if i > 0 {
                    push_char(&mut out, ',');
                    push_char(&mut out, ' ');
                }
                push_text(&mut out, fields[i].0.as_str());
                push_char(&mut out, ':');
                push_char(&mut out, ' ');
                push_text(&mut out, t.as_str());
                i = i + 1;
                assert(out@ =~= seq!['{', ' '] + fields_text(fields@, i as int));
            }
            push_char(&mut out, ' ');
            push_char(&mut out, '}');
            assert(out@ =~= value_text(*value));
            out
        },
    }
}


/// The multi-line text of a value at indentation `indent`, as the console's
/// `inspect` prints it.
pub fn print_value_pretty(value: &Inspected, indent: usize) -> (r: String)
    requires
        indent + 2 * depth(*value) <= usize::MAX,
    ensures
        r@ == pretty_text(*value, indent as nat),
    decreases value,
{
    match value {
        Inspected::Array(items) => {
            if items.len() == 0 {
                let mut out = String::new();
                push_char(&mut out, '[');
                push_char(&mut out, ']');
                assert(out@ =~= pretty_text(*value, indent as nat));
                return out;
            }
            let mut out = String::new();
            push_char(&mut out, '[');
            push_char(&mut out, '\n');
            let mut i: usize = 0;
            while i < items.len()
                invariant
                    *value == Inspected::Array(*items),
                    indent + 2 * depth(*value) <= usize::MAX,
                    i <= items.len(),
                    out@ == seq!['[', '\n'] + pretty_elements_text(items@, i as int, indent as nat),
                decreases items.len() - i,
            {
                proof {
                    vstd::std_specs::vec::axiom_vec_index_decreases(*items, i as int);
                    assert(decreases_to!(*value => (*value)->Array_0));
                    lemma_elements_depth(items@, items@.len() as int, i as int);
                }
                let t = print_value_pretty(&items[i], indent + 2);
                if i > 0 {
                    push_char(&mut out, ',');
                    push_char(&mut out, '\n');
                }
                push_spaces(&mut out, indent + 2);
                push_text(&mut out, t.as_str());
                i = i + 1;
                assert(out@ =~= seq!['[', '\n'] + pretty_elements_text(items@, i as int, indent as nat));
            }
            push_char(&mut out, '\n');
            push_spaces(&mut out, indent);
            push_char(&mut out, ']');
            assert(out@ =~= pretty_text(*value, indent as nat));
            out
        },
        Inspected::Object(fields) => {
            if fields.len() == 0 {
                let mut out = String::new();
                push_char(&mut out, '{');
                push_char(&mut out, '}');
                assert(out@ =~= pretty_text(*value, indent as nat));
                return out;
            }
            let mut out = String::new();
            push_char(&mut out, '{');
            push_char(&mut out, '\n');
            let mut i: usize = 0;
            while i < fields.len()
                invariant
                    *value == Inspected::Object(*fields),
                    indent + 2 * depth(*value) <= usize::MAX,
                    i <= fields.len(),
                    out@ == seq!['{', '\n'] + pretty_fields_text(fields@, i as int, indent as nat),
                decreases fields.len() - i,
            {
                proof {
                    vstd::std_specs::vec::axiom_vec_index_decreases(*fields, i as int);
                    assert(decreases_to!(*value => (*value)->Object_0));
                    lemma_fields_depth(fields@, fields@.len() as int, i as int);
                }
                let t = print_value_pretty(&fields[i].1, indent + 2);
                if i > 0 {
                    push_char(&mut out, ',');
                    push_char(&mut out, '\n');
                }
                push_spaces(&mut out, indent + 2);
                push_text(&mut out, fields[i].0.as_str());
                push_char(&mut out, ':');
                push_char(&mut out, ' ');
                push_text(&mut out, t.as_str());
                i = i + 1;
                assert(out@ =~= seq!['{', '\n'] + pretty_fields_text(fields@, i as int, indent as nat));
            }
            push_char(&mut out, '\n');
            push_spaces(&mut out, indent);
            push_char(&mut out, '}');
            assert(out@ =~= pretty_text(*value, indent as nat));
            out
        },
        _ => print_value(value),
    }
}

/// The text of an argument of `print`: a string as it is, anything else as
/// its one-line text.
pub open spec fn argument_text(v: Inspected) -> Seq<char> {
    match v {
        Inspected::Str(s) => s@,
        _ => value_text(v),
    }
}

/// The texts of the first `n` arguments, joined with `sep`.
pub open spec fn joined_arguments(args: Seq<Inspected>, n: int, sep: Seq<char>, pretty: bool) -> Seq<char>
    decreases n,
{
    if n <= 0 {
        Seq::empty()
    } else {
        let t = if pretty {
            pretty_text(args[n - 1], 0)
        } else {
            argument_text(args[n - 1])
        };
        if n == 1 {
            t
        } else {
            joined_arguments(args, n - 1, sep, pretty) + sep + t
        }
    }
}

/// The arguments of `print`, `println` and `log`, joined with spaces:
/// strings as they are, other values as their one-line text.
pub fn args_to_string(args: &Vec<Inspected>) -> (r: String)
    ensures
        r@ == joined_arguments(args@, args@.len() as int, seq![' '], false),
{
    let mut out = String::new();
    let mut i: usize = 0;
    while i < args.len()
        invariant
            i <= args.len(),
            out@ == joined_arguments(args@, i as int, seq![' '], false),
        decreases args.len() - i,
    {
        if i > 0 {
            push_char(&mut out, ' ');
        }
        match &args[i] {
            Inspected::Str(s) => push_text(&mut out, s.as_str()),
            other => {
                let t = print_value(other);
                push_text(&mut out, t.as_str());
            },
        }
        i = i + 1;
        assert(out@ =~= joined_arguments(args@, i as int, seq![' '], false));
    }
    out
}

/// The arguments of `inspect`, each in its multi-line text, one after the
/// other on new lines.
pub fn args_to_pretty_string(args: &Vec<Inspected>) -> (r: String)
    requires
        forall|i: int| 0 <= i < args.len() ==> 2 * depth(#[trigger] args@[i]) <= usize::MAX,
    ensures
        r@ == joined_arguments(args@, args@.len() as int, seq!['\n'], true),
{
    let mut out = String::new();
    let mut i: usize = 0;
    while i < args.len()
        invariant
            i <= args.len(),
            forall|k: int| 0 <= k < args.len() ==> 2 * depth(#[trigger] args@[k]) <= usize::MAX,
            out@ == joined_arguments(args@, i as int, seq!['\n'], true),
        decreases args.len() - i,
    {
        if i > 0 {
            push_char(&mut out, '\n');
        }
        let t = print_value_pretty(&args[i], 0);
        push_text(&mut out, t.as_str());
        i = i + 1;
        assert(out@ =~= joined_arguments(args@, i as int, seq!['\n'], true));
    }
    out
}

} // verus!
