//! Renders a normalized module as a diagram description: an opening line with
//! the module's id, a fixed shape line, a blank line, one line per resource
//! with its id as a quoted string literal, and a closing brace.
//!
//! Quoting keeps ids with special characters (such as `.`) syntactically
//! valid diagram identifiers; the escaping is the JSON string-literal one.

use vstd::prelude::*;
use vstd::string::StrSliceExecFns;
use vstd::string::StringExecFns;

use crate::model::Module;
use crate::model::ModuleView;
use crate::model::ResourceView;
use crate::strutil::push_char;

verus! {

/// The lowercase hexadecimal digit for a value below sixteen.
pub open spec fn hex_digit(n: int) -> char {
    if n == 0 {
        '0'
    } else if n == 1 {
        '1'
    } else if n == 2 {
        '2'
    } else if n == 3 {
        '3'
    } else if n == 4 {
        '4'
    } else if n == 5 {
        '5'
    } else if n == 6 {
        '6'
    } else if n == 7 {
        '7'
    } else if n == 8 {
        '8'
    } else if n == 9 {
        '9'
    } else if n == 10 {
        'a'
    } else if n == 11 {
        'b'
    } else if n == 12 {
        'c'
    } else if n == 13 {
        'd'
    } else if n == 14 {
        'e'
    } else {
        'f'
    }
}

/// How one character appears inside a JSON string literal: quotes and
/// backslashes are escaped, the named control characters get their short
/// escapes, other control characters a hexadecimal escape, and everything
/// else stands for itself.
pub open spec fn escape_char(c: char) -> Seq<char> {
    if c == '"' {
        seq!['\\', '"']
    } else if c == '\\' {
        seq!['\\', '\\']
    } else if c == '\u{8}' {
        seq!['\\', 'b']
    } else if c == '\t' {
        seq!['\\', 't']
    } else if c == '\n' {
        seq!['\\', 'n']
    } else if c == '\u{c}' {
        seq!['\\', 'f']
    } else if c == '\r' {
        seq!['\\', 'r']
    } else if (c as u32) < 32 {
        seq!['\\', 'u', '0', '0', hex_digit((c as u32) as int / 16), hex_digit((c as u32) as int % 16)]
    } else {
        seq![c]
    }
}

/// A text with each character escaped for a JSON string literal.
pub open spec fn escaped(s: Seq<char>) -> Seq<char>
    decreases s.len(),
{
    if s.len() == 0 {
        Seq::empty()
    } else {
        escape_char(s[0]) + escaped(s.drop_first())
    }
}

/// A text as a JSON string literal: double quotes around the escaped text.
pub open spec fn json_quoted(s: Seq<char>) -> Seq<char> {
    seq!['"'] + escaped(s) + seq!['"']
}

proof fn lemma_escaped_push(s: Seq<char>, c: char)
    ensures
        escaped(s.push(c)) == escaped(s) + escape_char(c),
    decreases s.len(),
{
    let t = s.push(c);
    assert(t.len() == s.len() + 1);
    if s.len() == 0 {
        assert(t[0] == c);
        assert(t.drop_first() =~= Seq::<char>::empty());
        assert(escaped(t.drop_first()) == Seq::<char>::empty());
        assert(escaped(t) =~= escaped(s) + escape_char(c));
    } else {
        lemma_escaped_push(s.drop_first(), c);
        assert(t[0] == s[0]);
        assert(t.drop_first() =~= s.drop_first().push(c));
        assert(escaped(t) == escape_char(s[0]) + (escaped(s.drop_first()) + escape_char(c)));
        assert(escaped(t) =~= escaped(s) + escape_char(c));
    }
}

/// Appends the JSON string-literal escaping of one character.
fn push_escaped(out: &mut String, c: char)
    ensures
        final(out)@ == old(out)@ + escape_char(c),
{
    if c == '"' {
        push_char(out, '\\');
        push_char(out, '"');
    } else if c == '\\' {
        push_char(out, '\\');
        push_char(out, '\\');
    } else if c == '\u{8}' {
        push_char(out, '\\');
        push_char(out, 'b');
    } else if c == '\t' {
        push_char(out, '\\');
        push_char(out, 't');
    } else if c == '\n' {
        push_char(out, '\\');
        push_char(out, 'n');
    } else if c == '\u{c}' {
        push_char(out, '\\');
        push_char(out, 'f');
    } else if c == '\r' {
        push_char(out, '\\');
        push_char(out, 'r');
    } else if (c as u32) < 32 {
        let code = c as u32;
        push_char(out, '\\');
        push_char(out, 'u');
        push_char(out, '0');
        push_char(out, '0');
        push_char(out, hex_digit_exec(code / 16));
        push_char(out, hex_digit_exec(code % 16));
    } else {
        push_char(out, c);
    }
    proof {
        assert(final(out)@ =~= old(out)@ + escape_char(c));
    }
}

/// The lowercase hexadecimal digit for a value below sixteen.
fn hex_digit_exec(n: u32) -> (r: char)
    requires
        n < 16,
    ensures
        r == hex_digit(n as int),
{
    if n == 0 {
        '0'
    } else if n == 1 {
        '1'
    } else if n == 2 {
        '2'
    } else if n == 3 {
        '3'
    } else if n == 4 {
        '4'
    } else if n == 5 {
        '5'
    } else if n == 6 {
        '6'
    } else if n == 7 {
        '7'
    } else if n == 8 {
        '8'
    } else if n == 9 {
        '9'
    } else if n == 10 {
        'a'
    } else if n == 11 {
        'b'
    } else if n == 12 {
        'c'
    } else if n == 13 {
        'd'
    } else if n == 14 {
        'e'
    } else {
        'f'
    }
}

/// A text rendered as a JSON string literal.
pub fn json_quote(s: &str) -> (r: String)
    ensures
        r@ == json_quoted(s@),
{
    let mut out = String::new();
    push_char(&mut out, '"');
    let n = s.unicode_len();
    let mut i: usize = 0;
    while i < n
        invariant
            i <= n,
            n == s@.len(),
            out@ == seq!['"'] + escaped(s@.take(i as int)),
        decreases n - i,
    {
        let c = s.get_char(i);
        push_escaped(&mut out, c);
        proof {
            lemma_escaped_push(s@.take(i as int), c);
            assert(s@.take(i + 1 as int) =~= s@.take(i as int).push(s@[i as int]));
            assert(out@ =~= seq!['"'] + escaped(s@.take(i + 1 as int)));
        }
        i = i + 1;
    }
    push_char(&mut out, '"');
    proof {
        assert(s@.take(n as int) =~= s@);
        assert(out@ =~= json_quoted(s@));
    }
    out
}

/// One resource's line in the diagram: two spaces, the quoted id, a newline.
pub open spec fn d2_line(r: ResourceView) -> Seq<char> {
    "  "@ + json_quoted(r.id) + "\n"@
}

/// The resource lines of the diagram, in the resource list's order.
pub open spec fn d2_lines(rs: Seq<ResourceView>) -> Seq<char>
    decreases rs.len(),
{
    if rs.len() == 0 {
        Seq::empty()
    } else {
        d2_line(rs[0]) + d2_lines(rs.drop_first())
    }
}

/// The whole diagram text for a module.
pub open spec fn d2_render(m: ModuleView) -> Seq<char> {
    m.id + " {\n  shape: package\n\n"@ + d2_lines(m.resources) + "}\n"@
}

proof fn lemma_d2_lines_push(rs: Seq<ResourceView>, r: ResourceView)
    ensures
        d2_lines(rs.push(r)) == d2_lines(rs) + d2_line(r),
    decreases rs.len(),
{
    let t = rs.push(r);
    assert(t.len() == rs.len() + 1);
    if rs.len() == 0 {
        assert(t[0] == r);
        assert(t.drop_first() =~= Seq::<ResourceView>::empty());
        assert(d2_lines(t.drop_first()) == Seq::<char>::empty());
        assert(d2_lines(t) =~= d2_lines(rs) + d2_line(r));
    } else {
        lemma_d2_lines_push(rs.drop_first(), r);
        assert(t[0] == rs[0]);
        assert(t.drop_first() =~= rs.drop_first().push(r));
        assert(d2_lines(t) == d2_line(rs[0]) + (d2_lines(rs.drop_first()) + d2_line(r)));
        assert(d2_lines(t) =~= d2_lines(rs) + d2_line(r));
    }
}

/// Renders the module as diagram text: the id and an opening brace, the
/// fixed shape line, a blank line, one quoted-id line per resource in list
/// order, and a closing brace with a final newline.
pub fn write_to_string(model: &Module) -> (r: String)
    ensures
        r@ == d2_render(model@),
{
    let mut out = String::new();
    out.append(model.id().as_str());
    out.append(" {\n  shape: package\n\n");
    let resources = model.resources();
    let n = resources.len();
    let mut i: usize = 0;
    while i < n
        invariant
            i <= n,
            n == model@.resources.len(),
            resources@.len() == n,
            forall|j: int| 0 <= j < n ==> resources@[j]@ == model@.resources[j],
            out@ == model@.id + " {\n  shape: package\n\n"@ + d2_lines(model@.resources.take(i as int)),
        decreases n - i,
    {
        out.append("  ");
        let quoted = json_quote(resources[i].id().as_str());
        out.append(quoted.as_str());
        out.append("\n");
        proof {
            lemma_d2_lines_push(model@.resources.take(i as int), model@.resources[i as int]);
            assert(model@.resources.take(i + 1 as int) =~= model@.resources.take(i as int).push(
                model@.resources[i as int],
            ));
            assert(out@ =~= model@.id + " {\n  shape: package\n\n"@ + d2_lines(
                model@.resources.take(i + 1 as int),
            ));
        }
        i = i + 1;
    }
    out.append("}\n");
    proof {
        assert(model@.resources.take(n as int) =~= model@.resources);
        assert(out@ =~= d2_render(model@));
    }
    out
}

} // verus!
