//! Output escaping: HTML-entity escaping for text embedded in the document,
//! and JSON string escaping for the initial-props literal.
use crate::strutil::push_char;
use vstd::prelude::*;
use vstd::string::StrSliceExecFns;

verus! {

/// How one character is rendered by HTML text escaping: `&`, `<` and `>`
/// become entities, every other character stands for itself.
pub open spec fn html_esc_char(c: char) -> Seq<char> {
    if c == '&' {
        "&amp;"@
    } else if c == '<' {
        "&lt;"@
    } else if c == '>' {
        "&gt;"@
    } else {
        seq![c]
    }
}

/// HTML text escaping of a whole string.
pub open spec fn html_escaped(s: Seq<char>) -> Seq<char>
    decreases s.len(),
{
    if s.len() == 0 {
        Seq::empty()
    } else {
        html_esc_char(s[0]) + html_escaped(s.drop_first())
    }
}

/// Escapes `&`, `<` and `>` for embedding in HTML text or quoted attribute
/// positions.
///
/// Relies on html_escape::encode_text, which replaces exactly `&` with
/// `&amp;`, `<` with `&lt;` and `>` with `&gt;` and leaves every other
/// character unchanged.
#[verifier::external_body]
pub fn escape_html(s: &str) -> (r: String)
    ensures
        r@ == html_escaped(s@),
{
    html_escape::encode_text(s).into_owned()
}

/// Escaping distributes over concatenation.
pub proof fn lemma_html_escaped_concat(a: Seq<char>, b: Seq<char>)
    ensures
        html_escaped(a + b) == html_escaped(a) + html_escaped(b),
    decreases a.len(),
{
    if a.len() == 0 {
        assert(a + b =~= b);
        assert(html_escaped(a) + html_escaped(b) =~= html_escaped(b));
    } else {
        lemma_html_escaped_concat(a.drop_first(), b);
        assert((a + b).drop_first() =~= a.drop_first() + b);
        assert(html_esc_char(a[0]) + (html_escaped(a.drop_first()) + html_escaped(b))
            =~= (html_esc_char(a[0]) + html_escaped(a.drop_first())) + html_escaped(b));
    }
}

/// Escaped output never contains a raw `<`.
pub proof fn lemma_html_escaped_no_lt(s: Seq<char>)
    ensures
        forall|j: int| 0 <= j < html_escaped(s).len() ==> #[trigger] html_escaped(s)[j] != '<',
    decreases s.len(),
{
    reveal_strlit("&amp;");
    reveal_strlit("&lt;");
    reveal_strlit("&gt;");
    if s.len() > 0 {
        lemma_html_escaped_no_lt(s.drop_first());
        let head = html_esc_char(s[0]);
        assert forall|j: int| 0 <= j < html_escaped(s).len() implies #[trigger] html_escaped(
            s,
        )[j] != '<' by {
            if j < head.len() {
                assert(html_escaped(s)[j] == head[j]);
            } else {
                assert(html_escaped(s)[j] == html_escaped(s.drop_first())[j - head.len()]);
            }
        }
    }
}

/// Characters that escaping leaves unchanged pass through unchanged.
pub proof fn lemma_html_escaped_plain(s: Seq<char>)
    requires
        forall|j: int| 0 <= j < s.len() ==> s[j] != '&' && s[j] != '<' && s[j] != '>',
    ensures
        html_escaped(s) == s,
    decreases s.len(),
{
    if s.len() > 0 {
        lemma_html_escaped_plain(s.drop_first());
        assert(html_escaped(s) =~= s);
    }
}

pub proof fn lemma_html_escaped_single(c: char)
    ensures
        html_escaped(seq![c]) == html_esc_char(c),
{
    assert(seq![c].drop_first() =~= Seq::<char>::empty());
    assert(html_escaped(Seq::<char>::empty()) =~= Seq::<char>::empty());
    assert(html_escaped(seq![c]) =~= html_esc_char(c));
}

pub proof fn lemma_json_escaped_single(c: char)
    ensures
        json_escaped(seq![c]) == json_esc_char(c),
{
    assert(seq![c].drop_first() =~= Seq::<char>::empty());
    assert(json_escaped(Seq::<char>::empty()) =~= Seq::<char>::empty());
    assert(json_escaped(seq![c]) =~= json_esc_char(c));
}

/// Whether `needle` occurs in `hay` as a contiguous run.
pub open spec fn has_sub(hay: Seq<char>, needle: Seq<char>) -> bool {
    exists|i: int|
        0 <= i && i + needle.len() <= hay.len() && #[trigger] hay.subrange(
            i,
            i + needle.len() as int,
        ) =~= needle
}

pub proof fn lemma_has_sub_at(hay: Seq<char>, needle: Seq<char>, i: int)
    requires
        0 <= i,
        i + needle.len() <= hay.len(),
        hay.subrange(i, i + needle.len() as int) =~= needle,
    ensures
        has_sub(hay, needle),
{
}

/// A contiguous run survives extension on the right.
pub proof fn lemma_has_sub_extend_right(hay: Seq<char>, b: Seq<char>, x: Seq<char>)
    requires
        has_sub(hay, x),
    ensures
        has_sub(hay + b, x),
{
    let i = choose|i: int|
        0 <= i && i + x.len() <= hay.len() && #[trigger] hay.subrange(i, i + x.len() as int) =~= x;
    assert((hay + b).subrange(i, i + x.len() as int) =~= x);
    lemma_has_sub_at(hay + b, x, i);
}

/// A contiguous run survives extension on the left.
pub proof fn lemma_has_sub_extend_left(a: Seq<char>, hay: Seq<char>, x: Seq<char>)
    requires
        has_sub(hay, x),
    ensures
        has_sub(a + hay, x),
{
    let i = choose|i: int|
        0 <= i && i + x.len() <= hay.len() && #[trigger] hay.subrange(i, i + x.len() as int) =~= x;
    assert((a + hay).subrange(a.len() + i, a.len() + i + x.len() as int) =~= x);
    lemma_has_sub_at(a + hay, x, a.len() + i);
}

/// A string that contains `<script>` escapes to one that contains
/// `&lt;script&gt;` and no longer contains `<script>` (nor any raw `<`).
pub proof fn lemma_escaping_hides_markup(s: Seq<char>)
    requires
        has_sub(s, "<script>"@),
    ensures
        has_sub(html_escaped(s), "&lt;script&gt;"@),
        !has_sub(html_escaped(s), "<script>"@),
{
    reveal_strlit("<script>");
    reveal_strlit("&lt;script&gt;");
    reveal_strlit("script");
    reveal_strlit("&lt;");
    reveal_strlit("&gt;");
    let t = "<script>"@;
    let i = choose|i: int|
        0 <= i && i + t.len() <= s.len() && #[trigger] s.subrange(i, i + t.len() as int) =~= t;
    let a = s.subrange(0, i);
    let b = s.subrange(i + t.len() as int, s.len() as int);
    assert(s =~= a + t + b);
    lemma_html_escaped_concat(a + t, b);
    assert(a + t + b =~= (a + t) + b);
    lemma_html_escaped_concat(a, t);
    // html_escaped(t) == "&lt;script&gt;"
    let mid = "script"@;
    assert(t =~= seq!['<'] + mid + seq!['>']);
    lemma_html_escaped_concat(seq!['<'] + mid, seq!['>']);
    assert(seq!['<'] + mid + seq!['>'] =~= (seq!['<'] + mid) + seq!['>']);
    lemma_html_escaped_concat(seq!['<'], mid);
    assert(forall|j: int| 0 <= j < mid.len() ==> mid[j] != '&' && mid[j] != '<' && mid[j] != '>');
    lemma_html_escaped_plain(mid);
    lemma_html_escaped_single('<');
    lemma_html_escaped_single('>');
    assert(html_escaped(seq!['<']) =~= "&lt;"@);
    assert(html_escaped(seq!['>']) =~= "&gt;"@);
    assert(html_escaped(t) =~= "&lt;script&gt;"@);
    let ea = html_escaped(a);
    let et = "&lt;script&gt;"@;
    let eb = html_escaped(b);
    assert(html_escaped(s) =~= ea + et + eb);
    assert((ea + et + eb).subrange(ea.len() as int, ea.len() as int + et.len() as int) =~= et);
    lemma_has_sub_at(html_escaped(s), et, ea.len() as int);
    lemma_html_escaped_no_lt(s);
    assert forall|i2: int|
        !(0 <= i2 && i2 + t.len() <= html_escaped(s).len() && #[trigger] html_escaped(s).subrange(
            i2,
            i2 + t.len() as int,
        ) =~= t) by {
        if 0 <= i2 && i2 + t.len() <= html_escaped(s).len() && html_escaped(s).subrange(
            i2,
            i2 + t.len() as int,
        ) =~= t {
            assert(html_escaped(s)[i2] == t[0]);
            assert(t[0] == '<');
        }
    }
}

/// How one character is rendered inside a JSON string literal, the way
/// serde_json writes it: quote and backslash get a backslash escape, control
/// characters get their short escapes or a `\u00..` escape, and everything
/// else stands for itself.
pub open spec fn json_esc_char(c: char) -> Seq<char> {
    if c == '"' {
        seq!['\\', '"']
    } else if c == '\\' {
        seq!['\\', '\\']
    } else if c == '\u{8}' {
        seq!['\\', 'b']
    } else if c == '\t' {
        seq!['\\', 't']
    } else if c == '\n' {
        seq!['\\', 'n']
    } else if c == '\u{c}' {
        seq!['\\', 'f']
    } else if c == '\r' {
        seq!['\\', 'r']
    } else if (c as u32) < 0x20 {
        seq!['\\', 'u', '0', '0', hex_char(((c as u32) / 16) as nat), hex_char(
            ((c as u32) % 16) as nat,
        )]
    } else {
        seq![c]
    }
}

pub open spec fn hex_char(d: nat) -> char {
    if d < 10 {
        crate::strutil::digit_char(d)
    } else if d == 10 {
        'a'
    } else if d == 11 {
        'b'
    } else if d == 12 {
        'c'
    } else if d == 13 {
        'd'
    } else if d == 14 {
        'e'
    } else {
        'f'
    }
}

/// JSON string-literal escaping of a whole string, without the surrounding
/// quotes.
pub open spec fn json_escaped(s: Seq<char>) -> Seq<char>
    decreases s.len(),
{
    if s.len() == 0 {
        Seq::empty()
    } else {
        json_esc_char(s[0]) + json_escaped(s.drop_first())
    }
}

fn push_hex_char(out: &mut String, d: u32)
    requires
        d < 16,
    ensures
        final(out)@ == old(out)@.push(hex_char(d as nat)),
{
    let c: char = match d {
        0 => '0',
        1 => '1',
        2 => '2',
        3 => '3',
        4 => '4',
        5 => '5',
        6 => '6',
        7 => '7',
        8 => '8',
        9 => '9',
        10 => 'a',
        11 => 'b',
        12 => 'c',
        13 => 'd',
        14 => 'e',
        _ => 'f',
    };
    push_char(out, c);
}

/// Appends the JSON escaping of one character.
fn push_json_esc(out: &mut String, c: char)
    ensures
        final(out)@ == old(out)@ + json_esc_char(c),
{
    if c == '"' {
        push_char(out, '\\');
        push_char(out, '"');
    } else if c == '\\' {
        push_char(out, '\\');
        push_char(out, '\\');
    } else if c == '\u{8}' {
        push_char(out, '\\');
        push_char(out, 'b');
    } else if c == '\t' {
        push_char(out, '\\');
        push_char(out, 't');
    } else if c == '\n' {
        push_char(out, '\\');
        push_char(out, 'n');
    } else if c == '\u{c}' {
        push_char(out, '\\');
        push_char(out, 'f');
    } else if c == '\r' {
        push_char(out, '\\');
        push_char(out, 'r');
    } else if (c as u32) < 0x20 {
        push_char(out, '\\');
        push_char(out, 'u');
        push_char(out, '0');
        push_char(out, '0');
        push_hex_char(out, (c as u32) / 16);
        push_hex_char(out, (c as u32) % 16);
    } else {
        push_char(out, c);
    }
    proof {
        assert(final(out)@ =~= old(out)@ + json_esc_char(c));
    }
}

/// Escapes a string for embedding inside a JSON string literal.
pub fn escape_json(s: &str) -> (r: String)
    ensures
        r@ == json_escaped(s@),
{
    let n = s.unicode_len();
    let mut out = String::new();
    let mut i: usize = 0;
    while i < n
        invariant
            0 <= i <= n == s@.len(),
            out@ == json_escaped(s@.subrange(0, i as int)),
        decreases n - i,
    {
        let c = s.get_char(i);
        push_json_esc(&mut out, c);
        proof {
            lemma_json_escaped_concat(s@.subrange(0, i as int), seq![s@[i as int]]);
            assert(s@.subrange(0, i + 1) =~= s@.subrange(0, i as int) + seq![s@[i as int]]);
            lemma_json_escaped_single(s@[i as int]);
        }
        i += 1;
    }
    proof {
        assert(s@.subrange(0, n as int) =~= s@);
    }
    out
}

pub proof fn lemma_json_escaped_concat(a: Seq<char>, b: Seq<char>)
    ensures
        json_escaped(a + b) == json_escaped(a) + json_escaped(b),
    decreases a.len(),
{
    if a.len() == 0 {
        assert(a + b =~= b);
        assert(json_escaped(a) + json_escaped(b) =~= json_escaped(b));
    } else {
        lemma_json_escaped_concat(a.drop_first(), b);
        assert((a + b).drop_first() =~= a.drop_first() + b);
        assert(json_esc_char(a[0]) + (json_escaped(a.drop_first()) + json_escaped(b))
            =~= (json_esc_char(a[0]) + json_escaped(a.drop_first())) + json_escaped(b));
    }
}

} // verus!
