//! Small helpers on text: comparison, the characters of identifiers, the
//! literals that the parser cannot take, and string literals.

use vstd::prelude::*;
use vstd::string::*;

verus! {

/// Whether `s` reads exactly as `word`.
pub fn is_text(s: &String, word: &str) -> (b: bool)
    ensures
        b == (s@ == word@),
{
    let other = String::from_str(word);
    *s == other
}

/// Whether `s` is present and reads exactly as `word`.
pub fn is_some_text(s: &Option<String>, word: &str) -> (b: bool)
    ensures
        b == (s matches Some(t) && t@ == word@),
{
    match s {
        Some(t) => is_text(t, word),
        None => false,
    }
}

/// Whether `c` is an ASCII letter, an ASCII digit or `_`.
pub open spec fn is_ascii_word_spec(c: char) -> bool {
    ||| 'a' <= c <= 'z'
    ||| 'A' <= c <= 'Z'
    ||| '0' <= c <= '9'
    ||| c == '_'
}

/// Decides whether `c` is an ASCII letter, an ASCII digit or `_`.
pub fn is_ascii_word(c: char) -> (b: bool)
    ensures
        b == is_ascii_word_spec(c),
{
    let code = c as u32;
    (97 <= code && code <= 122) || (65 <= code && code <= 90) || (48 <= code && code <= 57)
        || code == 95
}

/// Whether `c` may stand in an identifier: an ASCII letter or digit, `_`,
/// or any character beyond ASCII. Of the characters beyond ASCII no more is
/// asked; no ASCII space or punctuation passes.
pub open spec fn is_word_char_spec(c: char) -> bool {
    is_ascii_word_spec(c) || c as u32 > 127
}

/// Decides whether `c` may stand in an identifier.
pub fn is_word_char(c: char) -> (b: bool)
    ensures
        b == is_word_char_spec(c),
{
    is_ascii_word(c) || c as u32 > 127
}

/// Whether a C string literal could start at index `i` of `s`: there stands
/// a `c` before `"`, `r"` or `r#`, and right before the `c` neither an ASCII
/// letter or digit or `_`, of whose word the `c` would be part, nor a `"`,
/// whose string the `c` would lie in or end.
pub open spec fn starts_c_string(s: Seq<char>, i: int) -> bool {
    &&& 0 <= i < s.len()
    &&& s[i] == 'c'
    &&& ((i + 1 < s.len() && s[i + 1] == '"') || (i + 2 < s.len() && s[i + 1] == 'r' && (s[i + 2]
        == '"' || s[i + 2] == '#')))
    &&& !(i > 0 && (is_ascii_word_spec(s[i - 1]) || s[i - 1] == '"'))
}

/// Whether at index `i` of `s` stands `(/*ERROR*/)`, the text that the
/// compiler prints for a token it could not make sense of.
pub open spec fn starts_error_marker(s: Seq<char>, i: int) -> bool {
    &&& 0 <= i
    &&& i + 10 < s.len()
    &&& s[i] == '('
    &&& s[i + 1] == '/'
    &&& s[i + 2] == '*'
    &&& s[i + 3] == 'E'
    &&& s[i + 4] == 'R'
    &&& s[i + 5] == 'R'
    &&& s[i + 6] == 'O'
    &&& s[i + 7] == 'R'
    &&& s[i + 8] == '*'
    &&& s[i + 9] == '/'
    &&& s[i + 10] == ')'
}

/// Whether at index `i` of `s` a literal could start that the parser cannot
/// take: a C string literal or the error marker.
pub open spec fn starts_unknown_literal(s: Seq<char>, i: int) -> bool {
    starts_c_string(s, i) || starts_error_marker(s, i)
}

/// Where a scan over source text stands.
#[derive(Clone, Copy, Debug, PartialEq, Eq, Structural)]
pub enum Scan {
    /// Outside any literal, with nothing but words, marks and string
    /// literals so far.
    Plain,
    /// Inside a string literal.
    Quoted,
    /// Inside a string literal, right after a backslash.
    Escaped,
    /// Somewhere after a character that the scan does not follow: a `'`, a
    /// `/`, or the quote of a raw string.
    Loose,
}

/// The state after the character `c`, which follows `before`.
///
/// From `Plain` a quote opens a string literal, unless it follows `r`, `#`
/// or `'`, as the quote of a raw string does; then, and at a `'` or a `/`,
/// which may open a character literal, a lifetime or a comment, the scan
/// stops following. Inside a string literal a backslash takes the next
/// character with it, and the next quote that no backslash takes closes the
/// literal.
pub open spec fn step_spec(state: Scan, before: Option<char>, c: char) -> Scan {
    match state {
        Scan::Plain => if c == '"' {
            if before == Some('r') || before == Some('#') || before == Some('\'') {
                Scan::Loose
            } else {
                Scan::Quoted
            }
        } else if c == '\'' || c == '/' {
            Scan::Loose
        } else {
            Scan::Plain
        },
        Scan::Quoted => if c == '\\' {
            Scan::Escaped
        } else if c == '"' {
            Scan::Plain
        } else {
            Scan::Quoted
        },
        Scan::Escaped => Scan::Quoted,
        Scan::Loose => Scan::Loose,
    }
}

/// The character before index `i` of `s`, if there is one.
pub open spec fn before_spec(s: Seq<char>, i: int) -> Option<char> {
    if 0 < i <= s.len() {
        Some(s[i - 1])
    } else {
        None
    }
}

/// Whether from index `i` on, reached in `state`, no unknown literal could
/// start in `s` outside a string literal that the scan follows.
pub open spec fn is_clear_from(s: Seq<char>, i: int, state: Scan) -> bool
    decreases s.len() - i,
{
    if i < 0 || i >= s.len() {
        true
    } else if (state is Plain || state is Loose) && starts_unknown_literal(s, i) {
        false
    } else {
        is_clear_from(s, i + 1, step_spec(state, before_spec(s, i), s[i]))
    }
}

/// Whether `s` holds no literal that the parser cannot take: nowhere in it
/// could a C string literal start, and nowhere stands the error marker, but
/// inside a string literal that the scan follows.
///
/// The scan follows string literals for as long as the text holds nothing
/// but words, marks and string literals. From the first `'`, `/` or raw
/// string on it goes by the characters around each place alone, and then
/// also refuses a text in which such a `c` stands inside a string or a
/// comment after a space or a mark.
pub open spec fn is_clear_spec(s: Seq<char>) -> bool {
    is_clear_from(s, 0, Scan::Plain)
}

/// Decides whether an unknown literal could start at index `i` of `s`.
fn starts_unknown(s: &str, n: usize, i: usize) -> (b: bool)
    requires
        n == s@.len(),
        i < n,
    ensures
        b == starts_unknown_literal(s@, i as int),
{
    let c = s.get_char(i);
    if c == 'c' && n - i > 1 {
        let next = s.get_char(i + 1);
        let mut opens = next == '"';
        if next == 'r' && n - i > 2 {
            let after = s.get_char(i + 2);
            opens = after == '"' || after == '#';
        }
        if opens {
            let mut sheltered = false;
            if i > 0 {
                let before = s.get_char(i - 1);
                sheltered = is_ascii_word(before) || before == '"';
            }
            return !sheltered;
        }
        false
    } else if c == '(' && n - i > 10 {
        s.get_char(i + 1) == '/' && s.get_char(i + 2) == '*' && s.get_char(i + 3) == 'E'
            && s.get_char(i + 4) == 'R' && s.get_char(i + 5) == 'R' && s.get_char(i + 6) == 'O'
            && s.get_char(i + 7) == 'R' && s.get_char(i + 8) == '*' && s.get_char(i + 9) == '/'
            && s.get_char(i + 10) == ')'
    } else {
        false
    }
}

/// Takes the scan over one character.
pub fn step(state: Scan, before: Option<char>, c: char) -> (next: Scan)
    ensures
        next == step_spec(state, before, c),
{
    match state {
        Scan::Plain => if c == '"' {
            let raw = match before {
                Some(b) => b == 'r' || b == '#' || b == '\'',
                None => false,
            };
            if raw {
                Scan::Loose
            } else {
                Scan::Quoted
            }
        } else if c == '\'' || c == '/' {
            Scan::Loose
        } else {
            Scan::Plain
        },
        Scan::Quoted => if c == '\\' {
            Scan::Escaped
        } else if c == '"' {
            Scan::Plain
        } else {
            Scan::Quoted
        },
        Scan::Escaped => Scan::Quoted,
        Scan::Loose => Scan::Loose,
    }
}

/// Decides whether `s` holds no literal that the parser cannot take.
pub fn is_clear(s: &str) -> (b: bool)
    ensures
        b == is_clear_spec(s@),
{
    let n = s.unicode_len();
    let mut state = Scan::Plain;
    let mut before: Option<char> = None;
    let mut i: usize = 0;
    while i < n
        invariant
            i <= n,
            n == s@.len(),
            before == before_spec(s@, i as int),
            is_clear_spec(s@) == is_clear_from(s@, i as int, state),
        decreases n - i,
    {
        let watched = match state {
            Scan::Plain | Scan::Loose => true,
            _ => false,
        };
        if watched && starts_unknown(s, n, i) {
            return false;
        }
        let c = s.get_char(i);
        state = step(state, before, c);
        before = Some(c);
        i = i + 1;
    }
    true
}

/// Whether `s` reads as one identifier: it is not empty, every character
/// may stand in an identifier, the first is no digit, and it is not `_`
/// alone.
pub open spec fn is_identifier_spec(s: Seq<char>) -> bool {
    &&& s.len() > 0
    &&& !('0' <= s[0] <= '9')
    &&& !(s.len() == 1 && s[0] == '_')
    &&& forall|i: int| 0 <= i < s.len() ==> is_word_char_spec(#[trigger] s[i])
}

/// Decides whether `s` reads as one identifier.
pub fn is_identifier(s: &str) -> (b: bool)
    ensures
        b == is_identifier_spec(s@),
{
    let n = s.unicode_len();
    if n == 0 {
        return false;
    }
    let first = s.get_char(0);
    let code = first as u32;
    if 48 <= code && code <= 57 {
        return false;
    }
    if n == 1 && code == 95 {
        return false;
    }
    let mut i: usize = 0;
    while i < n
        invariant
            i <= n,
            n == s@.len(),
            forall|k: int| 0 <= k < i ==> is_word_char_spec(#[trigger] s@[k]),
        decreases n - i,
    {
        if !is_word_char(s.get_char(i)) {
            return false;
        }
        i = i + 1;
    }
    true
}

/// How one character stands inside a string literal.
pub open spec fn escape_char_spec(c: char) -> Seq<char> {
    if c == '"' {
        "\\\""@
    } else if c == '\\' {
        "\\\\"@
    } else if c == '\n' {
        "\\n"@
    } else if c == '\r' {
        "\\r"@
    } else if c == '\t' {
        "\\t"@
    } else if c == '\0' {
        "\\0"@
    } else {
        seq![c]
    }
}

/// The text of `s` as it stands between the quotes of a string literal:
/// each character escaped in turn.
pub open spec fn escape_spec(s: Seq<char>) -> Seq<char>
    decreases s.len(),
{
    if s.len() == 0 {
        Seq::empty()
    } else {
        escape_spec(s.drop_last()) + escape_char_spec(s.last())
    }
}

/// The string literal that denotes `s`.
pub open spec fn literal_spec(s: Seq<char>) -> Seq<char> {
    "\""@ + escape_spec(s) + "\""@
}

/// Escapes `s` for use between the quotes of a string literal.
pub fn escape(s: &str) -> (r: String)
    ensures
        r@ == escape_spec(s@),
{
    let n = s.unicode_len();
    let mut r = String::new();
    let mut i: usize = 0;
    while i < n
        invariant
            i <= n,
            n == s@.len(),
            r@ == escape_spec(s@.subrange(0, i as int)),
        decreases n - i,
    {
        let c = s.get_char(i);
        proof {
            assert(s@.subrange(0, i + 1).drop_last() =~= s@.subrange(0, i as int));
            assert(s@.subrange(i as int, i + 1) =~= seq![s@[i as int]]);
        }
        if c == '"' {
            r.append("\\\"");
        } else if c == '\\' {
            r.append("\\\\");
        } else if c == '\n' {
            r.append("\\n");
        } else if c == '\r' {
            r.append("\\r");
        } else if c == '\t' {
            r.append("\\t");
        } else if c == '\0' {
            r.append("\\0");
        } else {
            r.append(s.substring_char(i, i + 1));
        }
        i = i + 1;
    }
    proof {
        assert(s@.subrange(0, n as int) =~= s@);
    }
    r
}

/// Writes `s` as a string literal.
pub fn literal(s: &str) -> (r: String)
    ensures
        r@ == literal_spec(s@),
{
    let body = escape(s);
    let mut r = String::from_str("\"");
    r.append(body.as_str());
    r.append("\"");
    r
}

} // verus!
