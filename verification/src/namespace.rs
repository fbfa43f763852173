use vstd::prelude::*;

verus! {

/// `char::is_whitespace`: the character has the Unicode `White_Space` property.
pub uninterp spec fn white_space(c: char) -> bool;

/// `unicode_ident::is_xid_start`: the character has the Unicode `XID_Start` property.
pub uninterp spec fn xid_start(c: char) -> bool;

/// `unicode_ident::is_xid_continue`: the character has the Unicode `XID_Continue` property.
pub uninterp spec fn xid_continue(c: char) -> bool;

/// A blank between tokens of the attribute's text: white space, or a left-to-right or
/// right-to-left mark, as Rust treats them. Among ASCII characters these are the space and the
/// controls from tab to carriage return.
pub open spec fn is_space(c: char) -> bool {
    let u = c as u32;
    if u < 128 {
        u == 32 || (9 <= u && u <= 13)
    } else {
        white_space(c) || c == '\u{200e}' || c == '\u{200f}'
    }
}

/// A character that can start an identifier: `_` or an `XID_Start` character. Among ASCII
/// characters these are the letters and `_`.
pub open spec fn is_ident_start(c: char) -> bool {
    let u = c as u32;
    if u < 128 {
        (65 <= u && u <= 90) || (97 <= u && u <= 122) || u == 95
    } else {
        xid_start(c)
    }
}

/// A character that can continue an identifier: an `XID_Continue` character. Among ASCII
/// characters these are the letters, the digits and `_`.
pub open spec fn is_ident_continue(c: char) -> bool {
    let u = c as u32;
    if u < 128 {
        (65 <= u && u <= 90) || (97 <= u && u <= 122) || (48 <= u && u <= 57) || u == 95
    } else {
        xid_continue(c)
    }
}

/// Tells whether `c` is white space, with `char::is_whitespace` (std).
#[verifier::external_body]
fn char_is_whitespace(c: char) -> (r: bool)
    ensures
        r == white_space(c),
{
    c.is_whitespace()
}

/// Tells whether `c` may start an identifier, with `unicode_ident::is_xid_start`.
#[verifier::external_body]
fn char_is_xid_start(c: char) -> (r: bool)
    ensures
        r == xid_start(c),
{
    unicode_ident::is_xid_start(c)
}

/// Tells whether `c` may continue an identifier, with `unicode_ident::is_xid_continue`.
#[verifier::external_body]
fn char_is_xid_continue(c: char) -> (r: bool)
    ensures
        r == xid_continue(c),
{
    unicode_ident::is_xid_continue(c)
}

/// The first position at or after `i` that is not a blank.
pub open spec fn skip_space(s: Seq<char>, i: int) -> int
    decreases s.len() - i,
{
    if 0 <= i < s.len() && is_space(s[i]) {
        skip_space(s, i + 1)
    } else {
        i
    }
}

/// The end of the run of identifier-continuing characters that starts at `i`.
pub open spec fn word_end(s: Seq<char>, i: int) -> int
    decreases s.len() - i,
{
    if 0 <= i < s.len() && is_ident_continue(s[i]) {
        word_end(s, i + 1)
    } else {
        i
    }
}

/// A `::` starts at `i`.
pub open spec fn is_path_sep(s: Seq<char>, i: int) -> bool {
    0 <= i && i + 1 < s.len() && s[i] == ':' && s[i + 1] == ':'
}

/// The words that cannot be identifiers.
pub open spec fn is_reserved(w: Seq<char>) -> bool {
    w == "_"@
    || w == "abstract"@
    || w == "as"@
    || w == "async"@
    || w == "await"@
    || w == "become"@
    || w == "box"@
    || w == "break"@
    || w == "const"@
    || w == "continue"@
    || w == "crate"@
    || w == "do"@
    || w == "dyn"@
    || w == "else"@
    || w == "enum"@
    || w == "extern"@
    || w == "false"@
    || w == "final"@
    || w == "fn"@
    || w == "for"@
    || w == "if"@
    || w == "impl"@
    || w == "in"@
    || w == "let"@
    || w == "loop"@
    || w == "macro"@
    || w == "match"@
    || w == "mod"@
    || w == "move"@
    || w == "mut"@
    || w == "override"@
    || w == "priv"@
    || w == "pub"@
    || w == "ref"@
    || w == "return"@
    || w == "Self"@
    || w == "self"@
    || w == "static"@
    || w == "struct"@
    || w == "super"@
    || w == "trait"@
    || w == "true"@
    || w == "try"@
    || w == "type"@
    || w == "typeof"@
    || w == "unsafe"@
    || w == "unsized"@
    || w == "use"@
    || w == "virtual"@
    || w == "where"@
    || w == "while"@
    || w == "yield"@
}

/// The reserved words that may still stand as a segment of a module path.
pub open spec fn is_path_keyword(w: Seq<char>) -> bool {
    w == "crate"@ || w == "self"@ || w == "super"@ || w == "Self"@
}

/// The words that cannot follow `r#` in a raw identifier.
pub open spec fn is_raw_forbidden(w: Seq<char>) -> bool {
    w == "_"@ || is_path_keyword(w)
}

/// Where the path segment that starts at `i` ends, if one does: an identifier (a reserved word
/// only if it is `crate`, `self`, `super` or `Self`) or a raw identifier `r#word`.
pub open spec fn segment_end(s: Seq<char>, i: int) -> Option<int> {
    if 0 <= i && i + 2 < s.len() && s[i] == 'r' && s[i + 1] == '#' && is_ident_start(s[i + 2]) {
        let e = word_end(s, i + 3);
        if is_raw_forbidden(s.subrange(i + 2, e)) {
            None
        } else {
            Some(e)
        }
    } else if 0 <= i < s.len() && is_ident_start(s[i]) {
        let e = word_end(s, i + 1);
        let w = s.subrange(i, e);
        if is_reserved(w) && !is_path_keyword(w) {
            None
        } else {
            Some(e)
        }
    } else {
        None
    }
}

/// Skipping blanks moves forward and stays within the text.
pub proof fn lemma_skip_space_bounds(s: Seq<char>, i: int)
    requires
        0 <= i <= s.len(),
    ensures
        i <= skip_space(s, i) <= s.len(),
    decreases s.len() - i,
{
    if i < s.len() && is_space(s[i]) {
        lemma_skip_space_bounds(s, i + 1);
    }
}

/// A run of identifier characters ends within the text, at or after its start.
pub proof fn lemma_word_end_bounds(s: Seq<char>, i: int)
    requires
        0 <= i <= s.len(),
    ensures
        i <= word_end(s, i) <= s.len(),
    decreases s.len() - i,
{
    if i < s.len() && is_ident_continue(s[i]) {
        lemma_word_end_bounds(s, i + 1);
    }
}

/// A segment that is found is not empty and ends within the text.
pub proof fn lemma_segment_end_bounds(s: Seq<char>, i: int)
    requires
        0 <= i <= s.len(),
    ensures
        segment_end(s, i) matches Some(e) ==> i < e <= s.len(),
{
    if i + 2 < s.len() && s[i] == 'r' && s[i + 1] == '#' && is_ident_start(s[i + 2]) {
        lemma_word_end_bounds(s, i + 3);
    } else if i < s.len() && is_ident_start(s[i]) {
        lemma_word_end_bounds(s, i + 1);
    }
}

/// The segments of a module path that starts at `i`, added to `acc`: segments separated by
/// `::`, blanks allowed between tokens, nothing after the last segment.
pub open spec fn parse_segments(s: Seq<char>, i: int, acc: Seq<Seq<char>>) -> Option<Seq<Seq<char>>>
    decreases s.len() - i,
    when 0 <= i <= s.len()
{
    match segment_end(s, i) {
        None => None,
        Some(e) => {
            proof {
                lemma_segment_end_bounds(s, i);
            }
            let acc2 = acc.push(s.subrange(i, e));
            let j = skip_space(s, e);
            proof {
                lemma_skip_space_bounds(s, e);
            }
            if j >= s.len() {
                Some(acc2)
            } else if is_path_sep(s, j) {
                proof {
                    lemma_skip_space_bounds(s, j + 2);
                }
                parse_segments(s, skip_space(s, j + 2), acc2)
            } else {
                None
            }
        },
    }
}

/// The namespace that the text of the `bridge` attribute gives: none for an empty attribute,
/// the segments of the path for `namespace = a::b` (a leading `::` allowed); `None` for anything
/// else.
pub open spec fn spec_parse_namespace(s: Seq<char>) -> Option<Seq<Seq<char>>> {
    let i = skip_space(s, 0);
    if i >= s.len() {
        Some(Seq::empty())
    } else if 0 <= i && is_ident_start(s[i]) && s.subrange(i, word_end(s, i + 1)) == "namespace"@ {
        let j = skip_space(s, word_end(s, i + 1));
        if 0 <= j < s.len() && s[j] == '=' {
            let k = skip_space(s, j + 1);
            let start = if is_path_sep(s, k) {
                skip_space(s, k + 2)
            } else {
                k
            };
            parse_segments(s, start, Seq::empty())
        } else {
            None
        }
    } else {
        None
    }
}

/// Compares two strings character by character.
fn str_eq(a: &str, b: &str) -> (r: bool)
    ensures
        r == (a@ == b@),
{
    let n = a.unicode_len();
    if n != b.unicode_len() {
        return false;
    }
    let mut i: usize = 0;
    while i < n
        invariant
            n == a@.len(),
            n == b@.len(),
            0 <= i <= n,
            forall|k: int| 0 <= k < i ==> a@[k] == b@[k],
        decreases n - i,
    {
        if a.get_char(i) != b.get_char(i) {
            return false;
        }
        i = i + 1;
    }
    proof {
        assert(a@ =~= b@);
    }
    true
}

fn is_reserved_word(w: &str) -> (r: bool)
    ensures
        r == is_reserved(w@),
{
    str_eq(w, "_")
    || str_eq(w, "abstract")
    || str_eq(w, "as")
    || str_eq(w, "async")
    || str_eq(w, "await")
    || str_eq(w, "become")
    || str_eq(w, "box")
    || str_eq(w, "break")
    || str_eq(w, "const")
    || str_eq(w, "continue")
    || str_eq(w, "crate")
    || str_eq(w, "do")
    || str_eq(w, "dyn")
    || str_eq(w, "else")
    || str_eq(w, "enum")
    || str_eq(w, "extern")
    || str_eq(w, "false")
    || str_eq(w, "final")
    || str_eq(w, "fn")
    || str_eq(w, "for")
    || str_eq(w, "if")
    || str_eq(w, "impl")
    || str_eq(w, "in")
    || str_eq(w, "let")
    || str_eq(w, "loop")
    || str_eq(w, "macro")
    || str_eq(w, "match")
    || str_eq(w, "mod")
    || str_eq(w, "move")
    || str_eq(w, "mut")
    || str_eq(w, "override")
    || str_eq(w, "priv")
    || str_eq(w, "pub")
    || str_eq(w, "ref")
    || str_eq(w, "return")
    || str_eq(w, "Self")
    || str_eq(w, "self")
    || str_eq(w, "static")
    || str_eq(w, "struct")
    || str_eq(w, "super")
    || str_eq(w, "trait")
    || str_eq(w, "true")
    || str_eq(w, "try")
    || str_eq(w, "type")
    || str_eq(w, "typeof")
    || str_eq(w, "unsafe")
    || str_eq(w, "unsized")
    || str_eq(w, "use")
    || str_eq(w, "virtual")
    || str_eq(w, "where")
    || str_eq(w, "while")
    || str_eq(w, "yield")
}

fn is_path_keyword_word(w: &str) -> (r: bool)
    ensures
        r == is_path_keyword(w@),
{
    str_eq(w, "crate") || str_eq(w, "self") || str_eq(w, "super") || str_eq(w, "Self")
}

fn is_space_char(c: char) -> (r: bool)
    ensures
        r == is_space(c),
{
    let u = c as u32;
    if u < 128 {
        u == 32 || (9 <= u && u <= 13)
    } else {
        char_is_whitespace(c) || c == '\u{200e}' || c == '\u{200f}'
    }
}

fn is_ident_start_char(c: char) -> (r: bool)
    ensures
        r == is_ident_start(c),
{
    let u = c as u32;
    if u < 128 {
        (65 <= u && u <= 90) || (97 <= u && u <= 122) || u == 95
    } else {
        char_is_xid_start(c)
    }
}

fn is_ident_continue_char(c: char) -> (r: bool)
    ensures
        r == is_ident_continue(c),
{
    let u = c as u32;
    if u < 128 {
        (65 <= u && u <= 90) || (97 <= u && u <= 122) || (48 <= u && u <= 57) || u == 95
    } else {
        char_is_xid_continue(c)
    }
}

fn skip_space_at(s: &str, n: usize, i: usize) -> (r: usize)
    requires
        n == s@.len(),
        i <= n,
    ensures
        r == skip_space(s@, i as int),
        i <= r <= n,
{
    let mut j = i;
    while j < n && is_space_char(s.get_char(j))
        invariant
            n == s@.len(),
            i <= j <= n,
            skip_space(s@, j as int) == skip_space(s@, i as int),
        decreases n - j,
    {
        j = j + 1;
    }
    j
}

fn word_end_at(s: &str, n: usize, i: usize) -> (r: usize)
    requires
        n == s@.len(),
        i <= n,
    ensures
        r == word_end(s@, i as int),
        i <= r <= n,
{
    let mut j = i;
    while j < n && is_ident_continue_char(s.get_char(j))
        invariant
            n == s@.len(),
            i <= j <= n,
            word_end(s@, j as int) == word_end(s@, i as int),
        decreases n - j,
    {
        j = j + 1;
    }
    j
}

fn is_path_sep_at(s: &str, n: usize, i: usize) -> (r: bool)
    requires
        n == s@.len(),
    ensures
        r == is_path_sep(s@, i as int),
{
    i < n && n - i >= 2 && s.get_char(i) == ':' && s.get_char(i + 1) == ':'
}

fn segment_end_at(s: &str, n: usize, i: usize) -> (r: Option<usize>)
    requires
        n == s@.len(),
        i <= n,
    ensures
        r is Some == segment_end(s@, i as int) is Some,
        r is Some ==> r->0 == segment_end(s@, i as int)->0,
{
    if n - i > 2 && s.get_char(i) == 'r' && s.get_char(i + 1) == '#' && is_ident_start_char(
        s.get_char(i + 2),
    ) {
        let e = word_end_at(s, n, i + 3);
        let w = s.substring_char(i + 2, e);
        if str_eq(w, "_") || is_path_keyword_word(w) {
            None
        } else {
            Some(e)
        }
    } else if i < n && is_ident_start_char(s.get_char(i)) {
        let e = word_end_at(s, n, i + 1);
        let w = s.substring_char(i, e);
        if is_reserved_word(w) && !is_path_keyword_word(w) {
            None
        } else {
            Some(e)
        }
    } else {
        None
    }
}

/// Parses the text of the `bridge` attribute: an empty attribute gives no namespace,
/// `namespace = a::b` gives the segments `a`, `b`; anything else is refused with `None`.
///
/// The text is the attribute's tokens as printed: blanks between tokens, no comments.
/// Identifiers are Rust's: `_` or an `XID_Start` character, then `XID_Continue` characters.
pub fn parse_namespace_attribute(attr: &str) -> (r: Option<Vec<String>>)
    ensures
        r is Some == spec_parse_namespace(attr@) is Some,
        r is Some ==> r->0@.map_values(|p: String| p@) == spec_parse_namespace(attr@)->0,
{
    let n = attr.unicode_len();
    let i = skip_space_at(attr, n, 0);
    if i >= n {
        return Some(Vec::new());
    }
    if !is_ident_start_char(attr.get_char(i)) {
        return None;
    }
    let we = word_end_at(attr, n, i + 1);
    if !str_eq(attr.substring_char(i, we), "namespace") {
        return None;
    }
    let j = skip_space_at(attr, n, we);
    if j >= n || attr.get_char(j) != '=' {
        return None;
    }
    let k = skip_space_at(attr, n, j + 1);
    let mut pos = if is_path_sep_at(attr, n, k) {
        skip_space_at(attr, n, k + 2)
    } else {
        k
    };
    let mut pieces: Vec<String> = Vec::new();
    proof {
        assert(pieces@.map_values(|p: String| p@) =~= Seq::<Seq<char>>::empty());
    }
    loop
        invariant
            n == attr@.len(),
            pos <= n,
            spec_parse_namespace(attr@) == parse_segments(
                attr@,
                pos as int,
                pieces@.map_values(|p: String| p@),
            ),
        decreases n - pos,
    {
        match segment_end_at(attr, n, pos) {
            None => {
                return None;
            },
            Some(e) => {
                proof {
                    lemma_segment_end_bounds(attr@, pos as int);
                }
                let ghost before = pieces@.map_values(|p: String| p@);
                let piece = String::from_str(attr.substring_char(pos, e));
                pieces.push(piece);
                proof {
                    assert(pieces@.map_values(|p: String| p@) =~= before.push(
                        attr@.subrange(pos as int, e as int),
                    ));
                }
                let j = skip_space_at(attr, n, e);
                if j >= n {
                    return Some(pieces);
                }
                if !is_path_sep_at(attr, n, j) {
                    return None;
                }
                pos = skip_space_at(attr, n, j + 2);
            },
        }
    }
}

/// An attribute made of blanks only names no namespace.
pub proof fn lemma_blank_attribute_has_no_namespace(s: Seq<char>)
    requires
        forall|i: int| 0 <= i < s.len() ==> is_space(#[trigger] s[i]),
    ensures
        spec_parse_namespace(s) == Some(Seq::<Seq<char>>::empty()),
{
    lemma_skip_space_to_end(s, 0);
}

/// Blanks are skipped to the end of a text whose rest is blank.
pub proof fn lemma_skip_space_to_end(s: Seq<char>, i: int)
    requires
        0 <= i <= s.len(),
        forall|k: int| i <= k < s.len() ==> is_space(#[trigger] s[k]),
    ensures
        skip_space(s, i) == s.len(),
    decreases s.len() - i,
{
    if i < s.len() {
        lemma_skip_space_to_end(s, i + 1);
    }
}

/// A plain identifier: a character that starts an identifier (and is no blank), then characters
/// that continue one, and not a reserved word other than `crate`, `self`, `super` and `Self`.
pub open spec fn is_plain_ident(w: Seq<char>) -> bool {
    &&& w.len() >= 1
    &&& is_ident_start(w[0])
    &&& !is_space(w[0])
    &&& forall|k: int| 1 <= k < w.len() ==> is_ident_continue(#[trigger] w[k])
    &&& !(is_reserved(w) && !is_path_keyword(w))
}

/// Blanks that cannot be taken for part of an identifier (white space such as spaces, tabs and
/// line breaks).
pub open spec fn is_blank_run(b: Seq<char>) -> bool {
    forall|k: int| 0 <= k < b.len() ==> is_space(#[trigger] b[k]) && !is_ident_continue(b[k])
}

/// The text of the module path `p1::p2::...::pn`, with the blanks `before` in front of each `::`
/// and the blanks `after` behind it (as the attribute's tokens are printed, both are one space).
pub open spec fn path_text(pieces: Seq<Seq<char>>, before: Seq<char>, after: Seq<char>) -> Seq<char>
    decreases pieces.len(),
{
    if pieces.len() <= 1 {
        if pieces.len() == 1 {
            pieces[0]
        } else {
            Seq::empty()
        }
    } else {
        pieces[0] + before + "::"@ + after + path_text(pieces.drop_first(), before, after)
    }
}

/// A run of identifier characters from `i` that is followed by the end of the text or by a
/// character that cannot continue an identifier ends there.
pub proof fn lemma_word_end_at(s: Seq<char>, i: int, e: int)
    requires
        0 <= i <= e <= s.len(),
        forall|k: int| i <= k < e ==> is_ident_continue(#[trigger] s[k]),
        e == s.len() || !is_ident_continue(s[e]),
    ensures
        word_end(s, i) == e,
    decreases e - i,
{
    if i < e {
        lemma_word_end_at(s, i + 1, e);
    }
}

/// A run of blanks from `i` that is followed by the end of the text or by a character that is no
/// blank is skipped up to there.
pub proof fn lemma_skip_space_at(s: Seq<char>, i: int, e: int)
    requires
        0 <= i <= e <= s.len(),
        forall|k: int| i <= k < e ==> is_space(#[trigger] s[k]),
        e == s.len() || !is_space(s[e]),
    ensures
        skip_space(s, i) == e,
    decreases e - i,
{
    if i < e {
        lemma_skip_space_at(s, i + 1, e);
    }
}

/// The first character of a path's text is the first character of its first piece.
proof fn lemma_path_text_first(pieces: Seq<Seq<char>>, before: Seq<char>, after: Seq<char>)
    requires
        pieces.len() >= 1,
        pieces[0].len() >= 1,
    ensures
        path_text(pieces, before, after).len() >= 1,
        path_text(pieces, before, after)[0] == pieces[0][0],
{
    if pieces.len() > 1 {
        let t = path_text(pieces.drop_first(), before, after);
        assert(path_text(pieces, before, after) == pieces[0] + before + "::"@ + after + t);
    }
}

/// Each segment of the path `p1::...::pn` is added, in order, to what was parsed before it: the
/// path gives exactly its n pieces, for every n and whatever blanks stand around each `::`.
pub proof fn lemma_parse_segments_path(
    s: Seq<char>,
    i: int,
    pieces: Seq<Seq<char>>,
    before: Seq<char>,
    after: Seq<char>,
    acc: Seq<Seq<char>>,
)
    requires
        0 <= i <= s.len(),
        pieces.len() >= 1,
        forall|k: int| 0 <= k < pieces.len() ==> is_plain_ident(#[trigger] pieces[k]),
        is_blank_run(before),
        is_blank_run(after),
        s.subrange(i, s.len() as int) == path_text(pieces, before, after),
    ensures
        parse_segments(s, i, acc) == Some(acc + pieces),
    decreases pieces.len(),
{
    reveal_strlit("::");
    let w = pieces[0];
    assert(is_plain_ident(w));
    let e = i + w.len();
    let m = before.len() as int;
    let n = after.len() as int;
    let rest = s.subrange(i, s.len() as int);
    let tail = path_text(pieces.drop_first(), before, after);
    let full = w + before + "::"@ + after + tail;
    if pieces.len() == 1 {
        assert(rest == w);
    } else {
        assert(rest == full);
        assert(full.len() == w.len() + m + 2 + n + tail.len());
    }
    assert(e <= s.len());
    assert forall|k: int| 0 <= k < w.len() implies s[i + k] == w[k] by {
        assert(s[i + k] == rest[k]);
        if pieces.len() > 1 {
            assert(full[k] == w[k]);
        }
    }
    assert(s[i] == w[0]);
    if pieces.len() > 1 {
        assert forall|k: int| 0 <= k < m implies s[e + k] == before[k] by {
            assert(s[e + k] == rest[e - i + k]);
            assert(full[e - i + k] == before[k]);
        }
        assert(s[e + m] == rest[e - i + m]);
        assert(full[e - i + m] == ':');
        assert(s[e + m + 1] == rest[e - i + m + 1]);
        assert(full[e - i + m + 1] == ':');
        assert forall|k: int| 0 <= k < n implies s[e + m + 2 + k] == after[k] by {
            assert(s[e + m + 2 + k] == rest[e - i + m + 2 + k]);
            assert(full[e - i + m + 2 + k] == after[k]);
        }
        assert(s.subrange(e + m + 2 + n, s.len() as int) =~= tail) by {
            assert forall|k: int| 0 <= k < tail.len() implies s.subrange(
                e + m + 2 + n,
                s.len() as int,
            )[k] == tail[k] by {
                assert(s[e + m + 2 + n + k] == rest[e - i + m + 2 + n + k]);
                assert(full[e - i + m + 2 + n + k] == tail[k]);
            }
        }
        if m > 0 {
            assert(s[e] == before[0]);
        }
    }
    assert forall|k: int| i + 1 <= k < e implies is_ident_continue(#[trigger] s[k]) by {
        assert(s[i + (k - i)] == w[k - i]);
    }
    lemma_word_end_at(s, i + 1, e);
    if w.len() >= 2 {
        assert(s[i + 1] == w[1]);
        assert(is_ident_continue(w[1]));
    }
    assert(!(i + 2 < s.len() && s[i] == 'r' && s[i + 1] == '#' && is_ident_start(s[i + 2])));
    assert(s.subrange(i, e) =~= w);
    assert(segment_end(s, i) == Some(e));
    let acc2 = acc.push(w);
    if pieces.len() == 1 {
        assert(skip_space(s, e) == e);
        assert(acc2 =~= acc + pieces);
    } else {
        let rest_pieces = pieces.drop_first();
        assert forall|k: int| e <= k < e + m implies is_space(#[trigger] s[k]) by {
            assert(s[e + (k - e)] == before[k - e]);
        }
        lemma_skip_space_at(s, e, e + m);
        assert(is_path_sep(s, e + m));
        let w1 = rest_pieces[0];
        assert(is_plain_ident(w1));
        lemma_path_text_first(rest_pieces, before, after);
        assert(s[e + m + 2 + n] == s.subrange(e + m + 2 + n, s.len() as int)[0]);
        assert forall|k: int| e + m + 2 <= k < e + m + 2 + n implies is_space(#[trigger] s[k]) by {
            assert(s[e + m + 2 + (k - e - m - 2)] == after[k - e - m - 2]);
        }
        lemma_skip_space_at(s, e + m + 2, e + m + 2 + n);
        lemma_parse_segments_path(s, e + m + 2 + n, rest_pieces, before, after, acc2);
        assert(acc2 + rest_pieces =~= acc + pieces);
    }
}

/// The text `namespace = ` that opens the attribute is read as the word `namespace` and `=`.
proof fn lemma_namespace_head(s: Seq<char>)
    requires
        s.len() >= 12,
        s.subrange(0, 12) == "namespace = "@,
    ensures
        skip_space(s, 0) == 0,
        is_ident_start(s[0]),
        s.subrange(0, word_end(s, 1)) == "namespace"@,
        skip_space(s, word_end(s, 1)) == 10,
        s[10] == '=',
{
    reveal_strlit("namespace = ");
    reveal_strlit("namespace");
    let head = "namespace = "@;
    assert forall|k: int| 0 <= k < 12 implies s[k] == head[k] by {
        assert(s[k] == s.subrange(0, 12)[k]);
    }
    assert forall|k: int| 1 <= k < 9 implies is_ident_continue(#[trigger] s[k]) by {
        assert(s[k] == head[k]);
    }
    assert(s[9] == head[9]);
    lemma_word_end_at(s, 1, 9);
    assert(s.subrange(0, 9) =~= "namespace"@);
    assert(s[10] == head[10]);
    lemma_skip_space_at(s, 9, 10);
    assert(s[0] == head[0]);
    assert(skip_space(s, 0) == 0);
}

/// The attribute `namespace = p1::...::pn`, each piece a plain identifier and blanks around each
/// `::` (none, or one space each as the tokens are printed), names the namespace made of exactly
/// those n pieces, in order.
pub proof fn lemma_namespace_of_path(pieces: Seq<Seq<char>>, before: Seq<char>, after: Seq<char>)
    requires
        pieces.len() >= 1,
        forall|k: int| 0 <= k < pieces.len() ==> is_plain_ident(#[trigger] pieces[k]),
        is_blank_run(before),
        is_blank_run(after),
    ensures
        spec_parse_namespace("namespace = "@ + path_text(pieces, before, after)) == Some(pieces),
{
    reveal_strlit("namespace = ");
    let head = "namespace = "@;
    let pt = path_text(pieces, before, after);
    let s = head + pt;
    let w = pieces[0];
    assert(is_plain_ident(w));
    lemma_path_text_first(pieces, before, after);
    assert(s.subrange(0, 12) =~= head);
    lemma_namespace_head(s);
    assert(s[11] == head[11]);
    assert(s[12] == w[0]);
    lemma_skip_space_at(s, 11, 12);
    assert(!is_path_sep(s, 12));
    assert(s.subrange(12, s.len() as int) =~= pt);
    lemma_parse_segments_path(s, 12, pieces, before, after, Seq::empty());
    assert(Seq::<Seq<char>>::empty() + pieces =~= pieces);
}

/// With a leading `::`, the attribute `namespace = :: p1::...::pn` names the same n pieces.
pub proof fn lemma_namespace_of_rooted_path(
    pieces: Seq<Seq<char>>,
    before: Seq<char>,
    after: Seq<char>,
)
    requires
        pieces.len() >= 1,
        forall|k: int| 0 <= k < pieces.len() ==> is_plain_ident(#[trigger] pieces[k]),
        is_blank_run(before),
        is_blank_run(after),
    ensures
        spec_parse_namespace("namespace = :: "@ + path_text(pieces, before, after)) == Some(pieces),
{
    reveal_strlit("namespace = :: ");
    reveal_strlit("namespace = ");
    let head = "namespace = :: "@;
    let pt = path_text(pieces, before, after);
    let s = head + pt;
    let w = pieces[0];
    assert(is_plain_ident(w));
    lemma_path_text_first(pieces, before, after);
    assert(s.subrange(0, 12) =~= "namespace = "@);
    lemma_namespace_head(s);
    assert(s[11] == head[11]);
    assert(s[12] == head[12]);
    assert(s[13] == head[13]);
    assert(s[14] == head[14]);
    assert(s[15] == w[0]);
    lemma_skip_space_at(s, 11, 12);
    assert(is_path_sep(s, 12));
    lemma_skip_space_at(s, 14, 15);
    assert(s.subrange(15, s.len() as int) =~= pt);
    lemma_parse_segments_path(s, 15, pieces, before, after, Seq::empty());
    assert(Seq::<Seq<char>>::empty() + pieces =~= pieces);
}

/// Parsing a module path adds at least one segment to what was parsed before and keeps that in
/// front: no segment is ever dropped.
pub proof fn lemma_parse_segments_extends(s: Seq<char>, i: int, acc: Seq<Seq<char>>)
    requires
        0 <= i <= s.len(),
    ensures
        parse_segments(s, i, acc) matches Some(r) ==> r.len() > acc.len() && r.subrange(
            0,
            acc.len() as int,
        ) == acc,
    decreases s.len() - i,
{
    match segment_end(s, i) {
        None => {},
        Some(e) => {
            lemma_segment_end_bounds(s, i);
            let grown = acc.push(s.subrange(i, e));
            let j = skip_space(s, e);
            lemma_skip_space_bounds(s, e);
            if j < s.len() && is_path_sep(s, j) {
                lemma_skip_space_bounds(s, j + 2);
                lemma_parse_segments_extends(s, skip_space(s, j + 2), grown);
                if let Some(r) = parse_segments(s, i, acc) {
                    assert(r.subrange(0, acc.len() as int) =~= r.subrange(0, grown.len() as int).subrange(
                        0,
                        acc.len() as int,
                    ));
                    assert(grown.subrange(0, acc.len() as int) =~= acc);
                }
            } else if j >= s.len() {
                assert(grown.subrange(0, acc.len() as int) =~= acc);
            }
        },
    }
}

} // verus!