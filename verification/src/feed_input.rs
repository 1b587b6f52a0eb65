//! Which fetched texts the feed parser reads without stopping the program.
//!
//! The parser stops on a play time (an `itunes:duration` text, a media
//! `start`, `end` or `time` attribute) with a number of twenty or more
//! digits, with hours of sixteen or more digits, or with a digit other
//! than 0 to 9, and on an e-mail address in a name field that touches a
//! character of more than one byte. The test here looks at the text as
//! the XML reader splits it (comments, processing instructions and the
//! brackets of CDATA sections drop out, and the text on both sides of them
//! is read as one), and at the raw characters for JSON feeds, and admits
//! only texts on which none of this can happen, whatever element or field
//! a piece of text belongs to. It refuses some harmless texts too.
use vstd::prelude::*;

verus! {

/// Whether a code point is a decimal digit (Unicode general category Nd,
/// version 16), the characters that the regular expression class `\d`
/// matches.
pub open spec fn decimal_digit_code(n: int) -> bool {
    ||| 48 <= n <= 57
    ||| 1632 <= n <= 1641
    ||| 1776 <= n <= 1785
    ||| 1984 <= n <= 1993
    ||| 2406 <= n <= 2415
    ||| 2534 <= n <= 2543
    ||| 2662 <= n <= 2671
    ||| 2790 <= n <= 2799
    ||| 2918 <= n <= 2927
    ||| 3046 <= n <= 3055
    ||| 3174 <= n <= 3183
    ||| 3302 <= n <= 3311
    ||| 3430 <= n <= 3439
    ||| 3558 <= n <= 3567
    ||| 3664 <= n <= 3673
    ||| 3792 <= n <= 3801
    ||| 3872 <= n <= 3881
    ||| 4160 <= n <= 4169
    ||| 4240 <= n <= 4249
    ||| 6112 <= n <= 6121
    ||| 6160 <= n <= 6169
    ||| 6470 <= n <= 6479
    ||| 6608 <= n <= 6617
    ||| 6784 <= n <= 6793
    ||| 6800 <= n <= 6809
    ||| 6992 <= n <= 7001
    ||| 7088 <= n <= 7097
    ||| 7232 <= n <= 7241
    ||| 7248 <= n <= 7257
    ||| 42528 <= n <= 42537
    ||| 43216 <= n <= 43225
    ||| 43264 <= n <= 43273
    ||| 43472 <= n <= 43481
    ||| 43504 <= n <= 43513
    ||| 43600 <= n <= 43609
    ||| 44016 <= n <= 44025
    ||| 65296 <= n <= 65305
    ||| 66720 <= n <= 66729
    ||| 68912 <= n <= 68921
    ||| 68928 <= n <= 68937
    ||| 69734 <= n <= 69743
    ||| 69872 <= n <= 69881
    ||| 69942 <= n <= 69951
    ||| 70096 <= n <= 70105
    ||| 70384 <= n <= 70393
    ||| 70736 <= n <= 70745
    ||| 70864 <= n <= 70873
    ||| 71248 <= n <= 71257
    ||| 71360 <= n <= 71369
    ||| 71376 <= n <= 71395
    ||| 71472 <= n <= 71481
    ||| 71904 <= n <= 71913
    ||| 72016 <= n <= 72025
    ||| 72688 <= n <= 72697
    ||| 72784 <= n <= 72793
    ||| 73040 <= n <= 73049
    ||| 73120 <= n <= 73129
    ||| 73552 <= n <= 73561
    ||| 90416 <= n <= 90425
    ||| 92768 <= n <= 92777
    ||| 92864 <= n <= 92873
    ||| 93008 <= n <= 93017
    ||| 93552 <= n <= 93561
    ||| 118000 <= n <= 118009
    ||| 120782 <= n <= 120831
    ||| 123200 <= n <= 123209
    ||| 123632 <= n <= 123641
    ||| 124144 <= n <= 124153
    ||| 124401 <= n <= 124410
    ||| 125264 <= n <= 125273
    ||| 130032 <= n <= 130041
}

fn is_decimal_digit_code(n: u32) -> (r: bool)
    ensures
        r == decimal_digit_code(n as int),
{
    (48 <= n && n <= 57) ||
    (1632 <= n && n <= 1641) ||
    (1776 <= n && n <= 1785) ||
    (1984 <= n && n <= 1993) ||
    (2406 <= n && n <= 2415) ||
    (2534 <= n && n <= 2543) ||
    (2662 <= n && n <= 2671) ||
    (2790 <= n && n <= 2799) ||
    (2918 <= n && n <= 2927) ||
    (3046 <= n && n <= 3055) ||
    (3174 <= n && n <= 3183) ||
    (3302 <= n && n <= 3311) ||
    (3430 <= n && n <= 3439) ||
    (3558 <= n && n <= 3567) ||
    (3664 <= n && n <= 3673) ||
    (3792 <= n && n <= 3801) ||
    (3872 <= n && n <= 3881) ||
    (4160 <= n && n <= 4169) ||
    (4240 <= n && n <= 4249) ||
    (6112 <= n && n <= 6121) ||
    (6160 <= n && n <= 6169) ||
    (6470 <= n && n <= 6479) ||
    (6608 <= n && n <= 6617) ||
    (6784 <= n && n <= 6793) ||
    (6800 <= n && n <= 6809) ||
    (6992 <= n && n <= 7001) ||
    (7088 <= n && n <= 7097) ||
    (7232 <= n && n <= 7241) ||
    (7248 <= n && n <= 7257) ||
    (42528 <= n && n <= 42537) ||
    (43216 <= n && n <= 43225) ||
    (43264 <= n && n <= 43273) ||
    (43472 <= n && n <= 43481) ||
    (43504 <= n && n <= 43513) ||
    (43600 <= n && n <= 43609) ||
    (44016 <= n && n <= 44025) ||
    (65296 <= n && n <= 65305) ||
    (66720 <= n && n <= 66729) ||
    (68912 <= n && n <= 68921) ||
    (68928 <= n && n <= 68937) ||
    (69734 <= n && n <= 69743) ||
    (69872 <= n && n <= 69881) ||
    (69942 <= n && n <= 69951) ||
    (70096 <= n && n <= 70105) ||
    (70384 <= n && n <= 70393) ||
    (70736 <= n && n <= 70745) ||
    (70864 <= n && n <= 70873) ||
    (71248 <= n && n <= 71257) ||
    (71360 <= n && n <= 71369) ||
    (71376 <= n && n <= 71395) ||
    (71472 <= n && n <= 71481) ||
    (71904 <= n && n <= 71913) ||
    (72016 <= n && n <= 72025) ||
    (72688 <= n && n <= 72697) ||
    (72784 <= n && n <= 72793) ||
    (73040 <= n && n <= 73049) ||
    (73120 <= n && n <= 73129) ||
    (73552 <= n && n <= 73561) ||
    (90416 <= n && n <= 90425) ||
    (92768 <= n && n <= 92777) ||
    (92864 <= n && n <= 92873) ||
    (93008 <= n && n <= 93017) ||
    (93552 <= n && n <= 93561) ||
    (118000 <= n && n <= 118009) ||
    (120782 <= n && n <= 120831) ||
    (123200 <= n && n <= 123209) ||
    (123632 <= n && n <= 123641) ||
    (124144 <= n && n <= 124153) ||
    (124401 <= n && n <= 124410) ||
    (125264 <= n && n <= 125273) ||
    (130032 <= n && n <= 130041)
}

/// The characters of a text.
pub fn chars_of(s: &str) -> (v: Vec<char>)
    ensures
        v@ == s@,
{
    broadcast use vstd::string::group_string_axioms;
    let mut v: Vec<char> = Vec::new();
    for c in it: s.chars()
        invariant
            v@ == it.seq().take(it.index() as int),
    {
        v.push(c);
    }
    v
}

/// Whether the character at `i` exists and is `c`.
pub open spec fn at(s: Seq<char>, i: int, c: char) -> bool {
    0 <= i < s.len() && s[i] == c
}

fn at_exec(v: &Vec<char>, i: usize, k: usize, c: char) -> (r: bool)
    ensures
        r == at(v@, i + k, c),
{
    i < v.len() && k < v.len() - i && v[i + k] == c
}

/// Whether a character is a digit from 0 to 9.
pub open spec fn is_ascii_digit(c: char) -> bool {
    48 <= (c as u32) <= 57
}

/// Whether a character takes one byte.
pub open spec fn is_ascii(c: char) -> bool {
    (c as u32) < 128
}

/// Whether a character is an ASCII letter or digit.
pub open spec fn is_ascii_alphanumeric(c: char) -> bool {
    let n = c as u32;
    (48 <= n <= 57) || (65 <= n <= 90) || (97 <= n <= 122)
}

/// The characters of which an e-mail match, with its brackets and `mailto:`,
/// is made, and those of the escapes that may stand for one of them or
/// for any other character: `&`, `#`, `;` and `\`.
pub open spec fn in_address(c: char) -> bool {
    ||| is_ascii_alphanumeric(c)
    ||| c == '.' || c == '_' || c == '%' || c == '+' || c == '-' || c == '@' || c == ':'
    ||| c == '<' || c == '[' || c == '(' || c == '>' || c == ']' || c == ')'
    ||| c == '&' || c == '#' || c == ';' || c == '\\'
}

/// The stretch of address characters read last: whether it holds `@`,
/// whether it holds an escape, and whether the character before it takes
/// one byte (or there is none).
#[derive(Clone, Copy)]
pub struct Stretch {
    pub at_sign: bool,
    pub escape: bool,
    pub ascii_before: bool,
}

/// No stretch read yet.
pub open spec fn fresh_stretch() -> Stretch {
    Stretch { at_sign: false, escape: false, ascii_before: true }
}

/// Whether a stretch may end: one with `@` holds no escape and has a
/// one-byte character before it.
pub open spec fn stretch_closes(r: Stretch) -> bool {
    !r.at_sign || (!r.escape && r.ascii_before)
}

/// The stretch after one more character, or `None` where a stretch with
/// `@` ends badly: it holds an escape, or a character of more than one
/// byte stands on either side of it.
pub open spec fn stretch_next(r: Stretch, c: char) -> Option<Stretch> {
    if in_address(c) {
        Some(Stretch {
            at_sign: r.at_sign || c == '@',
            escape: r.escape || c == '&' || c == '\\',
            ascii_before: r.ascii_before,
        })
    } else if stretch_closes(r) && (!r.at_sign || is_ascii(c)) {
        Some(Stretch { at_sign: false, escape: false, ascii_before: is_ascii(c) })
    } else {
        None
    }
}

fn stretch_next_exec(r: Stretch, c: char) -> (out: Option<Stretch>)
    ensures
        out == stretch_next(r, c),
{
    let n = c as u32;
    let alnum = (48 <= n && n <= 57) || (65 <= n && n <= 90) || (97 <= n && n <= 122);
    if alnum || c == '.' || c == '_' || c == '%' || c == '+' || c == '-' || c == '@' || c == ':'
        || c == '<' || c == '[' || c == '(' || c == '>' || c == ']' || c == ')' || c == '&' || c == '#'
        || c == ';' || c == '\\' {
        Some(Stretch {
            at_sign: r.at_sign || c == '@',
            escape: r.escape || c == '&' || c == '\\',
            ascii_before: r.ascii_before,
        })
    } else if (!r.at_sign || (!r.escape && r.ascii_before)) && (!r.at_sign || n < 128) {
        Some(Stretch { at_sign: false, escape: false, ascii_before: n < 128 })
    } else {
        None
    }
}

/// The length of the run of digits read last after one more character,
/// or `None` where it reaches twenty, or where a run of sixteen or more
/// ends in a colon (the hours of a play time, which the parser multiplies
/// by 3600).
pub open spec fn digits_next(d: usize, c: char) -> Option<usize> {
    if is_ascii_digit(c) {
        if d < 19 {
            Some((d + 1) as usize)
        } else {
            None
        }
    } else if c == ':' && d >= 16 {
        None
    } else {
        Some(0usize)
    }
}

/// Where the XML reader stands.
#[derive(Clone, Copy)]
pub enum Lex {
    /// In text between tags.
    Text,
    /// In a comment.
    Comment,
    /// In the content of a CDATA section.
    Cdata,
    /// In a processing instruction or the XML declaration.
    Instruction,
    /// In a tag, outside quotes.
    Tag,
    /// In a tag, inside single quotes.
    TagSingle,
    /// In a tag, inside double quotes.
    TagDouble,
}

/// The state of the scan: where the reader stands, how many characters of
/// a delimiter are still to pass, the digit run and address stretch of the
/// text the reader keeps, and the address stretch of the raw characters.
#[derive(Clone, Copy)]
pub struct Scan {
    pub lex: Lex,
    pub skip: usize,
    pub digits: usize,
    pub kept: Stretch,
    pub raw: Stretch,
}

/// The state before the first character.
pub open spec fn scan_start() -> Scan {
    Scan { lex: Lex::Text, skip: 0, digits: 0, kept: fresh_stretch(), raw: fresh_stretch() }
}

/// The state after a character that the reader keeps as text (or as part
/// of a tag), or `None` where it ends a bad digit run or address stretch.
pub open spec fn keep(st: Scan, lex: Lex, c: char) -> Option<Scan> {
    match digits_next(st.digits, c) {
        None => None,
        Some(d) => match stretch_next(st.kept, c) {
            None => None,
            Some(k) => Some(Scan { lex, skip: st.skip, digits: d, kept: k, raw: st.raw }),
        },
    }
}

/// The state after a character that the reader drops.
pub open spec fn pass_over(st: Scan, lex: Lex, skip: usize) -> Scan {
    Scan { lex, skip, digits: st.digits, kept: st.kept, raw: st.raw }
}

/// `<!--` at `i`.
pub open spec fn comment_opens(s: Seq<char>, i: int) -> bool {
    at(s, i, '<') && at(s, i + 1, '!') && at(s, i + 2, '-') && at(s, i + 3, '-')
}

/// `<![CDATA[` at `i`.
pub open spec fn cdata_opens(s: Seq<char>, i: int) -> bool {
    &&& at(s, i, '<') && at(s, i + 1, '!') && at(s, i + 2, '[')
    &&& at(s, i + 3, 'C') && at(s, i + 4, 'D') && at(s, i + 5, 'A')
    &&& at(s, i + 6, 'T') && at(s, i + 7, 'A') && at(s, i + 8, '[')
}

/// `encoding` at `i`.
pub open spec fn names_encoding(s: Seq<char>, i: int) -> bool {
    &&& at(s, i, 'e') && at(s, i + 1, 'n') && at(s, i + 2, 'c') && at(s, i + 3, 'o')
    &&& at(s, i + 4, 'd') && at(s, i + 5, 'i') && at(s, i + 6, 'n') && at(s, i + 7, 'g')
}

/// `="UTF-8"`, `='UTF-8'`, `="utf-8"` or `='utf-8'` at `j`.
pub open spec fn utf8_label(s: Seq<char>, j: int) -> bool {
    &&& at(s, j, '=')
    &&& (at(s, j + 1, '"') && at(s, j + 7, '"')) || (at(s, j + 1, '\'') && at(s, j + 7, '\''))
    &&& (at(s, j + 2, 'U') && at(s, j + 3, 'T') && at(s, j + 4, 'F')) || (at(s, j + 2, 'u') && at(s, j + 3, 't')
        && at(s, j + 4, 'f'))
    &&& at(s, j + 5, '-') && at(s, j + 6, '8')
}

/// Where a tag goes on after character `c`: quotes open and close, and `>`
/// outside quotes ends it.
pub open spec fn tag_next(lex: Lex, c: char) -> Lex {
    match lex {
        Lex::TagSingle => if c == '\'' { Lex::Tag } else { Lex::TagSingle },
        Lex::TagDouble => if c == '"' { Lex::Tag } else { Lex::TagDouble },
        _ => if c == '>' {
            Lex::Text
        } else if c == '\'' {
            Lex::TagSingle
        } else if c == '"' {
            Lex::TagDouble
        } else {
            Lex::Tag
        },
    }
}

/// One character of the scan, as the XML reader reads it: `None` where the
/// text is refused (a document type or other `<!` markup, a declared
/// encoding other than UTF-8, a bad digit run, a bad address
/// stretch in the kept text).
pub open spec fn lex_step(s: Seq<char>, i: int, st: Scan) -> Option<Scan> {
    let c = s[i];
    if st.skip > 0 {
        Some(pass_over(st, st.lex, (st.skip - 1) as usize))
    } else {
        match st.lex {
            Lex::Text => if at(s, i, '<') && at(s, i + 1, '!') {
                if comment_opens(s, i) {
                    Some(pass_over(st, Lex::Comment, 3))
                } else if cdata_opens(s, i) {
                    Some(pass_over(st, Lex::Cdata, 8))
                } else {
                    None
                }
            } else if at(s, i, '<') && at(s, i + 1, '?') {
                Some(pass_over(st, Lex::Instruction, 0))
            } else if c == '<' {
                keep(st, Lex::Tag, c)
            } else {
                keep(st, Lex::Text, c)
            },
            Lex::Comment => if at(s, i, '-') && at(s, i + 1, '-') && at(s, i + 2, '>') {
                Some(pass_over(st, Lex::Text, 2))
            } else {
                Some(pass_over(st, Lex::Comment, 0))
            },
            Lex::Cdata => if at(s, i, ']') && at(s, i + 1, ']') && at(s, i + 2, '>') {
                Some(pass_over(st, Lex::Text, 2))
            } else {
                keep(st, Lex::Cdata, c)
            },
            Lex::Instruction => if names_encoding(s, i) && !utf8_label(s, i + 8) {
                None
            } else if at(s, i, '?') && at(s, i + 1, '>') {
                Some(pass_over(st, Lex::Text, 1))
            } else {
                Some(pass_over(st, Lex::Instruction, 0))
            },
            _ => keep(st, tag_next(st.lex, c), c),
        }
    }
}

/// One character of the scan: the raw address stretch, then the reader.
pub open spec fn scan_step(s: Seq<char>, i: int, st: Scan) -> Option<Scan> {
    match stretch_next(st.raw, s[i]) {
        None => None,
        Some(raw) => lex_step(s, i, Scan { lex: st.lex, skip: st.skip, digits: st.digits, kept: st.kept, raw }),
    }
}

/// Whether the scan from position `i` on, in state `st`, admits the text.
pub open spec fn scan_from(s: Seq<char>, i: int, st: Scan) -> bool
    decreases s.len() - i,
{
    if i >= s.len() {
        stretch_closes(st.raw) && stretch_closes(st.kept)
    } else {
        match scan_step(s, i, st) {
            None => false,
            Some(next) => scan_from(s, i + 1, next),
        }
    }
}

/// Whether the whole text passes the scan.
pub open spec fn markup_safe(s: Seq<char>) -> bool {
    scan_from(s, 0, scan_start())
}

fn digits_next_exec(d: usize, c: char) -> (r: Option<usize>)
    ensures
        r == digits_next(d, c),
{
    let n = c as u32;
    if 48 <= n && n <= 57 {
        if d < 19 {
            Some(d + 1)
        } else {
            None
        }
    } else if c == ':' && d >= 16 {
        None
    } else {
        Some(0)
    }
}

fn keep_exec(st: Scan, lex: Lex, c: char) -> (r: Option<Scan>)
    ensures
        r == keep(st, lex, c),
{
    match digits_next_exec(st.digits, c) {
        None => None,
        Some(d) => match stretch_next_exec(st.kept, c) {
            None => None,
            Some(k) => Some(Scan { lex, skip: st.skip, digits: d, kept: k, raw: st.raw }),
        },
    }
}

fn pass_over_exec(st: Scan, lex: Lex, skip: usize) -> (r: Scan)
    ensures
        r == pass_over(st, lex, skip),
{
    Scan { lex, skip, digits: st.digits, kept: st.kept, raw: st.raw }
}

fn names_encoding_exec(v: &Vec<char>, i: usize) -> (r: bool)
    ensures
        r == names_encoding(v@, i as int),
{
    at_exec(v, i, 0, 'e') && at_exec(v, i, 1, 'n') && at_exec(v, i, 2, 'c') && at_exec(v, i, 3, 'o')
        && at_exec(v, i, 4, 'd') && at_exec(v, i, 5, 'i') && at_exec(v, i, 6, 'n') && at_exec(v, i, 7, 'g')
}

fn utf8_label_exec(v: &Vec<char>, i: usize) -> (r: bool)
    ensures
        r == utf8_label(v@, i + 8),
{
    at_exec(v, i, 8, '=')
        && ((at_exec(v, i, 9, '"') && at_exec(v, i, 15, '"')) || (at_exec(v, i, 9, '\'') && at_exec(v, i, 15, '\'')))
        && ((at_exec(v, i, 10, 'U') && at_exec(v, i, 11, 'T') && at_exec(v, i, 12, 'F')) || (at_exec(v, i, 10, 'u')
        && at_exec(v, i, 11, 't') && at_exec(v, i, 12, 'f'))) && at_exec(v, i, 13, '-') && at_exec(v, i, 14, '8')
}

fn cdata_opens_exec(v: &Vec<char>, i: usize) -> (r: bool)
    ensures
        r == cdata_opens(v@, i as int),
{
    at_exec(v, i, 0, '<') && at_exec(v, i, 1, '!') && at_exec(v, i, 2, '[') && at_exec(v, i, 3, 'C')
        && at_exec(v, i, 4, 'D') && at_exec(v, i, 5, 'A') && at_exec(v, i, 6, 'T') && at_exec(v, i, 7, 'A')
        && at_exec(v, i, 8, '[')
}

fn tag_next_exec(lex: Lex, c: char) -> (r: Lex)
    ensures
        r == tag_next(lex, c),
{
    match lex {
        Lex::TagSingle => if c == '\'' { Lex::Tag } else { Lex::TagSingle },
        Lex::TagDouble => if c == '"' { Lex::Tag } else { Lex::TagDouble },
        _ => if c == '>' {
            Lex::Text
        } else if c == '\'' {
            Lex::TagSingle
        } else if c == '"' {
            Lex::TagDouble
        } else {
            Lex::Tag
        },
    }
}

fn lex_step_exec(v: &Vec<char>, i: usize, st: Scan) -> (r: Option<Scan>)
    requires
        i < v.len(),
    ensures
        r == lex_step(v@, i as int, st),
{
    let c = v[i];
    if st.skip > 0 {
        Some(pass_over_exec(st, st.lex, st.skip - 1))
    } else {
        match st.lex {
            Lex::Text => if at_exec(v, i, 0, '<') && at_exec(v, i, 1, '!') {
                if at_exec(v, i, 2, '-') && at_exec(v, i, 3, '-') {
                    Some(pass_over_exec(st, Lex::Comment, 3))
                } else if cdata_opens_exec(v, i) {
                    Some(pass_over_exec(st, Lex::Cdata, 8))
                } else {
                    None
                }
            } else if at_exec(v, i, 0, '<') && at_exec(v, i, 1, '?') {
                Some(pass_over_exec(st, Lex::Instruction, 0))
            } else if c == '<' {
                keep_exec(st, Lex::Tag, c)
            } else {
                keep_exec(st, Lex::Text, c)
            },
            Lex::Comment => if at_exec(v, i, 0, '-') && at_exec(v, i, 1, '-') && at_exec(v, i, 2, '>') {
                Some(pass_over_exec(st, Lex::Text, 2))
            } else {
                Some(pass_over_exec(st, Lex::Comment, 0))
            },
            Lex::Cdata => if at_exec(v, i, 0, ']') && at_exec(v, i, 1, ']') && at_exec(v, i, 2, '>') {
                Some(pass_over_exec(st, Lex::Text, 2))
            } else {
                keep_exec(st, Lex::Cdata, c)
            },
            Lex::Instruction => if names_encoding_exec(v, i) && !utf8_label_exec(v, i) {
                None
            } else if at_exec(v, i, 0, '?') && at_exec(v, i, 1, '>') {
                Some(pass_over_exec(st, Lex::Text, 1))
            } else {
                Some(pass_over_exec(st, Lex::Instruction, 0))
            },
            _ => keep_exec(st, tag_next_exec(st.lex, c), c),
        }
    }
}

fn scan_step_exec(v: &Vec<char>, i: usize, st: Scan) -> (r: Option<Scan>)
    requires
        i < v.len(),
    ensures
        r == scan_step(v@, i as int, st),
{
    match stretch_next_exec(st.raw, v[i]) {
        None => None,
        Some(raw) => lex_step_exec(v, i, Scan { lex: st.lex, skip: st.skip, digits: st.digits, kept: st.kept, raw }),
    }
}

fn scan_markup(v: &Vec<char>) -> (r: bool)
    ensures
        r == markup_safe(v@),
{
    let fresh = Stretch { at_sign: false, escape: false, ascii_before: true };
    let mut st = Scan { lex: Lex::Text, skip: 0, digits: 0, kept: fresh, raw: fresh };
    let mut i: usize = 0;
    while i < v.len()
        invariant
            i <= v.len(),
            markup_safe(v@) == scan_from(v@, i as int, st),
        decreases v.len() - i,
    {
        match scan_step_exec(v, i, st) {
            None => {
                return false;
            },
            Some(next) => {
                st = next;
            },
        }
        i = i + 1;
    }
    (!st.raw.at_sign || (!st.raw.escape && st.raw.ascii_before)) && (!st.kept.at_sign || (!st.kept.escape
        && st.kept.ascii_before))
}

/// No NUL character, without which the reader takes the text as UTF-8.
pub open spec fn no_nul(s: Seq<char>) -> bool {
    forall|i: int| 0 <= i < s.len() ==> s[i] != '\0'
}

/// No decimal digit other than 0 to 9.
pub open spec fn no_foreign_digit(s: Seq<char>) -> bool {
    forall|i: int| 0 <= i < s.len() ==> !(128 <= (s[i] as u32) && decimal_digit_code((s[i] as u32) as int))
}

/// Whether a character is a digit of a character reference: decimal, or
/// hexadecimal where `hex` holds.
pub open spec fn is_base_digit(c: char, hex: bool) -> bool {
    let n = c as u32;
    (48 <= n <= 57) || (hex && ((97 <= n <= 102) || (65 <= n <= 70)))
}

/// Whether the character at `i` exists and is a digit.
pub open spec fn digit_at(s: Seq<char>, i: int, hex: bool) -> bool {
    0 <= i < s.len() && is_base_digit(s[i], hex)
}

/// The value of a digit.
pub open spec fn digit_value(c: char) -> nat {
    let n = c as u32;
    if 48 <= n <= 57 {
        (n - 48) as nat
    } else if 97 <= n <= 102 {
        (n - 87) as nat
    } else {
        (n - 55) as nat
    }
}

/// The base of a character reference.
pub open spec fn base(hex: bool) -> nat {
    if hex {
        16
    } else {
        10
    }
}

/// How many digits follow from position `j` on.
pub open spec fn digit_count(s: Seq<char>, j: int, hex: bool) -> nat
    decreases s.len() - j,
{
    if 0 <= j < s.len() && is_base_digit(s[j], hex) {
        1 + digit_count(s, j + 1, hex)
    } else {
        0
    }
}

/// The number that the `n` digits from position `j` on write.
pub open spec fn number_value(s: Seq<char>, j: int, n: nat, hex: bool) -> nat
    decreases n,
{
    if n == 0 {
        0
    } else {
        number_value(s, j, (n - 1) as nat, hex) * base(hex) + digit_value(s[j + n - 1])
    }
}

/// A character that a character reference may stand for: a code point
/// that is neither a decimal digit, nor `:` (which ends the hours of a
/// play time), nor `@`.
pub open spec fn harmless_code(v: nat) -> bool {
    v <= 0x10FFFF && !decimal_digit_code(v as int) && v != 58 && v != 64
}

/// Whether the number of a character reference starts at `j`, ends with
/// `;` and stands for a harmless character.
pub open spec fn reference_ok(s: Seq<char>, j: int, hex: bool) -> bool {
    let n = digit_count(s, j, hex);
    n >= 1 && at(s, j + n, ';') && harmless_code(number_value(s, j, n, hex))
}

/// Whether the character reference whose `&#` ends before `j` is harmless.
pub open spec fn char_ref_ok(s: Seq<char>, j: int) -> bool {
    if at(s, j, 'x') {
        reference_ok(s, j + 1, true)
    } else {
        reference_ok(s, j, false)
    }
}

/// Every character reference stands for a harmless character.
pub open spec fn char_refs_ok(s: Seq<char>) -> bool {
    forall|i: int| #[trigger] at(s, i, '&') && at(s, i + 1, '#') ==> char_ref_ok(s, i + 2)
}

/// `\u0040`, the JSON escape of `@`, at `i`.
pub open spec fn escaped_at_sign(s: Seq<char>, i: int) -> bool {
    &&& at(s, i, '\\') && at(s, i + 1, 'u') && at(s, i + 2, '0')
    &&& at(s, i + 3, '0') && at(s, i + 4, '4') && at(s, i + 5, '0')
}

/// No `@` written as a JSON escape.
pub open spec fn no_escaped_at_sign(s: Seq<char>) -> bool {
    forall|i: int| !#[trigger] escaped_at_sign(s, i)
}

/// Whether the feed parser reads a text without stopping the program, as
/// far as this test can tell: no NUL, no digit other than 0 to 9, only
/// harmless character references, no `@` written as a JSON escape, and
/// the scan of its markup passes.
pub open spec fn feed_input_safe(s: Seq<char>) -> bool {
    &&& no_nul(s)
    &&& no_foreign_digit(s)
    &&& char_refs_ok(s)
    &&& no_escaped_at_sign(s)
    &&& markup_safe(s)
}

proof fn lemma_count_exact(s: Seq<char>, j: int, k: int, hex: bool)
    requires
        0 <= j <= k,
        forall|m: int| j <= m < k ==> #[trigger] digit_at(s, m, hex),
        !(0 <= k < s.len() && is_base_digit(s[k], hex)),
    ensures
        digit_count(s, j, hex) == k - j,
    decreases k - j,
{
    if j < k {
        assert(digit_at(s, j, hex));
        lemma_count_exact(s, j + 1, k, hex);
    }
}

proof fn lemma_count_at_least(s: Seq<char>, j: int, k: int, hex: bool)
    requires
        0 <= j <= k,
        forall|m: int| j <= m < k ==> #[trigger] digit_at(s, m, hex),
    ensures
        digit_count(s, j, hex) >= k - j,
    decreases k - j,
{
    if j < k {
        assert(digit_at(s, j, hex));
        lemma_count_at_least(s, j + 1, k, hex);
    }
}

proof fn lemma_value_grows(s: Seq<char>, j: int, m: nat, n: nat, hex: bool)
    requires
        m <= n,
    ensures
        number_value(s, j, m, hex) <= number_value(s, j, n, hex),
    decreases n - m,
{
    if m < n {
        let p = (n - 1) as nat;
        lemma_value_grows(s, j, m, p, hex);
        let x = number_value(s, j, p, hex);
        let b = base(hex);
        assert(x * b >= x) by (nonlinear_arith)
            requires
                b >= 1,
        ;
    }
}

fn is_base_digit_exec(c: char, hex: bool) -> (r: bool)
    ensures
        r == is_base_digit(c, hex),
{
    let n = c as u32;
    (48 <= n && n <= 57) || (hex && ((97 <= n && n <= 102) || (65 <= n && n <= 70)))
}

fn digit_value_exec(c: char) -> (r: u32)
    requires
        is_base_digit(c, true),
    ensures
        r == digit_value(c),
        r < 16,
{
    let n = c as u32;
    if 48 <= n && n <= 57 {
        n - 48
    } else if 97 <= n && n <= 102 {
        n - 87
    } else {
        n - 55
    }
}

fn check_reference(v: &Vec<char>, j: usize, hex: bool) -> (r: bool)
    requires
        j <= v.len(),
    ensures
        r == reference_ok(v@, j as int, hex),
{
    let mut k: usize = j;
    let mut val: u32 = 0;
    while k < v.len() && is_base_digit_exec(v[k], hex)
        invariant
            j <= k <= v.len(),
            val <= 0x10FFFF,
            val as nat == number_value(v@, j as int, (k - j) as nat, hex),
            forall|m: int| j <= m < k ==> #[trigger] digit_at(v@, m, hex),
        decreases v.len() - k,
    {
        let d = digit_value_exec(v[k]);
        let next: u32 = if hex {
            val * 16 + d
        } else {
            val * 10 + d
        };
        assert(next as nat == number_value(v@, j as int, (k + 1 - j) as nat, hex));
        if next > 0x10FFFF {
            proof {
                lemma_count_at_least(v@, j as int, k + 1, hex);
                lemma_value_grows(v@, j as int, (k + 1 - j) as nat, digit_count(v@, j as int, hex), hex);
            }
            return false;
        }
        val = next;
        k = k + 1;
    }
    proof {
        lemma_count_exact(v@, j as int, k as int, hex);
    }
    if k == j || !(k < v.len() && v[k] == ';') {
        return false;
    }
    !is_decimal_digit_code(val) && val != 58 && val != 64
}

fn check_char_refs(v: &Vec<char>) -> (r: bool)
    ensures
        r == char_refs_ok(v@),
{
    let mut i: usize = 0;
    while i < v.len()
        invariant
            i <= v.len(),
            forall|k: int| 0 <= k < i && #[trigger] at(v@, k, '&') && at(v@, k + 1, '#') ==> char_ref_ok(v@, k + 2),
        decreases v.len() - i,
    {
        if v[i] == '&' && i + 1 < v.len() && v[i + 1] == '#' {
            let j = i + 2;
            let ok = if at_exec(v, j, 0, 'x') {
                check_reference(v, j + 1, true)
            } else {
                check_reference(v, j, false)
            };
            if !ok {
                assert(at(v@, i as int, '&') && at(v@, i + 1, '#') && !char_ref_ok(v@, i + 2));
                return false;
            }
        }
        i = i + 1;
    }
    assert forall|k: int| #[trigger] at(v@, k, '&') && at(v@, k + 1, '#') implies char_ref_ok(v@, k + 2) by {
        assert(0 <= k < i);
    }
    true
}

fn check_no_nul(v: &Vec<char>) -> (r: bool)
    ensures
        r == no_nul(v@),
{
    let mut i: usize = 0;
    while i < v.len()
        invariant
            i <= v.len(),
            forall|k: int| 0 <= k < i ==> v@[k] != '\0',
        decreases v.len() - i,
    {
        if v[i] == '\0' {
            return false;
        }
        i = i + 1;
    }
    true
}

fn check_no_foreign_digit(v: &Vec<char>) -> (r: bool)
    ensures
        r == no_foreign_digit(v@),
{
    let mut i: usize = 0;
    while i < v.len()
        invariant
            i <= v.len(),
            forall|k: int| 0 <= k < i ==> !(128 <= (v@[k] as u32) && decimal_digit_code((v@[k] as u32) as int)),
        decreases v.len() - i,
    {
        let n = v[i] as u32;
        if 128 <= n && is_decimal_digit_code(n) {
            return false;
        }
        i = i + 1;
    }
    true
}

fn check_no_escaped_at_sign(v: &Vec<char>) -> (r: bool)
    ensures
        r == no_escaped_at_sign(v@),
{
    let mut i: usize = 0;
    while i < v.len()
        invariant
            i <= v.len(),
            forall|k: int| 0 <= k < i ==> !#[trigger] escaped_at_sign(v@, k),
        decreases v.len() - i,
    {
        if at_exec(v, i, 0, '\\') && at_exec(v, i, 1, 'u') && at_exec(v, i, 2, '0') && at_exec(v, i, 3, '0')
            && at_exec(v, i, 4, '4') && at_exec(v, i, 5, '0') {
            assert(escaped_at_sign(v@, i as int));
            return false;
        }
        i = i + 1;
    }
    assert forall|k: int| !#[trigger] escaped_at_sign(v@, k) by {
        if 0 <= k < v@.len() {
        } else {
            assert(!at(v@, k, '\\'));
        }
    }
    true
}

/// Whether the feed parser can be handed a fetched text: see
/// `feed_input_safe`.
pub fn feed_input_is_safe(body: &str) -> (r: bool)
    ensures
        r == feed_input_safe(body@),
{
    let v = chars_of(body);
    check_no_nul(&v) && check_no_foreign_digit(&v) && check_char_refs(&v) && check_no_escaped_at_sign(&v)
        && scan_markup(&v)
}

} // verus!
