//! The spelling in which a query text is handed to the grammar.
//!
//! To strip the indentation of a block string the grammar cuts each of its
//! lines at a byte offset inside the white space that opens the line. Where
//! that white space holds a character of several bytes the cut can fall
//! inside it, and the grammar panics. A text is therefore handed over as it
//! stands only if one of three things rules this out:
//! - the text is narrow, made of ASCII and byte order marks alone: no white
//!   space of several bytes is ASCII, and the byte order mark is no white
//!   space;
//! - the text holds no string literal at all: a literal begins at a double
//!   quote outside a comment, and a comment runs from a `#` to the end of
//!   its line;
//! - the text holds no three double quotes in a row, with which a block
//!   string begins.
//!
//! Any other text is handed over respelled, with a `?` in place of every
//! character that is not narrow. The grammar has one rule for all those
//! characters, and the same rule for `?`: they may stand in a string value
//! or in a comment, and nowhere else. The library reads neither.

use vstd::prelude::*;
use vstd::utf8::encode_utf8;
use vstd::string::StringSliceAdditionalSpecFns;

verus! {

/// The byte `"`.
pub const QUOTE: u8 = 0x22;

/// The byte `#`.
pub const HASH: u8 = 0x23;

/// The byte of a line feed.
pub const LINE_FEED: u8 = 0x0a;

/// The byte of a carriage return.
pub const CARRIAGE_RETURN: u8 = 0x0d;

/// A byte that ends a line, and a comment with it.
pub open spec fn is_line_break(byte: u8) -> bool {
    byte == LINE_FEED || byte == CARRIAGE_RETURN
}

/// A `#` stands at `start`, and no line ends between it and `at`.
pub open spec fn comment_reaches(bytes: Seq<u8>, start: int, at: int) -> bool {
    &&& 0 <= start < at
    &&& bytes[start] == HASH
    &&& forall|k: int| start < k < at ==> !is_line_break(#[trigger] bytes[k])
}

/// The position `at` lies inside a comment.
pub open spec fn in_comment(bytes: Seq<u8>, at: int) -> bool {
    exists|start: int| comment_reaches(bytes, start, at)
}

/// A double quote stands at `at`, outside every comment.
pub open spec fn literal_starts(bytes: Seq<u8>, at: int) -> bool {
    &&& 0 <= at < bytes.len()
    &&& bytes[at] == QUOTE
    &&& !in_comment(bytes, at)
}

/// Some string literal begins in the text.
pub open spec fn has_string_literal(bytes: Seq<u8>) -> bool {
    exists|at: int| literal_starts(bytes, at)
}

/// The byte order mark, which the grammar skips between tokens.
pub const BYTE_ORDER_MARK: char = '\u{feff}';

/// What stands in for a character that is not narrow.
pub const STAND_IN: char = '?';

/// A character that is ASCII or the byte order mark.
pub open spec fn is_narrow_char(c: char) -> bool {
    c <= '\u{7f}' || c == BYTE_ORDER_MARK
}

/// A text made of narrow characters.
pub open spec fn is_narrow(text: Seq<char>) -> bool {
    forall|i: int| 0 <= i < text.len() ==> is_narrow_char(#[trigger] text[i])
}

/// Three double quotes stand in a row at `at`.
pub open spec fn block_quote_at(bytes: Seq<u8>, at: int) -> bool {
    &&& 0 <= at
    &&& at + 2 < bytes.len()
    &&& bytes[at] == QUOTE
    &&& bytes[at + 1] == QUOTE
    &&& bytes[at + 2] == QUOTE
}

/// Three double quotes stand in a row somewhere in the text.
pub open spec fn has_block_quote(bytes: Seq<u8>) -> bool {
    exists|at: int| block_quote_at(bytes, at)
}

/// The texts that are handed to the grammar as they stand.
pub open spec fn admitted(text: Seq<char>) -> bool {
    ||| is_narrow(text)
    ||| !has_string_literal(encode_utf8(text))
    ||| !has_block_quote(encode_utf8(text))
}

/// The text with a stand-in for every character that is not narrow.
pub open spec fn respelled(text: Seq<char>) -> Seq<char> {
    text.map_values(|c: char| if is_narrow_char(c) { c } else { STAND_IN })
}

/// The spelling in which a text is handed to the grammar.
pub open spec fn grammar_text(text: Seq<char>) -> Seq<char> {
    if admitted(text) {
        text
    } else {
        respelled(text)
    }
}

/// A respelled text is narrow, so it is admitted; and respelling changes
/// nothing in a text that is narrow already.
pub proof fn lemma_respelled_is_narrow(text: Seq<char>)
    ensures
        is_narrow(respelled(text)),
        admitted(respelled(text)),
        admitted(grammar_text(text)),
        is_narrow(text) ==> respelled(text) == text,
{
    if is_narrow(text) {
        assert(respelled(text) =~= text);
    }
}

/// A position after `at` lies in a comment exactly if a comment begins at
/// `at`, or one reaches `at` and the line does not end there.
pub proof fn lemma_comment_step(bytes: Seq<u8>, at: int)
    requires
        0 <= at < bytes.len(),
    ensures
        in_comment(bytes, at + 1) <==> bytes[at] == HASH || (in_comment(bytes, at)
            && !is_line_break(bytes[at])),
{
    let next = at + 1;
    if bytes[at] == HASH {
        assert(comment_reaches(bytes, at, next));
    }
    if in_comment(bytes, at) && !is_line_break(bytes[at]) {
        let start = choose|start: int| comment_reaches(bytes, start, at);
        assert(comment_reaches(bytes, start, next));
    }
    if in_comment(bytes, next) {
        let start = choose|start: int| comment_reaches(bytes, start, next);
        if start < at {
            assert(comment_reaches(bytes, start, at));
            assert(!is_line_break(bytes[at]));
        }
    }
}

/// Whether some string literal begins in the text.
pub fn holds_string_literal(text: &str) -> (r: bool)
    ensures
        r == has_string_literal(text.spec_bytes()),
{
    let bytes = text.as_bytes();
    let n: usize = bytes.len();
    let mut commented = false;
    let mut i: usize = 0;
    while i < n
        invariant
            n == bytes@.len(),
            bytes@ == text.spec_bytes(),
            i <= n,
            commented == in_comment(bytes@, i as int),
            forall|at: int| 0 <= at < i ==> !literal_starts(bytes@, at),
        decreases n - i,
    {
        let byte: u8 = bytes[i];
        if !commented && byte == QUOTE {
            assert(literal_starts(bytes@, i as int));
            return true;
        }
        proof {
            lemma_comment_step(bytes@, i as int);
        }
        commented = byte == HASH || (commented && byte != LINE_FEED && byte != CARRIAGE_RETURN);
        i += 1;
    }
    false
}

/// `String::push` of std appends the character to the end of the string.
pub assume_specification[ std::string::String::push ](text: &mut String, c: char)
    ensures
        final(text)@ == old(text)@.push(c),
;

/// Whether the text is made of narrow characters.
pub fn is_narrow_text(text: &str) -> (r: bool)
    ensures
        r == is_narrow(text@),
{
    for c in it: text.chars()
        invariant
            it.seq() == text@,
            forall|i: int| 0 <= i < it.index() ==> is_narrow_char(#[trigger] text@[i]),
    {
        if !(c <= '\u{7f}' || c == BYTE_ORDER_MARK) {
            return false;
        }
    }
    true
}

/// Whether three double quotes stand in a row somewhere in the text.
pub fn holds_block_quote(text: &str) -> (r: bool)
    ensures
        r == has_block_quote(text.spec_bytes()),
{
    let bytes = text.as_bytes();
    let n: usize = bytes.len();
    if n < 3 {
        return false;
    }
    let mut i: usize = 0;
    while i < n - 2
        invariant
            n == bytes@.len(),
            bytes@ == text.spec_bytes(),
            n >= 3,
            i <= n - 2,
            forall|at: int| 0 <= at < i ==> !block_quote_at(bytes@, at),
        decreases n - i,
    {
        if bytes[i] == QUOTE && bytes[i + 1] == QUOTE && bytes[i + 2] == QUOTE {
            assert(block_quote_at(bytes@, i as int));
            return true;
        }
        i += 1;
    }
    false
}

/// Whether the text is handed to the grammar as it stands.
pub fn is_admitted(text: &str) -> (r: bool)
    ensures
        r == admitted(text@),
{
    is_narrow_text(text) || !holds_string_literal(text) || !holds_block_quote(text)
}

/// Writes the text anew, with a stand-in for every character that is not narrow.
pub fn respell(text: &str) -> (r: String)
    ensures
        r@ == respelled(text@),
{
    let mut spelling = String::new();
    for c in it: text.chars()
        invariant
            it.seq() == text@,
            spelling@ == respelled(text@.take(it.index())),
    {
        spelling.push(if c <= '\u{7f}' || c == BYTE_ORDER_MARK { c } else { STAND_IN });
    }
    spelling
}

} // verus!
