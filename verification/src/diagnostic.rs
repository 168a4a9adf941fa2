//! A readable rendering of a chunk type, for logs and debugging.

use crate::chunk::is_critical;
use crate::chunk::is_private;
use crate::chunk::reserved_set;
use crate::chunk::safe_to_copy;
use crate::chunk::ChunkType;
use vstd::prelude::*;
use vstd::string::StringExecFns;

verus! {

/// The characters that `char::escape_debug` of std yields for `c`, in order.
/// Nothing is said here of which characters they are.
pub uninterp spec fn escape_debug_text(c: char) -> Seq<char>;

/// Calls `char::escape_debug` of std and collects what it yields into a
/// `String`. Believed without proof: the text depends on the character
/// alone. Which characters std writes as they are and which as an escape is
/// left to std.
#[verifier::external_body]
fn escape_debug(c: char) -> (escaped: String)
    ensures
        escaped@ == escape_debug_text(c),
{
    c.escape_debug().to_string()
}

/// The four bytes of the name, each read as a character and escaped.
pub open spec fn escaped_name(tag: ChunkType) -> Seq<char> {
    escape_debug_text(tag@[0] as char) + escape_debug_text(tag@[1] as char) + escape_debug_text(
        tag@[2] as char,
    ) + escape_debug_text(tag@[3] as char)
}

/// The name of the chunk type as text: each byte read as a character and
/// written as `char::escape_debug` writes it.
pub fn name_text(tag: ChunkType) -> (text: String)
    ensures
        text@ == escaped_name(tag),
{
    let mut text = escape_debug(tag.0[0] as char);
    text.append(escape_debug(tag.0[1] as char).as_str());
    text.append(escape_debug(tag.0[2] as char).as_str());
    text.append(escape_debug(tag.0[3] as char).as_str());
    text
}

/// How a boolean field is written.
pub open spec fn bool_text(value: bool) -> Seq<char> {
    if value {
        "true"@
    } else {
        "false"@
    }
}

/// The rendering of a chunk type whose name is spelled `name`: the name,
/// then the four properties as named fields.
pub open spec fn debug_layout(
    name: Seq<char>,
    critical: bool,
    private: bool,
    reserved: bool,
    safecopy: bool,
) -> Seq<char> {
    "ChunkType { type: "@ + name + ", critical: "@ + bool_text(critical) + ", private: "@
        + bool_text(private) + ", reserved: "@ + bool_text(reserved) + ", safecopy: "@ + bool_text(
        safecopy,
    ) + " }"@
}

/// The rendering of `tag`: its name as `char::escape_debug` writes each byte
/// of it, and its four properties.
pub open spec fn spec_debug_string(tag: ChunkType) -> Seq<char> {
    debug_layout(
        escaped_name(tag),
        is_critical(tag),
        is_private(tag),
        reserved_set(tag),
        safe_to_copy(tag),
    )
}

/// The word for a boolean field.
fn bool_str(value: bool) -> (word: &'static str)
    ensures
        word@ == bool_text(value),
{
    if value {
        "true"
    } else {
        "false"
    }
}

/// Renders `tag` with its name spelled `name`. The four fields are the four
/// properties of `tag`, whatever `name` says.
pub fn describe_as(tag: ChunkType, name: &str) -> (text: String)
    ensures
        text@ == debug_layout(
            name@,
            is_critical(tag),
            is_private(tag),
            reserved_set(tag),
            safe_to_copy(tag),
        ),
{
    let mut text = String::from_str("ChunkType { type: ");
    text.append(name);
    text.append(", critical: ");
    text.append(bool_str(is_critical(tag)));
    text.append(", private: ");
    text.append(bool_str(is_private(tag)));
    text.append(", reserved: ");
    text.append(bool_str(reserved_set(tag)));
    text.append(", safecopy: ");
    text.append(bool_str(safe_to_copy(tag)));
    text.append(" }");
    text
}

impl ChunkType {
    /// Renders the chunk type for diagnostics: its name as `name_text` gives
    /// it, then the four properties. The text is for people to read, not for
    /// programs.
    pub fn debug_string(&self) -> (text: String)
        ensures
            text@ == spec_debug_string(*self),
    {
        let name = name_text(*self);
        describe_as(*self, name.as_str())
    }
}

// -- What holds of the rendering --

/// Two texts that end in the same tail and are equal are equal before it.
proof fn lemma_same_tail(a: Seq<char>, b: Seq<char>, tail: Seq<char>)
    requires
        a + tail == b + tail,
    ensures
        a == b,
{
    assert(a.len() == (a + tail).len() - tail.len());
    assert(b.len() == (b + tail).len() - tail.len());
    assert(a =~= (a + tail).subrange(0, a.len() as int));
    assert(b =~= (b + tail).subrange(0, b.len() as int));
}

/// Two texts that begin with the same head and are equal are equal after it.
proof fn lemma_same_head(head: Seq<char>, a: Seq<char>, b: Seq<char>)
    requires
        head + a == head + b,
    ensures
        a == b,
{
    assert((head + a).len() == head.len() + a.len());
    assert((head + b).len() == head.len() + b.len());
    assert(a =~= (head + a).subrange(head.len() as int, (head + a).len() as int));
    assert(b =~= (head + b).subrange(head.len() as int, (head + b).len() as int));
}

/// A text that ends in the word for a boolean tells which boolean it is, and
/// what stood before the word.
proof fn lemma_last_word(a: Seq<char>, x: bool, b: Seq<char>, y: bool)
    requires
        a + bool_text(x) == b + bool_text(y),
    ensures
        x == y,
        a == b,
{
    reveal_strlit("true");
    reveal_strlit("false");
    let s = a + bool_text(x);
    let t = b + bool_text(y);
    // The last letter but one is `u` in one word and `s` in the other.
    assert(s[s.len() - 2] == bool_text(x)[bool_text(x).len() - 2]);
    assert(t[t.len() - 2] == bool_text(y)[bool_text(y).len() - 2]);
    assert(x == y);
    lemma_same_tail(a, b, bool_text(x));
}

/// The layout is unambiguous: two equal texts spell the same name and show
/// the same four properties.
pub proof fn lemma_debug_layout_is_unambiguous(
    name1: Seq<char>,
    critical1: bool,
    private1: bool,
    reserved1: bool,
    safecopy1: bool,
    name2: Seq<char>,
    critical2: bool,
    private2: bool,
    reserved2: bool,
    safecopy2: bool,
)
    requires
        debug_layout(name1, critical1, private1, reserved1, safecopy1) == debug_layout(
            name2,
            critical2,
            private2,
            reserved2,
            safecopy2,
        ),
    ensures
        name1 == name2,
        critical1 == critical2,
        private1 == private2,
        reserved1 == reserved2,
        safecopy1 == safecopy2,
{
    let a1 = "ChunkType { type: "@ + name1 + ", critical: "@;
    let a2 = "ChunkType { type: "@ + name2 + ", critical: "@;
    let b1 = a1 + bool_text(critical1) + ", private: "@;
    let b2 = a2 + bool_text(critical2) + ", private: "@;
    let c1 = b1 + bool_text(private1) + ", reserved: "@;
    let c2 = b2 + bool_text(private2) + ", reserved: "@;
    let d1 = c1 + bool_text(reserved1) + ", safecopy: "@;
    let d2 = c2 + bool_text(reserved2) + ", safecopy: "@;
    lemma_same_tail(d1 + bool_text(safecopy1), d2 + bool_text(safecopy2), " }"@);
    lemma_last_word(d1, safecopy1, d2, safecopy2);
    lemma_same_tail(c1 + bool_text(reserved1), c2 + bool_text(reserved2), ", safecopy: "@);
    lemma_last_word(c1, reserved1, c2, reserved2);
    lemma_same_tail(b1 + bool_text(private1), b2 + bool_text(private2), ", reserved: "@);
    lemma_last_word(b1, private1, b2, private2);
    lemma_same_tail(a1 + bool_text(critical1), a2 + bool_text(critical2), ", private: "@);
    lemma_last_word(a1, critical1, a2, critical2);
    lemma_same_tail("ChunkType { type: "@ + name1, "ChunkType { type: "@ + name2, ", critical: "@);
    lemma_same_head("ChunkType { type: "@, name1, name2);
}

/// The rendering of a chunk type tells its four properties: two chunk types
/// with the same rendering get the same answer from each predicate, and
/// their names are escaped to the same text.
pub proof fn lemma_rendering_tells_the_properties(a: ChunkType, b: ChunkType)
    requires
        spec_debug_string(a) == spec_debug_string(b),
    ensures
        is_critical(a) == is_critical(b),
        is_private(a) == is_private(b),
        reserved_set(a) == reserved_set(b),
        safe_to_copy(a) == safe_to_copy(b),
        escaped_name(a) == escaped_name(b),
{
    lemma_debug_layout_is_unambiguous(
        escaped_name(a),
        is_critical(a),
        is_private(a),
        reserved_set(a),
        safe_to_copy(a),
        escaped_name(b),
        is_critical(b),
        is_private(b),
        reserved_set(b),
        safe_to_copy(b),
    );
}

} // verus!
