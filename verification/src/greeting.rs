//! The greeting: the one observable thing a successful call produces.
use vstd::prelude::*;
use vstd::string::*;
use vstd::utf8::*;

verus! {

/// What a greeting says before the name.
pub open spec fn greeting_prefix() -> Seq<char> {
    seq!['H', 'e', 'l', 'l', 'o', ',', ' ']
}

/// What a greeting says after the name.
pub open spec fn greeting_suffix() -> Seq<char> {
    seq!['!']
}

/// The greeting line for `name`: the prefix, the name as it is, the suffix.
/// The line carries no line break; ending the line is the emitter's part.
pub open spec fn greeting_text(name: Seq<char>) -> Seq<char> {
    greeting_prefix() + name + greeting_suffix()
}

/// Composes the greeting line for `name`.
///
/// The name goes in whole and unchanged, whatever characters it holds.
pub fn greeting(name: &str) -> (line: String)
    ensures
        line@ == greeting_text(name@),
{
    proof {
        reveal_strlit("Hello, ");
        reveal_strlit("!");
    }
    let mut line = String::from_str("Hello, ");
    line.append(name);
    line.append("!");
    line
}

/// A greeting holds its name exactly: eight characters longer than the name,
/// with the name standing untruncated between the prefix and the suffix.
pub proof fn lemma_greeting_holds_name(name: Seq<char>)
    ensures
        greeting_text(name).len() == name.len() + 8,
        greeting_text(name).subrange(0, 7) == greeting_prefix(),
        greeting_text(name).subrange(7, 7 + name.len() as int) == name,
        greeting_text(name).subrange(7 + name.len() as int, 8 + name.len() as int)
            == greeting_suffix(),
{
}

/// Different names are greeted differently: the name can be read back from
/// the greeting.
pub proof fn lemma_greeting_tells_names_apart(a: Seq<char>, b: Seq<char>)
    requires
        greeting_text(a) == greeting_text(b),
    ensures
        a == b,
{
    lemma_greeting_holds_name(a);
    lemma_greeting_holds_name(b);
}

/// The bytes of the greeting line for a name whose UTF-8 bytes are `name`:
/// `Hello, ` in ASCII, the name's bytes, and `!`.
pub open spec fn greeting_bytes(name: Seq<u8>) -> Seq<u8> {
    seq![0x48u8, 0x65u8, 0x6cu8, 0x6cu8, 0x6fu8, 0x2cu8, 0x20u8] + name + seq![0x21u8]
}

/// Encoding goes piece by piece: the UTF-8 bytes of two texts joined are the
/// bytes of the first followed by the bytes of the second.
proof fn lemma_encode_utf8_concat(a: Seq<char>, b: Seq<char>)
    ensures
        encode_utf8(a + b) == encode_utf8(a) + encode_utf8(b),
    decreases a.len(),
{
    if a.len() > 0 {
        lemma_encode_utf8_concat(a.drop_first(), b);
        assert((a + b).drop_first() =~= a.drop_first() + b);
    }
}

/// Encoded as UTF-8, a greeting is its fixed frame around the bytes of the
/// name, which stand in it unchanged.
pub proof fn lemma_greeting_bytes(name: Seq<char>)
    ensures
        encode_utf8(greeting_text(name)) == greeting_bytes(encode_utf8(name)),
{
    let prefix = greeting_prefix();
    let suffix = greeting_suffix();
    is_ascii_chars_encode_utf8(prefix);
    is_ascii_chars_encode_utf8(suffix);
    lemma_encode_utf8_concat(prefix, name);
    lemma_encode_utf8_concat(prefix + name, suffix);
}

} // verus!
