//! What the list of tasks shows of a command.

use vstd::prelude::*;
use vstd::string::*;
use vstd::utf8::{decode_utf8, encode_utf8, encode_utf8_decode_utf8, is_char_boundary};

use crate::text::join;

verus! {

/// How many bytes of a text stay when it is cut to `max_len`: three less, to
/// make room for the dots, and none where there is no such room.
pub open spec fn kept_len(max_len: usize) -> int {
    if max_len >= 3 {
        max_len - 3
    } else {
        0
    }
}

/// Whether a text can be cut to `max_len` bytes: it is short enough to stay
/// whole, or the cut falls between two characters.
pub open spec fn can_truncate(text: Seq<char>, max_len: usize) -> bool {
    encode_utf8(text).len() > max_len ==> is_char_boundary(encode_utf8(text), kept_len(max_len))
}

/// A text cut to `max_len` bytes of its UTF-8 form: whole where it has no
/// more, else the text of its first bytes followed by three dots.
pub open spec fn truncated(text: Seq<char>, max_len: usize) -> Seq<char> {
    let bytes = encode_utf8(text);
    if bytes.len() <= max_len {
        text
    } else {
        decode_utf8(bytes.subrange(0, kept_len(max_len))) + seq!['.', '.', '.']
    }
}

/// Cuts `s` to `max_len` bytes, with three dots in the place of what is left
/// out. The cut must not fall inside a character.
pub fn truncate_string(s: &str, max_len: usize) -> (text: String)
    requires
        can_truncate(s@, max_len),
    ensures
        text@ == truncated(s@, max_len),
{
    if s.as_bytes().len() <= max_len {
        String::from_str(s)
    } else {
        let keep: usize = if max_len >= 3 {
            max_len - 3
        } else {
            0
        };
        let (head, _) = s.split_at(keep);
        proof {
            reveal_strlit("...");
            encode_utf8_decode_utf8(head@);
        }
        let text = join(head, "...");
        assert(text@ =~= truncated(s@, max_len));
        text
    }
}

} // verus!
