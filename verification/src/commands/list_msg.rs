//! Listing the custom messages.

use vstd::prelude::*;
use vstd::string::{StringExecFns, StringSliceAdditionalSpecFns};
use vstd::utf8::{
    decode_utf8, encode_utf8, encode_utf8_decode_utf8, encode_utf8_valid_utf8, is_char_boundary,
    is_char_boundary_start_end_of_seq,
};
use crate::custom_messages::{
    line_views, list_custom_messages, listed, CustomMessageView, CustomMessages,
};
use crate::frequency::{display_message_type, message_type_display, ReminderFrequency};

verus! {

/// The longest text, in bytes, that is shown in full.
pub const DISPLAY_LIMIT: usize = 1024;

/// How many bytes of a longer text are shown at most, before the dots.
pub const DISPLAY_KEPT: usize = 1021;

/// The last position at or before `from` at which the bytes of a text can be
/// cut between two characters.
pub open spec fn cut_at_or_before(bytes: Seq<u8>, from: int) -> int
    decreases from,
{
    if from <= 0 {
        0
    } else if is_char_boundary(bytes, from) {
        from
    } else {
        cut_at_or_before(bytes, from - 1)
    }
}

/// A text as shown: in full up to `DISPLAY_LIMIT` bytes; a longer one cut
/// between two characters, at most `DISPLAY_KEPT` bytes in, and followed by
/// three dots.
pub open spec fn display_text_spec(message: Seq<char>) -> Seq<char> {
    let bytes = encode_utf8(message);
    if bytes.len() > DISPLAY_LIMIT {
        decode_utf8(bytes.subrange(0, cut_at_or_before(bytes, DISPLAY_KEPT as int))) + "..."@
    } else {
        message
    }
}

/// The listing as shown: each line of the table's listing with its category
/// under the name users know it by, and its text cut to what is shown.
pub open spec fn shown(table: Map<ReminderFrequency, CustomMessageView>) -> Seq<
    (Seq<char>, Seq<char>, u64),
> {
    Seq::new(
        listed(table).len(),
        |i: int|
            (
                message_type_display(listed(table)[i].0),
                display_text_spec(listed(table)[i].1),
                listed(table)[i].2,
            ),
    )
}

/// A text as shown in the listing.
pub fn display_text(message: &str) -> (shown: String)
    ensures
        shown@ == display_text_spec(message@),
{
    if message.as_bytes().len() <= DISPLAY_LIMIT {
        return message.to_owned();
    }
    let ghost bytes = message.spec_bytes();
    proof {
        encode_utf8_valid_utf8(message@);
        is_char_boundary_start_end_of_seq(bytes);
    }
    let mut cut: usize = DISPLAY_KEPT;
    while cut > 0 && !message.is_char_boundary(cut)
        invariant
            cut <= DISPLAY_KEPT,
            bytes == message.spec_bytes(),
            cut_at_or_before(bytes, DISPLAY_KEPT as int) == cut_at_or_before(bytes, cut as int),
        decreases cut,
    {
        cut -= 1;
    }
    assert(cut_at_or_before(bytes, cut as int) == cut);
    assert(is_char_boundary(bytes, cut as int));
    let (head, _) = message.split_at(cut);
    proof {
        encode_utf8_decode_utf8(head@);
        assert(head.spec_bytes() == bytes.subrange(0, cut as int));
    }
    let mut shown = head.to_owned();
    shown.append("...");
    shown
}

/// Every custom message as category name, text as shown and author, ordered
/// by category tag. The listing is empty exactly when there is no custom
/// message.
pub fn run(table: &CustomMessages) -> (lines: Vec<(String, String, u64)>)
    ensures
        line_views(lines@) == shown(table@),
{
    let stored = list_custom_messages(table);
    let mut lines: Vec<(String, String, u64)> = Vec::new();
    let mut i: usize = 0;
    while i < stored.len()
        invariant
            i <= stored.len(),
            lines@.len() == i,
            line_views(stored@) == listed(table@),
            forall|k: int| 0 <= k < i ==> line_views(lines@)[k] == shown(table@)[k],
        decreases stored.len() - i,
    {
        let line = &stored[i];
        assert(line_views(stored@)[i as int].0 == line.0@);
        assert(line_views(stored@)[i as int].1 == line.1@);
        let name = display_message_type(line.0.as_str()).to_owned();
        lines.push((name, display_text(line.1.as_str()), line.2));
        i += 1;
    }
    assert(line_views(lines@) =~= shown(table@));
    lines
}

} // verus!
