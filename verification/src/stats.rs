//! The viewer count: how the text that the statistics endpoint gives becomes
//! an event, or none.

use crate::event::{AppEvent, StatsMessage};
use vstd::prelude::*;
use vstd::std_specs::iter::IteratorSpec;
use vstd::string::*;

verus! {

/// How many seconds lie between two polls of the viewer count.
pub const STATS_INTERVAL_SECS: u64 = 10;

/// Whether a character is a decimal digit.
pub open spec fn is_digit(c: char) -> bool {
    '0' <= c <= '9'
}

/// The number that a decimal digit stands for.
pub open spec fn digit_of(c: char) -> nat {
    (c as u32 - '0' as u32) as nat
}

/// Whether all characters are decimal digits.
pub open spec fn all_digits(s: Seq<char>) -> bool {
    forall|i: int| 0 <= i < s.len() ==> is_digit(#[trigger] s[i])
}

/// The number that a run of decimal digits stands for.
pub open spec fn decimal_value(digits: Seq<char>) -> nat
    decreases digits.len(),
{
    if digits.len() == 0 {
        0
    } else {
        decimal_value(digits.drop_last()) * 10 + digit_of(digits.last())
    }
}

/// A text without the plus sign that may lead it.
pub open spec fn unsigned_part(text: Seq<char>) -> Seq<char> {
    if text.len() > 0 && text[0] == '+' {
        text.drop_first()
    } else {
        text
    }
}

/// The viewer count that a text stands for: one or more decimal digits, a
/// plus sign in front of them or none, and a number that fits in `u32`.
/// Any other text stands for no count.
pub open spec fn viewer_count_of(text: Seq<char>) -> Option<u32> {
    let digits = unsigned_part(text);
    if digits.len() > 0 && all_digits(digits) && decimal_value(digits) <= u32::MAX {
        Some(decimal_value(digits) as u32)
    } else {
        None
    }
}

/// The digits read so far never stand for more than all of them.
proof fn lemma_decimal_value_grows(digits: Seq<char>, read: int)
    requires
        0 <= read <= digits.len(),
    ensures
        decimal_value(digits.subrange(0, read)) <= decimal_value(digits),
    decreases digits.len() - read,
{
    if read < digits.len() {
        lemma_decimal_value_grows(digits, read + 1);
        assert(digits.subrange(0, read + 1).drop_last() =~= digits.subrange(0, read));
        assert(decimal_value(digits.subrange(0, read)) * 10 >= decimal_value(
            digits.subrange(0, read),
        ));
    } else {
        assert(digits.subrange(0, read) =~= digits);
    }
}

/// Reads a viewer count.
pub fn parse_viewer_count(text: &str) -> (count: Option<u32>)
    ensures
        count == viewer_count_of(text@),
{
    let ghost digits = unsigned_part(text@);
    let ghost signed: int = if text@.len() > 0 && text@[0] == '+' {
        1
    } else {
        0
    };
    let mut value: u32 = 0;
    let mut any = false;
    let mut first = true;
    let ghost mut seen: int = 0;
    let mut chars = text.chars();
    let ghost mut at: int = 0;
    proof {
        broadcast use vstd::string::axiom_spec_iter;
        assert(digits.subrange(0, 0) =~= Seq::<char>::empty());
    }
    loop
        invariant
            0 <= at <= text@.len(),
            chars.remaining() == text@.subrange(at, text@.len() as int),
            chars.obeys_prophetic_iter_laws(),
            chars.decrease() is Some,
            first == (at == 0),
            digits == unsigned_part(text@),
            signed == (if text@.len() > 0 && text@[0] == '+' { 1int } else { 0int }),
            at > 0 ==> at >= signed,
            at > 0 ==> seen == at - signed,
            at == 0 ==> seen == 0,
            0 <= seen <= digits.len(),
            any == (seen > 0),
            all_digits(digits.subrange(0, seen)),
            value == decimal_value(digits.subrange(0, seen)),
        decreases chars.decrease()->0,
    {
        let ghost before = chars;
        let next = chars.next();
        proof {
            broadcast use vstd::string::next_postcondition;
        }
        match next {
            None => {
                proof {
                    assert(at == text@.len());
                    assert(digits.subrange(0, seen) =~= digits);
                }
                if !any {
                    return None;
                }
                return Some(value);
            },
            Some(c) => {
                proof {
                    assert(c == text@[at]);
                    assert(chars.remaining() =~= text@.subrange(at + 1, text@.len() as int));
                }
                if first && c == '+' {
                    first = false;
                    proof {
                        at = at + 1;
                    }
                } else {
                    first = false;
                    if !(c >= '0' && c <= '9') {
                        proof {
                            assert(digits[seen] == c);
                        }
                        return None;
                    }
                    let digit = (c as u32) - ('0' as u32);
                    proof {
                        assert(digits[seen] == c);
                        assert(digits.subrange(0, seen + 1).drop_last() =~= digits.subrange(0, seen));
                        lemma_decimal_value_grows(digits, seen + 1);
                    }
                    if value > (u32::MAX - digit) / 10 {
                        return None;
                    }
                    value = value * 10 + digit;
                    any = true;
                    proof {
                        at = at + 1;
                        seen = seen + 1;
                    }
                }
            },
        }
    }
}

/// The event that the statistics task sends after a poll: the count where
/// the poll gave a text that stands for one, none where the poll failed or
/// the text stands for nothing.
pub fn stats_event(polled: Option<String>) -> (event: Option<AppEvent>)
    ensures
        event == match polled {
            Some(text) => match viewer_count_of(text@) {
                Some(viewer_count) => Some(AppEvent::StatsUpdate(StatsMessage { viewer_count })),
                None => None,
            },
            None => None,
        },
{
    match polled {
        Some(text) => match parse_viewer_count(text.as_str()) {
            Some(viewer_count) => Some(AppEvent::StatsUpdate(StatsMessage { viewer_count })),
            None => None,
        },
        None => None,
    }
}

} // verus!
