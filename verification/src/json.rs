//! Compact JSON text of the small objects recorded in the audit log.

use crate::crypto::{spec_uuid_text, uuid_to_string};
use vstd::prelude::*;
use vstd::string::StringExecFns;

verus! {

/// The JSON string literal `serde_json` writes for a text (quoted, escaped).
pub uninterp spec fn spec_json_string(s: Seq<char>) -> Seq<char>;

/// A text as a JSON string literal, by `serde_json::to_string` (which cannot
/// fail on a string): it starts and ends with a double quote.
#[verifier::external_body]
pub(crate) fn json_string(s: &str) -> (r: String)
    ensures
        r@ == spec_json_string(s@),
        r@.len() >= 2,
        r@[0] == '"',
        r@.last() == '"',
{
    serde_json::to_string(s).unwrap_or_default()
}

/// Whether `serde_json` parses a text as a JSON value.
pub uninterp spec fn spec_json_valid(s: Seq<char>) -> bool;

/// Whether a text is a JSON value, by `serde_json::from_str::<serde_json::Value>`.
#[verifier::external_body]
pub(crate) fn json_parses(s: &str) -> (r: bool)
    ensures
        r == spec_json_valid(s@),
{
    serde_json::from_str::<serde_json::Value>(s).is_ok()
}

/// The decimal digit of a value below ten.
pub open spec fn digit_char(d: int) -> char {
    (48 + d) as char
}

/// Decimal text of a natural number, without leading zeros.
pub open spec fn decimal(n: nat) -> Seq<char>
    decreases n,
{
    if n < 10 {
        seq![digit_char(n as int)]
    } else {
        decimal(n / 10) + seq![digit_char((n % 10) as int)]
    }
}

/// Decimal text of an integer, with a leading `-` when negative.
pub open spec fn signed_decimal(n: int) -> Seq<char> {
    if n < 0 {
        seq!['-'] + decimal((-n) as nat)
    } else {
        decimal(n as nat)
    }
}

/// Decimal text of an unsigned integer.
pub fn u64_decimal(n: u64) -> (r: String)
    ensures
        r@ == decimal(n as nat),
    decreases n,
{
    let d: u8 = (n % 10) as u8;
    let c: char = (48u8 + d) as char;
    if n < 10 {
        let mut s = String::new();
        crate::text::push_char(&mut s, c);
        assert(s@ =~= seq![digit_char(n as int)]);
        s
    } else {
        let mut s = u64_decimal(n / 10);
        crate::text::push_char(&mut s, c);
        s
    }
}

/// Decimal text of a signed integer.
pub fn i64_decimal(n: i64) -> (r: String)
    ensures
        r@ == signed_decimal(n as int),
{
    if n < 0 {
        let magnitude: u64 = if n == i64::MIN {
            0x8000_0000_0000_0000u64
        } else {
            (-n) as u64
        };
        assert(magnitude as int == -(n as int));
        let digits = u64_decimal(magnitude);
        proof {
            reveal_strlit("-");
            assert("-"@ =~= seq!['-']);
        }
        String::from_str("-").concat(digits.as_str())
    } else {
        u64_decimal(n as u64)
    }
}

/// A UUID as a JSON string.
pub fn json_uuid(id: u128) -> (r: String)
    ensures
        r@ == spec_json_string(spec_uuid_text(id)),
{
    let text = uuid_to_string(id);
    json_string(text.as_str())
}

/// The compact JSON object text of key/value pairs, in the given order
/// (values already rendered as JSON).
pub open spec fn object_text(entries: Seq<(Seq<char>, Seq<char>)>) -> Seq<char>
    decreases entries.len(),
{
    if entries.len() == 0 {
        "{}"@
    } else {
        seq!['{'] + members_text(entries) + seq!['}']
    }
}

/// The members of an object, separated by commas.
pub open spec fn members_text(entries: Seq<(Seq<char>, Seq<char>)>) -> Seq<char>
    decreases entries.len(),
{
    if entries.len() == 0 {
        Seq::empty()
    } else if entries.len() == 1 {
        spec_json_string(entries[0].0) + seq![':'] + entries[0].1
    } else {
        members_text(entries.drop_last()) + seq![','] + spec_json_string(entries.last().0) + seq![':']
            + entries.last().1
    }
}

/// The view of rendered entries.
pub open spec fn entries_view(entries: Seq<(String, String)>) -> Seq<(Seq<char>, Seq<char>)> {
    entries.map_values(|e: (String, String)| (e.0@, e.1@))
}

/// Compact JSON object text of key/value pairs (values already JSON).
pub fn json_object(entries: &Vec<(String, String)>) -> (r: String)
    ensures
        r@ == object_text(entries_view(entries@)),
{
    let n = entries.len();
    if n == 0 {
        proof {
            reveal_strlit("{}");
        }
        return String::from_str("{}");
    }
    let mut body = String::new();
    let mut i: usize = 0;
    while i < n
        invariant
            n == entries@.len(),
            i <= n,
            body@ == members_text(entries_view(entries@.subrange(0, i as int))),
        decreases n - i,
    {
        let key = json_string(entries[i].0.as_str());
        proof {
            let prefix = entries_view(entries@.subrange(0, i + 1));
            assert(prefix.drop_last() =~= entries_view(entries@.subrange(0, i as int)));
            assert(prefix.last() == (entries@[i as int].0@, entries@[i as int].1@));
        }
        if i > 0 {
            body = body.concat(",");
            proof {
                reveal_strlit(",");
            }
        }
        body = body.concat(key.as_str());
        body = body.concat(":");
        proof {
            reveal_strlit(":");
        }
        body = body.concat(entries[i].1.as_str());
        proof {
            let prefix = entries_view(entries@.subrange(0, i + 1));
            if i == 0 {
                assert(body@ =~= spec_json_string(prefix[0].0) + seq![':'] + prefix[0].1);
            } else {
                assert(body@ =~= members_text(prefix.drop_last()) + seq![','] + spec_json_string(
                    prefix.last().0,
                ) + seq![':'] + prefix.last().1);
            }
        }
        i = i + 1;
    }
    assert(entries@.subrange(0, n as int) =~= entries@);
    let r = String::from_str("{").concat(body.as_str()).concat("}");
    proof {
        reveal_strlit("{");
        reveal_strlit("}");
        assert(r@ =~= seq!['{'] + members_text(entries_view(entries@)) + seq!['}']);
    }
    r
}

} // verus!
