//! The to-do form of the actions section: adding a to-do gives it a fresh
//! random identifier, and the page shows what was submitted, whether the
//! action is pending and the identifier, in their pretty debug forms.

use vstd::prelude::*;
use vstd::string::StringExecFns;
use crate::text::push_char;

verus! {

/// The version field of a UUID held as a big-endian `u128`.
pub open spec fn uuid_version(id: u128) -> u128 {
    (id >> 76u32) & 0xf
}

/// The two top bits of the variant field of a UUID held as a big-endian
/// `u128`; `0b10` marks the variant of RFC 4122.
pub open spec fn uuid_variant_bits(id: u128) -> u128 {
    (id >> 62u32) & 0x3
}

/// A random version-4 UUID, as a big-endian `u128`.
///
/// Calls `uuid::Uuid::new_v4` and reads the result with `Uuid::as_u128`.
/// The uuid source sets the version field to 4 and the variant bits to
/// `0b10` and takes every other bit from the system's random source; the
/// contract states those two fields and nothing of the random bits.
/// `new_v4` panics when the system cannot give random bytes, which no
/// argument can rule out.
#[verifier::external_body]
fn random_uuid_v4() -> (id: u128)
    ensures
        uuid_version(id) == 4,
        uuid_variant_bits(id) == 2,
{
    uuid::Uuid::new_v4().as_u128()
}

/// Adds a to-do: once the action's delay is over, the to-do gets a fresh
/// random identifier. The text itself is not kept.
pub fn add_todo(text: &str) -> (id: u128)
    ensures
        uuid_version(id) == 4,
        uuid_variant_bits(id) == 2,
{
    let _ = text;
    random_uuid_v4()
}

/// A lower-case hexadecimal digit.
pub open spec fn hex_lower(d: int) -> char {
    if d < 10 {
        ('0' as int + d) as char
    } else {
        ('a' as int + d - 10) as char
    }
}

/// The `k`-th hexadecimal digit of `id`, most significant first.
pub open spec fn nibble(id: u128, k: int) -> u128 {
    (id >> ((124 - 4 * k) as u32)) & 0xf
}

pub open spec fn is_hyphen_pos(j: int) -> bool {
    j == 8 || j == 13 || j == 18 || j == 23
}

/// How many hyphens come before position `j` of the hyphenated form.
pub open spec fn hyphens_before(j: int) -> int {
    if j > 23 {
        4
    } else if j > 18 {
        3
    } else if j > 13 {
        2
    } else if j > 8 {
        1
    } else {
        0
    }
}

/// The hyphenated lower-case form of a UUID: its 32 hexadecimal digits in
/// groups of 8, 4, 4, 4 and 12, joined by hyphens.
pub open spec fn hyphenated_spec(id: u128) -> Seq<char> {
    Seq::new(
        36,
        |j: int|
            if is_hyphen_pos(j) {
                '-'
            } else {
                hex_lower(nibble(id, j - hyphens_before(j)) as int)
            },
    )
}

fn hex_digit_char(d: u8) -> (c: char)
    requires
        d < 16,
    ensures
        c == hex_lower(d as int),
{
    if d < 10 {
        (48u8 + d) as char
    } else {
        (87u8 + d) as char
    }
}

/// Writes a UUID in its hyphenated lower-case form, the form its `Debug`
/// and `Display` implementations write.
pub fn uuid_hyphenated(id: u128) -> (s: String)
    ensures
        s@ == hyphenated_spec(id),
{
    let mut s = String::new();
    let mut j: usize = 0;
    let mut k: u32 = 0;
    while j < 36
        invariant
            j <= 36,
            k == j - hyphens_before(j as int),
            s@ == hyphenated_spec(id).take(j as int),
        decreases 36 - j,
    {
        if j == 8 || j == 13 || j == 18 || j == 23 {
            push_char(&mut s, '-');
        } else {
            let shift: u32 = 124 - 4 * k;
            let d128: u128 = (id >> shift) & 0xf;
            assert(d128 < 16) by (bit_vector)
                requires
                    d128 == (id >> shift) & 0xf;
            let d: u8 = d128 as u8;
            push_char(&mut s, hex_digit_char(d));
            k = k + 1;
        }
        assert(s@ =~= hyphenated_spec(id).take(j + 1));
        j = j + 1;
    }
    assert(hyphenated_spec(id).take(36) =~= hyphenated_spec(id));
    s
}

/// The identifier of every added to-do reads as a version-4 UUID: its
/// hyphenated form has the digit `4` where the version goes and one of
/// `8`, `9`, `a`, `b` where the variant goes.
pub proof fn lemma_added_id_reads_as_v4(id: u128)
    requires
        uuid_version(id) == 4,
        uuid_variant_bits(id) == 2,
    ensures
        hyphenated_spec(id).len() == 36,
        hyphenated_spec(id)[14] == '4',
        hyphenated_spec(id)[19] == '8' || hyphenated_spec(id)[19] == '9'
            || hyphenated_spec(id)[19] == 'a' || hyphenated_spec(id)[19] == 'b',
{
    assert(nibble(id, 12) == 4);
    let v = nibble(id, 16);
    assert(8 <= v < 12) by (bit_vector)
        requires
            v == (id >> 60u32) & 0xf,
            (id >> 62u32) & 0x3 == 2;
}

/// What `{:?}` writes for a string: the text in double quotes with its
/// special characters escaped.
pub uninterp spec fn str_debug(s: Seq<char>) -> Seq<char>;

/// Calls the standard library's `Debug` formatting of `str` (through
/// `format!("{:?}", ..)`). Its result depends on the text alone; the
/// contract names it and states nothing more of it.
#[verifier::external_body]
fn debug_str(s: &str) -> (r: String)
    ensures
        r@ == str_debug(s@),
{
    format!("{:?}", s)
}

/// The pretty debug form of `Some(x)` when `x` writes `inner`.
pub open spec fn pretty_some(inner: Seq<char>) -> Seq<char> {
    "Some(\n    "@ + inner + ",\n)"@
}

/// Writes the pretty debug form of `Some(x)` around the text `inner` that
/// `x` writes.
pub fn wrap_pretty_some(inner: &str) -> (t: String)
    ensures
        t@ == pretty_some(inner@),
{
    let mut t = String::from_str("Some(\n    ");
    t.append(inner);
    t.append(",\n)");
    t
}

/// The "Submitted" line: the pretty debug form of the last submitted text.
pub fn submitted_text(submitted: &Option<String>) -> (t: String)
    ensures
        t@ == match submitted {
            Some(s) => pretty_some(str_debug(s@)),
            None => "None"@,
        },
{
    match submitted {
        Some(s) => {
            let quoted = debug_str(s.as_str());
            wrap_pretty_some(quoted.as_str())
        },
        None => String::from_str("None"),
    }
}

/// The "Pending" line: the debug form of the pending flag.
pub fn pending_text(pending: bool) -> (t: String)
    ensures
        t@ == (if pending { "true"@ } else { "false"@ }),
{
    if pending {
        String::from_str("true")
    } else {
        String::from_str("false")
    }
}

/// The note shown above the lines while the action runs.
pub fn pending_notice(pending: bool) -> (t: Option<String>)
    ensures
        t is Some <==> pending,
        t matches Some(s) ==> s@ == "Loading..."@,
{
    if pending {
        Some(String::from_str("Loading..."))
    } else {
        None
    }
}

/// The "Todo ID" line: the pretty debug form of the identifier the last
/// action returned.
pub fn todo_id_text(id: Option<u128>) -> (t: String)
    ensures
        t@ == match id {
            Some(u) => pretty_some(hyphenated_spec(u)),
            None => "None"@,
        },
{
    match id {
        Some(u) => {
            let h = uuid_hyphenated(u);
            wrap_pretty_some(h.as_str())
        },
        None => String::from_str("None"),
    }
}

} // verus!
