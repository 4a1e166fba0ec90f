//! The loaders of the async sections and what the page shows while they
//! run: the number loader, the name shouter, the user lookup and the
//! derived optional value.

use vstd::prelude::*;
use vstd::string::StringExecFns;
use crate::text::{format_i32, int_text, push_char};

verus! {

/// What the number loader answers for `value`.
pub open spec fn load_data_spec(value: int) -> int {
    if value == 0 {
        1
    } else {
        value * 10
    }
}

/// The loader answers one for zero and ten times any other value: every
/// nonzero answer is a multiple of ten whose tenth is the value asked for.
pub proof fn lemma_load_data_answer(value: int)
    ensures
        value == 0 ==> load_data_spec(value) == 1,
        value != 0 ==> load_data_spec(value) == 10 * value,
        value != 0 ==> load_data_spec(value) % 10 == 0 && load_data_spec(value) / 10 == value,
{
}

/// The number loader's answer, computed once its delay is over: one for
/// zero, ten times the value otherwise.
pub fn load_data(value: i32) -> (r: i32)
    requires
        value == 0 || i32::MIN <= value * 10 <= i32::MAX,
    ensures
        r == load_data_spec(value as int),
        value == 0 ==> r == 1,
        value != 0 ==> r == 10 * value,
{
    proof {
        lemma_load_data_answer(value as int);
    }
    if value == 0 {
        value + 1
    } else {
        value * 10
    }
}

/// The line shown for the loaded number: "Server returned " and the number
/// once it has arrived, "Loading..." before.
pub fn server_text(data: Option<i32>) -> (t: String)
    ensures
        t@ == match data {
            Some(v) => "Server returned "@ + int_text(v as int),
            None => "Loading..."@,
        },
{
    match data {
        Some(v) => {
            let mut t = String::from_str("Server returned ");
            let n = format_i32(v);
            t.append(n.as_str());
            t
        },
        None => String::from_str("Loading..."),
    }
}

/// The loader's status line.
pub fn loading_text(loading: bool) -> (t: String)
    ensures
        t@ == (if loading { "Loading..."@ } else { "Idle."@ }),
{
    if loading {
        String::from_str("Loading...")
    } else {
        String::from_str("Idle.")
    }
}

/// A character in upper case if it is an ASCII lower-case letter, else the
/// character itself.
pub open spec fn ascii_upper(c: char) -> char {
    if 'a' <= c && c <= 'z' {
        (c as int - 32) as char
    } else {
        c
    }
}

pub open spec fn shout_spec(s: Seq<char>) -> Seq<char> {
    s.map_values(|c: char| ascii_upper(c))
}

pub fn ascii_upper_char(c: char) -> (u: char)
    ensures
        u == ascii_upper(c),
{
    if 'a' <= c && c <= 'z' {
        let code: u32 = c as u32;
        let upper: u8 = (code - 32) as u8;
        upper as char
    } else {
        c
    }
}

/// The shouting name: the name with its ASCII letters in upper case.
pub fn important_api_call(name: &str) -> (r: String)
    ensures
        r@ == shout_spec(name@),
        r@.len() == name@.len(),
        forall|i: int|
            0 <= i < name@.len() ==> if 'a' <= #[trigger] name@[i] && name@[i] <= 'z' {
                r@[i] as int == name@[i] as int - 32
            } else {
                r@[i] == name@[i]
            },
        forall|i: int| 0 <= i < r@.len() ==> !('a' <= #[trigger] r@[i] && r@[i] <= 'z'),
{
    proof {
        lemma_shout_chars(name@);
    }
    broadcast use vstd::string::group_string_axioms;
    let mut r = String::new();
    for c in it: name.chars()
        invariant
            it.seq() == name@,
            r@ == shout_spec(it.seq().take(it.index() as int)),
    {
        proof {
            let i = it.index() as int;
            assert(it.seq().take(i + 1) =~= it.seq().take(i).push(it.seq()[i]));
        }
        push_char(&mut r, ascii_upper_char(c));
        proof {
            let i = it.index() as int;
            assert(shout_spec(it.seq().take(i + 1)) =~= shout_spec(it.seq().take(i)).push(
                ascii_upper(it.seq()[i]),
            ));
        }
    }
    proof {
        assert(name@.take(name@.len() as int) =~= name@);
    }
    r
}

/// Shouting upper-cases every ASCII lower-case letter (its code drops by 32,
/// the distance from `a` to `A`), leaves every other character as it is,
/// keeps the length, and leaves no ASCII lower-case letter behind.
pub proof fn lemma_shout_chars(s: Seq<char>)
    ensures
        shout_spec(s).len() == s.len(),
        forall|i: int|
            0 <= i < s.len() ==> if 'a' <= #[trigger] s[i] && s[i] <= 'z' {
                shout_spec(s)[i] as int == s[i] as int - 32 && 'A' <= shout_spec(s)[i]
                    && shout_spec(s)[i] <= 'Z'
            } else {
                shout_spec(s)[i] == s[i]
            },
        forall|i: int|
            0 <= i < shout_spec(s).len() ==> !('a' <= #[trigger] shout_spec(s)[i] && shout_spec(
                s,
            )[i] <= 'z'),
{
    assert forall|i: int| 0 <= i < shout_spec(s).len() implies !('a' <= #[trigger] shout_spec(
        s,
    )[i] && shout_spec(s)[i] <= 'z') by {
        assert(shout_spec(s)[i] == ascii_upper(s[i]));
    }
}

/// Shouting twice is shouting once, and shouting keeps the length.
pub proof fn lemma_shout_idempotent(s: Seq<char>)
    ensures
        shout_spec(shout_spec(s)) == shout_spec(s),
        shout_spec(s).len() == s.len(),
{
    assert(shout_spec(shout_spec(s)) =~= shout_spec(s));
}

/// The shouting name shown under the suspense: the loaded one, or
/// "default" while none has arrived.
pub fn shouted_or_default(data: Option<String>) -> (t: String)
    ensures
        t@ == match data {
            Some(s) => s@,
            None => "default"@,
        },
{
    match data {
        Some(s) => s,
        None => String::from_str("default"),
    }
}

pub open spec fn user_name_spec(id: int) -> Seq<char> {
    if id == 0 {
        "Alice"@
    } else if id == 1 {
        "Bob"@
    } else if id == 2 {
        "Carol"@
    } else {
        "User not found"@
    }
}

/// The first three tabs name Alice, Bob and Carol, and every later one
/// gives the not-found message.
pub proof fn lemma_user_names(id: int)
    ensures
        id == 0 ==> user_name_spec(id) == "Alice"@,
        id == 1 ==> user_name_spec(id) == "Bob"@,
        id == 2 ==> user_name_spec(id) == "Carol"@,
        id >= 3 ==> user_name_spec(id) == "User not found"@,
{
}

/// The user of a tab: Alice, Bob and Carol for the first three, and a
/// not-found message for any other.
pub fn important_api_call2(id: usize) -> (r: String)
    ensures
        r@ == user_name_spec(id as int),
{
    match id {
        0 => String::from_str("Alice"),
        1 => String::from_str("Bob"),
        2 => String::from_str("Carol"),
        _ => String::from_str("User not found"),
    }
}

/// The line under the tabs: the loaded user, prefixed by a waiting note
/// while a new one loads.
pub fn transition_text(loading: bool, data: &Option<String>) -> (t: String)
    ensures
        t@ == (if loading { "Hang on...  "@ } else { Seq::<char>::empty() }) + match data {
            Some(s) => s@,
            None => Seq::<char>::empty(),
        },
{
    let mut t = if loading {
        String::from_str("Hang on...  ")
    } else {
        String::new()
    };
    match data {
        Some(s) => t.append(s.as_str()),
        None => {},
    }
    t
}

/// The optional value derived from the text field, as
/// `(!value.is_empty()).then(|| Some(value))` builds it: `Some(Some(text))`
/// when the text is not empty, `None` when it is.
pub fn optional_value(value: &str) -> (r: Option<Option<String>>)
    ensures
        r is Some <==> value@.len() > 0,
        r matches Some(inner) ==> (inner matches Some(s) && s@ == value@),
{
    if value.is_empty() {
        None
    } else {
        Some(Some(String::from_str(value)))
    }
}

/// How the derived value is shown: `Some("` and the inner value's text and
/// `")` when there is a value (an inner `None` shows no text), `None`
/// when there is none.
pub fn optional_value_text(value: &Option<Option<String>>) -> (t: String)
    ensures
        t@ == match value {
            Some(inner) => "Some(\""@ + match inner {
                Some(s) => s@,
                None => Seq::<char>::empty(),
            } + "\")"@,
            None => "None"@,
        },
{
    match value {
        Some(inner) => {
            let mut t = String::from_str("Some(\"");
            match inner {
                Some(s) => t.append(s.as_str()),
                None => {},
            }
            t.append("\")");
            t
        },
        None => String::from_str("None"),
    }
}

} // verus!
