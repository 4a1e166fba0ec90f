//! The name log of the effects section: a form with a first name, a last
//! name and a checkbox for showing the last name, and two ways of logging
//! the shown name when the form changes.

use vstd::prelude::*;
use vstd::string::StringExecFns;
use crate::text::push_char;

verus! {

/// The name shown for the form: first and last name with a space between,
/// or the first name alone when the last name is not used.
pub open spec fn display_name_spec(first: Seq<char>, last: Seq<char>, use_last: bool) -> Seq<char> {
    if use_last {
        first + seq![' '] + last
    } else {
        first
    }
}

/// The shown name starts with the first name; with the last name used it
/// goes on with one space and then the last name, without it there is
/// nothing more.
pub proof fn lemma_display_name_parts(first: Seq<char>, last: Seq<char>, use_last: bool)
    ensures
        !use_last ==> display_name_spec(first, last, use_last) == first,
        use_last ==> display_name_spec(first, last, use_last).len() == first.len() + 1 + last.len(),
        use_last ==> display_name_spec(first, last, use_last).take(first.len() as int) == first,
        use_last ==> display_name_spec(first, last, use_last)[first.len() as int] == ' ',
        use_last ==> display_name_spec(first, last, use_last).skip(first.len() as int + 1) == last,
{
    if use_last {
        let n = display_name_spec(first, last, use_last);
        assert(n.take(first.len() as int) =~= first);
        assert(n.skip(first.len() as int + 1) =~= last);
    }
}

pub fn display_name(first: &str, last: &str, use_last: bool) -> (n: String)
    ensures
        n@ == display_name_spec(first@, last@, use_last),
{
    let mut n = String::from_str(first);
    if use_last {
        push_char(&mut n, ' ');
        n.append(last);
    }
    n
}

/// Log entries joined by newlines, as the log is displayed.
pub open spec fn joined_lines(entries: Seq<Seq<char>>) -> Seq<char>
    decreases entries.len(),
{
    if entries.len() == 0 {
        Seq::empty()
    } else if entries.len() == 1 {
        entries[0]
    } else {
        joined_lines(entries.drop_last()) + seq!['\n'] + entries.last()
    }
}

pub open spec fn string_views(v: Seq<String>) -> Seq<Seq<char>> {
    v.map_values(|s: String| s@)
}

/// The shared log that the effects section displays.
pub struct EffectLog {
    pub entries: Vec<String>,
}

impl EffectLog {
    pub fn new() -> (l: EffectLog)
        ensures
            l.entries@.len() == 0,
    {
        EffectLog { entries: Vec::new() }
    }

    /// Adds one entry at the end of the log.
    pub fn log(&mut self, msg: &str)
        ensures
            string_views(final(self).entries@) == string_views(old(self).entries@).push(msg@),
    {
        self.entries.push(String::from_str(msg));
        assert(string_views(self.entries@) =~= string_views(old(self).entries@).push(msg@));
    }

    /// The log as displayed: its entries, one per line.
    pub fn logged(&self) -> (t: String)
        ensures
            t@ == joined_lines(string_views(self.entries@)),
    {
        let ghost all = string_views(self.entries@);
        let mut t = String::new();
        let n = self.entries.len();
        for i in 0..n
            invariant
                n == self.entries@.len(),
                all == string_views(self.entries@),
                t@ == joined_lines(all.take(i as int)),
        {
            assert(all.take(i + 1).drop_last() =~= all.take(i as int));
            if i > 0 {
                push_char(&mut t, '\n');
            }
            t.append(self.entries[i].as_str());
            assert(all.take(i + 1).last() == self.entries@[i as int]@);
        }
        assert(all.take(n as int) =~= all);
        t
    }
}

/// A change to one field of the form.
pub enum FormEvent {
    First(String),
    Last(String),
    UseLast(bool),
}

/// Whether the effect runs for `event`. The effect reads the checkbox and
/// the first name on every run, and the last name only when it is used, so
/// only those signals make it run again.
pub open spec fn effect_runs(use_last: bool, event: FormEvent) -> bool {
    match event {
        FormEvent::First(_) => true,
        FormEvent::Last(_) => use_last,
        FormEvent::UseLast(_) => true,
    }
}

/// The form kept by the effect version: the effect logs the shown name
/// whenever a signal it read changes.
pub struct NameForm {
    pub first: String,
    pub last: String,
    pub use_last: bool,
}

pub open spec fn form_name(f: NameForm) -> Seq<char> {
    display_name_spec(f.first@, f.last@, f.use_last)
}

impl NameForm {
    /// Empty names, with the last name shown.
    pub fn new() -> (f: NameForm)
        ensures
            f.first@.len() == 0,
            f.last@.len() == 0,
            f.use_last,
    {
        NameForm { first: String::new(), last: String::new(), use_last: true }
    }

    /// The entry the effect logs when it is created: the shown name.
    pub fn first_entry(&self) -> (e: String)
        ensures
            e@ == form_name(*self),
    {
        display_name(self.first.as_str(), self.last.as_str(), self.use_last)
    }

    /// Applies a change to the form and gives the entry the effect logs
    /// for it, if the effect runs.
    pub fn apply(&mut self, event: FormEvent) -> (entry: Option<String>)
        ensures
            match event {
                FormEvent::First(v) => final(self).first@ == v@ && final(self).last@ == old(
                    self,
                ).last@ && final(self).use_last == old(self).use_last,
                FormEvent::Last(v) => final(self).last@ == v@ && final(self).first@ == old(
                    self,
                ).first@ && final(self).use_last == old(self).use_last,
                FormEvent::UseLast(b) => final(self).use_last == b && final(self).first@ == old(
                    self,
                ).first@ && final(self).last@ == old(self).last@,
            },
            entry is Some <==> effect_runs(old(self).use_last, event),
            entry matches Some(e) ==> e@ == form_name(*final(self)),
    {
        let runs = match &event {
            FormEvent::First(_) => true,
            FormEvent::Last(_) => self.use_last,
            FormEvent::UseLast(_) => true,
        };
        match event {
            FormEvent::First(v) => {
                self.first = v;
            },
            FormEvent::Last(v) => {
                self.last = v;
            },
            FormEvent::UseLast(b) => {
                self.use_last = b;
            },
        }
        if runs {
            Some(display_name(self.first.as_str(), self.last.as_str(), self.use_last))
        } else {
            None
        }
    }
}

/// The effect misses no change of the shown name: an event after which the
/// name differs is one the effect runs for.
pub proof fn lemma_effect_sees_every_change(
    first: Seq<char>,
    last: Seq<char>,
    use_last: bool,
    new_first: Seq<char>,
    new_last: Seq<char>,
    new_use_last: bool,
    event: FormEvent,
)
    requires
        match event {
            FormEvent::First(v) => new_first == v@ && new_last == last && new_use_last == use_last,
            FormEvent::Last(v) => new_last == v@ && new_first == first && new_use_last == use_last,
            FormEvent::UseLast(b) => new_use_last == b && new_first == first && new_last == last,
        },
        display_name_spec(new_first, new_last, new_use_last) != display_name_spec(
            first,
            last,
            use_last,
        ),
    ensures
        effect_runs(use_last, event),
{
}

/// The line the change listener logs on every change event.
pub open spec fn listener_line() -> Seq<char> {
    "      listener"@
}

/// The names the listener logs when the form shows `name` after showing
/// `prev`: the name when it differs, nothing when it is the same.
pub open spec fn new_name_entries(prev: Seq<char>, name: Seq<char>) -> Seq<Seq<char>> {
    if name != prev {
        seq![name]
    } else {
        Seq::empty()
    }
}

/// The listener logs a shown name exactly when it differs, as a whole
/// string, from the name it held: a different name is logged once, the same
/// name not at all.
pub proof fn lemma_listener_entries(prev: Seq<char>, name: Seq<char>)
    ensures
        name != prev ==> new_name_entries(prev, name) == seq![name],
        name == prev ==> new_name_entries(prev, name).len() == 0,
        listener_line() == "      listener"@,
{
}

/// The names logged for a run of change events that show `names` in turn,
/// starting after `prev`.
pub open spec fn logged_names(prev: Seq<char>, names: Seq<Seq<char>>) -> Seq<Seq<char>>
    decreases names.len(),
{
    if names.len() == 0 {
        Seq::empty()
    } else {
        new_name_entries(prev, names[0]) + logged_names(names[0], names.drop_first())
    }
}

pub open spec fn no_adjacent_repeats(s: Seq<Seq<char>>) -> bool {
    forall|i: int| 0 <= i < s.len() - 1 ==> #[trigger] s[i] != s[i + 1]
}

/// The hand-written listener: on every change it logs a listener line, and
/// then the shown name if it differs from the last name it logged.
pub struct ChangeListener {
    pub prev_name: String,
}

impl ChangeListener {
    pub fn new() -> (l: ChangeListener)
        ensures
            l.prev_name@.len() == 0,
    {
        ChangeListener { prev_name: String::new() }
    }

    /// A change event of the form: gives the entries to log.
    pub fn on_change(&mut self, first: &str, last: &str, use_last: bool) -> (entries: Vec<String>)
        ensures
            string_views(entries@) == seq![listener_line()] + new_name_entries(
                old(self).prev_name@,
                display_name_spec(first@, last@, use_last),
            ),
            final(self).prev_name@ == display_name_spec(first@, last@, use_last),
            display_name_spec(first@, last@, use_last) != old(self).prev_name@ ==> string_views(
                entries@,
            ) == seq!["      listener"@, display_name_spec(first@, last@, use_last)],
            display_name_spec(first@, last@, use_last) == old(self).prev_name@ ==> string_views(
                entries@,
            ) == seq!["      listener"@],
    {
        proof {
            lemma_listener_entries(old(self).prev_name@, display_name_spec(first@, last@, use_last));
        }
        let mut entries: Vec<String> = Vec::new();
        entries.push(String::from_str("      listener"));
        let this_one = display_name(first, last, use_last);
        let changed = !(this_one == self.prev_name);
        if changed {
            entries.push(this_one.clone());
            self.prev_name = this_one;
        }
        assert(string_views(entries@) =~= seq![listener_line()] + new_name_entries(
            old(self).prev_name@,
            display_name_spec(first@, last@, use_last),
        ));
        entries
    }
}

proof fn lemma_logged_names_shape(prev: Seq<char>, names: Seq<Seq<char>>)
    ensures
        no_adjacent_repeats(logged_names(prev, names)),
        logged_names(prev, names).len() > 0 ==> logged_names(prev, names)[0] != prev,
    decreases names.len(),
{
    if names.len() > 0 {
        let rest = logged_names(names[0], names.drop_first());
        lemma_logged_names_shape(names[0], names.drop_first());
        let all = logged_names(prev, names);
        if names[0] != prev {
            assert(all == seq![names[0]] + rest);
            assert forall|i: int| 0 <= i < all.len() - 1 implies #[trigger] all[i] != all[i + 1] by {
                if i > 0 {
                    assert(all[i] == rest[i - 1]);
                    assert(all[i + 1] == rest[i]);
                }
            }
        } else {
            assert(all =~= rest);
        }
    }
}

/// However the form changes, the listener never logs the same name twice in
/// a row, and its first logged name differs from the one it held before.
pub proof fn lemma_listener_no_repeats(prev: Seq<char>, names: Seq<Seq<char>>)
    ensures
        no_adjacent_repeats(logged_names(prev, names)),
        logged_names(prev, names).len() > 0 ==> logged_names(prev, names)[0] != prev,
{
    lemma_logged_names_shape(prev, names);
}

/// A change event that leaves the shown name as it was logs only the
/// listener line.
pub proof fn lemma_listener_same_name(prev: Seq<char>)
    ensures
        new_name_entries(prev, prev).len() == 0,
{
}

} // verus!
