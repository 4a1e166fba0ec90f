//! The styled paragraph of the parent/child section: four buttons, each
//! flipping one class of the paragraph.

use vstd::prelude::*;
use vstd::string::StringExecFns;

verus! {

/// The four buttons: red (passed the setter), right (passed a closure),
/// italics (a listener set by the parent) and small caps (the setter taken
/// from the context).
#[derive(Clone, Copy, Debug, PartialEq, Eq, Structural)]
pub enum StyleButton {
    Red,
    Right,
    Italics,
    SmallCaps,
}

/// Which classes the paragraph has.
#[derive(Clone, Copy, Debug, PartialEq, Eq, Structural)]
pub struct TextStyle {
    pub red: bool,
    pub right: bool,
    pub italics: bool,
    pub smallcaps: bool,
}

/// A button's handler: flips the boolean behind its setter.
pub fn toggle(value: &mut bool)
    ensures
        *final(value) == !*old(value),
{
    *value = !*value;
}

/// The style after pressing `button`.
pub open spec fn pressed(s: TextStyle, button: StyleButton) -> TextStyle {
    match button {
        StyleButton::Red => TextStyle { red: !s.red, ..s },
        StyleButton::Right => TextStyle { right: !s.right, ..s },
        StyleButton::Italics => TextStyle { italics: !s.italics, ..s },
        StyleButton::SmallCaps => TextStyle { smallcaps: !s.smallcaps, ..s },
    }
}

/// Whether the class of `button` is on in `s`.
pub open spec fn is_on_spec(s: TextStyle, button: StyleButton) -> bool {
    match button {
        StyleButton::Red => s.red,
        StyleButton::Right => s.right,
        StyleButton::Italics => s.italics,
        StyleButton::SmallCaps => s.smallcaps,
    }
}

pub open spec fn class_name_spec(button: StyleButton) -> Seq<char> {
    match button {
        StyleButton::Red => "red"@,
        StyleButton::Right => "right"@,
        StyleButton::Italics => "italics"@,
        StyleButton::SmallCaps => "smallcaps"@,
    }
}

pub open spec fn label_spec(button: StyleButton) -> Seq<char> {
    match button {
        StyleButton::Red => "Toggle Red"@,
        StyleButton::Right => "Toggle Right"@,
        StyleButton::Italics => "Toggle Italics"@,
        StyleButton::SmallCaps => "Toggle Small Caps"@,
    }
}

/// The class `button` contributes to the paragraph of style `s`: its name
/// when on, nothing when off.
pub open spec fn class_if_on(s: TextStyle, button: StyleButton) -> Seq<Seq<char>> {
    if is_on_spec(s, button) {
        seq![class_name_spec(button)]
    } else {
        Seq::empty()
    }
}

/// The class names of `s` that are on, in the order red, right, italics,
/// small caps.
pub open spec fn classes_spec(s: TextStyle) -> Seq<Seq<char>> {
    class_if_on(s, StyleButton::Red) + class_if_on(s, StyleButton::Right) + class_if_on(
        s,
        StyleButton::Italics,
    ) + class_if_on(s, StyleButton::SmallCaps)
}

/// The caption of a button.
pub fn label(button: StyleButton) -> (l: String)
    ensures
        l@ == label_spec(button),
{
    match button {
        StyleButton::Red => String::from_str("Toggle Red"),
        StyleButton::Right => String::from_str("Toggle Right"),
        StyleButton::Italics => String::from_str("Toggle Italics"),
        StyleButton::SmallCaps => String::from_str("Toggle Small Caps"),
    }
}

/// The class a button flips.
pub fn class_name(button: StyleButton) -> (c: String)
    ensures
        c@ == class_name_spec(button),
{
    match button {
        StyleButton::Red => String::from_str("red"),
        StyleButton::Right => String::from_str("right"),
        StyleButton::Italics => String::from_str("italics"),
        StyleButton::SmallCaps => String::from_str("smallcaps"),
    }
}

impl TextStyle {
    /// All classes off, as the page starts.
    pub fn new() -> (s: TextStyle)
        ensures
            !s.red && !s.right && !s.italics && !s.smallcaps,
    {
        TextStyle { red: false, right: false, italics: false, smallcaps: false }
    }

    /// A click on `button`: its class flips, the others stay.
    pub fn press(&mut self, button: StyleButton)
        ensures
            *final(self) == pressed(*old(self), button),
            final(self).red == (if button == StyleButton::Red { !old(self).red } else { old(self).red }),
            final(self).right == (if button == StyleButton::Right { !old(self).right } else { old(self).right }),
            final(self).italics == (if button == StyleButton::Italics { !old(self).italics } else { old(self).italics }),
            final(self).smallcaps == (if button == StyleButton::SmallCaps { !old(self).smallcaps } else { old(self).smallcaps }),
    {
        proof {
            lemma_press_fields(*old(self), button);
        }
        match button {
            StyleButton::Red => toggle(&mut self.red),
            StyleButton::Right => toggle(&mut self.right),
            StyleButton::Italics => toggle(&mut self.italics),
            StyleButton::SmallCaps => toggle(&mut self.smallcaps),
        }
    }

    pub fn is_on(&self, button: StyleButton) -> (b: bool)
        ensures
            b == is_on_spec(*self, button),
            button == StyleButton::Red ==> b == self.red,
            button == StyleButton::Right ==> b == self.right,
            button == StyleButton::Italics ==> b == self.italics,
            button == StyleButton::SmallCaps ==> b == self.smallcaps,
    {
        proof {
            lemma_is_on_fields(*self);
        }
        match button {
            StyleButton::Red => self.red,
            StyleButton::Right => self.right,
            StyleButton::Italics => self.italics,
            StyleButton::SmallCaps => self.smallcaps,
        }
    }

    fn push_class_if_on(&self, c: &mut Vec<String>, button: StyleButton)
        ensures
            final(c)@.map_values(|x: String| x@) == old(c)@.map_values(|x: String| x@) + class_if_on(
                *self,
                button,
            ),
    {
        let ghost before = c@;
        if self.is_on(button) {
            c.push(class_name(button));
            assert(c@.map_values(|x: String| x@) =~= before.map_values(|x: String| x@) + class_if_on(
                *self,
                button,
            ));
        } else {
            assert(c@.map_values(|x: String| x@) =~= before.map_values(|x: String| x@) + class_if_on(
                *self,
                button,
            ));
        }
    }

    /// The classes the paragraph carries.
    pub fn classes(&self) -> (c: Vec<String>)
        ensures
            c@.map_values(|x: String| x@) == classes_spec(*self),
            c@.map_values(|x: String| x@).contains("red"@) == self.red,
            c@.map_values(|x: String| x@).contains("right"@) == self.right,
            c@.map_values(|x: String| x@).contains("italics"@) == self.italics,
            c@.map_values(|x: String| x@).contains("smallcaps"@) == self.smallcaps,
            c@.len() == (if self.red { 1int } else { 0int }) + (if self.right { 1int } else { 0int })
                + (if self.italics { 1int } else { 0int }) + (if self.smallcaps { 1int } else { 0int }),
    {
        proof {
            lemma_classes_membership(*self);
        }
        let mut c: Vec<String> = Vec::new();
        self.push_class_if_on(&mut c, StyleButton::Red);
        self.push_class_if_on(&mut c, StyleButton::Right);
        self.push_class_if_on(&mut c, StyleButton::Italics);
        self.push_class_if_on(&mut c, StyleButton::SmallCaps);
        assert(c@.map_values(|x: String| x@) =~= classes_spec(*self));
        c
    }
}

/// The style after pressing `button` `k` times.
pub open spec fn pressed_times(s: TextStyle, button: StyleButton, k: nat) -> TextStyle
    decreases k,
{
    if k == 0 {
        s
    } else {
        pressed(pressed_times(s, button, (k - 1) as nat), button)
    }
}

/// The boolean after its setter's handler ran `k` times.
pub open spec fn toggled_times(b: bool, k: nat) -> bool
    decreases k,
{
    if k == 0 {
        b
    } else {
        !toggled_times(b, (k - 1) as nat)
    }
}

/// `k` runs of a button's handler leave its boolean flipped exactly when `k`
/// is odd.
pub proof fn lemma_toggle_times(b: bool, k: nat)
    ensures
        toggled_times(b, k) == (b != (k % 2 == 1)),
    decreases k,
{
    if k > 0 {
        lemma_toggle_times(b, (k - 1) as nat);
    }
}

/// `k` presses of a button leave its class flipped exactly when `k` is odd,
/// and every other class as it was.
pub proof fn lemma_press_times(s: TextStyle, button: StyleButton, other: StyleButton, k: nat)
    ensures
        is_on_spec(pressed_times(s, button, k), button) == (is_on_spec(s, button) != (k % 2
            == 1)),
        other != button ==> is_on_spec(pressed_times(s, button, k), other) == is_on_spec(
            s,
            other,
        ),
    decreases k,
{
    if k > 0 {
        lemma_press_times(s, button, other, (k - 1) as nat);
        lemma_press_flips_one(pressed_times(s, button, (k - 1) as nat), button, other);
    }
}

/// Each button flips its own field of the style and leaves the three others:
/// red flips `red`, right flips `right`, italics flips `italics`, small caps
/// flips `smallcaps`.
pub proof fn lemma_press_fields(s: TextStyle, button: StyleButton)
    ensures
        pressed(s, button).red == (if button == StyleButton::Red { !s.red } else { s.red }),
        pressed(s, button).right == (if button == StyleButton::Right { !s.right } else { s.right }),
        pressed(s, button).italics == (if button == StyleButton::Italics { !s.italics } else { s.italics }),
        pressed(s, button).smallcaps == (if button == StyleButton::SmallCaps { !s.smallcaps } else { s.smallcaps }),
{
}

/// A button reads as on exactly when its own field is set.
pub proof fn lemma_is_on_fields(s: TextStyle)
    ensures
        is_on_spec(s, StyleButton::Red) == s.red,
        is_on_spec(s, StyleButton::Right) == s.right,
        is_on_spec(s, StyleButton::Italics) == s.italics,
        is_on_spec(s, StyleButton::SmallCaps) == s.smallcaps,
{
}

/// The paragraph carries the class "red", "right", "italics" or "smallcaps"
/// exactly when that field of the style is set, and no class twice: there
/// are as many classes as fields set.
pub proof fn lemma_classes_membership(s: TextStyle)
    ensures
        classes_spec(s).contains("red"@) == s.red,
        classes_spec(s).contains("right"@) == s.right,
        classes_spec(s).contains("italics"@) == s.italics,
        classes_spec(s).contains("smallcaps"@) == s.smallcaps,
        classes_spec(s).len() == (if s.red { 1int } else { 0int }) + (if s.right { 1int } else { 0int })
            + (if s.italics { 1int } else { 0int }) + (if s.smallcaps { 1int } else { 0int }),
{
    reveal_strlit("red");
    reveal_strlit("right");
    reveal_strlit("italics");
    reveal_strlit("smallcaps");
    let r = class_if_on(s, StyleButton::Red);
    let g = class_if_on(s, StyleButton::Right);
    let i = class_if_on(s, StyleButton::Italics);
    let m = class_if_on(s, StyleButton::SmallCaps);
    let names = seq!["red"@, "right"@, "italics"@, "smallcaps"@];
    assert forall|k: int| 0 <= k < 4 implies {
        let x = #[trigger] names[k];
        &&& classes_spec(s).contains(x) == (r.contains(x) || g.contains(x) || i.contains(x)
            || m.contains(x))
    } by {
        let x = names[k];
        lemma_concat_contains(r, g, x);
        lemma_concat_contains(r + g, i, x);
        lemma_concat_contains(r + g + i, m, x);
    }
    lemma_class_if_on_only(s, StyleButton::Red);
    lemma_class_if_on_only(s, StyleButton::Right);
    lemma_class_if_on_only(s, StyleButton::Italics);
    lemma_class_if_on_only(s, StyleButton::SmallCaps);
    assert("red"@.len() == 3 && "right"@.len() == 5 && "italics"@.len() == 7
        && "smallcaps"@.len() == 9);
    assert(names[0] == "red"@);
    assert(names[1] == "right"@);
    assert(names[2] == "italics"@);
    assert(names[3] == "smallcaps"@);
    assert(r.contains("red"@) == s.red) by {
        if s.red {
            assert(r[0] == "red"@);
        }
    }
    assert(g.contains("right"@) == s.right) by {
        if s.right {
            assert(g[0] == "right"@);
        }
    }
    assert(i.contains("italics"@) == s.italics) by {
        if s.italics {
            assert(i[0] == "italics"@);
        }
    }
    assert(m.contains("smallcaps"@) == s.smallcaps) by {
        if s.smallcaps {
            assert(m[0] == "smallcaps"@);
        }
    }
}

proof fn lemma_class_if_on_only(s: TextStyle, button: StyleButton)
    ensures
        forall|x: Seq<char>| #[trigger] class_if_on(s, button).contains(x) ==> x == class_name_spec(button),
{
    assert forall|x: Seq<char>| #[trigger] class_if_on(s, button).contains(x) implies x == class_name_spec(button) by {
        let k = choose|k: int| 0 <= k < class_if_on(s, button).len() && class_if_on(s, button)[k] == x;
    }
}

proof fn lemma_concat_contains(a: Seq<Seq<char>>, b: Seq<Seq<char>>, x: Seq<char>)
    ensures
        (a + b).contains(x) == (a.contains(x) || b.contains(x)),
{
    if a.contains(x) {
        let k = choose|k: int| 0 <= k < a.len() && a[k] == x;
        assert((a + b)[k] == x);
    }
    if b.contains(x) {
        let k = choose|k: int| 0 <= k < b.len() && b[k] == x;
        assert((a + b)[a.len() + k] == x);
    }
    if (a + b).contains(x) {
        let k = choose|k: int| 0 <= k < (a + b).len() && (a + b)[k] == x;
        if k < a.len() {
            assert(a[k] == x);
        } else {
            assert(b[k - a.len()] == x);
        }
    }
}

/// Pressing a button twice leaves the paragraph as it was.
pub proof fn lemma_press_twice(s: TextStyle, button: StyleButton)
    ensures
        pressed(pressed(s, button), button) == s,
{
}

/// Pressing a button flips its own class and no other.
pub proof fn lemma_press_flips_one(s: TextStyle, button: StyleButton, other: StyleButton)
    ensures
        is_on_spec(pressed(s, button), button) == !is_on_spec(s, button),
        other != button ==> is_on_spec(pressed(s, button), other) == is_on_spec(s, other),
{
}

/// The order of two presses does not matter.
pub proof fn lemma_press_commutes(s: TextStyle, a: StyleButton, b: StyleButton)
    ensures
        pressed(pressed(s, a), b) == pressed(pressed(s, b), a),
{
}

} // verus!
