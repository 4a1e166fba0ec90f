//! The click counter at the top of the page: every click adds one, and once
//! the count reaches the winning mark the page shows "You won" and the count
//! starts again from zero.

use vstd::prelude::*;

verus! {

/// The count at which the page declares a win and restarts.
pub const WIN_COUNT: i32 = 50;

/// What settling a count gives: whether the page shows the win, and the
/// count afterwards.
pub open spec fn settle_spec(count: int) -> (bool, int) {
    if count >= WIN_COUNT {
        (true, 0)
    } else {
        (false, count)
    }
}

/// One click followed by the page's check of the count.
pub open spec fn click_spec(count: int) -> (bool, int) {
    settle_spec(count + 1)
}

/// The number of wins and the count after `clicks` clicks from zero, each
/// one a `click_and_settle` (whose contract is `click_spec`).
pub open spec fn after_clicks(clicks: nat) -> (nat, int)
    decreases clicks,
{
    if clicks == 0 {
        (0, 0)
    } else {
        let (wins, count) = after_clicks((clicks - 1) as nat);
        let (won, next) = click_spec(count);
        (if won { wins + 1 } else { wins }, next)
    }
}

pub struct ClickCounter {
    pub count: i32,
}

impl ClickCounter {
    pub fn new() -> (c: ClickCounter)
        ensures
            c.count == 0,
    {
        ClickCounter { count: 0 }
    }

    /// A click on the button adds one to the count.
    pub fn click(&mut self)
        requires
            old(self).count < i32::MAX,
        ensures
            final(self).count == old(self).count + 1,
    {
        self.count = self.count + 1;
    }

    /// The page's check of the count: at or above the winning mark it shows
    /// "You won" (the result is `true`) and sets the count back to zero.
    pub fn settle(&mut self) -> (won: bool)
        ensures
            (won, final(self).count as int) == settle_spec(old(self).count as int),
    {
        if self.count >= WIN_COUNT {
            self.count = 0;
            true
        } else {
            false
        }
    }

    /// A click followed by the check: what the button's handler and the
    /// page's reaction to it do together.
    pub fn click_and_settle(&mut self) -> (won: bool)
        requires
            old(self).count < i32::MAX,
        ensures
            (won, final(self).count as int) == click_spec(old(self).count as int),
    {
        self.click();
        self.settle()
    }

    /// The doubled count that feeds the second progress bar.
    pub fn double_count(&self) -> (d: i32)
        requires
            i32::MIN <= 2 * self.count <= i32::MAX,
        ensures
            d == 2 * self.count,
    {
        self.count * 2
    }
}

/// From any count below the winning mark, a click and the check keep the
/// count below the mark and at least zero, and the page declares a win
/// exactly when the click brings the count to the mark.
pub proof fn lemma_click_keeps_range(count: int)
    requires
        0 <= count < WIN_COUNT,
    ensures
        0 <= click_spec(count).1 < WIN_COUNT,
        click_spec(count).0 <==> count + 1 == WIN_COUNT,
{
}

/// After any number of clicks from zero, each settled before the next, the
/// count is the number of clicks modulo the winning mark (so it stays at
/// least zero and below the mark, and its double is twice that), and the
/// page has declared as many wins as the mark fits into the number of clicks.
pub proof fn lemma_clicks_from_zero(clicks: nat)
    ensures
        after_clicks(clicks).1 == clicks % (WIN_COUNT as nat),
        after_clicks(clicks).0 == clicks / (WIN_COUNT as nat),
        0 <= after_clicks(clicks).1 < WIN_COUNT,
        i32::MIN <= 2 * after_clicks(clicks).1 <= i32::MAX,
    decreases clicks,
{
    if clicks > 0 {
        lemma_clicks_from_zero((clicks - 1) as nat);
        let p = (clicks - 1) as nat;
        assert(p % 50 + 1 == 50 ==> clicks % 50 == 0 && clicks / 50 == p / 50 + 1) by (nonlinear_arith)
            requires clicks == p + 1;
        assert(p % 50 + 1 != 50 ==> clicks % 50 == p % 50 + 1 && clicks / 50 == p / 50) by (nonlinear_arith)
            requires clicks == p + 1;
    }
}

} // verus!
