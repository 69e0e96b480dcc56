//! What the window shows for an unread-message count.

use vstd::prelude::*;
use vstd::string::*;

verus! {

/// The application's name, which every window title ends with.
pub const APP_NAME: &'static str = "WhatsApp Lite";

/// The label shown in the title once the count no longer fits two digits.
pub const OVERFLOW_LABEL: &'static str = "99+";

/// The application's name, as characters.
pub open spec fn app_name() -> Seq<char> {
    APP_NAME@
}

/// The overflow label, as characters.
pub open spec fn overflow_label() -> Seq<char> {
    OVERFLOW_LABEL@
}

/// The decimal characters of one digit.
pub open spec fn digit_text(d: nat) -> Seq<char> {
    if d == 0 { "0"@ }
    else if d == 1 { "1"@ }
    else if d == 2 { "2"@ }
    else if d == 3 { "3"@ }
    else if d == 4 { "4"@ }
    else if d == 5 { "5"@ }
    else if d == 6 { "6"@ }
    else if d == 7 { "7"@ }
    else if d == 8 { "8"@ }
    else { "9"@ }
}

/// The decimal notation of `n`, without leading zeros.
pub open spec fn decimal(n: nat) -> Seq<char>
    decreases n,
{
    if n < 10 {
        digit_text(n)
    } else {
        decimal(n / 10) + digit_text(n % 10)
    }
}

/// A title that announces `label` unread messages: `(label) WhatsApp Lite`.
pub open spec fn counted_title(label: Seq<char>) -> Seq<char> {
    "("@ + label + ") "@ + app_name()
}

/// The window title for `count` unread messages.
pub open spec fn badge_title(count: u32) -> Seq<char> {
    if count == 0 {
        app_name()
    } else if count > 99 {
        counted_title(overflow_label())
    } else {
        counted_title(decimal(count as nat))
    }
}

proof fn lemma_digit_text(d: nat)
    requires
        d < 10,
    ensures
        digit_text(d).len() == 1,
        digit_text(d)[0] as int == '0' as int + d,
{
    reveal_strlit("0");
    reveal_strlit("1");
    reveal_strlit("2");
    reveal_strlit("3");
    reveal_strlit("4");
    reveal_strlit("5");
    reveal_strlit("6");
    reveal_strlit("7");
    reveal_strlit("8");
    reveal_strlit("9");
}

proof fn lemma_decimal_below_hundred(n: nat)
    requires
        n < 100,
    ensures
        n < 10 ==> decimal(n).len() == 1 && decimal(n)[0] as int == '0' as int + n,
        n >= 10 ==> decimal(n).len() == 2 && decimal(n)[0] as int == '0' as int + n / 10
            && decimal(n)[1] as int == '0' as int + n % 10,
{
    lemma_digit_text(n % 10);
    lemma_digit_text(n / 10);
    if n < 10 {
        lemma_digit_text(n);
    } else {
        assert(decimal(n / 10) == digit_text(n / 10));
    }
}

/// Every count above 99 gets the same title, `(99+) WhatsApp Lite`.
pub proof fn title_saturates_above_max(a: u32, b: u32)
    requires
        a > 99,
        b > 99,
    ensures
        badge_title(a) == badge_title(b),
        badge_title(a) == counted_title(overflow_label()),
{
}

/// The title tells apart every count up to 99: two different counts, not
/// both above 99, never get the same title.
pub proof fn titles_tell_counts_apart(a: u32, b: u32)
    requires
        a != b,
        a <= 99 || b <= 99,
    ensures
        badge_title(a) != badge_title(b),
{
    reveal_strlit("(");
    reveal_strlit(") ");
    reveal_strlit("99+");
    reveal_strlit("WhatsApp Lite");
    let ta = badge_title(a);
    let tb = badge_title(b);
    if a == 0 || b == 0 {
        assert(ta[0] != tb[0]);
    } else {
        let la = if a > 99 { overflow_label() } else { decimal(a as nat) };
        let lb = if b > 99 { overflow_label() } else { decimal(b as nat) };
        if a <= 99 {
            lemma_decimal_below_hundred(a as nat);
        }
        if b <= 99 {
            lemma_decimal_below_hundred(b as nat);
        }
        if ta == tb {
            assert(ta.len() == tb.len());
            assert(la.len() == lb.len());
            assert(ta.subrange(1, 1 + la.len() as int) =~= la);
            assert(tb.subrange(1, 1 + lb.len() as int) =~= lb);
            assert(la =~= lb);
            if la.len() == 2 {
                assert(la[0] == lb[0] && la[1] == lb[1]);
            } else {
                assert(la[0] == lb[0]);
            }
        }
    }
}

/// What the taskbar button carries beside the title.
#[derive(Clone, Copy, Debug, PartialEq, Eq, Structural)]
pub enum TaskbarOverlay {
    /// Draw the numeric badge for this count over the taskbar button.
    Show(u32),
    /// Remove any overlay icon.
    Clear,
}

/// The overlay the taskbar button gets for `count` unread messages.
pub open spec fn badge_overlay(count: u32) -> TaskbarOverlay {
    if count > 0 { TaskbarOverlay::Show(count) } else { TaskbarOverlay::Clear }
}

/// Everything the main window changes when the unread count changes.
pub struct BadgeUpdate {
    pub title: String,
    pub overlay: TaskbarOverlay,
}

fn digit_str(d: u32) -> (s: &'static str)
    requires
        d < 10,
    ensures
        s@ == digit_text(d as nat),
{
    match d {
        0 => "0",
        1 => "1",
        2 => "2",
        3 => "3",
        4 => "4",
        5 => "5",
        6 => "6",
        7 => "7",
        8 => "8",
        _ => "9",
    }
}

/// The decimal notation of a count below one hundred.
pub fn two_digit_decimal(n: u32) -> (s: String)
    requires
        n < 100,
    ensures
        s@ == decimal(n as nat),
{
    if n < 10 {
        String::from_str(digit_str(n))
    } else {
        let mut s = String::from_str(digit_str(n / 10));
        s.append(digit_str(n % 10));
        assert(decimal((n / 10) as nat) == digit_text((n / 10) as nat));
        s
    }
}

/// The window title for `count` unread messages: the bare application name
/// when nothing is unread, `(n) WhatsApp Lite` up to 99, and
/// `(99+) WhatsApp Lite` beyond.
pub fn window_title(count: u32) -> (title: String)
    ensures
        title@ == badge_title(count),
{
    if count == 0 {
        return String::from_str(APP_NAME);
    }
    let mut title = String::from_str("(");
    if count > 99 {
        title.append(OVERFLOW_LABEL);
    } else {
        let digits = two_digit_decimal(count);
        title.append(digits.as_str());
    }
    title.append(") ");
    title.append(APP_NAME);
    title
}

/// The update that the main window gets when the page reports `count`
/// unread messages: its title, and whether the taskbar button shows the
/// badge for that count or no overlay at all.
pub fn badge_update(count: u32) -> (update: BadgeUpdate)
    ensures
        update.title@ == badge_title(count),
        update.overlay == badge_overlay(count),
        count > 0 ==> update.overlay == TaskbarOverlay::Show(count),
        count == 0 ==> update.overlay == TaskbarOverlay::Clear,
        count == 0 ==> update.title@ == APP_NAME@,
        count > 99 ==> update.title@ == "(99+) WhatsApp Lite"@,
        1 <= count <= 99 ==> update.title@ == "("@ + decimal(count as nat) + ") WhatsApp Lite"@,
{
    let title = window_title(count);
    let overlay = if count > 0 { TaskbarOverlay::Show(count) } else { TaskbarOverlay::Clear };
    proof {
        badge_overlay_follows_count(count);
        title_announces_count(count);
    }
    BadgeUpdate { title, overlay }
}

/// The taskbar button carries the badge for exactly the reported count
/// whenever a message is unread, and no overlay when none is.
pub proof fn badge_overlay_follows_count(count: u32)
    ensures
        count > 0 ==> badge_overlay(count) == TaskbarOverlay::Show(count),
        count == 0 ==> badge_overlay(count) == TaskbarOverlay::Clear,
        (badge_overlay(count) is Show) <==> count > 0,
{
}

/// The title is the bare application name when nothing is unread,
/// `(99+) WhatsApp Lite` beyond 99, and otherwise the count in decimal in
/// parentheses before the name.
pub proof fn title_announces_count(count: u32)
    ensures
        count == 0 ==> badge_title(count) == APP_NAME@,
        count > 99 ==> badge_title(count) == "(99+) WhatsApp Lite"@,
        1 <= count <= 99 ==> badge_title(count) == "("@ + decimal(count as nat)
            + ") WhatsApp Lite"@,
{
    reveal_strlit("(");
    reveal_strlit(") ");
    reveal_strlit("99+");
    reveal_strlit("WhatsApp Lite");
    reveal_strlit(") WhatsApp Lite");
    reveal_strlit("(99+) WhatsApp Lite");
    assert(") "@ + APP_NAME@ =~= ") WhatsApp Lite"@);
    assert("("@ + OVERFLOW_LABEL@ + ") "@ + APP_NAME@ =~= "(99+) WhatsApp Lite"@);
    assert forall|l: Seq<char>| #[trigger] counted_title(l) == "("@ + l + ") WhatsApp Lite"@ by {
        assert("("@ + l + ") "@ + APP_NAME@ =~= "("@ + l + (") "@ + APP_NAME@));
    }
}

} // verus!
