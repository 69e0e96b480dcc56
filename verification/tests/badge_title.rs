use whatsapp_lite::badge::{badge_update, two_digit_decimal, window_title, TaskbarOverlay};

#[test]
fn no_unread_messages_show_the_bare_name() {
    assert_eq!(window_title(0), "WhatsApp Lite");
}

#[test]
fn one_digit_counts_are_shown_in_parentheses() {
    assert_eq!(window_title(1), "(1) WhatsApp Lite");
    assert_eq!(window_title(9), "(9) WhatsApp Lite");
}

#[test]
fn two_digit_counts_are_shown_in_parentheses() {
    assert_eq!(window_title(10), "(10) WhatsApp Lite");
    assert_eq!(window_title(42), "(42) WhatsApp Lite");
    assert_eq!(window_title(99), "(99) WhatsApp Lite");
}

#[test]
fn counts_above_ninety_nine_show_the_overflow_label() {
    assert_eq!(window_title(100), "(99+) WhatsApp Lite");
    assert_eq!(window_title(5000), "(99+) WhatsApp Lite");
    assert_eq!(window_title(u32::MAX), "(99+) WhatsApp Lite");
}

#[test]
fn titles_match_decimal_formatting_up_to_ninety_nine() {
    for n in 1..=99u32 {
        assert_eq!(window_title(n), format!("({}) WhatsApp Lite", n));
        assert_eq!(two_digit_decimal(n), n.to_string());
    }
    assert_eq!(two_digit_decimal(0), "0");
}

#[test]
fn distinct_counts_get_distinct_titles() {
    let titles: Vec<String> = (0..=100u32).map(window_title).collect();
    for i in 0..titles.len() {
        for j in (i + 1)..titles.len() {
            assert_ne!(titles[i], titles[j]);
        }
    }
    assert_eq!(window_title(101), window_title(100));
}

#[test]
fn a_positive_count_shows_the_overlay_for_that_count() {
    let update = badge_update(7);
    assert_eq!(update.title, "(7) WhatsApp Lite");
    assert_eq!(update.overlay, TaskbarOverlay::Show(7));
    let update = badge_update(250);
    assert_eq!(update.title, "(99+) WhatsApp Lite");
    assert_eq!(update.overlay, TaskbarOverlay::Show(250));
}

#[test]
fn a_zero_count_clears_the_overlay() {
    let update = badge_update(0);
    assert_eq!(update.title, "WhatsApp Lite");
    assert_eq!(update.overlay, TaskbarOverlay::Clear);
}
