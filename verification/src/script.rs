//! The style sheet and the script that are injected into the WhatsApp Web
//! page: the script disables the context menu, installs the style sheet,
//! hides download banners as they appear, and reports the unread count back
//! to the application every two seconds.

use vstd::prelude::*;
use vstd::string::*;

verus! {

/// Style sheet that hides Communities, Channels, Meta AI and the "get the
/// app" banners, slims the scroll bars and narrows the side panel.
pub const CUSTOM_CSS: &'static str = r#"
/* WhatsApp Lite Custom CSS */
/* Hide Communities, Channels, Meta AI (Keep Chats, Status, Settings, Profile) */
div[title='Communities'], span[title='Communities'], div[aria-label='Communities'], span[aria-label='Communities'],
div[title='Channels'], span[title='Channels'], div[aria-label='Channels'], span[aria-label='Channels'],
div[title='Meta AI'], span[title='Meta AI'], div[aria-label='Meta AI'], span[aria-label='Meta AI'] {
    display: none !important;
}

/* Hide 'Get the app' banners if any */
div[data-testid='intro-title'], div[data-testid='intro-text'] {
    display: none !important;
}

/* Cool Scrollbar */
::-webkit-scrollbar {
    width: 6px !important;
    height: 6px !important;
}
::-webkit-scrollbar-track {
    background: transparent !important;
}
::-webkit-scrollbar-thumb {
    background: rgba(255, 255, 255, 0.2) !important;
    border-radius: 3px !important;
}
::-webkit-scrollbar-thumb:hover {
    background: rgba(255, 255, 255, 0.3) !important;
}

div._aigw {
	max-width: 30% !important;
}
"#;

/// The script text that comes before the style sheet, which it embeds in a
/// template literal.
pub const SCRIPT_HEAD: &'static str = r#"
                    const init = () => {
                        // Disable Right Click
                        document.addEventListener('contextmenu', event => event.preventDefault());

                        const css = `"#;

/// The script text that comes after the style sheet.
pub const SCRIPT_TAIL: &'static str = r#"`;
                        const style = document.createElement('style');
                        style.textContent = css;
                        document.head.append(style);

                        const observer = new MutationObserver((mutations) => {
                            mutations.forEach((mutation) => {
                                mutation.addedNodes.forEach((node) => {
                                    if (node.nodeType === 1) {
                                        const text = node.innerText;
                                        if (text && (
                                            text.includes('Get WhatsApp for Windows') ||
                                            text.includes('See more chat history') ||
                                            text.includes('Download WhatsApp for Windows') ||
                                            text.includes('Make calls, share your screen')
                                        )) {
                                            node.style.display = 'none';
                                        }
                                        const banners = node.querySelectorAll('div, span, a');
                                        banners.forEach(b => {
                                            const t = b.innerText;
                                            if (t && (
                                                t.includes('Get WhatsApp for Windows') ||
                                                t.includes('See more chat history') ||
                                                t.includes('Download WhatsApp for Windows') ||
                                                t.includes('Make calls, share your screen')
                                            )) {
                                                const container = b.closest('div[role="button"]') || b.closest('div._aigv') || b.closest('div._aigw') || b;
                                                if (container) container.style.display = 'none';
                                            }
                                        });
                                    }
                                });
                            });
                        });

                        if (document.body) {
                            observer.observe(document.body, { childList: true, subtree: true });
                        }

                        // Badge/Notification Count Monitoring
                        let lastCount = 0;
                        const updateBadge = async () => {
                            try {
                                let totalUnread = 0;

                                // Method 1: Check document title (WhatsApp Web updates title with count)
                                const titleMatch = document.title.match(/\((\d+)\)/);
                                if (titleMatch) {
                                    totalUnread = parseInt(titleMatch[1]);
                                } else {
                                    // Method 2: Only if title didn't work, count badge elements
                                    const badges = document.querySelectorAll('span[data-icon="unread-count"]');
                                    badges.forEach(badge => {
                                        const text = badge.textContent || badge.innerText;
                                        const count = parseInt(text.trim());
                                        if (!isNaN(count) && count > 0) {
                                            totalUnread += count;
                                        }
                                    });

                                    // If still no count, count unread chats (green dots without numbers)
                                    if (totalUnread === 0) {
                                        const unreadChats = document.querySelectorAll('div[role="listitem"] span[data-icon="status-unread"]');
                                        totalUnread = unreadChats.length;
                                    }
                                }

                                // Update badge if count changed
                                if (totalUnread !== lastCount) {
                                    lastCount = totalUnread;
                                    if (window.__TAURI__) {
                                        await window.__TAURI__.core.invoke('set_badge_count', { count: totalUnread });
                                    }
                                }
                            } catch (error) {
                                console.error('Badge update error:', error);
                            }
                        };

                        // Update badge every 2 seconds
                        setInterval(updateBadge, 2000);

                        // Initial update after 5 seconds (wait for WhatsApp to load)
                        setTimeout(updateBadge, 5000);

                        // Also update on visibility change
                        document.addEventListener('visibilitychange', () => {
                            if (!document.hidden) {
                                setTimeout(updateBadge, 1000);
                            }
                        });
                    };

                    if (document.readyState === 'loading') {
                        window.addEventListener('DOMContentLoaded', init);
                    } else {
                        init();
                    }
                    "#;

/// The script injected into the page, with style sheet `css` embedded.
pub open spec fn injected_script(css: Seq<char>) -> Seq<char> {
    SCRIPT_HEAD@ + css + SCRIPT_TAIL@
}

/// The script to evaluate in the main window once it exists, embedding the
/// style sheet `css` between its two fixed parts.
pub fn main_script(css: &str) -> (script: String)
    ensures
        script@ == injected_script(css@),
        script@.len() == SCRIPT_HEAD@.len() + css@.len() + SCRIPT_TAIL@.len(),
        script@.subrange(0, SCRIPT_HEAD@.len() as int) == SCRIPT_HEAD@,
        script@.subrange(
            SCRIPT_HEAD@.len() as int,
            (SCRIPT_HEAD@.len() + css@.len()) as int,
        ) == css@,
        script@.subrange((SCRIPT_HEAD@.len() + css@.len()) as int, script@.len() as int) == SCRIPT_TAIL@,
{
    let mut script = String::from_str(SCRIPT_HEAD);
    script.append(css);
    script.append(SCRIPT_TAIL);
    proof {
        script_embeds_css_verbatim(css@);
    }
    script
}

/// The injected script is the fixed head, then the whole style sheet
/// unchanged, then the fixed tail: its length is the sum of the three, and
/// the text between head and tail is exactly the style sheet.
pub proof fn script_embeds_css_verbatim(css: Seq<char>)
    ensures
        injected_script(css).len() == SCRIPT_HEAD@.len() + css.len() + SCRIPT_TAIL@.len(),
        injected_script(css).subrange(0, SCRIPT_HEAD@.len() as int) == SCRIPT_HEAD@,
        injected_script(css).subrange(
            SCRIPT_HEAD@.len() as int,
            (SCRIPT_HEAD@.len() + css.len()) as int,
        ) == css,
        injected_script(css).subrange(
            (SCRIPT_HEAD@.len() + css.len()) as int,
            injected_script(css).len() as int,
        ) == SCRIPT_TAIL@,
{
    let s = injected_script(css);
    let h = SCRIPT_HEAD@.len() as int;
    assert(s.subrange(0, h) =~= SCRIPT_HEAD@);
    assert(s.subrange(h, h + css.len()) =~= css);
    assert(s.subrange(h + css.len(), s.len() as int) =~= SCRIPT_TAIL@);
}

/// Different style sheets give different scripts: the style sheet can be
/// read back from the script.
pub proof fn script_determines_css(a: Seq<char>, b: Seq<char>)
    requires
        injected_script(a) == injected_script(b),
    ensures
        a == b,
{
    script_embeds_css_verbatim(a);
    script_embeds_css_verbatim(b);
}

} // verus!
