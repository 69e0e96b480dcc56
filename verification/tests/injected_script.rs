use whatsapp_lite::script::{main_script, CUSTOM_CSS, SCRIPT_HEAD, SCRIPT_TAIL};

#[test]
fn the_script_embeds_the_style_sheet_between_its_fixed_parts() {
    let script = main_script(CUSTOM_CSS);
    assert_eq!(script, format!("{}{}{}", SCRIPT_HEAD, CUSTOM_CSS, SCRIPT_TAIL));
    assert!(script.starts_with(SCRIPT_HEAD));
    assert!(script.ends_with(SCRIPT_TAIL));
}

#[test]
fn the_script_equals_the_formatted_template() {
    let expected = format!(
        r#"
                    const init = () => {{
                        // Disable Right Click
                        document.addEventListener('contextmenu', event => event.preventDefault());

                        const css = `{}`;
                        const style = document.createElement('style');
                        style.textContent = css;
                        document.head.append(style);

                        const observer = new MutationObserver((mutations) => {{
                            mutations.forEach((mutation) => {{
                                mutation.addedNodes.forEach((node) => {{
                                    if (node.nodeType === 1) {{
                                        const text = node.innerText;
                                        if (text && (
                                            text.includes('Get WhatsApp for Windows') ||
                                            text.includes('See more chat history') ||
                                            text.includes('Download WhatsApp for Windows') ||
                                            text.includes('Make calls, share your screen')
                                        )) {{
                                            node.style.display = 'none';
                                        }}
                                        const banners = node.querySelectorAll('div, span, a');
                                        banners.forEach(b => {{
                                            const t = b.innerText;
                                            if (t && (
                                                t.includes('Get WhatsApp for Windows') ||
                                                t.includes('See more chat history') ||
                                                t.includes('Download WhatsApp for Windows') ||
                                                t.includes('Make calls, share your screen')
                                            )) {{
                                                const container = b.closest('div[role="button"]') || b.closest('div._aigv') || b.closest('div._aigw') || b;
                                                if (container) container.style.display = 'none';
                                            }}
                                        }});
                                    }}
                                }});
                            }});
                        }});

                        if (document.body) {{
                            observer.observe(document.body, {{ childList: true, subtree: true }});
                        }}

                        // Badge/Notification Count Monitoring
                        let lastCount = 0;
                        const updateBadge = async () => {{
                            try {{
                                let totalUnread = 0;

                                // Method 1: Check document title (WhatsApp Web updates title with count)
                                const titleMatch = document.title.match(/\((\d+)\)/);
                                if (titleMatch) {{
                                    totalUnread = parseInt(titleMatch[1]);
                                }} else {{
                                    // Method 2: Only if title didn't work, count badge elements
                                    const badges = document.querySelectorAll('span[data-icon="unread-count"]');
                                    badges.forEach(badge => {{
                                        const text = badge.textContent || badge.innerText;
                                        const count = parseInt(text.trim());
                                        if (!isNaN(count) && count > 0) {{
                                            totalUnread += count;
                                        }}
                                    }});

                                    // If still no count, count unread chats (green dots without numbers)
                                    if (totalUnread === 0) {{
                                        const unreadChats = document.querySelectorAll('div[role="listitem"] span[data-icon="status-unread"]');
                                        totalUnread = unreadChats.length;
                                    }}
                                }}

                                // Update badge if count changed
                                if (totalUnread !== lastCount) {{
                                    lastCount = totalUnread;
                                    if (window.__TAURI__) {{
                                        await window.__TAURI__.core.invoke('set_badge_count', {{ count: totalUnread }});
                                    }}
                                }}
                            }} catch (error) {{
                                console.error('Badge update error:', error);
                            }}
                        }};

                        // Update badge every 2 seconds
                        setInterval(updateBadge, 2000);

                        // Initial update after 5 seconds (wait for WhatsApp to load)
                        setTimeout(updateBadge, 5000);

                        // Also update on visibility change
                        document.addEventListener('visibilitychange', () => {{
                            if (!document.hidden) {{
                                setTimeout(updateBadge, 1000);
                            }}
                        }});
                    }};

                    if (document.readyState === 'loading') {{
                        window.addEventListener('DOMContentLoaded', init);
                    }} else {{
                        init();
                    }}
                    "#,
        CUSTOM_CSS
    );
    assert_eq!(main_script(CUSTOM_CSS), expected);
}

#[test]
fn the_script_embeds_any_style_sheet_verbatim() {
    let script = main_script("body { color: red; }");
    assert!(script.contains("const css = `body { color: red; }`;"));
    assert_eq!(main_script("").len(), SCRIPT_HEAD.len() + SCRIPT_TAIL.len());
}

#[test]
fn the_script_reports_the_unread_count_to_the_application() {
    let script = main_script(CUSTOM_CSS);
    assert!(script.contains("invoke('set_badge_count', { count: totalUnread })"));
    assert!(script.contains("setInterval(updateBadge, 2000);"));
    assert!(script.contains("setTimeout(updateBadge, 5000);"));
    assert!(script.contains("document.addEventListener('contextmenu', event => event.preventDefault());"));
    assert_eq!(script.matches('{').count(), script.matches('}').count());
}

#[test]
fn the_style_sheet_hides_the_unwanted_panels() {
    for name in ["Communities", "Channels", "Meta AI"] {
        assert!(CUSTOM_CSS.contains(&format!("div[title='{}']", name)));
        assert!(CUSTOM_CSS.contains(&format!("span[aria-label='{}']", name)));
    }
    assert!(CUSTOM_CSS.contains("div._aigw {"));
    assert!(CUSTOM_CSS.contains("max-width: 30% !important;"));
}

#[test]
fn the_script_reads_the_count_from_the_title_and_the_badges() {
    let script = main_script(CUSTOM_CSS);
    assert!(script.contains(r"document.title.match(/\((\d+)\)/)"));
    assert!(script.contains(r#"document.querySelectorAll('span[data-icon="unread-count"]')"#));
    assert!(script.contains(
        r#"document.querySelectorAll('div[role="listitem"] span[data-icon="status-unread"]')"#
    ));
    assert!(script.contains(r#"b.closest('div[role="button"]')"#));
    assert!(!script.contains("\\\\"));
}
