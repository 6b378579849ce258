use duckypad_daemon::confirm;
use duckypad_daemon::should_switch;
use duckypad_daemon::hid::DeviceIds;
use duckypad_daemon::hid::find_duckypad;
use duckypad_daemon::window::ActiveWindow;
use duckypad_daemon::window::window_context;

#[test]
fn debounce_second_cycle_plans_no_write() {
    // First cycle: no profile applied yet, the rules yield 2, so the
    // controller plans exactly one device write.
    let plan = should_switch(None, Some(2));
    assert_eq!(plan, Some(2));
    // The write succeeds, the belief advances.
    let after = confirm(None, 2, true);
    assert_eq!(after, Some(2));
    // Second cycle over an unchanged context: same candidate, no write.
    assert_eq!(should_switch(after, Some(2)), None);
}

#[test]
fn failed_switch_keeps_belief_and_retries() {
    // The rules yield 9 while 3 is applied, so a switch is planned.
    let mut prev = Some(3);
    for _ in 0..4 {
        // Every attempt fails; the belief must never advance, and each
        // following cycle must plan the very same switch again.
        assert_eq!(should_switch(prev, Some(9)), Some(9));
        prev = confirm(prev, 9, false);
        assert_eq!(prev, Some(3));
    }
}

#[test]
fn no_candidate_plans_no_write() {
    assert_eq!(should_switch(None, None), None);
    assert_eq!(should_switch(Some(5), None), None);
}

#[test]
fn different_candidate_plans_a_write() {
    assert_eq!(should_switch(Some(5), Some(6)), Some(6));
    assert_eq!(should_switch(None, Some(1)), Some(1));
}

#[test]
fn confirmed_switch_advances_belief() {
    assert_eq!(confirm(Some(5), 6, true), Some(6));
    assert_eq!(confirm(None, 1, true), Some(1));
}

#[test]
fn find_duckypad_picks_first_matching_interface() {
    let duckypad = DeviceIds {
        vendor_id: 0x0483,
        product_id: 0xd11c,
        usage_page: 0x0001,
        usage: 0x003a,
    };
    let keyboard = DeviceIds { vendor_id: 0x046d, product_id: 0xc31c, usage_page: 1, usage: 6 };
    let wrong_usage = DeviceIds { vendor_id: 0x0483, product_id: 0xd11c, usage_page: 1, usage: 1 };

    assert_eq!(find_duckypad(&vec![]), None);
    assert_eq!(find_duckypad(&vec![keyboard, wrong_usage]), None);
    assert_eq!(find_duckypad(&vec![keyboard, duckypad]), Some(1));
    assert_eq!(find_duckypad(&vec![duckypad, keyboard, duckypad]), Some(0));
}

#[test]
fn window_context_replaces_missing_fields_with_empty_strings() {
    let full = window_context(ActiveWindow {
        cmd: Some("konsole".to_string()),
        wm_class: Some("org.kde.konsole".to_string()),
        wm_name: Some("Terminal".to_string()),
    });
    assert_eq!(full.title, "Terminal");
    assert_eq!(full.process_name, "org.kde.konsole");
    assert_eq!(full.app_name, "konsole");

    let empty = window_context(ActiveWindow { cmd: None, wm_class: None, wm_name: None });
    assert_eq!(empty.title, "");
    assert_eq!(empty.process_name, "");
    assert_eq!(empty.app_name, "");
}
