//! Tests of the event types.

use workout_core::events::Tab;

#[test]
fn test_tab_default() {
    let tab = Tab::default();
    assert_eq!(tab, Tab::Workout);
}
