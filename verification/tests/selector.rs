use pax_britannica::scripts::selector::joins;

#[test]
fn a_prompt_joins_on_the_first_held_frame_only() {
    assert!(joins(false, true));
    assert!(!joins(false, false));
    assert!(!joins(true, true), "a picked prompt never joins again");
    assert!(!joins(true, false));
}
