use pax_britannica::log::ShipClass;

#[test]
fn bullets_map_to_the_class_that_fired_them() {
    assert_eq!(ShipClass::of_bullet("laser"), Some(ShipClass::Fighter));
    assert_eq!(ShipClass::of_bullet("bomb"), Some(ShipClass::Bomber));
    assert_eq!(ShipClass::of_bullet("missile"), Some(ShipClass::Frigate));
    assert_eq!(ShipClass::of_bullet("bubble"), None);
}

#[test]
fn ships_map_to_their_class_and_factories_to_none() {
    assert_eq!(ShipClass::of_ship("fighter"), Some(ShipClass::Fighter));
    assert_eq!(ShipClass::of_ship("bomber"), Some(ShipClass::Bomber));
    assert_eq!(ShipClass::of_ship("frigate"), Some(ShipClass::Frigate));
    assert_eq!(ShipClass::of_ship("factory"), None);
    assert_eq!(ShipClass::of_ship("laser"), None);
}

#[test]
fn classes_print_in_capitals() {
    assert_eq!(ShipClass::Fighter.name(), "FIGHTER");
    assert_eq!(ShipClass::Bomber.name(), "BOMBER");
    assert_eq!(ShipClass::Frigate.name(), "FRIGATE");
}

#[test]
fn the_classes_are_listed_fighter_bomber_frigate() {
    assert_eq!(ShipClass::ALL, [ShipClass::Fighter, ShipClass::Bomber, ShipClass::Frigate]);
}
