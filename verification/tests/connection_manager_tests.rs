use rust_powered_lego::connection_manager::ConnectionManager;

const HUB: [u8; 6] = [0x90, 0x84, 0x2b, 0x4e, 0x5b, 0x96];
const OTHER: [u8; 6] = [0x90, 0x84, 0x2b, 0x56, 0x8e, 0x77];

#[test]
fn peripheral_is_found_by_address() {
    let cm = ConnectionManager::new();
    assert!(cm.is_wanted(&String::from("Technic Hub"), &HUB, &None, &Some(HUB)));
    assert!(!cm.is_wanted(&String::from("Technic Hub"), &OTHER, &None, &Some(HUB)));
    let mut near = HUB;
    near[5] = 0x97;
    assert!(!cm.is_wanted(&String::from("Technic Hub"), &near, &None, &Some(HUB)));
}

#[test]
fn peripheral_is_found_by_name() {
    let cm = ConnectionManager::new();
    let wanted = Some(String::from("Technic Hub"));
    assert!(cm.is_wanted(&String::from("Technic Hub"), &OTHER, &wanted, &None));
    assert!(!cm.is_wanted(&String::from("Technic Hub 2"), &OTHER, &wanted, &None));
    assert!(!cm.is_wanted(&String::from(""), &OTHER, &wanted, &None));
}

#[test]
fn peripheral_is_found_by_name_or_address() {
    let cm = ConnectionManager::new();
    let wanted = Some(String::from("Technic Hub"));
    assert!(cm.is_wanted(&String::from("Technic Hub"), &OTHER, &wanted, &Some(HUB)));
    assert!(cm.is_wanted(&String::from("Another"), &HUB, &wanted, &Some(HUB)));
    assert!(!cm.is_wanted(&String::from("Another"), &OTHER, &wanted, &Some(HUB)));
}

#[test]
fn nothing_given_looks_for_empty_name_and_zero_address() {
    let cm = ConnectionManager::new();
    assert!(!cm.is_wanted(&String::from("Technic Hub"), &HUB, &None, &None));
    assert!(cm.is_wanted(&String::from(""), &HUB, &None, &None));
    assert!(cm.is_wanted(&String::from("Technic Hub"), &[0; 6], &None, &None));
    assert!(cm.is_wanted(&String::from(""), &OTHER, &None, &Some(HUB)));
}
