use lau_jepa_gravity::cluster::add_room_once;

#[test]
fn add_room_once_ignores_duplicate() {
    let mut rooms: Vec<String> = Vec::new();
    add_room_once(&mut rooms, "r1");
    add_room_once(&mut rooms, "r1"); // duplicate
    assert_eq!(rooms.len(), 1);
}

#[test]
fn add_room_once_keeps_order() {
    let mut rooms: Vec<String> = Vec::new();
    add_room_once(&mut rooms, "b");
    add_room_once(&mut rooms, "a");
    add_room_once(&mut rooms, "b");
    add_room_once(&mut rooms, "c");
    assert_eq!(rooms, vec!["b".to_string(), "a".to_string(), "c".to_string()]);
}
