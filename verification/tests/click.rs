use catfood_bar::click::{find_click_area, ClickArea, ClickTarget};

#[test]
fn test_click_area_contains() {
    let click_area = ClickArea {
        x: 10,
        y: 5,
        width: 3,
        height: 1,
        target: ClickTarget::Workspace("1".to_string()),
    };

    // Test points inside the click area
    assert!(click_area.contains(10, 5)); // Left edge
    assert!(click_area.contains(11, 5)); // Middle
    assert!(click_area.contains(12, 5)); // Right edge (x < 10 + 3, so 12 is included)

    // Test points outside the click area
    assert!(!click_area.contains(9, 5)); // Left of area
    assert!(!click_area.contains(13, 5)); // Right of area
    assert!(!click_area.contains(10, 4)); // Above area
    assert!(!click_area.contains(10, 6)); // Below area
}

#[test]
fn test_workspace_click_target() {
    let workspace_target = ClickTarget::Workspace("2".to_string());
    match workspace_target {
        ClickTarget::Workspace(id) => assert_eq!(id, "2"),
        ClickTarget::Window(_) => panic!("Expected workspace target"),
    }
}

#[test]
fn test_window_click_target() {
    let window_target = ClickTarget::Window("0x12345678".to_string());
    match window_target {
        ClickTarget::Workspace(_) => panic!("Expected window target"),
        ClickTarget::Window(address) => assert_eq!(address, "0x12345678"),
    }
}

#[test]
fn test_multiple_click_areas() {
    let areas = vec![
        ClickArea {
            x: 0,
            y: 0,
            width: 3,
            height: 1,
            target: ClickTarget::Workspace("1".to_string()),
        },
        ClickArea {
            x: 3,
            y: 0,
            width: 3,
            height: 1,
            target: ClickTarget::Workspace("2".to_string()),
        },
    ];

    // Test clicking first workspace
    let clicked_area = areas.iter().find(|area| area.contains(1, 0));
    assert!(clicked_area.is_some());
    match &clicked_area.unwrap().target {
        ClickTarget::Workspace(id) => assert_eq!(id, "1"),
        _ => panic!("Expected workspace target"),
    }

    // Test clicking second workspace
    let clicked_area = areas.iter().find(|area| area.contains(4, 0));
    assert!(clicked_area.is_some());
    match &clicked_area.unwrap().target {
        ClickTarget::Workspace(id) => assert_eq!(id, "2"),
        _ => panic!("Expected workspace target"),
    }

    // Test clicking between workspaces (no match)
    let clicked_area = areas.iter().find(|area| area.contains(3, 0));
    // This should find the second area since x=3 is included in its range (3 <= x < 6)
    assert!(clicked_area.is_some());
    match &clicked_area.unwrap().target {
        ClickTarget::Workspace(id) => assert_eq!(id, "2"),
        _ => panic!("Expected workspace target"),
    }
}

fn area(x: u16, y: u16, width: u16, height: u16, id: &str) -> ClickArea {
    ClickArea { x, y, width, height, target: ClickTarget::Workspace(id.to_string()) }
}

#[test]
fn contains_is_exact_at_the_edge_of_the_screen() {
    let last = area(65530, 65535, 10, 1, "edge");
    assert!(last.contains(65530, 65535));
    assert!(last.contains(65535, 65535));
    assert!(!last.contains(65529, 65535));
    assert!(!last.contains(0, 65535));
    assert!(!last.contains(4, 0));
    let empty = area(3, 3, 0, 0, "none");
    assert!(!empty.contains(3, 3));
}

#[test]
fn find_click_area_picks_the_unique_region() {
    let areas = vec![area(0, 0, 3, 1, "1"), area(3, 0, 3, 1, "2"), area(0, 1, 6, 1, "3")];
    assert_eq!(find_click_area(&areas, 0, 0), Some(0));
    assert_eq!(find_click_area(&areas, 2, 0), Some(0));
    assert_eq!(find_click_area(&areas, 3, 0), Some(1));
    assert_eq!(find_click_area(&areas, 5, 1), Some(2));
    assert_eq!(find_click_area(&areas, 6, 0), None);
    assert_eq!(find_click_area(&areas, 0, 2), None);
    assert_eq!(find_click_area(&Vec::new(), 0, 0), None);
}

#[test]
fn find_click_area_first_region_wins_on_overlap() {
    let areas = vec![area(0, 0, 4, 1, "under"), area(2, 0, 4, 1, "over")];
    assert_eq!(find_click_area(&areas, 2, 0), Some(0));
    assert_eq!(find_click_area(&areas, 3, 0), Some(0));
    assert_eq!(find_click_area(&areas, 4, 0), Some(1));
    let swapped = vec![area(2, 0, 4, 1, "over"), area(0, 0, 4, 1, "under")];
    assert_eq!(find_click_area(&swapped, 2, 0), Some(0));
    assert_eq!(find_click_area(&swapped, 1, 0), Some(1));
}

#[test]
fn clones_keep_their_content() {
    let a = area(1, 2, 3, 4, "w");
    let b = a.clone();
    assert_eq!((b.x, b.y, b.width, b.height), (1, 2, 3, 4));
    match b.target.clone() {
        ClickTarget::Workspace(id) => assert_eq!(id, "w"),
        ClickTarget::Window(_) => panic!("Expected workspace target"),
    }
}
