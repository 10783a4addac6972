use t2screenshot::windows::{select_windows, sort_by_area, WindowInfo, WindowProbe};

fn probe(title: Option<&str>, width: Option<u32>, height: Option<u32>) -> WindowProbe {
    WindowProbe {
        title: title.map(|t| t.to_string()),
        app_name: Some("App".to_string()),
        x: Some(10),
        y: Some(-20),
        width,
        height,
    }
}

fn info(title: &str, width: u32, height: u32) -> WindowInfo {
    WindowInfo { x: 0, y: 0, width, height, title: title.to_string(), app_name: String::new() }
}

#[test]
fn listing_skips_unusable_windows() {
    let probes = vec![
        probe(None, Some(800), Some(600)),
        probe(Some(""), Some(800), Some(600)),
        probe(Some("tiny"), Some(49), Some(600)),
        probe(Some("short"), Some(800), Some(49)),
        probe(Some("T2Screenshot Overlay"), Some(800), Some(600)),
        probe(Some("no size"), None, Some(600)),
        probe(Some("Editor"), Some(50), Some(50)),
        probe(Some("Browser"), Some(1280), Some(720)),
    ];
    let listed = select_windows(&probes);
    let titles: Vec<&str> = listed.iter().map(|w| w.title.as_str()).collect();
    assert_eq!(titles, vec!["Editor", "Browser"]);
    assert_eq!((listed[0].x, listed[0].y, listed[0].width, listed[0].height), (10, -20, 50, 50));
    assert_eq!(listed[1].app_name, "App");
}

#[test]
fn unreadable_properties_take_defaults() {
    let probes = vec![WindowProbe {
        title: Some("Terminal".to_string()),
        app_name: None,
        x: None,
        y: None,
        width: Some(300),
        height: Some(200),
    }];
    let listed = select_windows(&probes);
    assert_eq!(listed.len(), 1);
    assert_eq!((listed[0].x, listed[0].y), (0, 0));
    assert_eq!(listed[0].app_name, "");
}

#[test]
fn smaller_windows_come_first() {
    let sorted = sort_by_area(vec![info("big", 100, 100), info("small", 10, 10), info("mid", 50, 20)]);
    let titles: Vec<&str> = sorted.iter().map(|w| w.title.as_str()).collect();
    assert_eq!(titles, vec!["small", "mid", "big"]);
}

#[test]
fn equal_areas_keep_their_order() {
    let sorted = sort_by_area(vec![
        info("a", 20, 10),
        info("b", 5, 5),
        info("c", 10, 20),
        info("d", 200, 1),
        info("e", 25, 1),
    ]);
    let titles: Vec<&str> = sorted.iter().map(|w| w.title.as_str()).collect();
    assert_eq!(titles, vec!["b", "e", "a", "c", "d"]);
    assert!(sort_by_area(Vec::new()).is_empty());
}
