use nas_game::fetch::{download_file_name, image_exists, missing_images, FetchQueue, MAX_IN_FLIGHT};

fn strings(v: &[&str]) -> Vec<String> {
    v.iter().map(|s| s.to_string()).collect()
}

#[test]
fn image_exists_under_each_extension() {
    for ext in ["webp", "jpg", "jpeg", "png"] {
        let files = strings(&[&format!("celeste.{}", ext)]);
        assert!(image_exists(&files, "celeste"));
    }
}

#[test]
fn image_exists_rejects_other_files() {
    let files = strings(&["celeste.gif", "celeste", "celestewebp", "hollow-knight.png", "xceleste.png"]);
    assert!(!image_exists(&files, "celeste"));
    assert!(!image_exists(&Vec::new(), "celeste"));
}

#[test]
fn only_missing_names_are_fetched() {
    let files = strings(&["celeste.webp"]);
    let names = strings(&["celeste", "hollow-knight"]);
    assert_eq!(missing_images(&names, &files), strings(&["hollow-knight"]));
}

#[test]
fn missing_keeps_input_order() {
    let files = strings(&["b.png"]);
    let names = strings(&["c", "b", "a"]);
    assert_eq!(missing_images(&names, &files), strings(&["c", "a"]));
}

#[test]
fn download_name_takes_the_url_extension() {
    let n = download_file_name("celeste", "https://cdn.example.com/grid/abc.def.png");
    assert_eq!(n.as_deref(), Some("celeste.png"));
    let j = download_file_name("hollow-knight", "https://cdn.example.com/a/b.jpg");
    assert_eq!(j.as_deref(), Some("hollow-knight.jpg"));
}

#[test]
fn download_name_needs_an_extension() {
    assert_eq!(download_file_name("x", "https://cdn.example.com/grid/abc"), None);
    assert_eq!(download_file_name("x", "https://cdn.example.com/grid/.png"), None);
    assert_eq!(download_file_name("x", "https://cdn.example.com.png/"), None);
}

#[test]
fn never_more_than_five_in_flight() {
    let names: Vec<String> = (0..12).map(|i| format!("game{}", i)).collect();
    let mut q = FetchQueue::new(names.clone());
    let mut order = Vec::new();
    let mut peak = 0;
    let mut running: Vec<String> = Vec::new();
    loop {
        while let Some(n) = q.start_next() {
            running.push(n.clone());
            order.push(n);
        }
        peak = peak.max(q.in_flight_count());
        assert_eq!(running.len(), q.in_flight_count());
        if running.is_empty() {
            break;
        }
        let done = running.remove(0);
        let failure = if done.ends_with('3') { Some("no results".to_string()) } else { None };
        q.finish(done, failure);
    }
    assert_eq!(MAX_IN_FLIGHT, 5);
    assert_eq!(peak, 5);
    assert!(q.is_done());
    assert_eq!(order, names);
    assert_eq!(q.fetched_names().len(), 11);
    assert_eq!(q.failures().len(), 1);
    assert_eq!(q.failures()[0].0, "game3");
}

#[test]
fn empty_queue_is_done() {
    let mut q = FetchQueue::new(Vec::new());
    assert_eq!(q.start_next(), None);
    assert!(q.is_done());
}
