use mew::discovery::{choose_host_layer, find_icon_view, HostChoice, WorkerLayer};

fn worker(handle: usize, icon_view: Option<usize>, width: i32, height: i32) -> WorkerLayer {
    WorkerLayer {
        handle,
        icon_view,
        width,
        height,
    }
}

#[test]
fn prefers_the_first_screen_sized_worker_without_icons() {
    let workers = vec![
        worker(10, Some(99), 1920, 1080), // hosts the icons: skipped
        worker(11, None, 400, 300),       // too small: skipped
        worker(12, None, 1915, 1075),     // screen-sized within tolerance
        worker(13, None, 1920, 1080),     // also qualifies, but comes later
    ];
    let choice = choose_host_layer(None, &workers, 1920, 1080);
    assert_eq!(choice, HostChoice::WorkerWindow { handle: 12 });
}

#[test]
fn tolerance_is_ten_pixels() {
    let at_limit = vec![worker(1, None, 1910, 1070)];
    assert_eq!(
        choose_host_layer(None, &at_limit, 1920, 1080),
        HostChoice::WorkerWindow { handle: 1 }
    );
    let past_limit = vec![worker(1, None, 1909, 1080)];
    assert_ne!(
        choose_host_layer(None, &past_limit, 1920, 1080),
        HostChoice::WorkerWindow { handle: 1 }
    );
}

#[test]
fn falls_back_to_the_worker_hosted_icon_view() {
    // No split worker layer: parent directly onto the icon view.
    let workers = vec![worker(20, Some(77), 1920, 1080), worker(21, None, 100, 100)];
    let choice = choose_host_layer(None, &workers, 1920, 1080);
    assert_eq!(choice, HostChoice::IconView { handle: 77 });
}

#[test]
fn falls_back_to_the_root_hosted_icon_view() {
    let workers = vec![worker(30, None, 100, 100)];
    let choice = choose_host_layer(Some(55), &workers, 1920, 1080);
    assert_eq!(choice, HostChoice::IconView { handle: 55 });
}

#[test]
fn falls_back_to_the_desktop_root_when_nothing_is_found() {
    let workers = vec![worker(40, None, 100, 100)];
    assert_eq!(
        choose_host_layer(None, &workers, 1920, 1080),
        HostChoice::DesktopRoot
    );
    assert_eq!(
        choose_host_layer(None, &Vec::new(), 1920, 1080),
        HostChoice::DesktopRoot
    );
}

#[test]
fn root_icon_view_wins_over_worker_hosted_ones() {
    let workers = vec![worker(50, Some(88), 100, 100)];
    assert_eq!(find_icon_view(Some(44), &workers), Some(44));
    assert_eq!(find_icon_view(None, &workers), Some(88));
    assert_eq!(find_icon_view(None, &Vec::new()), None);
}

#[test]
fn a_dedicated_layer_beats_every_fallback() {
    let workers = vec![worker(60, Some(66), 1920, 1080), worker(61, None, 1920, 1080)];
    let choice = choose_host_layer(Some(44), &workers, 1920, 1080);
    assert_eq!(choice, HostChoice::WorkerWindow { handle: 61 });
}
