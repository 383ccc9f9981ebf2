use gpu_gallery::gallery::{AppType, MainApp, Registry};

#[test]
fn registry_lists_every_demo() {
    let reg = Registry::new();
    assert_eq!(reg.len(), 27);
    assert_eq!(reg.name_of(0), "helloTriangle");
    assert_eq!(reg.name_of(2), "rotatingCube");
    assert_eq!(reg.name_of(26), "animometer(WIP)");
}

#[test]
fn find_returns_the_clicked_entry() {
    let reg = Registry::new();
    assert_eq!(reg.find("helloTriangle"), Some(0));
    assert_eq!(reg.find("rotatingCube"), Some(2));
    assert_eq!(reg.find("twoCubes"), Some(3));
    assert_eq!(reg.find("texturedCube"), Some(4));
    assert_eq!(reg.find("cubemap(WIP)"), Some(7));
    assert_eq!(reg.find("animometer(WIP)"), Some(26));
}

#[test]
fn find_rejects_unknown_names() {
    let reg = Registry::new();
    assert_eq!(reg.find("fancyDemo"), None);
    assert_eq!(reg.find(""), None);
    // Names match whole, not by prefix.
    assert_eq!(reg.find("rotating"), None);
    assert_eq!(reg.find("cubemap"), None);
}

#[test]
fn availability_marks_work_in_progress() {
    let reg = Registry::new();
    assert!(reg.is_available(0));
    assert!(!reg.is_available(1));
    assert!(reg.is_available(2));
    assert!(reg.is_available(3));
    assert!(reg.is_available(4));
    assert!(!reg.is_available(5));
    assert!(!reg.is_available(7));
    assert!(!reg.is_available(26));
}

#[test]
fn categories_partition_the_sidebar() {
    let reg = Registry::new();
    let basic = reg.entries_in_category(AppType::BasicGraphics);
    assert_eq!(basic, vec![0, 1, 2, 3, 4, 5, 6, 7]);
    let features = reg.entries_in_category(AppType::WebGPUFeatures);
    assert_eq!(features, vec![8, 9, 10]);
    let gpgpu = reg.entries_in_category(AppType::GPGPUDemos);
    assert_eq!(gpgpu, vec![11, 12, 13]);
    let techniques = reg.entries_in_category(AppType::GraphicsTechniques);
    assert_eq!(techniques, (14..26).collect::<Vec<usize>>());
    let benchmarks = reg.entries_in_category(AppType::Benchmarks);
    assert_eq!(benchmarks, vec![26]);
    let total = basic.len() + features.len() + gpgpu.len() + techniques.len() + benchmarks.len();
    assert_eq!(total, reg.len());
}

#[test]
fn category_labels() {
    assert_eq!(AppType::BasicGraphics.label(), "Basic Graphics");
    assert_eq!(AppType::WebGPUFeatures.label(), "WebGPU Features");
    assert_eq!(AppType::GPGPUDemos.label(), "GPGPU Demos");
    assert_eq!(AppType::GraphicsTechniques.label(), "Graphics Techniques");
    assert_eq!(AppType::Benchmarks.label(), "Benchmarks");
}

#[test]
fn switching_replaces_the_active_demo() {
    let mut g = MainApp::new();
    assert!(g.current_app.is_none());
    g.switch_app(2, true);
    let first = g.current_app.expect("demo installed");
    assert_eq!(first.entry, 2);
    g.switch_app(4, true);
    let second = g.current_app.expect("demo installed");
    assert_eq!(second.entry, 4);
    // No residue of the first selection: the handles differ.
    assert_ne!(first, second);
    assert_ne!(first.resources, second.resources);
}

#[test]
fn reselecting_a_demo_rebuilds_its_resources() {
    let mut g = MainApp::new();
    g.switch_app(2, true);
    let first = g.current_app.expect("demo installed");
    g.switch_app(2, true);
    let second = g.current_app.expect("demo installed");
    assert_eq!(first.entry, second.entry);
    // Same entry, fresh resources: the old set is gone.
    assert_ne!(first.resources, second.resources);
}

#[test]
fn failed_construction_leaves_no_active_demo() {
    let mut g = MainApp::new();
    g.switch_app(2, true);
    assert!(g.current_app.is_some());
    // A work-in-progress entry constructs nothing.
    g.switch_app(5, false);
    assert!(g.current_app.is_none());
}
