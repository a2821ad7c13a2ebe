use schminput::subaction_paths::{
    RequestedSubactionPaths, SubactionPath, SubactionPathMap, SubactionPaths,
};

#[test]
fn registered_paths_are_found_again() {
    let mut paths = SubactionPaths::new();
    assert_eq!(paths.get("/keyboard"), None);
    paths.register_new_path("/keyboard", SubactionPath(10));
    paths.register_new_path("/gamepad/*", SubactionPath(11));
    assert_eq!(paths.get("/keyboard"), Some(SubactionPath(10)));
    assert_eq!(paths.get("/gamepad/*"), Some(SubactionPath(11)));
    assert_eq!(paths.get("/gamepad"), None);
    assert_eq!(paths.take_new_paths(), vec![SubactionPath(10), SubactionPath(11)]);
    assert_eq!(paths.take_new_paths(), Vec::<SubactionPath>::new());
    assert_eq!(paths.get("/keyboard"), Some(SubactionPath(10)));
    paths.register_new_path("/mouse", SubactionPath(12));
    assert_eq!(paths.take_new_paths(), vec![SubactionPath(12)]);
    let empty = SubactionPaths::default();
    assert_eq!(empty.get("/keyboard"), None);
}

#[test]
fn requested_paths_keep_order() {
    let mut r = RequestedSubactionPaths::new();
    r.push(SubactionPath(2));
    r.push(SubactionPath(1));
    assert_eq!(r.0, vec![SubactionPath(2), SubactionPath(1)]);
    assert!(RequestedSubactionPaths::default().0.is_empty());
}

#[test]
fn path_map_get_and_set() {
    let mut m: SubactionPathMap<u32> = SubactionPathMap::new();
    assert_eq!(m.any, 0);
    let p = SubactionPath(1);
    assert_eq!(m.get_with_path(&p), None);
    assert_eq!(m.get_with_path_or_default(&p), 0);
    assert_eq!(m.get_or_default(None), 0);
    m.set_value_for_path(p, 5);
    assert_eq!(m.get_with_path(&p), Some(&5));
    assert_eq!(m.get_with_path_or_default(&p), 5);
    assert_eq!(m.get_or_default(Some(p)), 5);
    assert_eq!(m.get_or_default(Some(SubactionPath(2))), 0);
    m.set_value_for_path(p, 6);
    assert_eq!(m.get_with_path(&p), Some(&6));
    *m.entry_with_path(SubactionPath(2)).or_insert(1) += 2;
    assert_eq!(m.get_with_path(&SubactionPath(2)), Some(&3));
    assert_eq!(m.any, 0);
}

#[test]
fn get_or_create_path_creates_once() {
    let mut paths = SubactionPaths::new();
    let mut next: u64 = 40;
    let mut created: Vec<String> = Vec::new();
    let a = paths.get_or_create_path("/keyboard", |p: &str| {
        created.push(p.to_string());
        next += 1;
        SubactionPath(next)
    });
    assert_eq!(a, SubactionPath(41));
    let b = paths.get_or_create_path("/keyboard", |_p: &str| SubactionPath(99));
    assert_eq!(b, SubactionPath(41));
    let c = paths.get_or_create_path("/mouse", |_p: &str| SubactionPath(7));
    assert_eq!(c, SubactionPath(7));
    assert_eq!(created, vec!["/keyboard".to_string()]);
    assert_eq!(paths.get("/mouse"), Some(SubactionPath(7)));
    assert_eq!(paths.take_new_paths(), vec![SubactionPath(41), SubactionPath(7)]);
}

#[test]
fn requested_paths_created_on_demand() {
    let mut paths = SubactionPaths::new();
    paths.register_new_path("/gamepad/*", SubactionPath(3));
    let r = RequestedSubactionPaths::new()
        .with_path("/gamepad/*", &mut paths, |_p: &str| SubactionPath(50))
        .with_path("/keyboard", &mut paths, |_p: &str| SubactionPath(51));
    assert_eq!(r.0, vec![SubactionPath(3), SubactionPath(51)]);
    let mut r2 = RequestedSubactionPaths::new();
    r2.push_path("/keyboard", &mut paths, |_p: &str| SubactionPath(60));
    assert_eq!(r2.0, vec![SubactionPath(51)]);
    assert_eq!(paths.take_new_paths(), vec![SubactionPath(3), SubactionPath(51)]);
}

#[test]
fn many_paths_are_requested_in_order() {
    let mut paths = SubactionPaths::new();
    paths.register_new_path("/keyboard", SubactionPath(5));
    let next = std::cell::Cell::new(20u64);
    let mut r = RequestedSubactionPaths::new();
    r.push(SubactionPath(1));
    r.push_paths(
        &vec!["/gamepad/*".to_string(), "/keyboard".to_string(), "/gamepad/*".to_string()],
        &mut paths,
        |_p: &str| {
            let id = next.get();
            next.set(id + 1);
            SubactionPath(id)
        },
    );
    assert_eq!(r.0, vec![SubactionPath(1), SubactionPath(20), SubactionPath(5), SubactionPath(20)]);
    assert_eq!(paths.get("/gamepad/*"), Some(SubactionPath(20)));
    assert_eq!(paths.take_new_paths(), vec![SubactionPath(5), SubactionPath(20)]);
}
