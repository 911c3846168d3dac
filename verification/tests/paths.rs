use smaug_publish::path::AbsPath;

fn path(segs: &[&str]) -> AbsPath {
    let mut v: Vec<String> = Vec::new();
    for s in segs {
        v.push(s.to_string());
    }
    AbsPath::new(v)
}

#[test]
fn join_appends_one_component() {
    let p = path(&["tc", "Asteroids"]).join("logs".to_string());
    assert_eq!(p.segs, vec!["tc".to_string(), "Asteroids".to_string(), "logs".to_string()]);
}

#[test]
fn base_name_is_last_component() {
    assert_eq!(path(&["home", "game"]).base_name(), Some("game".to_string()));
    assert_eq!(path(&[]).base_name(), None);
}

#[test]
fn dup_copies_every_component() {
    let p = path(&["a", "b"]);
    let q = p.dup();
    assert_eq!(p.segs, q.segs);
}

#[test]
fn is_under_accepts_prefixes_only() {
    let stage = path(&["tc", "Asteroids"]);
    assert!(path(&["tc", "Asteroids"]).is_under(&stage));
    assert!(path(&["tc", "Asteroids", "builds", "game.zip"]).is_under(&stage));
    assert!(!path(&["tc"]).is_under(&stage));
    assert!(!path(&["tc", "Comets", "builds"]).is_under(&stage));
    assert!(!path(&["p", "Asteroids"]).is_under(&stage));
}

#[test]
fn staging_areas_of_distinct_base_names_never_collide() {
    let install = path(&["tc"]);
    let stage_a = install.join("asteroids".to_string());
    let stage_b = install.join("comets".to_string());
    assert_ne!(stage_a.segs, stage_b.segs);
    assert!(!stage_a.is_under(&stage_b));
    assert!(!stage_b.is_under(&stage_a));
    let inside_a = stage_a.join("builds".to_string()).join("game.zip".to_string());
    assert!(inside_a.is_under(&stage_a));
    assert!(!inside_a.is_under(&stage_b));
}
