use typst_engine::world::{EngineDate, EngineWorld, FileKey};

fn main_key() -> FileKey {
    FileKey { package: None, path: String::from("main.typ") }
}

#[test]
fn source_returns_main_text_for_main_key() {
    let w = EngineWorld::new(String::from("= Hello"));
    let got = w.source(&main_key());
    assert_eq!(got.ok().as_deref(), Some("= Hello"));
}

#[test]
fn source_rejects_any_other_key() {
    let w = EngineWorld::new(String::from("= Hello"));
    let got = w.source(&FileKey { package: None, path: String::from("other.typ") });
    assert_eq!(got.err().map(|e| e.path), Some(String::from("other.typ")));
}

#[test]
fn source_rejects_same_path_in_a_package() {
    let w = EngineWorld::new(String::from("= Hello"));
    let key = FileKey { package: Some(String::from("@preview/x:1.0.0")), path: String::from("main.typ") };
    let got = w.source(&key);
    assert_eq!(got.err().map(|e| e.path), Some(String::from("main.typ")));
}

#[test]
fn file_lookup_always_not_found() {
    let w = EngineWorld::new(String::from("= Hello"));
    for path in ["main.typ", "logo.png", "", "a/b/c.json"] {
        let got = w.file(&FileKey { package: None, path: String::from(path) });
        assert_eq!(got.err().map(|e| e.path), Some(String::from(path)));
    }
}

#[test]
fn today_is_the_fixed_date_for_every_offset() {
    let w = EngineWorld::new(String::new());
    let expected = EngineDate { year: 2025, month: 1, day: 1 };
    assert_eq!(w.today(None), Some(expected));
    assert_eq!(w.today(Some(0)), Some(expected));
    assert_eq!(w.today(Some(-11)), Some(expected));
    assert_eq!(w.today(Some(14)), Some(expected));
}

#[test]
fn same_key_compares_namespace_and_path() {
    let a = main_key();
    assert!(a.same_key(&main_key()));
    assert!(!a.same_key(&FileKey { package: None, path: String::from("main.tyq") }));
    assert!(!a.same_key(&FileKey { package: Some(String::from("p")), path: String::from("main.typ") }));
    let b = FileKey { package: Some(String::from("p")), path: String::from("x") };
    let c = FileKey { package: Some(String::from("p")), path: String::from("x") };
    assert!(b.same_key(&c));
    assert!(!b.same_key(&FileKey { package: Some(String::from("q")), path: String::from("x") }));
}
