use sniprun::error::SniprunError;
use sniprun::interpreter::descriptor;
use sniprun::interpreters::js_ts_deno::JS_TS_deno;
use sniprun::level::SupportLevel;
use sniprun::registry::{BackendDescriptor, Registry};

fn backend(name: &str, filetypes: &[&str], max: SupportLevel, default: bool) -> BackendDescriptor {
    BackendDescriptor {
        name: String::from(name),
        filetypes: filetypes.iter().map(|f| String::from(*f)).collect(),
        max_support_level: max,
        is_default_for_filetype: default,
    }
}

fn names(list: &[&BackendDescriptor]) -> Vec<String> {
    list.iter().map(|d| d.name.clone()).collect()
}

fn table() -> Registry {
    let mut registry = Registry::new();
    assert!(registry.register(backend("A", &["python", "py"], SupportLevel::Line, false)));
    assert!(registry.register(backend("B", &["python"], SupportLevel::Bloc, true)));
    assert!(registry.register(backend("C", &["rust"], SupportLevel::File, true)));
    assert!(registry.register(backend("D", &["python"], SupportLevel::Import, false)));
    assert!(registry.register(backend("E", &["py", "python"], SupportLevel::File, true)));
    assert!(registry.register(descriptor::<JS_TS_deno>()));
    registry
}

#[test]
fn unknown_filetype_has_no_backend() {
    let mut registry = Registry::new();
    assert!(registry.register(descriptor::<JS_TS_deno>()));
    assert_eq!(
        registry.select(&String::from("cobol"), SupportLevel::Bloc),
        Err(SniprunError::NoBackendAvailable(String::from("cobol")))
    );
    assert_eq!(
        Registry::new().select(&String::from("typescript"), SupportLevel::Line),
        Err(SniprunError::NoBackendAvailable(String::from("typescript")))
    );
}

#[test]
fn display_name_is_no_filetype() {
    let registry = table();
    assert_eq!(
        registry.select(&String::from("TS/JS via Deno"), SupportLevel::Line),
        Err(SniprunError::NoBackendAvailable(String::from("TS/JS via Deno")))
    );
}

#[test]
fn deno_serves_its_filetypes_up_to_bloc() {
    let registry = table();
    for filetype in ["typescript", "typescriptreact", "ts", "js", "javascript"] {
        for level in [SupportLevel::Disabled, SupportLevel::Line, SupportLevel::Bloc] {
            let found = registry.select(&String::from(filetype), level).unwrap();
            assert_eq!(names(&found), vec![String::from("JS_TS_deno")]);
        }
        assert_eq!(
            registry.select(&String::from(filetype), SupportLevel::Import),
            Err(SniprunError::NoBackendAvailable(String::from(filetype)))
        );
    }
}

#[test]
fn defaults_rank_first_in_registration_order() {
    let registry = table();
    let python = String::from("python");
    let found = registry.select(&python, SupportLevel::Line).unwrap();
    assert_eq!(names(&found), vec!["B", "E", "A", "D"]);
    let found = registry.select(&python, SupportLevel::Bloc).unwrap();
    assert_eq!(names(&found), vec!["B", "E", "D"]);
    let found = registry.select(&python, SupportLevel::Import).unwrap();
    assert_eq!(names(&found), vec!["E", "D"]);
    let found = registry.select(&python, SupportLevel::File).unwrap();
    assert_eq!(names(&found), vec!["E"]);
    let found = registry.select(&String::from("py"), SupportLevel::Disabled).unwrap();
    assert_eq!(names(&found), vec!["E", "A"]);
    let found = registry.select(&String::from("rust"), SupportLevel::File).unwrap();
    assert_eq!(names(&found), vec!["C"]);
}

#[test]
fn a_name_is_registered_once() {
    let mut registry = table();
    assert_eq!(registry.len(), 6);
    assert!(!registry.register(backend("B", &["lua"], SupportLevel::File, true)));
    assert_eq!(registry.len(), 6);
    assert_eq!(
        registry.select(&String::from("lua"), SupportLevel::Line),
        Err(SniprunError::NoBackendAvailable(String::from("lua")))
    );
    assert_eq!(
        registry.find(&String::from("B")),
        Some(&backend("B", &["python"], SupportLevel::Bloc, true))
    );
    assert_eq!(registry.find(&String::from("b")), None);
    assert!(registry.register(backend("b", &["lua"], SupportLevel::File, true)));
    assert_eq!(registry.len(), 7);
}

#[test]
fn descriptor_knows_what_it_claims() {
    let d = backend("A", &["python", "py"], SupportLevel::Bloc, false);
    assert!(d.claims(&String::from("py")));
    assert!(d.claims(&String::from("python")));
    assert!(!d.claims(&String::from("pyt")));
    assert!(!d.claims(&String::from("")));
    assert!(d.eligible(&String::from("py"), SupportLevel::Bloc));
    assert!(d.eligible(&String::from("py"), SupportLevel::Disabled));
    assert!(!d.eligible(&String::from("py"), SupportLevel::Import));
    assert!(!d.eligible(&String::from("rust"), SupportLevel::Line));
}
