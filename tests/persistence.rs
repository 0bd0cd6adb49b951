use wryte::{finish_load, finish_save, greet, resolve_default_path, saved_confirmation};

#[test]
fn default_path_falls_back_to_current_directory() {
    assert_eq!(resolve_default_path(None), "./wryte_document.html");
}

#[test]
fn default_path_under_home() {
    assert_eq!(
        resolve_default_path(Some("/home/ann")),
        "/home/ann/wryte_document.html"
    );
}

#[test]
fn default_path_with_empty_home() {
    assert_eq!(resolve_default_path(Some("")), "/wryte_document.html");
}

#[test]
fn default_save_and_load_use_the_same_path() {
    let at_save = resolve_default_path(Some("/home/ann"));
    let at_load = resolve_default_path(Some("/home/ann"));
    assert_eq!(at_save, at_load);
    assert_eq!(resolve_default_path(None), resolve_default_path(None));
}

#[test]
fn greeting_names_the_caller() {
    assert_eq!(greet("Ann"), "Hello, Ann! You've been greeted from Rust!");
}

#[test]
fn confirmation_names_the_path() {
    let c = saved_confirmation("/tmp/doc.html");
    assert_eq!(c, "Document saved to: /tmp/doc.html");
    assert!(c.ends_with("/tmp/doc.html"));
}

#[test]
fn html_document_scenario() {
    let content = String::from("<html><body>hi</body></html>");
    let saved = finish_save("/tmp/doc.html", Ok(()));
    assert_eq!(saved, Ok(String::from("Document saved to: /tmp/doc.html")));
    assert!(saved.unwrap().contains("/tmp/doc.html"));
    let loaded = finish_load(Ok(content.clone()));
    assert_eq!(loaded, Ok(content));
}

#[test]
fn failed_write_is_a_save_error() {
    let r = finish_save(
        "/no/such/dir/doc.html",
        Err(String::from("No such file or directory (os error 2)")),
    );
    assert_eq!(
        r,
        Err(String::from(
            "Failed to save file: No such file or directory (os error 2)"
        ))
    );
}

#[test]
fn failed_read_is_a_load_error_not_empty_content() {
    let r = finish_load(Err(String::from("No such file or directory (os error 2)")));
    assert_eq!(
        r,
        Err(String::from(
            "Failed to load file: No such file or directory (os error 2)"
        ))
    );
}

#[test]
fn empty_document_loads_as_empty() {
    assert_eq!(finish_load(Ok(String::new())), Ok(String::new()));
}
