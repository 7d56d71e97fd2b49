use cpu_monitor::assets::Route;

#[test]
fn style_sheet_declares_text_css() {
    assert_eq!(Route::Style.path(), "/index.css");
    assert_eq!(Route::Style.content_type(), Some("text/css"));
}

#[test]
fn script_declares_application_javascript() {
    assert_eq!(Route::Script.path(), "/index.mjs");
    assert_eq!(Route::Script.content_type(), Some("application/javascript"));
}

#[test]
fn remaining_routes() {
    assert_eq!(Route::Root.path(), "/");
    assert_eq!(Route::Root.content_type(), None);
    assert_eq!(Route::Icon.path(), "/favicon.ico");
    assert_eq!(Route::Icon.content_type(), None);
    assert_eq!(Route::Events.path(), "/events");
    assert_eq!(Route::Events.content_type(), None);
}

#[test]
fn icon_declares_neither_the_script_nor_the_style_type() {
    let declared = Route::Icon.content_type();
    assert_ne!(declared, Route::Script.content_type());
    assert_ne!(declared, Route::Style.content_type());
    assert_ne!(declared, Some("application/javascript"));
    assert_ne!(declared, Some("application/javascript;charset=utf-8"));
    assert_ne!(declared, Some("text/css"));
}

#[test]
fn only_script_and_style_declare_a_type() {
    let routes = [Route::Root, Route::Script, Route::Style, Route::Icon, Route::Events];
    let declaring: Vec<Route> =
        routes.iter().copied().filter(|r| r.content_type().is_some()).collect();
    assert_eq!(declaring, vec![Route::Script, Route::Style]);
}
