use liveserve::inject_live_reload;
use liveserve::live_reload_script;

#[test]
fn script_lands_before_the_closing_body_tag() {
    let out = inject_live_reload("<body>Hi</body>");
    let expected = format!("<body>Hi{}</body>", live_reload_script());
    assert_eq!(out, expected);
}

#[test]
fn script_is_appended_when_no_closing_body_tag_exists() {
    let out = inject_live_reload("plain fragment");
    let expected = format!("plain fragment{}", live_reload_script());
    assert_eq!(out, expected);
}

#[test]
fn empty_document_gets_only_the_script() {
    assert_eq!(inject_live_reload(""), live_reload_script());
}

#[test]
fn first_closing_tag_wins_when_there_are_two() {
    let out = inject_live_reload("<body>a</body><body>b</body>");
    let expected = format!("<body>a{}</body><body>b</body>", live_reload_script());
    assert_eq!(out, expected);
}

#[test]
fn rest_of_document_is_byte_identical() {
    let doc = "<html><head><title>x</title></head><body>content</body></html>";
    let out = inject_live_reload(doc);
    let script = live_reload_script();
    let pos = doc.find("</body>").unwrap();
    assert_eq!(&out[..pos], &doc[..pos]);
    assert_eq!(&out[pos..pos + script.len()], script);
    assert_eq!(&out[pos + script.len()..], &doc[pos..]);
}
