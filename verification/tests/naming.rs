use wszl::naming::{extract_url, scenario_name, trigger_description, trigger_expression};

#[test]
fn extracts_url_from_matching_key() {
    assert_eq!(extract_url("vhost.item[/health]"), Some(String::from("/health")));
}

#[test]
fn extracts_empty_capture() {
    assert_eq!(extract_url("vhost.item[]"), Some(String::from("")));
}

#[test]
fn extracts_nested_brackets_verbatim() {
    assert_eq!(extract_url("vhost.item[a[b]]"), Some(String::from("a[b]")));
}

#[test]
fn extracts_up_to_last_bracket() {
    assert_eq!(extract_url("vhost.item[x]y]"), Some(String::from("x]y")));
}

#[test]
fn keeps_whitespace_of_capture() {
    assert_eq!(extract_url("vhost.item[ /a ]"), Some(String::from(" /a ")));
}

#[test]
fn rejects_malformed_key() {
    assert_eq!(extract_url("foo.bar"), None);
}

#[test]
fn rejects_missing_suffix() {
    assert_eq!(extract_url("vhost.item[/health"), None);
}

#[test]
fn rejects_missing_prefix() {
    assert_eq!(extract_url("host.item[/health]"), None);
}

#[test]
fn rejects_empty_key() {
    assert_eq!(extract_url(""), None);
}

#[test]
fn rejects_prefix_alone() {
    assert_eq!(extract_url("vhost.item["), None);
}

#[test]
fn derives_scenario_name() {
    assert_eq!(scenario_name("/health"), "Check index page '/health'");
}

#[test]
fn derives_trigger_description() {
    assert_eq!(trigger_description("/health"), "Site '/health' is unavailable");
}

#[test]
fn derives_trigger_expression() {
    assert_eq!(
        trigger_expression("web01", "/health"),
        "{web01:web.test.fail[Check index page '/health'].last()}<>0"
    );
}
