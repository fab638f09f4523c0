use qapp_meta::record::build_record;
use qapp_meta::record::App;
use qapp_meta::record::FieldError;
use qapp_meta::repo::validate_repo;
use qapp_meta::text::join;
use qapp_meta::text::split_on;
use qapp_meta::text::trim_line;

fn sample_app() -> App {
    App {
        name: String::from("appname"),
        repo: String::from("https://link-to-repo/repo.git"),
        version: String::from("0.1.0"),
        authors: vec![String::from("Alice"), String::from("Bob")],
        description: String::from("A simple app"),
        icon: String::from("icon.svg"),
        other_metadata: vec![String::from("a"), String::from("b"), String::from("c")],
    }
}

#[test]
fn construct_renders_the_exact_template() {
    let expected = "[app]\n\
                    name = \"appname\"\n\
                    repo = \"https://link-to-repo/repo.git\"\n\
                    version = \"0.1.0\"\n\
                    author = [\"Alice, Bob\"]\n\
                    description = \"A simple app\"\n\
                    icon = \"icon.svg\"\n\
                    other_metadata = \"[a,b,c]\"\n";
    assert_eq!(sample_app().construct(), expected);
}

#[test]
fn authors_render_as_one_quoted_entry() {
    let app = build_record(
        "appname",
        "https://example.net",
        "0.1.0",
        "Alice, Bob",
        "d",
        "icon.svg",
        "m",
    )
    .unwrap();
    let rendered = app.construct();
    assert!(rendered.contains("author = [\"Alice, Bob\"]"));
    assert!(!rendered.contains("author = [\"Alice\", \"Bob\"]"));
}

#[test]
fn other_metadata_renders_bracketed_and_untrimmed() {
    let app = build_record(
        "n",
        "https://example.net",
        "0.1.0",
        "a",
        "d",
        "i",
        "a,b,c",
    )
    .unwrap();
    assert!(app.construct().contains("other_metadata = \"[a,b,c]\""));
    let app2 = build_record(
        "n",
        "https://example.net",
        "0.1.0",
        "a",
        "d",
        "i",
        "a, b ,c",
    )
    .unwrap();
    assert!(app2.construct().contains("other_metadata = \"[a, b ,c]\""));
}

#[test]
fn valid_url_is_accepted_and_rendered_normalized() {
    let normalized = validate_repo("https://example.net").unwrap();
    assert_eq!(normalized, "https://example.net/");
    let app = build_record("n", "https://example.net", "0.1.0", "a", "d", "i", "m").unwrap();
    assert_eq!(app.repo, "https://example.net/");
    assert!(app.construct().contains("repo = \"https://example.net/\"\n"));
}

#[test]
fn url_normalization_lowercases_scheme_and_host() {
    assert_eq!(
        validate_repo("HTTPS://EXAMPLE.NET/Path").unwrap(),
        "https://example.net/Path"
    );
}

#[test]
fn malformed_url_is_rejected() {
    assert_eq!(validate_repo("not a url"), None);
    assert_eq!(validate_repo(""), None);
    assert_eq!(validate_repo("/relative/path"), None);
}

#[test]
fn build_record_reports_bad_url() {
    let r = build_record("n", "no scheme", "0.1.0", "a", "d", "i", "m");
    assert_eq!(r.unwrap_err(), FieldError::BadUrl);
}

#[test]
fn build_record_reports_bad_version() {
    let r = build_record("n", "https://example.net", "0.1", "a", "d", "i", "m");
    assert_eq!(r.unwrap_err(), FieldError::BadVersion);
    let r2 = build_record("n", "https://example.net", "x.y.z", "a", "d", "i", "m");
    assert_eq!(r2.unwrap_err(), FieldError::BadVersion);
}

#[test]
fn build_record_url_error_comes_before_version_error() {
    let r = build_record("n", "no scheme", "bad", "a", "d", "i", "m");
    assert_eq!(r.unwrap_err(), FieldError::BadUrl);
}

#[test]
fn build_record_trims_every_line() {
    let app = build_record(
        " appname \n",
        " https://example.net \n",
        " 0.1.0 \n",
        " Alice , Bob \n",
        " desc \n",
        " icon.svg \n",
        " a,b \n",
    )
    .unwrap();
    assert_eq!(app.name, "appname");
    assert_eq!(app.version, "0.1.0");
    assert_eq!(app.authors, vec!["Alice", "Bob"]);
    assert_eq!(app.description, "desc");
    assert_eq!(app.icon, "icon.svg");
    assert_eq!(app.other_metadata, vec!["a", "b"]);
}

#[test]
fn split_preserves_empty_segments() {
    assert_eq!(split_on("a,,b", ','), vec!["a", "", "b"]);
    assert_eq!(split_on("", ','), vec![""]);
    assert_eq!(split_on(",", ','), vec!["", ""]);
    assert_eq!(split_on("a,b,c", ','), vec!["a", "b", "c"]);
}

#[test]
fn trim_removes_surrounding_whitespace_only() {
    assert_eq!(trim_line("  hi there\t\r\n"), "hi there");
    assert_eq!(trim_line("   \n"), "");
    assert_eq!(trim_line("x"), "x");
    assert_eq!(trim_line("\u{00A0}x\u{3000}"), "x");
}

#[test]
fn join_places_separator_between_parts() {
    let parts = vec![String::from("a"), String::from("b"), String::from("c")];
    assert_eq!(join(&parts, ", "), "a, b, c");
    assert_eq!(join(&Vec::<String>::new(), ", "), "");
    assert_eq!(join(&vec![String::from("solo")], ", "), "solo");
}
