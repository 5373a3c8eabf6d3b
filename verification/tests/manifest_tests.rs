use directive_agent::manifest::{service_id_of, strip_comment_lines, Directive};
use directive_agent::textutil::{contains_str, parent_dir_of, str_eq, u64_to_dec};

#[test]
fn strips_comment_lines() {
    let text = "# provisioning note\n{\"url\":\"a.test\"}\n";
    assert_eq!(strip_comment_lines(text), "{\"url\":\"a.test\"}\n");
}

#[test]
fn strips_comment_lines_with_leading_whitespace() {
    let text = "   # indented note\nkeep me\n";
    assert_eq!(strip_comment_lines(text), "keep me\n");
}

#[test]
fn keeps_a_line_with_a_hash_after_content() {
    let text = "value # not a comment\n";
    assert_eq!(strip_comment_lines(text), "value # not a comment\n");
}

#[test]
fn closes_an_unterminated_last_line() {
    assert_eq!(strip_comment_lines("{\"a\":1}"), "{\"a\":1}\n");
}

#[test]
fn handles_carriage_returns() {
    let text = "# note\r\n{\"a\":1}\r\n";
    assert_eq!(strip_comment_lines(text), "{\"a\":1}\n");
}

#[test]
fn strips_everything_from_a_comment_only_file() {
    assert_eq!(strip_comment_lines("# one\n# two\n"), "");
    assert_eq!(strip_comment_lines(""), "");
}

#[test]
fn recognizes_the_full_whitespace_class_before_a_hash() {
    // The same class char::is_whitespace accepts, as trim_start uses.
    assert_eq!(strip_comment_lines("\u{000B}# vertical tab\nkeep\n"), "keep\n");
    assert_eq!(strip_comment_lines("\u{000C}# form feed\nkeep\n"), "keep\n");
    assert_eq!(strip_comment_lines("\u{00A0}# no-break space\nkeep\n"), "keep\n");
    assert_eq!(strip_comment_lines("\u{2003}# em space\nkeep\n"), "keep\n");
    assert_eq!(strip_comment_lines("\u{3000}# ideographic space\n"), "");
}

#[test]
fn default_prefilled_directive() {
    let d = Directive::default_prefilled();
    assert_eq!(d.url, "http://example.com");
    assert!(d.track_directory);
    assert!(!d.webserver);
    assert_eq!(d.port, 8080);
    assert_eq!(d.php_fpm_version.as_deref(), Some("8.2"));
    assert!(d.nodejs_bool);
    assert_eq!(d.nodejs_version.as_deref(), Some("22.6.0"));
    assert_eq!(d.nodejs_exec_command.as_deref(), Some("npm start"));
    assert_eq!(d.nodejs_pre_exec_command.as_deref(), Some("npm run build"));
    assert!(!d.directive_executed);
}

#[test]
fn service_identity_is_relative_to_the_webroot() {
    assert_eq!(service_id_of("/var/www/ais/myapp"), "myapp");
    assert_eq!(service_id_of("/srv/elsewhere/app"), "/srv/elsewhere/app");
}

#[test]
fn parent_directory_of_a_manifest_path() {
    assert_eq!(
        parent_dir_of("/var/www/ais/myapp/directive.ais"),
        "/var/www/ais/myapp"
    );
    // A bare name has the empty parent, as Path::parent gives.
    assert_eq!(parent_dir_of("no-separator"), "");
    // A root-level entry's parent is the root itself.
    assert_eq!(parent_dir_of("/app"), "/");
}

#[test]
fn parent_directory_ignores_a_trailing_separator() {
    assert_eq!(parent_dir_of("/var/www/ais/myapp/"), "/var/www/ais");
    assert_eq!(parent_dir_of("a/b/"), "a");
    assert_eq!(parent_dir_of("/app/"), "/");
}

#[test]
fn parentless_paths_fall_back_to_the_scratch_directory() {
    assert_eq!(parent_dir_of("/"), "/tmp");
    assert_eq!(parent_dir_of(""), "/tmp");
}

#[test]
fn decimal_rendering() {
    assert_eq!(u64_to_dec(0), "0");
    assert_eq!(u64_to_dec(7), "7");
    assert_eq!(u64_to_dec(8080), "8080");
    assert_eq!(u64_to_dec(65535), "65535");
    assert_eq!(u64_to_dec(u64::MAX), "18446744073709551615");
}

#[test]
fn substring_search() {
    assert!(contains_str("v22.6.0 installed", "22.6.0"));
    assert!(!contains_str("v20.1.0 installed", "22.6.0"));
    assert!(contains_str("anything", ""));
}

#[test]
fn string_equality() {
    assert!(str_eq("8.2", "8.2"));
    assert!(!str_eq("8.2", "8.1"));
    assert!(!str_eq("8.2", "8.20"));
}
