use touch_gitignore::cli::parse_args;
use touch_gitignore::cli::should_write_file;
use touch_gitignore::codec::decode_contents;
use touch_gitignore::codec::DecodeError;
use touch_gitignore::remote::gitignore_text;
use touch_gitignore::remote::template_url;
use touch_gitignore::remote::ResponseEnvelope;
use touch_gitignore::text::accepts_overwrite;
use touch_gitignore::text::char_is_whitespace;
use touch_gitignore::text::is_affirmative;
use touch_gitignore::text::remove_whitespace;

use base64::Engine;

fn envelope_with_content(content: &str) -> ResponseEnvelope {
    ResponseEnvelope {
        name: String::from("Rust.gitignore"),
        path: String::from("Rust.gitignore"),
        sha: String::from("0123456789abcdef0123456789abcdef01234567"),
        size: content.len(),
        url: String::from("https://api.github.com/repos/github/gitignore/contents/Rust.gitignore"),
        html_url: String::from("https://github.com/github/gitignore/blob/main/Rust.gitignore"),
        git_url: String::from(
            "https://api.github.com/repos/github/gitignore/git/blobs/0123456789abcdef",
        ),
        download_url: String::from(
            "https://raw.githubusercontent.com/github/gitignore/main/Rust.gitignore",
        ),
        content: String::from(content),
        encoding: String::from("base64"),
    }
}

#[test]
fn whitespace_is_removed() {
    assert_eq!(remove_whitespace(&String::from("a b\tc\nd")), "abcd");
}

#[test]
fn whitespace_removal_keeps_clean_text() {
    assert_eq!(remove_whitespace(&String::from("abc")), "abc");
}

#[test]
fn whitespace_removal_of_empty_string() {
    assert_eq!(remove_whitespace(&String::from("")), "");
}

#[test]
fn whitespace_removal_of_all_whitespace() {
    assert_eq!(remove_whitespace(&String::from(" \t\r\n")), "");
}

#[test]
fn whitespace_removal_handles_unicode_whitespace() {
    assert_eq!(remove_whitespace(&String::from("a\u{00A0}b\u{2003}c")), "abc");
}

#[test]
fn whitespace_chars_recognised() {
    assert!(char_is_whitespace(' '));
    assert!(char_is_whitespace('\t'));
    assert!(char_is_whitespace('\n'));
    assert!(char_is_whitespace('\u{00A0}'));
    assert!(!char_is_whitespace('a'));
    assert!(!char_is_whitespace('y'));
}

#[test]
fn decode_plain_payload() {
    assert_eq!(decode_contents(&String::from("aGVsbG8=")), Ok(String::from("hello")));
}

#[test]
fn decode_payload_with_embedded_whitespace() {
    assert_eq!(decode_contents(&String::from("aGVs\nbG8=\n")), Ok(String::from("hello")));
}

#[test]
fn decode_empty_payload() {
    assert_eq!(decode_contents(&String::from("")), Ok(String::from("")));
}

#[test]
fn decode_rejects_invalid_base64() {
    assert_eq!(decode_contents(&String::from("!!!!")), Err(DecodeError::InvalidBase64));
}

#[test]
fn decode_rejects_unpadded_base64() {
    assert_eq!(decode_contents(&String::from("aGVsbG8")), Err(DecodeError::InvalidBase64));
}

#[test]
fn decode_rejects_non_utf8_bytes() {
    // 0xFF is never valid UTF-8.
    assert_eq!(decode_contents(&String::from("/w==")), Err(DecodeError::InvalidUtf8));
}

#[test]
fn decoded_file_text_matches_payload() {
    let text = "# Generated files\n/target\nCargo.lock\n";
    let payload = base64::engine::general_purpose::STANDARD.encode(text.as_bytes());
    let envelope = envelope_with_content(&payload);
    assert_eq!(gitignore_text(&envelope), Ok(String::from(text)));
}

#[test]
fn decoded_file_text_matches_wrapped_payload() {
    // The API wraps its base64 payload in newlines; the decoder strips them.
    let text = "/target\n";
    let mut payload = String::new();
    for chunk in base64::engine::general_purpose::STANDARD
        .encode(text.as_bytes())
        .as_bytes()
        .chunks(4)
    {
        payload.push_str(std::str::from_utf8(chunk).unwrap());
        payload.push('\n');
    }
    let envelope = envelope_with_content(&payload);
    assert_eq!(gitignore_text(&envelope), Ok(String::from(text)));
}

#[test]
fn round_trip_restores_stripped_payload() {
    let payload = String::from("IyBCdWlsZCBv\ndXRwdXRzCi90YXJnZXQK\n");
    let stripped = remove_whitespace(&payload);
    let decoded = decode_contents(&payload).unwrap();
    let reencoded = base64::engine::general_purpose::STANDARD.encode(decoded.as_bytes());
    assert_eq!(reencoded, stripped);
}

#[test]
fn round_trip_restores_clean_payload() {
    let payload = String::from("aGVsbG8gd29ybGQ=");
    let decoded = decode_contents(&payload).unwrap();
    let reencoded = base64::engine::general_purpose::STANDARD.encode(decoded.as_bytes());
    assert_eq!(reencoded, payload);
}

#[test]
fn url_for_template() {
    assert_eq!(
        template_url(&String::from("Rust")),
        "https://api.github.com/repos/github/gitignore/contents/Rust.gitignore"
    );
}

#[test]
fn url_uses_template_verbatim() {
    // No validation or escaping: the name is spliced in as given.
    assert_eq!(
        template_url(&String::from("Visual Studio")),
        "https://api.github.com/repos/github/gitignore/contents/Visual Studio.gitignore"
    );
}

#[test]
fn no_argument_selects_nothing() {
    let args = vec![String::from("touch-gitignore")];
    assert_eq!(parse_args(&args), None);
}

#[test]
fn one_argument_selects_the_template() {
    let args = vec![String::from("touch-gitignore"), String::from("Rust")];
    assert_eq!(parse_args(&args), Some(String::from("Rust")));
}

#[test]
fn two_arguments_select_nothing() {
    let args = vec![String::from("touch-gitignore"), String::from("Rust"), String::from("Go")];
    assert_eq!(parse_args(&args), None);
}

#[test]
fn missing_file_is_written_without_prompting() {
    assert!(should_write_file(false, &None));
}

#[test]
fn existing_file_kept_on_decline() {
    assert!(!should_write_file(true, &Some(String::from("n"))));
    assert!(!should_write_file(true, &Some(String::from("no"))));
    assert!(!should_write_file(true, &Some(String::from(""))));
    assert!(!should_write_file(true, &Some(String::from("yes"))));
    assert!(!should_write_file(true, &None));
}

#[test]
fn existing_file_overwritten_on_yes() {
    assert!(should_write_file(true, &Some(String::from("y"))));
    assert!(should_write_file(true, &Some(String::from("Y"))));
    assert!(should_write_file(true, &Some(String::from("  y \n"))));
}

#[test]
fn answer_normalization() {
    assert!(accepts_overwrite(&String::from("y")));
    assert!(accepts_overwrite(&String::from("Y")));
    assert!(accepts_overwrite(&String::from(" y\t\n")));
    assert!(!accepts_overwrite(&String::from("yes")));
    assert!(!accepts_overwrite(&String::from("n")));
    assert!(!accepts_overwrite(&String::from("")));
    assert!(!accepts_overwrite(&String::from(" ")));
}

#[test]
fn affirmative_answers_without_lowercasing() {
    assert!(is_affirmative("y"));
    assert!(is_affirmative(" y "));
    assert!(!is_affirmative("Y"));
    assert!(!is_affirmative("yy"));
    assert!(!is_affirmative(""));
}
