use pelican_installer::installers::protocol::{parse_line, ParsedLine};

fn progress(line: &str) -> Option<(u16, String)> {
    match parse_line(line) {
        ParsedLine::Progress(p, m) => Some((p, m)),
        _ => None,
    }
}

fn error(line: &str) -> Option<String> {
    match parse_line(line) {
        ParsedLine::Error(m) => Some(m),
        _ => None,
    }
}

fn is_plain(line: &str) -> bool {
    matches!(parse_line(line), ParsedLine::Plain)
}

#[test]
fn progress_line_gives_percentage_and_message() {
    assert_eq!(
        progress("PROGRESS:42:Installing deps"),
        Some((42, "Installing deps".to_string()))
    );
}

#[test]
fn progress_line_without_number_is_plain() {
    assert!(is_plain("PROGRESS:abc:x"));
}

#[test]
fn error_line_gives_message() {
    assert_eq!(error("ERROR:disk full"), Some("disk full".to_string()));
}

#[test]
fn other_line_is_plain() {
    assert!(is_plain("hello world"));
}

#[test]
fn progress_bounds() {
    assert_eq!(progress("PROGRESS:0:start"), Some((0, "start".to_string())));
    assert_eq!(progress("PROGRESS:100:done"), Some((100, "done".to_string())));
    assert!(is_plain("PROGRESS:101:too much"));
    assert!(is_plain("PROGRESS:65536:far too much"));
    assert!(is_plain("PROGRESS:99999999999999999999999999:overflow"));
    assert!(is_plain("PROGRESS:-1:negative"));
}

#[test]
fn progress_number_forms() {
    assert_eq!(progress("PROGRESS:+7:plus"), Some((7, "plus".to_string())));
    assert_eq!(progress("PROGRESS:007:zeros"), Some((7, "zeros".to_string())));
    assert_eq!(
        progress("PROGRESS:0000000000000000000000000000042:zeros"),
        Some((42, "zeros".to_string()))
    );
    assert!(is_plain("PROGRESS::empty"));
    assert!(is_plain("PROGRESS:+:sign only"));
    assert!(is_plain("PROGRESS: 5:space"));
    assert!(is_plain("PROGRESS:5 :space"));
    assert!(is_plain("PROGRESS:4x:letter"));
    assert!(is_plain("PROGRESS:++4:signs"));
}

#[test]
fn progress_message_keeps_later_colons() {
    assert_eq!(progress("PROGRESS:10:a:b:c"), Some((10, "a:b:c".to_string())));
    assert_eq!(progress("PROGRESS:10:"), Some((10, String::new())));
}

#[test]
fn progress_without_second_colon_is_plain() {
    assert!(is_plain("PROGRESS:10"));
    assert!(is_plain("PROGRESS:"));
    assert!(is_plain("PROGRESS"));
}

#[test]
fn markers_are_case_sensitive_and_anchored() {
    assert!(is_plain("progress:10:x"));
    assert!(is_plain(" PROGRESS:10:x"));
    assert!(is_plain("error:x"));
    assert!(is_plain("xERROR:x"));
    assert!(is_plain(""));
}

#[test]
fn error_line_with_empty_message() {
    assert_eq!(error("ERROR:"), Some(String::new()));
}

#[test]
fn messages_keep_non_ascii_text() {
    assert_eq!(
        progress("PROGRESS:5:Téléchargement…"),
        Some((5, "Téléchargement…".to_string()))
    );
    assert_eq!(error("ERROR:磁盘已满"), Some("磁盘已满".to_string()));
}

fn by_the_standard_library(line: &str) -> ParsedLine {
    if line.starts_with("PROGRESS:") {
        if let Some((number, message)) = line[9..].split_once(':') {
            if let Ok(percentage) = number.parse::<u16>() {
                if percentage <= 100 {
                    return ParsedLine::Progress(percentage, message.to_string());
                }
            }
        }
        ParsedLine::Plain
    } else if line.starts_with("ERROR:") {
        ParsedLine::Error(line[6..].to_string())
    } else {
        ParsedLine::Plain
    }
}

#[test]
fn reading_agrees_with_prefix_split_and_parse_of_the_standard_library() {
    let pieces = [
        "PROGRESS:", "ERROR:", "PROGRESS", "ERROR", ":", "0", "1", "9", "10", "100", "101",
        "65535", "65536", "+", "-", " ", "a", "é", "00", "%",
    ];
    let mut checked = 0;
    for a in pieces {
        for b in pieces {
            for c in pieces {
                for d in pieces {
                    let line = format!("{}{}{}{}", a, b, c, d);
                    assert_eq!(parse_line(&line), by_the_standard_library(&line), "{:?}", line);
                    checked += 1;
                }
            }
        }
    }
    assert_eq!(checked, 160000);
}
