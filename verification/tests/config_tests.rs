use firesim::config::{config_to_string, parse_config, AppConfig};

#[test]
fn empty_text_gives_defaults() {
    let cfg = parse_config("");
    assert_eq!(cfg.background_path, "background.png");
    assert_eq!(cfg.border_path, "border.png");
}

#[test]
fn unrelated_lines_are_ignored() {
    let cfg = parse_config("hello\n# comment\nbackgroundish=nope\n");
    assert_eq!(cfg.background_path, "background.png");
    assert_eq!(cfg.border_path, "border.png");
}

#[test]
fn both_keys_are_read() {
    let cfg = parse_config("background=bg.png\nborder=frame.png\n");
    assert_eq!(cfg.background_path, "bg.png");
    assert_eq!(cfg.border_path, "frame.png");
}

#[test]
fn values_are_trimmed_and_crlf_lines_work() {
    let cfg = parse_config("background=  spaced.png \t\r\nborder=\tkept.png\r\n");
    assert_eq!(cfg.background_path, "spaced.png");
    assert_eq!(cfg.border_path, "kept.png");
}

#[test]
fn later_lines_override_earlier_ones() {
    let cfg = parse_config("background=first.png\nbackground=second.png");
    assert_eq!(cfg.background_path, "second.png");
    assert_eq!(cfg.border_path, "border.png");
}

#[test]
fn final_line_without_newline_counts() {
    let cfg = parse_config("border=last.png");
    assert_eq!(cfg.border_path, "last.png");
}

#[test]
fn empty_value_is_kept_empty() {
    let cfg = parse_config("background=\n");
    assert_eq!(cfg.background_path, "");
}

#[test]
fn serialization_layout_is_fixed() {
    let cfg = AppConfig {
        background_path: String::from("a.png"),
        border_path: String::from("b.png"),
    };
    assert_eq!(config_to_string(&cfg), "background=a.png\nborder=b.png\n");
}

#[test]
fn parse_reads_back_what_serialize_wrote() {
    let cfg = AppConfig {
        background_path: String::from("scene.png"),
        border_path: String::from("frame.png"),
    };
    let text = config_to_string(&cfg);
    let back = parse_config(&text);
    assert_eq!(back.background_path, "scene.png");
    assert_eq!(back.border_path, "frame.png");
}
