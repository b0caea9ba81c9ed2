use tool_meister::config::interpolate_with;
use tool_meister::config::Action;
use tool_meister::config::Actions;
use tool_meister::config::Branch;
use tool_meister::config::Config;
use tool_meister::config::Repository;

fn sample_config() -> Config {
    Config {
        repo: Repository {
            name: "demo-tool".to_string(),
            url: "https://example.com/demo.git".to_string(),
            default_branch: Branch { name: "main".to_string() },
        },
        dependencies: Vec::new(),
        actions: Actions {
            installation: Vec::new(),
            update: Vec::new(),
            build: Vec::new(),
            run: vec![Action {
                seq_id: 1,
                name: Some("run".to_string()),
                command: "./demo-tool".to_string(),
                description: "Start".to_string(),
                spawn: true,
            }],
        },
        info_args: Vec::new(),
    }
}

#[test]
fn interpolate_replaces_both_tokens() {
    let config = sample_config();
    let out = config.interpolate("git clone [[repo.url]] [[repo.name]]");
    assert_eq!(out, "git clone https://example.com/demo.git demo-tool");
}

#[test]
fn interpolate_replaces_every_occurrence() {
    let out = interpolate_with("[[repo.name]]/[[repo.name]]", "u", "n");
    assert_eq!(out, "n/n");
}

#[test]
fn interpolate_leaves_plain_text_alone() {
    let config = sample_config();
    assert_eq!(config.interpolate("make install"), "make install");
}

#[test]
fn interpolate_leaves_unmatched_tokens_verbatim() {
    let config = sample_config();
    assert_eq!(config.interpolate("echo [[repo.branch]]"), "echo [[repo.branch]]");
}

#[test]
fn interpolate_twice_is_idempotent_without_collisions() {
    let config = sample_config();
    let once = config.interpolate("run [[repo.url]] for [[repo.name]]");
    let twice = config.interpolate(&once);
    assert_eq!(twice, once);
}

#[test]
fn strip_comments_removes_line_comment() {
    let out = Config::strip_comments("{\n  \"a\": 1 // trailing note\n}");
    assert_eq!(out, "{\n  \"a\": 1 \n}");
}

#[test]
fn strip_comments_keeps_marker_inside_string() {
    let out = Config::strip_comments("{ \"url\": \"https://example.com\" }");
    assert_eq!(out, "{ \"url\": \"https://example.com\" }");
}

#[test]
fn strip_comments_cuts_after_closed_string() {
    let out = Config::strip_comments("\"a\" // note");
    assert_eq!(out, "\"a\" ");
}

#[test]
fn strip_comments_whole_line_comment() {
    let out = Config::strip_comments("// header\n{}");
    assert_eq!(out, "\n{}");
}

#[test]
fn strip_comments_joins_with_newlines() {
    // A final newline ends the last line; the join adds none back.
    let out = Config::strip_comments("a\nb\n");
    assert_eq!(out, "a\nb");
}

#[test]
fn strip_comments_drops_carriage_return_before_newline() {
    let out = Config::strip_comments("a // x\r\nb");
    assert_eq!(out, "a \nb");
}
