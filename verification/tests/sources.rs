use tool_meister::global_config::default_auto_update;
use tool_meister::global_config::CargoMetadata;
use tool_meister::global_config::ConfigError;
use tool_meister::global_config::DefaultSettings;
use tool_meister::global_config::EnvVars;
use tool_meister::global_config::GlobalConfig;
use tool_meister::global_config::ManifestSource;
use tool_meister::global_config::MetadataSettings;

fn no_env() -> EnvVars {
    EnvVars { xdg_config_home: None, xdg_data_home: None, home: None }
}

fn source(source_type: &str, path: &str, branch: Option<&str>, auto_update: bool) -> ManifestSource {
    ManifestSource {
        source_type: source_type.to_string(),
        path: path.to_string(),
        branch: branch.map(|b| b.to_string()),
        auto_update,
    }
}

#[test]
fn test_sanitize_url() {
    let result = GlobalConfig::sanitize_url("https://github.com/user/repo.git");
    assert_eq!(result, "https___github_com_user_repo_git");
}

#[test]
fn test_expand_env_vars_with_package_name() {
    let result = GlobalConfig::expand_env_vars("<[package.name]>", "test-app", &no_env());
    assert_eq!(result, "test-app");
}

#[test]
fn test_expand_env_vars_with_home() {
    let env = EnvVars {
        xdg_config_home: None,
        xdg_data_home: None,
        home: Some("/home/testuser".to_string()),
    };
    let result = GlobalConfig::expand_env_vars("$HOME/.config", "", &env);
    assert_eq!(result, "/home/testuser/.config");
}

#[test]
fn test_expand_env_vars_with_xdg_config_home() {
    let env = EnvVars {
        xdg_config_home: Some("/custom/config".to_string()),
        xdg_data_home: None,
        home: None,
    };
    let result = GlobalConfig::expand_env_vars("$XDG_CONFIG_HOME/app", "", &env);
    assert_eq!(result, "/custom/config/app");
}

#[test]
fn test_expand_env_vars_xdg_data_home_fallback() {
    let env = EnvVars {
        xdg_config_home: None,
        xdg_data_home: None,
        home: Some("/home/testuser".to_string()),
    };
    let result = GlobalConfig::expand_env_vars("$XDG_DATA_HOME/apps", "", &env);
    assert_eq!(result, "/home/testuser/.local/share/apps");
}

#[test]
fn unexpanded_variables_stay_in_place() {
    let result = GlobalConfig::expand_env_vars("$NONEXISTENT_VAR/config", "x", &no_env());
    assert_eq!(result, "$NONEXISTENT_VAR/config");
}

#[test]
fn usable_candidates_skip_unexpanded_paths() {
    let env = EnvVars {
        xdg_config_home: None,
        xdg_data_home: None,
        home: Some("/home/u".to_string()),
    };
    let paths = vec![
        "$NONEXISTENT_VAR/config".to_string(),
        "$HOME/.config/<[package.name]>".to_string(),
        "/etc/app".to_string(),
    ];
    let out = GlobalConfig::usable_path_candidates(&paths, "app", &env);
    assert_eq!(out, vec!["/home/u/.config/app", "/etc/app"]);
}

#[test]
fn usable_candidates_may_all_fall_away() {
    // The caller then falls back to its built-in default directory.
    let paths = vec!["$NONEXISTENT_VAR/tools".to_string()];
    let out = GlobalConfig::usable_path_candidates(&paths, "", &no_env());
    assert!(out.is_empty());
}

#[test]
fn resolve_template_path_substitutes_config_dir() {
    let out = GlobalConfig::resolve_template_path(
        "<[package.metadata.settings.defaults.app_config_path]>/manifests",
        "app",
        "/home/u/.config/app",
        &no_env(),
    );
    assert_eq!(out, "/home/u/.config/app/manifests");
}

#[test]
fn config_path_prefers_xdg_config_home() {
    let env = EnvVars {
        xdg_config_home: Some("/xdg".to_string()),
        xdg_data_home: None,
        home: Some("/home/u".to_string()),
    };
    assert_eq!(GlobalConfig::get_config_path("app", "config.toml", &env), "/xdg/app/config.toml");
}

#[test]
fn config_path_falls_back_to_home() {
    let env = EnvVars {
        xdg_config_home: None,
        xdg_data_home: None,
        home: Some("/home/u".to_string()),
    };
    assert_eq!(
        GlobalConfig::get_config_path("app", "config.toml", &env),
        "/home/u/.config/app/config.toml"
    );
}

#[test]
fn config_path_without_any_home() {
    assert_eq!(GlobalConfig::get_config_path("app", "config.toml", &no_env()), ".config");
}

#[test]
fn default_config_has_one_local_source() {
    let config = GlobalConfig::default();
    assert_eq!(config.manifest_sources.len(), 1);
    assert_eq!(config.manifest_sources[0].source_type, "local");
    assert_eq!(config.manifest_sources[0].path, "manifests");
    assert!(config.manifest_sources[0].branch.is_none());
    assert!(!config.manifest_sources[0].auto_update);
    assert_eq!(config.tools_dir, "tools");
    assert_eq!(config.default_manifest_dir, "manifests");
}

#[test]
fn auto_update_defaults_to_on() {
    assert!(default_auto_update());
}

#[test]
fn global_config_test_add_manifest_source_git_valid() {
    let mut config = GlobalConfig::default();
    let result = config.add_manifest_source(
        "git".to_string(),
        "https://github.com/example/repo.git".to_string(),
        Some("main".to_string()),
        true,
    );

    assert!(result.is_ok());
    let validated_path = result.unwrap();
    assert_eq!(validated_path, "https://github.com/example/repo.git");
    assert_eq!(config.manifest_sources.len(), 2);
}

#[test]
fn test_add_manifest_source_git_invalid_url() {
    let mut config = GlobalConfig::default();
    let result =
        config.add_manifest_source("git".to_string(), "invalid-url".to_string(), None, true);

    assert!(result.is_err());
    assert!(result.unwrap_err().message().contains("valid git URL"));
}

#[test]
fn global_config_test_add_manifest_source_url_valid() {
    let mut config = GlobalConfig::default();
    let result = config.add_manifest_source(
        "url".to_string(),
        "https://example.com/manifests".to_string(),
        None,
        false,
    );

    assert!(result.is_ok());
    let validated_path = result.unwrap();
    assert_eq!(validated_path, "https://example.com/manifests");
    assert_eq!(config.manifest_sources.len(), 2);
}

#[test]
fn global_config_test_add_manifest_source_url_invalid() {
    let mut config = GlobalConfig::default();
    let result = config.add_manifest_source(
        "url".to_string(),
        "ftp://example.com/manifests".to_string(),
        None,
        true,
    );

    assert!(result.is_err());
    assert!(result.unwrap_err().message().contains("HTTP/HTTPS URL"));
}

#[test]
fn test_add_manifest_source_invalid_type() {
    let mut config = GlobalConfig::default();
    let result =
        config.add_manifest_source("invalid".to_string(), "/some/path".to_string(), None, true);

    assert!(result.is_err());
    assert!(result.unwrap_err().message().contains("Invalid source type"));
}

#[test]
fn adding_the_same_source_twice_is_rejected() {
    let mut config = GlobalConfig::default();
    let url = "https://github.com/example/repo.git".to_string();
    assert!(config.add_manifest_source("git".to_string(), url.clone(), None, true).is_ok());
    let again = config.add_manifest_source("git".to_string(), url, None, true);
    assert!(again.is_err());
    assert!(again.unwrap_err().message().contains("already exists"));
    assert_eq!(config.manifest_sources.len(), 2);
}

#[test]
fn git_at_urls_are_accepted() {
    let mut config = GlobalConfig::default();
    let result = config.add_manifest_source(
        "git".to_string(),
        "git@github.com:example/repo.git".to_string(),
        None,
        true,
    );
    assert!(result.is_ok());
}

#[test]
fn local_sources_are_taken_as_resolved() {
    let mut config = GlobalConfig::default();
    let result =
        config.add_manifest_source("local".to_string(), "/abs/manifests".to_string(), None, true);
    assert_eq!(result.unwrap(), "/abs/manifests");
    assert_eq!(config.manifest_sources.len(), 2);
    assert_eq!(config.manifest_sources[1].path, "/abs/manifests");
}

#[test]
fn rejection_messages_are_exact() {
    assert_eq!(
        ConfigError::InvalidSourceType("x".to_string()).message(),
        "Invalid source type 'x'. Must be one of: local, git, url"
    );
    assert_eq!(
        ConfigError::InvalidGitUrl("p".to_string()).message(),
        "Git source must be a valid git URL (http://, https://, or git@): p"
    );
    assert_eq!(
        ConfigError::InvalidHttpUrl("p".to_string()).message(),
        "URL source must be a valid HTTP/HTTPS URL: p"
    );
    assert_eq!(
        ConfigError::DuplicateSource("git".to_string(), "p".to_string()).message(),
        "Manifest source already exists: git p"
    );
}

#[test]
fn candidate_for_local_source() {
    let s = source("local", "/m", None, false);
    assert_eq!(
        GlobalConfig::manifest_candidate(&s, "test-tool").as_deref(),
        Some("/m/test-tool.jsonc")
    );
}

#[test]
fn candidate_for_git_source_uses_sanitized_cache_dir() {
    let s = source("git", "https://g.com/r.git", Some("main"), true);
    assert_eq!(
        GlobalConfig::manifest_candidate(&s, "t").as_deref(),
        Some(".manifest-cache/https___g_com_r_git/t.jsonc")
    );
}

#[test]
fn candidate_for_url_source_uses_shared_cache() {
    let s = source("url", "https://example.com/m", None, true);
    assert_eq!(
        GlobalConfig::manifest_candidate(&s, "t").as_deref(),
        Some(".manifest-cache/url-manifests/t.jsonc")
    );
}

#[test]
fn candidate_for_unknown_source_type_is_none() {
    let s = source("ftp", "ftp://x", None, false);
    assert!(GlobalConfig::manifest_candidate(&s, "t").is_none());
}

#[test]
fn candidates_keep_source_order_and_skip_unknown_types() {
    let mut config = GlobalConfig::default();
    config.manifest_sources = vec![
        source("local", "/a", None, false),
        source("ftp", "ftp://x", None, false),
        source("url", "https://example.com/m", None, true),
    ];
    let out = config.manifest_candidates("tool");
    assert_eq!(out, vec!["/a/tool.jsonc", ".manifest-cache/url-manifests/tool.jsonc"]);
}

#[test]
fn filter_matches_path_or_type() {
    let s = source("git", "https://github.com/example/repo.git", None, true);
    assert!(GlobalConfig::source_matches_filter(&s, "github"));
    assert!(GlobalConfig::source_matches_filter(&s, "git"));
    assert!(!GlobalConfig::source_matches_filter(&s, "gitlab"));
}

#[test]
fn describe_source_lines() {
    let with_branch = source("git", "https://g.com/r.git", Some("main"), true);
    assert_eq!(
        GlobalConfig::describe_source(&with_branch),
        "git https://g.com/r.git [auto-update] (branch: main)"
    );
    let plain = source("local", "/test/path", None, false);
    assert_eq!(GlobalConfig::describe_source(&plain), "local /test/path [manual]");
}

fn sample_settings() -> DefaultSettings {
    DefaultSettings {
        app_config_path: vec![
            "$XDG_CONFIG_HOME/<[package.name]>".to_string(),
            "$HOME/.config/<[package.name]>".to_string(),
        ],
        config_file_name: "config.toml".to_string(),
        manifests_dir: "<[package.metadata.settings.defaults.app_config_path]>/manifests"
            .to_string(),
        tools_dir: vec!["$HOME/.local/share/tools".to_string()],
        tools_sources_path: "sources".to_string(),
    }
}

#[test]
fn metadata_config_dir_candidates_follow_preference_order() {
    let settings = sample_settings();
    let env = EnvVars {
        xdg_config_home: None,
        xdg_data_home: None,
        home: Some("/home/u".to_string()),
    };
    // The XDG template cannot expand and falls away; the home one stays.
    let out = settings.config_dir_candidates("app", &env);
    assert_eq!(out, vec!["/home/u/.config/app"]);
}

#[test]
fn metadata_tools_dir_candidates_expand_home() {
    let settings = sample_settings();
    let env = EnvVars {
        xdg_config_home: None,
        xdg_data_home: None,
        home: Some("/home/u".to_string()),
    };
    let out = settings.tools_dir_candidates(&env);
    assert_eq!(out, vec!["/home/u/.local/share/tools"]);
}

#[test]
fn metadata_manifests_dir_resolves_against_config_dir() {
    let metadata = CargoMetadata { settings: MetadataSettings { defaults: sample_settings() } };
    let out = metadata.settings.defaults.manifests_dir_for(
        "app",
        "/home/u/.config/app",
        &no_env(),
    );
    assert_eq!(out, "/home/u/.config/app/manifests");
}

#[test]
fn tools_directory_getter() {
    let config = GlobalConfig::default();
    assert_eq!(config.get_tools_directory(), "tools");
}
