//! The application's own configuration: where tool manifests are looked
//! for (local directories, git repositories, plain URLs), where tools
//! are installed, and the path templating that resolves those places
//! from packaging metadata and environment values. Paths are held as
//! plain strings; reading the environment and the file system is the
//! caller's part.

use vstd::prelude::*;
use vstd::string::StrSliceExecFns;
use vstd::string::StringExecFns;

use crate::strings::begins_with;
use crate::strings::begins_with_exec;
use crate::strings::contains_char;
use crate::strings::contains_sub;
use crate::strings::occurs;
use crate::strings::replace_all;
use crate::strings::replaced;
use crate::strings::str_eq;

verus! {

/// The values of the environment variables that path templates mention;
/// an unset variable is `None`. Reading the environment is the
/// caller's part.
#[derive(Debug, Clone)]
pub struct EnvVars {
    pub xdg_config_home: Option<String>,
    pub xdg_data_home: Option<String>,
    pub home: Option<String>,
}

/// Packaging metadata carried in the package manifest.
#[derive(Debug, Clone)]
pub struct CargoMetadata {
    pub settings: MetadataSettings,
}

/// The settings table of the packaging metadata.
#[derive(Debug, Clone)]
pub struct MetadataSettings {
    pub defaults: DefaultSettings,
}

/// Default locations baked into the package: candidate configuration
/// directories, the configuration file name, and the manifests and
/// tools directories, all as templates over environment variables and
/// the package name.
#[derive(Debug, Clone)]
pub struct DefaultSettings {
    pub app_config_path: Vec<String>,
    pub config_file_name: String,
    pub manifests_dir: String,
    pub tools_dir: Vec<String>,
    pub tools_sources_path: String,
}

impl DefaultSettings {
    /// The configuration-directory candidates of this metadata that
    /// expanded cleanly, in order of preference.
    pub fn config_dir_candidates(&self, package_name: &str, env: &EnvVars) -> (r: Vec<String>)
        ensures
            r.deep_view() == spec_usable_candidates(
                self.app_config_path.deep_view(),
                package_name@,
                *env,
            ),
    {
        GlobalConfig::usable_path_candidates(&self.app_config_path, package_name, env)
    }

    /// The tools-directory candidates of this metadata that expanded
    /// cleanly; tools templates mention no package name.
    pub fn tools_dir_candidates(&self, env: &EnvVars) -> (r: Vec<String>)
        ensures
            r.deep_view() == spec_usable_candidates(
                self.tools_dir.deep_view(),
                Seq::<char>::empty(),
                *env,
            ),
    {
        let r = GlobalConfig::usable_path_candidates(&self.tools_dir, "", env);
        proof {
            reveal_strlit("");
            assert(""@ =~= Seq::<char>::empty());
        }
        r
    }

    /// The manifests directory of this metadata, resolved against the
    /// chosen configuration directory.
    pub fn manifests_dir_for(&self, package_name: &str, config_dir: &str, env: &EnvVars) -> (r:
        String)
        ensures
            r@ == spec_expand_env(
                replaced(self.manifests_dir@, config_dir_token(), config_dir@),
                package_name@,
                *env,
            ),
    {
        GlobalConfig::resolve_template_path(
            self.manifests_dir.as_str(),
            package_name,
            config_dir,
            env,
        )
    }
}

/// One place to look for tool manifests.
#[derive(Debug, Clone)]
pub struct ManifestSource {
    /// Kind of source: `local`, `git` or `url`.
    pub source_type: String,
    /// Path or URL of the source. For a `local` source the path is
    /// taken as the caller resolved it.
    pub path: String,
    /// Branch for `git` sources, when one is named.
    pub branch: Option<String>,
    /// Whether the source should be updated automatically.
    pub auto_update: bool,
}

/// The application's configuration: the ordered manifest sources, the
/// tools directory and the default manifest directory.
#[derive(Debug, Clone)]
pub struct GlobalConfig {
    pub manifest_sources: Vec<ManifestSource>,
    pub tools_dir: String,
    pub default_manifest_dir: String,
}

/// Default for the auto-update flag of a manifest source.
pub fn default_auto_update() -> (b: bool)
    ensures
        b,
{
    true
}

/// A source type the configuration accepts.
pub open spec fn spec_valid_source_type(t: Seq<char>) -> bool {
    t == "local"@ || t == "git"@ || t == "url"@
}

/// A path a `git` source accepts: an HTTP, HTTPS or `git@` URL.
pub open spec fn spec_git_url_ok(p: Seq<char>) -> bool {
    begins_with(p, "http://"@) || begins_with(p, "https://"@) || begins_with(p, "git@"@)
}

/// A path a `url` source accepts: an HTTP or HTTPS URL.
pub open spec fn spec_http_url_ok(p: Seq<char>) -> bool {
    begins_with(p, "http://"@) || begins_with(p, "https://"@)
}

/// What the path of a source of type `t` must look like; `local` paths
/// are accepted as given.
pub open spec fn spec_path_ok(t: Seq<char>, p: Seq<char>) -> bool {
    if t == "git"@ {
        spec_git_url_ok(p)
    } else if t == "url"@ {
        spec_http_url_ok(p)
    } else {
        true
    }
}

/// A source of the same type and path is already configured.
pub open spec fn spec_source_dup(sources: Seq<ManifestSource>, t: Seq<char>, p: Seq<char>) -> bool {
    exists|i: int|
        0 <= i < sources.len() && (#[trigger] sources[i]).source_type@ == t && sources[i].path@
            == p
}

/// URL sanitization for cache directory names: every slash, colon and
/// dot becomes an underscore.
pub open spec fn spec_sanitized(t: Seq<char>) -> Seq<char> {
    t.map_values(
        |c: char|
            if c == '/' || c == ':' || c == '.' {
                '_'
            } else {
                c
            },
    )
}

/// The placeholder token that stands for the package name.
pub open spec fn package_name_token() -> Seq<char> {
    "<[package.name]>"@
}

/// The placeholder token that stands for the resolved configuration
/// directory.
pub open spec fn config_dir_token() -> Seq<char> {
    "<[package.metadata.settings.defaults.app_config_path]>"@
}

/// Expansion of a path template: the package-name token, then each of
/// `$XDG_CONFIG_HOME`, `$XDG_DATA_HOME` and `$HOME` that is set, is
/// substituted; a `$XDG_DATA_HOME` still left afterwards falls back to
/// `$HOME/.local/share` when the home directory is known. Variables
/// that cannot be expanded stay in the result, marking it unusable.
pub open spec fn spec_expand_env(t: Seq<char>, pkg: Seq<char>, env: EnvVars) -> Seq<char> {
    let r1 = replaced(t, package_name_token(), pkg);
    let r2 = match env.xdg_config_home {
        Some(v) => replaced(r1, "$XDG_CONFIG_HOME"@, v@),
        None => r1,
    };
    let r3 = match env.xdg_data_home {
        Some(v) => replaced(r2, "$XDG_DATA_HOME"@, v@),
        None => r2,
    };
    let r4 = match env.home {
        Some(v) => replaced(r3, "$HOME"@, v@),
        None => r3,
    };
    match env.home {
        Some(h) => if occurs(r4, "$XDG_DATA_HOME"@) {
            replaced(r4, "$XDG_DATA_HOME"@, h@ + "/.local/share"@)
        } else {
            r4
        },
        None => r4,
    }
}

/// The expansions of the given templates that came out free of
/// unexpanded variables, in order.
pub open spec fn spec_usable_candidates(ps: Seq<Seq<char>>, pkg: Seq<char>, env: EnvVars) -> Seq<
    Seq<char>,
>
    decreases ps.len(),
{
    if ps.len() == 0 {
        Seq::<Seq<char>>::empty()
    } else {
        let e = spec_expand_env(ps[0], pkg, env);
        let head = if e.contains('$') {
            Seq::<Seq<char>>::empty()
        } else {
            seq![e]
        };
        head + spec_usable_candidates(ps.drop_first(), pkg, env)
    }
}

/// Where a manifest for the tool would live under the given source: a
/// file named after the tool in the source directory for `local`, in
/// the cache directory named after the sanitized URL for `git`, in the
/// shared URL cache for `url`; nothing for an unknown source type.
pub open spec fn spec_candidate(source: ManifestSource, tool: Seq<char>) -> Option<Seq<char>> {
    if source.source_type@ == "local"@ {
        Some(source.path@ + "/"@ + tool + ".jsonc"@)
    } else if source.source_type@ == "git"@ {
        Some(".manifest-cache/"@ + spec_sanitized(source.path@) + "/"@ + tool + ".jsonc"@)
    } else if source.source_type@ == "url"@ {
        Some(".manifest-cache/url-manifests/"@ + tool + ".jsonc"@)
    } else {
        None
    }
}

/// The candidate manifest paths of every source, in source order,
/// skipping sources of unknown type.
pub open spec fn spec_candidates(sources: Seq<ManifestSource>, tool: Seq<char>) -> Seq<Seq<char>>
    decreases sources.len(),
{
    if sources.len() == 0 {
        Seq::<Seq<char>>::empty()
    } else {
        let head = match spec_candidate(sources[0], tool) {
            Some(c) => seq![c],
            None => Seq::<Seq<char>>::empty(),
        };
        head + spec_candidates(sources.drop_first(), tool)
    }
}

/// Why a manifest source was rejected.
#[derive(Debug)]
pub enum ConfigError {
    /// The source type is not `local`, `git` or `url`.
    InvalidSourceType(String),
    /// A `git` source path that is no git URL.
    InvalidGitUrl(String),
    /// A `url` source path that is no HTTP/HTTPS URL.
    InvalidHttpUrl(String),
    /// The same source, by type and path, is already configured.
    DuplicateSource(String, String),
}

impl ConfigError {
    /// A human-readable description of the rejection.
    pub fn message(&self) -> (r: String)
        ensures
            match self {
                ConfigError::InvalidSourceType(t) => r@ == "Invalid source type '"@ + t@
                    + "'. Must be one of: local, git, url"@,
                ConfigError::InvalidGitUrl(p) => r@
                    == "Git source must be a valid git URL (http://, https://, or git@): "@ + p@,
                ConfigError::InvalidHttpUrl(p) => r@
                    == "URL source must be a valid HTTP/HTTPS URL: "@ + p@,
                ConfigError::DuplicateSource(t, p) => r@ == "Manifest source already exists: "@
                    + t@ + " "@ + p@,
            },
    {
        match self {
            ConfigError::InvalidSourceType(t) => {
                let mut r = "Invalid source type '".to_owned();
                r.append(t.as_str());
                r.append("'. Must be one of: local, git, url");
                r
            },
            ConfigError::InvalidGitUrl(p) => {
                let mut r = "Git source must be a valid git URL (http://, https://, or git@): "
                    .to_owned();
                r.append(p.as_str());
                r
            },
            ConfigError::InvalidHttpUrl(p) => {
                let mut r = "URL source must be a valid HTTP/HTTPS URL: ".to_owned();
                r.append(p.as_str());
                r
            },
            ConfigError::DuplicateSource(t, p) => {
                let mut r = "Manifest source already exists: ".to_owned();
                r.append(t.as_str());
                r.append(" ");
                r.append(p.as_str());
                r
            },
        }
    }
}

/// Whether `sources` already holds a source of this type and path.
fn source_exists(sources: &Vec<ManifestSource>, t: &str, p: &str) -> (r: bool)
    ensures
        r == spec_source_dup(sources@, t@, p@),
{
    let n = sources.len();
    let mut i: usize = 0;
    while i < n
        invariant
            n == sources.len(),
            0 <= i <= n,
            forall|j: int|
                0 <= j < i ==> !((#[trigger] sources@[j]).source_type@ == t@ && sources@[j].path@
                    == p@),
        decreases n - i,
    {
        if str_eq(sources[i].source_type.as_str(), t) && str_eq(sources[i].path.as_str(), p) {
            proof {
                assert((sources@[i as int]).source_type@ == t@ && sources@[i as int].path@ == p@);
            }
            return true;
        }
        i += 1;
    }
    proof {
        if spec_source_dup(sources@, t@, p@) {
            let j = choose|j: int|
                0 <= j < sources@.len() && (#[trigger] sources@[j]).source_type@ == t@
                    && sources@[j].path@ == p@;
            assert(false);
        }
    }
    false
}

impl Default for GlobalConfig {
    /// The built-in fallback configuration: one local `manifests`
    /// source without auto-update, tools under `tools`, manifests under
    /// `manifests`.
    fn default() -> (r: GlobalConfig)
        ensures
            r.manifest_sources@.len() == 1,
            r.manifest_sources@[0].source_type@ == "local"@,
            r.manifest_sources@[0].path@ == "manifests"@,
            r.manifest_sources@[0].branch is None,
            !r.manifest_sources@[0].auto_update,
            r.tools_dir@ == "tools"@,
            r.default_manifest_dir@ == "manifests"@,
    {
        let mut sources: Vec<ManifestSource> = Vec::new();
        sources.push(
            ManifestSource {
                source_type: "local".to_owned(),
                path: "manifests".to_owned(),
                branch: None,
                auto_update: false,
            },
        );
        GlobalConfig {
            manifest_sources: sources,
            tools_dir: "tools".to_owned(),
            default_manifest_dir: "manifests".to_owned(),
        }
    }
}

impl GlobalConfig {
    /// The base directory where tools are installed.
    pub fn get_tools_directory(&self) -> (r: &String)
        ensures
            r@ == self.tools_dir@,
    {
        &self.tools_dir
    }

    /// Validates and adds a manifest source. The type must be `local`,
    /// `git` or `url`; a `git` path must be a git URL, a `url` path an
    /// HTTP/HTTPS URL, and a `local` path is taken as the caller
    /// resolved it; a source equal in type and path to a configured one
    /// is rejected. On success the source is appended and its path
    /// returned; on rejection the configuration is unchanged.
    pub fn add_manifest_source(
        &mut self,
        source_type: String,
        path: String,
        branch: Option<String>,
        auto_update: bool,
    ) -> (r: Result<String, ConfigError>)
        ensures
            !spec_valid_source_type(source_type@) ==> (r matches Err(
                ConfigError::InvalidSourceType(w),
            ) && w@ == source_type@ && *final(self) == *old(self)),
            (spec_valid_source_type(source_type@) && source_type@ == "git"@ && !spec_git_url_ok(
                path@,
            )) ==> (r matches Err(ConfigError::InvalidGitUrl(w)) && w@ == path@ && *final(self)
                == *old(self)),
            (spec_valid_source_type(source_type@) && source_type@ == "url"@ && !spec_http_url_ok(
                path@,
            )) ==> (r matches Err(ConfigError::InvalidHttpUrl(w)) && w@ == path@ && *final(self)
                == *old(self)),
            (spec_valid_source_type(source_type@) && spec_path_ok(source_type@, path@)
                && spec_source_dup(old(self).manifest_sources@, source_type@, path@)) ==> (
            r matches Err(ConfigError::DuplicateSource(wt, wp)) && wt@ == source_type@ && wp@
                == path@ && *final(self) == *old(self)),
            (spec_valid_source_type(source_type@) && spec_path_ok(source_type@, path@)
                && !spec_source_dup(old(self).manifest_sources@, source_type@, path@)) ==> ({
                &&& r matches Ok(vp) && vp@ == path@
                &&& final(self).manifest_sources@.len() == old(self).manifest_sources@.len() + 1
                &&& final(self).manifest_sources@.subrange(
                    0,
                    old(self).manifest_sources@.len() as int,
                ) == old(self).manifest_sources@
                &&& final(self).manifest_sources@.last().source_type@ == source_type@
                &&& final(self).manifest_sources@.last().path@ == path@
                &&& final(self).manifest_sources@.last().branch == branch
                &&& final(self).manifest_sources@.last().auto_update == auto_update
                &&& final(self).tools_dir == old(self).tools_dir
                &&& final(self).default_manifest_dir == old(self).default_manifest_dir
            }),
    {
        proof {
            reveal_strlit("local");
            reveal_strlit("git");
            reveal_strlit("url");
            assert("git"@.len() == 3 && "url"@.len() == 3 && "local"@.len() == 5);
            assert("git"@ != "url"@) by {
                assert("git"@[0] == 'g' && "url"@[0] == 'u');
            }
            assert("git"@ != "local"@);
            assert("url"@ != "local"@);
        }
        let is_local = str_eq(source_type.as_str(), "local");
        let is_git = str_eq(source_type.as_str(), "git");
        let is_url = str_eq(source_type.as_str(), "url");
        if !is_local && !is_git && !is_url {
            return Err(ConfigError::InvalidSourceType(source_type));
        }
        if is_git {
            let ok = begins_with_exec(path.as_str(), "http://") || begins_with_exec(
                path.as_str(),
                "https://",
            ) || begins_with_exec(path.as_str(), "git@");
            if !ok {
                return Err(ConfigError::InvalidGitUrl(path));
            }
        }
        if is_url {
            let ok = begins_with_exec(path.as_str(), "http://") || begins_with_exec(
                path.as_str(),
                "https://",
            );
            if !ok {
                return Err(ConfigError::InvalidHttpUrl(path));
            }
        }
        if source_exists(&self.manifest_sources, source_type.as_str(), path.as_str()) {
            return Err(ConfigError::DuplicateSource(source_type, path));
        }
        let validated_path = path.clone();
        let ghost pre = self.manifest_sources@;
        self.manifest_sources.push(
            ManifestSource { source_type, path, branch, auto_update },
        );
        proof {
            assert(self.manifest_sources@.subrange(0, pre.len() as int) =~= pre);
        }
        Ok(validated_path)
    }

    /// Rewrites a URL into a file-system-safe cache directory name.
    pub fn sanitize_url(url: &str) -> (r: String)
        ensures
            r@ == spec_sanitized(url@),
    {
        let n: usize = url.unicode_len();
        let mut r = String::new();
        let mut i: usize = 0;
        proof {
            assert(url@.take(0) =~= Seq::<char>::empty());
            assert(r@ =~= spec_sanitized(url@.take(0)));
        }
        while i < n
            invariant
                n == url@.len(),
                0 <= i <= n,
                r@ == spec_sanitized(url@.take(i as int)),
            decreases n - i,
        {
            let c = url.get_char(i);
            if c == '/' || c == ':' || c == '.' {
                r.append("_");
                proof {
                    reveal_strlit("_");
                    assert("_"@ =~= seq!['_']);
                }
            } else {
                let s = url.substring_char(i, i + 1);
                r.append(s);
                proof {
                    assert(s@ =~= seq![url@[i as int]]);
                }
            }
            proof {
                assert(spec_sanitized(url@.take(i + 1)) =~= spec_sanitized(
                    url@.take(i as int),
                ).push(
                    if url@[i as int] == '/' || url@[i as int] == ':' || url@[i as int] == '.' {
                        '_'
                    } else {
                        url@[i as int]
                    },
                ));
                assert(r@ =~= spec_sanitized(url@.take(i + 1)));
            }
            i += 1;
        }
        proof {
            assert(url@.take(n as int) =~= url@);
        }
        r
    }

    /// Expands the package-name token and the environment variables in
    /// a path template; unexpandable variables are left in place.
    pub fn expand_env_vars(template: &str, package_name: &str, env: &EnvVars) -> (r: String)
        ensures
            r@ == spec_expand_env(template@, package_name@, *env),
    {
        let r1 = replace_all(template, "<[package.name]>", package_name);
        let r2 = match &env.xdg_config_home {
            Some(v) => replace_all(r1.as_str(), "$XDG_CONFIG_HOME", v.as_str()),
            None => r1,
        };
        let r3 = match &env.xdg_data_home {
            Some(v) => replace_all(r2.as_str(), "$XDG_DATA_HOME", v.as_str()),
            None => r2,
        };
        let r4 = match &env.home {
            Some(v) => replace_all(r3.as_str(), "$HOME", v.as_str()),
            None => r3,
        };
        match &env.home {
            Some(h) => {
                if contains_sub(r4.as_str(), "$XDG_DATA_HOME") {
                    let mut fallback = h.clone();
                    fallback.append("/.local/share");
                    replace_all(r4.as_str(), "$XDG_DATA_HOME", fallback.as_str())
                } else {
                    r4
                }
            },
            None => r4,
        }
    }

    /// Resolves a directory template: the configuration-directory token
    /// is substituted first, then the environment expansion runs.
    pub fn resolve_template_path(
        template: &str,
        package_name: &str,
        config_dir: &str,
        env: &EnvVars,
    ) -> (r: String)
        ensures
            r@ == spec_expand_env(
                replaced(template@, config_dir_token(), config_dir@),
                package_name@,
                *env,
            ),
    {
        let expanded = replace_all(
            template,
            "<[package.metadata.settings.defaults.app_config_path]>",
            config_dir,
        );
        Self::expand_env_vars(expanded.as_str(), package_name, env)
    }

    /// Expands every path template and keeps, in order, those that came
    /// out free of unexpanded variables. The caller picks the first one
    /// the file system accepts, or its own fallback.
    pub fn usable_path_candidates(paths: &Vec<String>, package_name: &str, env: &EnvVars) -> (r:
        Vec<String>)
        ensures
            r.deep_view() == spec_usable_candidates(paths.deep_view(), package_name@, *env),
    {
        let mut out: Vec<String> = Vec::new();
        let n = paths.len();
        let mut i: usize = 0;
        proof {
            assert(paths.deep_view().skip(0) =~= paths.deep_view());
            assert(out.deep_view() + spec_usable_candidates(
                paths.deep_view(),
                package_name@,
                *env,
            ) =~= spec_usable_candidates(paths.deep_view(), package_name@, *env));
        }
        while i < n
            invariant
                n == paths.len(),
                n == paths.deep_view().len(),
                0 <= i <= n,
                spec_usable_candidates(paths.deep_view(), package_name@, *env) == out.deep_view()
                    + spec_usable_candidates(
                    paths.deep_view().skip(i as int),
                    package_name@,
                    *env,
                ),
            decreases n - i,
        {
            let ghost ps = paths.deep_view();
            proof {
                assert(ps.skip(i as int)[0] == ps[i as int]);
                assert(ps[i as int] == paths[i as int]@);
                assert(ps.skip(i as int).drop_first() =~= ps.skip(i as int + 1));
            }
            let e = Self::expand_env_vars(paths[i].as_str(), package_name, env);
            if !contains_char(e.as_str(), '$') {
                let ghost old_out = out.deep_view();
                out.push(e);
                proof {
                    assert(out.deep_view() =~= old_out + seq![
                        spec_expand_env(ps[i as int], package_name@, *env),
                    ]);
                    assert((old_out + seq![spec_expand_env(ps[i as int], package_name@, *env)])
                        + spec_usable_candidates(ps.skip(i as int + 1), package_name@, *env)
                        =~= old_out + (seq![spec_expand_env(ps[i as int], package_name@, *env)]
                        + spec_usable_candidates(ps.skip(i as int + 1), package_name@, *env)));
                }
            } else {
                proof {
                    assert(spec_usable_candidates(ps.skip(i as int), package_name@, *env)
                        =~= spec_usable_candidates(ps.skip(i as int + 1), package_name@, *env));
                }
            }
            i += 1;
        }
        proof {
            assert(paths.deep_view().skip(n as int) =~= Seq::<Seq<char>>::empty());
            assert(out.deep_view() + spec_usable_candidates(
                paths.deep_view().skip(n as int),
                package_name@,
                *env,
            ) =~= out.deep_view());
        }
        out
    }

    /// The path of the application's configuration file: under
    /// `$XDG_CONFIG_HOME` when set, else under `$HOME/.config`, else
    /// the bare `.config` directory.
    pub fn get_config_path(app_name: &str, config_file_name: &str, env: &EnvVars) -> (r: String)
        ensures
            match env.xdg_config_home {
                Some(x) => r@ == x@ + "/"@ + app_name@ + "/"@ + config_file_name@,
                None => match env.home {
                    Some(h) => r@ == h@ + "/.config/"@ + app_name@ + "/"@ + config_file_name@,
                    None => r@ == ".config"@,
                },
            },
    {
        match &env.xdg_config_home {
            Some(x) => {
                let mut r = x.clone();
                r.append("/");
                r.append(app_name);
                r.append("/");
                r.append(config_file_name);
                r
            },
            None => {
                match &env.home {
                    Some(h) => {
                        let mut r = h.clone();
                        r.append("/.config/");
                        r.append(app_name);
                        r.append("/");
                        r.append(config_file_name);
                        r
                    },
                    None => ".config".to_owned(),
                }
            },
        }
    }

    /// The candidate manifest path of one source for the given tool.
    pub fn manifest_candidate(source: &ManifestSource, tool_name: &str) -> (r: Option<String>)
        ensures
            match r {
                Some(c) => spec_candidate(*source, tool_name@) == Some(c@),
                None => spec_candidate(*source, tool_name@) is None,
            },
    {
        proof {
            reveal_strlit("local");
            reveal_strlit("git");
            reveal_strlit("url");
            assert("git"@.len() == 3 && "url"@.len() == 3 && "local"@.len() == 5);
            assert("git"@ != "local"@ && "url"@ != "local"@);
            assert("git"@ != "url"@) by {
                assert("git"@[0] == 'g' && "url"@[0] == 'u');
            }
        }
        if str_eq(source.source_type.as_str(), "local") {
            let mut c = source.path.clone();
            c.append("/");
            c.append(tool_name);
            c.append(".jsonc");
            Some(c)
        } else if str_eq(source.source_type.as_str(), "git") {
            let mut c = ".manifest-cache/".to_owned();
            let sanitized = Self::sanitize_url(source.path.as_str());
            c.append(sanitized.as_str());
            c.append("/");
            c.append(tool_name);
            c.append(".jsonc");
            Some(c)
        } else if str_eq(source.source_type.as_str(), "url") {
            let mut c = ".manifest-cache/url-manifests/".to_owned();
            c.append(tool_name);
            c.append(".jsonc");
            Some(c)
        } else {
            None
        }
    }

    /// Every source's candidate manifest path for the tool, in source
    /// order. The caller returns the first one that exists on disk.
    pub fn manifest_candidates(&self, tool_name: &str) -> (r: Vec<String>)
        ensures
            r.deep_view() == spec_candidates(self.manifest_sources@, tool_name@),
    {
        let mut out: Vec<String> = Vec::new();
        let n = self.manifest_sources.len();
        let mut i: usize = 0;
        proof {
            assert(self.manifest_sources@.skip(0) =~= self.manifest_sources@);
            assert(out.deep_view() + spec_candidates(self.manifest_sources@, tool_name@)
                =~= spec_candidates(self.manifest_sources@, tool_name@));
        }
        while i < n
            invariant
                n == self.manifest_sources.len(),
                0 <= i <= n,
                spec_candidates(self.manifest_sources@, tool_name@) == out.deep_view()
                    + spec_candidates(self.manifest_sources@.skip(i as int), tool_name@),
            decreases n - i,
        {
            let ghost srcs = self.manifest_sources@;
            proof {
                assert(srcs.skip(i as int)[0] == srcs[i as int]);
                assert(srcs.skip(i as int).drop_first() =~= srcs.skip(i as int + 1));
            }
            match Self::manifest_candidate(&self.manifest_sources[i], tool_name) {
                Some(c) => {
                    let ghost old_out = out.deep_view();
                    out.push(c);
                    proof {
                        let ghost cc = spec_candidate(srcs[i as int], tool_name@)->Some_0;
                        assert(out.deep_view() =~= old_out + seq![cc]);
                        assert((old_out + seq![cc]) + spec_candidates(
                            srcs.skip(i as int + 1),
                            tool_name@,
                        ) =~= old_out + (seq![cc] + spec_candidates(
                            srcs.skip(i as int + 1),
                            tool_name@,
                        )));
                    }
                },
                None => {
                    proof {
                        assert(spec_candidates(srcs.skip(i as int), tool_name@)
                            =~= spec_candidates(srcs.skip(i as int + 1), tool_name@));
                    }
                },
            }
            i += 1;
        }
        proof {
            assert(self.manifest_sources@.skip(n as int) =~= Seq::<ManifestSource>::empty());
            assert(out.deep_view() + spec_candidates(
                self.manifest_sources@.skip(n as int),
                tool_name@,
            ) =~= out.deep_view());
        }
        out
    }

    /// Whether a source matches a listing filter: the filter occurs in
    /// its path or in its type.
    pub fn source_matches_filter(source: &ManifestSource, filter: &str) -> (r: bool)
        ensures
            r == (occurs(source.path@, filter@) || occurs(source.source_type@, filter@)),
    {
        contains_sub(source.path.as_str(), filter) || contains_sub(
            source.source_type.as_str(),
            filter,
        )
    }

    /// One listing line for a source: its type, its path, its update
    /// discipline in brackets, and the branch when one is named.
    pub fn describe_source(source: &ManifestSource) -> (r: String)
        ensures
            r@ == source.source_type@ + " "@ + source.path@ + " ["@ + (
            if source.auto_update {
                "auto-update"@
            } else {
                "manual"@
            }) + "]"@ + (match source.branch {
                Some(b) => " (branch: "@ + b@ + ")"@,
                None => Seq::<char>::empty(),
            }),
    {
        let mut r = source.source_type.clone();
        r.append(" ");
        r.append(source.path.as_str());
        r.append(" [");
        if source.auto_update {
            r.append("auto-update");
        } else {
            r.append("manual");
        }
        r.append("]");
        match &source.branch {
            Some(b) => {
                r.append(" (branch: ");
                r.append(b.as_str());
                r.append(")");
            },
            None => {
                proof {
                    assert(r@ + Seq::<char>::empty() =~= r@);
                }
            },
        }
        r
    }
}

} // verus!
