//! The configuration of a run: bundled defaults, completed and overridden by
//! the environment.

use crate::error::{Error, RenderFault, Setting};
use std::time::Duration;
use vstd::prelude::*;

verus! {

/// The period that the statistics cover.
#[derive(Debug, Clone, Copy, PartialEq, Eq, Structural)]
pub enum TimeRange {
    Last7Days,
    Last30Days,
}

impl TimeRange {
    /// The label by which the statistics service names the period.
    pub open spec fn label(self) -> Seq<char> {
        match self {
            TimeRange::Last7Days => "last_7_days"@,
            TimeRange::Last30Days => "last_30_days"@,
        }
    }

    /// The number of days in the period.
    pub open spec fn days(self) -> int {
        match self {
            TimeRange::Last7Days => 7,
            TimeRange::Last30Days => 30,
        }
    }

    /// The period that a label names, if any.
    pub open spec fn from_label(label: Seq<char>) -> Option<TimeRange> {
        if label == "last_7_days"@ {
            Some(TimeRange::Last7Days)
        } else if label == "last_30_days"@ {
            Some(TimeRange::Last30Days)
        } else {
            None
        }
    }

    /// Every period is found again from its own label.
    pub proof fn lemma_label_round_trip(self)
        ensures
            TimeRange::from_label(self.label()) == Some(self),
    {
        reveal_strlit("last_7_days");
        reveal_strlit("last_30_days");
        assert("last_7_days"@.len() != "last_30_days"@.len());
    }

    /// The label of the period.
    pub fn to_string(&self) -> (s: String)
        ensures
            s@ == self.label(),
    {
        match self {
            TimeRange::Last7Days => String::from_str("last_7_days"),
            TimeRange::Last30Days => String::from_str("last_30_days"),
        }
    }

    /// Reads a period from its label. Any other text is refused.
    pub fn try_from(value: &str) -> (r: Result<TimeRange, Error>)
        ensures
            r == match TimeRange::from_label(value@) {
                Some(range) => Ok::<TimeRange, Error>(range),
                None => Err(Error::RenderFailed(RenderFault::InvalidTimeRange)),
            },
    {
        let given = String::from_str(value);
        if given == String::from_str("last_7_days") {
            Ok(TimeRange::Last7Days)
        } else if given == String::from_str("last_30_days") {
            Ok(TimeRange::Last30Days)
        } else {
            Err(Error::RenderFailed(RenderFault::InvalidTimeRange))
        }
    }

    /// The number of days in the period.
    pub fn day_count(&self) -> (d: i64)
        ensures
            d == self.days(),
    {
        match self {
            TimeRange::Last7Days => 7,
            TimeRange::Last30Days => 30,
        }
    }
}

/// How the statistics service is reached over HTTP.
#[derive(Debug)]
pub struct HttpClientConfig {
    /// How often a request that failed for a passing reason is tried again.
    pub max_retries: u32,
    /// How long a single request may take.
    pub timeout: Duration,
}

/// Where the statistics come from.
#[derive(Debug)]
pub struct WakaTimeConfig {
    pub api_key: String,
    pub base_url: String,
    pub time_range: TimeRange,
}

/// How a report is laid out.
#[derive(Debug)]
pub struct ContentConfig {
    /// The style in which the two dates of the title are written.
    pub date_style: String,
    /// The glyphs of the progress bar, from empty to full.
    pub block_style: String,
    /// The width of the progress bar, in characters.
    pub progress_bar_len: usize,
    /// How many languages, from the top of the list, are considered.
    pub language_count: usize,
    /// The least time, in whole seconds, for which a language is shown.
    pub threshold: u64,
    pub show_title: bool,
    pub show_time: bool,
    pub show_total_time: bool,
}

impl ContentConfig {
    /// A progress bar can be drawn: there is at least one glyph.
    pub open spec fn wf(&self) -> bool {
        self.block_style@.len() >= 1
    }

    /// Tells whether a progress bar can be drawn with this configuration.
    pub fn is_valid(&self) -> (b: bool)
        ensures
            b == self.wf(),
    {
        self.block_style.as_str().unicode_len() >= 1
    }
}

/// Where and how a report is published.
#[derive(Debug)]
pub struct GitConfig {
    pub token: String,
    pub base_url: String,
    pub repository: String,
    pub branch_name: String,
    pub file_path: String,
    pub begin_block: String,
    pub end_block: String,
    pub author_name: String,
    pub author_email: String,
    pub committer_name: String,
    pub committer_email: String,
    pub commit_message: String,
}

/// The whole configuration of a run.
#[derive(Debug)]
pub struct Config {
    pub http_client: HttpClientConfig,
    pub wakatime: WakaTimeConfig,
    pub content: ContentConfig,
    pub git: GitConfig,
}

/// The settings that the environment of the run may hold.
#[derive(Debug)]
pub struct Environment {
    pub api_key: Option<String>,
    pub git_token: Option<String>,
    pub git_repository: Option<String>,
    pub git_author_name: Option<String>,
    pub git_author_email: Option<String>,
    pub git_committer_name: Option<String>,
    pub git_committer_email: Option<String>,
    pub git_commit_message: Option<String>,
}

/// The identity that the local Git configuration knows, as far as it is set.
#[derive(Debug)]
pub struct GitIdentity {
    pub name: Option<String>,
    pub email: Option<String>,
}

/// `preferred` where it is set, else `other`.
pub open spec fn or_else(preferred: Option<String>, other: Option<String>) -> Option<String> {
    if preferred is Some {
        preferred
    } else {
        other
    }
}

fn first_set(preferred: Option<String>, other: &Option<String>) -> (r: Option<String>)
    ensures
        r == or_else(preferred, *other),
{
    match preferred {
        Some(value) => Some(value),
        None => match other {
            Some(value) => Some(value.clone()),
            None => None,
        },
    }
}

impl Config {
    /// The setting that is missing first, in the order in which the settings
    /// are looked up, if one is missing.
    pub open spec fn missing(env: Environment, identity: GitIdentity) -> Option<Setting> {
        if env.api_key is None {
            Some(Setting::ApiKey)
        } else if env.git_token is None {
            Some(Setting::GitToken)
        } else if env.git_repository is None {
            Some(Setting::GitRepository)
        } else if or_else(env.git_author_name, identity.name) is None {
            Some(Setting::AuthorName)
        } else if or_else(env.git_author_email, identity.email) is None {
            Some(Setting::AuthorEmail)
        } else if or_else(env.git_committer_name, identity.name) is None {
            Some(Setting::CommitterName)
        } else if or_else(env.git_committer_email, identity.email) is None {
            Some(Setting::CommitterEmail)
        } else {
            None
        }
    }

    /// The configuration that results where no setting is missing: the
    /// defaults, with the key, the token and the repository of the
    /// environment, the names and addresses of the environment or else of the
    /// local Git identity, and the commit message of the environment if it
    /// holds one.
    pub open spec fn resolved(defaults: Config, env: Environment, identity: GitIdentity) -> Config {
        Config {
            http_client: defaults.http_client,
            wakatime: WakaTimeConfig {
                api_key: env.api_key->0,
                base_url: defaults.wakatime.base_url,
                time_range: defaults.wakatime.time_range,
            },
            content: defaults.content,
            git: GitConfig {
                token: env.git_token->0,
                base_url: defaults.git.base_url,
                repository: env.git_repository->0,
                branch_name: defaults.git.branch_name,
                file_path: defaults.git.file_path,
                begin_block: defaults.git.begin_block,
                end_block: defaults.git.end_block,
                author_name: or_else(env.git_author_name, identity.name)->0,
                author_email: or_else(env.git_author_email, identity.email)->0,
                committer_name: or_else(env.git_committer_name, identity.name)->0,
                committer_email: or_else(env.git_committer_email, identity.email)->0,
                commit_message: or_else(
                    env.git_commit_message,
                    Some(defaults.git.commit_message),
                )->0,
            },
        }
    }

    /// Completes the bundled defaults with the settings of the environment.
    ///
    /// The key of the statistics service, the Git token and the repository
    /// must come from the environment. Names and addresses of author and
    /// committer come from the environment or, failing that, from the local
    /// Git identity. The first setting that cannot be had is reported.
    pub fn new(defaults: Config, env: Environment, identity: GitIdentity) -> (r: Result<
        Config,
        Error,
    >)
        ensures
            r == match Config::missing(env, identity) {
                Some(setting) => Err::<Config, Error>(Error::ConfigMissing(setting)),
                None => Ok(Config::resolved(defaults, env, identity)),
            },
    {
        let Config { http_client, wakatime, content, git } = defaults;
        let api_key = match env.api_key {
            Some(value) => value,
            None => return Err(Error::ConfigMissing(Setting::ApiKey)),
        };
        let token = match env.git_token {
            Some(value) => value,
            None => return Err(Error::ConfigMissing(Setting::GitToken)),
        };
        let repository = match env.git_repository {
            Some(value) => value,
            None => return Err(Error::ConfigMissing(Setting::GitRepository)),
        };
        let author_name = match first_set(env.git_author_name, &identity.name) {
            Some(value) => value,
            None => return Err(Error::ConfigMissing(Setting::AuthorName)),
        };
        let author_email = match first_set(env.git_author_email, &identity.email) {
            Some(value) => value,
            None => return Err(Error::ConfigMissing(Setting::AuthorEmail)),
        };
        let committer_name = match first_set(env.git_committer_name, &identity.name) {
            Some(value) => value,
            None => return Err(Error::ConfigMissing(Setting::CommitterName)),
        };
        let committer_email = match first_set(env.git_committer_email, &identity.email) {
            Some(value) => value,
            None => return Err(Error::ConfigMissing(Setting::CommitterEmail)),
        };
        let commit_message = match env.git_commit_message {
            Some(value) => value,
            None => git.commit_message,
        };
        Ok(
            Config {
                http_client,
                wakatime: WakaTimeConfig {
                    api_key,
                    base_url: wakatime.base_url,
                    time_range: wakatime.time_range,
                },
                content,
                git: GitConfig {
                    token,
                    base_url: git.base_url,
                    repository,
                    branch_name: git.branch_name,
                    file_path: git.file_path,
                    begin_block: git.begin_block,
                    end_block: git.end_block,
                    author_name,
                    author_email,
                    committer_name,
                    committer_email,
                    commit_message,
                },
            },
        )
    }
}

} // verus!
