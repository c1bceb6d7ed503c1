use vstd::prelude::*;
use vstd::string::StringExecFns;

verus! {

/// The stored settings: credentials, the target repository and the local directory.
#[derive(Debug)]
pub struct Config {
    pub github_token: String,
    pub github_repo: String,
    pub directory_path: String,
}

/// The three fields of a [`Config`] as character sequences.
pub struct ConfigView {
    pub github_token: Seq<char>,
    pub github_repo: Seq<char>,
    pub directory_path: Seq<char>,
}

impl View for Config {
    type V = ConfigView;

    open spec fn view(&self) -> ConfigView {
        ConfigView {
            github_token: self.github_token@,
            github_repo: self.github_repo@,
            directory_path: self.directory_path@,
        }
    }
}

pub open spec fn empty_view() -> ConfigView {
    ConfigView {
        github_token: Seq::empty(),
        github_repo: Seq::empty(),
        directory_path: Seq::empty(),
    }
}

/// What setup starts from: the stored configuration, or an empty one.
pub open spec fn base_of(existing: Option<Config>) -> ConfigView {
    match existing {
        Some(c) => c@,
        None => empty_view(),
    }
}

/// An empty entry keeps the current value; anything else replaces it.
pub open spec fn kept_or_entered(current: Seq<char>, entered: Seq<char>) -> Seq<char> {
    if entered.len() == 0 {
        current
    } else {
        entered
    }
}

/// The configuration that setup produces from `existing` and the three entries.
pub open spec fn merged(
    existing: ConfigView,
    token: Seq<char>,
    repo: Seq<char>,
    path: Seq<char>,
) -> ConfigView {
    ConfigView {
        github_token: kept_or_entered(existing.github_token, token),
        github_repo: kept_or_entered(existing.github_repo, repo),
        directory_path: kept_or_entered(existing.directory_path, path),
    }
}

/// An input line with leading and trailing whitespace removed.
pub uninterp spec fn trimmed(s: Seq<char>) -> Seq<char>;

/// Relies on `str::trim`: the result depends on the text alone, and empty text stays empty.
#[verifier::external_body]
fn trim_line(s: &str) -> (r: String)
    ensures
        r@ == trimmed(s@),
        s@.len() == 0 ==> r@.len() == 0,
{
    s.trim().to_string()
}

/// Keeps `current` when `entered` is empty, and takes `entered` otherwise.
pub fn entered_or_current(current: String, entered: String) -> (r: String)
    ensures
        r@ == kept_or_entered(current@, entered@),
{
    if entered.as_str().is_empty() {
        current
    } else {
        entered
    }
}

/// The text shown before reading a line: the message, a colon and a space.
pub fn prompt_text(message: &str) -> (r: String)
    ensures
        r@ == message@ + ": "@,
{
    String::from_str(message).concat(": ")
}

/// The line that shows a field's current value, when it has one.
pub fn current_value_line(label: &str, value: &str) -> (r: Option<String>)
    ensures
        value@.len() == 0 ==> r is None,
        value@.len() > 0 ==> r is Some && r->Some_0@ == label@ + ": "@ + value@,
{
    if value.is_empty() {
        None
    } else {
        Some(String::from_str(label).concat(": ").concat(value))
    }
}

impl Config {
    /// A configuration whose three fields are all empty.
    pub fn empty() -> (r: Config)
        ensures
            r@ == empty_view(),
    {
        Config { github_token: String::new(), github_repo: String::new(), directory_path: String::new() }
    }

    /// Applies three already trimmed entries: each empty one keeps the field as it is.
    pub fn with_entries(self, token: String, repo: String, path: String) -> (r: Config)
        ensures
            r@ == merged(self@, token@, repo@, path@),
    {
        Config {
            github_token: entered_or_current(self.github_token, token),
            github_repo: entered_or_current(self.github_repo, repo),
            directory_path: entered_or_current(self.directory_path, path),
        }
    }

    /// The configuration that setup stores, from the previous one (if any) and the three
    /// lines the user typed for the token, the repository and the directory.
    pub fn setup(existing: Option<Config>, token_line: &str, repo_line: &str, path_line: &str) -> (r:
        Config)
        ensures
            r@ == merged(base_of(existing), trimmed(token_line@), trimmed(repo_line@), trimmed(path_line@)),
            token_line@.len() == 0 && repo_line@.len() == 0 && path_line@.len() == 0 ==> r@ == base_of(
                existing,
            ),
    {
        let base = match existing {
            Some(c) => c,
            None => Config::empty(),
        };
        let token = trim_line(token_line);
        let repo = trim_line(repo_line);
        let path = trim_line(path_line);
        base.with_entries(token, repo, path)
    }
}

/// Setup with three empty entries leaves the configuration as it was.
pub proof fn setup_keeps_all_on_empty_entries(existing: ConfigView, token: Seq<char>, repo: Seq<char>, path: Seq<char>)
    requires
        token.len() == 0,
        repo.len() == 0,
        path.len() == 0,
    ensures
        merged(existing, token, repo, path) == existing,
{
}

/// Setup with one non-empty entry changes that field only.
pub proof fn setup_changes_only_the_entered_field(existing: ConfigView, entry: Seq<char>)
    requires
        entry.len() > 0,
    ensures
        merged(existing, entry, Seq::empty(), Seq::empty()) == (ConfigView { github_token: entry, ..existing }),
        merged(existing, Seq::empty(), entry, Seq::empty()) == (ConfigView { github_repo: entry, ..existing }),
        merged(existing, Seq::empty(), Seq::empty(), entry) == (ConfigView { directory_path: entry, ..existing }),
{
}

} // verus!
