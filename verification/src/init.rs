//! What `init` does: it explains how to get a client secret where the file
//! is absent, and otherwise has the session authorised once and the
//! configuration written.

use crate::config::config_content;
use crate::config::json_object_text;
use crate::config::CONFIG_FILE;
use crate::config::SECRET_PATH_KEY;
use vstd::prelude::*;

verus! {

/// Opens the line that says where no client secret was found. The
/// constants that follow are the other lines of that explanation.
pub const HELP_NOT_FOUND_HEAD: &'static str = "Error: Client secret file not found at '";

pub const HELP_NOT_FOUND_TAIL: &'static str = "'";

pub const HELP_ENSURE: &'static str = "Please ensure that:";

pub const HELP_ENSURE_FILE: &'static str =
    "1. The file 'client_secret.json' exists in the current directory, or";

pub const HELP_ENSURE_OPTION: &'static str =
    "2. You've specified the correct path using the --path option";

pub const HELP_OBTAIN: &'static str = "To obtain a client_secret.json file:";

pub const HELP_OBTAIN_CONSOLE: &'static str =
    "1. Go to the Google Cloud Console (https://console.cloud.google.com/)";

pub const HELP_OBTAIN_PROJECT: &'static str = "2. Create a new project or select an existing one";

pub const HELP_OBTAIN_API: &'static str = "3. Enable the Google Sheets API for your project";

pub const HELP_OBTAIN_CREDENTIALS: &'static str =
    "4. Create credentials (OAuth client ID) for desktop application";

pub const HELP_OBTAIN_DOWNLOAD: &'static str =
    "5. Download the client configuration and save it as 'client_secret.json'";

/// The lines shown where no file is found at `secret_path`: what is wrong,
/// how to put it right, and, after an empty line, how to obtain a client
/// secret.
pub open spec fn missing_secret_help(secret_path: Seq<char>) -> Seq<Seq<char>> {
    seq![
        HELP_NOT_FOUND_HEAD@ + secret_path + HELP_NOT_FOUND_TAIL@,
        HELP_ENSURE@,
        HELP_ENSURE_FILE@,
        HELP_ENSURE_OPTION@,
        Seq::<char>::empty(),
        HELP_OBTAIN@,
        HELP_OBTAIN_CONSOLE@,
        HELP_OBTAIN_PROJECT@,
        HELP_OBTAIN_API@,
        HELP_OBTAIN_CREDENTIALS@,
        HELP_OBTAIN_DOWNLOAD@,
    ]
}

/// What `init` is to do.
#[derive(Debug, Clone, PartialEq, Eq)]
pub enum InitPlan {
    /// Show the lines, and end without a failure.
    Explain { lines: Vec<String> },
    /// Authorise a session with the client secret at `secret_path`; once
    /// that has succeeded, write `config_text` to `config_file` in place of
    /// whatever it held.
    Bootstrap { secret_path: String, config_file: String, config_text: String },
}

/// The mathematical value of an `InitPlan`.
pub enum InitPlanView {
    Explain { lines: Seq<Seq<char>> },
    Bootstrap { secret_path: Seq<char>, config_file: Seq<char>, config_text: Seq<char> },
}

impl View for InitPlan {
    type V = InitPlanView;

    open spec fn view(&self) -> InitPlanView {
        match *self {
            InitPlan::Explain { lines } => InitPlanView::Explain { lines: lines.deep_view() },
            InitPlan::Bootstrap { secret_path, config_file, config_text } => InitPlanView::Bootstrap {
                secret_path: secret_path@,
                config_file: config_file@,
                config_text: config_text@,
            },
        }
    }
}

/// What `init` is to do with the client secret at `secret_path`, given
/// whether a file exists there. The configuration is written only after the
/// bootstrap, and names that path.
pub open spec fn init_plan(secret_path: Seq<char>, secret_exists: bool) -> InitPlanView {
    if secret_exists {
        InitPlanView::Bootstrap {
            secret_path,
            config_file: CONFIG_FILE@,
            config_text: json_object_text(SECRET_PATH_KEY@, secret_path),
        }
    } else {
        InitPlanView::Explain { lines: missing_secret_help(secret_path) }
    }
}

/// Writes the lines shown where no file is found at `secret_path`.
pub fn help_lines(secret_path: &str) -> (lines: Vec<String>)
    ensures
        lines.deep_view() == missing_secret_help(secret_path@),
{
    let mut first = String::from_str(HELP_NOT_FOUND_HEAD);
    first.append(secret_path);
    first.append(HELP_NOT_FOUND_TAIL);
    let mut lines: Vec<String> = Vec::new();
    lines.push(first);
    lines.push(String::from_str(HELP_ENSURE));
    lines.push(String::from_str(HELP_ENSURE_FILE));
    lines.push(String::from_str(HELP_ENSURE_OPTION));
    lines.push(String::new());
    lines.push(String::from_str(HELP_OBTAIN));
    lines.push(String::from_str(HELP_OBTAIN_CONSOLE));
    lines.push(String::from_str(HELP_OBTAIN_PROJECT));
    lines.push(String::from_str(HELP_OBTAIN_API));
    lines.push(String::from_str(HELP_OBTAIN_CREDENTIALS));
    lines.push(String::from_str(HELP_OBTAIN_DOWNLOAD));
    lines
}

/// Decides what `init` does.
pub fn plan_init(secret_path: &str, secret_exists: bool) -> (plan: InitPlan)
    ensures
        plan@ == init_plan(secret_path@, secret_exists),
{
    if secret_exists {
        InitPlan::Bootstrap {
            secret_path: String::from_str(secret_path),
            config_file: String::from_str(CONFIG_FILE),
            config_text: config_content(secret_path),
        }
    } else {
        InitPlan::Explain { lines: help_lines(secret_path) }
    }
}

} // verus!
