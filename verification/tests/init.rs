use gsheet::config::get_client_secret_path;
use gsheet::init::help_lines;
use gsheet::init::plan_init;
use gsheet::init::InitPlan;

fn expected_help(path: &str) -> Vec<String> {
    vec![
        format!("Error: Client secret file not found at '{}'", path),
        String::from("Please ensure that:"),
        String::from("1. The file 'client_secret.json' exists in the current directory, or"),
        String::from("2. You've specified the correct path using the --path option"),
        String::new(),
        String::from("To obtain a client_secret.json file:"),
        String::from("1. Go to the Google Cloud Console (https://console.cloud.google.com/)"),
        String::from("2. Create a new project or select an existing one"),
        String::from("3. Enable the Google Sheets API for your project"),
        String::from("4. Create credentials (OAuth client ID) for desktop application"),
        String::from("5. Download the client configuration and save it as 'client_secret.json'"),
    ]
}

#[test]
fn help_names_the_path() {
    assert_eq!(help_lines("/home/u/client_secret.json"), expected_help("/home/u/client_secret.json"));
    assert_eq!(help_lines(""), expected_help(""));
}

#[test]
fn absent_secret_is_explained() {
    assert_eq!(
        plan_init("/home/u/client_secret.json", false),
        InitPlan::Explain { lines: expected_help("/home/u/client_secret.json") }
    );
}

#[test]
fn present_secret_is_bootstrapped_and_configured() {
    assert_eq!(
        plan_init("/home/u/client_secret.json", true),
        InitPlan::Bootstrap {
            secret_path: String::from("/home/u/client_secret.json"),
            config_file: String::from("gsheet_config.json"),
            config_text: String::from("{\"client_secret_path\":\"/home/u/client_secret.json\"}"),
        }
    );
}

#[test]
fn configuration_written_by_init_is_read_by_the_other_commands() {
    match plan_init("/x/y.json", true) {
        InitPlan::Bootstrap { config_text, .. } => {
            assert_eq!(get_client_secret_path(Some(config_text.as_str())), Ok(String::from("/x/y.json")));
        }
        other => panic!("{:?}", other),
    }
}
