use crunchy_cli_core::cli::{Cli, Command, Verbosity};
use crunchy_cli_core::error::RemoteFailure;
use crunchy_cli_core::router::{
    begin, after_context, enforce_quiet, after_command, log_level, after_pre_check,
    LogLevel, Step,
};
use crunchy_cli_core::session::{LoginMethod, SessionError};

fn cli(verbose: bool, quiet: bool, command: Command) -> Cli {
    Cli {
        verbosity: Verbosity { verbose, quiet },
        lang: None,
        experimental_fixes: false,
        login_method: LoginMethod { credentials: None, anonymous: true },
        proxy: None,
        user_agent: None,
        speed_limit: None,
        command,
    }
}

#[test]
fn log_level_follows_the_verbosity() {
    assert_eq!(log_level(Verbosity { verbose: false, quiet: false }), Some(LogLevel::Info));
    assert_eq!(log_level(Verbosity { verbose: true, quiet: false }), Some(LogLevel::Debug));
    assert_eq!(log_level(Verbosity { verbose: false, quiet: true }), Some(LogLevel::Error));
    assert_eq!(log_level(Verbosity { verbose: true, quiet: true }), None);
}

#[test]
fn verbose_and_quiet_together_are_rejected() {
    let mut config = cli(true, true, Command::Archive { yes: false });
    let before = config.clone();
    let step = begin(&mut config);
    assert_eq!(
        step,
        Step::Reject {
            message: "Output cannot be verbose ('-v') and quiet ('-q') at the same time"
                .to_string()
        }
    );
    assert_eq!(step.exit_code(), Some(1));
    assert_eq!(config, before);
}

#[test]
fn quiet_run_answers_yes_for_archive_and_download() {
    let mut config = cli(false, true, Command::Archive { yes: false });
    assert_eq!(begin(&mut config), Step::PreCheck { level: LogLevel::Error });
    assert_eq!(config.command, Command::Archive { yes: true });

    let mut config = cli(false, true, Command::Download { yes: false, audio: "ja-JP".to_string() });
    assert_eq!(begin(&mut config), Step::PreCheck { level: LogLevel::Error });
    assert_eq!(config.command, Command::Download { yes: true, audio: "ja-JP".to_string() });
}

#[test]
fn run_that_is_not_quiet_leaves_the_command() {
    let mut config = cli(true, false, Command::Archive { yes: false });
    assert_eq!(begin(&mut config), Step::PreCheck { level: LogLevel::Debug });
    assert_eq!(config.command, Command::Archive { yes: false });

    let mut config = cli(false, false, Command::Download { yes: true, audio: "en-US".to_string() });
    assert_eq!(begin(&mut config), Step::PreCheck { level: LogLevel::Info });
    assert_eq!(config.command, Command::Download { yes: true, audio: "en-US".to_string() });
}

#[test]
fn enforce_quiet_touches_only_the_answer() {
    let mut command = Command::Search;
    enforce_quiet(&mut command, true);
    assert_eq!(command, Command::Search);
    let mut command = Command::Login { remove: false };
    enforce_quiet(&mut command, true);
    assert_eq!(command, Command::Login { remove: false });
    let mut command = Command::Archive { yes: false };
    enforce_quiet(&mut command, false);
    assert_eq!(command, Command::Archive { yes: false });
    enforce_quiet(&mut command, true);
    assert_eq!(command, Command::Archive { yes: true });
}

#[test]
fn removing_the_stored_session_skips_everything_else() {
    let mut config = cli(false, false, Command::Login { remove: true });
    let step = begin(&mut config);
    assert_eq!(step, Step::RemoveStoredSession { level: LogLevel::Info });
    assert_eq!(step.exit_code(), Some(0));
}

#[test]
fn login_and_search_are_checked_first() {
    let mut config = cli(false, false, Command::Login { remove: false });
    let step = begin(&mut config);
    assert_eq!(step, Step::PreCheck { level: LogLevel::Info });
    assert_eq!(step.exit_code(), None);
    let mut config = cli(false, true, Command::Search);
    assert_eq!(begin(&mut config), Step::PreCheck { level: LogLevel::Error });
    assert_eq!(config.command, Command::Search);
}

#[test]
fn passed_check_leads_to_the_context() {
    let step = after_pre_check(Ok(()));
    assert_eq!(step, Step::CreateContext);
    assert_eq!(step.exit_code(), None);
}

#[test]
fn failed_check_ends_the_run() {
    let step = after_pre_check(Err("ffmpeg is missing".to_string()));
    assert_eq!(
        step,
        Step::Fail { line: "Misconfigurations detected: ffmpeg is missing".to_string() }
    );
    assert_eq!(step.exit_code(), Some(1));
}

#[test]
fn context_leads_to_the_command() {
    let step = after_context(Ok(()));
    assert_eq!(step, Step::Execute);
    assert_eq!(step.exit_code(), None);
}

#[test]
fn missing_session_ends_the_run_with_its_reason() {
    let step = after_context(Err(SessionError::MultipleLoginMethods));
    assert_eq!(
        step,
        Step::Fail {
            line: "Please use only one login method ('--credentials' or '--anonymous')"
                .to_string()
        }
    );
    assert_eq!(step.exit_code(), Some(1));
}

#[test]
fn blocked_session_is_logged_as_the_service_tells_it() {
    let failure = RemoteFailure::Blocked {
        message: "Triggered Cloudflare bot protection".to_string(),
        body: "body".to_string(),
        url: "url".to_string(),
    };
    assert_eq!(
        after_context(Err(SessionError::Remote { failure })),
        Step::Fail { line: "Triggered Cloudflare bot protection (url): body".to_string() }
    );
}

#[test]
fn successful_command_ends_the_run_with_status_zero() {
    let step = after_command(Ok(()));
    assert_eq!(step, Step::Finish);
    assert_eq!(step.exit_code(), Some(0));
}

#[test]
fn failed_command_is_logged_once() {
    let step = after_command(Err(RemoteFailure::Other { message: "disk full".to_string() }));
    assert_eq!(step, Step::Fail { line: "An error occurred: disk full".to_string() });
    assert_eq!(step.exit_code(), Some(1));
}

#[test]
fn blocked_command_is_logged_as_advice() {
    let step = after_command(Err(RemoteFailure::Blocked {
        message: "Triggered Cloudflare bot protection".to_string(),
        body: "<html></html>".to_string(),
        url: "https://www.crunchyroll.com".to_string(),
    }));
    assert_eq!(
        step,
        Step::Fail {
            line: "An error occurred: Triggered Cloudflare bot protection. Try again later or use a VPN or proxy to spoof your location (https://www.crunchyroll.com): <html></html>".to_string()
        }
    );
}
