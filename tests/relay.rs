use download_relay::invocation::{download_invocation, upload_invocation};
use download_relay::job::{get_file_name, Action, Event, JobError, JobLoop, Phase, ToolOutcome};
use download_relay::query::{find_url_param, parse_request_target, BadRequest};
use download_relay::startup::{first_host, load_credentials, Config, CredentialRecord, StartupError};

fn relay() -> JobLoop {
    JobLoop::new(CredentialRecord { host: "ftp.home.lan".to_string() })
}

fn exited(status: Option<i32>, stdout: &str, stderr: &str) -> ToolOutcome {
    ToolOutcome::Exited { status, stdout: stdout.to_string(), stderr: stderr.to_string() }
}

fn texts(v: &[&str]) -> Vec<String> {
    v.iter().map(|s| s.to_string()).collect()
}

/// Runs a fresh loop up to the point where it waits for a request.
fn listening() -> JobLoop {
    let mut l = relay();
    let opening = JobLoop::opening_actions();
    assert!(matches!(opening.as_slice(), [Action::ClearDir]));
    let acts = l.step(Event::DirCleared);
    assert!(matches!(acts.as_slice(), [Action::AwaitRequest]));
    l
}

fn request(l: &mut JobLoop, target: &str) -> Vec<Action> {
    l.step(Event::RequestArrived { target: target.to_string() })
}

#[test]
fn full_job_downloads_answers_and_uploads() {
    let config = Config::new("/srv/scratch".to_string(), 9000).unwrap();
    assert_eq!(config.download_dir, "/srv/scratch");
    assert_eq!(config.port, 9000);
    let mut l = listening();
    let acts = request(&mut l, "/?url=http%3A%2F%2Fexample.com%2Fa.mp4");
    match acts.as_slice() {
        [Action::RunDownload { invocation }] => {
            assert_eq!(invocation.program, "svtplay-dl");
            assert_eq!(
                invocation.args,
                texts(&["-q", "2200", "-Q", "600", "--remux", "--silent-semi", "http://example.com/a.mp4"])
            );
        }
        other => panic!("unexpected actions {:?}", other),
    }
    assert!(matches!(&l.phase, Phase::Downloading { url } if url == "http://example.com/a.mp4"));
    let acts = l.step(Event::DownloadFinished { outcome: exited(Some(0), "", "") });
    assert!(matches!(acts.as_slice(), [Action::Respond { status: 200 }, Action::ListDir]));
    let acts = l.step(Event::DirListed { entries: texts(&["a.mp4"]) });
    match acts.as_slice() {
        [Action::RunUpload { invocation }] => {
            assert_eq!(invocation.program, "lftp");
            assert_eq!(
                invocation.args,
                texts(&["ftp.home.lan:21", "-e", "cd TvFromPi; put a.mp4; exit 0"])
            );
        }
        other => panic!("unexpected actions {:?}", other),
    }
    let acts = l.step(Event::UploadFinished { outcome: exited(Some(0), "", "") });
    assert!(matches!(acts.as_slice(), [Action::ClearDir]));
    assert!(matches!(l.phase, Phase::Clearing));
    assert_eq!(l.host, "ftp.home.lan");
}

#[test]
fn request_without_url_gets_500_and_no_download() {
    let mut l = listening();
    let acts = request(&mut l, "/?foo=bar");
    match acts.as_slice() {
        [Action::Respond { status: 500 }, Action::Log { error: JobError::BadRequest { kind, target } }, Action::ClearDir] => {
            assert_eq!(*kind, BadRequest::MissingUrl);
            assert_eq!(target, "/?foo=bar");
        }
        other => panic!("unexpected actions {:?}", other),
    }
    assert!(!acts.iter().any(|a| matches!(a, Action::RunDownload { .. } | Action::RunUpload { .. })));
    assert!(matches!(l.phase, Phase::Clearing));
}

#[test]
fn failed_download_gets_500_and_is_logged() {
    let mut l = listening();
    request(&mut l, "/?url=http%3A%2F%2Fexample.com%2Fa.mp4");
    let acts = l.step(Event::DownloadFinished { outcome: exited(Some(1), "", "network error") });
    match acts.as_slice() {
        [Action::Respond { status: 500 }, Action::Log { error }, Action::ClearDir] => {
            let logged = format!("{:?}", error);
            assert!(logged.contains("network error"));
            assert!(matches!(error, JobError::DownloadFailed { url, .. } if url == "http://example.com/a.mp4"));
        }
        other => panic!("unexpected actions {:?}", other),
    }
    assert!(!acts.iter().any(|a| matches!(a, Action::RunUpload { .. })));
    let acts = l.step(Event::DirCleared);
    assert!(matches!(acts.as_slice(), [Action::AwaitRequest]));
}

#[test]
fn invalid_encoding_gets_500() {
    let mut l = listening();
    let acts = request(&mut l, "/?url=%FF%FE");
    assert!(matches!(
        acts.as_slice(),
        [Action::Respond { status: 500 }, Action::Log { error: JobError::BadRequest { kind: BadRequest::InvalidEncoding, .. } }, Action::ClearDir]
    ));
    let acts = l.step(Event::DirCleared);
    assert!(matches!(acts.as_slice(), [Action::AwaitRequest]));
    let acts = request(&mut l, "/?url=abc");
    assert!(matches!(acts.as_slice(), [Action::RunDownload { .. }]));
}

#[test]
fn downloader_that_does_not_start_gets_500() {
    let mut l = listening();
    request(&mut l, "/?url=x");
    let acts = l.step(Event::DownloadFinished {
        outcome: ToolOutcome::NotLaunched { reason: "not found".to_string() },
    });
    assert!(matches!(acts.as_slice(), [Action::Respond { status: 500 }, Action::Log { .. }, Action::ClearDir]));
    let killed = exited(None, "", "");
    assert!(!killed.is_success());
    assert!(!exited(Some(2), "", "").is_success());
    assert!(exited(Some(0), "", "").is_success());
}

#[test]
fn next_request_served_after_failed_upload() {
    let mut l = listening();
    request(&mut l, "/?url=a");
    l.step(Event::DownloadFinished { outcome: exited(Some(0), "", "") });
    l.step(Event::DirListed { entries: texts(&["a.mp4"]) });
    let acts = l.step(Event::UploadFinished { outcome: exited(Some(1), "", "refused") });
    match acts.as_slice() {
        [Action::Log { error: JobError::UploadFailed { file, .. } }, Action::ClearDir] => assert_eq!(file, "a.mp4"),
        other => panic!("unexpected actions {:?}", other),
    }
    let acts = l.step(Event::DirCleared);
    assert!(matches!(acts.as_slice(), [Action::AwaitRequest]));
    let acts = request(&mut l, "/?url=b");
    assert!(matches!(acts.as_slice(), [Action::RunDownload { invocation }] if invocation.args[6] == "b"));
}

#[test]
fn next_request_served_after_failed_cleanup() {
    let mut l = relay();
    let acts = l.step(Event::ClearFailed { reason: "busy".to_string() });
    assert!(matches!(
        acts.as_slice(),
        [Action::Log { error: JobError::DirectoryCleanupFailed { .. } }, Action::AwaitRequest]
    ));
    let acts = request(&mut l, "/?url=b");
    assert!(matches!(acts.as_slice(), [Action::RunDownload { .. }]));
}

#[test]
fn empty_listing_is_no_artifact() {
    let mut l = listening();
    request(&mut l, "/?url=a");
    l.step(Event::DownloadFinished { outcome: exited(Some(0), "", "") });
    let acts = l.step(Event::DirListed { entries: Vec::new() });
    assert!(matches!(acts.as_slice(), [Action::Log { error: JobError::NoArtifactFound }, Action::ClearDir]));
}

#[test]
fn failed_listing_is_logged() {
    let mut l = listening();
    request(&mut l, "/?url=a");
    l.step(Event::DownloadFinished { outcome: exited(Some(0), "", "") });
    let acts = l.step(Event::ListFailed { reason: "denied".to_string() });
    assert!(matches!(acts.as_slice(), [Action::Log { error: JobError::ListingFailed { .. } }, Action::ClearDir]));
}

#[test]
fn receive_failure_and_unexpected_events_go_back_to_clearing() {
    let mut l = listening();
    let acts = l.step(Event::ReceiveFailed { reason: "reset".to_string() });
    assert!(matches!(acts.as_slice(), [Action::Log { error: JobError::ReceiveFailed { .. } }, Action::ClearDir]));
    let mut l = listening();
    let acts = l.step(Event::DirCleared);
    assert!(matches!(acts.as_slice(), [Action::Log { error: JobError::UnexpectedEvent }, Action::ClearDir]));
    assert!(matches!(l.phase, Phase::Clearing));
}

#[test]
fn first_listed_file_is_uploaded() {
    let entries = texts(&["a.mp4", "b.mp4"]);
    assert_eq!(get_file_name(&entries).unwrap(), "a.mp4");
    assert!(matches!(get_file_name(&Vec::new()), Err(JobError::NoArtifactFound)));
}

#[test]
fn url_parameter_is_found_among_others() {
    assert_eq!(find_url_param("/watch?x=1&url=abc&url=def").unwrap(), "abc");
    assert_eq!(find_url_param("/?url=").unwrap(), "");
    assert_eq!(find_url_param("/?url=a%20b").unwrap(), "a%20b");
    assert!(find_url_param("/url=abc").is_none());
    assert!(find_url_param("/?urlx=1").is_none());
    assert!(find_url_param("/?url").is_none());
    assert!(find_url_param("").is_none());
}

#[test]
fn request_target_is_percent_decoded() {
    assert_eq!(
        parse_request_target("/?url=http%3A%2F%2Fexample.com%2Fa.mp4").unwrap(),
        "http://example.com/a.mp4"
    );
    assert_eq!(parse_request_target("/?url=%C3%A5%20x").unwrap(), "\u{e5} x");
    assert_eq!(parse_request_target("/?url=100%").unwrap(), "100%");
    assert_eq!(parse_request_target("/?foo=bar"), Err(BadRequest::MissingUrl));
    assert_eq!(parse_request_target("/?url=%FF"), Err(BadRequest::InvalidEncoding));
}

#[test]
fn command_lines_of_the_tools() {
    let d = download_invocation("u");
    assert_eq!(d.args.len(), 7);
    assert_eq!(d.args[6], "u");
    let u = upload_invocation("10.0.0.2", "my file.mkv");
    assert_eq!(u.args, texts(&["10.0.0.2:21", "-e", "cd TvFromPi; put my file.mkv; exit 0"]));
}

#[test]
fn config_is_checked() {
    assert!(Config::new("/srv/scratch".to_string(), 1).is_ok());
    assert!(Config::new("/srv/scratch".to_string(), 65535).is_ok());
    assert!(matches!(Config::new("/srv/scratch".to_string(), 0), Err(StartupError::ConfigError)));
    assert!(matches!(Config::new("scratch".to_string(), 9000), Err(StartupError::ConfigError)));
    assert!(matches!(Config::new(String::new(), 9000), Err(StartupError::ConfigError)));
}

#[test]
fn first_host_of_credentials_file() {
    let text = "machine ftp.home.lan login pi password pw\nmachine other.lan login x password y\n";
    assert_eq!(load_credentials(text).unwrap().host, "ftp.home.lan");
    assert!(matches!(load_credentials(""), Err(StartupError::CredentialsUnavailable)));
    assert!(matches!(load_credentials("bogus entry"), Err(StartupError::CredentialsUnavailable)));
    assert!(matches!(load_credentials("default login a password b"), Err(StartupError::CredentialsUnavailable)));
    assert!(matches!(first_host(None), Err(StartupError::CredentialsUnavailable)));
    assert!(matches!(first_host(Some(Vec::new())), Err(StartupError::CredentialsUnavailable)));
    assert_eq!(first_host(Some(texts(&["h1", "h2"]))).unwrap().host, "h1");
}

#[test]
fn credentials_outside_ascii_are_unparsable() {
    let text = "machine h\u{e5}st.lan login a password b";
    assert!(matches!(load_credentials(text), Err(StartupError::CredentialsUnavailable)));
}

#[test]
fn job_begins_from_a_parsed_target() {
    let mut l = listening();
    let acts = l.begin_job("/?url=x".to_string(), Ok("http://h/v".to_string()));
    assert!(matches!(acts.as_slice(), [Action::RunDownload { invocation }] if invocation.args[6] == "http://h/v"));
    assert!(matches!(&l.phase, Phase::Downloading { url } if url == "http://h/v"));
    let mut l = listening();
    let acts = l.begin_job("/?url=%FF".to_string(), Err(BadRequest::InvalidEncoding));
    assert!(matches!(
        acts.as_slice(),
        [Action::Respond { status: 500 }, Action::Log { error: JobError::BadRequest { kind: BadRequest::InvalidEncoding, .. } }, Action::ClearDir]
    ));
}
