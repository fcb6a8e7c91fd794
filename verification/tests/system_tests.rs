use automata::sessionmgr::SessionMgr;
use automata::sessionmgr::SessionOperation;
use automata::sessionmgr::SessionRequest;
use automata::sysaction::find;
use automata::sysaction::try_run;
use automata::sysaction::Launch;
use automata::sysinfo::CatalogEntry;
use automata::sysinfo::DefaultApplicationType;
use automata::sysinfo::FileOpenError;
use automata::sysinfo::SysInfoLoader;

fn words(items: &[&str]) -> Vec<String> {
    items.iter().map(|s| s.to_string()).collect()
}

fn entry_with_command(command: Option<Vec<String>>) -> CatalogEntry {
    CatalogEntry {
        id: "org.example.App".to_string(),
        name: "App".to_string(),
        comment: None,
        icon: None,
        command,
        no_display: false,
    }
}

#[test]
fn session_mgr_allows_what_is_enabled() {
    let mgr = SessionMgr::new(true, false, true);
    assert!(mgr.enable_suspend);
    assert!(!mgr.enable_reboot);
    assert!(mgr.enable_poweroff);
    assert!(mgr.allows(&SessionOperation::Suspend));
    assert!(!mgr.allows(&SessionOperation::Reboot));
    assert!(mgr.allows(&SessionOperation::PowerOff));
}

#[test]
fn session_mgr_perform_asks_without_interaction() {
    let mgr = SessionMgr::new(true, true, true);
    assert_eq!(
        mgr.perform(&SessionOperation::Reboot),
        SessionRequest { operation: SessionOperation::Reboot, interactive: false }
    );
    assert_eq!(
        mgr.perform(&SessionOperation::Suspend),
        SessionRequest { operation: SessionOperation::Suspend, interactive: false }
    );
    assert_eq!(
        mgr.perform(&SessionOperation::PowerOff),
        SessionRequest { operation: SessionOperation::PowerOff, interactive: false }
    );
}

#[test]
fn try_run_splits_program_and_arguments() {
    assert_eq!(
        try_run(&words(&["ls", "-l", "/tmp"])),
        Some(Launch { program: "ls".to_string(), args: words(&["-l", "/tmp"]) })
    );
    assert_eq!(
        try_run(&words(&["firefox"])),
        Some(Launch { program: "firefox".to_string(), args: Vec::new() })
    );
}

#[test]
fn try_run_on_an_empty_command_starts_nothing() {
    assert_eq!(try_run(&Vec::new()), None);
}

#[test]
fn cmd_str_drops_placeholders() {
    assert_eq!(SysInfoLoader::cmd_str("firefox %u"), words(&["firefox"]));
    assert_eq!(
        SysInfoLoader::cmd_str("env A=1 app --open %F @@ x"),
        words(&["env", "A=1", "app", "--open", "x"])
    );
    assert_eq!(SysInfoLoader::cmd_str("nautilus"), words(&["nautilus"]));
    assert_eq!(SysInfoLoader::cmd_str(""), words(&[""]));
    assert_eq!(SysInfoLoader::cmd_str("a  b"), words(&["a", "", "b"]));
}

#[test]
fn cmd_of_an_entry_drops_placeholders() {
    let e = entry_with_command(Some(words(&["gimp", "%U", "--new", "user@host"])));
    assert_eq!(SysInfoLoader::cmd(&e), words(&["gimp", "--new"]));
}

#[test]
fn cmd_of_an_entry_without_command_is_empty() {
    let e = entry_with_command(None);
    assert_eq!(SysInfoLoader::cmd(&e), Vec::<String>::new());
}

#[test]
fn open_cmd_ends_with_the_target() {
    assert_eq!(
        SysInfoLoader::get_open_cmd("nautilus --new-window %U", "/home/u/docs"),
        words(&["nautilus", "--new-window", "/home/u/docs"])
    );
    assert_eq!(
        SysInfoLoader::get_open_cmd("firefox %u", "example.org/?q=a+b"),
        words(&["firefox", "example.org/?q=a+b"])
    );
}

#[test]
fn default_app_mime_by_kind() {
    assert_eq!(
        SysInfoLoader::default_app_mime(&DefaultApplicationType::FileExplorer),
        "inode/directory"
    );
    assert_eq!(SysInfoLoader::default_app_mime(&DefaultApplicationType::Browser), "text/html");
    assert_eq!(
        SysInfoLoader::default_app_mime(&DefaultApplicationType::Mime("image/png".to_string())),
        "image/png"
    );
}

#[test]
fn sys_info_loader_keeps_what_it_is_given() {
    let loader = SysInfoLoader::new(words(&["en_US", "en"]), vec![entry_with_command(None)]);
    assert_eq!(loader.locales, words(&["en_US", "en"]));
    assert_eq!(loader.desktop_entries.len(), 1);
    assert_eq!(loader.desktop_entries[0].id, "org.example.App");
}

#[test]
fn default_application_type_clone_is_equal() {
    let mime = DefaultApplicationType::Mime("text/plain".to_string());
    assert_eq!(mime.clone(), mime);
    assert_eq!(DefaultApplicationType::Browser.clone(), DefaultApplicationType::Browser);
}

#[test]
fn find_builds_the_search_command() {
    assert_eq!(find("/home/u", "notes"), words(&["find", "/home/u", "-name", "*notes*"]));
    assert_eq!(find("/", ""), words(&["find", "/", "-name", "**"]));
}

#[test]
fn default_app_cmd_is_what_the_resolver_found() {
    assert_eq!(
        SysInfoLoader::get_default_app_cmd(Some("firefox %u".to_string())),
        Ok("firefox %u".to_string())
    );
}

#[test]
fn default_app_cmd_without_default_application() {
    assert_eq!(SysInfoLoader::get_default_app_cmd(None), Err(FileOpenError::DefaultAppNotFound));
}

#[test]
fn default_app_entry_is_found_by_id() {
    let mut second = entry_with_command(None);
    second.id = "org.example.Other".to_string();
    let mut third = entry_with_command(Some(words(&["x"])));
    third.id = "org.example.Other".to_string();
    let loader = SysInfoLoader::new(Vec::new(), vec![entry_with_command(None), second, third]);
    let found = loader.get_mimetype_default_app("org.example.Other").unwrap();
    assert_eq!(found.id, "org.example.Other");
    assert_eq!(found.command, None);
    assert_eq!(loader.get_mimetype_default_app("org.example.App").unwrap().name, "App");
    assert!(loader.get_mimetype_default_app("org.example.Missing").is_none());
}
