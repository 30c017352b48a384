use aseprite_mcp::locate::{lookup_path, LocateAction, LocateEvent, Locator, Platform};

const STEAM: &str = "/home/u/.steam/debian-installation/steamapps/common/Aseprite/aseprite";

fn check(a: &LocateAction) -> Option<String> {
    match a {
        LocateAction::CheckExists(p) => Some(p.clone()),
        _ => None,
    }
}

#[test]
fn override_that_exists_wins() {
    let l = Locator::new(Platform::Linux, Some("/opt/ase/aseprite"), "/home/u");
    assert_eq!(check(&l.next_action()).as_deref(), Some("/opt/ase/aseprite"));
    let l = l.step(LocateEvent::Exists(true));
    assert!(matches!(l.next_action(), LocateAction::Finish));
    assert_eq!(l.into_result(), Some(Ok("/opt/ase/aseprite".to_string())));
}

#[test]
fn missing_override_falls_through_to_platform_search() {
    let l = Locator::new(Platform::Linux, Some("/nope/aseprite"), "/home/u");
    let l = l.step(LocateEvent::Exists(false));
    assert_eq!(check(&l.next_action()).as_deref(), Some(STEAM));
    let l = l.step(LocateEvent::Exists(false));
    assert!(matches!(l.next_action(), LocateAction::RunLookup));
    let l = l.step(LocateEvent::LookupDone(Some("/usr/bin/aseprite\n".to_string())));
    assert_eq!(check(&l.next_action()).as_deref(), Some("/usr/bin/aseprite"));
    let l = l.step(LocateEvent::Exists(true));
    assert_eq!(l.into_result(), Some(Ok("/usr/bin/aseprite".to_string())));
}

#[test]
fn linux_install_path_wins_over_lookup() {
    let l = Locator::new(Platform::Linux, None, "/home/u");
    assert_eq!(check(&l.next_action()).as_deref(), Some(STEAM));
    let l = l.step(LocateEvent::Exists(true));
    assert_eq!(l.into_result(), Some(Ok(STEAM.to_string())));
}

#[test]
fn linux_fails_when_nothing_exists() {
    let l = Locator::new(Platform::Linux, None, "/home/u");
    let l = l.step(LocateEvent::Exists(false));
    let l = l.step(LocateEvent::LookupDone(None));
    assert_eq!(
        l.into_result(),
        Some(Err("Could not find Aseprite executable. Please set the ASEPRITE_PATH environment variable to the full path of the Aseprite executable.".to_string()))
    );
}

#[test]
fn windows_order_then_where_first_line() {
    let mut l = Locator::new(Platform::Windows, None, "");
    let expected = [
        "C:\\Program Files\\Aseprite\\Aseprite.exe",
        "C:\\Program Files (x86)\\Steam\\steamapps\\common\\Aseprite\\Aseprite.exe",
        "C:\\Program Files\\Steam\\steamapps\\common\\Aseprite\\Aseprite.exe",
    ];
    for p in expected {
        assert_eq!(check(&l.next_action()).as_deref(), Some(p));
        l = l.step(LocateEvent::Exists(false));
    }
    assert!(matches!(l.next_action(), LocateAction::RunLookup));
    let l = l.step(LocateEvent::LookupDone(Some("D:\\A\\aseprite.exe\r\nE:\\other.exe\r\n".to_string())));
    assert_eq!(check(&l.next_action()).as_deref(), Some("D:\\A\\aseprite.exe"));
}

#[test]
fn macos_app_then_lookup() {
    let l = Locator::new(Platform::MacOs, None, "/Users/u");
    assert_eq!(
        check(&l.next_action()).as_deref(),
        Some("/Applications/Aseprite.app/Contents/MacOS/aseprite")
    );
    let l = l.step(LocateEvent::Exists(false));
    assert!(matches!(l.next_action(), LocateAction::RunLookup));
    let l = l.step(LocateEvent::LookupDone(Some(String::new())));
    assert!(matches!(l.into_result(), Some(Err(_))));
}

#[test]
fn other_platform_uses_lookup_only() {
    let l = Locator::new(Platform::Other, None, "");
    assert!(matches!(l.next_action(), LocateAction::RunLookup));
    let l = l.step(LocateEvent::LookupDone(None));
    assert!(matches!(l.into_result(), Some(Err(_))));
}

#[test]
fn lookup_output_forms() {
    assert_eq!(lookup_path("  /usr/bin/aseprite \n"), Some("/usr/bin/aseprite".to_string()));
    assert_eq!(lookup_path("/a/aseprite\n/b/aseprite\n"), Some("/a/aseprite".to_string()));
    assert_eq!(lookup_path(""), None);
    assert_eq!(lookup_path("C:\\a.exe\r\nC:\\b.exe"), Some("C:\\a.exe".to_string()));
}
