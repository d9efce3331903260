use rattler_menuinst::lex::{quote_arg, quote_args};
use rattler_menuinst::text::join_strings;
use rattler_menuinst::tracker::{
    install_steps, removals, start_menu_subdir_removable, InstallStep, Removal, StepOutcome, Tracker,
};
use rattler_menuinst::windows::{
    path_join, system_root_or_default, Directories, KnownFolderPaths, MenuItemCommand, Windows, WindowsMenu,
};
use rattler_menuinst::{Folder, MenuInstError, MenuMode};

fn strings(items: &[&str]) -> Vec<String> {
    items.iter().map(|s| s.to_string()).collect()
}

fn command(args: &[&str], activate: bool, terminal: bool) -> MenuItemCommand {
    MenuItemCommand {
        name: "MyTool".to_string(),
        command: strings(args),
        precommand: None,
        precreate: None,
        icon: Some("C:\\env\\tool.ico".to_string()),
        description: "A tool".to_string(),
        working_dir: None,
        activate: Some(activate),
        terminal: Some(terminal),
    }
}

fn item() -> Windows {
    Windows {
        desktop: Some(true),
        quicklaunch: Some(false),
        file_extensions: Some(strings(&[".foo"])),
        url_protocols: None,
        terminal_profile: Some("MyTool".to_string()),
        app_user_model_id: None,
    }
}

fn menu(item: Windows, command: MenuItemCommand) -> WindowsMenu {
    WindowsMenu::new(
        "Tools",
        "C:\\env",
        item,
        command,
        Directories::fake_folders("C:\\root"),
        MenuMode::User,
    )
}

#[test]
fn quote_plain_argument_unchanged() {
    assert_eq!(quote_arg("tool.exe"), "tool.exe");
    assert_eq!(quote_arg("C:\\path\\x"), "C:\\path\\x");
}

#[test]
fn quote_whitespace_and_empty() {
    assert_eq!(quote_arg("a b"), "\"a b\"");
    assert_eq!(quote_arg("a\tb"), "\"a\tb\"");
    assert_eq!(quote_arg(""), "\"\"");
}

#[test]
fn quote_escapes_quotes_and_backslashes() {
    assert_eq!(quote_arg("a\"b"), "\"a\\\"b\"");
    assert_eq!(quote_arg("a\\\"b"), "\"a\\\\\\\"b\"");
    assert_eq!(quote_arg("C:\\Program Files\\"), "\"C:\\Program Files\\\\\"");
    assert_eq!(quote_arg("x\\y z"), "\"x\\y z\"");
}

#[test]
fn quote_args_joined() {
    let quoted = quote_args(&strings(&["tool.exe", "a b", "c"]));
    assert_eq!(join_strings(&quoted, " "), "tool.exe \"a b\" c");
}

#[test]
fn directories_require_start_menu_and_desktop() {
    let r = Directories::create(
        MenuMode::User,
        KnownFolderPaths {
            start_menu: None,
            quick_launch: None,
            desktop: Some("D".to_string()),
            terminal_settings_files: vec![],
        },
    );
    assert!(matches!(r, Err(MenuInstError::DirectoryResolution(Folder::Start))));
    let r = Directories::create(
        MenuMode::User,
        KnownFolderPaths {
            start_menu: Some("S".to_string()),
            quick_launch: None,
            desktop: None,
            terminal_settings_files: vec![],
        },
    );
    assert!(matches!(r, Err(MenuInstError::DirectoryResolution(Folder::Desktop))));
}

#[test]
fn directories_quick_launch_only_for_user() {
    let folders = || KnownFolderPaths {
        start_menu: Some("S".to_string()),
        quick_launch: Some("Q".to_string()),
        desktop: Some("D".to_string()),
        terminal_settings_files: strings(&["T1", "T2"]),
    };
    let user = Directories::create(MenuMode::User, folders()).unwrap();
    assert_eq!(user.start_menu, "S");
    assert_eq!(user.desktop, "D");
    assert_eq!(user.quick_launch.as_deref(), Some("Q"));
    assert_eq!(user.windows_terminal_settings_files, strings(&["T1", "T2"]));
    let system = Directories::create(MenuMode::System, folders()).unwrap();
    assert_eq!(system.quick_launch, None);
}

#[test]
fn fake_folders_under_root() {
    let d = Directories::fake_folders("C:\\root");
    assert_eq!(d.start_menu, "C:\\root\\Start Menu");
    assert_eq!(d.desktop, "C:\\root\\Desktop");
    assert_eq!(d.quick_launch.as_deref(), Some("C:\\root\\Quick Launch"));
    assert_eq!(d.windows_terminal_settings_files, strings(&["C:\\root\\terminal_settings.json"]));
}

#[test]
fn script_path_and_location() {
    let m = menu(item(), command(&["tool.exe"], false, false));
    assert_eq!(m.path_for_script(), "C:\\env\\Menu\\MyTool.bat");
    assert_eq!(
        WindowsMenu::shortcut_location(&m.directories, "MyTool"),
        "C:\\root\\Start Menu\\MyTool.lnk"
    );
}

#[test]
fn app_id_derived_and_override() {
    let mut c = command(&["tool.exe"], false, false);
    c.name = "My Tool.v2".to_string();
    let m = menu(item(), c);
    assert_eq!(m.app_id(), "Menuinst.my-toolv2");
    let mut it = item();
    it.app_user_model_id = Some("Custom.Id".to_string());
    let m = menu(it, command(&["tool.exe"], false, false));
    assert_eq!(m.app_id(), "Custom.Id");
}

#[test]
fn app_id_truncated_for_long_names() {
    let mut c = command(&["tool.exe"], false, false);
    c.name = "a".repeat(500);
    let m = menu(item(), c);
    let id = m.app_id();
    assert_eq!(id.chars().count(), 128);
    assert_eq!(id, format!("Menuinst.{}", "a".repeat(119)));
}

#[test]
fn build_command_without_activation() {
    let m = menu(item(), command(&["tool.exe", "--open"], false, false));
    assert_eq!(m.build_command(false, "C:\\Windows"), strings(&["tool.exe", "--open"]));
    assert_eq!(m.build_command(true, "C:\\Windows"), strings(&["tool.exe", "--open", "%1"]));
    let m = menu(item(), command(&["tool.exe", "%1"], false, false));
    assert_eq!(m.build_command(true, "C:\\Windows"), strings(&["tool.exe", "%1"]));
}

#[test]
fn build_command_activated_in_terminal() {
    let m = menu(item(), command(&["tool.exe"], true, true));
    assert_eq!(
        m.build_command(true, "C:\\Windows"),
        strings(&["C:\\Windows\\system32\\cmd.exe", "/D", "/K", "\"C:\\env\\Menu\\MyTool.bat\"", "%1"])
    );
    assert_eq!(
        m.build_command(false, "C:\\Windows"),
        strings(&["C:\\Windows\\system32\\cmd.exe", "/D", "/K", "\"C:\\env\\Menu\\MyTool.bat\""])
    );
}

#[test]
fn build_command_activated_hidden() {
    let m = menu(item(), command(&["tool.exe"], true, false));
    let r = m.build_command(true, "D:\\Win");
    assert_eq!(
        r,
        strings(&[
            "D:\\Win\\system32\\cmd.exe",
            "/D",
            "/C",
            "START",
            "/MIN",
            "\"\"",
            "D:\\Win\\system32\\WindowsPowerShell\\v1.0\\powershell.exe",
            "-WindowStyle",
            "hidden",
            "\"start 'C:\\env\\Menu\\MyTool.bat' %1 -WindowStyle hidden\"",
        ])
    );
}

#[test]
fn system_root_default() {
    assert_eq!(system_root_or_default(None), "C:\\Windows");
    assert_eq!(system_root_or_default(Some("E:\\W".to_string())), "E:\\W");
}

#[test]
fn activated_terminal_script_and_target() {
    let mut c = command(&["tool.exe", "a b"], true, true);
    c.precommand = Some("echo hi".to_string());
    let m = menu(item(), c);
    let env = vec![
        ("PATH".to_string(), "C:\\env;C:\\env\\Scripts".to_string()),
        ("CONDA_PREFIX".to_string(), "C:\\env".to_string()),
    ];
    let script = m.script_content(&env);
    assert_eq!(
        script,
        "@echo off\n:: Script generated by conda/menuinst\necho hi\nset \"PATH=C:\\env;C:\\env\\Scripts\"\nset \"CONDA_PREFIX=C:\\env\"\ntool.exe \"a b\""
    );
    assert_eq!(script.lines().filter(|l| l.starts_with("set ")).count(), env.len());
    let args = m.build_command(false, "C:\\Windows");
    let plan = m.shortcut_plan(&args).unwrap();
    assert_eq!(plan.shortcuts[0].target, "C:\\Windows\\system32\\cmd.exe");
    assert_eq!(plan.shortcuts[0].arguments, "/D /K \"\\\"C:\\env\\Menu\\MyTool.bat\\\"\"");
}

#[test]
fn script_without_activation_sets_nothing() {
    let m = menu(item(), command(&["tool.exe"], false, false));
    let env = vec![("PATH".to_string(), "x".to_string())];
    assert_eq!(m.script_content(&env), "@echo off\n:: Script generated by conda/menuinst\ntool.exe");
}

#[test]
fn shortcut_plan_start_menu_and_desktop() {
    let m = menu(item(), command(&["tool.exe", "--flag", "x y"], false, false));
    let args = m.build_command(false, "C:\\Windows");
    let plan = m.shortcut_plan(&args).unwrap();
    assert_eq!(plan.start_menu_subdir, "C:\\root\\Start Menu\\Tools");
    let links: Vec<&str> = plan.shortcuts.iter().map(|s| s.link_path.as_str()).collect();
    assert_eq!(links, vec!["C:\\root\\Start Menu\\Tools\\MyTool.lnk", "C:\\root\\Desktop\\MyTool.lnk"]);
    for s in &plan.shortcuts {
        assert_eq!(s.target, "tool.exe");
        assert_eq!(s.arguments, "--flag \"x y\"");
        assert_eq!(s.workdir, "%HOMEPATH%");
        assert_eq!(s.description, "A tool");
        assert_eq!(s.icon.as_deref(), Some("C:\\env\\tool.ico"));
        assert_eq!(s.app_id, "Menuinst.mytool");
    }
    assert!(m.shortcut_plan(&vec![]).is_none());
}

#[test]
fn shortcut_plan_quick_launch_and_no_desktop() {
    let mut it = item();
    it.desktop = Some(false);
    it.quicklaunch = Some(true);
    let m = menu(it, command(&["tool.exe"], false, false));
    let plan = m.shortcut_plan(&strings(&["tool.exe"])).unwrap();
    let links: Vec<&str> = plan.shortcuts.iter().map(|s| s.link_path.as_str()).collect();
    assert_eq!(links, vec!["C:\\root\\Start Menu\\Tools\\MyTool.lnk", "C:\\root\\Quick Launch\\MyTool.lnk"]);
}

#[test]
fn workdir_created_only_when_named() {
    let mut c = command(&["tool.exe"], false, false);
    assert!(menu(item(), command(&["tool.exe"], false, false)).workdir_to_create().is_none());
    c.working_dir = Some("C:\\work".to_string());
    let m = menu(item(), c);
    assert_eq!(m.workdir_to_create().as_deref(), Some("C:\\work"));
    assert_eq!(m.workdir(), "C:\\work");
}

#[test]
fn registrations_for_extensions_and_protocols() {
    let mut it = item();
    it.url_protocols = Some(strings(&["mytool"]));
    let m = menu(it, command(&["tool.exe"], false, false));
    let exts = m.file_extension_registrations("C:\\Windows");
    assert_eq!(exts.len(), 1);
    assert_eq!(exts[0].extension, ".foo");
    assert_eq!(exts[0].identifier, "MyTool.AssocFile.foo");
    assert_eq!(exts[0].command, "tool.exe %1");
    assert_eq!(exts[0].app_name, "MyTool");
    assert_eq!(exts[0].app_user_model_id, "Menuinst.mytool");
    let protos = m.url_protocol_registrations("C:\\Windows");
    assert_eq!(protos.len(), 1);
    assert_eq!(protos[0].identifier, "MyTool.Protocolmytool");
    assert_eq!(protos[0].app_user_model_id, "Menuinst.mytool");
    assert_eq!(protos[0].command, "tool.exe %1");
}

#[test]
fn no_registrations_without_entries() {
    let mut it = item();
    it.file_extensions = Some(vec![]);
    it.url_protocols = Some(vec![]);
    let m = menu(it, command(&["tool.exe"], false, false));
    assert!(m.file_extension_registrations("C:\\Windows").is_empty());
    assert!(m.url_protocol_registrations("C:\\Windows").is_empty());
    let mut it = item();
    it.file_extensions = None;
    let m = menu(it, command(&["tool.exe"], false, false));
    assert!(m.file_extension_registrations("C:\\Windows").is_empty());
    assert!(m.url_protocol_registrations("C:\\Windows").is_empty());
}

#[test]
fn terminal_profile_of_item() {
    let m = menu(item(), command(&["tool.exe"], false, false));
    let p = m.terminal_profile("C:\\Windows").unwrap();
    assert_eq!(p.name, "MyTool");
    assert_eq!(p.commandline, "tool.exe %1");
    assert_eq!(p.starting_directory, None);
    let mut it = item();
    it.terminal_profile = None;
    assert!(menu(it, command(&["tool.exe"], false, false)).terminal_profile("C:\\Windows").is_none());
}

fn recorded_install(m: &WindowsMenu, subdir_existed: bool) -> Tracker {
    let mut t = Tracker::new(m.menu_mode);
    let plan = m.install(&vec![], "C:\\Windows");
    for step in install_steps(plan, &m.directories.windows_terminal_settings_files) {
        let outcome = match step {
            InstallStep::StartMenuSubdir(_) if subdir_existed => StepOutcome::AlreadyExisted,
            _ => StepOutcome::Created,
        };
        assert!(t.record_step(&step, outcome));
    }
    t
}

#[test]
fn failed_step_stops_and_records_nothing() {
    let m = menu(item(), command(&["tool.exe"], false, false));
    let steps = install_steps(m.install(&vec![], "C:\\Windows"), &m.directories.windows_terminal_settings_files);
    assert_eq!(steps.len(), 1 + 2 + 1 + 1);
    assert!(matches!(&steps[0], InstallStep::StartMenuSubdir(p) if p == "C:\\root\\Start Menu\\Tools"));
    assert!(matches!(&steps[4], InstallStep::TerminalProfile(f, p) if f == "C:\\root\\terminal_settings.json" && p.name == "MyTool"));
    let mut t = Tracker::new(MenuMode::User);
    assert!(t.record_step(&steps[0], StepOutcome::Created));
    assert!(t.record_step(&steps[1], StepOutcome::Created));
    assert!(!t.record_step(&steps[2], StepOutcome::Failed));
    assert_eq!(t.start_menu_subdir_path.as_deref(), Some("C:\\root\\Start Menu\\Tools"));
    assert_eq!(t.shortcuts, strings(&["C:\\root\\Start Menu\\Tools\\MyTool.lnk"]));
}

#[test]
fn existing_subdir_not_recorded() {
    let m = menu(item(), command(&["tool.exe"], false, false));
    let steps = install_steps(m.install(&vec![], "C:\\Windows"), &m.directories.windows_terminal_settings_files);
    let mut t = Tracker::new(MenuMode::User);
    assert!(t.record_step(&steps[0], StepOutcome::AlreadyExisted));
    assert!(t.start_menu_subdir_path.is_none());
}

#[test]
fn path_join_after_trailing_separator() {
    let m = menu(item(), command(&["tool.exe"], true, true));
    assert_eq!(m.build_command(false, "C:\\Windows\\")[0], "C:\\Windows\\system32\\cmd.exe");
    assert_eq!(path_join("", "x"), "x");
    assert_eq!(path_join("a/", "x"), "a/x");
    assert_eq!(path_join("a", "x"), "a\\x");
}

#[test]
fn tracker_of_scenario_install() {
    let m = menu(item(), command(&["tool.exe"], false, false));
    let t = recorded_install(&m, true);
    assert_eq!(t.shortcuts, strings(&["C:\\root\\Start Menu\\Tools\\MyTool.lnk", "C:\\root\\Desktop\\MyTool.lnk"]));
    assert!(t.start_menu_subdir_path.is_none());
    assert_eq!(t.file_extensions.len(), 1);
    assert_eq!(t.file_extensions[0].extension, ".foo");
    assert!(t.url_protocols.is_empty());
    assert_eq!(t.terminal_profiles.len(), 1);
    assert_eq!(t.terminal_profiles[0].identifier, "MyTool");
    assert_eq!(t.terminal_profiles[0].configuration_file, "C:\\root\\terminal_settings.json");
}

#[test]
fn removals_cover_every_record() {
    let m = menu(item(), command(&["tool.exe"], false, false));
    let t = recorded_install(&m, false);
    let r = removals(&t);
    assert_eq!(r.len(), 2 + 1 + 1 + 1);
    assert!(matches!(&r[0], Removal::Shortcut(p) if p == "C:\\root\\Start Menu\\Tools\\MyTool.lnk"));
    assert!(matches!(&r[1], Removal::Shortcut(p) if p == "C:\\root\\Desktop\\MyTool.lnk"));
    assert!(matches!(&r[2], Removal::StartMenuSubdir(p) if p == "C:\\root\\Start Menu\\Tools"));
    assert!(matches!(&r[3], Removal::FileExtension(e) if e.identifier == "MyTool.AssocFile.foo"));
    assert!(matches!(&r[4], Removal::TerminalProfile(e) if e.identifier == "MyTool"));
}

#[test]
fn removal_plan_same_when_repeated() {
    let m = menu(item(), command(&["tool.exe"], false, false));
    let t = recorded_install(&m, false);
    let first = removals(&t);
    let second = removals(&t);
    assert_eq!(format!("{:?}", first), format!("{:?}", second));
    assert!(removals(&Tracker::new(MenuMode::System)).is_empty());
}

#[test]
fn start_menu_subdir_kept_while_shared() {
    assert!(!start_menu_subdir_removable(true, 1));
    assert!(start_menu_subdir_removable(true, 0));
    assert!(!start_menu_subdir_removable(false, 0));
}

#[test]
fn install_plan_of_scenario_item() {
    let m = menu(item(), command(&["tool.exe"], false, false));
    let plan = m.install(&vec![], "C:\\Windows");
    assert!(plan.script.is_none());
    assert!(plan.precreate.is_none());
    assert!(plan.workdir.is_none());
    let shortcuts = plan.shortcuts.unwrap();
    let links: Vec<&str> = shortcuts.shortcuts.iter().map(|s| s.link_path.as_str()).collect();
    assert_eq!(links, vec!["C:\\root\\Start Menu\\Tools\\MyTool.lnk", "C:\\root\\Desktop\\MyTool.lnk"]);
    assert_eq!(plan.file_extensions.len(), 1);
    assert_eq!(plan.file_extensions[0].extension, ".foo");
    assert!(plan.url_protocols.is_empty());
    assert_eq!(plan.terminal_profile.unwrap().name, "MyTool");
}

#[test]
fn install_plan_activated_in_terminal() {
    let mut c = command(&["tool.exe"], true, true);
    c.precreate = Some("mkdir x".to_string());
    let m = menu(item(), c);
    let env = vec![("A".to_string(), "1".to_string()), ("B".to_string(), "2".to_string())];
    let plan = m.install(&env, "C:\\Windows");
    let (path, content) = plan.script.unwrap();
    assert_eq!(path, "C:\\env\\Menu\\MyTool.bat");
    assert_eq!(content, "@echo off\n:: Script generated by conda/menuinst\nset \"A=1\"\nset \"B=2\"\ntool.exe");
    assert_eq!(plan.precreate.as_deref(), Some("mkdir x"));
    let s = &plan.shortcuts.unwrap().shortcuts[0];
    assert_eq!(s.target, "C:\\Windows\\system32\\cmd.exe");
    assert!(s.arguments.starts_with("/D /K "));
    assert_eq!(
        plan.file_extensions[0].command,
        "C:\\Windows\\system32\\cmd.exe /D /K \"C:\\env\\Menu\\MyTool.bat\" %1"
    );
}

#[test]
fn install_plan_skips_empty_precreate_and_associations() {
    let mut c = command(&["tool.exe"], false, false);
    c.precreate = Some(String::new());
    let mut it = item();
    it.file_extensions = Some(vec![]);
    it.url_protocols = Some(vec![]);
    let plan = menu(it, c).install(&vec![], "C:\\Windows");
    assert!(plan.precreate.is_none());
    assert!(plan.file_extensions.is_empty());
    assert!(plan.url_protocols.is_empty());
}
