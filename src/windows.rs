//! Menu entries on Windows: where they go, what they launch, and the record
//! of what was created.
use vstd::prelude::*;
use vstd::string::*;
use crate::{Folder, MenuInstError, MenuMode};
use crate::text::{concat, join, join_strings, lemma_views_push, push_char, views};
use crate::lex::{quote_command_line, quoted_line};

verus! {

/// The path `part` inside the directory `base`.
/// An empty base gives `part` alone, and no separator is added after one
/// that ends the base already.
pub open spec fn join_path(base: Seq<char>, part: Seq<char>) -> Seq<char> {
    if base.len() == 0 {
        part
    } else if base.last() == '\\' || base.last() == '/' {
        base + part
    } else {
        base + seq!['\\'] + part
    }
}

/// Joins a directory and an entry name with the platform's separator.
pub fn path_join(base: &str, part: &str) -> (r: String)
    ensures
        r@ == join_path(base@, part@),
{
    let n = base.unicode_len();
    if n == 0 {
        return String::from_str(part);
    }
    let last = base.get_char(n - 1);
    let mut out = String::from_str(base);
    if last != '\\' && last != '/' {
        push_char(&mut out, '\\');
    }
    out.append(part);
    out
}

/// A copy of an optional string.
pub fn clone_option(o: &Option<String>) -> (r: Option<String>)
    ensures
        r == *o,
{
    match o {
        Some(s) => Some(s.clone()),
        None => None,
    }
}

/// Whose special folders are meant.
#[derive(Clone, Copy, Debug, PartialEq, Eq, Structural)]
pub enum UserHandle {
    /// The folders of the user who runs the installation.
    Current,
    /// The folders shared by all users.
    Common,
}

pub open spec fn user_handle_spec(mode: MenuMode) -> UserHandle {
    match mode {
        MenuMode::System => UserHandle::Common,
        MenuMode::User => UserHandle::Current,
    }
}

/// The scope whose special folders an installation in `mode` uses.
pub fn user_handle(mode: MenuMode) -> (r: UserHandle)
    ensures
        r == user_handle_spec(mode),
{
    match mode {
        MenuMode::System => UserHandle::Common,
        MenuMode::User => UserHandle::Current,
    }
}

/// What the shell answered when asked for the special folders of one scope:
/// `None` where a folder could not be queried.
pub struct KnownFolderPaths {
    pub start_menu: Option<String>,
    pub quick_launch: Option<String>,
    pub desktop: Option<String>,
    /// The terminal settings files that were found (none without a terminal).
    pub terminal_settings_files: Vec<String>,
}

/// The locations that one installation or removal works with.
pub struct Directories {
    pub start_menu: String,
    /// Only for installations for the current user, and only where the
    /// folder could be queried.
    pub quick_launch: Option<String>,
    pub desktop: String,
    pub windows_terminal_settings_files: Vec<String>,
}

impl Directories {
    /// Takes the locations from the special folders of the scope that
    /// `user_handle(menu_mode)` names. The start menu and the desktop are
    /// required; the quick-launch folder is optional and used for the current
    /// user only.
    pub fn create(menu_mode: MenuMode, folders: KnownFolderPaths) -> (r: Result<Directories, MenuInstError>)
        ensures
            folders.start_menu.is_none() ==> r == Err::<Directories, MenuInstError>(
                MenuInstError::DirectoryResolution(Folder::Start),
            ),
            folders.start_menu.is_some() && folders.desktop.is_none() ==> r == Err::<Directories, MenuInstError>(
                MenuInstError::DirectoryResolution(Folder::Desktop),
            ),
            folders.start_menu.is_some() && folders.desktop.is_some() ==> r.is_ok(),
            r.is_ok() ==> ({
                let d = r.unwrap();
                &&& Some(d.start_menu) == folders.start_menu
                &&& Some(d.desktop) == folders.desktop
                &&& d.quick_launch == (if menu_mode == MenuMode::User {
                    folders.quick_launch
                } else {
                    None
                })
                &&& d.windows_terminal_settings_files == folders.terminal_settings_files
            }),
    {
        let KnownFolderPaths { start_menu, quick_launch, desktop, terminal_settings_files } = folders;
        let start_menu = match start_menu {
            Some(p) => p,
            None => return Err(MenuInstError::DirectoryResolution(Folder::Start)),
        };
        let desktop = match desktop {
            Some(p) => p,
            None => return Err(MenuInstError::DirectoryResolution(Folder::Desktop)),
        };
        let quick_launch = match menu_mode {
            MenuMode::User => quick_launch,
            MenuMode::System => None,
        };
        Ok(Directories {
            start_menu,
            quick_launch,
            desktop,
            windows_terminal_settings_files: terminal_settings_files,
        })
    }

    /// Locations under one root directory, for trying installations out
    /// without touching the user's own folders.
    pub fn fake_folders(path: &str) -> (r: Directories)
        ensures
            r.start_menu@ == join_path(path@, "Start Menu"@),
            r.quick_launch.is_some(),
            r.quick_launch.unwrap()@ == join_path(path@, "Quick Launch"@),
            r.desktop@ == join_path(path@, "Desktop"@),
            r.windows_terminal_settings_files@.len() == 1,
            r.windows_terminal_settings_files@[0]@ == join_path(path@, "terminal_settings.json"@),
    {
        let terminal_settings_json = path_join(path, "terminal_settings.json");
        let start_menu = path_join(path, "Start Menu");
        let quick_launch = Some(path_join(path, "Quick Launch"));
        let desktop = path_join(path, "Desktop");
        Directories {
            start_menu,
            quick_launch,
            desktop,
            windows_terminal_settings_files: vec![terminal_settings_json],
        }
    }
}

} // verus!

verus! {

/// The launch command of a menu item, with its templates already resolved.
pub struct MenuItemCommand {
    /// The display name of the item.
    pub name: String,
    /// The program and its arguments.
    pub command: Vec<String>,
    /// Code that the launch script runs before the command.
    pub precommand: Option<String>,
    /// Code that runs once, before the shortcuts are created.
    pub precreate: Option<String>,
    pub icon: Option<String>,
    pub description: String,
    pub working_dir: Option<String>,
    /// Whether the prefix's environment is activated before launching.
    pub activate: Option<bool>,
    /// Whether the command runs in a terminal window.
    pub terminal: Option<bool>,
}

/// The Windows part of a menu item's description, with its templates
/// already resolved.
pub struct Windows {
    /// Whether a desktop shortcut is created (by default it is).
    pub desktop: Option<bool>,
    /// Whether a quick-launch shortcut is created (by default it is not).
    pub quicklaunch: Option<bool>,
    pub file_extensions: Option<Vec<String>>,
    pub url_protocols: Option<Vec<String>>,
    pub terminal_profile: Option<String>,
    pub app_user_model_id: Option<String>,
}

/// One menu item, ready to be installed.
pub struct WindowsMenu {
    pub menu_name: String,
    pub prefix: String,
    pub name: String,
    pub item: Windows,
    pub command: MenuItemCommand,
    pub directories: Directories,
    pub menu_mode: MenuMode,
}

/// The most characters that the platform allows in an application identity.
pub const MAX_APP_ID_LEN: usize = 128;

/// The most characters of the item's slug that a derived application
/// identity keeps: what the limit leaves after the `Menuinst.` prefix.
pub const MAX_APP_ID_NAME_LEN: usize = 119;

/// Shortcuts are files with this extension.
pub open spec fn link_name_spec(name: Seq<char>) -> Seq<char> {
    name + ".lnk"@
}

/// What one character of a name becomes in a derived application identity:
/// ASCII letters (in lower case) and digits stay, a space, `-` or `_`
/// becomes `-`, and anything else (`.` among them) is left out.
pub open spec fn slug_char(c: char) -> Seq<char> {
    if 'a' <= c <= 'z' || '0' <= c <= '9' {
        seq![c]
    } else if 'A' <= c <= 'Z' {
        seq![((c as u32) + 32) as char]
    } else if c == ' ' || c == '-' || c == '_' {
        seq!['-']
    } else {
        Seq::empty()
    }
}

/// The first `n` characters of a name, turned into an identity.
pub open spec fn slug_prefix(s: Seq<char>, n: nat) -> Seq<char>
    decreases n,
{
    if n == 0 {
        Seq::empty()
    } else {
        slug_prefix(s, (n - 1) as nat) + slug_char(s[n - 1])
    }
}

pub open spec fn slug(s: Seq<char>) -> Seq<char> {
    slug_prefix(s, s.len())
}

/// The application identity derived from a name.
pub open spec fn derived_app_id(name: Seq<char>) -> Seq<char> {
    let sl = slug(name);
    "Menuinst."@ + sl.take(if sl.len() < MAX_APP_ID_NAME_LEN { sl.len() as int } else { MAX_APP_ID_NAME_LEN as int })
}

impl WindowsMenu {
    /// Where the start-menu shortcut of an item named `name` goes; templates
    /// of the item may refer to it.
    pub fn shortcut_location(directories: &Directories, name: &str) -> (r: String)
        ensures
            r@ == join_path(directories.start_menu@, link_name_spec(name@)),
    {
        let link = concat(name, ".lnk");
        path_join(directories.start_menu.as_str(), link.as_str())
    }

    pub fn new(
        menu_name: &str,
        prefix: &str,
        item: Windows,
        command: MenuItemCommand,
        directories: Directories,
        menu_mode: MenuMode,
    ) -> (r: Self)
        ensures
            r.menu_name@ == menu_name@,
            r.prefix@ == prefix@,
            r.name == command.name,
            r.item == item,
            r.command == command,
            r.directories == directories,
            r.menu_mode == menu_mode,
    {
        let name = command.name.clone();
        WindowsMenu {
            menu_name: String::from_str(menu_name),
            prefix: String::from_str(prefix),
            name,
            item,
            command,
            directories,
            menu_mode,
        }
    }

    pub open spec fn script_path_spec(&self) -> Seq<char> {
        join_path(join_path(self.prefix@, "Menu"@), self.name@ + ".bat"@)
    }

    /// Where the launch script of an activated item is written.
    pub fn path_for_script(&self) -> (r: String)
        ensures
            r@ == self.script_path_spec(),
    {
        let dir = path_join(self.prefix.as_str(), "Menu");
        let file = concat(self.name.as_str(), ".bat");
        path_join(dir.as_str(), file.as_str())
    }

    /// The icon of the item.
    pub fn icon(&self) -> (r: Option<String>)
        ensures
            r == self.command.icon,
    {
        clone_option(&self.command.icon)
    }

    pub open spec fn app_id_spec(&self) -> Seq<char> {
        match self.item.app_user_model_id {
            Some(id) => id@,
            None => derived_app_id(self.name@),
        }
    }

    /// The application identity of the item's shortcuts: the one the item
    /// gives, or else one derived from its name, which never holds more
    /// than `MAX_APP_ID_NAME_LEN` characters of it, so that it is never
    /// longer than `MAX_APP_ID_LEN`.
    pub fn app_id(&self) -> (r: String)
        ensures
            r@ == self.app_id_spec(),
            self.item.app_user_model_id.is_none() ==> r@.len() <= MAX_APP_ID_LEN,
    {
        match &self.item.app_user_model_id {
            Some(id) => id.clone(),
            None => {
                let name = self.name.as_str();
                let n = name.unicode_len();
                let mut sl = String::new();
                let mut i: usize = 0;
                while i < n
                    invariant
                        i <= n,
                        n == name@.len(),
                        sl@ == slug_prefix(name@, i as nat),
                    decreases n - i,
                {
                    let c = name.get_char(i);
                    if ('a' <= c && c <= 'z') || ('0' <= c && c <= '9') {
                        push_char(&mut sl, c);
                    } else if 'A' <= c && c <= 'Z' {
                        let lower = ((c as u32) + 32) as u8 as char;
                        assert(lower == ((c as u32) + 32) as char);
                        push_char(&mut sl, lower);
                    } else if c == ' ' || c == '-' || c == '_' {
                        push_char(&mut sl, '-');
                    }
                    i = i + 1;
                    assert(sl@ =~= slug_prefix(name@, i as nat));
                }
                let m = sl.unicode_len();
                let keep = if m < MAX_APP_ID_NAME_LEN { m } else { MAX_APP_ID_NAME_LEN };
                let mut out = String::from_str("Menuinst.");
                let mut j: usize = 0;
                while j < keep
                    invariant
                        j <= keep,
                        keep <= m,
                        m == sl@.len(),
                        out@ == "Menuinst."@ + sl@.take(j as int),
                    decreases keep - j,
                {
                    push_char(&mut out, sl.as_str().get_char(j));
                    j = j + 1;
                    assert(out@ =~= "Menuinst."@ + sl@.take(j as int));
                }
                proof {
                    reveal_strlit("Menuinst.");
                }
                out
            },
        }
    }
}

} // verus!

verus! {

/// Whether the argument holds the token that the shell replaces by the
/// file or URL that was opened.
pub open spec fn has_invocation_token(s: Seq<char>) -> bool {
    exists|i: int| #![trigger s[i]] 0 <= i && i + 1 < s.len() && s[i] == '%' && s[i + 1] == '1'
}

/// One line of the launch script that sets an environment variable.
pub open spec fn set_line(key: Seq<char>, value: Seq<char>) -> Seq<char> {
    "set \""@ + key + "="@ + value + "\""@
}

/// The system root that is used where the environment names none.
pub open spec fn default_system_root() -> Seq<char> {
    "C:\\Windows"@
}

/// The system root named by the environment, or the usual one.
pub fn system_root_or_default(found: Option<String>) -> (r: String)
    ensures
        found.is_some() ==> r == found.unwrap(),
        found.is_none() ==> r@ == default_system_root(),
{
    match found {
        Some(root) => root,
        None => String::from_str("C:\\Windows"),
    }
}

/// Whether the argument holds the invocation token `%1`.
pub fn contains_invocation_token(s: &str) -> (r: bool)
    ensures
        r == has_invocation_token(s@),
{
    let n = s.unicode_len();
    let mut i: usize = 0;
    while i < n && i + 1 < n
        invariant
            n == s@.len(),
            forall|j: int| #![trigger s@[j]] 0 <= j < i && j + 1 < n ==> !(s@[j] == '%' && s@[j + 1] == '1'),
        decreases n - i,
    {
        if s.get_char(i) == '%' && s.get_char(i + 1) == '1' {
            return true;
        }
        i = i + 1;
    }
    false
}

pub open spec fn system32_spec(system_root: Seq<char>) -> Seq<char> {
    join_path(system_root, "system32"@)
}

pub open spec fn cmd_exe_spec(system_root: Seq<char>) -> Seq<char> {
    join_path(system32_spec(system_root), "cmd.exe"@)
}

pub open spec fn powershell_spec(system_root: Seq<char>) -> Seq<char> {
    join_path(join_path(join_path(system32_spec(system_root), "WindowsPowerShell"@), "v1.0"@), "powershell.exe"@)
}

impl WindowsMenu {
    pub open spec fn activates(&self) -> bool {
        self.command.activate == Some(true)
    }

    pub open spec fn in_terminal(&self) -> bool {
        self.command.terminal == Some(true)
    }

    /// The argument vector that launches the item. With `with_arg1` the
    /// invocation token is passed on as well.
    pub open spec fn build_command_spec(&self, with_arg1: bool, system_root: Seq<char>) -> Seq<Seq<char>> {
        let script = self.script_path_spec();
        if self.activates() {
            if self.in_terminal() {
                let base = seq![cmd_exe_spec(system_root), "/D"@, "/K"@, seq!['"'] + script + seq!['"']];
                if with_arg1 {
                    base.push("%1"@)
                } else {
                    base
                }
            } else {
                seq![
                    cmd_exe_spec(system_root),
                    "/D"@,
                    "/C"@,
                    "START"@,
                    "/MIN"@,
                    "\"\""@,
                    powershell_spec(system_root),
                    "-WindowStyle"@,
                    "hidden"@,
                    "\"start '"@ + script + "' "@ + (if with_arg1 { "%1 "@ } else { ""@ })
                        + "-WindowStyle hidden\""@,
                ]
            }
        } else {
            let args = views(self.command.command@);
            if with_arg1 && !(exists|i: int| 0 <= i < args.len() && has_invocation_token(#[trigger] args[i])) {
                args.push("%1"@)
            } else {
                args
            }
        }
    }

    /// The argument vector that launches the item, for the given system
    /// root. An activated item is launched through its launch script (which
    /// the caller writes, see `script_content`): in a command shell that
    /// stays open when it runs in a terminal, else in a hidden window.
    pub fn build_command(&self, with_arg1: bool, system_root: &str) -> (r: Vec<String>)
        ensures
            views(r@) == self.build_command_spec(with_arg1, system_root@),
    {
        let system32 = path_join(system_root, "system32");
        let cmd_exe = path_join(system32.as_str(), "cmd.exe");
        if self.command.activate == Some(true) {
            let script_path = self.path_for_script();
            let mut quoted_script = String::new();
            push_char(&mut quoted_script, '"');
            quoted_script.append(script_path.as_str());
            push_char(&mut quoted_script, '"');
            assert(quoted_script@ =~= seq!['"'] + self.script_path_spec() + seq!['"']);
            if self.command.terminal == Some(true) {
                let mut command: Vec<String> = vec![cmd_exe, String::from_str("/D"), String::from_str("/K"), quoted_script];
                let ghost base = views(command@);
                assert(base =~= seq![cmd_exe_spec(system_root@), "/D"@, "/K"@, seq!['"'] + self.script_path_spec() + seq!['"']]);
                if with_arg1 {
                    let token = String::from_str("%1");
                    proof {
                        lemma_views_push(command@, token);
                    }
                    command.push(token);
                }
                command
            } else {
                let d1 = path_join(system32.as_str(), "WindowsPowerShell");
                let d2 = path_join(d1.as_str(), "v1.0");
                let powershell = path_join(d2.as_str(), "powershell.exe");
                let mut last = String::from_str("\"start '");
                last.append(script_path.as_str());
                last.append("' ");
                if with_arg1 {
                    last.append("%1 ");
                }
                last.append("-WindowStyle hidden\"");
                let command: Vec<String> = vec![
                    cmd_exe,
                    String::from_str("/D"),
                    String::from_str("/C"),
                    String::from_str("START"),
                    String::from_str("/MIN"),
                    String::from_str("\"\""),
                    powershell,
                    String::from_str("-WindowStyle"),
                    String::from_str("hidden"),
                    last,
                ];
                proof {
                    reveal_strlit("");
                    assert(""@ =~= Seq::<char>::empty());
                }
                assert(views(command@) =~= self.build_command_spec(with_arg1, system_root@));
                command
            }
        } else {
            let mut command: Vec<String> = Vec::new();
            let mut has_token = false;
            let mut i: usize = 0;
            while i < self.command.command.len()
                invariant
                    i <= self.command.command@.len(),
                    views(command@) == views(self.command.command@).take(i as int),
                    has_token == (exists|j: int| 0 <= j < i && has_invocation_token(#[trigger] views(self.command.command@)[j])),
                decreases self.command.command.len() - i,
            {
                let arg = self.command.command[i].clone();
                assert(views(self.command.command@)[i as int] == arg@);
                if contains_invocation_token(arg.as_str()) {
                    has_token = true;
                }
                proof {
                    lemma_views_push(command@, arg);
                }
                command.push(arg);
                i = i + 1;
                assert(views(command@) =~= views(self.command.command@).take(i as int));
            }
            assert(views(command@) =~= views(self.command.command@));
            if with_arg1 && !has_token {
                let token = String::from_str("%1");
                proof {
                    lemma_views_push(command@, token);
                }
                command.push(token);
            }
            command
        }
    }

    /// The lines of the launch script of an activated item, given the
    /// variables that activating the prefix sets.
    pub open spec fn script_lines_spec(&self, env: Seq<(String, String)>) -> Seq<Seq<char>> {
        let head = seq!["@echo off"@, ":: Script generated by conda/menuinst"@];
        let pre = match self.command.precommand {
            Some(p) => seq![p@],
            None => Seq::empty(),
        };
        let sets = if self.activates() {
            Seq::new(env.len(), |i: int| set_line(env[i].0@, env[i].1@))
        } else {
            Seq::empty()
        };
        head + pre + sets + seq![quoted_line(views(self.command.command@))]
    }

    /// The text of the launch script, given the variables that activating
    /// the prefix sets (in the order in which they are set).
    pub fn script_content(&self, activation_env: &Vec<(String, String)>) -> (r: String)
        ensures
            r@ == join(self.script_lines_spec(activation_env@), "\n"@),
    {
        let mut lines: Vec<String> = vec![String::from_str("@echo off"), String::from_str(":: Script generated by conda/menuinst")];
        match &self.command.precommand {
            Some(p) => {
                proof {
                    lemma_views_push(lines@, *p);
                }
                lines.push(p.clone());
            },
            None => {},
        }
        let ghost start = views(lines@);
        if self.command.activate == Some(true) {
            let mut i: usize = 0;
            while i < activation_env.len()
                invariant
                    i <= activation_env@.len(),
                    views(lines@) == start + Seq::new(i as nat, |j: int| set_line(activation_env@[j].0@, activation_env@[j].1@)),
                decreases activation_env.len() - i,
            {
                let (k, v) = &activation_env[i];
                let mut line = String::from_str("set \"");
                line.append(k.as_str());
                line.append("=");
                line.append(v.as_str());
                line.append("\"");
                assert(line@ == set_line(activation_env@[i as int].0@, activation_env@[i as int].1@));
                proof {
                    lemma_views_push(lines@, line);
                }
                lines.push(line);
                i = i + 1;
                assert(views(lines@) =~= start + Seq::new(i as nat, |j: int| set_line(activation_env@[j].0@, activation_env@[j].1@)));
            }
        }
        let line = quote_command_line(&self.command.command);
        proof {
            lemma_views_push(lines@, line);
        }
        lines.push(line);
        assert(views(lines@) =~= self.script_lines_spec(activation_env@));
        join_strings(&lines, "\n")
    }
}

} // verus!

verus! {

/// One shortcut to create.
pub struct Shortcut {
    /// The program that the shortcut starts.
    pub target: String,
    /// The arguments of the program, as one quoted command line.
    pub arguments: String,
    pub description: String,
    /// Where the shortcut file goes.
    pub link_path: String,
    pub workdir: String,
    pub icon: Option<String>,
    pub app_id: String,
}

/// The shortcuts of one item: all in the menu's start-menu subfolder, and
/// on the desktop and in the quick-launch folder where those are enabled.
pub struct ShortcutPlan {
    /// The start-menu subfolder, to be created where it does not exist yet.
    pub start_menu_subdir: String,
    pub shortcuts: Vec<Shortcut>,
}

/// The working directory that stands for the user's home.
pub open spec fn home_workdir() -> Seq<char> {
    "%HOMEPATH%"@
}

impl WindowsMenu {
    pub open spec fn workdir_spec(&self) -> Seq<char> {
        match self.command.working_dir {
            Some(w) => w@,
            None => home_workdir(),
        }
    }

    /// The working directory of the item's shortcuts.
    pub fn workdir(&self) -> (r: String)
        ensures
            r@ == self.workdir_spec(),
    {
        match &self.command.working_dir {
            Some(w) => w.clone(),
            None => String::from_str("%HOMEPATH%"),
        }
    }

    /// The working directory that has to exist before the shortcuts are
    /// created: one that the item names, unless it is the user's home.
    pub fn workdir_to_create(&self) -> (r: Option<String>)
        ensures
            r.is_some() <==> (self.command.working_dir.is_some() && self.workdir_spec() != home_workdir()),
            r.is_some() ==> r.unwrap()@ == self.workdir_spec(),
    {
        match &self.command.working_dir {
            Some(w) => {
                let home = String::from_str("%HOMEPATH%");
                if *w == home {
                    None
                } else {
                    Some(w.clone())
                }
            },
            None => None,
        }
    }

    pub open spec fn start_menu_subdir_spec(&self) -> Seq<char> {
        join_path(self.directories.start_menu@, self.menu_name@)
    }

    pub open spec fn wants_desktop(&self) -> bool {
        self.item.desktop != Some(false)
    }

    pub open spec fn wants_quick_launch(&self) -> bool {
        self.directories.quick_launch.is_some() && self.item.quicklaunch == Some(true)
    }

    /// Where the item's shortcuts go, in the order in which they are created.
    pub open spec fn link_paths_spec(&self) -> Seq<Seq<char>> {
        let link = link_name_spec(self.name@);
        let start = seq![join_path(self.start_menu_subdir_spec(), link)];
        let desktop = if self.wants_desktop() {
            seq![join_path(self.directories.desktop@, link)]
        } else {
            Seq::empty()
        };
        let quick = if self.wants_quick_launch() {
            seq![join_path(self.directories.quick_launch.unwrap()@, link)]
        } else {
            Seq::empty()
        };
        start + desktop + quick
    }

    /// What the shortcuts for the argument vector `args` are.
    pub open spec fn shortcut_plan_spec(&self, args: Seq<Seq<char>>, r: Option<ShortcutPlan>) -> bool {
        &&& (r.is_none() <==> args.len() == 0)
        &&& r.is_some() ==> ({
            let p = r.unwrap();
            &&& p.start_menu_subdir@ == self.start_menu_subdir_spec()
            &&& p.shortcuts@.len() == self.link_paths_spec().len()
            &&& forall|i: int| 0 <= i < p.shortcuts@.len() ==> {
                let s = #[trigger] p.shortcuts@[i];
                &&& s.link_path@ == self.link_paths_spec()[i]
                &&& s.target@ == args[0]
                &&& s.arguments@ == quoted_line(args.drop_first())
                &&& s.description == self.command.description
                &&& s.workdir@ == self.workdir_spec()
                &&& s.icon == self.command.icon
                &&& s.app_id@ == self.app_id_spec()
            }
        })
    }

    /// The shortcuts that launch `args`, the item's built command; none
    /// where the command is empty.
    pub fn shortcut_plan(&self, args: &Vec<String>) -> (r: Option<ShortcutPlan>)
        ensures
            self.shortcut_plan_spec(views(args@), r),
    {
        if args.len() == 0 {
            return None;
        }
        let mut rest: Vec<String> = Vec::new();
        let mut i: usize = 1;
        while i < args.len()
            invariant
                1 <= i <= args@.len(),
                views(rest@) == views(args@).subrange(1, i as int),
            decreases args.len() - i,
        {
            let a = args[i].clone();
            proof {
                lemma_views_push(rest@, a);
            }
            rest.push(a);
            i = i + 1;
            assert(views(rest@) =~= views(args@).subrange(1, i as int));
        }
        assert(views(rest@) =~= views(args@).drop_first());
        let arguments = quote_command_line(&rest);
        let workdir = self.workdir();
        let app_id = self.app_id();
        let link_name = concat(self.name.as_str(), ".lnk");
        let subdir = path_join(self.directories.start_menu.as_str(), self.menu_name.as_str());

        let mut paths: Vec<String> = Vec::new();
        paths.push(path_join(subdir.as_str(), link_name.as_str()));
        if self.item.desktop != Some(false) {
            paths.push(path_join(self.directories.desktop.as_str(), link_name.as_str()));
        }
        match &self.directories.quick_launch {
            Some(q) => {
                if self.item.quicklaunch == Some(true) {
                    paths.push(path_join(q.as_str(), link_name.as_str()));
                }
            },
            None => {},
        }
        assert(views(paths@) =~= self.link_paths_spec());

        let mut shortcuts: Vec<Shortcut> = Vec::new();
        let mut j: usize = 0;
        while j < paths.len()
            invariant
                j <= paths@.len(),
                views(paths@) == self.link_paths_spec(),
                shortcuts@.len() == j,
                arguments@ == quoted_line(views(args@).drop_first()),
                workdir@ == self.workdir_spec(),
                app_id@ == self.app_id_spec(),
                args@.len() > 0,
                forall|k: int| 0 <= k < j ==> {
                    let s = #[trigger] shortcuts@[k];
                    &&& s.link_path@ == self.link_paths_spec()[k]
                    &&& s.target == args@[0]
                    &&& s.arguments@ == quoted_line(views(args@).drop_first())
                    &&& s.description == self.command.description
                    &&& s.workdir@ == self.workdir_spec()
                    &&& s.icon == self.command.icon
                    &&& s.app_id@ == self.app_id_spec()
                },
            decreases paths.len() - j,
        {
            assert(views(paths@)[j as int] == paths@[j as int]@);
            shortcuts.push(Shortcut {
                target: args[0].clone(),
                arguments: arguments.clone(),
                description: self.command.description.clone(),
                link_path: paths[j].clone(),
                workdir: workdir.clone(),
                icon: self.icon(),
                app_id: app_id.clone(),
            });
            j = j + 1;
        }
        Some(ShortcutPlan { start_menu_subdir: subdir, shortcuts })
    }
}

} // verus!

verus! {

/// An association of a file extension with the item.
pub struct FileExtensionRegistration {
    pub extension: String,
    pub identifier: String,
    /// The command line that opens a file; `%1` stands for the file.
    pub command: String,
    pub icon: Option<String>,
    pub app_name: String,
    pub app_user_model_id: String,
}

/// An association of a URL protocol with the item.
pub struct UrlProtocolRegistration {
    pub protocol: String,
    pub identifier: String,
    /// The command line that opens a URL; `%1` stands for the URL.
    pub command: String,
    pub icon: Option<String>,
    pub app_name: String,
    pub app_user_model_id: String,
}

/// A launch profile for the terminal; its name is also its identifier.
pub struct TerminalProfile {
    pub name: String,
    pub icon: Option<String>,
    pub commandline: String,
    pub starting_directory: Option<String>,
}

impl WindowsMenu {
    /// The command line of associations and terminal profiles.
    pub open spec fn association_command_spec(&self, system_root: Seq<char>) -> Seq<char> {
        join(self.build_command_spec(true, system_root), " "@)
    }

    /// The command line that associations and terminal profiles launch.
    pub fn association_command(&self, system_root: &str) -> (r: String)
        ensures
            r@ == self.association_command_spec(system_root@),
    {
        let args = self.build_command(true, system_root);
        join_strings(&args, " ")
    }

    /// The file extensions that the item asks for.
    pub open spec fn file_extensions_spec(&self) -> Seq<String> {
        match self.item.file_extensions {
            Some(v) => v@,
            None => Seq::empty(),
        }
    }

    /// The URL protocols that the item asks for.
    pub open spec fn url_protocols_spec(&self) -> Seq<String> {
        match self.item.url_protocols {
            Some(v) => v@,
            None => Seq::empty(),
        }
    }

    /// What the file-extension associations of the item are.
    pub open spec fn file_extension_registrations_spec(&self, system_root: Seq<char>, r: Seq<FileExtensionRegistration>) -> bool {
        &&& r.len() == self.file_extensions_spec().len()
        &&& forall|i: int| 0 <= i < r.len() ==> {
            let e = #[trigger] r[i];
            let ext = self.file_extensions_spec()[i];
            &&& e.extension == ext
            &&& e.identifier@ == self.name@ + ".AssocFile"@ + ext@
            &&& e.command@ == self.association_command_spec(system_root)
            &&& e.icon == self.command.icon
            &&& e.app_name == self.name
            &&& e.app_user_model_id@ == self.app_id_spec()
        }
    }

    /// One association for each file extension of the item, in order.
    pub fn file_extension_registrations(&self, system_root: &str) -> (r: Vec<FileExtensionRegistration>)
        ensures
            self.file_extension_registrations_spec(system_root@, r@),
    {
        let mut out: Vec<FileExtensionRegistration> = Vec::new();
        let extensions = match &self.item.file_extensions {
            Some(v) => v,
            None => return out,
        };
        let command = self.association_command(system_root);
        let app_user_model_id = self.app_id();
        let mut i: usize = 0;
        while i < extensions.len()
            invariant
                i <= extensions@.len(),
                extensions@ == self.file_extensions_spec(),
                out@.len() == i,
                command@ == self.association_command_spec(system_root@),
                app_user_model_id@ == self.app_id_spec(),
                forall|k: int| 0 <= k < i ==> {
                    let e = #[trigger] out@[k];
                    let ext = self.file_extensions_spec()[k];
                    &&& e.extension == ext
                    &&& e.identifier@ == self.name@ + ".AssocFile"@ + ext@
                    &&& e.command@ == self.association_command_spec(system_root@)
                    &&& e.icon == self.command.icon
                    &&& e.app_name == self.name
                    &&& e.app_user_model_id@ == self.app_id_spec()
                },
            decreases extensions.len() - i,
        {
            let extension = extensions[i].clone();
            let mut identifier = concat(self.name.as_str(), ".AssocFile");
            identifier.append(extension.as_str());
            out.push(FileExtensionRegistration {
                extension,
                identifier,
                command: command.clone(),
                icon: self.icon(),
                app_name: self.name.clone(),
                app_user_model_id: app_user_model_id.clone(),
            });
            i = i + 1;
        }
        out
    }

    /// What the URL-protocol associations of the item are.
    pub open spec fn url_protocol_registrations_spec(&self, system_root: Seq<char>, r: Seq<UrlProtocolRegistration>) -> bool {
        &&& r.len() == self.url_protocols_spec().len()
        &&& forall|i: int| 0 <= i < r.len() ==> {
            let e = #[trigger] r[i];
            let protocol = self.url_protocols_spec()[i];
            &&& e.protocol == protocol
            &&& e.identifier@ == self.name@ + ".Protocol"@ + protocol@
            &&& e.command@ == self.association_command_spec(system_root)
            &&& e.icon == self.command.icon
            &&& e.app_name == self.name
            &&& e.app_user_model_id@ == self.app_id_spec()
        }
    }

    /// One association for each URL protocol of the item, in order.
    pub fn url_protocol_registrations(&self, system_root: &str) -> (r: Vec<UrlProtocolRegistration>)
        ensures
            self.url_protocol_registrations_spec(system_root@, r@),
    {
        let mut out: Vec<UrlProtocolRegistration> = Vec::new();
        let protocols = match &self.item.url_protocols {
            Some(v) => v,
            None => return out,
        };
        if protocols.len() == 0 {
            return out;
        }
        let command = self.association_command(system_root);
        let app_user_model_id = self.app_id();
        let mut i: usize = 0;
        while i < protocols.len()
            invariant
                i <= protocols@.len(),
                protocols@ == self.url_protocols_spec(),
                out@.len() == i,
                command@ == self.association_command_spec(system_root@),
                app_user_model_id@ == self.app_id_spec(),
                forall|k: int| 0 <= k < i ==> {
                    let e = #[trigger] out@[k];
                    let protocol = self.url_protocols_spec()[k];
                    &&& e.protocol == protocol
                    &&& e.identifier@ == self.name@ + ".Protocol"@ + protocol@
                    &&& e.command@ == self.association_command_spec(system_root@)
                    &&& e.icon == self.command.icon
                    &&& e.app_name == self.name
                    &&& e.app_user_model_id@ == self.app_id_spec()
                },
            decreases protocols.len() - i,
        {
            let protocol = protocols[i].clone();
            let mut identifier = concat(self.name.as_str(), ".Protocol");
            identifier.append(protocol.as_str());
            out.push(UrlProtocolRegistration {
                protocol,
                identifier,
                command: command.clone(),
                icon: self.icon(),
                app_name: self.name.clone(),
                app_user_model_id: app_user_model_id.clone(),
            });
            i = i + 1;
        }
        out
    }

    /// What the terminal profile of the item is.
    pub open spec fn terminal_profile_spec(&self, system_root: Seq<char>, r: Option<TerminalProfile>) -> bool {
        &&& r.is_some() <==> self.item.terminal_profile.is_some()
        &&& r.is_some() ==> ({
            let p = r.unwrap();
            &&& p.name == self.item.terminal_profile.unwrap()
            &&& p.icon == self.command.icon
            &&& p.commandline@ == self.association_command_spec(system_root)
            &&& p.starting_directory == self.command.working_dir
        })
    }

    /// The terminal profile of the item, where it asks for one.
    pub fn terminal_profile(&self, system_root: &str) -> (r: Option<TerminalProfile>)
        ensures
            self.terminal_profile_spec(system_root@, r),
    {
        match &self.item.terminal_profile {
            Some(name) => Some(TerminalProfile {
                name: name.clone(),
                icon: self.icon(),
                commandline: self.association_command(system_root),
                starting_directory: clone_option(&self.command.working_dir),
            }),
            None => None,
        }
    }
}

} // verus!

verus! {

/// An item that asks for no file extensions and no URL protocols gets no
/// associations of either kind, so installing it writes none.
pub proof fn lemma_no_associations_without_entries(
    m: WindowsMenu,
    system_root: Seq<char>,
    extensions: Seq<FileExtensionRegistration>,
    protocols: Seq<UrlProtocolRegistration>,
)
    requires
        m.item.file_extensions.is_none() || m.item.file_extensions.unwrap()@.len() == 0,
        m.item.url_protocols.is_none() || m.item.url_protocols.unwrap()@.len() == 0,
        m.file_extension_registrations_spec(system_root, extensions),
        m.url_protocol_registrations_spec(system_root, protocols),
    ensures
        extensions.len() == 0,
        protocols.len() == 0,
{
}

/// A derived application identity is never longer than its prefix and
/// `MAX_APP_ID_NAME_LEN` characters, so never longer than `MAX_APP_ID_LEN`,
/// however long the name is.
pub proof fn lemma_app_id_bounded(name: Seq<char>)
    ensures
        derived_app_id(name).len() <= MAX_APP_ID_LEN,
{
    reveal_strlit("Menuinst.");
}

} // verus!

verus! {

/// Everything that installing one item does, in the order in which it is
/// done: write the launch script (for an activated item), run the precreate
/// code, create the working directory and the shortcuts, write the
/// file-extension and then the URL-protocol associations, add the terminal
/// profile to each terminal settings file, and tell the shell that
/// associations changed.
pub struct InstallPlan {
    /// The path and text of the launch script.
    pub script: Option<(String, String)>,
    /// Code to run once, before anything else is created.
    pub precreate: Option<String>,
    pub workdir: Option<String>,
    pub shortcuts: Option<ShortcutPlan>,
    pub file_extensions: Vec<FileExtensionRegistration>,
    pub url_protocols: Vec<UrlProtocolRegistration>,
    pub terminal_profile: Option<TerminalProfile>,
}

impl WindowsMenu {
    /// The plan of the item's installation, given the variables that
    /// activating the prefix sets and the system root. Nothing of it is
    /// skipped: the caller carries out the steps in order and stops at the
    /// first that fails.
    pub fn install(&self, activation_env: &Vec<(String, String)>, system_root: &str) -> (r: InstallPlan)
        ensures
            r.script.is_some() <==> self.activates(),
            r.script.is_some() ==> r.script.unwrap().0@ == self.script_path_spec(),
            r.script.is_some() ==> r.script.unwrap().1@ == join(self.script_lines_spec(activation_env@), "\n"@),
            r.precreate.is_some() <==> (self.command.precreate.is_some() && self.command.precreate.unwrap()@.len() > 0),
            r.precreate.is_some() ==> r.precreate == self.command.precreate,
            r.workdir.is_some() <==> (self.command.working_dir.is_some() && self.workdir_spec() != home_workdir()),
            r.workdir.is_some() ==> r.workdir.unwrap()@ == self.workdir_spec(),
            self.shortcut_plan_spec(self.build_command_spec(false, system_root@), r.shortcuts),
            self.file_extension_registrations_spec(system_root@, r.file_extensions@),
            self.url_protocol_registrations_spec(system_root@, r.url_protocols@),
            self.terminal_profile_spec(system_root@, r.terminal_profile),
    {
        let script = if self.command.activate == Some(true) {
            Some((self.path_for_script(), self.script_content(activation_env)))
        } else {
            None
        };
        let precreate = match &self.command.precreate {
            Some(code) => {
                if code.as_str().unicode_len() == 0 {
                    None
                } else {
                    Some(code.clone())
                }
            },
            None => None,
        };
        let args = self.build_command(false, system_root);
        InstallPlan {
            script,
            precreate,
            workdir: self.workdir_to_create(),
            shortcuts: self.shortcut_plan(&args),
            file_extensions: self.file_extension_registrations(system_root),
            url_protocols: self.url_protocol_registrations(system_root),
            terminal_profile: self.terminal_profile(system_root),
        }
    }
}

} // verus!
