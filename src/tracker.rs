//! The record of what one installation created, and how it is undone.
//!
//! An installation records each artifact right after it was created, so
//! that removal can undo exactly what was done without the item's
//! description.
use vstd::prelude::*;
use crate::MenuMode;
use crate::windows::{
    clone_option, FileExtensionRegistration, InstallPlan, Shortcut, ShortcutPlan, TerminalProfile, UrlProtocolRegistration,
};

verus! {

/// A registered file extension and the identifier of its association.
#[derive(Debug)]
pub struct FileExtensionEntry {
    pub extension: String,
    pub identifier: String,
}

/// A registered URL protocol and the identifier of its association.
#[derive(Debug)]
pub struct UrlProtocolEntry {
    pub protocol: String,
    pub identifier: String,
}

/// A terminal profile and the settings file it was added to.
#[derive(Debug)]
pub struct TerminalProfileEntry {
    pub configuration_file: String,
    pub identifier: String,
}

impl FileExtensionEntry {
    pub fn duplicate(&self) -> (r: Self)
        ensures
            r == *self,
    {
        FileExtensionEntry { extension: self.extension.clone(), identifier: self.identifier.clone() }
    }
}

impl UrlProtocolEntry {
    pub fn duplicate(&self) -> (r: Self)
        ensures
            r == *self,
    {
        UrlProtocolEntry { protocol: self.protocol.clone(), identifier: self.identifier.clone() }
    }
}

impl TerminalProfileEntry {
    pub fn duplicate(&self) -> (r: Self)
        ensures
            r == *self,
    {
        TerminalProfileEntry {
            configuration_file: self.configuration_file.clone(),
            identifier: self.identifier.clone(),
        }
    }
}

/// Everything that one installation of a menu item created.
#[derive(Debug)]
pub struct Tracker {
    pub menu_mode: MenuMode,
    /// The shortcut files, in the order in which they were created.
    pub shortcuts: Vec<String>,
    /// The start-menu subfolder, where the installation created it.
    pub start_menu_subdir_path: Option<String>,
    pub file_extensions: Vec<FileExtensionEntry>,
    pub url_protocols: Vec<UrlProtocolEntry>,
    pub terminal_profiles: Vec<TerminalProfileEntry>,
}

impl Tracker {
    /// A record of nothing yet.
    pub fn new(menu_mode: MenuMode) -> (r: Self)
        ensures
            r.menu_mode == menu_mode,
            r.shortcuts@.len() == 0,
            r.start_menu_subdir_path.is_none(),
            r.file_extensions@.len() == 0,
            r.url_protocols@.len() == 0,
            r.terminal_profiles@.len() == 0,
    {
        Tracker {
            menu_mode,
            shortcuts: Vec::new(),
            start_menu_subdir_path: None,
            file_extensions: Vec::new(),
            url_protocols: Vec::new(),
            terminal_profiles: Vec::new(),
        }
    }
}

/// What a tracker holds, as mathematical values.
pub struct TrackerView {
    pub menu_mode: MenuMode,
    pub shortcuts: Seq<String>,
    pub start_menu_subdir_path: Option<String>,
    pub file_extensions: Seq<FileExtensionEntry>,
    pub url_protocols: Seq<UrlProtocolEntry>,
    pub terminal_profiles: Seq<TerminalProfileEntry>,
}

impl View for Tracker {
    type V = TrackerView;

    open spec fn view(&self) -> TrackerView {
        TrackerView {
            menu_mode: self.menu_mode,
            shortcuts: self.shortcuts@,
            start_menu_subdir_path: self.start_menu_subdir_path,
            file_extensions: self.file_extensions@,
            url_protocols: self.url_protocols@,
            terminal_profiles: self.terminal_profiles@,
        }
    }
}

/// One step of an installation that creates something removal has to undo.
pub enum InstallStep {
    /// Make sure the start-menu subfolder exists.
    StartMenuSubdir(String),
    Shortcut(Shortcut),
    FileExtension(FileExtensionRegistration),
    UrlProtocol(UrlProtocolRegistration),
    /// Add the profile to the terminal settings file at the given path.
    TerminalProfile(String, TerminalProfile),
}

/// How a step went.
#[derive(Clone, Copy, Debug, PartialEq, Eq, Structural)]
pub enum StepOutcome {
    /// The step created its artifact.
    Created,
    /// The artifact was there before (a start-menu subfolder that another
    /// item made): it is not this installation's to remove.
    AlreadyExisted,
    /// The step failed; the installation stops here.
    Failed,
}

/// The tracker after a step: the artifact is recorded exactly when the step
/// created it.
pub open spec fn after_step(t: TrackerView, step: InstallStep, outcome: StepOutcome) -> TrackerView {
    if outcome != StepOutcome::Created {
        t
    } else {
        match step {
            InstallStep::StartMenuSubdir(p) => TrackerView { start_menu_subdir_path: Some(p), ..t },
            InstallStep::Shortcut(s) => TrackerView { shortcuts: t.shortcuts.push(s.link_path), ..t },
            InstallStep::FileExtension(e) => TrackerView {
                file_extensions: t.file_extensions.push(
                    FileExtensionEntry { extension: e.extension, identifier: e.identifier },
                ),
                ..t
            },
            InstallStep::UrlProtocol(e) => TrackerView {
                url_protocols: t.url_protocols.push(
                    UrlProtocolEntry { protocol: e.protocol, identifier: e.identifier },
                ),
                ..t
            },
            InstallStep::TerminalProfile(f, p) => TrackerView {
                terminal_profiles: t.terminal_profiles.push(
                    TerminalProfileEntry { configuration_file: f, identifier: p.name },
                ),
                ..t
            },
        }
    }
}

impl Tracker {
    /// Takes the outcome of one step into the record. Returns whether the
    /// installation goes on: it stops at the first step that failed.
    pub fn record_step(&mut self, step: &InstallStep, outcome: StepOutcome) -> (go_on: bool)
        ensures
            final(self)@ == after_step(old(self)@, *step, outcome),
            go_on == (outcome != StepOutcome::Failed),
    {
        if outcome == StepOutcome::Created {
            match step {
                InstallStep::StartMenuSubdir(p) => {
                    self.start_menu_subdir_path = Some(p.clone());
                },
                InstallStep::Shortcut(s) => {
                    self.shortcuts.push(s.link_path.clone());
                },
                InstallStep::FileExtension(e) => {
                    self.file_extensions.push(
                        FileExtensionEntry { extension: e.extension.clone(), identifier: e.identifier.clone() },
                    );
                },
                InstallStep::UrlProtocol(e) => {
                    self.url_protocols.push(
                        UrlProtocolEntry { protocol: e.protocol.clone(), identifier: e.identifier.clone() },
                    );
                },
                InstallStep::TerminalProfile(f, p) => {
                    self.terminal_profiles.push(
                        TerminalProfileEntry { configuration_file: f.clone(), identifier: p.name.clone() },
                    );
                },
            }
        }
        outcome != StepOutcome::Failed
    }
}

impl TerminalProfile {
    pub fn duplicate(&self) -> (r: Self)
        ensures
            r == *self,
    {
        TerminalProfile {
            name: self.name.clone(),
            icon: clone_option(&self.icon),
            commandline: self.commandline.clone(),
            starting_directory: clone_option(&self.starting_directory),
        }
    }
}

/// The steps of a plan that removal has to be able to undo, in order: the
/// start-menu subfolder and the shortcuts, the file-extension and URL-protocol
/// associations, and the terminal profile once for each settings file.
pub open spec fn install_steps_spec(plan: InstallPlan, settings_files: Seq<String>) -> Seq<InstallStep> {
    (match plan.shortcuts {
        Some(sp) => seq![InstallStep::StartMenuSubdir(sp.start_menu_subdir)]
            + sp.shortcuts@.map_values(|s: Shortcut| InstallStep::Shortcut(s)),
        None => Seq::empty(),
    }) + plan.file_extensions@.map_values(|e: FileExtensionRegistration| InstallStep::FileExtension(e))
        + plan.url_protocols@.map_values(|e: UrlProtocolRegistration| InstallStep::UrlProtocol(e))
        + (match plan.terminal_profile {
        Some(p) => settings_files.map_values(|f: String| InstallStep::TerminalProfile(f, p)),
        None => Seq::empty(),
    })
}

/// The steps of `plan` that removal has to be able to undo, in the order
/// in which they are carried out.
pub fn install_steps(plan: InstallPlan, settings_files: &Vec<String>) -> (r: Vec<InstallStep>)
    ensures
        r@ == install_steps_spec(plan, settings_files@),
{
    let ghost whole = plan;
    let InstallPlan { script: _, precreate: _, workdir: _, shortcuts, file_extensions, url_protocols, terminal_profile } = plan;
    let mut out: Vec<InstallStep> = Vec::new();
    match shortcuts {
        Some(sp) => {
            let ghost all = sp.shortcuts@;
            let ShortcutPlan { start_menu_subdir, shortcuts: mut list } = sp;
            out.push(InstallStep::StartMenuSubdir(start_menu_subdir));
            let ghost before = out@;
            let ghost mut k: int = 0;
            while list.len() > 0
                invariant
                    0 <= k,
                    k + list@.len() == all.len(),
                    list@ == all.skip(k),
                    out@ == before + all.take(k).map_values(|s: Shortcut| InstallStep::Shortcut(s)),
                decreases list.len(),
            {
                let s = list.remove(0);
                out.push(InstallStep::Shortcut(s));
                proof {
                    k = k + 1;
                }
                assert(list@ =~= all.skip(k));
                assert(out@ =~= before + all.take(k).map_values(|s: Shortcut| InstallStep::Shortcut(s)));
            }
            assert(all.take(k) =~= all);
        },
        None => {},
    }
    let ghost before = out@;
    let ghost all = file_extensions@;
    let mut list = file_extensions;
    let ghost mut k: int = 0;
    while list.len() > 0
        invariant
            0 <= k,
                    k + list@.len() == all.len(),
            list@ == all.skip(k),
            out@ == before + all.take(k).map_values(|e: FileExtensionRegistration| InstallStep::FileExtension(e)),
        decreases list.len(),
    {
        let e = list.remove(0);
        out.push(InstallStep::FileExtension(e));
        proof {
            k = k + 1;
        }
        assert(list@ =~= all.skip(k));
        assert(out@ =~= before + all.take(k).map_values(|e: FileExtensionRegistration| InstallStep::FileExtension(e)));
    }
    assert(all.take(k) =~= all);
    let ghost before = out@;
    let ghost all = url_protocols@;
    let mut list = url_protocols;
    let ghost mut k: int = 0;
    while list.len() > 0
        invariant
            0 <= k,
                    k + list@.len() == all.len(),
            list@ == all.skip(k),
            out@ == before + all.take(k).map_values(|e: UrlProtocolRegistration| InstallStep::UrlProtocol(e)),
        decreases list.len(),
    {
        let e = list.remove(0);
        out.push(InstallStep::UrlProtocol(e));
        proof {
            k = k + 1;
        }
        assert(list@ =~= all.skip(k));
        assert(out@ =~= before + all.take(k).map_values(|e: UrlProtocolRegistration| InstallStep::UrlProtocol(e)));
    }
    assert(all.take(k) =~= all);
    let ghost before = out@;
    match terminal_profile {
        Some(p) => {
            let mut i: usize = 0;
            while i < settings_files.len()
                invariant
                    i <= settings_files@.len(),
                    out@ == before + settings_files@.take(i as int).map_values(|f: String| InstallStep::TerminalProfile(f, p)),
                decreases settings_files.len() - i,
            {
                out.push(InstallStep::TerminalProfile(settings_files[i].clone(), p.duplicate()));
                i = i + 1;
                assert(out@ =~= before + settings_files@.take(i as int).map_values(|f: String| InstallStep::TerminalProfile(f, p)));
            }
            assert(settings_files@.take(i as int) =~= settings_files@);
        },
        None => {},
    }
    assert(out@ =~= install_steps_spec(whole, settings_files@));
    out
}

/// One artifact to remove.
#[derive(Debug)]
pub enum Removal {
    Shortcut(String),
    /// The start-menu subfolder: removed only where it is empty by then,
    /// since other items may have shortcuts in it.
    StartMenuSubdir(String),
    FileExtension(FileExtensionEntry),
    UrlProtocol(UrlProtocolEntry),
    TerminalProfile(TerminalProfileEntry),
}

/// What removing the artifacts that `t` records does, in order: the
/// shortcuts, the start-menu subfolder, the file extensions, the URL
/// protocols and the terminal profiles.
pub open spec fn removals_spec(t: Tracker) -> Seq<Removal> {
    t.shortcuts@.map_values(|p: String| Removal::Shortcut(p))
        + (match t.start_menu_subdir_path {
            Some(p) => seq![Removal::StartMenuSubdir(p)],
            None => Seq::empty(),
        })
        + t.file_extensions@.map_values(|e: FileExtensionEntry| Removal::FileExtension(e))
        + t.url_protocols@.map_values(|e: UrlProtocolEntry| Removal::UrlProtocol(e))
        + t.terminal_profiles@.map_values(|e: TerminalProfileEntry| Removal::TerminalProfile(e))
}

/// The removals that undo everything that `tracker` records. Each one is
/// tried on its own: one that fails is reported and the others still run.
pub fn removals(tracker: &Tracker) -> (r: Vec<Removal>)
    ensures
        r@ == removals_spec(*tracker),
{
    let mut out: Vec<Removal> = Vec::new();
    let ghost t = *tracker;
    let mut i: usize = 0;
    while i < tracker.shortcuts.len()
        invariant
            i <= t.shortcuts@.len(),
            t == *tracker,
            out@ == t.shortcuts@.take(i as int).map_values(|p: String| Removal::Shortcut(p)),
        decreases tracker.shortcuts.len() - i,
    {
        out.push(Removal::Shortcut(tracker.shortcuts[i].clone()));
        i = i + 1;
        assert(out@ =~= t.shortcuts@.take(i as int).map_values(|p: String| Removal::Shortcut(p)));
    }
    assert(t.shortcuts@.take(i as int) =~= t.shortcuts@);
    match &tracker.start_menu_subdir_path {
        Some(p) => out.push(Removal::StartMenuSubdir(p.clone())),
        None => {},
    }
    let ghost before = out@;
    let mut i: usize = 0;
    while i < tracker.file_extensions.len()
        invariant
            i <= t.file_extensions@.len(),
            t == *tracker,
            out@ == before + t.file_extensions@.take(i as int).map_values(|e: FileExtensionEntry| Removal::FileExtension(e)),
        decreases tracker.file_extensions.len() - i,
    {
        out.push(Removal::FileExtension(tracker.file_extensions[i].duplicate()));
        i = i + 1;
        assert(out@ =~= before + t.file_extensions@.take(i as int).map_values(|e: FileExtensionEntry| Removal::FileExtension(e)));
    }
    assert(t.file_extensions@.take(i as int) =~= t.file_extensions@);
    let ghost before = out@;
    let mut i: usize = 0;
    while i < tracker.url_protocols.len()
        invariant
            i <= t.url_protocols@.len(),
            t == *tracker,
            out@ == before + t.url_protocols@.take(i as int).map_values(|e: UrlProtocolEntry| Removal::UrlProtocol(e)),
        decreases tracker.url_protocols.len() - i,
    {
        out.push(Removal::UrlProtocol(tracker.url_protocols[i].duplicate()));
        i = i + 1;
        assert(out@ =~= before + t.url_protocols@.take(i as int).map_values(|e: UrlProtocolEntry| Removal::UrlProtocol(e)));
    }
    assert(t.url_protocols@.take(i as int) =~= t.url_protocols@);
    let ghost before = out@;
    let mut i: usize = 0;
    while i < tracker.terminal_profiles.len()
        invariant
            i <= t.terminal_profiles@.len(),
            t == *tracker,
            out@ == before + t.terminal_profiles@.take(i as int).map_values(|e: TerminalProfileEntry| Removal::TerminalProfile(e)),
        decreases tracker.terminal_profiles.len() - i,
    {
        out.push(Removal::TerminalProfile(tracker.terminal_profiles[i].duplicate()));
        i = i + 1;
        assert(out@ =~= before + t.terminal_profiles@.take(i as int).map_values(|e: TerminalProfileEntry| Removal::TerminalProfile(e)));
    }
    assert(t.terminal_profiles@.take(i as int) =~= t.terminal_profiles@);
    assert(out@ =~= removals_spec(t));
    out
}

/// Whether the start-menu subfolder is removed: only where it still exists
/// and nothing is left in it.
pub fn start_menu_subdir_removable(exists: bool, remaining_entries: usize) -> (r: bool)
    ensures
        r == (exists && remaining_entries == 0),
{
    exists && remaining_entries == 0
}

} // verus!

verus! {

/// Removal undoes the whole record: every shortcut, the start-menu
/// subfolder, every association and every terminal profile that the tracker
/// holds gets a removal, and nothing else does.
pub proof fn lemma_removals_cover_tracker(t: Tracker)
    ensures
        forall|i: int| 0 <= i < t.shortcuts@.len() ==> removals_spec(t).contains(Removal::Shortcut(#[trigger] t.shortcuts@[i])),
        t.start_menu_subdir_path.is_some() ==> removals_spec(t).contains(Removal::StartMenuSubdir(t.start_menu_subdir_path.unwrap())),
        forall|i: int| 0 <= i < t.file_extensions@.len() ==> removals_spec(t).contains(Removal::FileExtension(#[trigger] t.file_extensions@[i])),
        forall|i: int| 0 <= i < t.url_protocols@.len() ==> removals_spec(t).contains(Removal::UrlProtocol(#[trigger] t.url_protocols@[i])),
        forall|i: int| 0 <= i < t.terminal_profiles@.len() ==> removals_spec(t).contains(Removal::TerminalProfile(#[trigger] t.terminal_profiles@[i])),
        removals_spec(t).len() == t.shortcuts@.len() + (if t.start_menu_subdir_path.is_some() { 1int } else { 0int })
            + t.file_extensions@.len() + t.url_protocols@.len() + t.terminal_profiles@.len(),
{
    let r = removals_spec(t);
    let a = t.shortcuts@.len() as int;
    let b = a + (if t.start_menu_subdir_path.is_some() { 1int } else { 0int });
    let c = b + t.file_extensions@.len();
    let d = c + t.url_protocols@.len();
    assert forall|i: int| 0 <= i < t.shortcuts@.len() implies r.contains(Removal::Shortcut(#[trigger] t.shortcuts@[i])) by {
        assert(r[i] == Removal::Shortcut(t.shortcuts@[i]));
    }
    if t.start_menu_subdir_path.is_some() {
        assert(r[a] == Removal::StartMenuSubdir(t.start_menu_subdir_path.unwrap()));
    }
    assert forall|i: int| 0 <= i < t.file_extensions@.len() implies r.contains(Removal::FileExtension(#[trigger] t.file_extensions@[i])) by {
        assert(r[b + i] == Removal::FileExtension(t.file_extensions@[i]));
    }
    assert forall|i: int| 0 <= i < t.url_protocols@.len() implies r.contains(Removal::UrlProtocol(#[trigger] t.url_protocols@[i])) by {
        assert(r[c + i] == Removal::UrlProtocol(t.url_protocols@[i]));
    }
    assert forall|i: int| 0 <= i < t.terminal_profiles@.len() implies r.contains(Removal::TerminalProfile(#[trigger] t.terminal_profiles@[i])) by {
        assert(r[d + i] == Removal::TerminalProfile(t.terminal_profiles@[i]));
    }
}

} // verus!
