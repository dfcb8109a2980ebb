use vstd::prelude::*;
use crate::pinentry_mode::PinentryMode;
use crate::protocol::Protocol;

verus! {

/// The settings of one engine session, as the bridge knows them: the
/// switches that it sets itself, and what the engine took of the settings
/// that were handed to it. The engine's own state is not held here.
#[derive(Debug, PartialEq, Eq)]
pub struct Context {
    pub protocol: Protocol,
    pub armor: bool,
    pub text_mode: bool,
    pub offline: bool,
    pub pinentry_mode: PinentryMode,
    /// Named flags. Where a name occurs twice, its first entry counts.
    pub flags: Vec<(String, String)>,
    pub engine_path: Option<String>,
    pub engine_home_dir: Option<String>,
}

/// The mathematical value of a [`Context`].
pub struct ContextView {
    pub protocol: Protocol,
    pub armor: bool,
    pub text_mode: bool,
    pub offline: bool,
    pub pinentry_mode: PinentryMode,
    pub flags: Map<Seq<char>, Seq<char>>,
    pub engine_path: Option<Seq<char>>,
    pub engine_home_dir: Option<Seq<char>>,
}

/// The value that each name has in a list of flags.
pub open spec fn flags_view(flags: Seq<(String, String)>) -> Map<Seq<char>, Seq<char>>
    decreases flags.len(),
{
    if flags.len() == 0 {
        Map::empty()
    } else {
        flags_view(flags.drop_first()).insert(flags[0].0@, flags[0].1@)
    }
}

/// The text of a setting that may be absent.
pub open spec fn text_view(text: Option<String>) -> Option<Seq<char>> {
    match text {
        Some(s) => Some(s@),
        None => None,
    }
}

impl View for Context {
    type V = ContextView;

    open spec fn view(&self) -> ContextView {
        ContextView {
            protocol: self.protocol,
            armor: self.armor,
            text_mode: self.text_mode,
            offline: self.offline,
            pinentry_mode: self.pinentry_mode,
            flags: flags_view(self.flags@),
            engine_path: text_view(self.engine_path),
            engine_home_dir: text_view(self.engine_home_dir),
        }
    }
}

/// One change to the settings of a session.
#[derive(Debug, PartialEq, Eq)]
pub enum Setting {
    Armor(bool),
    TextMode(bool),
    Offline(bool),
    PinentryMode(PinentryMode),
    /// A named flag and its value.
    Flag(String, String),
    EnginePath(String),
    EngineHomeDir(String),
}

/// The mathematical value of a [`Setting`].
pub enum SettingView {
    Armor(bool),
    TextMode(bool),
    Offline(bool),
    PinentryMode(PinentryMode),
    Flag(Seq<char>, Seq<char>),
    EnginePath(Seq<char>),
    EngineHomeDir(Seq<char>),
}

impl View for Setting {
    type V = SettingView;

    open spec fn view(&self) -> SettingView {
        match self {
            Setting::Armor(yes) => SettingView::Armor(*yes),
            Setting::TextMode(yes) => SettingView::TextMode(*yes),
            Setting::Offline(yes) => SettingView::Offline(*yes),
            Setting::PinentryMode(mode) => SettingView::PinentryMode(*mode),
            Setting::Flag(name, value) => SettingView::Flag(name@, value@),
            Setting::EnginePath(path) => SettingView::EnginePath(path@),
            Setting::EngineHomeDir(home_dir) => SettingView::EngineHomeDir(home_dir@),
        }
    }
}

/// The settings after one change. What the change does not name stays.
pub open spec fn with_setting(context: ContextView, setting: SettingView) -> ContextView {
    match setting {
        SettingView::Armor(yes) => ContextView { armor: yes, ..context },
        SettingView::TextMode(yes) => ContextView { text_mode: yes, ..context },
        SettingView::Offline(yes) => ContextView { offline: yes, ..context },
        SettingView::PinentryMode(mode) => ContextView { pinentry_mode: mode, ..context },
        SettingView::Flag(name, value) => ContextView {
            flags: context.flags.insert(name, value),
            ..context
        },
        SettingView::EnginePath(path) => ContextView { engine_path: Some(path), ..context },
        SettingView::EngineHomeDir(home_dir) => ContextView {
            engine_home_dir: Some(home_dir),
            ..context
        },
    }
}

/// The settings of a session that was just opened for `protocol`.
pub open spec fn fresh_context(protocol: Protocol) -> ContextView {
    ContextView {
        protocol,
        armor: false,
        text_mode: false,
        offline: false,
        pinentry_mode: PinentryMode::Default,
        flags: Map::empty(),
        engine_path: None,
        engine_home_dir: None,
    }
}

/// A name that no entry has is not set.
pub proof fn lemma_flags_absent(flags: Seq<(String, String)>, name: Seq<char>)
    requires
        forall|j: int| 0 <= j < flags.len() ==> (#[trigger] flags[j]).0@ != name,
    ensures
        !flags_view(flags).dom().contains(name),
    decreases flags.len(),
{
    if flags.len() > 0 {
        let rest = flags.drop_first();
        assert forall|j: int| 0 <= j < rest.len() implies (#[trigger] rest[j]).0@ != name by {
            assert(rest[j] == flags[j + 1]);
        }
        lemma_flags_absent(rest, name);
        assert(flags[0].0@ != name);
    }
}

/// A name has the value of its first entry.
pub proof fn lemma_flags_found(flags: Seq<(String, String)>, i: int)
    requires
        0 <= i < flags.len(),
        forall|j: int| 0 <= j < i ==> (#[trigger] flags[j]).0@ != flags[i].0@,
    ensures
        flags_view(flags).dom().contains(flags[i].0@),
        flags_view(flags)[flags[i].0@] == flags[i].1@,
    decreases flags.len(),
{
    if i > 0 {
        let rest = flags.drop_first();
        assert(rest[i - 1] == flags[i]);
        assert forall|j: int| 0 <= j < i - 1 implies (#[trigger] rest[j]).0@ != rest[i - 1].0@ by {
            assert(rest[j] == flags[j + 1]);
        }
        lemma_flags_found(rest, i - 1);
        assert(flags[0].0@ != flags[i].0@);
    }
}

/// Replacing the first entry of a name sets the name, and nothing else.
pub proof fn lemma_flags_replaced(flags: Seq<(String, String)>, i: int, entry: (String, String))
    requires
        0 <= i < flags.len(),
        flags[i].0@ == entry.0@,
        forall|j: int| 0 <= j < i ==> (#[trigger] flags[j]).0@ != entry.0@,
    ensures
        flags_view(flags.update(i, entry)) == flags_view(flags).insert(entry.0@, entry.1@),
    decreases flags.len(),
{
    let rest = flags.drop_first();
    let changed = flags.update(i, entry);
    if i == 0 {
        assert(changed.drop_first() =~= rest);
        assert(flags_view(changed) =~= flags_view(flags).insert(entry.0@, entry.1@));
    } else {
        assert(rest[i - 1] == flags[i]);
        assert forall|j: int| 0 <= j < i - 1 implies (#[trigger] rest[j]).0@ != entry.0@ by {
            assert(rest[j] == flags[j + 1]);
        }
        lemma_flags_replaced(rest, i - 1, entry);
        assert(changed.drop_first() =~= rest.update(i - 1, entry));
        assert(changed[0] == flags[0]);
        assert(flags[0].0@ != entry.0@);
        assert(flags_view(changed) =~= flags_view(flags).insert(entry.0@, entry.1@));
    }
}

/// Appending an entry for a name that no entry has sets the name, and
/// nothing else.
pub proof fn lemma_flags_appended(flags: Seq<(String, String)>, entry: (String, String))
    requires
        forall|j: int| 0 <= j < flags.len() ==> (#[trigger] flags[j]).0@ != entry.0@,
    ensures
        flags_view(flags.push(entry)) == flags_view(flags).insert(entry.0@, entry.1@),
    decreases flags.len(),
{
    let longer = flags.push(entry);
    if flags.len() == 0 {
        assert(longer.drop_first() =~= flags);
        assert(flags_view(longer) =~= flags_view(flags).insert(entry.0@, entry.1@));
    } else {
        let rest = flags.drop_first();
        assert forall|j: int| 0 <= j < rest.len() implies (#[trigger] rest[j]).0@ != entry.0@ by {
            assert(rest[j] == flags[j + 1]);
        }
        lemma_flags_appended(rest, entry);
        assert(longer.drop_first() =~= rest.push(entry));
        assert(longer[0] == flags[0]);
        assert(flags[0].0@ != entry.0@);
        assert(flags_view(longer) =~= flags_view(flags).insert(entry.0@, entry.1@));
    }
}

impl Context {
    /// The settings of a session that was just opened for `protocol`.
    pub fn new(protocol: Protocol) -> (r: Context)
        ensures
            r@ == fresh_context(protocol),
    {
        Context {
            protocol,
            armor: false,
            text_mode: false,
            offline: false,
            pinentry_mode: PinentryMode::Default,
            flags: Vec::new(),
            engine_path: None,
            engine_home_dir: None,
        }
    }

    /// The place of the first entry of `name`, or the number of entries
    /// where it has none.
    fn find_flag(&self, name: &String) -> (i: usize)
        ensures
            i <= self.flags@.len(),
            forall|j: int| 0 <= j < i ==> (#[trigger] self.flags@[j]).0@ != name@,
            i < self.flags@.len() ==> self.flags@[i as int].0@ == name@,
    {
        let mut i: usize = 0;
        while i < self.flags.len()
            invariant
                i <= self.flags@.len(),
                forall|j: int| 0 <= j < i ==> (#[trigger] self.flags@[j]).0@ != name@,
            decreases self.flags@.len() - i,
        {
            if self.flags[i].0 == *name {
                return i;
            }
            i = i + 1;
        }
        i
    }

    /// The value of the flag `name`, if it is set.
    pub fn get_flag(&self, name: &String) -> (r: Option<String>)
        ensures
            match r {
                Some(value) => self@.flags.dom().contains(name@) && value@ == self@.flags[name@],
                None => !self@.flags.dom().contains(name@),
            },
    {
        let i = self.find_flag(name);
        if i < self.flags.len() {
            proof {
                lemma_flags_found(self.flags@, i as int);
            }
            Some(self.flags[i].1.clone())
        } else {
            proof {
                lemma_flags_absent(self.flags@, name@);
            }
            None
        }
    }

    /// Makes one change to the settings.
    pub fn apply(&mut self, setting: Setting)
        ensures
            final(self)@ == with_setting(old(self)@, setting@),
    {
        match setting {
            Setting::Armor(yes) => {
                self.armor = yes;
            },
            Setting::TextMode(yes) => {
                self.text_mode = yes;
            },
            Setting::Offline(yes) => {
                self.offline = yes;
            },
            Setting::PinentryMode(mode) => {
                self.pinentry_mode = mode;
            },
            Setting::Flag(name, value) => {
                self.set_flag(name, value);
            },
            Setting::EnginePath(path) => {
                self.engine_path = Some(path);
            },
            Setting::EngineHomeDir(home_dir) => {
                self.engine_home_dir = Some(home_dir);
            },
        }
    }

    /// Sets the flag `name` to `value`. No other setting changes.
    pub fn set_flag(&mut self, name: String, value: String)
        ensures
            final(self)@ == (ContextView {
                flags: old(self)@.flags.insert(name@, value@),
                ..old(self)@
            }),
    {
        let i = self.find_flag(&name);
        let ghost entry = (name, value);
        if i < self.flags.len() {
            proof {
                lemma_flags_replaced(self.flags@, i as int, entry);
            }
            self.flags.set(i, (name, value));
        } else {
            proof {
                lemma_flags_appended(self.flags@, entry);
            }
            self.flags.push((name, value));
        }
    }
}

} // verus!
