//! Keyboard configuration from Lua: `Mux.input.keyboard.get(criteria)`
//! returns a context whose `layout` and `options` methods record the XKB
//! settings for the keyboards that the criteria select.

use vstd::prelude::*;
use crate::text::{clone_opt_string, opt_eq, opt_str_view, opt_view};
use crate::types::input::{
    criterion_holds, criterion_matches, lua_text, refusal, Config, ConversionError, DeviceLocation, LuaText,
    XkbLayout, XkbOptions,
};

verus! {

/// Selects keyboards by name, port and seat; an absent attribute matches
/// every keyboard.
#[derive(Clone, Debug, Hash)]
pub struct KeyboardCriteria {
    pub name: Option<String>,
    pub port: Option<String>,
    pub seat: Option<String>,
}

impl Default for KeyboardCriteria {
    fn default() -> (r: Self)
        ensures
            r.name is None,
            r.port is None,
            r.seat is None,
    {
        KeyboardCriteria { name: None, port: None, seat: None }
    }
}

/// Two criteria name the same attributes.
pub open spec fn same_criteria(a: KeyboardCriteria, b: KeyboardCriteria) -> bool {
    opt_view(a.name) == opt_view(b.name) && opt_view(a.port) == opt_view(b.port) && opt_view(a.seat)
        == opt_view(b.seat)
}

impl KeyboardCriteria {
    /// The criteria that select exactly a libinput device: its name, its
    /// system name (the port) and the logical name of its seat.
    pub fn from_input_device(name: &str, sysname: &str, seat: &str) -> (r: Self)
        ensures
            opt_view(r.name) == Some(name@),
            opt_view(r.port) == Some(sysname@),
            opt_view(r.seat) == Some(seat@),
    {
        KeyboardCriteria {
            name: Some(name.to_owned()),
            port: Some(sysname.to_owned()),
            seat: Some(seat.to_owned()),
        }
    }

    /// The criteria name no attribute, so they select every keyboard.
    pub fn is_wildcard(&self) -> (r: bool)
        ensures
            r == (self.name is None && self.port is None && self.seat is None),
    {
        self.name.is_none() && self.port.is_none() && self.seat.is_none()
    }

    /// Every attribute that the criteria name equals the keyboard's.
    pub fn matches(&self, name: Option<&str>, port: Option<&str>, seat: Option<&str>) -> (r: bool)
        ensures
            r == (criterion_holds(opt_view(self.name), opt_str_view(name)) && criterion_holds(
                opt_view(self.port),
                opt_str_view(port),
            ) && criterion_holds(opt_view(self.seat), opt_str_view(seat))),
    {
        criterion_matches(&self.name, name) && criterion_matches(&self.port, port)
            && criterion_matches(&self.seat, seat)
    }

    /// A copy of the criteria.
    pub fn duplicate(&self) -> (r: Self)
        ensures
            same_criteria(r, *self),
    {
        KeyboardCriteria {
            name: clone_opt_string(&self.name),
            port: clone_opt_string(&self.port),
            seat: clone_opt_string(&self.seat),
        }
    }
}

/// Keyboard layouts, comma separated; none means the default.
#[derive(Debug, Clone, Default)]
pub struct KeyboardLayout(pub Option<String>);

/// Keyboard options, comma separated; none means no option.
#[derive(Debug, Clone, Default)]
pub struct KeyboardOptions(pub Option<String>);

impl KeyboardLayout {
    /// The layout a Lua value names: a string, a list of strings (joined with
    /// commas) or nil; any other value is refused.
    pub fn from_lua(value: LuaText) -> (r: Result<KeyboardLayout, ConversionError>)
        ensures
            match lua_text(value) {
                Some(t) => r matches Ok(l) && opt_view(l.0) == t,
                None => r matches Err(e) && refusal(value, e, "Keyboard Layout"@),
            },
    {
        match XkbLayout::from_lua(value) {
            Ok(l) => Ok(KeyboardLayout(l.0)),
            Err(e) => Err(e),
        }
    }
}

impl KeyboardOptions {
    /// The options a Lua value names: a string, a list of strings (joined
    /// with commas) or nil; any other value is refused.
    pub fn from_lua(value: LuaText) -> (r: Result<KeyboardOptions, ConversionError>)
        ensures
            match lua_text(value) {
                Some(t) => r matches Ok(o) && opt_view(o.0) == t,
                None => r matches Err(e) && refusal(value, e, "Keyboard Options"@),
            },
    {
        match XkbOptions::from_lua(value) {
            Ok(o) => Ok(KeyboardOptions(o.0)),
            Err(e) => Err(e),
        }
    }
}

/// The XKB settings recorded for a set of keyboards.
#[derive(Debug, Clone, Default)]
pub struct KeyboardConfig {
    pub layout: KeyboardLayout,
    pub options: KeyboardOptions,
}

/// What `Mux.input.keyboard.get(criteria)` returns: the criteria and the
/// settings given so far.
#[derive(Clone)]
pub struct KeyboardConfigContext {
    criteria: KeyboardCriteria,
    config: KeyboardConfig,
}

impl KeyboardConfigContext {
    /// The criteria of the context.
    pub closed spec fn criteria(&self) -> KeyboardCriteria {
        self.criteria
    }

    /// The layout given so far.
    pub closed spec fn layout(&self) -> Option<Seq<char>> {
        opt_view(self.config.layout.0)
    }

    /// The options given so far.
    pub closed spec fn options(&self) -> Option<Seq<char>> {
        opt_view(self.config.options.0)
    }

    /// A context for `criteria` with no setting yet.
    pub fn new(criteria: KeyboardCriteria) -> (r: Self)
        ensures
            r.criteria() == criteria,
            r.layout() is None,
            r.options() is None,
    {
        KeyboardConfigContext {
            criteria,
            config: KeyboardConfig { layout: KeyboardLayout(None), options: KeyboardOptions(None) },
        }
    }

    /// The entry to record: the criteria and the settings given so far.
    fn entry(&self) -> (r: (KeyboardCriteria, KeyboardConfig))
        ensures
            same_criteria(r.0, self.criteria()),
            opt_view(r.1.layout.0) == self.layout(),
            opt_view(r.1.options.0) == self.options(),
    {
        (
            self.criteria.duplicate(),
            KeyboardConfig {
                layout: KeyboardLayout(clone_opt_string(&self.config.layout.0)),
                options: KeyboardOptions(clone_opt_string(&self.config.options.0)),
            },
        )
    }

    /// Lua's `layout(l)`: sets the layout and returns the entry to record
    /// for the criteria, which keeps the options given before.
    pub fn set_layout(&mut self, layout: KeyboardLayout) -> (r: (KeyboardCriteria, KeyboardConfig))
        ensures
            final(self).criteria() == old(self).criteria(),
            final(self).layout() == opt_view(layout.0),
            final(self).options() == old(self).options(),
            same_criteria(r.0, old(self).criteria()),
            opt_view(r.1.layout.0) == opt_view(layout.0),
            opt_view(r.1.options.0) == old(self).options(),
    {
        self.config.layout = layout;
        self.entry()
    }

    /// Lua's `options(o)`: sets the options and returns the entry to record
    /// for the criteria, which keeps the layout given before.
    pub fn set_options(&mut self, options: KeyboardOptions) -> (r: (
        KeyboardCriteria,
        KeyboardConfig,
    ))
        ensures
            final(self).criteria() == old(self).criteria(),
            final(self).options() == opt_view(options.0),
            final(self).layout() == old(self).layout(),
            same_criteria(r.0, old(self).criteria()),
            opt_view(r.1.options.0) == opt_view(options.0),
            opt_view(r.1.layout.0) == old(self).layout(),
    {
        self.config.options = options;
        self.entry()
    }

    /// A copy of the context.
    pub fn duplicate(&self) -> (r: Self)
        ensures
            same_criteria(r.criteria(), self.criteria()),
            r.layout() == self.layout(),
            r.options() == self.options(),
    {
        KeyboardConfigContext {
            criteria: self.criteria.duplicate(),
            config: KeyboardConfig {
                layout: KeyboardLayout(clone_opt_string(&self.config.layout.0)),
                options: KeyboardOptions(clone_opt_string(&self.config.options.0)),
            },
        }
    }

    /// Lua's `ctx:layout(l)`: sets the layout, records the context's settings
    /// for its criteria (the settings of other criteria stay), and returns a
    /// copy of the updated context so that calls chain.
    pub fn record_layout(&mut self, layout: KeyboardLayout, settings: &mut KeyboardSettings) -> (r:
        Self)
        requires
            old(settings).wf(),
        ensures
            final(self).criteria() == old(self).criteria(),
            final(self).layout() == opt_view(layout.0),
            final(self).options() == old(self).options(),
            final(settings).wf(),
            final(settings).map() == old(settings).map().insert(
                criteria_key(old(self).criteria()),
                (opt_view(layout.0), old(self).options()),
            ),
            same_criteria(r.criteria(), old(self).criteria()),
            r.layout() == opt_view(layout.0),
            r.options() == old(self).options(),
    {
        let entry = self.set_layout(layout);
        settings.record(entry);
        self.duplicate()
    }

    /// Lua's `ctx:options(o)`: sets the options, records the context's
    /// settings for its criteria (the settings of other criteria stay), and
    /// returns a copy of the updated context so that calls chain.
    pub fn record_options(&mut self, options: KeyboardOptions, settings: &mut KeyboardSettings) -> (r:
        Self)
        requires
            old(settings).wf(),
        ensures
            final(self).criteria() == old(self).criteria(),
            final(self).options() == opt_view(options.0),
            final(self).layout() == old(self).layout(),
            final(settings).wf(),
            final(settings).map() == old(settings).map().insert(
                criteria_key(old(self).criteria()),
                (old(self).layout(), opt_view(options.0)),
            ),
            same_criteria(r.criteria(), old(self).criteria()),
            r.options() == opt_view(options.0),
            r.layout() == old(self).layout(),
    {
        let entry = self.set_options(options);
        settings.record(entry);
        self.duplicate()
    }
}

/// Setting the layout and then the options of a context records both for its
/// criteria, and the settings of every other criteria stay as they were.
pub proof fn lemma_layout_then_options(
    settings: Map<
        (Option<Seq<char>>, Option<Seq<char>>, Option<Seq<char>>),
        (Option<Seq<char>>, Option<Seq<char>>),
    >,
    criteria: (Option<Seq<char>>, Option<Seq<char>>, Option<Seq<char>>),
    old_options: Option<Seq<char>>,
    layout: Option<Seq<char>>,
    options: Option<Seq<char>>,
    other: (Option<Seq<char>>, Option<Seq<char>>, Option<Seq<char>>),
)
    requires
        other != criteria,
    ensures
        settings.insert(criteria, (layout, old_options)).insert(criteria, (layout, options))
            == settings.insert(criteria, (layout, options)),
        settings.insert(criteria, (layout, options))[criteria] == (layout, options),
        settings.insert(criteria, (layout, options)).contains_key(other) == settings.contains_key(
            other,
        ),
        settings.contains_key(other) ==> settings.insert(criteria, (layout, options))[other]
            == settings[other],
{
    assert(settings.insert(criteria, (layout, old_options)).insert(criteria, (layout, options))
        =~= settings.insert(criteria, (layout, options)));
}

/// The attributes that criteria name, as characters: the key under which
/// their settings are recorded.
pub open spec fn criteria_key(c: KeyboardCriteria) -> (
    Option<Seq<char>>,
    Option<Seq<char>>,
    Option<Seq<char>>,
) {
    (opt_view(c.name), opt_view(c.port), opt_view(c.seat))
}

/// The layout and options of a configuration, as characters.
pub open spec fn config_value(c: KeyboardConfig) -> (Option<Seq<char>>, Option<Seq<char>>) {
    (opt_view(c.layout.0), opt_view(c.options.0))
}

/// The XKB settings that the configuration recorded, one per criteria.
pub struct KeyboardSettings {
    entries: Vec<(KeyboardCriteria, KeyboardConfig)>,
}

/// Index `i` of `entries` is recorded under `k`.
pub open spec fn entry_at(
    entries: Seq<(KeyboardCriteria, KeyboardConfig)>,
    i: int,
    k: (Option<Seq<char>>, Option<Seq<char>>, Option<Seq<char>>),
) -> bool {
    0 <= i < entries.len() && criteria_key(entries[i].0) == k
}

impl KeyboardSettings {
    /// No two entries are recorded under the same criteria.
    pub closed spec fn wf(&self) -> bool {
        forall|i: int, j: int|
            0 <= i < self.entries@.len() && 0 <= j < self.entries@.len() && i != j
                ==> criteria_key(#[trigger] self.entries@[i].0) != criteria_key(
                #[trigger] self.entries@[j].0,
            )
    }

    /// The recorded settings, by criteria.
    pub closed spec fn map(&self) -> Map<
        (Option<Seq<char>>, Option<Seq<char>>, Option<Seq<char>>),
        (Option<Seq<char>>, Option<Seq<char>>),
    > {
        Map::new(
            |k: (Option<Seq<char>>, Option<Seq<char>>, Option<Seq<char>>)|
                exists|i: int| entry_at(self.entries@, i, k),
            |k: (Option<Seq<char>>, Option<Seq<char>>, Option<Seq<char>>)|
                config_value(self.entries@[choose|i: int| entry_at(self.entries@, i, k)].1),
        )
    }

    /// No setting recorded.
    pub fn new() -> (r: Self)
        ensures
            r.wf(),
            r.map() == Map::<
                (Option<Seq<char>>, Option<Seq<char>>, Option<Seq<char>>),
                (Option<Seq<char>>, Option<Seq<char>>),
            >::empty(),
    {
        let r = KeyboardSettings { entries: Vec::new() };
        assert(r.map() =~= Map::empty());
        r
    }

    /// The position of the entry recorded under the criteria of `c`, if any.
    fn position(&self, c: &KeyboardCriteria) -> (r: Option<usize>)
        ensures
            match r {
                Some(i) => entry_at(self.entries@, i as int, criteria_key(*c)),
                None => forall|i: int| !entry_at(self.entries@, i, criteria_key(*c)),
            },
    {
        let mut i: usize = 0;
        while i < self.entries.len()
            invariant
                i <= self.entries@.len(),
                forall|j: int| 0 <= j < i ==> !entry_at(self.entries@, j, criteria_key(*c)),
            decreases self.entries@.len() - i,
        {
            let e = &self.entries[i].0;
            if opt_eq(&e.name, &c.name) && opt_eq(&e.port, &c.port) && opt_eq(&e.seat, &c.seat) {
                return Some(i);
            }
            i = i + 1;
        }
        None
    }

    /// The settings recorded for the criteria of `c`, if any.
    pub fn config_for(&self, c: &KeyboardCriteria) -> (r: Option<KeyboardConfig>)
        requires
            self.wf(),
        ensures
            match r {
                Some(cfg) => self.map().contains_key(criteria_key(*c)) && config_value(cfg)
                    == self.map()[criteria_key(*c)],
                None => !self.map().contains_key(criteria_key(*c)),
            },
    {
        match self.position(c) {
            Some(i) => {
                proof {
                    let k = criteria_key(*c);
                    assert(entry_at(self.entries@, i as int, k));
                    let j = choose|j: int| entry_at(self.entries@, j, k);
                    assert(entry_at(self.entries@, j, k));
                    if j != i as int {
                        assert(criteria_key(self.entries@[j].0) != criteria_key(
                            self.entries@[i as int].0,
                        ));
                    }
                }
                let cfg = &self.entries[i].1;
                Some(
                    KeyboardConfig {
                        layout: KeyboardLayout(clone_opt_string(&cfg.layout.0)),
                        options: KeyboardOptions(clone_opt_string(&cfg.options.0)),
                    },
                )
            },
            None => None,
        }
    }

    /// Records `entry`: the criteria's settings become the entry's
    /// configuration, and the settings of other criteria stay.
    pub fn record(&mut self, entry: (KeyboardCriteria, KeyboardConfig))
        requires
            old(self).wf(),
        ensures
            final(self).wf(),
            final(self).map() == old(self).map().insert(criteria_key(entry.0), config_value(entry.1)),
    {
        let ghost k = criteria_key(entry.0);
        let ghost v = config_value(entry.1);
        let ghost old_entries = self.entries@;
        match self.position(&entry.0) {
            Some(i) => {
                self.entries.set(i, entry);
                assert forall|a: int, b: int|
                    0 <= a < self.entries@.len() && 0 <= b < self.entries@.len() && a != b
                        implies criteria_key(#[trigger] self.entries@[a].0) != criteria_key(
                    #[trigger] self.entries@[b].0,
                ) by {
                    assert(criteria_key(old_entries[i as int].0) == k);
                    if a != i && b != i {
                        assert(self.entries@[a] == old_entries[a]);
                        assert(self.entries@[b] == old_entries[b]);
                    } else if a == i {
                        assert(self.entries@[b] == old_entries[b]);
                        assert(criteria_key(old_entries[b].0) != criteria_key(old_entries[i as int].0));
                    } else {
                        assert(self.entries@[a] == old_entries[a]);
                        assert(criteria_key(old_entries[a].0) != criteria_key(old_entries[i as int].0));
                    }
                }
                assert forall|k2| #[trigger] self.map().contains_key(k2) == old(self).map().insert(k, v).contains_key(k2) by {
                    if exists|j: int| entry_at(old_entries, j, k2) {
                        let j = choose|j: int| entry_at(old_entries, j, k2);
                        if j != i {
                            assert(self.entries@[j] == old_entries[j]);
                            assert(entry_at(self.entries@, j, k2));
                        } else {
                            assert(entry_at(self.entries@, i as int, k2));
                        }
                    }
                    if exists|j: int| entry_at(self.entries@, j, k2) {
                        let j = choose|j: int| entry_at(self.entries@, j, k2);
                        if j != i {
                            assert(self.entries@[j] == old_entries[j]);
                            assert(entry_at(old_entries, j, k2));
                        }
                    }
                }
                assert forall|k2| #[trigger] self.map().contains_key(k2) implies self.map()[k2] == old(self).map().insert(k, v)[k2] by {
                    let j = choose|j: int| entry_at(self.entries@, j, k2);
                    assert(entry_at(self.entries@, j, k2));
                    if k2 == k {
                        assert(entry_at(self.entries@, i as int, k));
                        assert(j == i);
                    } else {
                        assert(j != i);
                        assert(self.entries@[j] == old_entries[j]);
                        assert(entry_at(old_entries, j, k2));
                        let j2 = choose|j2: int| entry_at(old_entries, j2, k2);
                        assert(entry_at(old_entries, j2, k2));
                        if j2 != j {
                            assert(criteria_key(old_entries[j].0) != criteria_key(old_entries[j2].0));
                        }
                    }
                }
                assert(self.map() =~= old(self).map().insert(k, v));
            },
            None => {
                self.entries.push(entry);
                let ghost n = old_entries.len() as int;
                assert forall|a: int, b: int|
                    0 <= a < self.entries@.len() && 0 <= b < self.entries@.len() && a != b
                        implies criteria_key(#[trigger] self.entries@[a].0) != criteria_key(
                    #[trigger] self.entries@[b].0,
                ) by {
                    if a < n {
                        assert(self.entries@[a] == old_entries[a]);
                        assert(!entry_at(old_entries, a, k));
                    }
                    if b < n {
                        assert(self.entries@[b] == old_entries[b]);
                        assert(!entry_at(old_entries, b, k));
                    }
                }
                assert forall|k2| #[trigger] self.map().contains_key(k2) == old(self).map().insert(k, v).contains_key(k2) by {
                    if exists|j: int| entry_at(old_entries, j, k2) {
                        let j = choose|j: int| entry_at(old_entries, j, k2);
                        assert(self.entries@[j] == old_entries[j]);
                        assert(entry_at(self.entries@, j, k2));
                    }
                    if k2 == k {
                        assert(entry_at(self.entries@, n, k2));
                    }
                    if exists|j: int| entry_at(self.entries@, j, k2) {
                        let j = choose|j: int| entry_at(self.entries@, j, k2);
                        if j < n {
                            assert(self.entries@[j] == old_entries[j]);
                            assert(entry_at(old_entries, j, k2));
                        }
                    }
                }
                assert forall|k2| #[trigger] self.map().contains_key(k2) implies self.map()[k2] == old(self).map().insert(k, v)[k2] by {
                    let j = choose|j: int| entry_at(self.entries@, j, k2);
                    assert(entry_at(self.entries@, j, k2));
                    if k2 == k {
                        if j < n {
                            assert(self.entries@[j] == old_entries[j]);
                            assert(entry_at(old_entries, j, k));
                        }
                    } else {
                        assert(j < n);
                        assert(self.entries@[j] == old_entries[j]);
                        assert(entry_at(old_entries, j, k2));
                        let j2 = choose|j2: int| entry_at(old_entries, j2, k2);
                        assert(entry_at(old_entries, j2, k2));
                        if j2 != j {
                            assert(criteria_key(old_entries[j].0) != criteria_key(old_entries[j2].0));
                        }
                    }
                }
                assert(self.map() =~= old(self).map().insert(k, v));
            },
        }
    }
}

/// The keyboard settings builder that the Lua API hands out: the device
/// location it applies to and the XKB settings given so far.
#[derive(Debug, Clone, Default)]
pub struct KeyboardConfigBuilder {
    criteria: DeviceLocation,
    config: Config,
}

impl KeyboardConfigBuilder {
    /// The location the settings apply to.
    pub closed spec fn criteria(&self) -> DeviceLocation {
        self.criteria
    }

    /// The layout given so far.
    pub closed spec fn layout(&self) -> Option<Seq<char>> {
        opt_view(self.config.layout.0)
    }

    /// The options given so far.
    pub closed spec fn options(&self) -> Option<Seq<char>> {
        opt_view(self.config.options.0)
    }

    /// Lua's `get(criteria)`: a builder for `criteria` with no setting yet.
    pub fn new(criteria: DeviceLocation) -> (r: Self)
        ensures
            r.criteria() == criteria,
            r.layout() is None,
            r.options() is None,
    {
        KeyboardConfigBuilder {
            criteria,
            config: Config { layout: XkbLayout(None), options: XkbOptions(None) },
        }
    }

    /// A builder that applies to every device and holds no setting.
    pub fn empty() -> (r: Self)
        ensures
            r.criteria().name is None && r.criteria().port is None && r.criteria().seat is None,
            r.layout() is None,
            r.options() is None,
    {
        KeyboardConfigBuilder::new(DeviceLocation::default())
    }

    /// The entry to record: the location and the settings given so far.
    fn entry(&self) -> (r: (DeviceLocation, Config))
        ensures
            opt_view(r.0.name) == opt_view(self.criteria().name),
            opt_view(r.0.port) == opt_view(self.criteria().port),
            opt_view(r.0.seat) == opt_view(self.criteria().seat),
            opt_view(r.1.layout.0) == self.layout(),
            opt_view(r.1.options.0) == self.options(),
    {
        (
            self.criteria.duplicate(),
            Config {
                layout: XkbLayout(clone_opt_string(&self.config.layout.0)),
                options: XkbOptions(clone_opt_string(&self.config.options.0)),
            },
        )
    }

    /// Lua's `layout(l)`: sets the layout and returns the entry to record,
    /// which keeps the options given before.
    pub fn set_layout(&mut self, layout: XkbLayout) -> (r: (DeviceLocation, Config))
        ensures
            final(self).criteria() == old(self).criteria(),
            final(self).layout() == opt_view(layout.0),
            final(self).options() == old(self).options(),
            opt_view(r.0.name) == opt_view(old(self).criteria().name),
            opt_view(r.0.port) == opt_view(old(self).criteria().port),
            opt_view(r.0.seat) == opt_view(old(self).criteria().seat),
            opt_view(r.1.layout.0) == opt_view(layout.0),
            opt_view(r.1.options.0) == old(self).options(),
    {
        self.config.layout = layout;
        self.entry()
    }

    /// Lua's `options(o)`: sets the options and returns the entry to record,
    /// which keeps the layout given before.
    pub fn set_options(&mut self, options: XkbOptions) -> (r: (DeviceLocation, Config))
        ensures
            final(self).criteria() == old(self).criteria(),
            final(self).options() == opt_view(options.0),
            final(self).layout() == old(self).layout(),
            opt_view(r.0.name) == opt_view(old(self).criteria().name),
            opt_view(r.0.port) == opt_view(old(self).criteria().port),
            opt_view(r.0.seat) == opt_view(old(self).criteria().seat),
            opt_view(r.1.options.0) == opt_view(options.0),
            opt_view(r.1.layout.0) == old(self).layout(),
    {
        self.config.options = options;
        self.entry()
    }
}

} // verus!
