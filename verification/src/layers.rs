//! Configuration layers and their precedence. A layer is an ordered list
//! of dotted-key entries; resolution is rightmost-wins inside a layer,
//! and across layers the process-environment overrides beat the
//! environment file, which beats the base file.
use vstd::prelude::*;

use crate::text::{eq_ignore_ascii_case, lower_char, lower_seq, str_eq};

verus! {

/// Abstract value of a [`ConfigValue`].
pub ghost enum ValueView {
    Text(Seq<char>),
    Integer(u64),
}

/// A raw configuration value as a layer holds it: text, or a native
/// integer. Process-environment values are always text.
pub enum ConfigValue {
    Text(String),
    Integer(u64),
}

impl View for ConfigValue {
    type V = ValueView;

    open spec fn view(&self) -> ValueView {
        match self {
            ConfigValue::Text(s) => ValueView::Text(s@),
            ConfigValue::Integer(n) => ValueView::Integer(*n),
        }
    }
}

impl Clone for ConfigValue {
    /// Cloning keeps the value.
    fn clone(&self) -> (r: Self)
        ensures
            r@ == self@,
    {
        match self {
            ConfigValue::Text(s) => ConfigValue::Text(s.clone()),
            ConfigValue::Integer(n) => ConfigValue::Integer(*n),
        }
    }
}

/// Abstract value of a [`LayerEntry`].
pub ghost struct EntryView {
    pub key: Seq<char>,
    pub value: ValueView,
}

/// One binding of a dotted key path (such as `database.port`) to a raw
/// value, inside one configuration layer.
pub struct LayerEntry {
    pub key: String,
    pub value: ConfigValue,
}

impl View for LayerEntry {
    type V = EntryView;

    open spec fn view(&self) -> EntryView {
        EntryView { key: self.key@, value: self.value@ }
    }
}

/// Abstract value of an [`EnvVar`].
pub ghost struct EnvVarView {
    pub name: Seq<char>,
    pub value: Seq<char>,
}

/// One process-environment variable, as handed in by the caller.
pub struct EnvVar {
    pub name: String,
    pub value: String,
}

impl View for EnvVar {
    type V = EnvVarView;

    open spec fn view(&self) -> EnvVarView {
        EnvVarView { name: self.name@, value: self.value@ }
    }
}

/// The abstract contents of a layer.
pub open spec fn entries_view(s: Seq<LayerEntry>) -> Seq<EntryView> {
    s.map_values(|e: LayerEntry| e@)
}

/// The abstract contents of an environment-variable list.
pub open spec fn vars_view(s: Seq<EnvVar>) -> Seq<EnvVarView> {
    s.map_values(|v: EnvVar| v@)
}

/// What one layer says for a key: the value of the last entry bound to
/// the key, if any — inside a layer the rightmost binding wins.
pub open spec fn lookup(entries: Seq<EntryView>, key: Seq<char>) -> Option<ValueView>
    decreases entries.len(),
{
    if entries.len() == 0 {
        None
    } else if entries.last().key == key {
        Some(entries.last().value)
    } else {
        lookup(entries.drop_last(), key)
    }
}

/// The environment-variable encoding of a dotted key: each dot becomes
/// the double-underscore separator, every other character is
/// lower-cased.
pub open spec fn key_encoding(key: Seq<char>) -> Seq<char>
    decreases key.len(),
{
    if key.len() == 0 {
        Seq::empty()
    } else if key.first() == '.' {
        seq!['_', '_'] + key_encoding(key.drop_first())
    } else {
        seq![lower_char(key.first())] + key_encoding(key.drop_first())
    }
}

/// The full name of the environment variable that overrides `key`: the
/// fixed application prefix followed by the encoded key.
pub open spec fn env_name_for(key: Seq<char>) -> Seq<char> {
    "app__"@ + key_encoding(key)
}

/// Whether a variable named `name` overrides `key`: the name, compared
/// up to ASCII case, is the prefix-and-separator encoding of the key.
pub open spec fn env_matches(name: Seq<char>, key: Seq<char>) -> bool {
    lower_seq(name) == env_name_for(key)
}

/// What the process environment says for a key: the value of the last
/// variable whose name overrides the key, if any.
pub open spec fn env_lookup(vars: Seq<EnvVarView>, key: Seq<char>) -> Option<Seq<char>>
    decreases vars.len(),
{
    if vars.len() == 0 {
        None
    } else if env_matches(vars.last().name, key) {
        Some(vars.last().value)
    } else {
        env_lookup(vars.drop_last(), key)
    }
}

/// What the three layers together say for a key, highest precedence
/// first: a process-environment override, then the environment file,
/// then the base file.
pub open spec fn resolve(
    base: Seq<EntryView>,
    envl: Seq<EntryView>,
    vars: Seq<EnvVarView>,
    key: Seq<char>,
) -> Option<ValueView> {
    match env_lookup(vars, key) {
        Some(t) => Some(ValueView::Text(t)),
        None => match lookup(envl, key) {
            Some(v) => Some(v),
            None => lookup(base, key),
        },
    }
}

/// Scan one layer for a key, rightmost binding first.
pub fn lookup_entries(entries: &Vec<LayerEntry>, key: &str) -> (r: Option<ConfigValue>)
    ensures
        match r {
            Some(v) => lookup(entries_view(entries@), key@) == Some(v@),
            None => lookup(entries_view(entries@), key@) is None,
        },
{
    let ghost all: Seq<EntryView> = entries_view(entries@);
    let mut i: usize = entries.len();
    proof {
        assert(all.take(i as int) =~= all);
    }
    while i > 0
        invariant
            i <= entries@.len(),
            all == entries_view(entries@),
            lookup(all, key@) == lookup(all.take(i as int), key@),
        decreases i,
    {
        i -= 1;
        proof {
            assert(all.take(i as int + 1).last() == all[i as int]);
            assert(all.take(i as int + 1).drop_last() =~= all.take(i as int));
        }
        if str_eq(entries[i].key.as_str(), key) {
            return Some(entries[i].value.clone());
        }
    }
    proof {
        assert(all.take(0) =~= Seq::<EntryView>::empty());
    }
    None
}

/// Scan the environment-variable list for an override of `key`, last
/// variable first. The caller supplies the variable name the key
/// encodes to; the bound ties the two together.
pub fn env_lookup_exec(vars: &Vec<EnvVar>, key: &str, env_name: &str) -> (r: Option<String>)
    requires
        lower_seq(env_name@) == env_name_for(key@),
    ensures
        match r {
            Some(v) => env_lookup(vars_view(vars@), key@) == Some(v@),
            None => env_lookup(vars_view(vars@), key@) is None,
        },
{
    let ghost all: Seq<EnvVarView> = vars_view(vars@);
    let mut i: usize = vars.len();
    proof {
        assert(all.take(i as int) =~= all);
    }
    while i > 0
        invariant
            i <= vars@.len(),
            all == vars_view(vars@),
            lower_seq(env_name@) == env_name_for(key@),
            env_lookup(all, key@) == env_lookup(all.take(i as int), key@),
        decreases i,
    {
        i -= 1;
        proof {
            assert(all.take(i as int + 1).last() == all[i as int]);
            assert(all.take(i as int + 1).drop_last() =~= all.take(i as int));
        }
        if eq_ignore_ascii_case(vars[i].name.as_str(), env_name) {
            return Some(vars[i].value.clone());
        }
    }
    proof {
        assert(all.take(0) =~= Seq::<EnvVarView>::empty());
    }
    None
}

/// Resolve one key across the three layers, highest precedence first.
pub fn resolve_value(
    base: &Vec<LayerEntry>,
    envl: &Vec<LayerEntry>,
    vars: &Vec<EnvVar>,
    key: &str,
    env_name: &str,
) -> (r: Option<ConfigValue>)
    requires
        lower_seq(env_name@) == env_name_for(key@),
    ensures
        match r {
            Some(v) => resolve(entries_view(base@), entries_view(envl@), vars_view(vars@), key@)
                == Some(v@),
            None => resolve(entries_view(base@), entries_view(envl@), vars_view(vars@), key@)
                is None,
        },
{
    match env_lookup_exec(vars, key, env_name) {
        Option::Some(t) => Some(ConfigValue::Text(t)),
        Option::None => match lookup_entries(envl, key) {
            Option::Some(v) => Some(v),
            Option::None => lookup_entries(base, key),
        },
    }
}

} // verus!
