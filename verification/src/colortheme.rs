use vstd::prelude::*;

use crate::config::ConfigValue;
use crate::text::str_eq;

verus! {

/// An RGB color resolved from the configuration.
#[derive(Clone, Copy, PartialEq, Eq, Structural, Debug)]
pub struct Rgb {
    pub r: u8,
    pub g: u8,
    pub b: u8,
}

/// The palette of the session: one color for each named slot, resolved once
/// at startup and immutable afterwards.
#[derive(Clone, Copy, PartialEq, Eq, Structural, Debug)]
pub struct ColorTheme {
    pub background: Rgb,
    pub command_bar: Rgb,
    pub cmdbar_prompt: Rgb,
    pub cmdbar_cmdexist: Rgb,
    pub cmdbar_cmdunexist: Rgb,
}

/// The first value under the given name in a configuration table, in table
/// order; `None` when the name is absent.
pub open spec fn table_get(es: Seq<(String, ConfigValue)>, name: Seq<char>) -> Option<ConfigValue>
    decreases es,
{
    if es.len() == 0 {
        None
    } else if es[0].0@ == name {
        Some(es[0].1)
    } else {
        table_get(es.drop_first(), name)
    }
}

/// The color a configuration value denotes: an array whose first three
/// elements are integers, each taken modulo 256. Any other shape denotes
/// no color.
pub open spec fn rgb_spec(v: ConfigValue) -> Option<Rgb> {
    match v {
        ConfigValue::Arr(items) => if items@.len() >= 3 {
            match (items@[0], items@[1], items@[2]) {
                (ConfigValue::Int(a), ConfigValue::Int(b), ConfigValue::Int(c)) => Some(
                    Rgb { r: a as u8, g: b as u8, b: c as u8 },
                ),
                _ => None,
            }
        } else {
            None
        },
        _ => None,
    }
}

/// The color under the given slot name in a configuration table: present
/// and denoting a color, or nothing.
pub open spec fn slot_spec(es: Seq<(String, ConfigValue)>, name: Seq<char>) -> Option<Rgb> {
    match table_get(es, name) {
        Some(v) => rgb_spec(v),
        None => None,
    }
}

/// The theme a configuration table denotes: every slot name present and
/// denoting a color. A table that misses a slot or gives it another shape
/// denotes no theme, and startup fails on it.
pub open spec fn theme_spec(es: Seq<(String, ConfigValue)>) -> Option<ColorTheme> {
    if slot_spec(es, "background"@) is Some && slot_spec(es, "command-bar"@) is Some && slot_spec(
        es,
        "cmdbar-prompt"@,
    ) is Some && slot_spec(es, "cmdbar-cmdexist"@) is Some && slot_spec(
        es,
        "cmdbar-cmdunexist"@,
    ) is Some {
        Some(
            ColorTheme {
                background: slot_spec(es, "background"@)->Some_0,
                command_bar: slot_spec(es, "command-bar"@)->Some_0,
                cmdbar_prompt: slot_spec(es, "cmdbar-prompt"@)->Some_0,
                cmdbar_cmdexist: slot_spec(es, "cmdbar-cmdexist"@)->Some_0,
                cmdbar_cmdunexist: slot_spec(es, "cmdbar-cmdunexist"@)->Some_0,
            },
        )
    } else {
        None
    }
}

/// The first value under the given name in the table, as `table_get`
/// describes it.
pub(crate) fn get_value<'a>(es: &'a Vec<(String, ConfigValue)>, name: &str) -> (r: Option<&'a ConfigValue>)
    ensures
        r matches Some(v) ==> table_get(es@, name@) == Some(*v),
        r is None ==> table_get(es@, name@) is None,
{
    let mut i: usize = 0;
    proof {
        assert(es@.skip(0) =~= es@);
    }
    while i < es.len()
        invariant
            i <= es@.len(),
            table_get(es@, name@) == table_get(es@.skip(i as int), name@),
        decreases es@.len() - i,
    {
        proof {
            assert(es@.skip(i as int)[0] == es@[i as int]);
            assert(es@.skip(i as int).drop_first() =~= es@.skip(i as int + 1));
        }
        if str_eq(es[i].0.as_str(), name) {
            return Some(&es[i].1);
        }
        i = i + 1;
    }
    proof {
        assert(es@.skip(es@.len() as int) =~= Seq::<(String, ConfigValue)>::empty());
    }
    None
}

/// The color a configuration value denotes, as `rgb_spec` describes it.
fn rgb_from(v: &ConfigValue) -> (r: Option<Rgb>)
    ensures
        r == rgb_spec(*v),
{
    match v {
        ConfigValue::Arr(items) => {
            if items.len() >= 3 {
                let i0 = &items[0];
                let i1 = &items[1];
                let i2 = &items[2];
                match (i0, i1, i2) {
                    (ConfigValue::Int(a), ConfigValue::Int(b), ConfigValue::Int(c)) => {
                        let red = #[verifier::truncate] (*a as u8);
                        let green = #[verifier::truncate] (*b as u8);
                        let blue = #[verifier::truncate] (*c as u8);
                        Some(Rgb { r: red, g: green, b: blue })
                    },
                    _ => None,
                }
            } else {
                None
            }
        },
        _ => None,
    }
}

/// The color under the given slot name, as `slot_spec` describes it.
fn get_slot(es: &Vec<(String, ConfigValue)>, name: &str) -> (r: Option<Rgb>)
    ensures
        r == slot_spec(es@, name@),
{
    match get_value(es, name) {
        Some(v) => rgb_from(v),
        None => None,
    }
}

impl ColorTheme {
    /// Resolves the palette from the configuration's color table, reading
    /// each named slot as a three-element integer array. Returns `None`
    /// when any slot is missing or has another shape.
    pub fn from_config(es: &Vec<(String, ConfigValue)>) -> (r: Option<ColorTheme>)
        ensures
            r == theme_spec(es@),
    {
        let background = match get_slot(es, "background") {
            Some(c) => c,
            None => {
                return None;
            },
        };
        let command_bar = match get_slot(es, "command-bar") {
            Some(c) => c,
            None => {
                return None;
            },
        };
        let cmdbar_prompt = match get_slot(es, "cmdbar-prompt") {
            Some(c) => c,
            None => {
                return None;
            },
        };
        let cmdbar_cmdexist = match get_slot(es, "cmdbar-cmdexist") {
            Some(c) => c,
            None => {
                return None;
            },
        };
        let cmdbar_cmdunexist = match get_slot(es, "cmdbar-cmdunexist") {
            Some(c) => c,
            None => {
                return None;
            },
        };
        Some(
            ColorTheme {
                background,
                command_bar,
                cmdbar_prompt,
                cmdbar_cmdexist,
                cmdbar_cmdunexist,
            },
        )
    }
}

} // verus!
