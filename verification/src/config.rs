use vstd::prelude::*;

verus! {

/// The subset of a parsed key/value configuration document that this library
/// reads: strings, integers, arrays, nested tables, and a marker for any
/// other kind of value. Tables keep the order in which their entries were
/// written, so every walk over a table is deterministic.
pub enum ConfigValue {
    Str(String),
    Int(i64),
    Arr(Vec<ConfigValue>),
    Table(Vec<(String, ConfigValue)>),
    Other,
}

/// A table of named configuration entries, in file order.
pub type Config = Vec<(String, ConfigValue)>;

/// A well-formed command table: every value is either a keybinding string
/// (a leaf) or a nested table of further commands (a branch).
pub open spec fn cmd_table_wf(es: Seq<(String, ConfigValue)>) -> bool
    decreases es,
{
    forall|i: int| 0 <= i < es.len() ==> cmd_node_wf(#[trigger] es[i].1)
}

/// A well-formed command tree node: a keybinding string, or a table whose
/// entries are all well-formed nodes.
pub open spec fn cmd_node_wf(v: ConfigValue) -> bool
    decreases v,
{
    match v {
        ConfigValue::Str(_) => true,
        ConfigValue::Table(sub) => cmd_table_wf(sub@),
        _ => false,
    }
}

/// Checks that a configuration table is a well-formed command table, so that
/// the matcher may be run against it. A configuration that fails this check
/// is rejected at startup.
pub fn check_cmd_table(es: &Vec<(String, ConfigValue)>) -> (r: bool)
    ensures
        r == cmd_table_wf(es@),
    decreases es@,
{
    let mut i: usize = 0;
    while i < es.len()
        invariant
            i <= es.len(),
            forall|j: int| 0 <= j < i ==> cmd_node_wf(#[trigger] es@[j].1),
        decreases es@.len() - i,
    {
        let ok = match &es[i].1 {
            ConfigValue::Str(_) => true,
            ConfigValue::Table(sub) => {
                proof {
                    assert(decreases_to!(es@ => es@[i as int]));
                    assert(decreases_to!(es@[i as int].1 => *sub));
                }
                check_cmd_table(sub)
            },
            _ => false,
        };
        if !ok {
            return false;
        }
        i = i + 1;
    }
    true
}

} // verus!
