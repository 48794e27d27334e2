use vstd::prelude::*;

use crate::api::{new_window, IdAlloc};
use crate::config::ConfigValue;
use crate::text::{str_eq, str_starts_with, trim_spaces, trim_trailing_spaces};
use crate::window::editor::{new_editor_view, EditorView};
use crate::window::Window;
use crate::{iterate_config, lemma_partial_concat_reproduces, match_entries};

verus! {

/// A key event as this core reads it: the keys that drive command entry, a
/// printable character with its modifier state, or any other key, which
/// the core ignores.
pub enum Key {
    Backspace,
    Enter,
    Char { c: char, control: bool, alt: bool },
    Other,
}

/// An effect handed from command execution to the host: the host takes
/// ownership of a newly created window and registers it. Effects let the
/// commit step create windows without owning the window registry.
pub enum Effect {
    NewWindow(Window),
}

impl View for Effect {
    type V = EditorView;

    open spec fn view(&self) -> EditorView {
        match self {
            Effect::NewWindow(w) => w@,
        }
    }
}

/// The mathematical state of the input state machine.
#[verifier::ext_equal]
pub struct ProcView {
    pub command_mode: bool,
    pub command: Seq<char>,
    pub unknown_cmd: bool,
    pub cmdbar_show: Seq<char>,
    pub cmdbar_prompt: Seq<char>,
    pub cmdbar_suggestion: Seq<char>,
}

/// The state the input state machine starts in: command-entry mode, an
/// empty buffer, and a greeting prompt.
pub open spec fn new_proc_view() -> ProcView {
    ProcView {
        command_mode: true,
        command: Seq::empty(),
        unknown_cmd: false,
        cmdbar_show: Seq::empty(),
        cmdbar_prompt: "New workspace"@,
        cmdbar_suggestion: Seq::empty(),
    }
}

/// Whether the machine treats keystrokes as command input: either it is in
/// command-entry mode, or the buffer holds an in-progress modifier-prefixed
/// chord, so that a two-key chord begun in pass-through mode is not split
/// between the dispatcher and the receiving window.
pub open spec fn command_active(p: ProcView) -> bool {
    p.command_mode || "C-"@.is_prefix_of(p.command) || "A-"@.is_prefix_of(p.command)
}

/// The chord encoding of one printable keystroke: the bare character, or,
/// under Control or Alt, the modifier prefix, the character and a trailing
/// space.
pub open spec fn chord_encoding(c: char, control: bool, alt: bool) -> Seq<char> {
    if control {
        "C-"@ + seq![c] + " "@
    } else if alt {
        "A-"@ + seq![c] + " "@
    } else {
        seq![c]
    }
}

/// The transition of the input state machine on one key event. In
/// command-entry mode, backspace pops the last buffered character and enter
/// abandons the entry; a printable key appends its chord encoding whenever
/// the machine is in command-entry mode or a modifier is held. The echoed
/// text follows the buffer on every change, and every other key leaves the
/// machine as it is.
pub open spec fn key_event_spec(p: ProcView, key: Key) -> ProcView {
    match key {
        Key::Backspace => if p.command_mode {
            let cmd = if p.command.len() > 0 {
                p.command.drop_last()
            } else {
                p.command
            };
            ProcView { command: cmd, cmdbar_show: cmd, ..p }
        } else {
            p
        },
        Key::Enter => if p.command_mode {
            ProcView { command: Seq::empty(), cmdbar_show: Seq::empty(), ..p }
        } else {
            p
        },
        Key::Char { c, control, alt } => if p.command_mode || control || alt {
            let cmd = p.command + chord_encoding(c, control, alt);
            ProcView { command: cmd, cmdbar_show: cmd, ..p }
        } else {
            p
        },
        Key::Other => p,
    }
}

/// What one commit step yields: the machine's next state, the identifier
/// allocator's next state, the window created, if any, and whether the
/// host must quit.
#[verifier::ext_equal]
pub struct CommitView {
    pub proc: ProcView,
    pub next_id: int,
    pub new_window: Option<EditorView>,
    pub quit: bool,
}

/// The commit step of the input state machine, run against the command
/// table after every key event. The buffer, trimmed of the chord
/// convention's trailing spaces, is matched against the table. A full
/// match shows the matched name as the prompt, clears the buffer, and
/// dispatches the command: `quit` tells the host to stop, `new-window`
/// allocates a fresh identifier, creates an editor window sized to the
/// screen and leaves command-entry mode, `edit-mode` and `command-mode`
/// switch modes, and any other name has no further effect. A partial match
/// shows the matched name and the keybinding's remainder as the
/// suggestion. No match flags an unknown command while the buffer is
/// non-empty, and clears the feedback once it is empty.
pub open spec fn process_spec(
    p: ProcView,
    map: Seq<(String, ConfigValue)>,
    screen_size: (u16, u16),
    next_id: int,
) -> CommitView {
    let q = trim_spaces(p.command);
    match match_entries(map, q) {
        Some(t) => if t.2 {
            let base = ProcView {
                command: Seq::empty(),
                unknown_cmd: false,
                cmdbar_prompt: t.0,
                cmdbar_suggestion: Seq::empty(),
                ..p
            };
            if t.0 == "quit"@ {
                CommitView { proc: base, next_id, new_window: None, quit: true }
            } else if t.0 == "new-window"@ {
                CommitView {
                    proc: ProcView { command_mode: false, ..base },
                    next_id: next_id + 1,
                    new_window: Some(new_editor_view(next_id, screen_size)),
                    quit: false,
                }
            } else if t.0 == "edit-mode"@ {
                CommitView {
                    proc: ProcView { command_mode: false, ..base },
                    next_id,
                    new_window: None,
                    quit: false,
                }
            } else if t.0 == "command-mode"@ {
                CommitView {
                    proc: ProcView { command_mode: true, ..base },
                    next_id,
                    new_window: None,
                    quit: false,
                }
            } else {
                CommitView { proc: base, next_id, new_window: None, quit: false }
            }
        } else {
            CommitView {
                proc: ProcView {
                    unknown_cmd: false,
                    cmdbar_prompt: t.0,
                    cmdbar_suggestion: t.1.skip(q.len() as int),
                    ..p
                },
                next_id,
                new_window: None,
                quit: false,
            }
        },
        None => {
            let proc = if p.command.len() > 0 {
                ProcView {
                    unknown_cmd: true,
                    cmdbar_prompt: "Unknown command"@,
                    cmdbar_suggestion: Seq::empty(),
                    ..p
                }
            } else {
                ProcView {
                    unknown_cmd: false,
                    cmdbar_prompt: Seq::empty(),
                    cmdbar_suggestion: Seq::empty(),
                    ..p
                }
            };
            CommitView { proc, next_id, new_window: None, quit: false }
        },
    }
}

/// The input state machine: owns the accumulated keystroke buffer and the
/// current mode, and derives the echoed text, the suggestion and the
/// prompt from the command table on every keystroke.
pub struct CommandProcessor {
    command_mode: bool,
    command: String,
    unknown_cmd: bool,
    cmdbar_show: String,
    cmdbar_prompt: String,
    cmdbar_suggestion: String,
}

impl View for CommandProcessor {
    type V = ProcView;

    closed spec fn view(&self) -> ProcView {
        ProcView {
            command_mode: self.command_mode,
            command: self.command@,
            unknown_cmd: self.unknown_cmd,
            cmdbar_show: self.cmdbar_show@,
            cmdbar_prompt: self.cmdbar_prompt@,
            cmdbar_suggestion: self.cmdbar_suggestion@,
        }
    }
}

impl CommandProcessor {
    /// Creates the machine in its starting state, as `new_proc_view`
    /// describes it.
    pub fn new() -> (r: CommandProcessor)
        ensures
            r@ == new_proc_view(),
    {
        let r = CommandProcessor {
            command_mode: true,
            command: String::new(),
            unknown_cmd: false,
            cmdbar_show: String::new(),
            cmdbar_prompt: String::from_str("New workspace"),
            cmdbar_suggestion: String::new(),
        };
        proof {
            assert(r@ =~= new_proc_view());
        }
        r
    }

    /// The echoed text of the command bar: the buffer as of its last
    /// change.
    pub fn get_show(&self) -> (r: &String)
        ensures
            r@ == self@.cmdbar_show,
    {
        &self.cmdbar_show
    }

    /// The prompt of the command bar: the matched name, the greeting, or
    /// the unknown-command notice.
    pub fn get_prompt(&self) -> (r: &String)
        ensures
            r@ == self@.cmdbar_prompt,
    {
        &self.cmdbar_prompt
    }

    /// The suggested remainder of a partially matched keybinding.
    pub fn get_suggestion(&self) -> (r: &String)
        ensures
            r@ == self@.cmdbar_suggestion,
    {
        &self.cmdbar_suggestion
    }

    /// Whether the buffer currently matches no keybinding.
    pub fn unknown(&self) -> (r: bool)
        ensures
            r == self@.unknown_cmd,
    {
        self.unknown_cmd
    }

    /// Whether keystrokes are treated as command input, as
    /// `command_active` describes it.
    pub fn is_command_mode(&self) -> (r: bool)
        ensures
            r == command_active(self@),
    {
        self.command_mode || str_starts_with(self.command.as_str(), "C-") || str_starts_with(
            self.command.as_str(),
            "A-",
        )
    }

    /// Feeds one key event to the machine, as `key_event_spec` describes
    /// it.
    pub fn key_event(&mut self, key: Key)
        ensures
            final(self)@ == key_event_spec(old(self)@, key),
    {
        match key {
            Key::Backspace => {
                if self.command_mode {
                    self.command.pop();
                    self.cmdbar_show = self.command.clone();
                }
                proof {
                    assert(self@ =~= key_event_spec(old(self)@, key));
                }
            },
            Key::Enter => {
                if self.command_mode {
                    self.command = String::new();
                    self.cmdbar_show = String::new();
                }
                proof {
                    assert(self@ =~= key_event_spec(old(self)@, key));
                }
            },
            Key::Char { c, control, alt } => {
                if self.command_mode || control || alt {
                    if control {
                        self.command.append("C-");
                    } else if alt {
                        self.command.append("A-");
                    }
                    self.command.push(c);
                    if control || alt {
                        self.command.push(' ');
                    }
                    self.cmdbar_show = self.command.clone();
                    proof {
                        reveal_strlit("C-");
                        reveal_strlit("A-");
                        reveal_strlit(" ");
                        assert(self.command@ =~= old(self)@.command + chord_encoding(
                            c,
                            control,
                            alt,
                        ));
                    }
                }
                proof {
                    assert(self@ =~= key_event_spec(old(self)@, key));
                }
            },
            Key::Other => {
                proof {
                    assert(self@ =~= key_event_spec(old(self)@, key));
                }
            },
        }
    }

    /// Runs the commit step against the command table, as `process_spec`
    /// describes it: recomputes the classification of the buffer, applies
    /// a full match's command, and returns whether the host must quit
    /// together with the effects the commit produced, in order.
    pub fn process(
        &mut self,
        map: &Vec<(String, ConfigValue)>,
        screen_size: (u16, u16),
        ids: &mut IdAlloc,
    ) -> (r: (bool, Vec<Effect>))
        requires
            old(ids)@ < usize::MAX,
        ensures
            ({
                let out = process_spec(old(self)@, map@, screen_size, old(ids)@);
                &&& final(self)@ == out.proc
                &&& final(ids)@ == out.next_id
                &&& r.0 == out.quit
                &&& (match out.new_window {
                    Some(w) => r.1@.len() == 1 && r.1@[0]@ == w,
                    None => r.1@.len() == 0,
                })
            }),
    {
        let ghost out = process_spec(old(self)@, map@, screen_size, old(ids)@);
        let trimmed = trim_trailing_spaces(self.command.as_str());
        let mut effects: Vec<Effect> = Vec::new();
        match iterate_config(map, trimmed.as_str()) {
            Some((name, k, full)) => {
                if full {
                    self.cmdbar_prompt = name.clone();
                    self.cmdbar_suggestion = String::new();
                    self.unknown_cmd = false;
                    self.command = String::new();
                    let mut quit = false;
                    if str_eq(name.as_str(), "quit") {
                        quit = true;
                    } else if str_eq(name.as_str(), "new-window") {
                        let win = new_window(ids, screen_size);
                        effects.push(Effect::NewWindow(win));
                        self.command_mode = false;
                    } else if str_eq(name.as_str(), "edit-mode") {
                        self.command_mode = false;
                    } else if str_eq(name.as_str(), "command-mode") {
                        self.command_mode = true;
                    }
                    proof {
                        assert(self@ =~= out.proc);
                    }
                    (quit, effects)
                } else {
                    proof {
                        lemma_partial_concat_reproduces(map@, trimmed@);
                    }
                    self.cmdbar_prompt = name;
                    let qlen = trimmed.as_str().unicode_len();
                    let klen = k.as_str().unicode_len();
                    let rem = k.as_str().substring_char(qlen, klen);
                    self.cmdbar_suggestion = String::from_str(rem);
                    self.unknown_cmd = false;
                    proof {
                        assert(self@.cmdbar_suggestion =~= out.proc.cmdbar_suggestion);
                        assert(self@ =~= out.proc);
                    }
                    (false, effects)
                }
            },
            None => {
                if !self.command.as_str().is_empty() {
                    self.cmdbar_prompt = String::from_str("Unknown command");
                    self.cmdbar_suggestion = String::new();
                    self.unknown_cmd = true;
                } else {
                    self.cmdbar_prompt = String::new();
                    self.cmdbar_suggestion = String::new();
                    self.unknown_cmd = false;
                }
                proof {
                    assert(self@ =~= out.proc);
                }
                (false, effects)
            },
        }
    }
}

/// Backspacing directly after inserting one unmodified printable character
/// undoes the insertion: the buffer returns to what it was, and nothing
/// else of the machine changes. In command-entry mode the echoed text then
/// equals the restored buffer; outside it both keys are ignored.
pub proof fn lemma_backspace_undoes_insert(p: ProcView, c: char)
    ensures
        p.command_mode ==> key_event_spec(
            key_event_spec(p, Key::Char { c, control: false, alt: false }),
            Key::Backspace,
        ) == (ProcView { command: p.command, cmdbar_show: p.command, ..p }),
        !p.command_mode ==> key_event_spec(
            key_event_spec(p, Key::Char { c, control: false, alt: false }),
            Key::Backspace,
        ) == p,
{
    if p.command_mode {
        let p1 = key_event_spec(p, Key::Char { c, control: false, alt: false });
        assert(p1.command =~= p.command.push(c));
        assert(p1.command.drop_last() =~= p.command);
        assert(key_event_spec(p1, Key::Backspace) =~= (ProcView {
            command: p.command,
            cmdbar_show: p.command,
            ..p
        }));
    }
}

} // verus!
