use vstd::prelude::*;

use crate::api::IdAlloc;
use crate::colortheme::{get_value, table_get, theme_spec, ColorTheme};
use crate::command::{
    key_event_spec, new_proc_view, process_spec, CommandProcessor, Effect, Key, ProcView,
};
use crate::config::{cmd_table_wf, check_cmd_table, Config, ConfigValue};
use crate::width::{fit_len, lemma_fit_len, str_cols, take_cols};
use crate::window::editor::EditorView;
use crate::window::Window;

verus! {

/// A terminal event as this core reads it: focus changes, a key event, a
/// resize to new dimensions, and the mouse and paste events that are
/// received and deliberately ignored.
pub enum Event {
    FocusGained,
    FocusLost,
    Key(Key),
    Mouse,
    Paste,
    Resize(u16, u16),
}

/// What the host must do with the cursor after an event.
#[derive(Clone, Copy, PartialEq, Eq, Structural, Debug)]
pub enum CursorAction {
    Show,
    Hide,
    Keep,
}

/// The views of the registered windows, in registry order.
pub open spec fn window_views(ws: Seq<Window>) -> Seq<EditorView> {
    ws.map_values(|w: Window| w@)
}

/// A well-formed window registry: window identifiers strictly increase in
/// registry order and stay below the allocator's next identifier, so no
/// two windows share an identifier and no registered identifier is ever
/// handed out again.
pub open spec fn registry_wf(ws: Seq<EditorView>, next_id: int) -> bool {
    &&& forall|i: int, j: int|
        0 <= i < j < ws.len() ==> (#[trigger] ws[i]).id < (#[trigger] ws[j]).id
    &&& forall|i: int| 0 <= i < ws.len() ==> (#[trigger] ws[i]).id < next_id
}

/// Window identifiers in a well-formed registry never repeat: windows at
/// different positions carry different identifiers, however many commits
/// came between their creations.
pub proof fn lemma_window_ids_never_repeat(ws: Seq<EditorView>, next_id: int)
    requires
        registry_wf(ws, next_id),
    ensures
        forall|i: int, j: int|
            0 <= i < ws.len() && 0 <= j < ws.len() && i != j ==> (#[trigger] ws[i]).id != (
            #[trigger] ws[j]).id,
{
}

/// A commit only moves the identifier allocator forward, and a window it
/// creates carries exactly the allocator's reading at the commit.
pub proof fn lemma_commit_allocates_forward(
    p: ProcView,
    map: Seq<(String, ConfigValue)>,
    screen_size: (u16, u16),
    next_id: int,
)
    ensures
        process_spec(p, map, screen_size, next_id).next_id >= next_id,
        process_spec(p, map, screen_size, next_id).new_window matches Some(w) ==> w.id == next_id
            && process_spec(p, map, screen_size, next_id).next_id == next_id + 1,
{
}

/// Window identifiers strictly increase across commits: when one commit
/// creates a window, every window created by a commit that starts at or
/// past the first commit's allocator — however many commits run in
/// between, and whatever they dispatch — carries a strictly greater
/// identifier.
pub proof fn lemma_commit_ids_increase(
    p1: ProcView,
    map1: Seq<(String, ConfigValue)>,
    size1: (u16, u16),
    n1: int,
    p2: ProcView,
    map2: Seq<(String, ConfigValue)>,
    size2: (u16, u16),
    n2: int,
)
    requires
        process_spec(p1, map1, size1, n1).new_window is Some,
        process_spec(p2, map2, size2, n2).new_window is Some,
        n2 >= process_spec(p1, map1, size1, n1).next_id,
    ensures
        process_spec(p2, map2, size2, n2).new_window->Some_0.id > process_spec(
            p1,
            map1,
            size1,
            n1,
        ).new_window->Some_0.id,
{
}

/// The mathematical status line: the three texts, the number of blank
/// columns that pad the line, and whether the echoed text names an unknown
/// command.
#[verifier::ext_equal]
pub struct StatusView {
    pub show: Seq<char>,
    pub suggestion: Seq<char>,
    pub prompt: Seq<char>,
    pub pad: nat,
    pub unknown: bool,
}

/// One composed status line, ready to draw: the echoed text, the
/// suggestion and the prompt, each truncated to its remaining column
/// budget, and the number of blank columns that pad the line to the
/// terminal's width. The unknown flag picks the color of the echoed text.
pub struct StatusLine {
    pub show: String,
    pub suggestion: String,
    pub prompt: String,
    pub pad: usize,
    pub unknown: bool,
}

impl View for StatusLine {
    type V = StatusView;

    open spec fn view(&self) -> StatusView {
        StatusView {
            show: self.show@,
            suggestion: self.suggestion@,
            prompt: self.prompt@,
            pad: self.pad as nat,
            unknown: self.unknown,
        }
    }
}

/// The status line composed for a terminal of `cols` columns: one column
/// is held back, and within the rest the echoed text, then the suggestion,
/// then the prompt — behind a separator whenever text precedes it — are
/// each truncated to the budget that the parts before them leave, measured
/// in display columns; blanks pad the line to the full width.
pub open spec fn compose_spec(
    show: Seq<char>,
    suggestion: Seq<char>,
    prompt: Seq<char>,
    unknown: bool,
    cols: nat,
) -> StatusView {
    let budget = if cols == 0 {
        0nat
    } else {
        (cols - 1) as nat
    };
    let show1 = show.take(fit_len(show, budget) as int);
    let x1 = str_cols(show1);
    let b1 = if x1 <= budget {
        (budget - x1) as nat
    } else {
        0nat
    };
    let sugg1 = suggestion.take(fit_len(suggestion, b1) as int);
    let x2 = x1 + str_cols(sugg1);
    let pfield = if x2 == 0 {
        prompt
    } else {
        " - "@ + prompt
    };
    let b2 = if x2 <= budget {
        (budget - x2) as nat
    } else {
        0nat
    };
    let prompt1 = pfield.take(fit_len(pfield, b2) as int);
    let x3 = x2 + str_cols(prompt1);
    let pad = if x3 <= cols {
        (cols - x3) as nat
    } else {
        0nat
    };
    StatusView { show: show1, suggestion: sugg1, prompt: prompt1, pad, unknown }
}

/// The total number of columns a status line occupies: its three texts and
/// its padding, each blank one column wide.
pub open spec fn status_cols(l: StatusView) -> nat {
    str_cols(l.show) + str_cols(l.suggestion) + str_cols(l.prompt) + l.pad
}

/// The status line never overflows the terminal: however wide the echoed
/// text, the suggestion and the prompt are — double-column glyphs included
/// — the composed line occupies at most the terminal's column count, and
/// exactly that count whenever the terminal has any width at all.
pub proof fn lemma_status_line_fits(
    show: Seq<char>,
    suggestion: Seq<char>,
    prompt: Seq<char>,
    unknown: bool,
    cols: nat,
)
    ensures
        status_cols(compose_spec(show, suggestion, prompt, unknown, cols)) <= cols,
        cols > 0 ==> status_cols(compose_spec(show, suggestion, prompt, unknown, cols)) == cols,
{
    let budget = if cols == 0 {
        0nat
    } else {
        (cols - 1) as nat
    };
    lemma_fit_len(show, budget);
    let show1 = show.take(fit_len(show, budget) as int);
    let x1 = str_cols(show1);
    let b1 = if x1 <= budget {
        (budget - x1) as nat
    } else {
        0nat
    };
    lemma_fit_len(suggestion, b1);
    let sugg1 = suggestion.take(fit_len(suggestion, b1) as int);
    let x2 = x1 + str_cols(sugg1);
    let pfield = if x2 == 0 {
        prompt
    } else {
        " - "@ + prompt
    };
    let b2 = if x2 <= budget {
        (budget - x2) as nat
    } else {
        0nat
    };
    lemma_fit_len(pfield, b2);
}

/// Composes the status line for a terminal of `cols` columns, as
/// `compose_spec` describes it.
pub fn compose_status(
    show: &str,
    suggestion: &str,
    prompt: &str,
    unknown: bool,
    cols: u16,
) -> (r: StatusLine)
    ensures
        r@ == compose_spec(show@, suggestion@, prompt@, unknown, cols as nat),
{
    let budget: usize = if cols == 0 {
        0
    } else {
        (cols - 1) as usize
    };
    let (show1, x1) = take_cols(show, budget);
    let (sugg1, w2) = take_cols(suggestion, budget - x1);
    let x2 = x1 + w2;
    let pfield = if x2 == 0 {
        String::from_str(prompt)
    } else {
        let mut t = String::from_str(" - ");
        t.append(prompt);
        t
    };
    let (prompt1, w3) = take_cols(pfield.as_str(), budget - x2);
    let x3 = x2 + w3;
    let pad = (cols as usize) - x3;
    let r = StatusLine { show: show1, suggestion: sugg1, prompt: prompt1, pad, unknown };
    proof {
        assert(r@ =~= compose_spec(show@, suggestion@, prompt@, unknown, cols as nat));
    }
    r
}

/// The mathematical state of the application.
#[verifier::ext_equal]
pub struct AppView {
    pub config: Seq<(String, ConfigValue)>,
    pub colortheme: ColorTheme,
    pub size: (u16, u16),
    pub windows: Seq<EditorView>,
    pub proc: ProcView,
    pub next_id: int,
}

/// The configuration's command table: the table under "command", read as
/// empty where the name is missing or holds another shape — which a
/// well-formed application has ruled out at startup.
pub open spec fn command_table(config: Seq<(String, ConfigValue)>) -> Seq<(String, ConfigValue)> {
    match table_get(config, "command"@) {
        Some(v) => match v {
            ConfigValue::Table(m) => m@,
            _ => Seq::empty(),
        },
        None => Seq::empty(),
    }
}

/// The configuration's color table: the table under "colortheme", read as
/// empty where the name is missing or holds another shape.
pub open spec fn theme_table(config: Seq<(String, ConfigValue)>) -> Seq<(String, ConfigValue)> {
    match table_get(config, "colortheme"@) {
        Some(v) => match v {
            ConfigValue::Table(m) => m@,
            _ => Seq::empty(),
        },
        None => Seq::empty(),
    }
}

/// The table under the given name in the configuration, or `None` when the
/// name is missing or holds another kind of value.
fn get_table<'a>(es: &'a Vec<(String, ConfigValue)>, name: &str) -> (r: Option<
    &'a Vec<(String, ConfigValue)>,
>)
    ensures
        r matches Some(m) ==> table_get(es@, name@) == Some(ConfigValue::Table(*m)),
        r is None ==> !(table_get(es@, name@) matches Some(ConfigValue::Table(_))),
{
    match get_value(es, name) {
        Some(v) => match v {
            ConfigValue::Table(m) => Some(m),
            _ => None,
        },
        None => None,
    }
}

/// An acceptable configuration: a color table under "colortheme" that
/// denotes a theme, and a well-formed command table under "command".
/// Startup fails on anything else.
pub open spec fn config_ok(config: Seq<(String, ConfigValue)>) -> bool {
    &&& table_get(config, "colortheme"@) matches Some(ConfigValue::Table(ct)) && theme_spec(ct@)
        is Some
    &&& table_get(config, "command"@) matches Some(ConfigValue::Table(cm)) && cmd_table_wf(cm@)
}

/// A well-formed application: its configuration is acceptable and its
/// window registry is well formed against its identifier allocator.
pub open spec fn app_wf(a: AppView) -> bool {
    &&& config_ok(a.config)
    &&& registry_wf(a.windows, a.next_id)
}

/// The application state this core owns: the configuration, the palette
/// resolved from it, the cached screen size, the window registry, the
/// input state machine and the window identifier allocator. The host wraps
/// it with the terminal and drives it with events.
pub struct Application {
    config: Config,
    colortheme: ColorTheme,
    size: (u16, u16),
    windows: Vec<Window>,
    cmdprocessor: CommandProcessor,
    ids: IdAlloc,
}

impl View for Application {
    type V = AppView;

    closed spec fn view(&self) -> AppView {
        AppView {
            config: self.config@,
            colortheme: self.colortheme,
            size: self.size,
            windows: window_views(self.windows@),
            proc: self.cmdprocessor@,
            next_id: self.ids@,
        }
    }
}

/// The transition of the application on one terminal event: focus changes
/// ask the host to show or hide the cursor, a key event goes to the input
/// state machine, which decides itself what to do with it, a resize caches
/// the new screen dimensions for every later render, and mouse and paste
/// events change nothing.
pub open spec fn handle_event_spec(a: AppView, e: Event) -> (AppView, CursorAction) {
    match e {
        Event::FocusGained => (a, CursorAction::Show),
        Event::FocusLost => (a, CursorAction::Hide),
        Event::Key(k) => (AppView { proc: key_event_spec(a.proc, k), ..a }, CursorAction::Keep),
        Event::Resize(w, h) => (AppView { size: (w, h), ..a }, CursorAction::Keep),
        Event::Mouse => (a, CursorAction::Keep),
        Event::Paste => (a, CursorAction::Keep),
    }
}

impl Application {
    /// Builds the application from a parsed configuration and the current
    /// screen size: resolves the palette from the "colortheme" table and
    /// checks the shape of the "command" table. Returns `None` — and
    /// startup must fail — when the configuration is not acceptable.
    pub fn new(config: Config, size: (u16, u16)) -> (r: Option<Application>)
        ensures
            r is Some <==> config_ok(config@),
            r matches Some(app) ==> app@ == (AppView {
                config: config@,
                colortheme: theme_spec(theme_table(config@))->Some_0,
                size,
                windows: Seq::empty(),
                proc: new_proc_view(),
                next_id: 0,
            }) && app_wf(app@),
    {
        let colortheme = match get_table(&config, "colortheme") {
            Some(ct) => match ColorTheme::from_config(ct) {
                Some(t) => t,
                None => {
                    return None;
                },
            },
            None => {
                return None;
            },
        };
        match get_table(&config, "command") {
            Some(cm) => {
                if !check_cmd_table(cm) {
                    return None;
                }
            },
            None => {
                return None;
            },
        }
        let app = Application {
            config,
            colortheme,
            size,
            windows: Vec::new(),
            cmdprocessor: CommandProcessor::new(),
            ids: IdAlloc::new(),
        };
        proof {
            assert(window_views(app.windows@) =~= Seq::<EditorView>::empty());
            assert(app@ =~= (AppView {
                config: app.config@,
                colortheme: app.colortheme,
                size,
                windows: Seq::empty(),
                proc: new_proc_view(),
                next_id: 0,
            }));
        }
        Some(app)
    }

    /// The palette resolved at startup.
    pub fn theme(&self) -> (r: ColorTheme)
        ensures
            r == self@.colortheme,
    {
        self.colortheme
    }

    /// The cached screen size used by every render.
    pub fn size(&self) -> (r: (u16, u16))
        ensures
            r == self@.size,
    {
        self.size
    }

    /// The registered windows, in registry order.
    pub fn windows(&self) -> (r: &Vec<Window>)
        ensures
            window_views(r@) == self@.windows,
    {
        &self.windows
    }

    /// The identifier the next created window will carry.
    pub fn next_window_id(&self) -> (r: usize)
        ensures
            r as int == self@.next_id,
    {
        self.ids.peek()
    }

    /// The input state machine.
    pub fn processor(&self) -> (r: &CommandProcessor)
        ensures
            r@ == self@.proc,
    {
        &self.cmdprocessor
    }

    /// Feeds one terminal event to the application, as `handle_event_spec`
    /// describes it, and returns what the host must do with the cursor.
    pub fn handle_event(&mut self, e: Event) -> (a: CursorAction)
        ensures
            final(self)@ == handle_event_spec(old(self)@, e).0,
            a == handle_event_spec(old(self)@, e).1,
    {
        match e {
            Event::FocusGained => CursorAction::Show,
            Event::FocusLost => CursorAction::Hide,
            Event::Key(k) => {
                self.cmdprocessor.key_event(k);
                proof {
                    assert(self@ =~= handle_event_spec(old(self)@, e).0);
                }
                CursorAction::Keep
            },
            Event::Resize(w, h) => {
                self.size = (w, h);
                proof {
                    assert(self@ =~= handle_event_spec(old(self)@, e).0);
                }
                CursorAction::Keep
            },
            Event::Mouse => CursorAction::Keep,
            Event::Paste => CursorAction::Keep,
        }
    }

    /// Runs the commit step of the input state machine against the
    /// configuration's command table, as `process_spec` describes it, and
    /// drains the returned effects into the window registry in order.
    /// Returns whether the host must quit. The registry stays well formed:
    /// a created window's identifier exceeds every registered one.
    pub fn command_process(&mut self) -> (quit: bool)
        requires
            app_wf(old(self)@),
            old(self)@.next_id < usize::MAX,
        ensures
            app_wf(final(self)@),
            ({
                let out = process_spec(
                    old(self)@.proc,
                    command_table(old(self)@.config),
                    old(self)@.size,
                    old(self)@.next_id,
                );
                &&& final(self)@.proc == out.proc
                &&& final(self)@.next_id == out.next_id
                &&& quit == out.quit
                &&& (match out.new_window {
                    Some(w) => final(self)@.windows == old(self)@.windows.push(w),
                    None => final(self)@.windows == old(self)@.windows,
                })
                &&& final(self)@.config == old(self)@.config
                &&& final(self)@.colortheme == old(self)@.colortheme
                &&& final(self)@.size == old(self)@.size
            }),
    {
        match get_table(&self.config, "command") {
            Some(map) => {
                proof {
                    assert(map@ == command_table(old(self)@.config));
                }
                let (quit, mut effects) = self.cmdprocessor.process(
                    map,
                    self.size,
                    &mut self.ids,
                );
                let ghost old_windows = window_views(self.windows@);
                let ghost pre_loop = self@;
                let ghost eff0 = effects@;
                let total = effects.len();
                let mut j: usize = 0;
                proof {
                    assert(effects@ =~= eff0.skip(0));
                    assert(window_views(self.windows@) =~= old_windows + eff0.take(
                        0,
                    ).map_values(|e: Effect| e@));
                }
                while j < total
                    invariant
                        j <= total,
                        total as nat == eff0.len(),
                        self@.config == pre_loop.config,
                        self@.colortheme == pre_loop.colortheme,
                        self@.size == pre_loop.size,
                        self@.proc == pre_loop.proc,
                        self@.next_id == pre_loop.next_id,
                        effects@ == eff0.skip(j as int),
                        window_views(self.windows@) == old_windows + eff0.take(
                            j as int,
                        ).map_values(|e: Effect| e@),
                    decreases total - j,
                {
                    let e = effects.remove(0);
                    proof {
                        assert(e == eff0[j as int]);
                        assert(eff0.skip(j as int).remove(0) =~= eff0.skip(j as int + 1));
                    }
                    match e {
                        Effect::NewWindow(win) => {
                            proof {
                                assert(window_views(self.windows@.push(win)) =~= window_views(
                                    self.windows@,
                                ).push(win@));
                                assert(eff0.take(j as int).push(eff0[j as int]) =~= eff0.take(
                                    j as int + 1,
                                ));
                                assert((old_windows + eff0.take(j as int).map_values(
                                    |e2: Effect| e2@,
                                )).push(eff0[j as int]@) =~= old_windows + eff0.take(
                                    j as int + 1,
                                ).map_values(|e2: Effect| e2@));
                            }
                            self.windows.push(win);
                        },
                    }
                    j = j + 1;
                }
                proof {
                    let out = process_spec(
                        old(self)@.proc,
                        command_table(old(self)@.config),
                        old(self)@.size,
                        old(self)@.next_id,
                    );
                    lemma_commit_allocates_forward(
                        old(self)@.proc,
                        command_table(old(self)@.config),
                        old(self)@.size,
                        old(self)@.next_id,
                    );
                    match out.new_window {
                        Some(w) => {
                            assert(eff0[0]@ == w);
                            assert(eff0.take(1).map_values(|e2: Effect| e2@) =~= seq![w]);
                            assert(old_windows + seq![w] =~= old_windows.push(w));
                            let ws2 = old_windows.push(w);
                            assert forall|i: int, j2: int|
                                0 <= i < j2 < ws2.len() implies (#[trigger] ws2[i]).id < (
                            #[trigger] ws2[j2]).id by {
                                if j2 < ws2.len() - 1 {
                                    assert(ws2[i] == old_windows[i]);
                                    assert(ws2[j2] == old_windows[j2]);
                                } else {
                                    assert(ws2[j2] == w);
                                    assert(ws2[i] == old_windows[i]);
                                    assert(old_windows[i].id < old(self)@.next_id);
                                }
                            }
                            assert forall|i: int| 0 <= i < ws2.len() implies (
                            #[trigger] ws2[i]).id < out.next_id by {
                                if i < ws2.len() - 1 {
                                    assert(ws2[i] == old_windows[i]);
                                    assert(old_windows[i].id < old(self)@.next_id);
                                } else {
                                    assert(ws2[i] == w);
                                }
                            }
                        },
                        None => {
                            assert(eff0.take(0).map_values(|e2: Effect| e2@) =~= Seq::<
                                EditorView,
                            >::empty());
                            assert(old_windows + Seq::<EditorView>::empty() =~= old_windows);
                        },
                    }
                }
                quit
            },
            None => {
                proof {
                    assert(false);
                }
                false
            },
        }
    }

    /// Composes the status line for the current screen from the input
    /// state machine's display strings, as `compose_spec` describes it.
    /// Its width is bounded by the screen's columns.
    pub fn render(&self) -> (r: StatusLine)
        ensures
            r@ == compose_spec(
                self@.proc.cmdbar_show,
                self@.proc.cmdbar_suggestion,
                self@.proc.cmdbar_prompt,
                self@.proc.unknown_cmd,
                self@.size.0 as nat,
            ),
            status_cols(r@) <= self@.size.0 as nat,
    {
        proof {
            lemma_status_line_fits(
                self@.proc.cmdbar_show,
                self@.proc.cmdbar_suggestion,
                self@.proc.cmdbar_prompt,
                self@.proc.unknown_cmd,
                self@.size.0 as nat,
            );
        }
        compose_status(
            self.cmdprocessor.get_show().as_str(),
            self.cmdprocessor.get_suggestion().as_str(),
            self.cmdprocessor.get_prompt().as_str(),
            self.cmdprocessor.unknown(),
            self.size.0,
        )
    }
}

/// Resizing applies to the very next render, with no command re-entered:
/// after the application handles a resize event, its cached size is the
/// new one, the input state is untouched, and the status line composed for
/// it is bounded by the new width.
pub proof fn lemma_resize_rerenders(a: AppView, w: u16, h: u16)
    ensures
        handle_event_spec(a, Event::Resize(w, h)).0.size == (w, h),
        handle_event_spec(a, Event::Resize(w, h)).0.proc == a.proc,
        status_cols(
            compose_spec(
                a.proc.cmdbar_show,
                a.proc.cmdbar_suggestion,
                a.proc.cmdbar_prompt,
                a.proc.unknown_cmd,
                w as nat,
            ),
        ) <= w as nat,
{
    lemma_status_line_fits(
        a.proc.cmdbar_show,
        a.proc.cmdbar_suggestion,
        a.proc.cmdbar_prompt,
        a.proc.unknown_cmd,
        w as nat,
    );
}

} // verus!
