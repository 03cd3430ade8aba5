//! The interaction engine of the pager: the session state, the key-event
//! state machine, file-content replacement, and the render composition that
//! picks the visible slice of content.
//!
//! Every transition is specified against `AppV`, the mathematical view of a
//! session, by the transition function [`spec_step`].

use vstd::prelude::*;
use vstd::string::StringExecFns;

use crate::scroll::{clamp_scroll, spec_clamp};
use crate::text::{count_newlines, lemma_views_of_push, spec_count_newlines, spec_lines, split_lines, views_of};

verus! {

/// The interaction mode: plain viewing, or one of the two prompts that
/// capture typed text.
#[derive(Clone, Copy, PartialEq, Eq, Debug)]
pub enum UiState {
    Main,
    FilePrompt,
    SearchPrompt,
}

/// A key event, reduced to what the state machine reads: the printable
/// character typed, one of the recognised control keys, or anything else.
#[derive(Clone, Copy, PartialEq, Eq, Debug)]
pub enum Key {
    Char(char),
    Esc,
    Enter,
    Backspace,
    Up,
    Down,
    Other,
}

/// What the caller of the state machine must do next: keep going, stop the
/// session, or re-read the active file and hand the outcome back through
/// [`App::apply_read_result`].
#[derive(Clone, Copy, PartialEq, Eq, Debug)]
pub enum Step {
    Continue,
    Quit,
    LoadFile,
}

/// The mathematical view of a session: every string as its character
/// sequence, every count as a natural number.
#[verifier::ext_equal]
pub ghost struct AppV {
    pub filename: Seq<char>,
    pub tmpbuf: Seq<char>,
    pub content: Seq<char>,
    pub search: Seq<char>,
    pub lines: nat,
    pub log: Seq<char>,
    pub cur: nat,
    pub state: UiState,
}

/// A pager session: the active file, its cached content and newline count,
/// the scroll position, and the interaction mode. The terminal itself is not
/// here — callers own it and feed key events in.
pub struct App {
    pub filename: String,
    pub tmpbuf: String,
    pub content: String,
    pub search: String,
    pub lines: usize,
    pub log: String,
    pub cur: usize,
    pub state: UiState,
}

impl View for App {
    type V = AppV;

    open spec fn view(&self) -> AppV {
        AppV {
            filename: self.filename@,
            tmpbuf: self.tmpbuf@,
            content: self.content@,
            search: self.search@,
            lines: self.lines as nat,
            log: self.log@,
            cur: self.cur as nat,
            state: self.state,
        }
    }
}

/// The label shown when a prompt of the given mode is opened.
pub open spec fn spec_prompt(s: UiState) -> Seq<char> {
    match s {
        UiState::Main => Seq::<char>::empty(),
        UiState::FilePrompt => "ENTER FILENAME: "@,
        UiState::SearchPrompt => "SEARCH STRING: "@,
    }
}

/// The prompt label of a mode: empty while viewing, the input caption in
/// either prompting mode.
pub fn prompt_string(s: &UiState) -> (r: String)
    ensures
        r@ == spec_prompt(*s),
{
    match s {
        UiState::Main => String::new(),
        UiState::FilePrompt => String::from_str("ENTER FILENAME: "),
        UiState::SearchPrompt => String::from_str("SEARCH STRING: "),
    }
}

/// One step of the state machine while viewing: quit keys, prompt openers,
/// scrolling, and a logged no-op for everything else.
pub open spec fn spec_main_step(v: AppV, key: Key) -> (AppV, Step) {
    match key {
        Key::Char(c) => if c == 'q' {
            (v, Step::Quit)
        } else if c == 'o' {
            (
                AppV {
                    state: UiState::FilePrompt,
                    tmpbuf: Seq::<char>::empty(),
                    log: spec_prompt(UiState::FilePrompt),
                    ..v
                },
                Step::Continue,
            )
        } else if c == 's' {
            (
                AppV {
                    state: UiState::SearchPrompt,
                    tmpbuf: Seq::<char>::empty(),
                    log: spec_prompt(UiState::SearchPrompt),
                    ..v
                },
                Step::Continue,
            )
        } else {
            (AppV { log: "Got unhandled KeyCode"@, ..v }, Step::Continue)
        },
        Key::Esc => (v, Step::Quit),
        Key::Down => (
            AppV {
                cur: if v.cur < usize::MAX as nat {
                    v.cur + 1
                } else {
                    v.cur
                },
                log: "Got KeyCode Down"@,
                ..v
            },
            Step::Continue,
        ),
        Key::Up => (
            AppV {
                cur: if v.cur > 0 {
                    (v.cur - 1) as nat
                } else {
                    0
                },
                log: "Got KeyCode Up"@,
                ..v
            },
            Step::Continue,
        ),
        _ => (AppV { log: "Got unhandled KeyCode"@, ..v }, Step::Continue),
    }
}

/// One step of the state machine while prompting: Esc quits, Enter commits
/// the buffer (to the filename or to the search term), Backspace and typed
/// characters edit the buffer, anything else is ignored. Esc is deliberately
/// taken as terminating the whole session, not as cancelling the prompt.
pub open spec fn spec_input_step(v: AppV, key: Key) -> (AppV, Step) {
    match key {
        Key::Esc => (v, Step::Quit),
        Key::Enter => if v.state == UiState::FilePrompt {
            (
                AppV {
                    filename: v.tmpbuf,
                    log: "Got: "@ + v.tmpbuf,
                    tmpbuf: Seq::<char>::empty(),
                    cur: 0,
                    state: UiState::Main,
                    ..v
                },
                Step::LoadFile,
            )
        } else if v.state == UiState::SearchPrompt {
            (
                AppV {
                    search: v.tmpbuf,
                    log: "Got: "@ + v.tmpbuf,
                    tmpbuf: Seq::<char>::empty(),
                    state: UiState::Main,
                    ..v
                },
                Step::Continue,
            )
        } else {
            (v, Step::Continue)
        },
        Key::Backspace => {
            let buf = if v.tmpbuf.len() > 0 {
                v.tmpbuf.drop_last()
            } else {
                v.tmpbuf
            };
            (AppV { tmpbuf: buf, log: spec_prompt(v.state) + ": "@ + buf, ..v }, Step::Continue)
        },
        Key::Char(c) => {
            let buf = v.tmpbuf.push(c);
            (AppV { tmpbuf: buf, log: spec_prompt(v.state) + " "@ + buf, ..v }, Step::Continue)
        },
        _ => (v, Step::Continue),
    }
}

/// The full transition function: dispatch on the current mode.
pub open spec fn spec_step(v: AppV, key: Key) -> (AppV, Step) {
    match v.state {
        UiState::Main => spec_main_step(v, key),
        _ => spec_input_step(v, key),
    }
}

/// The session after new content has been loaded for the active file: the
/// content is replaced and the newline count recomputed; nothing else moves.
pub open spec fn spec_loaded(v: AppV, text: Seq<char>) -> AppV {
    AppV { content: text, lines: spec_count_newlines(text), ..v }
}

/// The session after one render: the scroll offset is written back as its
/// clamped value; nothing else moves.
pub open spec fn spec_rendered(v: AppV, h: int) -> AppV {
    AppV { cur: spec_clamp(v.lines as int, h, v.cur as int) as nat, ..v }
}

/// The lines visible in a viewport of height `h`: the lines of the content
/// from the clamped offset through the end (empty when the clamped offset
/// lies past the last line).
pub open spec fn spec_visible(v: AppV, h: int) -> Seq<Seq<char>> {
    let ls = spec_lines(v.content);
    let eff = spec_clamp(v.lines as int, h, v.cur as int);
    if eff <= ls.len() {
        ls.skip(eff)
    } else {
        Seq::<Seq<char>>::empty()
    }
}

/// Session well-formedness: the cached newline count is the newline count of
/// the content, and the prompt buffer is empty while viewing.
pub open spec fn wf(v: AppV) -> bool {
    &&& v.lines == spec_count_newlines(v.content)
    &&& v.state == UiState::Main ==> v.tmpbuf.len() == 0
}

/// The three text blocks a drawn frame is made of: the fixed help legend,
/// the visible slice of content lines, and the status/log line.
pub struct ViewModel {
    pub help: String,
    pub visible: Vec<String>,
    pub log: String,
}

impl App {
    /// Start a session on `filename` whose text has already been read into
    /// `content`: viewing mode, scroll at the top, empty buffers.
    pub fn new(filename: String, content: String) -> (app: App)
        ensures
            app@.filename == filename@,
            app@.content == content@,
            app@.lines == spec_count_newlines(content@),
            app@.cur == 0,
            app@.state == UiState::Main,
            app@.tmpbuf == Seq::<char>::empty(),
            app@.search == Seq::<char>::empty(),
            app@.log == "<log text goes here>"@,
            wf(app@),
    {
        let lines = count_newlines(content.as_str());
        App {
            filename,
            tmpbuf: String::new(),
            content,
            search: String::new(),
            lines,
            log: String::from_str("<log text goes here>"),
            cur: 0,
            state: UiState::Main,
        }
    }

    /// React to one key event: the session moves to `spec_step`'s next state
    /// and the caller is told whether to continue, quit, or reload the file.
    pub fn handle_key_event(&mut self, key: Key) -> (r: Step)
        ensures
            final (self)@ == spec_step(old(self)@, key).0,
            r == spec_step(old(self)@, key).1,
    {
        match self.state {
            UiState::Main => self.handle_main_key_event(key),
            UiState::FilePrompt => self.handle_input_key_event(key),
            UiState::SearchPrompt => self.handle_input_key_event(key),
        }
    }

    /// The viewing-mode half of the state machine.
    pub fn handle_main_key_event(&mut self, key: Key) -> (r: Step)
        ensures
            final (self)@ == spec_main_step(old(self)@, key).0,
            r == spec_main_step(old(self)@, key).1,
    {
        match key {
            Key::Char(c) => {
                if c == 'q' {
                    Step::Quit
                } else if c == 'o' {
                    self.state = UiState::FilePrompt;
                    self.tmpbuf = String::new();
                    self.log = prompt_string(&self.state);
                    proof {
                        assert(self@ =~= spec_main_step(old(self)@, key).0);
                    }
                    Step::Continue
                } else if c == 's' {
                    self.state = UiState::SearchPrompt;
                    self.tmpbuf = String::new();
                    self.log = prompt_string(&self.state);
                    proof {
                        assert(self@ =~= spec_main_step(old(self)@, key).0);
                    }
                    Step::Continue
                } else {
                    self.log = String::from_str("Got unhandled KeyCode");
                    proof {
                        assert(self@ =~= spec_main_step(old(self)@, key).0);
                    }
                    Step::Continue
                }
            },
            Key::Esc => Step::Quit,
            Key::Down => {
                if self.cur < usize::MAX {
                    self.cur = self.cur + 1;
                }
                self.log = String::from_str("Got KeyCode Down");
                proof {
                    assert(self@ =~= spec_main_step(old(self)@, key).0);
                }
                Step::Continue
            },
            Key::Up => {
                if self.cur > 0 {
                    self.cur = self.cur - 1;
                }
                self.log = String::from_str("Got KeyCode Up");
                proof {
                    assert(self@ =~= spec_main_step(old(self)@, key).0);
                }
                Step::Continue
            },
            _ => {
                self.log = String::from_str("Got unhandled KeyCode");
                proof {
                    assert(self@ =~= spec_main_step(old(self)@, key).0);
                }
                Step::Continue
            },
        }
    }

    /// The prompting-mode half of the state machine: shared text editing for
    /// both prompts, with the commit action chosen by the mode.
    pub fn handle_input_key_event(&mut self, key: Key) -> (r: Step)
        ensures
            final (self)@ == spec_input_step(old(self)@, key).0,
            r == spec_input_step(old(self)@, key).1,
    {
        match key {
            Key::Esc => Step::Quit,
            Key::Enter => {
                match self.state {
                    UiState::FilePrompt => {
                        self.filename = self.tmpbuf.clone();
                        self.log = String::from_str("Got: ").concat(self.tmpbuf.as_str());
                        self.tmpbuf = String::new();
                        self.cur = 0;
                        self.state = UiState::Main;
                        proof {
                            assert(self@ =~= spec_input_step(old(self)@, key).0);
                        }
                        Step::LoadFile
                    },
                    UiState::SearchPrompt => {
                        self.search = self.tmpbuf.clone();
                        self.log = String::from_str("Got: ").concat(self.tmpbuf.as_str());
                        self.tmpbuf = String::new();
                        self.state = UiState::Main;
                        proof {
                            assert(self@ =~= spec_input_step(old(self)@, key).0);
                        }
                        Step::Continue
                    },
                    UiState::Main => Step::Continue,
                }
            },
            Key::Backspace => {
                self.tmpbuf.pop();
                self.log = prompt_string(&self.state).concat(": ").concat(self.tmpbuf.as_str());
                proof {
                    assert(self@ =~= spec_input_step(old(self)@, key).0);
                }
                Step::Continue
            },
            Key::Char(c) => {
                self.tmpbuf.push(c);
                self.log = prompt_string(&self.state).concat(" ").concat(self.tmpbuf.as_str());
                proof {
                    assert(self@ =~= spec_input_step(old(self)@, key).0);
                }
                Step::Continue
            },
            _ => Step::Continue,
        }
    }

    /// Install the outcome of reading the active file: the text itself on
    /// success, or a diagnostic placeholder embedding the error on failure.
    /// Either way the newline count is recomputed and the session lives on.
    pub fn apply_read_result(&mut self, res: Result<String, String>)
        ensures
            final (self)@ == match res {
                Ok(txt) => spec_loaded(old(self)@, txt@),
                Err(e) => spec_loaded(old(self)@, "ERROR: "@ + e@),
            },
    {
        let content = match res {
            Ok(txt) => txt,
            Err(e) => String::from_str("ERROR: ").concat(e.as_str()),
        };
        self.lines = count_newlines(content.as_str());
        self.content = content;
        proof {
            assert(self@ =~= match res {
                Ok(txt) => spec_loaded(old(self)@, txt@),
                Err(e) => spec_loaded(old(self)@, "ERROR: "@ + e@),
            });
        }
    }

    /// Compose one frame for a content region `height` rows tall: the fixed
    /// help legend, the visible slice of content lines, and the log text.
    /// The clamped scroll offset is written back into the session, so that a
    /// later `Up` press moves from the offset actually shown.
    pub fn compose_view(&mut self, height: usize) -> (vm: ViewModel)
        ensures
            final (self)@ == spec_rendered(old(self)@, height as int),
            vm.help@ == "Quit=q/Esq , Scroll=Up/Down , OpenFile:o , Search:s"@,
            vm.log@ == old(self)@.log,
            views_of(vm.visible@) == spec_visible(old(self)@, height as int),
    {
        let lines_vec = split_lines(self.content.as_str());
        let eff = clamp_scroll(self.lines, height, self.cur);
        self.cur = eff;
        let start = if eff < lines_vec.len() {
            eff
        } else {
            lines_vec.len()
        };
        let mut visible: Vec<String> = Vec::new();
        let mut j: usize = start;
        while j < lines_vec.len()
            invariant
                start <= j <= lines_vec.len(),
                views_of(visible@) =~= views_of(lines_vec@).subrange(start as int, j as int),
            decreases lines_vec.len() - j,
        {
            let ghost pre = visible@;
            let line = lines_vec[j].clone();
            visible.push(line);
            proof {
                lemma_views_of_push(pre, line);
                assert(views_of(visible@) =~= views_of(lines_vec@).subrange(start as int, j + 1));
            }
            j = j + 1;
        }
        proof {
            assert(self@ =~= spec_rendered(old(self)@, height as int));
            assert(views_of(visible@) =~= spec_visible(old(self)@, height as int));
        }
        ViewModel {
            help: String::from_str("Quit=q/Esq , Scroll=Up/Down , OpenFile:o , Search:s"),
            visible,
            log: self.log.clone(),
        }
    }
}

} // verus!
