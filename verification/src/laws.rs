//! Laws of the interaction engine, stated over whole sequences of key events
//! and proved against the transition function [`spec_step`].

use vstd::prelude::*;

use crate::scroll::{lemma_clamp_never_exceeds_bound, spec_clamp};
use crate::session::{spec_loaded, spec_rendered, spec_step, wf, AppV, Key, Step, UiState};
use crate::text::spec_count_newlines;

verus! {

/// The session after a whole sequence of key events, first to last.
pub open spec fn run_keys(v: AppV, keys: Seq<Key>) -> AppV
    decreases keys.len(),
{
    if keys.len() == 0 {
        v
    } else {
        run_keys(spec_step(v, keys[0]).0, keys.drop_first())
    }
}

/// Running one sequence of keys after another is running their concatenation.
pub proof fn lemma_run_keys_concat(v: AppV, a: Seq<Key>, b: Seq<Key>)
    ensures
        run_keys(v, a + b) == run_keys(run_keys(v, a), b),
    decreases a.len(),
{
    if a.len() == 0 {
        assert(a + b =~= b);
    } else {
        assert((a + b)[0] == a[0]);
        assert((a + b).drop_first() =~= a.drop_first() + b);
        lemma_run_keys_concat(spec_step(v, a[0]).0, a.drop_first(), b);
    }
}

/// Law: after any sequence of `Down` presses, the line count is untouched and
/// the offset shown after render-time clamping never exceeds
/// `max(0, line_count - height + 2)`.
pub proof fn lemma_downs_never_exceed_bound(v: AppV, keys: Seq<Key>, h: int)
    requires
        forall|i: int| 0 <= i < keys.len() ==> keys[i] == Key::Down,
    ensures
        run_keys(v, keys).lines == v.lines,
        spec_clamp(run_keys(v, keys).lines as int, h, run_keys(v, keys).cur as int)
            <= vstd::math::max(0, v.lines as int - h + 2),
    decreases keys.len(),
{
    if keys.len() == 0 {
        lemma_clamp_never_exceeds_bound(v.lines as int, h, v.cur as int);
    } else {
        let v1 = spec_step(v, keys[0]).0;
        assert(v1.lines == v.lines);
        assert forall|i: int| 0 <= i < keys.drop_first().len() implies keys.drop_first()[i]
            == Key::Down by {
            assert(keys.drop_first()[i] == keys[i + 1]);
        }
        lemma_downs_never_exceed_bound(v1, keys.drop_first(), h);
    }
}

/// Law: for a file that fits the viewport (line count at most the height),
/// the offset after clamping is zero regardless of any `Up`/`Down` input.
pub proof fn lemma_small_file_stays_at_top(v: AppV, keys: Seq<Key>, h: int)
    requires
        v.lines as int <= h,
        forall|i: int| 0 <= i < keys.len() ==> keys[i] == Key::Down || keys[i] == Key::Up,
    ensures
        run_keys(v, keys).lines == v.lines,
        spec_clamp(run_keys(v, keys).lines as int, h, run_keys(v, keys).cur as int) == 0,
    decreases keys.len(),
{
    if keys.len() > 0 {
        let v1 = spec_step(v, keys[0]).0;
        assert(v1.lines == v.lines);
        assert forall|i: int| 0 <= i < keys.drop_first().len() implies keys.drop_first()[i]
            == Key::Down || keys.drop_first()[i] == Key::Up by {
            assert(keys.drop_first()[i] == keys[i + 1]);
        }
        lemma_small_file_stays_at_top(v1, keys.drop_first(), h);
    }
}

/// Law: `Up` never takes the scroll offset below zero: from zero it stays at
/// zero, from anywhere else it moves up in the file by exactly one line.
pub proof fn lemma_up_never_below_zero(v: AppV)
    requires
        v.state == UiState::Main,
    ensures
        spec_step(v, Key::Up).0.cur == if v.cur > 0 {
            (v.cur - 1) as nat
        } else {
            0nat
        },
{
}

/// `n` presses of `Backspace`.
pub open spec fn backspace_keys(n: nat) -> Seq<Key> {
    Seq::new(n, |i: int| Key::Backspace)
}

/// In a prompting mode, a run of typed characters appends exactly as many
/// characters to the prompt buffer, leaves what was already there as its
/// prefix, and stays in the same prompt.
pub proof fn lemma_typing_appends(v: AppV, keys: Seq<Key>)
    requires
        v.state == UiState::FilePrompt || v.state == UiState::SearchPrompt,
        forall|i: int| 0 <= i < keys.len() ==> keys[i] is Char,
    ensures
        run_keys(v, keys).state == v.state,
        run_keys(v, keys).tmpbuf.len() == v.tmpbuf.len() + keys.len(),
        run_keys(v, keys).tmpbuf.take(v.tmpbuf.len() as int) == v.tmpbuf,
    decreases keys.len(),
{
    if keys.len() == 0 {
        assert(v.tmpbuf.take(v.tmpbuf.len() as int) =~= v.tmpbuf);
    } else {
        let v1 = spec_step(v, keys[0]).0;
        assert forall|i: int| 0 <= i < keys.drop_first().len() implies keys.drop_first()[i]
            is Char by {
            assert(keys.drop_first()[i] == keys[i + 1]);
        }
        lemma_typing_appends(v1, keys.drop_first());
        let end = run_keys(v, keys);
        assert(end.tmpbuf.take(v1.tmpbuf.len() as int).take(v.tmpbuf.len() as int) =~= end.tmpbuf
            .take(v.tmpbuf.len() as int));
        assert(v1.tmpbuf.take(v.tmpbuf.len() as int) =~= v.tmpbuf);
    }
}

/// In a prompting mode, `n` presses of `Backspace` remove the last `n`
/// characters of the prompt buffer (all of them, if it has fewer), and stay
/// in the same prompt.
pub proof fn lemma_backspaces_truncate(v: AppV, n: nat)
    requires
        v.state == UiState::FilePrompt || v.state == UiState::SearchPrompt,
    ensures
        run_keys(v, backspace_keys(n)).state == v.state,
        run_keys(v, backspace_keys(n)).tmpbuf == if n <= v.tmpbuf.len() {
            v.tmpbuf.take((v.tmpbuf.len() - n) as int)
        } else {
            Seq::<char>::empty()
        },
    decreases n,
{
    if n == 0 {
        assert(backspace_keys(0) =~= Seq::<Key>::empty());
        assert(v.tmpbuf.take(v.tmpbuf.len() as int) =~= v.tmpbuf);
    } else {
        let ks = backspace_keys(n);
        assert(ks[0] == Key::Backspace);
        let v1 = spec_step(v, Key::Backspace).0;
        assert(ks.drop_first() =~= backspace_keys((n - 1) as nat));
        lemma_backspaces_truncate(v1, (n - 1) as nat);
        if v.tmpbuf.len() == 0 {
            assert(v1.tmpbuf =~= Seq::<char>::empty());
        } else {
            assert(v1.tmpbuf =~= v.tmpbuf.take(v.tmpbuf.len() - 1));
            if n <= v.tmpbuf.len() {
                assert(v1.tmpbuf.take((v1.tmpbuf.len() - (n - 1)) as int) =~= v.tmpbuf.take(
                    (v.tmpbuf.len() - n) as int,
                ));
            }
        }
    }
}

/// Law (round trip): in a prompting mode, typing any run of characters and
/// then pressing `Backspace` the same number of times returns the prompt
/// buffer to what it was — in particular to empty, since the buffer is empty
/// whenever a prompt is opened.
pub proof fn lemma_type_then_backspace_restores(v: AppV, keys: Seq<Key>)
    requires
        v.state == UiState::FilePrompt || v.state == UiState::SearchPrompt,
        forall|i: int| 0 <= i < keys.len() ==> keys[i] is Char,
    ensures
        run_keys(v, keys + backspace_keys(keys.len())).tmpbuf == v.tmpbuf,
{
    lemma_run_keys_concat(v, keys, backspace_keys(keys.len()));
    lemma_typing_appends(v, keys);
    let v1 = run_keys(v, keys);
    lemma_backspaces_truncate(v1, keys.len());
}

/// Law: committing the open-file prompt installs the prompt buffer as the
/// active filename and asks for a reload; once the read outcome is applied,
/// the session is viewing the new content from the top — on a failed read
/// the content is the diagnostic placeholder and the session lives on.
pub proof fn lemma_commit_open_prompt(v: AppV, outcome: Result<Seq<char>, Seq<char>>)
    requires
        v.state == UiState::FilePrompt,
    ensures
        ({
            let (v1, step) = spec_step(v, Key::Enter);
            let text = match outcome {
                Ok(t) => t,
                Err(e) => "ERROR: "@ + e,
            };
            let v2 = spec_loaded(v1, text);
            &&& step == Step::LoadFile
            &&& v1.filename == v.tmpbuf
            &&& v2.filename == v.tmpbuf
            &&& v2.cur == 0
            &&& v2.state == UiState::Main
            &&& v2.content == text
            &&& v2.lines == spec_count_newlines(text)
        }),
{
}

/// Law: while viewing, `q` and `Esc` signal termination and change nothing.
pub proof fn lemma_quit_keys(v: AppV)
    requires
        v.state == UiState::Main,
    ensures
        spec_step(v, Key::Char('q')) == (v, Step::Quit),
        spec_step(v, Key::Esc) == (v, Step::Quit),
{
}

/// Invariant preservation: every key event keeps the session well-formed —
/// the cached newline count stays the newline count of the content, and the
/// prompt buffer is empty whenever the session is viewing.
pub proof fn lemma_step_preserves_wf(v: AppV, key: Key)
    requires
        wf(v),
    ensures
        wf(spec_step(v, key).0),
{
}

/// Invariant preservation: loading new content and rendering a frame keep
/// the session well-formed.
pub proof fn lemma_load_render_preserve_wf(v: AppV, text: Seq<char>, h: int)
    requires
        wf(v),
    ensures
        wf(spec_loaded(v, text)),
        wf(spec_rendered(v, h)),
{
}

} // verus!
