//! Properties that hold across the scripts, the runner and the controller.

use crate::keys::Platform;
use crate::run::{
    is_pending, lemma_empty_script, lemma_first_failure_stops, lemma_replay_bounds, replay,
    verdict, OutcomeView,
};
use crate::script::{
    copy_and_paste_steps, copy_steps, read_steps, typing_steps, Step,
};
use crate::shell::{menu_item_of, shell_step, Effect, MenuItemId, Shell, ShellEvent};
use vstd::prelude::*;

verus! {

/// How a host answers a step when its clipboard keeps the text last written
/// and nothing else writes to it, and when it always accepts keyboard input.
pub open spec fn desk_answer(clip: Option<Seq<char>>, s: Step) -> (Option<Seq<char>>, OutcomeView) {
    match s {
        Step::SetClipboard(t) => (Some(t@), OutcomeView::Done),
        Step::ReadClipboard => match clip {
            Some(t) => (clip, OutcomeView::Text(t)),
            None => (clip, OutcomeView::Failed("the clipboard holds no text"@)),
        },
        _ => (clip, OutcomeView::Done),
    }
}

/// The clipboard afterwards, and the answers, of such a host that performs
/// `steps` in order.
pub open spec fn desk_answers(steps: Seq<Step>, clip: Option<Seq<char>>) -> (Option<Seq<char>>, Seq<OutcomeView>)
    decreases steps.len(),
{
    if steps.len() == 0 {
        (clip, Seq::empty())
    } else {
        let first = desk_answer(clip, steps[0]);
        let rest = desk_answers(steps.drop_first(), first.0);
        (rest.0, seq![first.1] + rest.1)
    }
}

/// Reading the clipboard after copying `text` to it gives back `text`, on a
/// host whose clipboard nothing else writes to; the copy itself succeeds.
pub proof fn clipboard_round_trip(text: String, clip: Option<Seq<char>>)
    ensures
        ({
            let (after, copy_answers) = desk_answers(copy_steps(text), clip);
            let (_, read_answers) = desk_answers(read_steps(), after);
            &&& verdict(replay(copy_steps(text), copy_answers)) == Ok::<Option<Seq<char>>, Seq<char>>(None)
            &&& verdict(replay(read_steps(), read_answers)) == Ok::<Option<Seq<char>>, Seq<char>>(Some(text@))
        }),
{
    reveal_with_fuel(desk_answers, 2);
    reveal_with_fuel(replay, 2);
    assert(copy_steps(text).drop_first() =~= Seq::<Step>::empty());
    assert(read_steps().drop_first() =~= Seq::<Step>::empty());
    let (after, copy_answers) = desk_answers(copy_steps(text), clip);
    assert(copy_answers =~= seq![OutcomeView::Done]);
    assert(copy_answers.drop_last() =~= Seq::<OutcomeView>::empty());
    let (_, read_answers) = desk_answers(read_steps(), after);
    assert(read_answers =~= seq![OutcomeView::Text(text@)]);
    assert(read_answers.drop_last() =~= Seq::<OutcomeView>::empty());
}

/// In `copy_and_paste` the clipboard write comes before every keystroke, and
/// no keystroke is performed when the write failed.
pub proof fn paste_only_after_copy(text: String, p: Platform, answers: Seq<OutcomeView>)
    ensures
        copy_and_paste_steps(text, p)[0] == Step::SetClipboard(text),
        forall|i: int|
            0 <= i < copy_and_paste_steps(text, p).len()
                && (#[trigger] copy_and_paste_steps(text, p)[i]).is_keystroke() ==> i > 0,
        forall|i: int|
            0 <= i < replay(copy_and_paste_steps(text, p), answers).next
                && (#[trigger] copy_and_paste_steps(text, p)[i]).is_keystroke()
                ==> !(answers[0] is Failed),
{
    let plan = copy_and_paste_steps(text, p);
    assert(plan.len() == 5);
    lemma_replay_bounds(plan, answers);
    if answers.len() > 0 && answers[0] is Failed {
        lemma_first_failure_stops(plan, answers);
    }
}

/// The character at `i`, as a value of its type.
proof fn char_at(s: Seq<char>, i: int) -> (c: char)
    requires
        0 <= i < s.len(),
    ensures
        c == s[i],
{
    s[i]
}

/// With no delay, typing `text` is one keystroke step per character, in
/// order, and no pause.
pub proof fn typing_without_delay(text: Seq<char>)
    ensures
        typing_steps(text, 0).len() == text.len(),
        forall|i: int| 0 <= i < text.len() ==> #[trigger] typing_steps(text, 0)[i] == Step::TypeChar(text[i]),
    decreases text.len(),
{
    if text.len() > 0 {
        let rest = text.drop_first();
        typing_without_delay(rest);
        let first = char_at(text, 0);
        assert(typing_steps(text, 0) == seq![Step::TypeChar(first)] + typing_steps(rest, 0));
        assert forall|i: int| 0 <= i < text.len() implies #[trigger] typing_steps(text, 0)[i] == Step::TypeChar(text[i]) by {
            let c = char_at(text, i);
            if i > 0 {
                assert(rest[i - 1] == c);
                assert(typing_steps(rest, 0)[i - 1] == Step::TypeChar(c));
            }
        }
    }
}

/// Typing nothing performs nothing and succeeds, whatever the delay and
/// whatever the host reports.
pub proof fn typing_nothing(delay: u64, answers: Seq<OutcomeView>)
    ensures
        typing_steps(Seq::empty(), delay) == Seq::<Step>::empty(),
        !is_pending(replay(typing_steps(Seq::empty(), delay), answers)),
        verdict(replay(typing_steps(Seq::empty(), delay), answers)) == Ok::<Option<Seq<char>>, Seq<char>>(None),
{
    lemma_empty_script(answers);
}

/// The state and the actions that follow the events `es`, one after another.
pub open spec fn shell_run(s: Shell, es: Seq<ShellEvent>) -> (Shell, Seq<Effect>)
    decreases es.len(),
{
    if es.len() == 0 {
        (s, Seq::empty())
    } else {
        let (next, fx) = shell_step(s, es[0]);
        let (last, more) = shell_run(next, es.drop_first());
        (last, fx + more)
    }
}

/// Nothing happens to a controller whose process is ending.
pub proof fn lemma_stopped_stays(s: Shell, es: Seq<ShellEvent>)
    requires
        !s.running,
    ensures
        shell_run(s, es) == (s, Seq::<Effect>::empty()),
    decreases es.len(),
{
    if es.len() > 0 {
        lemma_stopped_stays(s, es.drop_first());
        assert(Seq::<Effect>::empty() + Seq::<Effect>::empty() == Seq::<Effect>::empty());
    }
}

/// Choosing "quit" ends the process: its one action is exit code 0, and no
/// later event has any effect.
pub proof fn quit_is_final(s: Shell, id: String, later: Seq<ShellEvent>)
    requires
        s.running,
        id@ == "quit"@,
    ensures
        shell_step(s, ShellEvent::Menu(id)).1 == seq![Effect::Exit(0)],
        !shell_step(s, ShellEvent::Menu(id)).0.running,
        shell_run(shell_step(s, ShellEvent::Menu(id)).0, later).1 == Seq::<Effect>::empty(),
{
    reveal_strlit("quit");
    reveal_strlit("show");
    assert("quit"@[0] != "show"@[0]);
    assert(menu_item_of(id@) == Some(MenuItemId::Quit));
    lemma_stopped_stays(shell_step(s, ShellEvent::Menu(id)).0, later);
}

/// The hotkey, pressed while the window is hidden, leaves the window shown and
/// focused and sends exactly one start-dictation notification.
pub proof fn hotkey_shows_and_notifies(s: Shell)
    requires
        s.running,
        !s.visible,
    ensures
        shell_step(s, ShellEvent::Hotkey).0.visible,
        shell_step(s, ShellEvent::Hotkey).0.focused,
        shell_step(s, ShellEvent::Hotkey).1.filter(|f: Effect| f == Effect::StartDictation).len() == 1,
{
    let fx = shell_step(s, ShellEvent::Hotkey).1;
    assert(fx == seq![Effect::ShowWindow, Effect::FocusWindow, Effect::StartDictation]);
    reveal_with_fuel(Seq::filter, 4);
    assert(fx.drop_last() == seq![Effect::ShowWindow, Effect::FocusWindow]);
    assert(fx.drop_last().drop_last() == seq![Effect::ShowWindow]);
    assert(fx.drop_last().drop_last().drop_last() == Seq::<Effect>::empty());
}

} // verus!
