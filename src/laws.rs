//! Properties of the viewer's actions over whole sequences of them.

use vstd::prelude::*;
use crate::paths::{is_markdown_path_spec, shown_name_spec};
use crate::scale::{scale_down_spec, scale_up_spec, scale_valid, MAX_SCALE, MIN_SCALE};
use crate::tabs::{
    close_spec, model_wf, open_batch_spec, reload_failed_msg, reload_spec,
    reloaded_msg, skipped_msg, tab_spec, AppModel, Pick, TabModel,
};

verus! {

/// Closing the tabs at `idxs`, one after another.
pub open spec fn close_all_spec(m: AppModel, idxs: Seq<int>) -> AppModel
    decreases idxs.len(),
{
    if idxs.len() == 0 {
        m
    } else {
        close_spec(close_all_spec(m, idxs.drop_last()), idxs.last())
    }
}

/// Any sequence of closes keeps the active index on a tab, or at zero once
/// no tab is left.
pub proof fn lemma_close_all_keeps_wf(m: AppModel, idxs: Seq<int>)
    requires
        model_wf(m),
    ensures
        model_wf(close_all_spec(m, idxs)),
        close_all_spec(m, idxs).tabs.len() > 0 ==> close_all_spec(m, idxs).active
            < close_all_spec(m, idxs).tabs.len(),
        close_all_spec(m, idxs).tabs.len() == 0 ==> close_all_spec(m, idxs).active == 0,
    decreases idxs.len(),
{
    if idxs.len() > 0 {
        lemma_close_all_keeps_wf(m, idxs.drop_last());
    }
}

/// The tab that a pick adds: one for a Markdown path whose read succeeded.
pub open spec fn opened_tab(p: Pick) -> Option<TabModel> {
    if is_markdown_path_spec(p.path) {
        match p.read {
            Ok(c) => Some(tab_spec(p.path, c, p.time)),
            Err(_) => None,
        }
    } else {
        None
    }
}

/// Opening a batch appends, in the order picked, one tab for each Markdown
/// path that could be read and none for any other; the result stays
/// well formed, and a batch that ends with a skipped path leaves that path's
/// name in the status.
pub proof fn lemma_open_batch(m: AppModel, picks: Seq<Pick>)
    requires
        model_wf(m),
    ensures
        open_batch_spec(m, picks).tabs == m.tabs + picks.filter_map(|p: Pick| opened_tab(p)),
        model_wf(open_batch_spec(m, picks)),
        picks.len() > 0 && !is_markdown_path_spec(picks.last().path) ==> open_batch_spec(
            m,
            picks,
        ).status == skipped_msg(shown_name_spec(picks.last().path)),
    decreases picks.len(),
{
    if picks.len() > 0 {
        lemma_open_batch(m, picks.drop_last());
        let prev = open_batch_spec(m, picks.drop_last());
        let f = |p: Pick| opened_tab(p);
        match f(picks.last()) {
            Some(t) => {
                assert(prev.tabs.push(t) =~= m.tabs + picks.filter_map(f));
            },
            None => {},
        }
    }
}

/// Opening N Markdown files that can all be read appends exactly N tabs, in
/// the order picked, and makes the last of them active.
pub proof fn lemma_open_valid_batch(m: AppModel, picks: Seq<Pick>)
    requires
        model_wf(m),
        forall|i: int| 0 <= i < picks.len() ==> is_markdown_path_spec(#[trigger] picks[i].path),
        forall|i: int| 0 <= i < picks.len() ==> (#[trigger] picks[i]).read is Ok,
    ensures
        open_batch_spec(m, picks).tabs == m.tabs + picks.map_values(
            |p: Pick| opened_tab(p).unwrap(),
        ),
        open_batch_spec(m, picks).tabs.len() == m.tabs.len() + picks.len(),
        picks.len() > 0 ==> open_batch_spec(m, picks).active == open_batch_spec(m, picks).tabs.len()
            - 1,
    decreases picks.len(),
{
    if picks.len() > 0 {
        let rest = picks.drop_last();
        assert forall|i: int| 0 <= i < rest.len() implies is_markdown_path_spec(
            #[trigger] rest[i].path,
        ) && rest[i].read is Ok by {
            assert(rest[i] == picks[i]);
        }
        lemma_open_valid_batch(m, rest);
        assert(is_markdown_path_spec(picks[picks.len() - 1].path));
        assert(picks[picks.len() - 1].read is Ok);
        let g = |p: Pick| opened_tab(p).unwrap();
        assert(rest.map_values(g).push(g(picks.last())) =~= picks.map_values(g));
        assert((m.tabs + rest.map_values(g)).push(g(picks.last())) =~= m.tabs + picks.map_values(
            g,
        ));
    }
}

/// After the active file is gone, a reload keeps the content and time and
/// reports the error; after it changed, a reload takes the new content and
/// the new time, which moves forward when the clock did.
pub proof fn lemma_reload(m: AppModel, read: Result<Seq<char>, Seq<char>>, now: u64)
    requires
        model_wf(m),
        m.tabs.len() > 0,
    ensures
        read matches Err(e) ==> reload_spec(m, read, now).tabs == m.tabs
            && reload_spec(m, read, now).status == reload_failed_msg(e),
        read matches Ok(c) ==> reload_spec(m, read, now).tabs[m.active as int].content == c
            && reload_spec(m, read, now).tabs[m.active as int].last_read == now
            && reload_spec(m, read, now).status == reloaded_msg(),
        now > m.tabs[m.active as int].last_read && read is Ok ==> reload_spec(m, read, now).tabs[
            m.active as int].last_read > m.tabs[m.active as int].last_read,
        model_wf(reload_spec(m, read, now)),
{
}

/// Applying scale steps in turn: `true` grows the text, `false` shrinks it.
pub open spec fn scale_steps_spec(s: int, steps: Seq<bool>) -> int
    decreases steps.len(),
{
    if steps.len() == 0 {
        s
    } else {
        let prev = scale_steps_spec(s, steps.drop_last());
        if steps.last() {
            scale_up_spec(prev)
        } else {
            scale_down_spec(prev)
        }
    }
}

/// Any sequence of scale steps from a valid scale stays within the bounds;
/// a step never moves against its direction, and a step at its bound has no
/// effect.
pub proof fn lemma_scale_steps(s: int, steps: Seq<bool>)
    requires
        scale_valid(s),
    ensures
        scale_valid(scale_steps_spec(s, steps)),
        scale_up_spec(s) >= s,
        scale_down_spec(s) <= s,
        scale_up_spec(MAX_SCALE as int) == MAX_SCALE,
        scale_down_spec(MIN_SCALE as int) == MIN_SCALE,
    decreases steps.len(),
{
    if steps.len() > 0 {
        lemma_scale_steps(s, steps.drop_last());
    }
}

} // verus!
