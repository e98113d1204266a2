//! Properties of the library that span several calls or hold of every
//! input, stated over the specifications the operations are verified
//! against.
use vstd::prelude::*;
use crate::asset_path::{
    asset_components, components, forward_slashes, is_absolute_asset, is_absolute_text,
    is_normal_piece, join_path, join_pieces,
    normal_pieces, normalized_text, path_starts_with, segments, std_components,
};
use crate::paths::{parse_virtual, resolved_under, VirtualScheme};
use crate::engine::{Engine, EngineError, EntityId};
use crate::input::{axis_direction, key_named, keys_named, pressed_after, released_after, InputState, KeyCode};
use crate::tooling::{crate_file_text, example_named};
use crate::application::{log_filter, LogLevel};
use crate::world::{EntityRecord, World};
use crate::runtime::{
    headless_resume, loop_step, DesktopLoop, HeadlessAction, HeadlessPhase, HeadlessRun, LoopAction,
    LoopEvent, ShutdownCause, DesktopRuntimeError,
};
use crate::project::{asset_request, texture_result, Assets};
use crate::assets::{AssetHandle, ImageData};
use crate::audio::{AudioError, AudioSystem, SoundAsset};
use crate::asset_path::AssetError;
use crate::project::GameError;
use crate::render::{clear_color_named, Texture};
use crate::text::has_prefix;

verus! {

/// No character of `s` is `c`.
pub open spec fn lacks(s: Seq<char>, c: char) -> bool {
    forall|i: int| 0 <= i < s.len() ==> s[i] != c
}

proof fn lemma_segments_of_piece(x: Seq<char>)
    requires
        lacks(x, '/'),
    ensures
        segments(x) == seq![x],
    decreases x.len(),
{
    if x.len() > 0 {
        lemma_segments_of_piece(x.drop_last());
        assert(x.drop_last().push(x.last()) =~= x);
    } else {
        assert(x =~= Seq::<char>::empty());
    }
}

proof fn lemma_segments_after_slash(a: Seq<char>, x: Seq<char>)
    requires
        lacks(x, '/'),
    ensures
        segments(a + seq!['/'] + x) == segments(a).push(x),
    decreases x.len(),
{
    let s = a + seq!['/'] + x;
    if x.len() == 0 {
        assert(s.drop_last() =~= a);
        assert(x =~= Seq::<char>::empty());
    } else {
        lemma_segments_after_slash(a, x.drop_last());
        assert(s.drop_last() =~= a + seq!['/'] + x.drop_last());
        assert(s.last() == x.last());
        let prev = segments(a).push(x.drop_last());
        assert(prev.update(prev.len() - 1, prev.last().push(x.last())) =~= segments(a).push(x)) by {
            assert(x.drop_last().push(x.last()) =~= x);
        }
    }
}

proof fn lemma_segments_of_join(parts: Seq<Seq<char>>)
    requires
        parts.len() >= 1,
        forall|i: int| 0 <= i < parts.len() ==> lacks(#[trigger] parts[i], '/'),
    ensures
        segments(join_pieces(parts)) == parts,
    decreases parts.len(),
{
    if parts.len() == 1 {
        lemma_segments_of_piece(parts[0]);
        assert(parts =~= seq![parts[0]]);
    } else {
        let init = parts.drop_last();
        assert forall|i: int| 0 <= i < init.len() implies lacks(#[trigger] init[i], '/') by {
            assert(init[i] == parts[i]);
        }
        lemma_segments_of_join(init);
        assert(lacks(parts[parts.len() - 1], '/'));
        lemma_segments_after_slash(join_pieces(init), parts.last());
        assert(init.push(parts.last()) =~= parts);
    }
}

proof fn lemma_normal_pieces_keep_normal(parts: Seq<Seq<char>>)
    requires
        forall|i: int| 0 <= i < parts.len() ==> is_normal_piece(#[trigger] parts[i]),
    ensures
        normal_pieces(parts) == parts,
    decreases parts.len(),
{
    if parts.len() > 0 {
        let init = parts.drop_last();
        assert forall|i: int| 0 <= i < init.len() implies is_normal_piece(#[trigger] init[i]) by {
            assert(init[i] == parts[i]);
        }
        lemma_normal_pieces_keep_normal(init);
        assert(is_normal_piece(parts[parts.len() - 1]));
        assert(init.push(parts.last()) =~= parts);
    }
}

/// Every segment lacks `/`, and lacks `c` when `s` does.
proof fn lemma_segments_chars(s: Seq<char>, c: char)
    ensures
        forall|i: int| 0 <= i < segments(s).len() ==> lacks(#[trigger] segments(s)[i], '/'),
        lacks(s, c) ==> forall|i: int|
            0 <= i < segments(s).len() ==> lacks(#[trigger] segments(s)[i], c),
    decreases s.len(),
{
    if s.len() > 0 {
        let init = s.drop_last();
        lemma_segments_chars(init, c);
        let prev = segments(init);
        if lacks(s, c) {
            assert forall|j: int| 0 <= j < init.len() implies init[j] != c by {
                assert(init[j] == s[j]);
            }
        }
        if s.last() == '/' {
            assert forall|i: int| 0 <= i < segments(s).len() implies lacks(
                #[trigger] segments(s)[i],
                '/',
            ) by {
                if i < prev.len() {
                    assert(segments(s)[i] == prev[i]);
                }
            }
        } else if prev.len() == 0 {
        } else {
            let last = prev.last().push(s.last());
            assert forall|i: int| 0 <= i < segments(s).len() implies lacks(
                #[trigger] segments(s)[i],
                '/',
            ) by {
                if i < prev.len() - 1 {
                    assert(segments(s)[i] == prev[i]);
                } else {
                    assert(segments(s)[i] == last);
                    assert(lacks(prev[prev.len() - 1], '/'));
                }
            }
            if lacks(s, c) {
                assert forall|i: int| 0 <= i < segments(s).len() implies lacks(
                    #[trigger] segments(s)[i],
                    c,
                ) by {
                    if i < prev.len() - 1 {
                        assert(segments(s)[i] == prev[i]);
                    } else {
                        assert(segments(s)[i] == last);
                        assert(lacks(prev[prev.len() - 1], c));
                        assert(s[s.len() - 1] != c);
                    }
                }
            }
        }
    }
}

/// Every piece `normal_pieces` keeps is normal and is one of the segments.
proof fn lemma_normal_pieces_members(segs: Seq<Seq<char>>)
    ensures
        forall|i: int|
            0 <= i < normal_pieces(segs).len() ==> is_normal_piece(#[trigger] normal_pieces(segs)[i])
                && segs.contains(normal_pieces(segs)[i]),
    decreases segs.len(),
{
    if segs.len() > 0 {
        let init = segs.drop_last();
        lemma_normal_pieces_members(init);
        let kept = normal_pieces(init);
        assert forall|i: int| 0 <= i < normal_pieces(segs).len() implies is_normal_piece(
            #[trigger] normal_pieces(segs)[i],
        ) && segs.contains(normal_pieces(segs)[i]) by {
            if i < kept.len() {
                assert(normal_pieces(segs)[i] == kept[i]);
                assert(init.contains(kept[i]));
                let k = choose|k: int| 0 <= k < init.len() && init[k] == kept[i];
                assert(segs[k] == init[k]);
            } else {
                assert(normal_pieces(segs)[i] == segs.last());
                assert(segs[segs.len() - 1] == segs.last());
            }
        }
    }
}

proof fn lemma_join_first_char(parts: Seq<Seq<char>>)
    requires
        parts.len() >= 1,
        parts[0].len() > 0,
    ensures
        join_pieces(parts).len() >= parts[0].len(),
        join_pieces(parts)[0] == parts[0][0],
    decreases parts.len(),
{
    if parts.len() > 1 {
        let init = parts.drop_last();
        assert(init[0] == parts[0]);
        lemma_join_first_char(init);
    }
}

proof fn lemma_join_lacks(parts: Seq<Seq<char>>, c: char)
    requires
        c != '/',
        forall|i: int| 0 <= i < parts.len() ==> lacks(#[trigger] parts[i], c),
    ensures
        lacks(join_pieces(parts), c),
    decreases parts.len(),
{
    if parts.len() == 1 {
        assert(lacks(parts[0], c));
    } else if parts.len() > 1 {
        let init = parts.drop_last();
        assert forall|i: int| 0 <= i < init.len() implies lacks(#[trigger] init[i], c) by {
            assert(init[i] == parts[i]);
        }
        lemma_join_lacks(init, c);
        let j = join_pieces(init);
        let last = parts.last();
        assert(lacks(parts[parts.len() - 1], c));
        assert forall|k: int| 0 <= k < join_pieces(parts).len() implies join_pieces(parts)[k]
            != c by {
            if k < j.len() {
                assert(join_pieces(parts)[k] == j[k]);
            } else if k == j.len() {
            } else {
                assert(join_pieces(parts)[k] == last[k - j.len() - 1]);
            }
        }
    }
}

proof fn lemma_forward_slashes_lack_backslash(raw: Seq<char>)
    ensures
        lacks(forward_slashes(raw), '\\'),
{
    assert forall|i: int| 0 <= i < forward_slashes(raw).len() implies forward_slashes(raw)[i]
        != '\\' by {}
}

/// The components of a path's normal form are the path's components, with
/// `\\` taken as a separator.
pub proof fn lemma_normal_form_components(raw: Seq<char>)
    ensures
        components(normalized_text(raw)) == asset_components(raw),
        lacks(normalized_text(raw), '\\'),
        asset_components(raw).len() > 0 ==> normalized_text(raw) == join_pieces(
            asset_components(raw),
        ),
        forall|i: int|
            0 <= i < asset_components(raw).len() ==> lacks(#[trigger] asset_components(raw)[i], '/')
                && is_normal_piece(asset_components(raw)[i]),
{
    let f = forward_slashes(raw);
    let c = asset_components(raw);
    lemma_forward_slashes_lack_backslash(raw);
    lemma_segments_chars(f, '\\');
    lemma_normal_pieces_members(segments(f));
    assert forall|i: int| 0 <= i < c.len() implies lacks(#[trigger] c[i], '/') && lacks(
        c[i],
        '\\',
    ) && is_normal_piece(c[i]) by {
        let k = choose|k: int| 0 <= k < segments(f).len() && segments(f)[k] == c[i];
        assert(lacks(segments(f)[k], '/'));
        assert(lacks(segments(f)[k], '\\'));
    }
    if c.len() == 0 {
        assert(normalized_text(raw) == seq!['.']);
        lemma_segments_of_piece(seq!['.']);
        let dot = seq![seq!['.']];
        assert(normal_pieces(dot).len() == 0) by {
            assert(dot.drop_last() =~= Seq::<Seq<char>>::empty());
            assert(normal_pieces(dot.drop_last()).len() == 0);
            assert(dot.last() == seq!['.']);
            assert(!is_normal_piece(dot.last()));
        }
        assert(components(normalized_text(raw)) =~= c);
        assert(lacks(seq!['.'], '\\'));
    } else {
        lemma_join_lacks(c, '\\');
        lemma_segments_of_join(c);
        lemma_normal_pieces_keep_normal(c);
    }
}

/// Normalising an asset path is idempotent: the normal form of a normal
/// form is itself, so loading a path by its normal form finds the same file.
pub proof fn law_asset_path_normal_form_is_stable(raw: Seq<char>)
    ensures
        normalized_text(normalized_text(raw)) == normalized_text(raw),
{
    lemma_normal_form_components(raw);
    let n = normalized_text(raw);
    assert(forward_slashes(n) =~= n);
    assert(asset_components(n) == components(n));
}

/// An asset path that `AssetPath::new` accepts (relative, without `..`
/// components, `\\` counting as a separator) stays under the asset root:
/// its normal form is relative and has no `..` component, and the path it
/// resolves to under any root is the root followed by that normal form.
pub proof fn law_accepted_asset_path_stays_under_root(root: Seq<char>, raw: Seq<char>)
    requires
        !is_absolute_asset(raw),
        !asset_components(raw).contains(seq!['.', '.']),
    ensures
        !is_absolute_text(normalized_text(raw)),
        !components(normalized_text(raw)).contains(seq!['.', '.']),
        has_prefix(join_path(root, normalized_text(raw)), root),
{
    lemma_normal_form_components(raw);
    let c = asset_components(raw);
    let n = normalized_text(raw);
    if c.len() > 0 {
        lemma_join_first_char(c);
        assert(n[0] == c[0][0]);
        assert(lacks(c[0], '/'));
        assert(c[0][0] != '/');
    }
    let joined = join_path(root, n);
    if root.len() == 0 || root.last() == '/' {
        assert(joined.subrange(0, root.len() as int) =~= root);
    } else {
        assert(joined.subrange(0, root.len() as int) =~= root);
    }
}

/// The two roots never share a name: a requested path that resolves as an
/// asset does not resolve as a resource, and neither resolves as user data
/// (and the other way round).
pub proof fn law_path_schemes_do_not_mix(
    asset_root: Seq<char>,
    resource_root: Seq<char>,
    user_root: Seq<char>,
    requested: Seq<char>,
)
    ensures
        resolved_under(asset_root, requested, VirtualScheme::Asset) is Some ==> resolved_under(
            resource_root,
            requested,
            VirtualScheme::Resource,
        ) is None && resolved_under(user_root, requested, VirtualScheme::User) is None,
        resolved_under(resource_root, requested, VirtualScheme::Resource) is Some
            ==> resolved_under(user_root, requested, VirtualScheme::User) is None,
{
}

/// The state of the desktop loop before its first event.
pub open spec fn initial_loop() -> DesktopLoop {
    DesktopLoop {
        ready: false,
        exit_requested: false,
        shutdown: false,
        exiting: false,
        frame_running: false,
        pending: None,
        error: None,
    }
}

/// The states the desktop loop can reach: a recorded error comes with the
/// loop ending or a shutdown after a failure or at the loop's end; a
/// running frame comes with nothing pending, no error and the loop not
/// ending; the shutdown for an exit request starts only without an error,
/// and the one at the loop's end only once the loop is ending; a finished
/// shutdown comes with the loop ending. Before `ready` has succeeded no
/// frame runs, nothing is pending and no shutdown has run, and an error is
/// there exactly when the loop is ending.
pub open spec fn loop_invariant(s: DesktopLoop) -> bool {
    &&& !s.ready ==> (!s.frame_running && s.pending is None && !s.shutdown && (s.error is Some
        <==> s.exiting))
    &&& s.shutdown ==> s.exiting
    &&& s.error is Some ==> (s.exiting || s.pending == Some(ShutdownCause::AfterError)
        || s.pending == Some(ShutdownCause::LoopExiting))
    &&& s.frame_running ==> (!s.exiting && s.pending is None && s.error is None)
    &&& s.pending == Some(ShutdownCause::ExitRequest) ==> s.error is None
    &&& s.pending == Some(ShutdownCause::LoopExiting) ==> s.exiting
    &&& s.pending is Some ==> !s.frame_running
    &&& s.shutdown ==> s.pending is None
}

/// The loop's state and actions after a sequence of events.
pub open spec fn loop_run(s: DesktopLoop, events: Seq<LoopEvent>) -> (DesktopLoop, Seq<LoopAction>)
    decreases events.len(),
{
    if events.len() == 0 {
        (s, Seq::empty())
    } else {
        let (prev, actions) = loop_run(s, events.drop_last());
        let (next, action) = loop_step(prev, events.last());
        (next, actions.push(action))
    }
}

/// How many times the game's shutdown is asked for.
pub open spec fn shutdown_calls(actions: Seq<LoopAction>) -> nat
    decreases actions.len(),
{
    if actions.len() == 0 {
        0
    } else {
        shutdown_calls(actions.drop_last()) + if actions.last() == LoopAction::CallShutdown {
            1nat
        } else {
            0nat
        }
    }
}

/// One event keeps the loop's invariant; a recorded error is never replaced;
/// once the game's shutdown has been asked for it is not asked for again,
/// and a finished shutdown stays finished.
pub proof fn law_desktop_loop_step(s: DesktopLoop, e: LoopEvent)
    requires
        loop_invariant(s),
    ensures
        loop_invariant(loop_step(s, e).0),
        s.error is Some ==> loop_step(s, e).0.error == s.error,
        (s.shutdown || s.pending is Some) ==> (loop_step(s, e).1 != LoopAction::CallShutdown && (
        loop_step(s, e).0.shutdown || loop_step(s, e).0.pending is Some)),
        s.shutdown ==> loop_step(s, e).0.shutdown,
        (!s.shutdown && s.pending is None && loop_step(s, e).1 != LoopAction::CallShutdown)
            ==> (!loop_step(s, e).0.shutdown && loop_step(s, e).0.pending is None),
        loop_step(s, e).1 == LoopAction::CallShutdown ==> loop_step(s, e).0.pending is Some,
        loop_step(s, e).1 == LoopAction::RunFrame ==> (s.ready && !s.exiting && !s.shutdown
            && s.pending is None),
        !s.ready ==> (loop_step(s, e).1 == LoopAction::Continue || loop_step(s, e).1
            == LoopAction::Exit),
        s.ready ==> loop_step(s, e).0.ready,
        (!s.ready && loop_step(s, e).0.ready) ==> e matches LoopEvent::ReadyFinished(Ok(_)),
        (!s.ready && s.exiting) ==> loop_step(s, e).0 == s,
        s.exiting ==> loop_step(s, e).0.exiting,
        (!s.ready && !s.exiting) ==> (e matches LoopEvent::ReadyFinished(Err(err)) ==> (loop_step(
            s,
            e,
        ).0.error == Some(DesktopRuntimeError::Engine(err)) && loop_step(s, e).0.exiting
            && loop_step(s, e).1 == LoopAction::Exit)),
{
}

/// Over any sequence of events, the desktop loop asks for the game's
/// shutdown at most once, and the first error it records is the one the run
/// reports.
pub proof fn law_desktop_shutdown_once_first_error_kept(events: Seq<LoopEvent>, i: int)
    requires
        0 <= i <= events.len(),
    ensures
        shutdown_calls(loop_run(initial_loop(), events).1) <= 1,
        loop_invariant(loop_run(initial_loop(), events).0),
        shutdown_calls(loop_run(initial_loop(), events).1) == 0 <==> (!loop_run(
            initial_loop(),
            events,
        ).0.shutdown && loop_run(initial_loop(), events).0.pending is None),
        loop_run(initial_loop(), events.take(i)).0.error is Some ==> loop_run(
            initial_loop(),
            events,
        ).0.error == loop_run(initial_loop(), events.take(i)).0.error,
    decreases events.len(),
{
    if events.len() > 0 {
        let init = events.drop_last();
        if i == events.len() {
            assert(events.take(i) =~= events);
        } else {
            assert(events.take(i) =~= init.take(i));
        }
        law_desktop_shutdown_once_first_error_kept(init, if i == events.len() {
            0
        } else {
            i
        });
        let prev = loop_run(initial_loop(), init).0;
        let acts = loop_run(initial_loop(), init).1;
        law_desktop_loop_step(prev, events.last());
        let step = loop_step(prev, events.last());
        assert(loop_run(initial_loop(), events).1 == acts.push(step.1));
        assert(acts.push(step.1).drop_last() =~= acts);
        assert(shutdown_calls(acts.push(step.1)) == shutdown_calls(acts) + if step.1
            == LoopAction::CallShutdown {
            1nat
        } else {
            0nat
        });
    } else {
        assert(events.take(i) =~= events);
    }
}

/// The loop's state after the first `k` events.
spec fn loop_state_after(events: Seq<LoopEvent>, k: int) -> DesktopLoop {
    loop_run(initial_loop(), events.take(k)).0
}

proof fn lemma_loop_run_len(s: DesktopLoop, events: Seq<LoopEvent>)
    ensures
        loop_run(s, events).1.len() == events.len(),
    decreases events.len(),
{
    if events.len() > 0 {
        lemma_loop_run_len(s, events.drop_last());
    }
}

/// Event `i` takes the state the first `i` events left to the one the first
/// `i + 1` left, with action `i`; that state keeps the invariant.
proof fn lemma_loop_run_action(events: Seq<LoopEvent>, i: int)
    requires
        0 <= i < events.len(),
    ensures
        loop_run(initial_loop(), events).1.len() == events.len(),
        loop_run(initial_loop(), events).1[i] == loop_step(loop_state_after(events, i), events[i]).1,
        loop_state_after(events, i + 1) == loop_step(loop_state_after(events, i), events[i]).0,
        loop_invariant(loop_state_after(events, i)),
    decreases events.len(),
{
    lemma_loop_run_len(initial_loop(), events);
    law_desktop_shutdown_once_first_error_kept(events.take(i), 0);
    if i == events.len() - 1 {
        assert(events.take(i) =~= events.drop_last());
        assert(events.take(i + 1) =~= events);
    } else {
        lemma_loop_run_action(events.drop_last(), i);
        assert(events.drop_last().take(i) =~= events.take(i));
        assert(events.drop_last().take(i + 1) =~= events.take(i + 1));
        lemma_loop_run_len(initial_loop(), events.drop_last());
    }
}

proof fn lemma_shutdown_stays_asked(events: Seq<LoopEvent>, i: int, k: int)
    requires
        0 <= i <= k <= events.len(),
        loop_state_after(events, i).shutdown || loop_state_after(events, i).pending is Some,
    ensures
        loop_state_after(events, k).shutdown || loop_state_after(events, k).pending is Some,
    decreases k - i,
{
    if k > i {
        lemma_shutdown_stays_asked(events, i, k - 1);
        lemma_loop_run_action(events, k - 1);
        law_desktop_loop_step(loop_state_after(events, k - 1), events[k - 1]);
    }
}

proof fn lemma_ready_has_a_cause(events: Seq<LoopEvent>, k: int)
    requires
        0 <= k <= events.len(),
    ensures
        loop_state_after(events, k).ready ==> exists|r: int|
            0 <= r < k && #[trigger] events[r] matches LoopEvent::ReadyFinished(Ok(_)),
    decreases k,
{
    if k == 0 {
        assert(events.take(0) =~= Seq::<LoopEvent>::empty());
    } else {
        lemma_ready_has_a_cause(events, k - 1);
        lemma_loop_run_action(events, k - 1);
        law_desktop_loop_step(loop_state_after(events, k - 1), events[k - 1]);
        if loop_state_after(events, k).ready && !loop_state_after(events, k - 1).ready {
            assert(events[k - 1] matches LoopEvent::ReadyFinished(Ok(_)));
        }
    }
}

proof fn lemma_nothing_before_ready(events: Seq<LoopEvent>, k: int)
    requires
        0 <= k <= events.len(),
        forall|r: int| 0 <= r < k ==> !(#[trigger] events[r] is ReadyFinished),
    ensures
        loop_state_after(events, k) == initial_loop(),
    decreases k,
{
    if k == 0 {
        assert(events.take(0) =~= Seq::<LoopEvent>::empty());
    } else {
        lemma_nothing_before_ready(events, k - 1);
        lemma_loop_run_action(events, k - 1);
        assert(!(events[k - 1] is ReadyFinished));
    }
}

proof fn lemma_failed_ready_stays(events: Seq<LoopEvent>, i: int, k: int)
    requires
        0 <= i < k <= events.len(),
        !loop_state_after(events, i + 1).ready,
        loop_state_after(events, i + 1).exiting,
    ensures
        loop_state_after(events, k) == loop_state_after(events, i + 1),
    decreases k - i,
{
    if k > i + 1 {
        lemma_failed_ready_stays(events, i, k - 1);
        lemma_loop_run_action(events, k - 1);
        law_desktop_loop_step(loop_state_after(events, k - 1), events[k - 1]);
    }
}

/// Over any sequence of events from the initial state: a frame, its end and
/// the game's shutdown are asked for only after an event reported that the
/// game's `ready` succeeded; when the first report of `ready` is a failure,
/// the run reports that failure and no frame or shutdown is ever asked for;
/// and once the game's shutdown has been asked for no frame runs.
pub proof fn law_desktop_ready_first_no_frame_after_shutdown(
    events: Seq<LoopEvent>,
    i: int,
    j: int,
)
    requires
        0 <= i <= j < events.len(),
    ensures
        ({
            let a = loop_run(initial_loop(), events).1[j];
            (a == LoopAction::RunFrame || a == LoopAction::EndFrame || a == LoopAction::CallShutdown)
                ==> exists|r: int|
                0 <= r < j && #[trigger] events[r] matches LoopEvent::ReadyFinished(Ok(_))
        }),
        (i < j && loop_run(initial_loop(), events).1[i] == LoopAction::CallShutdown) ==> loop_run(
            initial_loop(),
            events,
        ).1[j] != LoopAction::RunFrame,
        (forall|r: int| 0 <= r < i ==> !(#[trigger] events[r] is ReadyFinished)) ==> (events[i] matches LoopEvent::ReadyFinished(Err(err)) ==> ({
            &&& loop_run(initial_loop(), events).0.error == Some(DesktopRuntimeError::Engine(err))
            &&& loop_run(initial_loop(), events).1[j] != LoopAction::RunFrame
            &&& loop_run(initial_loop(), events).1[j] != LoopAction::CallShutdown
        })),
{
    let n = events.len() as int;
    assert(events.take(n) =~= events);
    lemma_loop_run_action(events, j);
    lemma_loop_run_action(events, i);
    law_desktop_loop_step(loop_state_after(events, j), events[j]);
    law_desktop_loop_step(loop_state_after(events, i), events[i]);
    lemma_ready_has_a_cause(events, j);
    if i < j && loop_run(initial_loop(), events).1[i] == LoopAction::CallShutdown {
        lemma_shutdown_stays_asked(events, i + 1, j);
    }
    if events[i] is ReadyFinished && forall|r: int|
        0 <= r < i ==> !(#[trigger] events[r] is ReadyFinished) {
        lemma_nothing_before_ready(events, i);
        if events[i] matches LoopEvent::ReadyFinished(Err(_)) {
            lemma_failed_ready_stays(events, i, n);
            if j > i {
                lemma_failed_ready_stays(events, i, j);
            }
        }
    }
}

/// One call of `Engine::tick` as its contract states it.
pub open spec fn tick_step(
    before: Engine,
    delta_is_valid: bool,
    r: Result<u64, EngineError>,
    after: Engine,
) -> bool {
    &&& delta_is_valid ==> before.frames() < u64::MAX
    &&& after.spec_config() == before.spec_config()
    &&& delta_is_valid ==> r == Ok::<u64, EngineError>((before.frames() + 1) as u64)
        && after.frames() == before.frames() + 1
    &&& !delta_is_valid ==> r == Err::<u64, EngineError>(EngineError::InvalidDeltaTime)
        && after.frames() == before.frames()
}

proof fn lemma_ticks_count(engines: Seq<Engine>, results: Seq<Result<u64, EngineError>>, k: int)
    requires
        engines.len() == results.len() + 1,
        forall|i: int|
            0 <= i < results.len() ==> tick_step(#[trigger] engines[i], true, results[i], engines[i + 1]),
        0 <= k <= results.len(),
    ensures
        engines[k].frames() == engines[0].frames() + k,
    decreases k,
{
    if k > 0 {
        lemma_ticks_count(engines, results, k - 1);
        assert(tick_step(engines[k - 1], true, results[k - 1], engines[k]));
    }
}

/// With a usable time step, the k-th tick of a run (k = 1, 2, ...) reports
/// frame f + k, where f is the frame count the run started from: each
/// frame's update sees the next frame number.
pub proof fn law_kth_tick_reports_frame(
    engines: Seq<Engine>,
    results: Seq<Result<u64, EngineError>>,
    k: int,
)
    requires
        engines.len() == results.len() + 1,
        forall|i: int|
            0 <= i < results.len() ==> tick_step(#[trigger] engines[i], true, results[i], engines[i + 1]),
        0 <= k < results.len(),
    ensures
        results[k] == Ok::<u64, EngineError>((engines[0].frames() + k + 1) as u64),
        engines[k + 1].frames() == engines[0].frames() + k + 1,
{
    lemma_ticks_count(engines, results, k);
    assert(tick_step(engines[k], true, results[k], engines[k + 1]));
}

/// `after` is `before` at the end of a frame (see `InputState::end_frame`).
pub open spec fn frame_ended(before: InputState, after: InputState) -> bool {
    &&& after.pressed_set() == before.pressed_set()
    &&& after.just_pressed_set() == Set::<KeyCode>::empty()
    &&& after.just_released_set() == Set::<KeyCode>::empty()
}

/// Pressing a key that is still held from an earlier frame is not a new
/// press: it stays held and is not reported as just pressed.
pub proof fn law_held_key_press_is_not_repeated(
    s0: InputState,
    s1: InputState,
    s2: InputState,
    s3: InputState,
    key: KeyCode,
)
    requires
        pressed_after(s0, s1, key),
        frame_ended(s1, s2),
        pressed_after(s2, s3, key),
    ensures
        s3.pressed_set().contains(key),
        !s3.just_pressed_set().contains(key),
{
}

/// Releasing a held key clears it and reports it as just released for that
/// frame only.
pub proof fn law_release_is_reported_once(
    s0: InputState,
    s1: InputState,
    s2: InputState,
    s3: InputState,
    s4: InputState,
    key: KeyCode,
)
    requires
        pressed_after(s0, s1, key),
        frame_ended(s1, s2),
        released_after(s2, s3, key),
        frame_ended(s3, s4),
    ensures
        !s3.pressed_set().contains(key),
        s3.just_released_set().contains(key),
        !s4.pressed_set().contains(key),
        !s4.just_released_set().contains(key),
{
}

/// Keys are independent: pressing or releasing one key leaves what is known
/// of every other key unchanged.
pub proof fn law_keys_are_independent(s0: InputState, s1: InputState, key: KeyCode, other: KeyCode)
    requires
        pressed_after(s0, s1, key) || released_after(s0, s1, key),
        other != key,
    ensures
        s1.pressed_set().contains(other) == s0.pressed_set().contains(other),
        s1.just_pressed_set().contains(other) == s0.just_pressed_set().contains(other),
        s1.just_released_set().contains(other) == s0.just_released_set().contains(other),
{
}

/// Every input transition keeps the state consistent: a key pressed this
/// frame is held and a key released this frame is not.
pub proof fn law_input_stays_consistent(s0: InputState, s1: InputState, key: KeyCode)
    requires
        s0.consistent(),
        pressed_after(s0, s1, key) || released_after(s0, s1, key) || frame_ended(s0, s1),
    ensures
        s1.consistent(),
{
    if pressed_after(s0, s1, key) && !s0.pressed_set().contains(key) {
        assert(s1.just_pressed_set().subset_of(s1.pressed_set()));
        assert(s1.just_released_set().disjoint(s1.pressed_set()));
    } else if released_after(s0, s1, key) && s0.pressed_set().contains(key) {
        assert(s1.just_pressed_set().subset_of(s1.pressed_set()));
        assert(s1.just_released_set().disjoint(s1.pressed_set()));
    } else if frame_ended(s0, s1) && !pressed_after(s0, s1, key) && !released_after(s0, s1, key) {
        assert(s1.just_pressed_set().subset_of(s1.pressed_set()));
        assert(s1.just_released_set().disjoint(s1.pressed_set()));
    }
}

/// A call on an `InputState`: `press`, `release` or `end_frame`.
pub enum InputCall {
    Press(KeyCode),
    Release(KeyCode),
    EndFrame,
}

/// `after` is `before` after `call` (see `InputState::press`, `release` and
/// `end_frame`).
pub open spec fn input_call_step(before: InputState, call: InputCall, after: InputState) -> bool {
    match call {
        InputCall::Press(k) => pressed_after(before, after, k),
        InputCall::Release(k) => released_after(before, after, k),
        InputCall::EndFrame => frame_ended(before, after),
    }
}

/// `states` are what a fresh `InputState` (see `InputState::new`) goes
/// through under `calls`: `states[i + 1]` is `states[i]` after `calls[i]`.
pub open spec fn input_history(states: Seq<InputState>, calls: Seq<InputCall>) -> bool {
    &&& states.len() == calls.len() + 1
    &&& states[0].pressed_set() == Set::<KeyCode>::empty()
    &&& states[0].just_pressed_set() == Set::<KeyCode>::empty()
    &&& states[0].just_released_set() == Set::<KeyCode>::empty()
    &&& forall|i: int|
        0 <= i < calls.len() ==> input_call_step(#[trigger] states[i], calls[i], states[i + 1])
}

/// Call `i` presses `key`, and no later call before call `n` releases it.
pub open spec fn press_stands(calls: Seq<InputCall>, i: int, n: int, key: KeyCode) -> bool {
    &&& 0 <= i < n
    &&& calls[i] == InputCall::Press(key)
    &&& forall|j: int| i < j < n ==> calls[j] != InputCall::Release(key)
}

/// Call `i` presses `key` while it is not held, and no later call before
/// call `n` releases it or ends the frame.
pub open spec fn press_is_new(
    states: Seq<InputState>,
    calls: Seq<InputCall>,
    i: int,
    n: int,
    key: KeyCode,
) -> bool {
    &&& 0 <= i < n
    &&& calls[i] == InputCall::Press(key)
    &&& !states[i].pressed_set().contains(key)
    &&& forall|j: int|
        i < j < n ==> calls[j] != InputCall::Release(key) && calls[j] != InputCall::EndFrame
}

/// Call `i` releases `key` while it is held, and no later call before call
/// `n` presses it or ends the frame.
pub open spec fn release_is_new(
    states: Seq<InputState>,
    calls: Seq<InputCall>,
    i: int,
    n: int,
    key: KeyCode,
) -> bool {
    &&& 0 <= i < n
    &&& calls[i] == InputCall::Release(key)
    &&& states[i].pressed_set().contains(key)
    &&& forall|j: int|
        i < j < n ==> calls[j] != InputCall::Press(key) && calls[j] != InputCall::EndFrame
}

/// What the state after the first `n` calls says of `key`, read off the calls.
pub open spec fn key_history(
    states: Seq<InputState>,
    calls: Seq<InputCall>,
    n: int,
    key: KeyCode,
) -> bool {
    &&& states[n].pressed_set().contains(key) <==> exists|i: int| press_stands(calls, i, n, key)
    &&& states[n].just_pressed_set().contains(key) <==> exists|i: int|
        press_is_new(states, calls, i, n, key)
    &&& states[n].just_released_set().contains(key) <==> exists|i: int|
        release_is_new(states, calls, i, n, key)
}

#[verifier::rlimit(50)]
proof fn lemma_held_step(
    states: Seq<InputState>,
    calls: Seq<InputCall>,
    m: int,
    key: KeyCode,
)
    requires
        states.len() == calls.len() + 1,
        0 <= m < calls.len(),
        input_call_step(states[m], calls[m], states[m + 1]),
        states[m].consistent(),
        states[m].pressed_set().contains(key) <==> exists|i: int| press_stands(calls, i, m, key),
    ensures
        states[m + 1].pressed_set().contains(key) <==> exists|i: int| #[trigger] press_stands(calls, i, m + 1, key),
{
    let n = m + 1;
    let s0 = states[m];
    let s1 = states[n];
    let c = calls[m];
    assert(input_call_step(s0, c, s1));
    let held = s0.pressed_set().contains(key);
    // Held after the call.
    if c == InputCall::Press(key) {
        assert(press_stands(calls, m, n, key));
    } else if c == InputCall::Release(key) {
        assert forall|i: int| !#[trigger] press_stands(calls, i, n, key) by {
            if press_stands(calls, i, n, key) && i < m {
                assert(calls[m] != InputCall::Release(key));
            }
        }
    } else {
        assert(s1.pressed_set().contains(key) == held);
        if exists|i: int| press_stands(calls, i, m, key) {
            let i = choose|i: int| press_stands(calls, i, m, key);
            assert(press_stands(calls, i, n, key));
        }
        if exists|i: int| press_stands(calls, i, n, key) {
            let i = choose|i: int| press_stands(calls, i, n, key);
            assert(i != m);
            assert(press_stands(calls, i, m, key));
        }
    }
}

#[verifier::rlimit(50)]
proof fn lemma_just_pressed_step(
    states: Seq<InputState>,
    calls: Seq<InputCall>,
    m: int,
    key: KeyCode,
)
    requires
        states.len() == calls.len() + 1,
        0 <= m < calls.len(),
        input_call_step(states[m], calls[m], states[m + 1]),
        states[m].consistent(),
        states[m].just_pressed_set().contains(key) <==> exists|i: int| press_is_new(states, calls, i, m, key),
    ensures
        states[m + 1].just_pressed_set().contains(key) <==> exists|i: int|
            #[trigger] press_is_new(states, calls, i, m + 1, key),
{
    let n = m + 1;
    let s0 = states[m];
    let s1 = states[n];
    let c = calls[m];
    assert(input_call_step(s0, c, s1));
    let held = s0.pressed_set().contains(key);
    // Just pressed after the call.
    if c == InputCall::Press(key) {
        if !held {
            assert(press_is_new(states, calls, m, n, key));
        } else {
            assert(s1 == s0);
            if exists|i: int| press_is_new(states, calls, i, m, key) {
                let i = choose|i: int| press_is_new(states, calls, i, m, key);
                assert(press_is_new(states, calls, i, n, key));
            }
            if exists|i: int| press_is_new(states, calls, i, n, key) {
                let i = choose|i: int| press_is_new(states, calls, i, n, key);
                assert(i != m);
                assert(press_is_new(states, calls, i, m, key));
            }
        }
    } else if c == InputCall::Release(key) || c == InputCall::EndFrame {
        assert(!s1.just_pressed_set().contains(key));
        assert forall|i: int| !#[trigger] press_is_new(states, calls, i, n, key) by {
            if press_is_new(states, calls, i, n, key) && i < m {
                assert(calls[m] != InputCall::Release(key) && calls[m] != InputCall::EndFrame);
            }
        }
    } else {
        assert(s1.just_pressed_set().contains(key) == s0.just_pressed_set().contains(key));
        if exists|i: int| press_is_new(states, calls, i, m, key) {
            let i = choose|i: int| press_is_new(states, calls, i, m, key);
            assert(press_is_new(states, calls, i, n, key));
        }
        if exists|i: int| press_is_new(states, calls, i, n, key) {
            let i = choose|i: int| press_is_new(states, calls, i, n, key);
            assert(i != m);
            assert(press_is_new(states, calls, i, m, key));
        }
    }
}

#[verifier::rlimit(50)]
proof fn lemma_just_released_step(
    states: Seq<InputState>,
    calls: Seq<InputCall>,
    m: int,
    key: KeyCode,
)
    requires
        states.len() == calls.len() + 1,
        0 <= m < calls.len(),
        input_call_step(states[m], calls[m], states[m + 1]),
        states[m].consistent(),
        states[m].just_released_set().contains(key) <==> exists|i: int| release_is_new(states, calls, i, m, key),
    ensures
        states[m + 1].just_released_set().contains(key) <==> exists|i: int|
            #[trigger] release_is_new(states, calls, i, m + 1, key),
{
    let n = m + 1;
    let s0 = states[m];
    let s1 = states[n];
    let c = calls[m];
    assert(input_call_step(s0, c, s1));
    let held = s0.pressed_set().contains(key);
    // Just released after the call.
    if c == InputCall::Release(key) {
        if held {
            assert(release_is_new(states, calls, m, n, key));
        } else {
            assert(s1 == s0);
            if exists|i: int| release_is_new(states, calls, i, m, key) {
                let i = choose|i: int| release_is_new(states, calls, i, m, key);
                assert(release_is_new(states, calls, i, n, key));
            }
            if exists|i: int| release_is_new(states, calls, i, n, key) {
                let i = choose|i: int| release_is_new(states, calls, i, n, key);
                assert(i != m);
                assert(release_is_new(states, calls, i, m, key));
            }
        }
    } else if c == InputCall::Press(key) || c == InputCall::EndFrame {
        assert(!s1.just_released_set().contains(key));
        assert forall|i: int| !#[trigger] release_is_new(states, calls, i, n, key) by {
            if release_is_new(states, calls, i, n, key) && i < m {
                assert(calls[m] != InputCall::Press(key) && calls[m] != InputCall::EndFrame);
            }
        }
    } else {
        assert(s1.just_released_set().contains(key) == s0.just_released_set().contains(key));
        if exists|i: int| release_is_new(states, calls, i, m, key) {
            let i = choose|i: int| release_is_new(states, calls, i, m, key);
            assert(release_is_new(states, calls, i, n, key));
        }
        if exists|i: int| release_is_new(states, calls, i, n, key) {
            let i = choose|i: int| release_is_new(states, calls, i, n, key);
            assert(i != m);
            assert(release_is_new(states, calls, i, m, key));
        }
    }
}

proof fn lemma_input_history(states: Seq<InputState>, calls: Seq<InputCall>, n: int)
    requires
        input_history(states, calls),
        0 <= n <= calls.len(),
    ensures
        states[n].consistent(),
        forall|key: KeyCode| key_history(states, calls, n, key),
    decreases n,
{
    if n == 0 {
        assert(states[0].consistent());
    } else {
        let m = n - 1;
        lemma_input_history(states, calls, m);
        assert(input_call_step(states[m], calls[m], states[n]));
        match calls[m] {
            InputCall::Press(k) => law_input_stays_consistent(states[m], states[n], k),
            InputCall::Release(k) => law_input_stays_consistent(states[m], states[n], k),
            InputCall::EndFrame => law_input_stays_consistent(states[m], states[n], KeyCode::Space),
        }
        assert forall|key: KeyCode| key_history(states, calls, n, key) by {
            assert(key_history(states, calls, m, key));
            lemma_held_step(states, calls, m, key);
            lemma_just_pressed_step(states, calls, m, key);
            lemma_just_released_step(states, calls, m, key);
        }
    }
}

/// What an `InputState` says of a key after any sequence of calls from a
/// fresh state: the key is held exactly when some call pressed it and no
/// later call released it, so calls on other keys and frame ends never
/// change it; it is just pressed exactly when, since the last frame end,
/// a call pressed it while it was not held and no call released it since;
/// it is just released exactly when, since the last frame end, a call
/// released it while it was held and no call pressed it since. A key just
/// pressed is held, and a key just released is not.
pub proof fn law_input_follows_its_calls(
    states: Seq<InputState>,
    calls: Seq<InputCall>,
    key: KeyCode,
)
    requires
        input_history(states, calls),
    ensures
        states.last().pressed_set().contains(key) <==> exists|i: int|
            press_stands(calls, i, calls.len() as int, key),
        states.last().just_pressed_set().contains(key) <==> exists|i: int|
            press_is_new(states, calls, i, calls.len() as int, key),
        states.last().just_released_set().contains(key) <==> exists|i: int|
            release_is_new(states, calls, i, calls.len() as int, key),
        states.last().just_pressed_set().contains(key) ==> states.last().pressed_set().contains(key),
        states.last().just_released_set().contains(key) ==> !states.last().pressed_set().contains(
            key,
        ),
{
    lemma_input_history(states, calls, calls.len() as int);
    assert(key_history(states, calls, calls.len() as int, key));
}

/// A spawned entity is found under its id with the record it was spawned
/// with, and every other entity keeps its record.
pub proof fn law_spawned_entity_is_found<P>(
    before: World<P>,
    after: World<P>,
    entity: EntityId,
    record: EntityRecord<P>,
)
    requires
        before.wf(),
        after.wf(),
        entity@ == before.next_id(),
        after.entries() == before.entries().push((entity, record)),
    ensures
        after.record_of(entity) == Some(record),
        forall|other: EntityId| other != entity ==> #[trigger] after.record_of(other) == before.record_of(other),
{
    let n = before.entries().len();
    assert(after.entries()[n as int].0 == entity);
    let k = after.position_of(entity);
    assert(0 <= k < after.entries().len() && after.entries()[k].0 == entity);
    if k < n {
        assert(after.entries()[k].0@ < after.entries()[n as int].0@);
    }
    assert forall|other: EntityId| other != entity implies #[trigger] after.record_of(other)
        == before.record_of(other) by {
        if exists|i: int| 0 <= i < before.entries().len() && before.entries()[i].0 == other {
            let i = choose|i: int| 0 <= i < before.entries().len() && before.entries()[i].0 == other;
            assert(after.entries()[i] == before.entries()[i]);
            let ka = after.position_of(other);
            let kb = before.position_of(other);
            assert(0 <= ka < after.entries().len() && after.entries()[ka].0 == other);
            assert(0 <= kb < before.entries().len() && before.entries()[kb].0 == other);
            assert(ka != n);
            assert(after.entries()[ka] == before.entries()[ka]);
            if ka < kb {
                assert(before.entries()[ka].0@ < before.entries()[kb].0@);
            } else if kb < ka {
                assert(before.entries()[kb].0@ < before.entries()[ka].0@);
            }
        } else {
            assert forall|i: int| 0 <= i < after.entries().len() implies after.entries()[i].0 != other by {
                if i < n {
                    assert(after.entries()[i] == before.entries()[i]);
                }
            }
        }
    }
}

/// A running headless run after `k` calls that succeeded, with usable time
/// steps: its state, the engine's frame count and the last action.
pub open spec fn headless_after_successes(run: HeadlessRun, frames: u64, k: nat) -> (
    HeadlessRun,
    u64,
    HeadlessAction,
)
    decreases k,
{
    if k == 0 {
        (run, frames, HeadlessAction::CallReady)
    } else {
        let (r, f, _) = headless_after_successes(run, frames, (k - 1) as nat);
        headless_resume(r, f, true, Ok(()))
    }
}

proof fn lemma_headless_successes(run: HeadlessRun, frames: u64, k: nat)
    requires
        run.phase == HeadlessPhase::Running,
        frames + run.remaining <= u64::MAX,
        k <= run.remaining,
    ensures
        headless_after_successes(run, frames, k).0 == (HeadlessRun {
            remaining: (run.remaining - k) as u64,
            phase: HeadlessPhase::Running,
        }),
        headless_after_successes(run, frames, k).1 == frames + k,
        k >= 1 ==> headless_after_successes(run, frames, k).2 == (HeadlessAction::CallUpdate {
            frame: (frames + k) as u64,
        }),
    decreases k,
{
    if k > 0 {
        lemma_headless_successes(run, frames, (k - 1) as nat);
    }
}

/// In a headless run whose calls all succeed, the `k`-th success after
/// `ready` (for `k` up to the number of frames) asks for the update of frame
/// `frames + k`, the engine having advanced to that frame.
pub proof fn law_headless_run_updates_each_frame(run: HeadlessRun, frames: u64, k: nat)
    requires
        run.phase == HeadlessPhase::Running,
        frames + run.remaining <= u64::MAX,
        1 <= k <= run.remaining,
    ensures
        headless_after_successes(run, frames, k).2 == (HeadlessAction::CallUpdate {
            frame: (frames + k) as u64,
        }),
        headless_after_successes(run, frames, k).1 == frames + k,
{
    lemma_headless_successes(run, frames, k);
}

/// A headless run of `n` frames whose calls all succeed asks for the
/// shutdown after its `n` updates (right after `ready` when `n` is zero),
/// having advanced the engine exactly `n` frames; the shutdown's result ends
/// the run.
pub proof fn law_headless_run_shuts_down_after_last_frame(
    run: HeadlessRun,
    frames: u64,
    last: crate::engine::EngineResult<()>,
)
    requires
        run.phase == HeadlessPhase::Running,
        frames + run.remaining <= u64::MAX,
    ensures
        headless_after_successes(run, frames, (run.remaining + 1) as nat).2
            == HeadlessAction::CallShutdown,
        headless_after_successes(run, frames, (run.remaining + 1) as nat).1 == frames
            + run.remaining,
        ({
            let (r, f, _) = headless_after_successes(run, frames, (run.remaining + 1) as nat);
            headless_resume(r, f, true, last).2 == HeadlessAction::Finish(last)
        }),
{
    lemma_headless_successes(run, frames, run.remaining as nat);
}

/// Textures loaded one after the other get different ids: a load that
/// produces a texture uses the next id, and the next load starts from the
/// id after it.
pub proof fn law_texture_ids_are_fresh(
    root: Seq<char>,
    first_request: Seq<char>,
    second_request: Seq<char>,
    next: u64,
    first_image: Result<crate::assets::ImageData, crate::asset_path::AssetError>,
    second_image: Result<crate::assets::ImageData, crate::asset_path::AssetError>,
    first: Texture,
    second: Texture,
)
    requires
        next < u64::MAX,
        texture_result(root, first_request, next, first_image, Ok(first)),
        texture_result(root, second_request, (next + 1) as u64, second_image, Ok(second)),
    ensures
        first.spec_id() != second.spec_id(),
        first.spec_id()@ < second.spec_id()@,
{
}

/// One call of `Assets::load_texture` (or `texture`) as its contract
/// states it: `before` loads `requested` from the image `loaded`, answers
/// `r` and becomes `after`.
pub open spec fn texture_load_step(
    before: Assets,
    requested: Seq<char>,
    loaded: Result<ImageData, AssetError>,
    r: Result<Texture, GameError>,
    after: Assets,
) -> bool {
    &&& before.spec_next_texture_id() < u64::MAX
    &&& after.spec_root() == before.spec_root()
    &&& texture_result(before.spec_root()@, requested, before.spec_next_texture_id(), loaded, r)
    &&& after.spec_next_texture_id() == if asset_request(requested) is Some && loaded is Ok {
        (before.spec_next_texture_id() + 1) as u64
    } else {
        before.spec_next_texture_id()
    }
}

/// How many of `results` are textures.
pub open spec fn loaded_count(results: Seq<Result<Texture, GameError>>) -> nat
    decreases results.len(),
{
    if results.len() == 0 {
        0
    } else {
        loaded_count(results.drop_last()) + if results.last() is Ok {
            1nat
        } else {
            0nat
        }
    }
}

/// A decoded image that a texture can be made from.
pub open spec fn usable_image(loaded: Result<ImageData, AssetError>) -> bool {
    loaded matches Ok(image) ==> image.wf() && image.spec_width() > 0 && image.spec_height() > 0
}

proof fn lemma_texture_loads_count(
    states: Seq<Assets>,
    requests: Seq<Seq<char>>,
    loads: Seq<Result<ImageData, AssetError>>,
    results: Seq<Result<Texture, GameError>>,
    n: int,
)
    requires
        states.len() == requests.len() + 1,
        loads.len() == requests.len(),
        results.len() == requests.len(),
        0 <= n <= requests.len(),
        states[0].spec_next_texture_id() == 1,
        forall|i: int|
            0 <= i < requests.len() ==> texture_load_step(
                #[trigger] states[i],
                requests[i],
                loads[i],
                results[i],
                states[i + 1],
            ),
        forall|i: int| 0 <= i < loads.len() ==> usable_image(#[trigger] loads[i]),
    ensures
        states[n].spec_next_texture_id() == loaded_count(results.take(n)) + 1,
    decreases n,
{
    if n == 0 {
        assert(results.take(0) =~= Seq::<Result<Texture, GameError>>::empty());
    } else {
        let i = n - 1;
        lemma_texture_loads_count(states, requests, loads, results, i);
        assert(results.take(n).drop_last() =~= results.take(i));
        assert(texture_load_step(states[i], requests[i], loads[i], results[i], states[i + 1]));
        assert(usable_image(loads[i]));
        if asset_request(requests[i]) is Some && loads[i] is Ok {
            let image = loads[i]->Ok_0;
            if results[i] is Err {
                let e = results[i]->Err_0;
                assert(e is Render);
                let re = e->Render_0;
                let id = choose|id: crate::render::TextureId|
                    id@ == states[i].spec_next_texture_id() && #[trigger] crate::render::rgba8_result(
                        id,
                        image.spec_width(),
                        image.spec_height(),
                        image.spec_pixels(),
                        Err(re),
                    );
                assert(crate::render::rgba8_shape(
                    image.spec_width(),
                    image.spec_height(),
                    image.spec_pixels().len() as int,
                ));
            }
        }
    }
}

/// Counting from a fresh `Assets`, whose next id is 1, the k-th load that
/// gives a texture gives the one with id k, so loaded textures have
/// distinct ids in the order they were loaded; requests that are refused
/// and images that failed to load use no id. The images are decoded ones
/// (four bytes per pixel) of at least one pixel.
pub proof fn law_kth_loaded_texture_gets_id_k(
    states: Seq<Assets>,
    requests: Seq<Seq<char>>,
    loads: Seq<Result<ImageData, AssetError>>,
    results: Seq<Result<Texture, GameError>>,
)
    requires
        states.len() == requests.len() + 1,
        loads.len() == requests.len(),
        results.len() == requests.len(),
        states[0].spec_next_texture_id() == 1,
        forall|i: int|
            0 <= i < requests.len() ==> texture_load_step(
                #[trigger] states[i],
                requests[i],
                loads[i],
                results[i],
                states[i + 1],
            ),
        forall|i: int| 0 <= i < loads.len() ==> usable_image(#[trigger] loads[i]),
    ensures
        forall|i: int|
            0 <= i < results.len() && #[trigger] results[i] is Ok ==> results[i]->Ok_0.spec_id()@
                == loaded_count(results.take(i)) + 1,
        forall|i: int|
            0 <= i < results.len() ==> (#[trigger] results[i] is Ok <==> asset_request(requests[i])
                is Some && loads[i] is Ok),
{
    assert forall|i: int| 0 <= i < results.len() implies (#[trigger] results[i] is Ok
        ==> results[i]->Ok_0.spec_id()@ == loaded_count(results.take(i)) + 1) && (results[i] is Ok
        <==> asset_request(requests[i]) is Some && loads[i] is Ok) by {
        lemma_texture_loads_count(states, requests, loads, results, i);
        lemma_texture_loads_count(states, requests, loads, results, i + 1);
        assert(results.take(i + 1).drop_last() =~= results.take(i));
        assert(texture_load_step(states[i], requests[i], loads[i], results[i], states[i + 1]));
    }
}

/// A texture that loading gives has the id the load handed out, and its
/// data carries that same id.
pub proof fn law_loaded_texture_data_has_its_id(
    root: Seq<char>,
    requested: Seq<char>,
    next: u64,
    loaded: Result<ImageData, AssetError>,
    t: Texture,
)
    requires
        texture_result(root, requested, next, loaded, Ok(t)),
    ensures
        t.spec_id()@ == next,
        t.spec_data().spec_id() == t.spec_id(),
{
}

/// One call of `AudioSystem::load_sound` as its contract states it.
pub open spec fn sound_load_step(
    before: AudioSystem,
    resolved: Result<String, AssetError>,
    backend_load: Result<(), AudioError>,
    r: Result<AssetHandle<SoundAsset>, AudioError>,
    after: AudioSystem,
) -> bool {
    &&& before.wf()
    &&& before.spec_next_id() < u64::MAX
    &&& after.wf()
    &&& after.spec_backend_available() == before.spec_backend_available()
    &&& after.spec_backend_error() == before.spec_backend_error()
    &&& before.loaded().subset_of(after.loaded())
    &&& r matches Ok(h) ==> after.loaded().contains(h@)
    &&& match resolved {
        Err(e) => r == Err::<AssetHandle<SoundAsset>, AudioError>(AudioError::Asset(e))
            && after.spec_next_id() == before.spec_next_id() && after.loaded() == before.loaded(),
        Ok(_) => after.spec_next_id() == before.spec_next_id() + 1 && (
        if before.spec_backend_available() && backend_load is Err {
            r == Err::<AssetHandle<SoundAsset>, AudioError>(backend_load->Err_0) && after.loaded()
                == before.loaded()
        } else {
            (r matches Ok(h) && h@ == before.spec_next_id()) && after.loaded()
                == before.loaded().insert(before.spec_next_id())
        }),
    }
}

proof fn lemma_sound_loads_grow(
    states: Seq<AudioSystem>,
    resolved: Seq<Result<String, AssetError>>,
    backend: Seq<Result<(), AudioError>>,
    results: Seq<Result<AssetHandle<SoundAsset>, AudioError>>,
    a: int,
    k: int,
)
    requires
        states.len() == results.len() + 1,
        resolved.len() == results.len(),
        backend.len() == results.len(),
        forall|m: int|
            0 <= m < results.len() ==> sound_load_step(
                #[trigger] states[m],
                resolved[m],
                backend[m],
                results[m],
                states[m + 1],
            ),
        0 <= a <= k <= results.len(),
    ensures
        states[a].spec_next_id() <= states[k].spec_next_id(),
        states[a].loaded().subset_of(states[k].loaded()),
    decreases k - a,
{
    if k > a {
        lemma_sound_loads_grow(states, resolved, backend, results, a, k - 1);
        assert(sound_load_step(
            states[k - 1],
            resolved[k - 1],
            backend[k - 1],
            results[k - 1],
            states[k],
        ));
    }
}

/// Over any sequence of sound loads, each handle a load gives stays loaded
/// (so playing it is never skipped as not loaded, see
/// `AudioSystem::play_sound`), and a later load gives a handle with a
/// larger id; loads that fail to resolve use no id.
pub proof fn law_sound_handles_increase_and_stay_loaded(
    states: Seq<AudioSystem>,
    resolved: Seq<Result<String, AssetError>>,
    backend: Seq<Result<(), AudioError>>,
    results: Seq<Result<AssetHandle<SoundAsset>, AudioError>>,
    i: int,
    j: int,
)
    requires
        states.len() == results.len() + 1,
        resolved.len() == results.len(),
        backend.len() == results.len(),
        forall|m: int|
            0 <= m < results.len() ==> sound_load_step(
                #[trigger] states[m],
                resolved[m],
                backend[m],
                results[m],
                states[m + 1],
            ),
        0 <= i < j < results.len(),
    ensures
        results[i] matches Ok(h) ==> states.last().loaded().contains(h@),
        (results[i] is Ok && results[j] is Ok) ==> results[i]->Ok_0@ < results[j]->Ok_0@,
        resolved[i] is Err ==> states[i + 1].spec_next_id() == states[i].spec_next_id(),
{
    assert(sound_load_step(states[i], resolved[i], backend[i], results[i], states[i + 1]));
    assert(sound_load_step(states[j], resolved[j], backend[j], results[j], states[j + 1]));
    lemma_sound_loads_grow(states, resolved, backend, results, i + 1, results.len() as int);
    lemma_sound_loads_grow(states, resolved, backend, results, i + 1, j);
}

proof fn lemma_segments_len(s: Seq<char>)
    ensures
        segments(s).len() >= 1,
    decreases s.len(),
{
    if s.len() > 0 {
        lemma_segments_len(s.drop_last());
    }
}

/// The segments of `a + b`: those of `a`, the last of which runs on into the
/// first of `b`, then the rest of `b`'s.
proof fn lemma_segments_concat(a: Seq<char>, b: Seq<char>)
    ensures
        segments(a + b) == segments(a).drop_last() + seq![segments(a).last() + segments(b)[0]]
            + segments(b).drop_first(),
    decreases b.len(),
{
    lemma_segments_len(a);
    lemma_segments_len(b);
    if b.len() == 0 {
        assert(a + b =~= a);
        assert(segments(b) == seq![Seq::<char>::empty()]);
        assert(segments(a).last() + Seq::<char>::empty() =~= segments(a).last());
        assert(segments(a).drop_last() + seq![segments(a).last()] =~= segments(a));
        assert(segments(b).drop_first() =~= Seq::<Seq<char>>::empty());
        assert(segments(a).drop_last() + seq![segments(a).last() + segments(b)[0]]
            + segments(b).drop_first() =~= segments(a));
    } else {
        let b0 = b.drop_last();
        let c = b.last();
        lemma_segments_concat(a, b0);
        lemma_segments_len(b0);
        assert((a + b).drop_last() =~= a + b0);
        assert((a + b).last() == c);
        let d = segments(a).drop_last();
        let l = segments(a).last();
        let sb0 = segments(b0);
        let prev = segments(a + b0);
        assert(prev == d + seq![l + sb0[0]] + sb0.drop_first());
        if c == '/' {
            assert(segments(b) == sb0.push(Seq::<char>::empty()));
            assert(segments(b)[0] == sb0[0]);
            assert(segments(b).drop_first() =~= sb0.drop_first().push(Seq::<char>::empty()));
            assert(segments(a + b) == prev.push(Seq::<char>::empty()));
            assert(prev.push(Seq::<char>::empty()) =~= d + seq![l + segments(b)[0]]
                + segments(b).drop_first());
        } else {
            assert(segments(b) == sb0.update(sb0.len() - 1, sb0.last().push(c)));
            assert(segments(a + b) == prev.update(prev.len() - 1, prev.last().push(c)));
            if sb0.len() == 1 {
                assert(segments(b)[0] == sb0[0].push(c));
                assert(segments(b).drop_first() =~= Seq::<Seq<char>>::empty());
                assert(sb0.drop_first() =~= Seq::<Seq<char>>::empty());
                assert((l + sb0[0]).push(c) =~= l + sb0[0].push(c));
                assert(prev.update(prev.len() - 1, prev.last().push(c)) =~= d + seq![
                    l + segments(b)[0],
                ] + segments(b).drop_first());
            } else {
                assert(segments(b)[0] == sb0[0]);
                assert(segments(b).drop_first() =~= sb0.drop_first().update(
                    sb0.len() - 2,
                    sb0.last().push(c),
                ));
                assert(prev.update(prev.len() - 1, prev.last().push(c)) =~= d + seq![
                    l + segments(b)[0],
                ] + segments(b).drop_first());
            }
        }
    }
}

proof fn lemma_normal_pieces_concat(x: Seq<Seq<char>>, y: Seq<Seq<char>>)
    ensures
        normal_pieces(x + y) == normal_pieces(x) + normal_pieces(y),
    decreases y.len(),
{
    if y.len() == 0 {
        assert(x + y =~= x);
        assert(normal_pieces(x) + normal_pieces(y) =~= normal_pieces(x));
    } else {
        lemma_normal_pieces_concat(x, y.drop_last());
        assert((x + y).drop_last() =~= x + y.drop_last());
        assert((x + y).last() == y.last());
        if is_normal_piece(y.last()) {
            assert(normal_pieces(x + y) =~= normal_pieces(x) + normal_pieces(y));
        } else {
            assert(normal_pieces(x + y) =~= normal_pieces(x) + normal_pieces(y));
        }
    }
}

/// Joining a relative path onto a root appends its components to the
/// root's, behind the root's own markers.
proof fn lemma_join_components(root: Seq<char>, rel: Seq<char>)
    requires
        root.len() > 0,
        !is_absolute_text(rel),
    ensures
        std_components(join_path(root, rel)) == std_components(root) + components(rel),
{
    let joined = join_path(root, rel);
    lemma_segments_len(root);
    lemma_segments_len(rel);
    let sr = segments(rel);
    if root.last() == '/' {
        let head = root.drop_last();
        lemma_segments_len(head);
        assert(head.push('/') =~= root);
        assert(segments(root) == segments(head).push(Seq::<char>::empty()));
        assert(joined == root + rel);
        lemma_segments_concat(root, rel);
        assert(segments(root).drop_last() =~= segments(head));
        assert(Seq::<char>::empty() + sr[0] =~= sr[0]);
        assert(seq![sr[0]] + sr.drop_first() =~= sr);
        assert(segments(joined) =~= segments(head) + sr);
        lemma_normal_pieces_concat(segments(head), sr);
        assert(normal_pieces(segments(root)) == normal_pieces(segments(head))) by {
            assert(segments(root).drop_last() =~= segments(head));
            assert(!is_normal_piece(Seq::<char>::empty()));
        }
        assert(segments(joined)[0] == segments(head)[0]);
        assert(segments(root)[0] == segments(head)[0]);
    } else {
        let slashed = root + seq!['/'];
        assert(joined =~= slashed + rel);
        assert(slashed.drop_last() =~= root);
        assert(segments(slashed) == segments(root).push(Seq::<char>::empty()));
        lemma_segments_concat(slashed, rel);
        assert(segments(slashed).drop_last() =~= segments(root));
        assert(Seq::<char>::empty() + sr[0] =~= sr[0]);
        assert(seq![sr[0]] + sr.drop_first() =~= sr);
        assert(segments(joined) =~= segments(root) + sr);
        lemma_normal_pieces_concat(segments(root), sr);
        assert(segments(joined)[0] == segments(root)[0]);
    }
    assert(joined[0] == root[0]);
    if is_absolute_text(root) {
        assert(std_components(joined) =~= std_components(root) + components(rel));
    } else if segments(root)[0] == seq!['.'] {
        assert(std_components(joined) =~= std_components(root) + components(rel));
    } else {
        assert(std_components(joined) =~= std_components(root) + components(rel));
    }
}

/// A path that `AssetPath::new` accepts resolves under any root to a path
/// that `Path::starts_with` the root, component by component — the check a
/// canonical path must pass to be loaded.
pub proof fn law_accepted_asset_path_resolves_inside_root(root: Seq<char>, raw: Seq<char>)
    requires
        !is_absolute_asset(raw),
        !asset_components(raw).contains(seq!['.', '.']),
    ensures
        path_starts_with(join_path(root, normalized_text(raw)), root),
{
    law_accepted_asset_path_stays_under_root(root, raw);
    let n = normalized_text(raw);
    if root.len() == 0 {
        lemma_segments_len(root);
        assert(segments(root) == seq![Seq::<char>::empty()]);
        let lone = seq![Seq::<char>::empty()];
        assert(normal_pieces(lone).len() == 0) by {
            assert(lone.drop_last() =~= Seq::<Seq<char>>::empty());
            assert(normal_pieces(lone.drop_last()).len() == 0);
            assert(!is_normal_piece(lone.last()));
        }
        assert(std_components(root) =~= Seq::<Seq<char>>::empty());
        assert(std_components(root).is_prefix_of(std_components(join_path(root, n))));
    } else {
        lemma_join_components(root, n);
        assert(std_components(root).is_prefix_of(std_components(root) + components(n))) by {
            assert((std_components(root) + components(n)).subrange(
                0,
                std_components(root).len() as int,
            ) =~= std_components(root));
        }
    }
}

/// A requested `asset://`, `res://` or `user://` path (or a scheme-less
/// asset path) that resolves at all resolves inside its root.
pub proof fn law_resolved_paths_stay_in_their_root(
    root: Seq<char>,
    requested: Seq<char>,
    scheme: VirtualScheme,
)
    requires
        resolved_under(root, requested, scheme) is Some,
    ensures
        path_starts_with(resolved_under(root, requested, scheme)->0, root),
{
    let (s, rel) = parse_virtual(requested)->0;
    law_accepted_asset_path_resolves_inside_root(root, rel);
}

/// The name a project's input configuration gives each key: the name of
/// its variant.
pub open spec fn key_code_name(key: KeyCode) -> Seq<char> {
    match key {
        KeyCode::ArrowUp => "ArrowUp"@,
        KeyCode::ArrowDown => "ArrowDown"@,
        KeyCode::ArrowLeft => "ArrowLeft"@,
        KeyCode::ArrowRight => "ArrowRight"@,
        KeyCode::KeyW => "KeyW"@,
        KeyCode::KeyA => "KeyA"@,
        KeyCode::KeyS => "KeyS"@,
        KeyCode::KeyD => "KeyD"@,
        KeyCode::Space => "Space"@,
        KeyCode::Enter => "Enter"@,
        KeyCode::Escape => "Escape"@,
    }
}

/// Every key is named in an input configuration by its own variant name,
/// and the letter keys also by their bare letter; names that are no key's
/// name denote no key.
pub proof fn law_keys_are_named_by_their_variants(key: KeyCode)
    ensures
        key_named(key_code_name(key)) == Some(key),
        key_named("W"@) == Some(KeyCode::KeyW),
        key_named("A"@) == Some(KeyCode::KeyA),
        key_named("S"@) == Some(KeyCode::KeyS),
        key_named("D"@) == Some(KeyCode::KeyD),
        key_named(Seq::<char>::empty()) is None,
        key_named("Shift"@) is None,
{
    reveal_strlit("ArrowUp");
    reveal_strlit("ArrowDown");
    reveal_strlit("ArrowLeft");
    reveal_strlit("ArrowRight");
    reveal_strlit("KeyW");
    reveal_strlit("W");
    reveal_strlit("KeyA");
    reveal_strlit("A");
    reveal_strlit("KeyS");
    reveal_strlit("S");
    reveal_strlit("KeyD");
    reveal_strlit("D");
    reveal_strlit("Space");
    reveal_strlit("Enter");
    reveal_strlit("Escape");
    reveal_strlit("Shift");
    assert("ArrowUp"@.len() == 7);
    assert("ArrowDown"@.len() == 9);
    assert("ArrowLeft"@.len() == 9);
    assert("ArrowRight"@.len() == 10);
    assert("KeyW"@.len() == 4);
    assert("W"@.len() == 1);
    assert("KeyA"@.len() == 4);
    assert("A"@.len() == 1);
    assert("KeyS"@.len() == 4);
    assert("S"@.len() == 1);
    assert("KeyD"@.len() == 4);
    assert("D"@.len() == 1);
    assert("Space"@.len() == 5);
    assert("Enter"@.len() == 5);
    assert("Escape"@.len() == 6);
    assert("Shift"@.len() == 5);
    assert("ArrowDown"@[5] == 'D');
    assert("ArrowLeft"@[5] == 'L');
    assert("KeyW"@[3] == 'W');
    assert("KeyA"@[3] == 'A');
    assert("KeyS"@[3] == 'S');
    assert("KeyD"@[3] == 'D');
    assert("W"@[0] == 'W');
    assert("A"@[0] == 'A');
    assert("S"@[0] == 'S');
    assert("D"@[0] == 'D');
    assert("Space"@[0] == 'S');
    assert("Enter"@[0] == 'E');
    assert("Space"@[1] == 'p');
    assert("Shift"@[0] == 'S');
    assert("Shift"@[1] == 'h');
}

/// An axis points to the side that alone is active: it reads `-1` exactly
/// when only the negative side is active, `1` exactly when only the
/// positive side is, and `0` when both or neither are; swapping the sides
/// flips it.
pub proof fn law_axis_points_to_the_only_active_side(negative: bool, positive: bool)
    ensures
        axis_direction(negative, positive) == -1 <==> (negative && !positive),
        axis_direction(negative, positive) == 1 <==> (!negative && positive),
        axis_direction(negative, positive) == 0 <==> negative == positive,
        axis_direction(positive, negative) == -axis_direction(negative, positive),
{
}

/// The example a web build names is the argument right after the first
/// `--example` that is followed by an argument.
pub proof fn law_example_follows_the_first_flag(args: Seq<Seq<char>>, i: int)
    requires
        0 <= i,
        i + 1 < args.len(),
        args[i] == "--example"@,
        forall|j: int| 0 <= j < i ==> args[j] != "--example"@,
    ensures
        example_named(args) == Some(args[i + 1]),
    decreases i,
{
    if i > 0 {
        law_example_follows_the_first_flag(args.drop_first(), i - 1);
    }
}

/// Without an `--example` followed by an argument, no example is named.
pub proof fn law_no_flag_names_no_example(args: Seq<Seq<char>>)
    requires
        forall|j: int| 0 <= j < args.len() - 1 ==> args[j] != "--example"@,
    ensures
        example_named(args) is None,
    decreases args.len(),
{
    if args.len() >= 2 {
        law_no_flag_names_no_example(args.drop_first());
    }
}

/// A shutdown that fails while no error is recorded becomes the run's
/// error, whatever the shutdown was for; one that succeeds keeps the
/// recorded error.
pub proof fn law_failed_shutdown_is_reported(s: DesktopLoop, e: EngineError)
    requires
        s.pending is Some,
    ensures
        s.error is None ==> loop_step(s, LoopEvent::ShutdownFinished(Err(e))).0.error == Some(
            DesktopRuntimeError::Engine(e),
        ),
        loop_step(s, LoopEvent::ShutdownFinished(Ok(()))).0.error == s.error,
        loop_step(s, LoopEvent::ShutdownFinished(Err(e))).0.shutdown,
        loop_step(s, LoopEvent::ShutdownFinished(Err(e))).0.error is Some,
{
}

/// Each log level filters by its own lowercase name.
pub proof fn law_log_filters_are_level_names(level: LogLevel)
    ensures
        level == LogLevel::Error ==> log_filter(level) == "error"@,
        level == LogLevel::Warn ==> log_filter(level) == "warn"@,
        level == LogLevel::Info ==> log_filter(level) == "info"@,
        level == LogLevel::Debug ==> log_filter(level) == "debug"@,
        level == LogLevel::Trace ==> log_filter(level) == "trace"@,
{
}

/// A list of key names in the configuration's own names gives back those
/// keys, in order.
pub proof fn law_key_names_round_trip(keys: Seq<KeyCode>)
    ensures
        keys_named(keys.map_values(|k: KeyCode| key_code_name(k))) == keys,
    decreases keys.len(),
{
    let names = keys.map_values(|k: KeyCode| key_code_name(k));
    if keys.len() > 0 {
        law_key_names_round_trip(keys.drop_last());
        assert(names.drop_last() =~= keys.drop_last().map_values(|k: KeyCode| key_code_name(k)));
        law_keys_are_named_by_their_variants(keys.last());
        assert(keys.drop_last().push(keys.last()) =~= keys);
    } else {
        assert(names =~= Seq::<Seq<char>>::empty());
    }
}

/// A crate file name is the package name with every `-` made `_`: it has
/// the same length, no `-`, and every other character where it was.
pub proof fn law_crate_file_names_have_no_hyphens(package: Seq<char>)
    ensures
        crate_file_text(package).len() == package.len(),
        forall|i: int| 0 <= i < package.len() ==> #[trigger] crate_file_text(package)[i] != '-',
        forall|i: int|
            0 <= i < package.len() && package[i] != '-' ==> #[trigger] crate_file_text(package)[i]
                == package[i],
        forall|i: int|
            0 <= i < package.len() && package[i] == '-' ==> #[trigger] crate_file_text(package)[i]
                == '_',
{
}

/// How the desktop loop treats frames: once the window was asked to close,
/// or Escape is pressed, no frame runs; a ready, idle loop that was not
/// asked to close runs a frame when one is due; a running frame that
/// succeeds ends its input frame, and one that fails becomes the run's
/// error and ends the run, with a shutdown unless one already ran.
pub proof fn law_desktop_frames_and_exits(s: DesktopLoop, escape: bool, err: DesktopRuntimeError)
    requires
        loop_invariant(s),
    ensures
        loop_step(s, LoopEvent::FrameDue { escape_requested: true }).1 != LoopAction::RunFrame,
        s.exit_requested ==> loop_step(s, LoopEvent::FrameDue { escape_requested: escape }).1
            != LoopAction::RunFrame,
        (s.ready && s.pending is None) ==> loop_step(s, LoopEvent::CloseRequested).0.exit_requested,
        (s.ready && s.pending is None && !s.frame_running && !s.exiting && !s.exit_requested)
            ==> loop_step(s, LoopEvent::FrameDue { escape_requested: false }).1
            == LoopAction::RunFrame,
        (s.ready && s.pending is None && s.frame_running) ==> ({
            &&& loop_step(s, LoopEvent::FrameFinished(Ok(()))).1 == LoopAction::EndFrame
            &&& loop_step(s, LoopEvent::FrameFinished(Ok(()))).0.error == s.error
            &&& loop_step(s, LoopEvent::FrameFinished(Err(err))).0.error == Some(err)
            &&& loop_step(s, LoopEvent::FrameFinished(Err(err))).1 == if s.shutdown {
                LoopAction::Exit
            } else {
                LoopAction::CallShutdown
            }
        }),
{
}

/// The configured clear colour names: `black` is opaque black and
/// `cornflower` (or `cornflowerblue`) opaque cornflower blue, in any letter
/// case.
pub proof fn law_clear_color_names()
    ensures
        ({
            let c = clear_color_named("black"@);
            c is Some && c->0.r == 0 && c->0.g == 0 && c->0.b == 0 && c->0.a == 255
        }),
        clear_color_named("Black"@) == clear_color_named("black"@),
        ({
            let c = clear_color_named("cornflower"@);
            c is Some && c->0.r == 100 && c->0.g == 149 && c->0.b == 237 && c->0.a == 255
        }),
        clear_color_named("CornflowerBlue"@) == clear_color_named("cornflower"@),
        clear_color_named("white"@) is None,
{
    reveal_strlit("black");
    reveal_strlit("Black");
    reveal_strlit("cornflower");
    reveal_strlit("cornflowerblue");
    reveal_strlit("CornflowerBlue");
    reveal_strlit("white");
    assert("black"@.len() == 5);
    assert("Black"@.len() == 5);
    assert("cornflower"@.len() == 10);
    assert("cornflowerblue"@.len() == 14);
    assert("CornflowerBlue"@.len() == 14);
    assert("white"@.len() == 5);
    assert(crate::text::eq_ascii_lowercase("black"@, "black"@));
    assert(crate::text::eq_ascii_lowercase("Black"@, "black"@));
    assert(crate::text::eq_ascii_lowercase("cornflower"@, "cornflower"@));
    assert(crate::text::eq_ascii_lowercase("CornflowerBlue"@, "cornflowerblue"@));
    assert(crate::text::ascii_lower_code("white"@[0]) != "black"@[0] as u32);
}

} // verus!
