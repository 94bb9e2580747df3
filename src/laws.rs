use vstd::prelude::*;
use vstd::seq_lib::*;

use crate::controller::{
    download_events, interleaves, launches, run, starts, step, AppModel, EventModel,
};
use crate::text::spec_is_blank;

verus! {

broadcast use group_to_multiset_ensures;

/// Running the events `evs` and then `e` is running `evs`, then taking one step on `e`.
proof fn lemma_run_push(s: AppModel, evs: Seq<EventModel>, e: EventModel)
    ensures
        run(s, evs.push(e)) == step(run(s, evs), e),
    decreases evs.len(),
{
    if evs.len() == 0 {
        assert(evs.push(e).drop_first() =~= Seq::<EventModel>::empty());
        reveal_with_fuel(run, 2);
    } else {
        assert(evs.push(e).drop_first() =~= evs.drop_first().push(e));
        lemma_run_push(step(s, evs[0]), evs.drop_first(), e);
    }
}

/// Running two runs of events one after the other.
proof fn lemma_run_append(s: AppModel, a: Seq<EventModel>, b: Seq<EventModel>)
    ensures
        run(s, a + b) == run(run(s, a), b),
    decreases a.len(),
{
    if a.len() > 0 {
        assert((a + b).drop_first() =~= a.drop_first() + b);
        lemma_run_append(step(s, a[0]), a.drop_first(), b);
    } else {
        assert(a + b =~= b);
    }
}

/// While a download runs, received lines are kept at the end of the log in
/// order, and nothing else changes.
proof fn lemma_receive_lines(s: AppModel, lines: Seq<Seq<char>>)
    requires
        s.busy,
    ensures
        run(s, lines.map_values(|l: Seq<char>| EventModel::LineReceived(l))) == (AppModel {
            log: s.log + lines,
            ..s
        }),
    decreases lines.len(),
{
    let evs = lines.map_values(|l: Seq<char>| EventModel::LineReceived(l));
    if lines.len() == 0 {
        assert(s.log + lines =~= s.log);
    } else {
        let init = lines.drop_last();
        lemma_receive_lines(s, init);
        assert(evs =~= init.map_values(|l: Seq<char>| EventModel::LineReceived(l)).push(
            EventModel::LineReceived(lines.last()),
        ));
        lemma_run_push(
            s,
            init.map_values(|l: Seq<char>| EventModel::LineReceived(l)),
            EventModel::LineReceived(lines.last()),
        );
        assert((s.log + init).push(lines.last()) =~= s.log + lines);
    }
}

/// A non-empty sequence holds its first item and the rest.
proof fn lemma_multiset_drop_first<A>(s: Seq<A>)
    requires
        s.len() > 0,
    ensures
        s.to_multiset() =~= s.drop_first().to_multiset().insert(s[0]),
{
    assert(s.remove(0) =~= s.drop_first());
    assert(s.contains(s[0]));
}

/// A merge of two sequences holds each item of both, as often as the two hold it together.
proof fn lemma_interleaves_multiset<A>(m: Seq<A>, a: Seq<A>, b: Seq<A>)
    requires
        interleaves(m, a, b),
    ensures
        m.to_multiset() =~= a.to_multiset().add(b.to_multiset()),
    decreases m.len(),
{
    if m.len() == 0 {
        assert(a =~= Seq::<A>::empty());
        assert(b =~= Seq::<A>::empty());
    } else {
        lemma_multiset_drop_first(m);
        if a.len() > 0 && m[0] == a[0] && interleaves(m.drop_first(), a.drop_first(), b) {
            lemma_interleaves_multiset(m.drop_first(), a.drop_first(), b);
            lemma_multiset_drop_first(a);
        } else {
            lemma_interleaves_multiset(m.drop_first(), a, b.drop_first());
            lemma_multiset_drop_first(b);
        }
    }
}

/// Once the downloader's streams have closed the application is idle, whatever
/// came before and however many lines were received, none included.
pub proof fn lemma_idle_once_streams_close(s: AppModel, evs: Seq<EventModel>)
    ensures
        !run(s, evs.push(EventModel::StreamsClosed)).busy,
{
    lemma_run_push(s, evs, EventModel::StreamsClosed);
}

/// A download started from the idle state with an address, whose two streams
/// delivered `out` and `err` merged into `delivered`, leaves every line of
/// both in the log exactly once, each stream's lines in their own order, and
/// the application idle.
pub proof fn lemma_every_line_logged_once(
    s: AppModel,
    out: Seq<Seq<char>>,
    err: Seq<Seq<char>>,
    delivered: Seq<Seq<char>>,
)
    requires
        !s.busy,
        !spec_is_blank(s.url),
        interleaves(delivered, out, err),
    ensures
        run(s, download_events(delivered)).log == delivered,
        interleaves(run(s, download_events(delivered)).log, out, err),
        run(s, download_events(delivered)).log.to_multiset() == out.to_multiset().add(
            err.to_multiset(),
        ),
        !run(s, download_events(delivered)).busy,
{
    let first = seq![EventModel::Submitted];
    let lines = delivered.map_values(|l: Seq<char>| EventModel::LineReceived(l));
    let last = seq![EventModel::StreamsClosed];
    assert(download_events(delivered) == first + lines + last);
    lemma_run_append(s, first + lines, last);
    lemma_run_append(s, first, lines);
    assert(first.drop_first() =~= Seq::<EventModel>::empty());
    assert(last.drop_first() =~= Seq::<EventModel>::empty());
    reveal_with_fuel(run, 2);
    let started = step(s, EventModel::Submitted);
    assert(run(s, first) == started);
    lemma_receive_lines(started, delivered);
    assert(started.log + delivered =~= delivered);
    let closed = run(run(s, first + lines), last);
    assert(closed == step(run(s, first + lines), EventModel::StreamsClosed));
    lemma_interleaves_multiset(delivered, out, err);
}

/// Without the end of a run in between, events start at most one download,
/// and none when one is already running.
pub proof fn lemma_at_most_one_download(s: AppModel, evs: Seq<EventModel>)
    requires
        forall|i: int|
            0 <= i < evs.len() ==> !(#[trigger] evs[i] is StreamsClosed) && !(evs[i] is SpawnFailed),
    ensures
        launches(s, evs) <= 1,
        s.busy ==> launches(s, evs) == 0,
    decreases evs.len(),
{
    if evs.len() > 0 {
        let rest = evs.drop_first();
        assert(forall|i: int|
            0 <= i < rest.len() ==> #[trigger] rest[i] == evs[i + 1]);
        assert(!(evs[0] is StreamsClosed) && !(evs[0] is SpawnFailed));
        lemma_at_most_one_download(step(s, evs[0]), rest);
        if starts(s, evs[0]) {
            assert(step(s, evs[0]).busy);
        }
    }
}

} // verus!
