//! What holds of every exchange, and of the operations together.

use crate::exchange::Awaited;
use crate::exchange::Exchange;
use crate::exchange::Outcome;
use crate::exchange::Step;
use crate::future::free_plan;
use crate::future::left_by;
use crate::future::wait_plan;
use crate::handle::CassBatch;
use crate::handle::CassStatement;
use crate::handle::Cluster;
use crate::native::occurrences;
use crate::native::release;
use crate::native::releases;
use crate::native::same_as;
use crate::native::Entry;
use crate::native::Reply;
use crate::session::Session;
use crate::session::SessionFuture;
use vstd::prelude::*;

verus! {

/// The releases of `entry` followed by `rest` are `entry`, where it is a
/// release, followed by those of `rest`.
proof fn lemma_releases_prepend(entry: Entry, rest: Seq<Entry>)
    ensures
        releases(seq![entry] + rest) == (if entry.is_release() {
            seq![entry]
        } else {
            Seq::empty()
        }) + releases(rest),
        releases(Seq::<Entry>::empty()) == Seq::<Entry>::empty(),
{
    rest.lemma_filter_prepend(entry, release());
    reveal(Seq::filter);
}

/// What the releases `released` of an exchange have to be, where `ended`
/// says whether the exchange came to its end: at most one, the one that the
/// exchange owes, or, where it creates a statement for one execution, that
/// of a statement; and not missing at the end.
pub open spec fn settles(exchange: Exchange, released: Seq<Entry>, ended: bool) -> bool {
    &&& released.len() <= 1
    &&& exchange.owes() is Some && released.len() == 1 ==> released[0] == exchange.owes().unwrap()
    &&& exchange is Building && released.len() == 1 ==> released[0] is StatementFree
    &&& exchange.owes() is None && !(exchange is Building) ==> released.len() == 0
    &&& ended && (exchange.owes() is Some || exchange is Building) ==> released.len() == 1
}

/// Whatever the replies, an exchange asks for at most one release: the one
/// it owes, or, where it creates a statement for one execution, that of a
/// statement. Where the replies bring it to its end, it has asked for it.
/// Any release among its calls is that one.
pub proof fn exchange_releases_at_most_once(exchange: Exchange, replies: Seq<Reply>)
    ensures
        settles(
            exchange,
            releases(exchange.calls(replies)),
            exchange.outcome(replies) is Some,
        ),
        forall|i: int|
            0 <= i < exchange.calls(replies).len() && exchange.calls(replies)[i].is_release()
                ==> releases(exchange.calls(replies)) == seq![
                #[trigger] exchange.calls(replies)[i],
            ],
{
    let calls = exchange.calls(replies);
    lemma_at_most_one_release(exchange, replies);
    assert forall|i: int| 0 <= i < calls.len() && calls[i].is_release() implies releases(calls)
        == seq![#[trigger] calls[i]] by {
        calls.lemma_filter_contains(release(), i);
        assert(releases(calls) =~= seq![calls[i]]);
    }
}

/// What one step does to the release that an exchange owes: a release is
/// the one owed, and leaves nothing owed; another call leaves the same
/// owed, or, after a statement was created, the release of a statement; and
/// an exchange that ends owes nothing.
proof fn lemma_step_keeps_the_debt(exchange: Exchange, reply: Reply)
    ensures
        match exchange.next(reply) {
            Step::Perform { entry, exchange: then } => {
                &&& !(then is Building)
                &&& entry.is_release() ==> exchange.owes() == Some(entry) && then.owes() is None
                &&& !entry.is_release() && exchange is Building ==> then.owes() is Some
                    && then.owes().unwrap() is StatementFree
                &&& !entry.is_release() && !(exchange is Building) ==> exchange.owes() is Some
                    && then.owes() == exchange.owes()
            },
            Step::Unanswered { exchange: same } => same == exchange,
            Step::Done(_) => exchange.owes() is None && !(exchange is Building),
        },
{
}

/// The induction behind `exchange_releases_at_most_once`.
proof fn lemma_at_most_one_release(exchange: Exchange, replies: Seq<Reply>)
    ensures
        settles(
            exchange,
            releases(exchange.calls(replies)),
            exchange.outcome(replies) is Some,
        ),
    decreases replies.len(),
{
    lemma_releases_prepend(Entry::SessionNew, Seq::empty());
    if replies.len() > 0 {
        let rest = replies.drop_first();
        let step = exchange.next(replies[0]);
        lemma_step_keeps_the_debt(exchange, replies[0]);
        match step {
            Step::Perform { entry, exchange: then } => {
                let tail = then.calls(rest);
                lemma_at_most_one_release(then, rest);
                lemma_releases_prepend(entry, tail);
                assert(exchange.calls(replies) == seq![entry] + tail);
                assert(exchange.outcome(replies) == then.outcome(rest));
                if entry.is_release() {
                    assert(releases(tail).len() == 0);
                    assert(releases(seq![entry] + tail) =~= seq![entry]);
                } else {
                    assert(releases(seq![entry] + tail) =~= releases(tail));
                }
            },
            Step::Unanswered { exchange: same } => {
                lemma_at_most_one_release(same, rest);
            },
            Step::Done(_) => {},
        }
    }
}

/// A wait asks for the release of its future and of nothing else; for that
/// at most once, whatever the replies; and once where they bring the wait
/// to its end.
pub proof fn wait_releases_its_future_once(on: Awaited, replies: Seq<Reply>)
    ensures
        releases(wait_plan(on).calls(replies)) == Seq::<Entry>::empty() || releases(
            wait_plan(on).calls(replies),
        ) == seq![Entry::FutureFree { future: on.handle() }],
        wait_plan(on).outcome(replies) is Some ==> releases(wait_plan(on).calls(replies))
            == seq![Entry::FutureFree { future: on.handle() }],
{
    let exchange = Exchange::Waiting { on };
    exchange_releases_at_most_once(exchange, replies);
    lemma_releases_prepend(Entry::FutureWait { future: on.handle() }, exchange.calls(replies));
    let released = releases(exchange.calls(replies));
    assert(releases(wait_plan(on).calls(replies)) =~= released);
    if released.len() == 1 {
        assert(released =~= seq![Entry::FutureFree { future: on.handle() }]);
    } else {
        assert(released =~= Seq::<Entry>::empty());
    }
}

/// A release stands among `calls` as often as among their releases.
proof fn lemma_occurrences_among_releases(calls: Seq<Entry>, entry: Entry)
    requires
        entry.is_release(),
    ensures
        occurrences(calls, entry) == occurrences(releases(calls), entry),
    decreases calls.len(),
{
    reveal(Seq::filter);
    if calls.len() > 0 {
        lemma_occurrences_among_releases(calls.drop_last(), entry);
        if calls.last().is_release() {
            let kept = releases(calls.drop_last());
            assert(releases(calls) == kept.push(calls.last()));
            assert(releases(calls).drop_last() =~= kept);
        }
    }
}

/// How often a release stands in no calls, and in a single call.
proof fn lemma_occurrences_small(call: Entry, entry: Entry)
    ensures
        occurrences(Seq::<Entry>::empty(), entry) == 0,
        occurrences(seq![call], entry) == (if call == entry {
            1nat
        } else {
            0nat
        }),
{
    let none = Seq::<Entry>::empty();
    assert(none.filter(same_as(entry)) == none) by {
        reveal(Seq::filter);
    }
    none.lemma_filter_prepend(call, same_as(entry));
    assert(seq![call] + none =~= seq![call]);
    assert(none + none =~= none);
}

/// The calls of the waits on `futures`, made one after the other, where the
/// wait on `futures[i]` is resumed with `replies[i]`.
pub open spec fn calls_of_waits(futures: Seq<Awaited>, replies: Seq<Seq<Reply>>) -> Seq<Entry>
    decreases futures.len(),
{
    if futures.len() == 0 || replies.len() == 0 {
        Seq::empty()
    } else {
        calls_of_waits(futures.drop_last(), replies.drop_last()) + wait_plan(futures.last()).calls(
            replies.last(),
        )
    }
}

/// In any run of waits on futures of different handles, the release of each
/// future is asked for at most once; and once, where its wait came to its
/// end.
pub proof fn waits_release_each_future_once(
    futures: Seq<Awaited>,
    replies: Seq<Seq<Reply>>,
    i: int,
)
    requires
        futures.len() == replies.len(),
        0 <= i < futures.len(),
        forall|j: int, k: int|
            0 <= j < k < futures.len() ==> futures[j].handle() != futures[k].handle(),
    ensures
        occurrences(
            calls_of_waits(futures, replies),
            Entry::FutureFree { future: futures[i].handle() },
        ) <= 1,
        wait_plan(futures[i]).outcome(replies[i]) is Some ==> occurrences(
            calls_of_waits(futures, replies),
            Entry::FutureFree { future: futures[i].handle() },
        ) == 1,
    decreases futures.len(),
{
    let free = Entry::FutureFree { future: futures[i].handle() };
    let earlier = calls_of_waits(futures.drop_last(), replies.drop_last());
    let latest = wait_plan(futures.last()).calls(replies.last());
    Seq::filter_distributes_over_add(earlier, latest, same_as(free));
    lemma_occurrences_among_releases(latest, free);
    wait_releases_its_future_once(futures.last(), replies.last());
    lemma_occurrences_small(Entry::FutureFree { future: futures.last().handle() }, free);
    if i == futures.len() - 1 {
        lemma_no_release_of_another(
            futures.drop_last(),
            replies.drop_last(),
            futures[i].handle(),
        );
    } else {
        waits_release_each_future_once(futures.drop_last(), replies.drop_last(), i);
    }
}

/// Waits ask for the release of no future but their own.
proof fn lemma_no_release_of_another(
    futures: Seq<Awaited>,
    replies: Seq<Seq<Reply>>,
    other: usize,
)
    requires
        futures.len() == replies.len(),
        forall|j: int| 0 <= j < futures.len() ==> futures[j].handle() != other,
    ensures
        occurrences(calls_of_waits(futures, replies), Entry::FutureFree { future: other }) == 0,
    decreases futures.len(),
{
    let free = Entry::FutureFree { future: other };
    lemma_occurrences_small(free, free);
    if futures.len() > 0 {
        let earlier = calls_of_waits(futures.drop_last(), replies.drop_last());
        let latest = wait_plan(futures.last()).calls(replies.last());
        Seq::filter_distributes_over_add(earlier, latest, same_as(free));
        lemma_occurrences_among_releases(latest, free);
        wait_releases_its_future_once(futures.last(), replies.last());
        lemma_occurrences_small(Entry::FutureFree { future: futures.last().handle() }, free);
        lemma_no_release_of_another(futures.drop_last(), replies.drop_last(), other);
    }
}

/// Whatever the replies, a wait on the future of a connect ends in one of
/// two ways, and either way with the session that went into the future:
/// with that session, or with it and a status that is not success.
pub proof fn wait_ends_with_the_session(future: SessionFuture, replies: Seq<Reply>)
    ensures
        match wait_plan(Awaited::Session(future)).outcome(replies) {
            Some(Outcome::Connected(Ok(session))) => session == future.1,
            Some(Outcome::Connected(Err(failure))) => failure.session == future.1
                && failure.error is Native && !failure.error.is_ok(),
            Some(_) => false,
            None => true,
        },
{
    lemma_wait_on_session_ends(Exchange::Waiting { on: Awaited::Session(future) }, future, replies);
}

/// The induction behind `wait_ends_with_the_session`, over the stages of the
/// wait.
proof fn lemma_wait_on_session_ends(exchange: Exchange, future: SessionFuture, replies: Seq<Reply>)
    requires
        exchange == (Exchange::Waiting { on: Awaited::Session(future) }) || exchange == (
        Exchange::Querying { on: Awaited::Session(future) }) || exists|code: u32|
            exchange == (Exchange::Releasing {
                outcome: Outcome::Connected(future.resolved(code)),
            }),
    ensures
        match exchange.outcome(replies) {
            Some(Outcome::Connected(Ok(session))) => session == future.1,
            Some(Outcome::Connected(Err(failure))) => failure.session == future.1
                && failure.error is Native && !failure.error.is_ok(),
            Some(_) => false,
            None => true,
        },
    decreases replies.len(),
{
    if replies.len() > 0 {
        let rest = replies.drop_first();
        match exchange.next(replies[0]) {
            Step::Perform { exchange: then, .. } => {
                if let Reply::Status(code) = replies[0] {
                    assert(exchange is Querying ==> then == (Exchange::Releasing {
                        outcome: Outcome::Connected(future.resolved(code)),
                    }));
                }
                lemma_wait_on_session_ends(then, future, rest);
            },
            Step::Unanswered { exchange: same } => {
                lemma_wait_on_session_ends(same, future, rest);
            },
            Step::Done(_) => {},
        }
    }
}

/// Giving up a session asks for its release, once, and for nothing else,
/// whatever the replies: no connect and no close.
pub proof fn free_releases_the_session_once(session: Session, replies: Seq<Reply>)
    ensures
        session.free_plan().calls(replies) == seq![Entry::SessionFree { session: session.0 }],
{
    lemma_settled(Exchange::Releasing { outcome: Outcome::Released }, replies);
    assert(session.free_plan().calls(replies) =~= seq![
        Entry::SessionFree { session: session.0 },
    ]);
}

/// Giving up a future asks for its release, once, and for nothing else,
/// whatever the replies: a future that is never waited on is released by
/// this one call, and the session that the future of a connect holds is
/// not.
pub proof fn free_releases_the_future_once(on: Awaited, replies: Seq<Reply>)
    ensures
        free_plan(on).calls(replies) == seq![Entry::FutureFree { future: on.handle() }],
{
    lemma_settled(Exchange::Releasing { outcome: left_by(on) }, replies);
    assert(free_plan(on).calls(replies) =~= seq![Entry::FutureFree { future: on.handle() }]);
}

/// A close asks for the close and for nothing else, whatever the replies:
/// no release of the session, which stays the caller's until `free`.
pub proof fn close_releases_nothing(session: Session, replies: Seq<Reply>)
    ensures
        session.close_plan().calls(replies) == seq![Entry::SessionClose { session: session.0 }],
        releases(session.close_plan().calls(replies)) == Seq::<Entry>::empty(),
{
    lemma_settled(Exchange::Closing, replies);
    assert(session.close_plan().calls(replies) =~= seq![
        Entry::SessionClose { session: session.0 },
    ]);
    lemma_releases_prepend(Entry::SessionClose { session: session.0 }, Seq::empty());
    assert(seq![Entry::SessionClose { session: session.0 }] + Seq::<Entry>::empty() =~= seq![
        Entry::SessionClose { session: session.0 },
    ]);
    assert(Seq::<Entry>::empty() + Seq::<Entry>::empty() =~= Seq::<Entry>::empty());
}

/// An exchange that hands out no further call hands out none, whatever the
/// replies.
proof fn lemma_settled(exchange: Exchange, replies: Seq<Reply>)
    requires
        exchange is Creating || exchange is Closing || exchange is Preparing
            || exchange is Executing || exchange is Describing || exchange is Releasing,
    ensures
        exchange.calls(replies) == Seq::<Entry>::empty(),
    decreases replies.len(),
{
    if replies.len() > 0 {
        lemma_settled(exchange, replies.drop_first());
    }
}

/// An exchange takes a reply of the kind that its outstanding call returns,
/// and no other: with another it stays as it was. The call that it hands
/// out next returns the kind that it then waits for.
pub proof fn exchange_takes_the_answer(exchange: Exchange, reply: Reply)
    ensures
        exchange.next(reply) is Unanswered <==> reply.kind_of() != exchange.awaits(),
        exchange.next(reply) is Unanswered ==> exchange.next(reply) == (Step::Unanswered {
            exchange,
        }),
        exchange.next(reply) matches Step::Perform { entry, exchange: then } ==> then.awaits()
            == entry.answer_kind(),
{
}

/// Every operation opens its exchange with a call whose return the exchange
/// waits for.
pub proof fn requests_await_their_answers(
    session: Session,
    cluster: Cluster,
    statement: CassStatement,
    batch: CassBatch,
    text: Seq<u8>,
    parameter_count: u64,
    on: Awaited,
)
    ensures
        Session::new_plan().answerable(),
        session.free_plan().answerable(),
        session.close_plan().answerable(),
        session.connect_plan(cluster).answerable(),
        session.connect_keyspace_plan(cluster, text).answerable(),
        session.prepare_plan(text).answerable(),
        session.execute_plan(text, parameter_count).answerable(),
        session.execute_statement_plan(statement).answerable(),
        session.execute_batch_plan(batch).answerable(),
        session.get_schema_plan().answerable(),
        wait_plan(on).answerable(),
        free_plan(on).answerable(),
{
}

/// Once the replies have brought an exchange to its end, further replies
/// change nothing: no call is handed out for them, and the outcome stands.
pub proof fn finished_exchange_reads_no_more(
    exchange: Exchange,
    replies: Seq<Reply>,
    more: Seq<Reply>,
)
    requires
        exchange.outcome(replies) is Some,
    ensures
        exchange.outcome(replies + more) == exchange.outcome(replies),
        exchange.calls(replies + more) == exchange.calls(replies),
    decreases replies.len(),
{
    if replies.len() > 0 {
        let rest = replies.drop_first();
        assert((replies + more).drop_first() =~= rest + more);
        assert((replies + more)[0] == replies[0]);
        match exchange.next(replies[0]) {
            Step::Perform { exchange: then, .. } => {
                finished_exchange_reads_no_more(then, rest, more);
            },
            Step::Unanswered { exchange: same } => {
                finished_exchange_reads_no_more(same, rest, more);
            },
            Step::Done(_) => {},
        }
    }
}

} // verus!
