//! What callers can rely on over a run of commands: how a thread serves the commands that it
//! receives one after the other.

use vstd::prelude::*;

use crate::command::{ActionView, CommandView, EventView};
use crate::core_loop::{
    core_step, first_unencodable, unencodable, writes_of, CoreView,
};
use crate::options::WriteOptions;
use crate::search::lemma_first_none;
use crate::service::{get_gives_back_what_was_put, got, readable_after, serve_get, serve_put};
use crate::store::{batches_join, is_last_of_key, mentions, read_all, value_at, write_all};
use crate::value::Value;

verus! {

/// A command as an instance sends it: the results of a read go to an empty vector.
pub open spec fn as_sent<K, M>(command: CommandView<K, M>) -> bool {
    command matches CommandView::MultiGet { results, .. } ==> results == Seq::<Option<M>>::empty()
}

/// Performing an action on a RocksDB that holds `store` and does not fail: what RocksDB then holds,
/// and the event that follows, where one does.
pub open spec fn perform<K, M>(
    store: Map<Seq<u8>, Seq<u8>>,
    bytes_of: spec_fn(K) -> Seq<u8>,
    action: ActionView<K, M>,
) -> (Map<Seq<u8>, Seq<u8>>, Option<EventView<K, M>>) {
    match action {
        ActionView::MultiGet(batch) => (
            store,
            Some(EventView::Gets(read_all(store, bytes_of, batch))),
        ),
        ActionView::Write(writes, _) => (
            write_all(store, bytes_of, writes),
            Some(EventView::Written(Ok(()))),
        ),
        _ => (store, None),
    }
}

/// Stepping a thread from an event on, for as long as its actions have events that follow but at
/// most `more` steps after the first: what RocksDB then holds, where the thread then stands, and
/// its last action.
pub open spec fn drive<K, V: Value>(
    write_options: WriteOptions,
    store: Map<Seq<u8>, Seq<u8>>,
    bytes_of: spec_fn(K) -> Seq<u8>,
    state: CoreView<K, V::Model>,
    event: EventView<K, V::Model>,
    more: nat,
) -> (Map<Seq<u8>, Seq<u8>>, CoreView<K, V::Model>, ActionView<K, V::Model>)
    decreases more,
{
    let (next, action) = core_step::<K, V>(write_options, state, event);
    let (after, follows) = perform(store, bytes_of, action);
    match follows {
        Some(event) if more > 0 => drive::<K, V>(
            write_options,
            after,
            bytes_of,
            next,
            event,
            (more - 1) as nat,
        ),
        _ => (after, next, action),
    }
}

/// What a run of commands has come to.
pub struct Run<K, M> {
    /// What RocksDB holds.
    pub store: Map<Seq<u8>, Seq<u8>>,
    /// Where the thread stands.
    pub state: CoreView<K, M>,
    /// For each command the answer, or nothing where the thread had ended before the command.
    pub answers: Seq<Option<ActionView<K, M>>>,
}

/// A run of commands, of a thread that waits and a RocksDB that holds `store` and does not fail.
/// The thread takes the next command when it waits for one. Serving a command takes two steps at
/// most.
pub open spec fn run<K, V: Value>(
    write_options: WriteOptions,
    store: Map<Seq<u8>, Seq<u8>>,
    bytes_of: spec_fn(K) -> Seq<u8>,
    commands: Seq<CommandView<K, V::Model>>,
) -> Run<K, V::Model>
    decreases commands.len(),
{
    if commands.len() == 0 {
        Run { store, state: CoreView::Waiting, answers: Seq::empty() }
    } else {
        let before = run::<K, V>(write_options, store, bytes_of, commands.drop_last());
        if before.state is Waiting {
            let (after, state, answer) = drive::<K, V>(
                write_options,
                before.store,
                bytes_of,
                before.state,
                EventView::Received(commands.last()),
                1,
            );
            Run { store: after, state, answers: before.answers.push(Some(answer)) }
        } else {
            Run { answers: before.answers.push(None), ..before }
        }
    }
}

/// Every action of the two steps that serve a command is performed: the last one has no event that
/// follows it.
pub proof fn two_steps_serve_a_command<K, V: Value>(
    write_options: WriteOptions,
    store: Map<Seq<u8>, Seq<u8>>,
    bytes_of: spec_fn(K) -> Seq<u8>,
    command: CommandView<K, V::Model>,
    more: nat,
)
    requires
        more >= 1,
    ensures
        drive::<K, V>(
            write_options,
            store,
            bytes_of,
            CoreView::Waiting,
            EventView::Received(command),
            more,
        ) == drive::<K, V>(
            write_options,
            store,
            bytes_of,
            CoreView::Waiting,
            EventView::Received(command),
            1,
        ),
        ({
            let last = drive::<K, V>(
                write_options,
                store,
                bytes_of,
                CoreView::Waiting,
                EventView::Received(command),
                1,
            ).2;
            last is AnswerGet || last is AnswerPut || last is Close
        }),
{
    reveal_with_fuel(drive, 3);
}

/// Serving one command, step by step, comes to what `serve_get` and `serve_put` say of it; a
/// shutdown closes the database and changes nothing that is stored.
pub proof fn command_is_served<K, V: Value>(
    write_options: WriteOptions,
    store: Map<Seq<u8>, Seq<u8>>,
    bytes_of: spec_fn(K) -> Seq<u8>,
    command: CommandView<K, V::Model>,
)
    requires
        as_sent(command),
    ensures
        ({
            let served = drive::<K, V>(
                write_options,
                store,
                bytes_of,
                CoreView::Waiting,
                EventView::Received(command),
                1,
            );
            match command {
                CommandView::MultiGet { batch, .. } => {
                    let (state, answer) = serve_get::<K, V>(write_options, store, bytes_of, batch);
                    served == (store, state, answer)
                },
                CommandView::MultiPut { batch } => served == serve_put::<K, V>(
                    write_options,
                    store,
                    bytes_of,
                    batch,
                ),
                CommandView::Shutdown => served == (
                    store,
                    CoreView::<K, V::Model>::Stopped,
                    ActionView::<K, V::Model>::Close { acknowledge: true },
                ),
            }
        }),
{
    reveal_with_fuel(drive, 2);
}

/// The commands that a thread receives are answered each once, in their order, and each on what the
/// commands before it have left stored: a read as `serve_get` says, a batch of puts as `serve_put`
/// says, and a shutdown by closing the database. A command that comes after the end of the thread
/// has no answer and changes nothing.
pub proof fn commands_are_served_in_order<K, V: Value>(
    write_options: WriteOptions,
    store: Map<Seq<u8>, Seq<u8>>,
    bytes_of: spec_fn(K) -> Seq<u8>,
    commands: Seq<CommandView<K, V::Model>>,
)
    requires
        forall|i: int| 0 <= i < commands.len() ==> as_sent(#[trigger] commands[i]),
    ensures
        ({
            let all = run::<K, V>(write_options, store, bytes_of, commands);
            &&& all.answers.len() == commands.len()
            &&& all.state is Waiting || all.state is Stopped
            &&& forall|i: int|
                #![trigger commands[i]]
                0 <= i < commands.len() ==> {
                    let before = run::<K, V>(write_options, store, bytes_of, commands.take(i));
                    let after = run::<K, V>(write_options, store, bytes_of, commands.take(i + 1));
                    if before.state is Stopped {
                        &&& all.answers[i] is None
                        &&& (after.store, after.state) == (before.store, before.state)
                    } else {
                        match commands[i] {
                            CommandView::MultiGet { batch, .. } => {
                                let (state, answer) = serve_get::<K, V>(
                                    write_options,
                                    before.store,
                                    bytes_of,
                                    batch,
                                );
                                &&& all.answers[i] == Some(answer)
                                &&& (after.store, after.state) == (before.store, state)
                            },
                            CommandView::MultiPut { batch } => {
                                let (stored, state, answer) = serve_put::<K, V>(
                                    write_options,
                                    before.store,
                                    bytes_of,
                                    batch,
                                );
                                &&& all.answers[i] == Some(answer)
                                &&& (after.store, after.state) == (stored, state)
                            },
                            CommandView::Shutdown => {
                                &&& all.answers[i] == Some(
                                    ActionView::<K, V::Model>::Close { acknowledge: true },
                                )
                                &&& after.store == before.store
                                &&& after.state is Stopped
                            },
                        }
                    }
                }
        }),
    decreases commands.len(),
{
    if commands.len() > 0 {
        let n = commands.len() - 1;
        let earlier = commands.drop_last();
        assert forall|i: int| 0 <= i < earlier.len() implies as_sent(#[trigger] earlier[i]) by {
            assert(as_sent(commands[i]));
        }
        commands_are_served_in_order::<K, V>(write_options, store, bytes_of, earlier);
        assert(as_sent(commands[n]));
        let before = run::<K, V>(write_options, store, bytes_of, earlier);
        command_is_served::<K, V>(write_options, before.store, bytes_of, commands[n]);
        assert(commands.take(n) =~= earlier);
        assert(commands.take(n + 1) =~= commands);
        assert forall|i: int| #![trigger commands[i]] 0 <= i < n implies commands.take(i)
            == earlier.take(i) && commands.take(i + 1) == earlier.take(i + 1) && commands[i]
            == earlier[i] by {
            assert(commands.take(i) =~= earlier.take(i));
            assert(commands.take(i + 1) =~= earlier.take(i + 1));
        }
    }
}

/// The puts of a run that are stored, in their order: those of every batch that arrives before the
/// thread has ended and can be encoded.
pub open spec fn stored_puts<K, V: Value>(
    write_options: WriteOptions,
    store: Map<Seq<u8>, Seq<u8>>,
    bytes_of: spec_fn(K) -> Seq<u8>,
    commands: Seq<CommandView<K, V::Model>>,
) -> Seq<(K, Option<V::Model>)>
    decreases commands.len(),
{
    if commands.len() == 0 {
        Seq::empty()
    } else {
        let earlier = commands.drop_last();
        let before = stored_puts::<K, V>(write_options, store, bytes_of, earlier);
        match commands.last() {
            CommandView::MultiPut { batch } if run::<K, V>(
                write_options,
                store,
                bytes_of,
                earlier,
            ).state is Waiting && first_unencodable::<K, V>(batch) is None => before + batch,
            _ => before,
        }
    }
}

/// Two batches of puts served one after the other come to the same as both in one.
pub proof fn puts_join<K, V: Value>(
    write_options: WriteOptions,
    store: Map<Seq<u8>, Seq<u8>>,
    bytes_of: spec_fn(K) -> Seq<u8>,
    first: Seq<(K, Option<V::Model>)>,
    second: Seq<(K, Option<V::Model>)>,
)
    requires
        first_unencodable::<K, V>(first) is None,
        first_unencodable::<K, V>(second) is None,
    ensures
        first_unencodable::<K, V>(first + second) is None,
        ({
            let between = serve_put::<K, V>(write_options, store, bytes_of, first).0;
            serve_put::<K, V>(write_options, between, bytes_of, second).0 == serve_put::<K, V>(
                write_options,
                store,
                bytes_of,
                first + second,
            ).0
        }),
{
    let bad = |put: (K, Option<V::Model>)| unencodable::<K, V>(put);
    lemma_first_none(first, bad);
    lemma_first_none(second, bad);
    lemma_first_none(first + second, bad);
    assert forall|i: int| 0 <= i < (first + second).len() implies !bad(
        #[trigger] (first + second)[i],
    ) by {
        if i < first.len() {
            assert(!bad(first[i]));
        } else {
            assert(!bad(second[i - first.len()]));
        }
    }
    assert(writes_of::<K, V>(first + second) =~= writes_of::<K, V>(first) + writes_of::<K, V>(
        second,
    ));
    batches_join(store, bytes_of, writes_of::<K, V>(first), writes_of::<K, V>(second));
}

/// What RocksDB holds after a run is what one batch of all the puts that were stored would have
/// left.
pub proof fn a_run_stores_its_puts<K, V: Value>(
    write_options: WriteOptions,
    store: Map<Seq<u8>, Seq<u8>>,
    bytes_of: spec_fn(K) -> Seq<u8>,
    commands: Seq<CommandView<K, V::Model>>,
)
    requires
        forall|i: int| 0 <= i < commands.len() ==> as_sent(#[trigger] commands[i]),
    ensures
        ({
            let puts = stored_puts::<K, V>(write_options, store, bytes_of, commands);
            &&& first_unencodable::<K, V>(puts) is None
            &&& run::<K, V>(write_options, store, bytes_of, commands).store == serve_put::<K, V>(
                write_options,
                store,
                bytes_of,
                puts,
            ).0
        }),
    decreases commands.len(),
{
    let bad = |put: (K, Option<V::Model>)| unencodable::<K, V>(put);
    if commands.len() == 0 {
        lemma_first_none(Seq::<(K, Option<V::Model>)>::empty(), bad);
        assert(writes_of::<K, V>(Seq::empty()) =~= Seq::empty());
    } else {
        let earlier = commands.drop_last();
        assert forall|i: int| 0 <= i < earlier.len() implies as_sent(#[trigger] earlier[i]) by {
            assert(as_sent(commands[i]));
        }
        a_run_stores_its_puts::<K, V>(write_options, store, bytes_of, earlier);
        assert(as_sent(commands[commands.len() - 1]));
        let before = run::<K, V>(write_options, store, bytes_of, earlier);
        command_is_served::<K, V>(write_options, before.store, bytes_of, commands.last());
        if let CommandView::MultiPut { batch } = commands.last() {
            if before.state is Waiting && first_unencodable::<K, V>(batch) is None {
                puts_join::<K, V>(
                    write_options,
                    store,
                    bytes_of,
                    stored_puts::<K, V>(write_options, store, bytes_of, earlier),
                    batch,
                );
            }
        }
    }
}

/// A read in a run gives back what the run has put: for each key the last value that was stored
/// for it, or nothing where it was deleted; for a key that no stored put mentions, what was stored
/// before the run.
pub proof fn get_in_a_run_gives_back_what_was_put<K, V: Value>(
    write_options: WriteOptions,
    store: Map<Seq<u8>, Seq<u8>>,
    bytes_of: spec_fn(K) -> Seq<u8>,
    commands: Seq<CommandView<K, V::Model>>,
    keys: Seq<K>,
)
    requires
        forall|i: int| 0 <= i < commands.len() ==> as_sent(#[trigger] commands[i]),
        run::<K, V>(write_options, store, bytes_of, commands).state is Waiting,
        forall|k: int|
            0 <= k < keys.len() ==> readable_after::<K, V>(
                store,
                bytes_of,
                stored_puts::<K, V>(write_options, store, bytes_of, commands),
                bytes_of(#[trigger] keys[k]),
            ),
    ensures
        ({
            let puts = stored_puts::<K, V>(write_options, store, bytes_of, commands);
            let get = CommandView::MultiGet { batch: keys, results: Seq::empty() };
            let all = run::<K, V>(write_options, store, bytes_of, commands.push(get));
            &&& all.state is Waiting
            &&& exists|results: Seq<Option<V::Model>>|
                {
                    &&& all.answers.last() == Some(#[trigger] got::<K, V::Model>(results))
                    &&& results.len() == keys.len()
                    &&& forall|i: int, k: int|
                        #![trigger puts[i], keys[k]]
                        is_last_of_key(bytes_of, puts, i) && 0 <= k < keys.len() && bytes_of(
                            keys[k],
                        ) == bytes_of(puts[i].0) ==> results[k] == puts[i].1
                    &&& forall|k: int|
                        #![trigger keys[k]]
                        0 <= k < keys.len() && !mentions(bytes_of, puts, bytes_of(keys[k]))
                            ==> results[k] == value_at::<V>(store, bytes_of(keys[k]))
                }
        }),
{
    let puts = stored_puts::<K, V>(write_options, store, bytes_of, commands);
    let get = CommandView::MultiGet { batch: keys, results: Seq::empty() };
    let before = run::<K, V>(write_options, store, bytes_of, commands);
    a_run_stores_its_puts::<K, V>(write_options, store, bytes_of, commands);
    get_gives_back_what_was_put::<K, V>(write_options, store, bytes_of, puts, keys);
    command_is_served::<K, V>(write_options, before.store, bytes_of, get);
    assert(commands.push(get).drop_last() =~= commands);
}

} // verus!
