//! Whole operations: what is sent, and how it ends, given what the bus
//! answers.
//!
//! A caller that drives an operation performs each transaction it is handed
//! and reports the outcome. `run_from` is that loop as a function of the
//! answers, and the lemmas below say what the three operations do from
//! beginning to end.

use vstd::prelude::*;
use crate::error::Error;
use crate::init::init_next;
use crate::init::InitState;
use crate::multi_touch::multi_touch_next;
use crate::multi_touch::MultiTouchPhase;
use crate::point::point_of;
use crate::point::Point;
use crate::point::TOUCHPOINT_ENTRY_LEN;
use crate::registers::read_of;
use crate::registers::write_of;
use crate::registers::Transaction;
use crate::registers::GT911_COMMAND_REG;
use crate::registers::GT911_PRODUCT_ID_REG;
use crate::registers::GT911_TOUCHPOINT_1_REG;
use crate::registers::GT911_TOUCHPOINT_STATUS_REG;
use crate::registers::SCRATCH_LEN;
use crate::status::product_id;
use crate::status::status_count;
use crate::status::status_ready;
use crate::step::Step;
use crate::touch::touch_next;
use crate::touch::TouchState;
use crate::touch_points::points_of;
use crate::touch_points::MAX_NUM_TOUCHPOINTS;

verus! {

/// What the transport reports of one transaction: how it went, and what the
/// scratch buffer holds afterwards.
pub struct Reply<E> {
    pub outcome: Result<(), E>,
    pub scratch: Seq<u8>,
}

/// How a run ends.
pub enum End<T, E> {
    /// The operation returned.
    Done(Result<T, Error<E>>),
    /// The operation stopped on a broken protocol.
    Fault,
    /// The last transaction sent has not been answered.
    Unanswered,
}

/// A run of an operation: the transactions sent, in order, and the end.
#[verifier::ext_equal]
pub struct Run<T, E> {
    pub sent: Seq<Transaction>,
    pub end: End<T, E>,
}

/// The run of the operation `next` that is advanced from `state` with
/// `outcome` and `scratch`, and whose further transactions are answered by
/// `replies` in order.
pub open spec fn run_from<S, T, E>(
    next: spec_fn(S, Result<(), E>, Seq<u8>) -> Step<S, T, E>,
    state: S,
    outcome: Result<(), E>,
    scratch: Seq<u8>,
    replies: Seq<Reply<E>>,
) -> Run<T, E>
    decreases replies.len(),
{
    match next(state, outcome, scratch) {
        Step::Issue { next: state, transaction } => if replies.len() == 0 {
            Run { sent: seq![transaction], end: End::Unanswered }
        } else {
            let rest = run_from(next, state, replies[0].outcome, replies[0].scratch, replies.skip(1));
            Run { sent: seq![transaction] + rest.sent, end: rest.end }
        },
        Step::Done(result) => Run { sent: Seq::empty(), end: End::Done(result) },
        Step::Fault => Run { sent: Seq::empty(), end: End::Fault },
    }
}

/// The run of a start-up whose transactions are answered by `replies`.
pub open spec fn init_run<E>(address: u8, replies: Seq<Reply<E>>) -> Run<(), E> {
    run_from(
        |state: InitState, outcome: Result<(), E>, scratch: Seq<u8>|
            init_next(address, state, outcome, scratch),
        InitState::Start,
        Ok(()),
        Seq::empty(),
        replies,
    )
}

/// The run of a single-touch poll whose transactions are answered by
/// `replies`.
pub open spec fn touch_run<E>(address: u8, replies: Seq<Reply<E>>) -> Run<Option<Point>, E> {
    run_from(
        |state: TouchState, outcome: Result<(), E>, scratch: Seq<u8>|
            touch_next(address, state, outcome, scratch),
        TouchState::Start,
        Ok(()),
        Seq::empty(),
        replies,
    )
}

/// The run of a multi-touch poll whose transactions are answered by
/// `replies`.
pub open spec fn multi_touch_run<E>(address: u8, replies: Seq<Reply<E>>) -> Run<Seq<Point>, E> {
    run_from(
        |state: MultiTouchPhase, outcome: Result<(), E>, scratch: Seq<u8>|
            multi_touch_next(address, state, outcome, scratch),
        MultiTouchPhase::Start,
        Ok(()),
        Seq::empty(),
        replies,
    )
}

/// The read that opens every poll.
pub open spec fn status_read(address: u8) -> Transaction {
    read_of(address, GT911_TOUCHPOINT_STATUS_REG, 1)
}

/// The write that clears the ready flag.
pub open spec fn status_clear(address: u8) -> Transaction {
    write_of(address, GT911_TOUCHPOINT_STATUS_REG, 0)
}

/// Whether what a transaction reads has room in the scratch buffer.
pub open spec fn fits_scratch(transaction: Transaction) -> bool {
    transaction matches Transaction::WriteRead { len, .. } ==> len <= SCRATCH_LEN
}

/// A start-up on a healthy bus whose identity register reads `"911\0"`
/// succeeds: it enters normal mode, reads the identity and clears the status,
/// in this order.
pub proof fn init_accepts_gt911<E>(address: u8, replies: Seq<Reply<E>>)
    requires
        replies.len() >= 3,
        replies[0].outcome is Ok,
        replies[1].outcome is Ok,
        replies[2].outcome is Ok,
        replies[1].scratch.subrange(0, 4) == product_id(),
    ensures
        init_run(address, replies) == (Run {
            sent: seq![
                write_of(address, GT911_COMMAND_REG, 0),
                read_of(address, GT911_PRODUCT_ID_REG, 4),
                status_clear(address),
            ],
            end: End::<(), E>::Done(Ok(())),
        }),
{
    reveal_with_fuel(run_from, 4);
    assert(init_run(address, replies).sent =~= seq![
        write_of(address, GT911_COMMAND_REG, 0),
        read_of(address, GT911_PRODUCT_ID_REG, 4),
        status_clear(address),
    ]);
}

/// A start-up that reads any four bytes but `"911\0"` from the identity
/// register ends in `UnexpectedProductId` and leaves the status register
/// alone.
pub proof fn init_rejects_other_identity<E>(address: u8, replies: Seq<Reply<E>>)
    requires
        replies.len() >= 2,
        replies[0].outcome is Ok,
        replies[1].outcome is Ok,
        replies[1].scratch.subrange(0, 4) != product_id(),
    ensures
        init_run(address, replies) == (Run {
            sent: seq![
                write_of(address, GT911_COMMAND_REG, 0),
                read_of(address, GT911_PRODUCT_ID_REG, 4),
            ],
            end: End::<(), E>::Done(Err(Error::UnexpectedProductId)),
        }),
{
    reveal_with_fuel(run_from, 3);
    assert(init_run(address, replies).sent =~= seq![
        write_of(address, GT911_COMMAND_REG, 0),
        read_of(address, GT911_PRODUCT_ID_REG, 4),
    ]);
}

/// A poll that finds the ready flag clear ends in `NotReady`. It has read
/// the status byte and sends nothing more: no record is read and the status
/// register is not cleared.
pub proof fn not_ready_ends_poll<E>(address: u8, replies: Seq<Reply<E>>)
    requires
        replies.len() >= 1,
        replies[0].outcome is Ok,
        !status_ready(replies[0].scratch[0]),
    ensures
        touch_run(address, replies) == (Run {
            sent: seq![status_read(address)],
            end: End::<Option<Point>, E>::Done(Err(Error::NotReady)),
        }),
        multi_touch_run(address, replies) == (Run {
            sent: seq![status_read(address)],
            end: End::<Seq<Point>, E>::Done(Err(Error::NotReady)),
        }),
{
    reveal_with_fuel(run_from, 2);
    assert(touch_run(address, replies).sent =~= seq![status_read(address)]);
    assert(multi_touch_run(address, replies).sent =~= seq![status_read(address)]);
}

/// A poll that finds the ready flag set and no touch point reports a
/// release, `None` or the empty collection, after it has cleared the status
/// register with a write of 0. No record is read.
pub proof fn release_clears_status<E>(address: u8, replies: Seq<Reply<E>>)
    requires
        replies.len() >= 2,
        replies[0].outcome is Ok,
        replies[1].outcome is Ok,
        status_ready(replies[0].scratch[0]),
        status_count(replies[0].scratch[0]) == 0,
    ensures
        touch_run(address, replies) == (Run {
            sent: seq![status_read(address), status_clear(address)],
            end: End::<Option<Point>, E>::Done(Ok(None)),
        }),
        multi_touch_run(address, replies) == (Run {
            sent: seq![status_read(address), status_clear(address)],
            end: End::<Seq<Point>, E>::Done(Ok(Seq::empty())),
        }),
{
    reveal_with_fuel(run_from, 3);
    assert(touch_run(address, replies).sent =~= seq![status_read(address), status_clear(address)]);
    assert(multi_touch_run(address, replies).sent =~= seq![
        status_read(address),
        status_clear(address),
    ]);
}

/// A single-touch poll that finds the ready flag set and at least one touch
/// point reads one record at the first touch-point register, clears the
/// status register, and returns the point of that record.
pub proof fn touch_returns_first_record<E>(address: u8, replies: Seq<Reply<E>>)
    requires
        replies.len() >= 3,
        replies[0].outcome is Ok,
        replies[1].outcome is Ok,
        replies[2].outcome is Ok,
        status_ready(replies[0].scratch[0]),
        status_count(replies[0].scratch[0]) > 0,
    ensures
        touch_run(address, replies) == (Run {
            sent: seq![
                status_read(address),
                read_of(address, GT911_TOUCHPOINT_1_REG, TOUCHPOINT_ENTRY_LEN),
                status_clear(address),
            ],
            end: End::<Option<Point>, E>::Done(Ok(Some(point_of(replies[1].scratch)))),
        }),
{
    reveal_with_fuel(run_from, 4);
    assert(touch_run(address, replies).sent =~= seq![
        status_read(address),
        read_of(address, GT911_TOUCHPOINT_1_REG, TOUCHPOINT_ENTRY_LEN),
        status_clear(address),
    ]);
}

/// A multi-touch poll that finds the ready flag set and one to five touch
/// points reads exactly that many records in one transaction, clears the
/// status register once, and returns the points of the records in record
/// order.
pub proof fn multi_touch_returns_records_in_order<E>(address: u8, replies: Seq<Reply<E>>)
    requires
        replies.len() >= 3,
        replies[0].outcome is Ok,
        replies[1].outcome is Ok,
        replies[2].outcome is Ok,
        status_ready(replies[0].scratch[0]),
        0 < status_count(replies[0].scratch[0]) <= MAX_NUM_TOUCHPOINTS,
    ensures
        multi_touch_run(address, replies) == (Run {
            sent: seq![
                status_read(address),
                read_of(
                    address,
                    GT911_TOUCHPOINT_1_REG,
                    (TOUCHPOINT_ENTRY_LEN * status_count(replies[0].scratch[0])) as usize,
                ),
                status_clear(address),
            ],
            end: End::<Seq<Point>, E>::Done(
                Ok(points_of(replies[1].scratch, status_count(replies[0].scratch[0]) as nat)),
            ),
        }),
{
    reveal_with_fuel(run_from, 4);
    assert(multi_touch_run(address, replies).sent =~= seq![
        status_read(address),
        read_of(
            address,
            GT911_TOUCHPOINT_1_REG,
            (TOUCHPOINT_ENTRY_LEN * status_count(replies[0].scratch[0])) as usize,
        ),
        status_clear(address),
    ]);
}

/// A multi-touch poll whose status byte claims more than five touch points
/// stops in `Fault` without reading a record.
pub proof fn excess_count_reads_nothing<E>(address: u8, replies: Seq<Reply<E>>)
    requires
        replies.len() >= 1,
        replies[0].outcome is Ok,
        status_ready(replies[0].scratch[0]),
        status_count(replies[0].scratch[0]) > MAX_NUM_TOUCHPOINTS,
    ensures
        multi_touch_run(address, replies) == (Run {
            sent: seq![status_read(address)],
            end: End::<Seq<Point>, E>::Fault,
        }),
{
    reveal_with_fuel(run_from, 2);
    assert(multi_touch_run(address, replies).sent =~= seq![status_read(address)]);
}

proof fn run_stops_at_failure<S, T, E>(
    next: spec_fn(S, Result<(), E>, Seq<u8>) -> Step<S, T, E>,
    state: S,
    outcome: Result<(), E>,
    scratch: Seq<u8>,
    replies: Seq<Reply<E>>,
    k: int,
    e: E,
)
    requires
        forall|s: S, e: E, b: Seq<u8>| #[trigger]
            next(s, Err(e), b) == Step::<S, T, E>::Done(Err(Error::I2C(e))),
        0 <= k < replies.len(),
        replies[k].outcome == Err::<(), E>(e),
    ensures
        ({
            let run = run_from(next, state, outcome, scratch, replies);
            run.sent.len() > k ==> run.sent.len() == k + 1 && run.end == End::<T, E>::Done(
                Err(Error::I2C(e)),
            )
        }),
    decreases replies.len(),
{
    if let Step::Issue { next: state, transaction } = next(state, outcome, scratch) {
        if k > 0 {
            run_stops_at_failure(
                next,
                state,
                replies[0].outcome,
                replies[0].scratch,
                replies.skip(1),
                k - 1,
                e,
            );
        }
    }
}

/// A bus failure ends the operation at once: when the transaction numbered
/// `k` fails with `e`, it is the last one sent and the operation returns
/// `I2C(e)`. Nothing is tried again.
pub proof fn failure_ends_operation<E>(address: u8, replies: Seq<Reply<E>>, k: int, e: E)
    requires
        0 <= k < replies.len(),
        replies[k].outcome == Err::<(), E>(e),
    ensures
        init_run(address, replies).sent.len() > k ==> {
            &&& init_run(address, replies).sent.len() == k + 1
            &&& init_run(address, replies).end == End::<(), E>::Done(Err(Error::I2C(e)))
        },
        touch_run(address, replies).sent.len() > k ==> {
            &&& touch_run(address, replies).sent.len() == k + 1
            &&& touch_run(address, replies).end == End::<Option<Point>, E>::Done(
                Err(Error::I2C(e)),
            )
        },
        multi_touch_run(address, replies).sent.len() > k ==> {
            &&& multi_touch_run(address, replies).sent.len() == k + 1
            &&& multi_touch_run(address, replies).end == End::<Seq<Point>, E>::Done(
                Err(Error::I2C(e)),
            )
        },
{
    run_stops_at_failure(
        |state: InitState, outcome: Result<(), E>, scratch: Seq<u8>|
            init_next(address, state, outcome, scratch),
        InitState::Start,
        Ok(()),
        Seq::empty(),
        replies,
        k,
        e,
    );
    run_stops_at_failure(
        |state: TouchState, outcome: Result<(), E>, scratch: Seq<u8>|
            touch_next(address, state, outcome, scratch),
        TouchState::Start,
        Ok(()),
        Seq::empty(),
        replies,
        k,
        e,
    );
    run_stops_at_failure(
        |state: MultiTouchPhase, outcome: Result<(), E>, scratch: Seq<u8>|
            multi_touch_next(address, state, outcome, scratch),
        MultiTouchPhase::Start,
        Ok(()),
        Seq::empty(),
        replies,
        k,
        e,
    );
}

proof fn run_without_fault<S, T, E>(
    next: spec_fn(S, Result<(), E>, Seq<u8>) -> Step<S, T, E>,
    state: S,
    outcome: Result<(), E>,
    scratch: Seq<u8>,
    replies: Seq<Reply<E>>,
)
    requires
        forall|s: S, o: Result<(), E>, b: Seq<u8>| !((#[trigger] next(s, o, b)) is Fault),
    ensures
        !(run_from(next, state, outcome, scratch, replies).end is Fault),
    decreases replies.len(),
{
    if let Step::Issue { next: state, transaction } = next(state, outcome, scratch) {
        if replies.len() > 0 {
            run_without_fault(next, state, replies[0].outcome, replies[0].scratch, replies.skip(1));
        }
    }
}

/// Whatever the bus answers, neither the start-up nor a single-touch poll
/// stops in `Fault`: only a multi-touch poll can.
pub proof fn only_multi_touch_faults<E>(address: u8, replies: Seq<Reply<E>>)
    ensures
        !(init_run(address, replies).end is Fault),
        !(touch_run(address, replies).end is Fault),
{
    run_without_fault(
        |state: InitState, outcome: Result<(), E>, scratch: Seq<u8>|
            init_next(address, state, outcome, scratch),
        InitState::Start,
        Ok(()),
        Seq::empty(),
        replies,
    );
    run_without_fault(
        |state: TouchState, outcome: Result<(), E>, scratch: Seq<u8>|
            touch_next(address, state, outcome, scratch),
        TouchState::Start,
        Ok(()),
        Seq::empty(),
        replies,
    );
}

proof fn run_reads_fit<S, T, E>(
    next: spec_fn(S, Result<(), E>, Seq<u8>) -> Step<S, T, E>,
    state: S,
    outcome: Result<(), E>,
    scratch: Seq<u8>,
    replies: Seq<Reply<E>>,
)
    requires
        forall|s: S, o: Result<(), E>, b: Seq<u8>|
            (#[trigger] next(s, o, b)) matches Step::Issue { transaction, .. } ==> fits_scratch(
                transaction,
            ),
    ensures
        forall|i: int|
            0 <= i < run_from(next, state, outcome, scratch, replies).sent.len() ==> fits_scratch(
                #[trigger] run_from(next, state, outcome, scratch, replies).sent[i],
            ),
    decreases replies.len(),
{
    if let Step::Issue { next: state, transaction } = next(state, outcome, scratch) {
        if replies.len() > 0 {
            run_reads_fit(next, state, replies[0].outcome, replies[0].scratch, replies.skip(1));
        }
    }
}

/// Whatever the bus answers, no operation ever reads more than the scratch
/// buffer holds.
pub proof fn reads_fit_scratch<E>(address: u8, replies: Seq<Reply<E>>)
    ensures
        forall|i: int|
            0 <= i < init_run(address, replies).sent.len() ==> fits_scratch(
                #[trigger] init_run(address, replies).sent[i],
            ),
        forall|i: int|
            0 <= i < touch_run(address, replies).sent.len() ==> fits_scratch(
                #[trigger] touch_run(address, replies).sent[i],
            ),
        forall|i: int|
            0 <= i < multi_touch_run(address, replies).sent.len() ==> fits_scratch(
                #[trigger] multi_touch_run(address, replies).sent[i],
            ),
{
    run_reads_fit(
        |state: InitState, outcome: Result<(), E>, scratch: Seq<u8>|
            init_next(address, state, outcome, scratch),
        InitState::Start,
        Ok(()),
        Seq::empty(),
        replies,
    );
    run_reads_fit(
        |state: TouchState, outcome: Result<(), E>, scratch: Seq<u8>|
            touch_next(address, state, outcome, scratch),
        TouchState::Start,
        Ok(()),
        Seq::empty(),
        replies,
    );
    run_reads_fit(
        |state: MultiTouchPhase, outcome: Result<(), E>, scratch: Seq<u8>|
            multi_touch_next(address, state, outcome, scratch),
        MultiTouchPhase::Start,
        Ok(()),
        Seq::empty(),
        replies,
    );
}

} // verus!
