//! The course of a command against a transactional store.
//!
//! A command is carried out as a short conversation: the coordinator asks
//! the store for one thing at a time, and decides by the reply what to ask
//! next or how the command ends. [`advance`] is that decision. Whoever
//! holds the store carries the requests out, in a transaction that the
//! first request opens; a command that ends in failure abandons the
//! transaction, and the store rolls it back.
//!
//! [`run`] carries a command out against the mathematical state of the
//! engine, and the last two statements of this module say that it ends as
//! the engine's own commands do.

use crate::database::model::checkout::{ActiveCheckout, CheckoutStateRow};
use crate::error::{AppError, AppErrorView};
use crate::id::{BookId, CheckoutId};
use crate::model::checkout::{CreateCheckout, UpdateReturned};
use crate::repository::checkout::{
    check_affected, check_can_checkout, check_can_return, checkout_refusal, return_refusal,
    CheckoutState, CHECKOUT_NOT_RECORDED, RETURN_NOT_RECORDED,
};
use crate::store::{
    find_first, first_where, lemma_first_where, lemma_first_where_is, of_book, with_checkout_id,
};
use vstd::prelude::*;

verus! {

/// The message of the error for a reply that does not answer the request.
pub const UNEXPECTED_REPLY: &'static str = "the store gave a reply that was not asked for";

/// A command of the checkout engine.
#[derive(Debug, Clone, Copy, PartialEq, Eq, Structural)]
pub enum Command {
    /// Lend a book under the given identifier.
    Checkout { checkout_id: CheckoutId, lending: CreateCheckout },
    /// Take a book back.
    Return { returning: UpdateReturned },
}

/// What the coordinator asks of the store.
#[derive(Debug, Clone, Copy, PartialEq, Eq, Structural)]
pub enum Request {
    /// Open a transaction.
    Begin,
    /// Raise the transaction to the serializable level.
    Isolate,
    /// Tell whether the book exists, and its loan and borrower if it is
    /// out.
    ReadState { book_id: BookId },
    /// Record a loan; the reply tells how many rows that added.
    InsertCheckout { row: ActiveCheckout },
    /// Copy the loan into the history, with the time of return; the reply
    /// tells how many rows that added.
    ArchiveCheckout { checkout_id: CheckoutId, returned_at: i64 },
    /// Remove the loan from the current loans; the reply tells how many
    /// rows that removed.
    DeleteCheckout { checkout_id: CheckoutId },
    /// Commit the transaction.
    Commit,
}

/// What the store answers.
#[derive(Debug)]
pub enum Reply {
    /// The request was carried out and has nothing to tell.
    Done,
    /// The answer to `ReadState`.
    State(Option<CheckoutStateRow>),
    /// The number of rows that a change touched.
    Affected(u64),
    /// The store could not carry the request out.
    Failed(AppError),
}

/// The mathematical value of a [`Reply`].
pub enum ReplyView {
    Done,
    State(Option<CheckoutStateRow>),
    Affected(u64),
    Failed(AppErrorView),
}

impl View for Reply {
    type V = ReplyView;

    open spec fn view(&self) -> ReplyView {
        match self {
            Reply::Done => ReplyView::Done,
            Reply::State(state) => ReplyView::State(*state),
            Reply::Affected(n) => ReplyView::Affected(*n),
            Reply::Failed(e) => ReplyView::Failed(e@),
        }
    }
}

/// How a command goes on: with a further request, or not at all.
#[derive(Debug)]
pub enum Course {
    Ask(Request),
    Finish(Result<(), AppError>),
}

/// The mathematical value of a [`Course`]; a command that finishes without
/// an error has succeeded.
pub enum CourseView {
    Ask(Request),
    Finish(Option<AppErrorView>),
}

impl View for Course {
    type V = CourseView;

    open spec fn view(&self) -> CourseView {
        match self {
            Course::Ask(request) => CourseView::Ask(*request),
            Course::Finish(Ok(())) => CourseView::Finish(None),
            Course::Finish(Err(e)) => CourseView::Finish(Some(e@)),
        }
    }
}

impl Command {
    /// The book that the command is about.
    pub open spec fn book(self) -> BookId {
        match self {
            Command::Checkout { checkout_id, lending } => lending.book_id,
            Command::Return { returning } => returning.book_id,
        }
    }

    /// The book that the command is about.
    pub fn book_id(&self) -> (book_id: BookId)
        ensures
            book_id == self.book(),
    {
        match self {
            Command::Checkout { checkout_id: _, lending } => lending.book_id,
            Command::Return { returning } => returning.book_id,
        }
    }
}

/// The failure of a change that touched no row, `None` if it touched one.
pub open spec fn untouched(affected: u64, message: Seq<char>) -> Option<AppErrorView> {
    if affected < 1 {
        Some(AppErrorView::NoRowsAffectedError(message))
    } else {
        None
    }
}

/// What follows on a reply: the coordinator's whole rule.
///
/// A failure of the store ends the command with that failure. A
/// transaction that is open is raised to the serializable level, and then
/// the book's state is read. A checkout of a book that can be lent records
/// the loan and commits; a return that can be taken copies the loan into
/// the history, removes it from the current loans and commits. A change
/// that touched no row ends the command as a fatal failure. A reply of a
/// kind that the request cannot have ends it as an internal error.
pub open spec fn next(command: Command, asked: Request, reply: ReplyView) -> CourseView {
    match (asked, reply) {
        (_, ReplyView::Failed(e)) => CourseView::Finish(Some(e)),
        (Request::Begin, ReplyView::Done) => CourseView::Ask(Request::Isolate),
        (Request::Isolate, ReplyView::Done) => CourseView::Ask(
            Request::ReadState { book_id: command.book() },
        ),
        (Request::ReadState { book_id }, ReplyView::State(state)) => match command {
            Command::Checkout { checkout_id, lending } => match checkout_refusal(state) {
                Some(e) => CourseView::Finish(Some(e)),
                None => CourseView::Ask(
                    Request::InsertCheckout { row: CheckoutState::loan_row(checkout_id, lending) },
                ),
            },
            Command::Return { returning } => match return_refusal(state, returning) {
                Some(e) => CourseView::Finish(Some(e)),
                None => CourseView::Ask(
                    Request::ArchiveCheckout {
                        checkout_id: returning.checkout_id,
                        returned_at: returning.returned_at,
                    },
                ),
            },
        },
        (Request::InsertCheckout { row }, ReplyView::Affected(n)) => match untouched(
            n,
            CHECKOUT_NOT_RECORDED@,
        ) {
            Some(e) => CourseView::Finish(Some(e)),
            None => CourseView::Ask(Request::Commit),
        },
        (Request::ArchiveCheckout { checkout_id, returned_at }, ReplyView::Affected(n)) => match untouched(
            n,
            RETURN_NOT_RECORDED@,
        ) {
            Some(e) => CourseView::Finish(Some(e)),
            None => CourseView::Ask(Request::DeleteCheckout { checkout_id }),
        },
        (Request::DeleteCheckout { checkout_id }, ReplyView::Affected(n)) => match untouched(
            n,
            RETURN_NOT_RECORDED@,
        ) {
            Some(e) => CourseView::Finish(Some(e)),
            None => CourseView::Ask(Request::Commit),
        },
        (Request::Commit, ReplyView::Done) => CourseView::Finish(None),
        _ => CourseView::Finish(Some(AppErrorView::InternalError(UNEXPECTED_REPLY@))),
    }
}

/// No step is taken unguarded. A loan is recorded only for a book that was
/// read as free, and copied into the history only where the state that was
/// read allowed the return. The loan is removed only after its copy was
/// made, and a commit is asked for only after the last change touched a
/// row. A command succeeds only by a commit that the store carried out, and
/// a failure of the store is handed on as it came.
pub proof fn lemma_course_is_guarded(command: Command, asked: Request, reply: ReplyView)
    ensures
        ({
            let course = next(command, asked, reply);
            &&& course is Ask && course->Ask_0 is InsertCheckout ==> {
                &&& asked is ReadState
                &&& reply is State
                &&& checkout_refusal(reply->State_0) is None
                &&& command is Checkout
                &&& course->Ask_0->row == CheckoutState::loan_row(
                    command->checkout_id,
                    command->lending,
                )
            }
            &&& course is Ask && course->Ask_0 is ArchiveCheckout ==> {
                &&& asked is ReadState
                &&& reply is State
                &&& command is Return
                &&& return_refusal(reply->State_0, command->returning) is None
                &&& course->Ask_0 == Request::ArchiveCheckout {
                    checkout_id: command->returning.checkout_id,
                    returned_at: command->returning.returned_at,
                }
            }
            &&& course is Ask && course->Ask_0 is DeleteCheckout ==> {
                &&& asked is ArchiveCheckout
                &&& asked == Request::ArchiveCheckout {
                    checkout_id: course->Ask_0->DeleteCheckout_checkout_id,
                    returned_at: asked->returned_at,
                }
                &&& reply is Affected
                &&& reply->Affected_0 >= 1
            }
            &&& course == CourseView::Ask(Request::Commit) ==> {
                &&& asked is InsertCheckout || asked is DeleteCheckout
                &&& reply is Affected
                &&& reply->Affected_0 >= 1
            }
            &&& course == CourseView::Finish(None) ==> asked == Request::Commit && reply
                == ReplyView::Done
            &&& reply is Failed ==> course == CourseView::Finish(Some(reply->Failed_0))
        }),
{
}

/// The first request of every command.
pub fn start() -> (request: Request)
    ensures
        request == Request::Begin,
{
    Request::Begin
}

/// Decides how `command` goes on after the store answered `reply` to the
/// request `asked`.
pub fn advance(command: Command, asked: Request, reply: Reply) -> (course: Course)
    ensures
        course@ == next(command, asked, reply@),
{
    match reply {
        Reply::Failed(e) => Course::Finish(Err(e)),
        Reply::Done => match asked {
            Request::Begin => Course::Ask(Request::Isolate),
            Request::Isolate => Course::Ask(Request::ReadState { book_id: command.book_id() }),
            Request::Commit => Course::Finish(Ok(())),
            _ => Course::Finish(Err(AppError::InternalError(UNEXPECTED_REPLY.to_owned()))),
        },
        Reply::State(state) => match asked {
            Request::ReadState { book_id: _ } => match command {
                Command::Checkout { checkout_id, lending } => match check_can_checkout(state) {
                    Err(e) => Course::Finish(Err(e)),
                    Ok(()) => Course::Ask(
                        Request::InsertCheckout {
                            row: ActiveCheckout {
                                checkout_id,
                                book_id: lending.book_id,
                                user_id: lending.checked_out_by,
                                checked_out_at: lending.checked_out_at,
                            },
                        },
                    ),
                },
                Command::Return { returning } => match check_can_return(state, &returning) {
                    Err(e) => Course::Finish(Err(e)),
                    Ok(()) => Course::Ask(
                        Request::ArchiveCheckout {
                            checkout_id: returning.checkout_id,
                            returned_at: returning.returned_at,
                        },
                    ),
                },
            },
            _ => Course::Finish(Err(AppError::InternalError(UNEXPECTED_REPLY.to_owned()))),
        },
        Reply::Affected(n) => match asked {
            Request::InsertCheckout { row: _ } => match check_affected(n, CHECKOUT_NOT_RECORDED) {
                Err(e) => Course::Finish(Err(e)),
                Ok(()) => Course::Ask(Request::Commit),
            },
            Request::ArchiveCheckout { checkout_id, returned_at: _ } => match check_affected(
                n,
                RETURN_NOT_RECORDED,
            ) {
                Err(e) => Course::Finish(Err(e)),
                Ok(()) => Course::Ask(Request::DeleteCheckout { checkout_id }),
            },
            Request::DeleteCheckout { checkout_id: _ } => match check_affected(
                n,
                RETURN_NOT_RECORDED,
            ) {
                Err(e) => Course::Finish(Err(e)),
                Ok(()) => Course::Ask(Request::Commit),
            },
            _ => Course::Finish(Err(AppError::InternalError(UNEXPECTED_REPLY.to_owned()))),
        },
    }
}

/// What a store in the given state answers to a request, and the state of
/// the open transaction after it.
pub open spec fn answer(state: CheckoutState, request: Request) -> (ReplyView, CheckoutState) {
    match request {
        Request::Begin => (ReplyView::Done, state),
        Request::Isolate => (ReplyView::Done, state),
        Request::Commit => (ReplyView::Done, state),
        Request::ReadState { book_id } => (ReplyView::State(state.state_row(book_id)), state),
        Request::InsertCheckout { row } => if state.id_in_use(row.checkout_id) {
            (ReplyView::Affected(0), state)
        } else {
            (ReplyView::Affected(1), CheckoutState { active: state.active.push(row), ..state })
        },
        Request::ArchiveCheckout { checkout_id, returned_at } => match find_first(
            state.active,
            with_checkout_id(checkout_id),
        ) {
            Some(loan) => (
                ReplyView::Affected(1),
                CheckoutState {
                    history: state.history.push(CheckoutState::returned_row(loan, returned_at)),
                    ..state
                },
            ),
            None => (ReplyView::Affected(0), state),
        },
        Request::DeleteCheckout { checkout_id } => {
            let at = first_where(state.active, with_checkout_id(checkout_id));
            if at < state.active.len() {
                (
                    ReplyView::Affected(1),
                    CheckoutState { active: state.active.remove(at), ..state },
                )
            } else {
                (ReplyView::Affected(0), state)
            }
        },
    }
}

/// Carries `command` on from the request `asked`, for at most `steps`
/// requests: the error it ends with, if any, and the state it leaves.
/// `committed` is the state before the transaction, which a failure leaves
/// untouched; `working` is the state that the open transaction sees.
pub open spec fn run(
    command: Command,
    committed: CheckoutState,
    working: CheckoutState,
    asked: Request,
    steps: nat,
) -> (Option<AppErrorView>, CheckoutState)
    decreases steps,
{
    if steps == 0 {
        (Some(AppErrorView::InternalError(UNEXPECTED_REPLY@)), committed)
    } else {
        let (reply, after) = answer(working, asked);
        match next(command, asked, reply) {
            CourseView::Ask(request) => run(command, committed, after, request, (steps - 1) as nat),
            CourseView::Finish(None) => (None, after),
            CourseView::Finish(Some(e)) => (Some(e), committed),
        }
    }
}

/// Carries `command` out on `state`, from the first request to the end.
pub open spec fn carry_out(command: Command, state: CheckoutState) -> (
    Option<AppErrorView>,
    CheckoutState,
) {
    run(command, state, state, Request::Begin, 8)
}

/// A checkout that is carried out request by request ends as the engine's
/// checkout does: with the same refusal, or with the loan recorded.
pub proof fn lemma_checkout_carried_out(
    state: CheckoutState,
    checkout_id: CheckoutId,
    event: CreateCheckout,
)
    ensures
        carry_out(Command::Checkout { checkout_id, lending: event }, state) == (
            state.lend_refusal(checkout_id, event),
            if state.lend_refusal(checkout_id, event) is None {
                state.lent(checkout_id, event)
            } else {
                state
            },
        ),
{
    reveal_with_fuel(run, 6);
}

/// A return that is carried out request by request ends as the engine's
/// return does: with the same refusal, or with the loan moved to the
/// history.
pub proof fn lemma_return_carried_out(state: CheckoutState, event: UpdateReturned)
    requires
        state.wf(),
    ensures
        carry_out(Command::Return { returning: event }, state) == (
            return_refusal(state.state_row(event.book_id), event),
            if return_refusal(state.state_row(event.book_id), event) is None {
                state.returned(event)
            } else {
                state
            },
        ),
{
    reveal_with_fuel(run, 7);
    let by_id = with_checkout_id(event.checkout_id);
    if return_refusal(state.state_row(event.book_id), event) is None {
        let at = first_where(state.active, of_book(event.book_id));
        lemma_first_where(state.active, of_book(event.book_id));
        assert(state.active[at].checkout_id == event.checkout_id);
        assert forall|k: int| 0 <= k < at implies !by_id(#[trigger] state.active[k]) by {}
        lemma_first_where_is(state.active, by_id, at);
        let archived = answer(
            state,
            Request::ArchiveCheckout {
                checkout_id: event.checkout_id,
                returned_at: event.returned_at,
            },
        ).1;
        assert(archived.active == state.active);
        let deleted = answer(archived, Request::DeleteCheckout { checkout_id: event.checkout_id }).1;
        assert(deleted == state.returned(event));
    }
}

} // verus!
