//! The life of a property-store session: opening, the open session, closing.
//!
//! A session is opened in three host calls: enter the threading environment,
//! create the binding context, ask for the store. Whatever fails, what was
//! acquired before is released again, last acquired first. A `FileProperties`
//! exists only once all three have succeeded, and closing it releases the
//! same things in the same order.
//!
//! Every session enters the threading environment once for itself and leaves
//! it once, and never leaves it where it did not enter. Sessions that overlap
//! on one thread therefore leave the environment exactly as often as they
//! entered it. A session belongs to the thread that opened it.

use crate::error::{CommitError, OpenError};
use crate::exchange::{Reading, ReadingView, Writing, WritingView};
use crate::host::{
    acquires, answers, apartment_threaded, nothing, releases, settle, CallView, Holdings, HostCall,
    HostReply, ReplyView, StoreFlags,
};
use crate::variant::{FromPropVariant, ToPropVariant};
use crate::wide::{encode_utf16, to_wide};
use vstd::prelude::*;

verus! {

/// Where the opening of a session stands: the call that is under way.
#[derive(Debug, Clone, Copy, PartialEq, Eq, Structural)]
pub enum OpenStage {
    /// Entering the threading environment.
    Entering,
    /// Creating the binding context.
    Binding,
    /// Asking for the store.
    Requesting,
    /// Releasing the binding context after the failure with this code.
    Unbinding(i32),
    /// Leaving the threading environment after the failure with this code.
    Leaving(i32),
}

/// A session that is being opened.
#[derive(Debug)]
pub struct Opening {
    path: String,
    flags: StoreFlags,
    stage: OpenStage,
}

/// The mathematical content of an `Opening`.
pub ghost struct OpeningView {
    pub path: Seq<char>,
    pub flags: StoreFlags,
    pub stage: OpenStage,
}

/// An open session on one file's property store. It holds the threading
/// environment, the binding context and the store until it is closed.
#[derive(Debug)]
pub struct FileProperties {
    path: String,
    flags: StoreFlags,
}

/// The mathematical content of a `FileProperties`.
pub ghost struct SessionView {
    pub path: Seq<char>,
    pub flags: StoreFlags,
}

/// What one answer brings an opening to.
#[derive(Debug)]
pub enum OpenStep {
    /// Another call is to be made.
    Pending(Opening),
    /// The session is open.
    Ready(FileProperties),
    /// The session could not be opened, and nothing is held any more.
    Failed(OpenError),
}

/// The mathematical content of an `OpenStep`.
pub ghost enum OpenStepView {
    Pending(OpeningView),
    Ready(SessionView),
    Failed(OpenError),
}

impl View for Opening {
    type V = OpeningView;

    closed spec fn view(&self) -> OpeningView {
        OpeningView { path: self.path@, flags: self.flags, stage: self.stage }
    }
}

impl View for FileProperties {
    type V = SessionView;

    closed spec fn view(&self) -> SessionView {
        SessionView { path: self.path@, flags: self.flags }
    }
}

impl View for OpenStep {
    type V = OpenStepView;

    open spec fn view(&self) -> OpenStepView {
        match *self {
            OpenStep::Pending(opening) => OpenStepView::Pending(opening@),
            OpenStep::Ready(session) => OpenStepView::Ready(session@),
            OpenStep::Failed(error) => OpenStepView::Failed(error),
        }
    }
}

impl SessionView {
    /// An open session holds the environment, the context and the store.
    pub open spec fn held(self) -> Holdings {
        Holdings { environment: true, context: true, store: true, buffer: false }
    }
}

impl OpeningView {
    /// The opening of `path` before its first call.
    pub open spec fn start(path: Seq<char>, flags: StoreFlags) -> OpeningView {
        OpeningView { path, flags, stage: OpenStage::Entering }
    }

    /// The call that is under way.
    pub open spec fn pending(self) -> CallView {
        match self.stage {
            OpenStage::Entering => CallView::EnterEnvironment { mode: apartment_threaded() },
            OpenStage::Binding => CallView::CreateContext,
            OpenStage::Requesting => CallView::OpenStore {
                path: encode_utf16(self.path),
                flags: self.flags,
            },
            OpenStage::Unbinding(_) => CallView::ReleaseBoundObjects,
            OpenStage::Leaving(_) => CallView::ExitEnvironment,
        }
    }

    /// What is held while that call is under way.
    pub open spec fn held(self) -> Holdings {
        match self.stage {
            OpenStage::Entering => nothing(),
            OpenStage::Binding | OpenStage::Leaving(_) => Holdings {
                environment: true,
                context: false,
                store: false,
                buffer: false,
            },
            OpenStage::Requesting | OpenStage::Unbinding(_) => Holdings {
                environment: true,
                context: true,
                store: false,
                buffer: false,
            },
        }
    }

    /// The same opening at another stage.
    pub open spec fn at(self, stage: OpenStage) -> OpeningView {
        OpeningView { stage, ..self }
    }

    /// What `reply` brings the opening to. The first failure decides the
    /// error; a release goes on to the next release whether it succeeded or
    /// not; an answer that the pending call cannot have changes nothing.
    pub open spec fn next(self, reply: ReplyView) -> OpenStepView {
        if !answers(self.pending(), reply) {
            OpenStepView::Pending(self)
        } else {
            match (self.stage, reply) {
                (OpenStage::Entering, ReplyView::Failed(code)) => OpenStepView::Failed(
                    OpenError::StoreUnavailable(code),
                ),
                (OpenStage::Entering, _) => OpenStepView::Pending(self.at(OpenStage::Binding)),
                (OpenStage::Binding, ReplyView::Failed(code)) => OpenStepView::Pending(
                    self.at(OpenStage::Leaving(code)),
                ),
                (OpenStage::Binding, _) => OpenStepView::Pending(self.at(OpenStage::Requesting)),
                (OpenStage::Requesting, ReplyView::Failed(code)) => OpenStepView::Pending(
                    self.at(OpenStage::Unbinding(code)),
                ),
                (OpenStage::Requesting, _) => OpenStepView::Ready(
                    SessionView { path: self.path, flags: self.flags },
                ),
                (OpenStage::Unbinding(code), _) => OpenStepView::Pending(
                    self.at(OpenStage::Leaving(code)),
                ),
                (OpenStage::Leaving(code), _) => OpenStepView::Failed(
                    OpenError::StoreUnavailable(code),
                ),
            }
        }
    }

    /// What the opening has come to after the answers `replies`, each given
    /// to the call that was pending when it came. Answers that come after
    /// the opening has ended are not looked at.
    pub open spec fn after(self, replies: Seq<ReplyView>) -> OpenStepView
        decreases replies.len(),
    {
        if replies.len() == 0 {
            OpenStepView::Pending(self)
        } else {
            match self.next(replies[0]) {
                OpenStepView::Pending(later) => later.after(replies.skip(1)),
                ended => ended,
            }
        }
    }

    /// What is held after the same answers, where `held` was held before:
    /// each call that was made, settled with its answer in turn.
    pub open spec fn account(self, held: Holdings, replies: Seq<ReplyView>) -> Holdings
        decreases replies.len(),
    {
        if replies.len() == 0 {
            held
        } else {
            let settled = settle(held, self.pending(), replies[0]);
            match self.next(replies[0]) {
                OpenStepView::Pending(later) => later.account(settled, replies.skip(1)),
                _ => settled,
            }
        }
    }

    /// The most calls that are still to be answered before the opening ends.
    pub open spec fn calls_left(self) -> nat {
        match self.stage {
            OpenStage::Entering => 5,
            OpenStage::Binding => 4,
            OpenStage::Requesting => 3,
            OpenStage::Unbinding(_) => 2,
            OpenStage::Leaving(_) => 1,
        }
    }
}

impl OpenStepView {
    /// What is held after the step.
    pub open spec fn held(self) -> Holdings {
        match self {
            OpenStepView::Pending(opening) => opening.held(),
            OpenStepView::Ready(session) => session.held(),
            OpenStepView::Failed(_) => nothing(),
        }
    }
}

impl Opening {
    /// The call to make now.
    pub fn request(&self) -> (call: HostCall)
        ensures
            call@ == self@.pending(),
    {
        match self.stage {
            OpenStage::Entering => HostCall::EnterEnvironment { mode: apartment_threaded() },
            OpenStage::Binding => HostCall::CreateContext,
            OpenStage::Requesting => HostCall::OpenStore {
                path: to_wide(self.path.as_str()),
                flags: self.flags,
            },
            OpenStage::Unbinding(_) => HostCall::ReleaseBoundObjects,
            OpenStage::Leaving(_) => HostCall::ExitEnvironment,
        }
    }

    /// Takes the host's answer to the pending call.
    pub fn advance(self, reply: HostReply) -> (step: OpenStep)
        ensures
            step@ == self@.next(reply@),
    {
        let code = match reply {
            HostReply::Done => None,
            HostReply::Failed(code) => Some(code),
            _ => {
                return OpenStep::Pending(self);
            },
        };
        let Opening { path, flags, stage } = self;
        match (stage, code) {
            (OpenStage::Entering, Some(code)) => OpenStep::Failed(OpenError::StoreUnavailable(code)),
            (OpenStage::Entering, None) => OpenStep::Pending(
                Opening { path, flags, stage: OpenStage::Binding },
            ),
            (OpenStage::Binding, Some(code)) => OpenStep::Pending(
                Opening { path, flags, stage: OpenStage::Leaving(code) },
            ),
            (OpenStage::Binding, None) => OpenStep::Pending(
                Opening { path, flags, stage: OpenStage::Requesting },
            ),
            (OpenStage::Requesting, Some(code)) => OpenStep::Pending(
                Opening { path, flags, stage: OpenStage::Unbinding(code) },
            ),
            (OpenStage::Requesting, None) => OpenStep::Ready(FileProperties { path, flags }),
            (OpenStage::Unbinding(code), _) => OpenStep::Pending(
                Opening { path, flags, stage: OpenStage::Leaving(code) },
            ),
            (OpenStage::Leaving(code), _) => OpenStep::Failed(OpenError::StoreUnavailable(code)),
        }
    }
}

/// Where the closing of a session stands: the call that is under way.
#[derive(Debug, Clone, Copy, PartialEq, Eq, Structural)]
pub enum CloseStage {
    /// Releasing what is bound to the binding context.
    Unbinding,
    /// Leaving the threading environment.
    Leaving,
}

/// A session that is being closed.
#[derive(Debug)]
pub struct Closing {
    stage: CloseStage,
}

/// What one answer brings a closing to.
#[derive(Debug)]
pub enum CloseStep {
    /// Another call is to be made.
    Pending(Closing),
    /// The session is closed, and nothing is held any more.
    Closed,
}

/// The mathematical content of a `CloseStep`.
pub ghost enum CloseStepView {
    Pending(CloseStage),
    Closed,
}

impl View for Closing {
    type V = CloseStage;

    closed spec fn view(&self) -> CloseStage {
        self.stage
    }
}

impl View for CloseStep {
    type V = CloseStepView;

    open spec fn view(&self) -> CloseStepView {
        match *self {
            CloseStep::Pending(closing) => CloseStepView::Pending(closing@),
            CloseStep::Closed => CloseStepView::Closed,
        }
    }
}

impl CloseStage {
    /// The call that is under way.
    pub open spec fn pending(self) -> CallView {
        match self {
            CloseStage::Unbinding => CallView::ReleaseBoundObjects,
            CloseStage::Leaving => CallView::ExitEnvironment,
        }
    }

    /// What is held while that call is under way.
    pub open spec fn held(self) -> Holdings {
        match self {
            CloseStage::Unbinding => Holdings {
                environment: true,
                context: true,
                store: true,
                buffer: false,
            },
            CloseStage::Leaving => Holdings {
                environment: true,
                context: false,
                store: false,
                buffer: false,
            },
        }
    }

    /// What the closing has come to after the answers `replies`, each given
    /// to the call that was pending when it came.
    pub open spec fn after(self, replies: Seq<ReplyView>) -> CloseStepView
        decreases replies.len(),
    {
        if replies.len() == 0 {
            CloseStepView::Pending(self)
        } else {
            match self.next(replies[0]) {
                CloseStepView::Pending(later) => later.after(replies.skip(1)),
                ended => ended,
            }
        }
    }

    /// What is held after the same answers, where `held` was held before:
    /// each call that was made, settled with its answer in turn.
    pub open spec fn account(self, held: Holdings, replies: Seq<ReplyView>) -> Holdings
        decreases replies.len(),
    {
        if replies.len() == 0 {
            held
        } else {
            let settled = settle(held, self.pending(), replies[0]);
            match self.next(replies[0]) {
                CloseStepView::Pending(later) => later.account(settled, replies.skip(1)),
                _ => settled,
            }
        }
    }

    /// What `reply` brings the closing to. A release that fails is not tried
    /// again: the closing goes on.
    pub open spec fn next(self, reply: ReplyView) -> CloseStepView {
        if !answers(self.pending(), reply) {
            CloseStepView::Pending(self)
        } else {
            match self {
                CloseStage::Unbinding => CloseStepView::Pending(CloseStage::Leaving),
                CloseStage::Leaving => CloseStepView::Closed,
            }
        }
    }
}

impl CloseStepView {
    /// What is held after the step.
    pub open spec fn held(self) -> Holdings {
        match self {
            CloseStepView::Pending(stage) => stage.held(),
            CloseStepView::Closed => nothing(),
        }
    }
}

impl Closing {
    /// The call to make now.
    pub fn request(&self) -> (call: HostCall)
        ensures
            call@ == self@.pending(),
    {
        match self.stage {
            CloseStage::Unbinding => HostCall::ReleaseBoundObjects,
            CloseStage::Leaving => HostCall::ExitEnvironment,
        }
    }

    /// Takes the host's answer to the pending call.
    pub fn advance(self, reply: HostReply) -> (step: CloseStep)
        ensures
            step@ == self@.next(reply@),
    {
        match reply {
            HostReply::Done | HostReply::Failed(_) => match self.stage {
                CloseStage::Unbinding => CloseStep::Pending(Closing { stage: CloseStage::Leaving }),
                CloseStage::Leaving => CloseStep::Closed,
            },
            _ => CloseStep::Pending(self),
        }
    }
}

impl FileProperties {
    /// The flags that a session is opened with: those given, else read-write.
    pub open spec fn flags_or_default(flag: Option<StoreFlags>) -> StoreFlags {
        match flag {
            Some(flags) => flags,
            None => StoreFlags::spec_read_write(),
        }
    }

    /// Begins to open a session on the file at `path`. `exists` says whether
    /// the path names a file. Where it names none the opening fails at once:
    /// no call is asked for, so nothing of the host's is acquired.
    pub fn new(path: &str, flag: Option<StoreFlags>, exists: bool) -> (opened: Result<
        Opening,
        OpenError,
    >)
        ensures
            !exists ==> (opened matches Err(error) && error == OpenError::NotFound),
            exists ==> (opened matches Ok(opening) && opening@ == OpeningView::start(
                path@,
                Self::flags_or_default(flag),
            )),
    {
        if !exists {
            return Err(OpenError::NotFound);
        }
        let flags = match flag {
            Some(flags) => flags,
            None => StoreFlags::read_write(),
        };
        Ok(Opening { path: path.to_owned(), flags, stage: OpenStage::Entering })
    }

    /// The path that the session was opened on.
    pub fn path(&self) -> (path: &str)
        ensures
            path@ == self@.path,
    {
        self.path.as_str()
    }

    /// The flags that the store was opened with.
    pub fn flags(&self) -> (flags: StoreFlags)
        ensures
            flags == self@.flags,
    {
        self.flags
    }

    /// The number of properties in the store: what the store counted. A store
    /// that is open can be counted: the count is taken to have succeeded.
    pub fn get_prop_count(&self, counted: Result<u32, i32>) -> (count: u32)
        requires
            counted is Ok,
        ensures
            counted == Ok::<u32, i32>(count),
    {
        match counted {
            Ok(count) => count,
            Err(_) => 0,
        }
    }

    /// Begins to read the property `prop_name` as a `T`.
    pub fn get_prop<T: FromPropVariant>(&self, prop_name: &str) -> (reading: Reading<T>)
        ensures
            reading@ == ReadingView::start(encode_utf16(prop_name@), T::shape_spec()),
    {
        Reading::start(to_wide(prop_name))
    }

    /// Begins to write `value` to the property `prop_name`. The write only
    /// stages the value in the store: it is in the file after a commit.
    pub fn set_prop<T: ToPropVariant>(&self, prop_name: &str, value: T) -> (writing: Writing)
        ensures
            writing@ == WritingView::start(encode_utf16(prop_name@), value.written()),
    {
        Writing::start(to_wide(prop_name), value.to_prop_variant())
    }

    /// What a flush of the staged writes came to: `flushed` is the store's
    /// answer. A failure keeps the host's code; what the file holds after one
    /// is for the caller to read again.
    pub fn commit(&self, flushed: Result<(), i32>) -> (committed: Result<(), CommitError>)
        ensures
            flushed is Ok ==> committed is Ok,
            flushed matches Err(code) ==> committed == Err::<(), CommitError>(
                CommitError::Failed(code),
            ),
    {
        match flushed {
            Ok(()) => Ok(()),
            Err(code) => Err(CommitError::Failed(code)),
        }
    }

    /// Begins to close the session. The session is used up: nothing can be
    /// read or written through it any more.
    pub fn close(self) -> (closing: Closing)
        ensures
            closing@ == CloseStage::Unbinding,
            closing@.held() == self@.held(),
    {
        Closing { stage: CloseStage::Unbinding }
    }
}

/// Every step of an opening keeps account: what is held after it is what was
/// held before, with what the call acquired and without what it released. So
/// an opening that fails holds nothing, and one that succeeds holds the
/// environment, the context and the store.
pub proof fn lemma_open_keeps_account(opening: OpeningView, reply: ReplyView)
    ensures
        opening.next(reply).held() == settle(opening.held(), opening.pending(), reply),
        opening.next(reply) is Failed ==> settle(opening.held(), opening.pending(), reply)
            == nothing(),
{
}

/// Whatever the host answers, an opening is balanced. Settling every call
/// that was made with its answer, from nothing held, gives what the opening
/// says is held. An opening that has failed holds nothing: each thing that
/// was acquired on the way was released again. An opening that has succeeded
/// holds the environment, the context and the store, each acquired once.
pub proof fn lemma_open_is_balanced(path: Seq<char>, flags: StoreFlags, replies: Seq<ReplyView>)
    ensures
        ({
            let start = OpeningView::start(path, flags);
            let held = start.account(nothing(), replies);
            &&& start.after(replies).held() == held
            &&& start.after(replies) is Failed ==> held == nothing()
            &&& start.after(replies) is Ready ==> held == (Holdings {
                environment: true,
                context: true,
                store: true,
                buffer: false,
            })
        }),
{
    lemma_open_account(OpeningView::start(path, flags), replies);
}

/// The account of an opening from any stage on.
proof fn lemma_open_account(opening: OpeningView, replies: Seq<ReplyView>)
    ensures
        opening.after(replies).held() == opening.account(opening.held(), replies),
    decreases replies.len(),
{
    if replies.len() > 0 {
        lemma_open_keeps_account(opening, replies[0]);
        match opening.next(replies[0]) {
            OpenStepView::Pending(later) => {
                lemma_open_account(later, replies.skip(1));
            },
            _ => {},
        }
    }
}

/// An opening acquires nothing that it holds already, releases only what it
/// holds, and leaves the environment last: after the context and the store.
pub proof fn lemma_open_order(opening: OpeningView)
    ensures
        acquires(opening.pending()).environment ==> !opening.held().environment,
        acquires(opening.pending()).context ==> !opening.held().context,
        acquires(opening.pending()).store ==> !opening.held().store,
        releases(opening.pending()).environment ==> opening.held().environment,
        releases(opening.pending()).context ==> opening.held().context,
        opening.pending() is ExitEnvironment ==> !opening.held().context && !opening.held().store,
        opening.pending() is CreateContext || opening.pending() is OpenStore
            ==> opening.held().environment,
{
}

/// Every answer that the pending call can have brings an opening nearer to
/// its end: no more than five calls are made.
pub proof fn lemma_open_ends(opening: OpeningView, reply: ReplyView)
    requires
        answers(opening.pending(), reply),
    ensures
        opening.calls_left() <= 5,
        opening.next(reply) matches OpenStepView::Pending(later) ==> later.calls_left()
            < opening.calls_left(),
{
}

/// Where the host succeeds in all three calls, the session is open, on the
/// path and with the flags that it was asked for.
pub proof fn lemma_open_succeeds(path: Seq<char>, flags: StoreFlags)
    ensures
        OpeningView::start(path, flags).after(
            seq![ReplyView::Done, ReplyView::Done, ReplyView::Done],
        ) == OpenStepView::Ready(SessionView { path, flags }),
{
    let replies = seq![ReplyView::Done, ReplyView::Done, ReplyView::Done];
    let entering = OpeningView::start(path, flags);
    let binding = entering.at(OpenStage::Binding);
    let requesting = entering.at(OpenStage::Requesting);
    assert(entering.next(replies[0]) == OpenStepView::Pending(binding));
    assert(binding.next(replies[1]) == OpenStepView::Pending(requesting));
    assert(requesting.next(replies[2]) == OpenStepView::Ready(SessionView { path, flags }));
    assert(replies.skip(1)[0] == replies[1]);
    assert(replies.skip(1).skip(1)[0] == replies[2]);
    assert(requesting.after(replies.skip(1).skip(1)) == OpenStepView::Ready(
        SessionView { path, flags },
    ));
    assert(binding.after(replies.skip(1)) == requesting.after(replies.skip(1).skip(1)));
}

/// The code of the first failure among `replies`, if one of them is a
/// failure.
pub open spec fn first_failure(replies: Seq<ReplyView>) -> Option<i32>
    decreases replies.len(),
{
    if replies.len() == 0 {
        None
    } else {
        match replies[0] {
            ReplyView::Failed(code) => Some(code),
            _ => first_failure(replies.skip(1)),
        }
    }
}

/// Wherever an opening fails, the error holds the code of the first call that
/// failed: the releases that follow do not change it, whether they succeed or
/// fail.
pub proof fn lemma_open_reports_first_failure(
    path: Seq<char>,
    flags: StoreFlags,
    replies: Seq<ReplyView>,
)
    ensures
        OpeningView::start(path, flags).after(replies) matches OpenStepView::Failed(error)
            ==> first_failure(replies) matches Some(code) && error == OpenError::StoreUnavailable(
            code,
        ),
{
    lemma_open_failure(OpeningView::start(path, flags), replies);
}

/// The failure of an opening from any stage on: the code that a release stage
/// keeps, and before any failure the code of the first failure to come.
proof fn lemma_open_failure(opening: OpeningView, replies: Seq<ReplyView>)
    ensures
        opening.after(replies) matches OpenStepView::Failed(error) ==> error
            == OpenError::StoreUnavailable(
            match opening.stage {
                OpenStage::Unbinding(code) | OpenStage::Leaving(code) => code,
                _ => first_failure(replies).unwrap(),
            },
        ),
        opening.after(replies) is Failed && !(opening.stage is Unbinding) && !(opening.stage
            is Leaving) ==> first_failure(replies) is Some,
    decreases replies.len(),
{
    if replies.len() > 0 {
        match opening.next(replies[0]) {
            OpenStepView::Pending(later) => {
                lemma_open_failure(later, replies.skip(1));
            },
            _ => {},
        }
    }
}

/// Every step of a closing keeps account, and a closing that has ended holds
/// nothing: what the session held is released, the environment last.
pub proof fn lemma_close_keeps_account(stage: CloseStage, reply: ReplyView)
    ensures
        stage.next(reply).held() == settle(stage.held(), stage.pending(), reply),
        stage.pending() is ExitEnvironment ==> !stage.held().context && !stage.held().store,
        answers(stage.pending(), reply) && stage == CloseStage::Leaving ==> stage.next(reply)
            is Closed,
        answers(stage.pending(), reply) && stage == CloseStage::Unbinding ==> stage.next(reply)
            == CloseStepView::Pending(CloseStage::Leaving),
{
}

/// Whatever the host answers, a closing is balanced. Settling every call that
/// was made with its answer, from what the open session held, gives what the
/// closing says is held, and a closing that has ended holds nothing.
pub proof fn lemma_close_is_balanced(session: SessionView, replies: Seq<ReplyView>)
    ensures
        ({
            let start = CloseStage::Unbinding;
            let held = start.account(session.held(), replies);
            &&& start.after(replies).held() == held
            &&& start.after(replies) is Closed ==> held == nothing()
        }),
{
    lemma_close_account(CloseStage::Unbinding, replies);
}

/// The account of a closing from any stage on.
proof fn lemma_close_account(stage: CloseStage, replies: Seq<ReplyView>)
    ensures
        stage.after(replies).held() == stage.account(stage.held(), replies),
    decreases replies.len(),
{
    if replies.len() > 0 {
        lemma_close_keeps_account(stage, replies[0]);
        match stage.next(replies[0]) {
            CloseStepView::Pending(later) => {
                lemma_close_account(later, replies.skip(1));
            },
            _ => {},
        }
    }
}

} // verus!
