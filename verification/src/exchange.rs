//! Reading and writing one property of an open session.
//!
//! A read resolves the name, fetches the value into the buffer, copies the
//! value out and clears the buffer. A write resolves the name, builds the
//! buffer, coerces it to the key's canonical form and hands it to the store.
//! A buffer that the host filled is cleared or handed over exactly once,
//! whatever fails in between.

use crate::error::PropError;
use crate::host::{
    acquires, answers, nothing, releases, settle, CallView, Holdings, HostCall, HostReply, ReplyView,
};
use crate::key::{resolution, resolve, PropertyKey};
use crate::variant::{
    decode_string, decode_string_vector, decode_u32, lemma_string_round_trip, FromPropVariant,
    PropVariant, Shape, VariantView,
};
use crate::wide::encode_utf16;
use vstd::prelude::*;
use vstd::slice::slice_to_vec;

verus! {

/// Where a read stands, with what it keeps.
#[derive(Debug)]
enum ReadState {
    Resolving,
    Fetching(PropertyKey),
    Converting,
    Releasing(PropVariant),
}

/// A read of one property that is under way. `T` is the type that the value
/// is read as.
#[derive(Debug)]
pub struct Reading<T> {
    name: Vec<u16>,
    state: ReadState,
    mark: core::marker::PhantomData<T>,
}

/// Where a read stands: the call that is under way.
pub ghost enum ReadStage {
    /// Resolving the name to a key.
    Resolving,
    /// Fetching the value under the key into the buffer.
    Fetching(PropertyKey),
    /// Copying the value out of the buffer.
    Converting,
    /// Clearing the buffer, with the value that was copied out.
    Releasing(VariantView),
}

/// The mathematical content of a `Reading`.
pub ghost struct ReadingView {
    pub name: Seq<u16>,
    pub shape: Shape,
    pub stage: ReadStage,
}

/// What one answer brings a read to.
#[derive(Debug)]
pub enum ReadStep<T> {
    /// Another call is to be made.
    Pending(Reading<T>),
    /// The read has ended, and the buffer holds nothing any more.
    Finished(Result<T, PropError>),
}

/// The mathematical content of a `ReadStep`, before the value is typed.
pub ghost enum ReadStepView {
    Pending(ReadingView),
    /// The read has ended with this content of the buffer.
    Read(VariantView),
    Failed(PropError),
}

impl<T: FromPropVariant> View for Reading<T> {
    type V = ReadingView;

    closed spec fn view(&self) -> ReadingView {
        ReadingView {
            name: self.name@,
            shape: T::shape_spec(),
            stage: match self.state {
                ReadState::Resolving => ReadStage::Resolving,
                ReadState::Fetching(key) => ReadStage::Fetching(key),
                ReadState::Converting => ReadStage::Converting,
                ReadState::Releasing(value) => ReadStage::Releasing(value@),
            },
        }
    }
}

impl ReadingView {
    /// The read of the property `name` before its first call.
    pub open spec fn start(name: Seq<u16>, shape: Shape) -> ReadingView {
        ReadingView { name, shape, stage: ReadStage::Resolving }
    }

    /// The conversion that reads a buffer in `shape`. A buffer without a
    /// string reads as the empty string, one without a number as 0.
    pub open spec fn conversion(shape: Shape) -> CallView {
        match shape {
            Shape::Text => CallView::ConvertText { default_text: Seq::empty() },
            Shape::Number => CallView::ConvertNumber { default_number: 0 },
            Shape::TextVector => CallView::ConvertTextVector,
        }
    }

    /// The call that is under way.
    pub open spec fn pending(self) -> CallView {
        match self.stage {
            ReadStage::Resolving => CallView::ResolveKey { name: self.name },
            ReadStage::Fetching(key) => CallView::ReadValue { key },
            ReadStage::Converting => Self::conversion(self.shape),
            ReadStage::Releasing(_) => CallView::ClearBuffer,
        }
    }

    /// What is held while that call is under way: the buffer, once the value
    /// was fetched.
    pub open spec fn held(self) -> Holdings {
        Holdings {
            buffer: self.stage is Converting || self.stage is Releasing,
            ..nothing()
        }
    }

    /// The same read at another stage.
    pub open spec fn at(self, stage: ReadStage) -> ReadingView {
        ReadingView { stage, ..self }
    }

    /// What `reply` brings the read to. Only the resolution and the fetch can
    /// fail the read: a conversion that fails reads as an empty buffer, and
    /// the buffer is cleared whatever the conversion gave. An answer that the
    /// pending call cannot have changes nothing.
    pub open spec fn next(self, reply: ReplyView) -> ReadStepView {
        match self.stage {
            ReadStage::Resolving => match resolution(reply) {
                Some(Ok(key)) => ReadStepView::Pending(self.at(ReadStage::Fetching(key))),
                Some(Err(error)) => ReadStepView::Failed(PropError::of_lookup(error)),
                None => ReadStepView::Pending(self),
            },
            ReadStage::Fetching(_) => match reply {
                ReplyView::Done => ReadStepView::Pending(self.at(ReadStage::Converting)),
                ReplyView::Failed(code) => ReadStepView::Failed(PropError::ReadFailed(code)),
                _ => ReadStepView::Pending(self),
            },
            ReadStage::Converting => match reply {
                ReplyView::Value(value) => ReadStepView::Pending(
                    self.at(ReadStage::Releasing(value)),
                ),
                ReplyView::Failed(_) => ReadStepView::Pending(
                    self.at(ReadStage::Releasing(VariantView::Empty)),
                ),
                _ => ReadStepView::Pending(self),
            },
            ReadStage::Releasing(value) => match reply {
                ReplyView::Done | ReplyView::Failed(_) => ReadStepView::Read(value),
                _ => ReadStepView::Pending(self),
            },
        }
    }

    /// What the read has come to after the answers `replies`, each given to
    /// the call that was pending when it came.
    pub open spec fn after(self, replies: Seq<ReplyView>) -> ReadStepView
        decreases replies.len(),
    {
        if replies.len() == 0 {
            ReadStepView::Pending(self)
        } else {
            match self.next(replies[0]) {
                ReadStepView::Pending(later) => later.after(replies.skip(1)),
                ended => ended,
            }
        }
    }

    /// What is held after the same answers, where `held` was held before:
    /// each call that was made, settled with its answer in turn.
    pub open spec fn account(self, held: Holdings, replies: Seq<ReplyView>) -> Holdings
        decreases replies.len(),
    {
        if replies.len() == 0 {
            held
        } else {
            let settled = settle(held, self.pending(), replies[0]);
            match self.next(replies[0]) {
                ReadStepView::Pending(later) => later.account(settled, replies.skip(1)),
                _ => settled,
            }
        }
    }

    /// The most calls that are still to be answered before the read ends.
    pub open spec fn calls_left(self) -> nat {
        match self.stage {
            ReadStage::Resolving => 4,
            ReadStage::Fetching(_) => 3,
            ReadStage::Converting => 2,
            ReadStage::Releasing(_) => 1,
        }
    }
}

impl ReadStepView {
    /// What is held after the step.
    pub open spec fn held(self) -> Holdings {
        match self {
            ReadStepView::Pending(reading) => reading.held(),
            _ => nothing(),
        }
    }
}

impl<T: FromPropVariant> Reading<T> {
    /// The read of the property `name`, before its first call.
    pub(crate) fn start(name: Vec<u16>) -> (reading: Self)
        ensures
            reading@ == ReadingView::start(name@, T::shape_spec()),
    {
        Reading { name, state: ReadState::Resolving, mark: core::marker::PhantomData }
    }

    /// The call to make now.
    pub fn request(&self) -> (call: HostCall)
        ensures
            call@ == self@.pending(),
    {
        match &self.state {
            ReadState::Resolving => HostCall::ResolveKey {
                name: slice_to_vec(self.name.as_slice()),
            },
            ReadState::Fetching(key) => HostCall::ReadValue { key: *key },
            ReadState::Converting => match T::shape() {
                Shape::Text => HostCall::ConvertText { default_text: Vec::new() },
                Shape::Number => HostCall::ConvertNumber { default_number: 0 },
                Shape::TextVector => HostCall::ConvertTextVector,
            },
            ReadState::Releasing(_) => HostCall::ClearBuffer,
        }
    }

    /// Takes the host's answer to the pending call. Where the read ends with
    /// a value, the value is what the buffer's content reads as in `T`.
    pub fn advance(self, reply: HostReply) -> (step: ReadStep<T>)
        ensures
            match self@.next(reply@) {
                ReadStepView::Pending(later) => step matches ReadStep::Pending(reading)
                    && reading@ == later,
                ReadStepView::Read(prop) => step matches ReadStep::Finished(Ok(value))
                    && T::read_from(&value, prop),
                ReadStepView::Failed(error) => step matches ReadStep::Finished(Err(failure))
                    && failure == error,
            },
    {
        let Reading { name, state, mark } = self;
        match state {
            ReadState::Resolving => match resolve(&reply) {
                Some(Ok(key)) => ReadStep::Pending(
                    Reading { name, state: ReadState::Fetching(key), mark },
                ),
                Some(Err(error)) => ReadStep::Finished(Err(PropError::from_lookup(error))),
                None => ReadStep::Pending(Reading { name, state: ReadState::Resolving, mark }),
            },
            ReadState::Fetching(key) => match reply {
                HostReply::Done => ReadStep::Pending(
                    Reading { name, state: ReadState::Converting, mark },
                ),
                HostReply::Failed(code) => ReadStep::Finished(Err(PropError::ReadFailed(code))),
                _ => ReadStep::Pending(Reading { name, state: ReadState::Fetching(key), mark }),
            },
            ReadState::Converting => match reply {
                HostReply::Value(value) => ReadStep::Pending(
                    Reading { name, state: ReadState::Releasing(value), mark },
                ),
                HostReply::Failed(_) => ReadStep::Pending(
                    Reading { name, state: ReadState::Releasing(PropVariant::Empty), mark },
                ),
                _ => ReadStep::Pending(Reading { name, state: ReadState::Converting, mark }),
            },
            ReadState::Releasing(value) => match reply {
                HostReply::Done | HostReply::Failed(_) => ReadStep::Finished(
                    Ok(T::from_prop_variant(value)),
                ),
                _ => ReadStep::Pending(Reading { name, state: ReadState::Releasing(value), mark }),
            },
        }
    }
}

/// Where a write stands: the call that is under way.
#[derive(Debug, Clone, Copy, PartialEq, Eq, Structural)]
pub enum WriteStage {
    /// Resolving the name to a key.
    Resolving,
    /// Building the buffer from the value.
    Building(PropertyKey),
    /// Bringing the buffer into the key's canonical form.
    Coercing(PropertyKey),
    /// Handing the buffer to the store.
    Storing(PropertyKey),
    /// Clearing the buffer after the coercion failed with this code.
    Discarding(i32),
}

/// A write of one property that is under way.
#[derive(Debug)]
pub struct Writing {
    name: Vec<u16>,
    value: PropVariant,
    stage: WriteStage,
}

/// The mathematical content of a `Writing`.
pub ghost struct WritingView {
    pub name: Seq<u16>,
    pub value: VariantView,
    pub stage: WriteStage,
}

/// What one answer brings a write to.
#[derive(Debug)]
pub enum WriteStep {
    /// Another call is to be made.
    Pending(Writing),
    /// The write has ended: the value is staged in the store, or the write
    /// failed and no buffer is held any more.
    Finished(Result<(), PropError>),
}

/// The mathematical content of a `WriteStep`.
pub ghost enum WriteStepView {
    Pending(WritingView),
    Finished(Result<(), PropError>),
}

impl View for Writing {
    type V = WritingView;

    closed spec fn view(&self) -> WritingView {
        WritingView { name: self.name@, value: self.value@, stage: self.stage }
    }
}

impl View for WriteStep {
    type V = WriteStepView;

    open spec fn view(&self) -> WriteStepView {
        match *self {
            WriteStep::Pending(writing) => WriteStepView::Pending(writing@),
            WriteStep::Finished(outcome) => WriteStepView::Finished(outcome),
        }
    }
}

impl WritingView {
    /// The write of `value` to the property `name` before its first call.
    pub open spec fn start(name: Seq<u16>, value: VariantView) -> WritingView {
        WritingView { name, value, stage: WriteStage::Resolving }
    }

    /// The call that is under way.
    pub open spec fn pending(self) -> CallView {
        match self.stage {
            WriteStage::Resolving => CallView::ResolveKey { name: self.name },
            WriteStage::Building(_) => CallView::BuildValue { value: self.value },
            WriteStage::Coercing(key) => CallView::CoerceValue { key },
            WriteStage::Storing(key) => CallView::WriteValue { key },
            WriteStage::Discarding(_) => CallView::ClearBuffer,
        }
    }

    /// What is held while that call is under way: the buffer, once it was
    /// built.
    pub open spec fn held(self) -> Holdings {
        Holdings {
            buffer: self.stage is Coercing || self.stage is Storing || self.stage is Discarding,
            ..nothing()
        }
    }

    /// The same write at another stage.
    pub open spec fn at(self, stage: WriteStage) -> WritingView {
        WritingView { stage, ..self }
    }

    /// What `reply` brings the write to. Each failure ends the write with its
    /// own error; after a coercion that failed the buffer is cleared first.
    /// An answer that the pending call cannot have changes nothing.
    pub open spec fn next(self, reply: ReplyView) -> WriteStepView {
        match self.stage {
            WriteStage::Resolving => match resolution(reply) {
                Some(Ok(key)) => WriteStepView::Pending(self.at(WriteStage::Building(key))),
                Some(Err(error)) => WriteStepView::Finished(Err(PropError::of_lookup(error))),
                None => WriteStepView::Pending(self),
            },
            WriteStage::Building(key) => match reply {
                ReplyView::Done => WriteStepView::Pending(self.at(WriteStage::Coercing(key))),
                ReplyView::Failed(code) => WriteStepView::Finished(
                    Err(PropError::EncodeFailed(code)),
                ),
                _ => WriteStepView::Pending(self),
            },
            WriteStage::Coercing(key) => match reply {
                ReplyView::Done => WriteStepView::Pending(self.at(WriteStage::Storing(key))),
                ReplyView::Failed(code) => WriteStepView::Pending(
                    self.at(WriteStage::Discarding(code)),
                ),
                _ => WriteStepView::Pending(self),
            },
            WriteStage::Storing(_) => match reply {
                ReplyView::Done => WriteStepView::Finished(Ok(())),
                ReplyView::Failed(code) => WriteStepView::Finished(
                    Err(PropError::WriteFailed(code)),
                ),
                _ => WriteStepView::Pending(self),
            },
            WriteStage::Discarding(code) => match reply {
                ReplyView::Done | ReplyView::Failed(_) => WriteStepView::Finished(
                    Err(PropError::CoercionFailed(code)),
                ),
                _ => WriteStepView::Pending(self),
            },
        }
    }

    /// What the write has come to after the answers `replies`, each given to
    /// the call that was pending when it came.
    pub open spec fn after(self, replies: Seq<ReplyView>) -> WriteStepView
        decreases replies.len(),
    {
        if replies.len() == 0 {
            WriteStepView::Pending(self)
        } else {
            match self.next(replies[0]) {
                WriteStepView::Pending(later) => later.after(replies.skip(1)),
                ended => ended,
            }
        }
    }

    /// What is held after the same answers, where `held` was held before:
    /// each call that was made, settled with its answer in turn.
    pub open spec fn account(self, held: Holdings, replies: Seq<ReplyView>) -> Holdings
        decreases replies.len(),
    {
        if replies.len() == 0 {
            held
        } else {
            let settled = settle(held, self.pending(), replies[0]);
            match self.next(replies[0]) {
                WriteStepView::Pending(later) => later.account(settled, replies.skip(1)),
                _ => settled,
            }
        }
    }

    /// The most calls that are still to be answered before the write ends.
    pub open spec fn calls_left(self) -> nat {
        match self.stage {
            WriteStage::Resolving => 4,
            WriteStage::Building(_) => 3,
            WriteStage::Coercing(_) => 2,
            WriteStage::Storing(_) => 1,
            WriteStage::Discarding(_) => 1,
        }
    }
}

impl WriteStepView {
    /// What is held after the step.
    pub open spec fn held(self) -> Holdings {
        match self {
            WriteStepView::Pending(writing) => writing.held(),
            WriteStepView::Finished(_) => nothing(),
        }
    }
}

impl Writing {
    /// The write of `value` to the property `name`, before its first call.
    pub(crate) fn start(name: Vec<u16>, value: PropVariant) -> (writing: Self)
        ensures
            writing@ == WritingView::start(name@, value@),
    {
        Writing { name, value, stage: WriteStage::Resolving }
    }

    /// The call to make now.
    pub fn request(&self) -> (call: HostCall)
        ensures
            call@ == self@.pending(),
    {
        match self.stage {
            WriteStage::Resolving => HostCall::ResolveKey {
                name: slice_to_vec(self.name.as_slice()),
            },
            WriteStage::Building(_) => HostCall::BuildValue { value: self.value.duplicate() },
            WriteStage::Coercing(key) => HostCall::CoerceValue { key },
            WriteStage::Storing(key) => HostCall::WriteValue { key },
            WriteStage::Discarding(_) => HostCall::ClearBuffer,
        }
    }

    /// Takes the host's answer to the pending call.
    pub fn advance(self, reply: HostReply) -> (step: WriteStep)
        ensures
            step@ == self@.next(reply@),
    {
        let Writing { name, value, stage } = self;
        match stage {
            WriteStage::Resolving => match resolve(&reply) {
                Some(Ok(key)) => WriteStep::Pending(
                    Writing { name, value, stage: WriteStage::Building(key) },
                ),
                Some(Err(error)) => WriteStep::Finished(Err(PropError::from_lookup(error))),
                None => WriteStep::Pending(Writing { name, value, stage }),
            },
            WriteStage::Building(key) => match reply {
                HostReply::Done => WriteStep::Pending(
                    Writing { name, value, stage: WriteStage::Coercing(key) },
                ),
                HostReply::Failed(code) => WriteStep::Finished(Err(PropError::EncodeFailed(code))),
                _ => WriteStep::Pending(Writing { name, value, stage }),
            },
            WriteStage::Coercing(key) => match reply {
                HostReply::Done => WriteStep::Pending(
                    Writing { name, value, stage: WriteStage::Storing(key) },
                ),
                HostReply::Failed(code) => WriteStep::Pending(
                    Writing { name, value, stage: WriteStage::Discarding(code) },
                ),
                _ => WriteStep::Pending(Writing { name, value, stage }),
            },
            WriteStage::Storing(_) => match reply {
                HostReply::Done => WriteStep::Finished(Ok(())),
                HostReply::Failed(code) => WriteStep::Finished(Err(PropError::WriteFailed(code))),
                _ => WriteStep::Pending(Writing { name, value, stage }),
            },
            WriteStage::Discarding(code) => match reply {
                HostReply::Done | HostReply::Failed(_) => WriteStep::Finished(
                    Err(PropError::CoercionFailed(code)),
                ),
                _ => WriteStep::Pending(Writing { name, value, stage }),
            },
        }
    }
}

/// Every step of a read keeps account of the buffer: it is held from the
/// fetch that succeeded to the call that clears it, and a read that has
/// ended holds none. The buffer is never fetched into while it is held, and
/// never cleared while it is not.
pub proof fn lemma_read_keeps_account(reading: ReadingView, reply: ReplyView)
    ensures
        reading.next(reply).held() == settle(reading.held(), reading.pending(), reply),
        acquires(reading.pending()).buffer ==> !reading.held().buffer,
        releases(reading.pending()).buffer ==> reading.held().buffer,
{
}

/// Whatever the host answers, a read is balanced. Settling every call that
/// was made with its answer, from no buffer held, gives what the read says is
/// held, and a read that has ended, with a value or with an error, holds no
/// buffer: one that was fetched into was cleared.
pub proof fn lemma_read_is_balanced(name: Seq<u16>, shape: Shape, replies: Seq<ReplyView>)
    ensures
        ({
            let start = ReadingView::start(name, shape);
            let held = start.account(nothing(), replies);
            &&& start.after(replies).held() == held
            &&& !(start.after(replies) is Pending) ==> held == nothing()
        }),
{
    lemma_read_account(ReadingView::start(name, shape), replies);
}

/// The account of a read from any stage on.
proof fn lemma_read_account(reading: ReadingView, replies: Seq<ReplyView>)
    ensures
        reading.after(replies).held() == reading.account(reading.held(), replies),
    decreases replies.len(),
{
    if replies.len() > 0 {
        lemma_read_keeps_account(reading, replies[0]);
        match reading.next(replies[0]) {
            ReadStepView::Pending(later) => {
                lemma_read_account(later, replies.skip(1));
            },
            _ => {},
        }
    }
}

/// Every answer that the pending call can have brings a read nearer to its
/// end, in no more than four calls; any other answer leaves it as it is.
pub proof fn lemma_read_ends(reading: ReadingView, reply: ReplyView)
    ensures
        reading.calls_left() <= 4,
        answers(reading.pending(), reply) ==> (reading.next(reply) matches ReadStepView::Pending(
            later,
        ) ==> later.calls_left() < reading.calls_left()),
        !answers(reading.pending(), reply) ==> reading.next(reply) == ReadStepView::Pending(
            reading,
        ),
{
}

/// Reading is lenient: once the value was fetched, no answer fails the read.
/// A conversion that fails reads as an empty buffer.
pub proof fn lemma_read_fails_only_early(reading: ReadingView, reply: ReplyView)
    ensures
        reading.held().buffer ==> !(reading.next(reply) is Failed),
        reading.stage is Converting && reply is Failed ==> reading.next(reply)
            == ReadStepView::Pending(reading.at(ReadStage::Releasing(VariantView::Empty))),
{
}

/// What a read comes to where the name resolves, the value is fetched, the
/// conversion answers `converted` and the buffer is cleared: the content that
/// the conversion gave, and an empty buffer where the conversion failed.
pub proof fn lemma_read_runs(
    name: Seq<u16>,
    shape: Shape,
    key: PropertyKey,
    converted: ReplyView,
)
    requires
        converted is Value || converted is Failed,
    ensures
        ReadingView::start(name, shape).after(
            seq![ReplyView::Key(key), ReplyView::Done, converted, ReplyView::Done],
        ) == ReadStepView::Read(
            match converted {
                ReplyView::Value(value) => value,
                _ => VariantView::Empty,
            },
        ),
{
    let replies = seq![ReplyView::Key(key), ReplyView::Done, converted, ReplyView::Done];
    let value = match converted {
        ReplyView::Value(value) => value,
        _ => VariantView::Empty,
    };
    let resolving = ReadingView::start(name, shape);
    let fetching = resolving.at(ReadStage::Fetching(key));
    let converting = resolving.at(ReadStage::Converting);
    let releasing = resolving.at(ReadStage::Releasing(value));
    let after_one = replies.skip(1);
    let after_two = after_one.skip(1);
    let after_three = after_two.skip(1);
    assert(after_one[0] == replies[1]);
    assert(after_two[0] == replies[2]);
    assert(after_three[0] == replies[3]);
    assert(resolving.next(replies[0]) == ReadStepView::Pending(fetching));
    assert(fetching.next(replies[1]) == ReadStepView::Pending(converting));
    assert(converting.next(replies[2]) == ReadStepView::Pending(releasing));
    assert(releasing.next(replies[3]) == ReadStepView::Read(value));
    assert(releasing.after(after_three) == ReadStepView::Read(value));
    assert(converting.after(after_two) == releasing.after(after_three));
    assert(fetching.after(after_one) == converting.after(after_two));
}

/// A property that is absent reads as the default of its type: the empty
/// string, 0, no strings. The host says that a buffer holds no such value by
/// handing back the default that the conversion named, or by failing the
/// conversion. Either way the read ends, and with the default.
pub proof fn lemma_absent_reads_default(name: Seq<u16>, key: PropertyKey, code: i32, shape: Shape)
    ensures
        ReadingView::conversion(Shape::Text) == (CallView::ConvertText { default_text: Seq::empty() }),
        ReadingView::conversion(Shape::Number) == (CallView::ConvertNumber { default_number: 0 }),
        ({
            let absent = seq![
                ReplyView::Key(key),
                ReplyView::Done,
                ReplyView::Value(VariantView::Text(Seq::empty())),
                ReplyView::Done,
            ];
            ReadingView::start(name, Shape::Text).after(absent) matches ReadStepView::Read(prop)
                && decode_string(prop) == Seq::<char>::empty()
        }),
        ({
            let absent = seq![
                ReplyView::Key(key),
                ReplyView::Done,
                ReplyView::Value(VariantView::Number(0)),
                ReplyView::Done,
            ];
            ReadingView::start(name, Shape::Number).after(absent) matches ReadStepView::Read(prop)
                && decode_u32(prop) == 0
        }),
        ({
            let failed = seq![
                ReplyView::Key(key),
                ReplyView::Done,
                ReplyView::Failed(code),
                ReplyView::Done,
            ];
            ReadingView::start(name, shape).after(failed) matches ReadStepView::Read(prop)
                && decode_string(prop) == Seq::<char>::empty() && decode_u32(prop) == 0
                && decode_string_vector(prop) == Seq::<Seq<char>>::empty()
        }),
{
    lemma_read_runs(name, Shape::Text, key, ReplyView::Value(VariantView::Text(Seq::empty())));
    lemma_read_runs(name, Shape::Number, key, ReplyView::Value(VariantView::Number(0)));
    lemma_read_runs(name, shape, key, ReplyView::Failed(code));
}

/// Every step of a write keeps account of the buffer: it is held from the
/// construction that succeeded until it is handed to the store or cleared,
/// and a write that has ended holds none. The buffer is never built while it
/// is held, and never handed over or cleared while it is not.
pub proof fn lemma_write_keeps_account(writing: WritingView, reply: ReplyView)
    ensures
        writing.next(reply).held() == settle(writing.held(), writing.pending(), reply),
        acquires(writing.pending()).buffer ==> !writing.held().buffer,
        releases(writing.pending()).buffer ==> writing.held().buffer,
{
}

/// Whatever the host answers, a write is balanced. Settling every call that
/// was made with its answer, from no buffer held, gives what the write says
/// is held, and a write that has ended holds no buffer: one that was built
/// was handed to the store or cleared.
pub proof fn lemma_write_is_balanced(name: Seq<u16>, value: VariantView, replies: Seq<ReplyView>)
    ensures
        ({
            let start = WritingView::start(name, value);
            let held = start.account(nothing(), replies);
            &&& start.after(replies).held() == held
            &&& start.after(replies) is Finished ==> held == nothing()
        }),
{
    lemma_write_account(WritingView::start(name, value), replies);
}

/// The account of a write from any stage on.
proof fn lemma_write_account(writing: WritingView, replies: Seq<ReplyView>)
    ensures
        writing.after(replies).held() == writing.account(writing.held(), replies),
    decreases replies.len(),
{
    if replies.len() > 0 {
        lemma_write_keeps_account(writing, replies[0]);
        match writing.next(replies[0]) {
            WriteStepView::Pending(later) => {
                lemma_write_account(later, replies.skip(1));
            },
            _ => {},
        }
    }
}

/// Every answer that the pending call can have brings a write nearer to its
/// end, in no more than four calls; any other answer leaves it as it is.
pub proof fn lemma_write_ends(writing: WritingView, reply: ReplyView)
    ensures
        writing.calls_left() <= 4,
        answers(writing.pending(), reply) ==> (writing.next(reply) matches WriteStepView::Pending(
            later,
        ) ==> later.calls_left() < writing.calls_left()),
        !answers(writing.pending(), reply) ==> writing.next(reply) == WriteStepView::Pending(
            writing,
        ),
{
}

/// Writing is strict: a write ends well only where the store took the value,
/// and every call that fails ends it with an error.
pub proof fn lemma_write_is_strict(writing: WritingView, reply: ReplyView)
    ensures
        writing.next(reply) == WriteStepView::Finished(Ok(())) ==> writing.stage is Storing
            && reply is Done,
        answers(writing.pending(), reply) && reply is Failed ==> (writing.next(reply)
            matches WriteStepView::Finished(outcome) ==> outcome is Err),
        answers(writing.pending(), reply) && reply is Failed ==> (writing.next(reply)
            matches WriteStepView::Pending(later) ==> later.stage is Discarding),
{
}

/// What a write comes to where every call succeeds: the value is staged, and
/// the buffer that the host built was made from the value that was written.
pub proof fn lemma_write_runs(name: Seq<u16>, value: VariantView, key: PropertyKey)
    ensures
        WritingView::start(name, value).after(
            seq![ReplyView::Key(key), ReplyView::Done, ReplyView::Done, ReplyView::Done],
        ) == WriteStepView::Finished(Ok(())),
        WritingView::start(name, value).at(WriteStage::Building(key)).pending()
            == (CallView::BuildValue { value }),
{
    let replies = seq![ReplyView::Key(key), ReplyView::Done, ReplyView::Done, ReplyView::Done];
    let resolving = WritingView::start(name, value);
    let building = resolving.at(WriteStage::Building(key));
    let coercing = resolving.at(WriteStage::Coercing(key));
    let storing = resolving.at(WriteStage::Storing(key));
    let after_one = replies.skip(1);
    let after_two = after_one.skip(1);
    let after_three = after_two.skip(1);
    assert(after_one[0] == replies[1]);
    assert(after_two[0] == replies[2]);
    assert(after_three[0] == replies[3]);
    assert(resolving.next(replies[0]) == WriteStepView::Pending(building));
    assert(building.next(replies[1]) == WriteStepView::Pending(coercing));
    assert(coercing.next(replies[2]) == WriteStepView::Pending(storing));
    assert(storing.next(replies[3]) == WriteStepView::Finished(Ok(())));
    assert(storing.after(after_three) == WriteStepView::Finished(Ok(())));
    assert(coercing.after(after_two) == storing.after(after_three));
    assert(building.after(after_one) == coercing.after(after_two));
}

/// A string that is written and read back is the same string, whatever
/// characters it holds: where the conversion of a read hands back the content
/// that a write of `text` had the host build, the read ends with `text`.
pub proof fn lemma_written_string_reads_back(
    text: Seq<char>,
    name: Seq<u16>,
    key: PropertyKey,
    read_back: String,
)
    requires
        <String as FromPropVariant>::read_from(&read_back, VariantView::Text(encode_utf16(text))),
    ensures
        ({
            let built = VariantView::Text(encode_utf16(text));
            &&& WritingView::start(name, built).at(WriteStage::Building(key)).pending()
                == (CallView::BuildValue { value: built })
            &&& WritingView::start(name, built).after(
                seq![ReplyView::Key(key), ReplyView::Done, ReplyView::Done, ReplyView::Done],
            ) == WriteStepView::Finished(Ok(()))
            &&& ReadingView::start(name, Shape::Text).after(
                seq![ReplyView::Key(key), ReplyView::Done, ReplyView::Value(built), ReplyView::Done],
            ) == ReadStepView::Read(built)
            &&& read_back@ == text
        }),
{
    let built = VariantView::Text(encode_utf16(text));
    lemma_write_runs(name, built, key);
    lemma_read_runs(name, Shape::Text, key, ReplyView::Value(built));
    lemma_string_round_trip(text);
}

} // verus!
