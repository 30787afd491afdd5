//! The call stack that is kept for error reports.

use crate::errors::contexts::ContextType;
use crate::text::{decimal, decimal_text, texts};
use vstd::prelude::*;
use vstd::string::*;

verus! {

/// The maximum amount of calls that an [`ErrorContext`] keeps track of.
pub const MAX_THREAD_CALL_STACK: usize = 6;

/// A representation of the call stack.
#[derive(Debug, Clone, Copy)]
pub struct ErrorContext {
    /// The calls, the first made first. Slots that no call has taken hold
    /// [`Empty`](ContextType::Empty).
    pub calls: [ContextType; MAX_THREAD_CALL_STACK],
}

/// The number of calls before the first empty slot.
pub open spec fn depth(calls: Seq<ContextType>) -> nat
    decreases calls.len(),
{
    if calls.len() == 0 || calls[0] is Empty {
        0
    } else {
        1 + depth(calls.drop_first())
    }
}

/// The slots after `call` has been added: it takes the first empty slot, and is dropped where
/// there is none.
pub open spec fn with_call(calls: Seq<ContextType>, call: ContextType) -> Seq<ContextType> {
    if depth(calls) < calls.len() {
        calls.update(depth(calls) as int, call)
    } else {
        calls
    }
}

/// The slots after the calls of `added` have been added one after the other.
pub open spec fn with_calls(calls: Seq<ContextType>, added: Seq<ContextType>) -> Seq<ContextType>
    decreases added.len(),
{
    if added.len() == 0 {
        calls
    } else {
        with_call(with_calls(calls, added.drop_last()), added.last())
    }
}

/// The calls of `added`, in their order, without those that are none.
pub open spec fn made(added: Seq<ContextType>) -> Seq<ContextType>
    decreases added.len(),
{
    if added.len() == 0 {
        Seq::empty()
    } else if added.last() is Empty {
        made(added.drop_last())
    } else {
        made(added.drop_last()).push(added.last())
    }
}

/// Whether the calls stand in front of the empty slots.
pub open spec fn packed(calls: Seq<ContextType>) -> bool {
    forall|i: int| depth(calls) <= i < calls.len() ==> (#[trigger] calls[i]) is Empty
}

/// The slots of a blank call stack.
pub open spec fn blank() -> Seq<ContextType> {
    Seq::new(MAX_THREAD_CALL_STACK as nat, |i: int| ContextType::Empty)
}

/// A line of a shown call stack: its number, from one on, and the call.
pub open spec fn frame_text(index: int, shown: Seq<char>) -> Seq<char> {
    "\t\u{1b}[0;0m"@ + decimal_text((index + 1) as nat) + ". "@ + shown + "\n"@
}

/// A call stack whose calls are shown as `shown`.
pub open spec fn stack_text(shown: Seq<Seq<char>>) -> Seq<char>
    decreases shown.len(),
{
    if shown.len() == 0 {
        "Originating Thread(s)\n"@
    } else {
        stack_text(shown.drop_last()) + frame_text(shown.len() - 1, shown.last())
    }
}

/// Whether `shown` shows the calls of `calls`, one by one.
pub open spec fn all_shown(calls: Seq<ContextType>, shown: Seq<Seq<char>>) -> bool {
    &&& shown.len() == calls.len()
    &&& forall|i: int| 0 <= i < calls.len() ==> calls[i].shows_as(#[trigger] shown[i])
}

impl View for ErrorContext {
    type V = Seq<ContextType>;

    /// The calls before the first empty slot.
    open spec fn view(&self) -> Seq<ContextType> {
        self.calls@.take(depth(self.calls@) as int)
    }
}

impl ErrorContext {
    /// Whether `text` is a way to show the call stack.
    pub open spec fn shows_as(self, text: Seq<char>) -> bool {
        exists|shown: Seq<Seq<char>>| #[trigger]
            all_shown(self@, shown) && text == stack_text(shown)
    }

    /// Returns a new, blank [`ErrorContext`] containing only [`Empty`](ContextType::Empty) calls.
    pub fn new() -> (ctx: Self)
        ensures
            ctx.calls@ == blank(),
            ctx@ == Seq::<ContextType>::empty(),
    {
        let ctx = Self {
            calls: [
                ContextType::Empty,
                ContextType::Empty,
                ContextType::Empty,
                ContextType::Empty,
                ContextType::Empty,
                ContextType::Empty,
            ],
        };
        proof {
            assert(ctx.calls@ =~= blank());
            assert(ctx@ =~= Seq::<ContextType>::empty());
        }
        ctx
    }

    /// Returns `true` if there are only [`Empty`](ContextType::Empty) calls.
    pub fn is_empty(&self) -> (empty: bool)
        ensures
            empty == (self.calls@ == blank()),
    {
        let mut i: usize = 0;
        while i < MAX_THREAD_CALL_STACK
            invariant
                i <= MAX_THREAD_CALL_STACK,
                forall|j: int| 0 <= j < i ==> self.calls@[j] is Empty,
            decreases MAX_THREAD_CALL_STACK - i,
        {
            if self.calls[i] != ContextType::Empty {
                proof {
                    assert(blank()[i as int] is Empty);
                }
                return false;
            }
            i = i + 1;
        }
        proof {
            assert(self.calls@ =~= blank());
        }
        true
    }

    /// Adds a call to this [`ErrorContext`]'s call stack representation, and makes the outcome
    /// the current one.
    pub fn add_call(&mut self, call: ContextType, open_calls: &mut OpenCalls)
        ensures
            final(self).calls@ == with_call(old(self).calls@, call),
            *final(open_calls) == old(open_calls).updated(*final(self)),
    {
        let mut i: usize = 0;
        proof {
            assert(self.calls@.skip(0) =~= self.calls@);
        }
        while i < MAX_THREAD_CALL_STACK && self.calls[i] != ContextType::Empty
            invariant
                i <= MAX_THREAD_CALL_STACK,
                self.calls@ == old(self).calls@,
                depth(self.calls@) == i + depth(self.calls@.skip(i as int)),
            decreases MAX_THREAD_CALL_STACK - i,
        {
            proof {
                assert(self.calls@.skip(i as int).drop_first() =~= self.calls@.skip(i + 1));
            }
            i = i + 1;
        }
        if i < MAX_THREAD_CALL_STACK {
            self.calls[i] = call;
        }
        self.update_thread_ctx(open_calls);
    }

    /// Makes this the current [`ErrorContext`]: that of the running task, or that of the thread
    /// where no task is running.
    pub fn update_thread_ctx(&self, open_calls: &mut OpenCalls)
        ensures
            *final(open_calls) == old(open_calls).updated(*self),
    {
        if open_calls.task.is_some() {
            open_calls.task = Some(*self);
        } else {
            open_calls.thread = *self;
        }
    }

    /// Shows the call stack: a heading, and a line for each call before the first empty slot.
    pub fn to_string(&self) -> (text: String)
        ensures
            self.shows_as(text@),
    {
        let mut shown: Vec<String> = Vec::new();
        let mut i: usize = 0;
        proof {
            assert(self.calls@.skip(0) =~= self.calls@);
        }
        while i < MAX_THREAD_CALL_STACK && self.calls[i] != ContextType::Empty
            invariant
                i <= MAX_THREAD_CALL_STACK,
                depth(self.calls@) == i + depth(self.calls@.skip(i as int)),
                shown@.len() == i,
                forall|j: int| 0 <= j < i ==> self.calls@[j].shows_as(#[trigger] shown@[j]@),
            decreases MAX_THREAD_CALL_STACK - i,
        {
            proof {
                assert(self.calls@.skip(i as int).drop_first() =~= self.calls@.skip(i + 1));
            }
            shown.push(self.calls[i].to_string());
            i = i + 1;
        }
        proof {
            assert(depth(self.calls@) == i);
            assert(all_shown(self@, texts(shown@)));
        }
        show_stack(&shown)
    }
}

impl Default for ErrorContext {
    fn default() -> (ctx: Self)
        ensures
            ctx.calls@ == blank(),
            ctx@ == Seq::<ContextType>::empty(),
    {
        Self::new()
    }
}

/// Builds a shown call stack from its shown calls.
pub fn show_stack(shown: &Vec<String>) -> (text: String)
    ensures
        text@ == stack_text(texts(shown@)),
{
    let mut text = "Originating Thread(s)\n".to_owned();
    let mut i: usize = 0;
    proof {
        assert(texts(shown@).take(0) =~= Seq::<Seq<char>>::empty());
    }
    while i < shown.len()
        invariant
            i <= shown@.len(),
            text@ == stack_text(texts(shown@).take(i as int)),
        decreases shown@.len() - i,
    {
        let mut frame = "\t\u{1b}[0;0m".to_owned();
        frame.append(decimal(i as u64 + 1).as_str());
        frame.append(". ");
        frame.append(shown[i].as_str());
        frame.append("\n");
        text.append(frame.as_str());
        i = i + 1;
        proof {
            let done = texts(shown@).take(i as int);
            assert(done.drop_last() =~= texts(shown@).take(i - 1));
            assert(done.last() == shown@[i - 1]@);
        }
    }
    proof {
        assert(texts(shown@).take(i as int) =~= texts(shown@));
    }
    text
}

/// Where the current [`ErrorContext`] of a thread is kept.
#[derive(Debug, Clone, Copy)]
pub struct OpenCalls {
    /// The context of the task that the thread is running, where it is running one.
    pub task: Option<ErrorContext>,
    /// The context of the thread.
    pub thread: ErrorContext,
}

impl OpenCalls {
    /// The current context.
    pub open spec fn current(self) -> ErrorContext {
        match self.task {
            Some(ctx) => ctx,
            None => self.thread,
        }
    }

    /// What is kept after `ctx` has been made the current context.
    pub open spec fn updated(self, ctx: ErrorContext) -> OpenCalls {
        match self.task {
            Some(_) => OpenCalls { task: Some(ctx), thread: self.thread },
            None => OpenCalls { task: None, thread: ctx },
        }
    }
}

/// Returns the current [`ErrorContext`]: that of the running task, or that of the thread where
/// no task is running.
pub fn get_current_ctx(open_calls: &OpenCalls) -> (ctx: ErrorContext)
    ensures
        ctx == open_calls.current(),
{
    match open_calls.task {
        Some(ctx) => ctx,
        None => open_calls.thread,
    }
}

/// Facts about where the first empty slot is.
proof fn lemma_depth(calls: Seq<ContextType>)
    ensures
        depth(calls) <= calls.len(),
        forall|i: int| 0 <= i < depth(calls) ==> !((#[trigger] calls[i]) is Empty),
        depth(calls) < calls.len() ==> calls[depth(calls) as int] is Empty,
    decreases calls.len(),
{
    if calls.len() > 0 && !(calls[0] is Empty) {
        let rest = calls.drop_first();
        lemma_depth(rest);
        assert forall|i: int| 0 <= i < depth(calls) implies !((#[trigger] calls[i]) is Empty) by {
            if i > 0 {
                assert(calls[i] == rest[i - 1]);
            }
        }
    }
}

/// The first empty slot is the only place that has calls before it and none in it.
proof fn lemma_depth_is(calls: Seq<ContextType>, n: nat)
    requires
        n <= calls.len(),
        forall|i: int| 0 <= i < n ==> !((#[trigger] calls[i]) is Empty),
        n < calls.len() ==> calls[n as int] is Empty,
    ensures
        depth(calls) == n,
{
    lemma_depth(calls);
    let d = depth(calls);
    if d < n {
        assert(calls[d as int] is Empty);
    } else if n < d {
        assert(!(calls[n as int] is Empty));
    }
}

/// What is made current is what is then current, and a thread that runs no task runs none after.
pub proof fn law_update_then_read(open_calls: OpenCalls, ctx: ErrorContext)
    ensures
        open_calls.updated(ctx).current() == ctx,
        open_calls.updated(ctx).task is Some <==> open_calls.task is Some,
{
}

/// What a task makes current leaves the context of its thread as it was.
pub proof fn law_task_leaves_thread(open_calls: OpenCalls, ctx: ErrorContext)
    requires
        open_calls.task is Some,
    ensures
        open_calls.updated(ctx).thread == open_calls.thread,
{
}

/// Adding a call changes none of the calls before the first empty slot, nor the number of slots.
pub proof fn law_added_call_keeps_earlier_calls(calls: Seq<ContextType>, call: ContextType)
    ensures
        with_call(calls, call).len() == calls.len(),
        with_call(calls, call).take(depth(calls) as int) == calls.take(depth(calls) as int),
{
    lemma_depth(calls);
    assert(with_call(calls, call).take(depth(calls) as int) =~= calls.take(depth(calls) as int));
}

/// Where every slot is taken, an added call is dropped.
pub proof fn law_full_stack_drops_calls(calls: Seq<ContextType>, call: ContextType)
    requires
        forall|i: int| 0 <= i < calls.len() ==> !((#[trigger] calls[i]) is Empty),
    ensures
        with_call(calls, call) == calls,
{
    lemma_depth_is(calls, calls.len());
}

/// Adding no call changes nothing.
pub proof fn law_adding_no_call_changes_nothing(calls: Seq<ContextType>)
    ensures
        with_call(calls, ContextType::Empty) == calls,
{
    lemma_depth(calls);
    assert(with_call(calls, ContextType::Empty) =~= calls);
}

/// A call added to packed slots comes last among the calls, and the slots stay packed.
pub proof fn law_added_call_comes_last(calls: Seq<ContextType>, call: ContextType)
    requires
        packed(calls),
        depth(calls) < calls.len(),
        !(call is Empty),
    ensures
        packed(with_call(calls, call)),
        depth(with_call(calls, call)) == depth(calls) + 1,
        with_call(calls, call).take((depth(calls) + 1) as int) == calls.take(
            depth(calls) as int,
        ).push(call),
{
    let d = depth(calls);
    let after = with_call(calls, call);
    lemma_depth(calls);
    assert forall|i: int| d + 1 <= i < after.len() implies (#[trigger] after[i]) is Empty by {
        assert(after[i] == calls[i]);
    }
    lemma_depth_is(after, d + 1);
    assert(after.take((d + 1) as int) =~= calls.take(d as int).push(call));
}

/// A blank call stack has no call and is packed.
pub proof fn law_blank_is_packed()
    ensures
        depth(blank()) == 0,
        packed(blank()),
{
}

/// Packed slots hold no call exactly where all of them are empty.
pub proof fn law_packed_without_calls_is_blank(calls: Seq<ContextType>)
    requires
        packed(calls),
        calls.len() == MAX_THREAD_CALL_STACK,
    ensures
        depth(calls) == 0 <==> calls == blank(),
{
    if depth(calls) == 0 {
        assert(calls =~= blank());
    }
}

/// A call stack that starts blank holds the calls that were made, in their order, up to six. Those
/// that came after that are dropped.
pub proof fn law_first_calls_are_kept(added: Seq<ContextType>)
    ensures
        ({
            let slots = with_calls(blank(), added);
            let kept = if made(added).len() < 6 {
                made(added)
            } else {
                made(added).take(6)
            };
            &&& slots.len() == 6
            &&& packed(slots)
            &&& slots.take(depth(slots) as int) == kept
        }),
    decreases added.len(),
{
    let slots = with_calls(blank(), added);
    if added.len() == 0 {
        assert(slots.take(0) =~= made(added));
    } else {
        let earlier = made(added.drop_last());
        let before = with_calls(blank(), added.drop_last());
        law_first_calls_are_kept(added.drop_last());
        lemma_depth(before);
        assert(before.take(depth(before) as int).len() == depth(before));
        if added.last() is Empty {
            law_adding_no_call_changes_nothing(before);
        } else if depth(before) < before.len() {
            law_added_call_comes_last(before, added.last());
            assert(made(added).take(made(added).len() as int) =~= made(added));
        } else {
            assert(earlier.take(6) =~= made(added).take(6));
        }
    }
}

/// Whether `n` is the number of calls before the first empty slot of `calls`, which may be the end.
pub open spec fn stops_at(calls: Seq<ContextType>, n: int) -> bool {
    &&& 0 <= n <= calls.len()
    &&& forall|i: int| 0 <= i < n ==> !((#[trigger] calls[i]) is Empty)
    &&& n < calls.len() ==> calls[n] is Empty
}

/// An added call takes the first empty slot and leaves all other slots as they were.
pub proof fn law_added_call_takes_the_first_empty_slot(
    calls: Seq<ContextType>,
    call: ContextType,
    n: int,
)
    requires
        stops_at(calls, n),
        n < calls.len(),
    ensures
        with_call(calls, call).len() == calls.len(),
        with_call(calls, call)[n] == call,
        forall|i: int|
            0 <= i < calls.len() && i != n ==> #[trigger] with_call(calls, call)[i] == calls[i],
{
    lemma_depth_is(calls, n as nat);
}

/// The view of a call stack holds the calls before its first empty slot, in their order.
pub proof fn law_view_holds_the_calls_before_the_first_gap(ctx: ErrorContext, n: int)
    requires
        stops_at(ctx.calls@, n),
    ensures
        ctx@.len() == n,
        forall|i: int| 0 <= i < n ==> #[trigger] ctx@[i] == ctx.calls@[i],
{
    lemma_depth_is(ctx.calls@, n as nat);
}

/// Calls that are added one after the other are added to the outcome of adding those before them,
/// and those of them that are calls are the calls that were made.
pub proof fn law_calls_are_added_in_turn(
    calls: Seq<ContextType>,
    added: Seq<ContextType>,
    call: ContextType,
)
    ensures
        with_calls(calls, seq![]) == calls,
        with_calls(calls, added.push(call)) == with_call(with_calls(calls, added), call),
        made(seq![]) == Seq::<ContextType>::empty(),
        made(added.push(ContextType::Empty)) == made(added),
        !(call is Empty) ==> made(added.push(call)) == made(added).push(call),
{
    assert(added.push(call).drop_last() =~= added);
    assert(added.push(ContextType::Empty).drop_last() =~= added);
}

/// A new call stack has six slots, all of them empty.
pub proof fn law_new_call_stack_is_empty(ctx: ErrorContext)
    requires
        call_ensures(ErrorContext::new, (), ctx),
    ensures
        ctx.calls@.len() == 6,
        forall|i: int| 0 <= i < 6 ==> (#[trigger] ctx.calls@[i]) is Empty,
{
    assert forall|i: int| 0 <= i < 6 implies (#[trigger] ctx.calls@[i]) is Empty by {
        assert(blank()[i] is Empty);
    }
}

/// A call stack is empty where none of its slots holds a call, wherever that stands.
pub proof fn law_empty_call_stack_holds_no_call(ctx: ErrorContext, empty: bool)
    requires
        call_ensures(ErrorContext::is_empty, (&ctx,), empty),
    ensures
        empty <==> forall|i: int| 0 <= i < ctx.calls@.len() ==> (#[trigger] ctx.calls@[i]) is Empty,
        ctx.calls@ == blank() <==> empty,
{
    if forall|i: int| 0 <= i < ctx.calls@.len() ==> (#[trigger] ctx.calls@[i]) is Empty {
        assert(ctx.calls@ =~= blank());
    }
    if ctx.calls@ == blank() {
        assert forall|i: int| 0 <= i < ctx.calls@.len() implies (#[trigger] ctx.calls@[i]) is
            Empty by {
            assert(blank()[i] is Empty);
        }
    }
}

/// The current context is that of the task where a task is running, and that of the thread where
/// none is.
pub proof fn law_task_comes_before_thread(open_calls: OpenCalls, ctx: ErrorContext)
    requires
        call_ensures(get_current_ctx, (&open_calls,), ctx),
    ensures
        open_calls.task is Some ==> ctx == open_calls.task->0,
        open_calls.task is None ==> ctx == open_calls.thread,
        open_calls.current() == ctx,
{
}

/// What is made current is kept where the current context was read from, and nowhere else.
pub proof fn law_update_keeps_the_rest(open_calls: OpenCalls, ctx: ErrorContext)
    ensures
        open_calls.task is Some ==> open_calls.updated(ctx).task == Some(ctx)
            && open_calls.updated(ctx).thread == open_calls.thread,
        open_calls.task is None ==> open_calls.updated(ctx).task is None && open_calls.updated(
            ctx,
        ).thread == ctx,
{
}

/// A shown call stack without calls is its heading, and each call more adds a line with its number
/// to it.
pub proof fn law_shown_stack_has_a_line_for_each_call(shown: Seq<Seq<char>>, call: Seq<char>)
    ensures
        stack_text(seq![]) == "Originating Thread(s)\n"@,
        stack_text(shown.push(call)) == stack_text(shown) + "\t\u{1b}[0;0m"@ + decimal_text(
            shown.len() + 1,
        ) + ". "@ + call + "\n"@,
{
    assert(shown.push(call).drop_last() =~= shown);
    assert(stack_text(shown.push(call)) =~= stack_text(shown) + "\t\u{1b}[0;0m"@ + decimal_text(
        shown.len() + 1,
    ) + ". "@ + call + "\n"@);
}

/// However many calls are shown, showing one more goes on with its line where the others end.
pub proof fn law_showing_goes_on_with_each_call(
    shown: Vec<String>,
    longer: Vec<String>,
    text: String,
    longer_text: String,
)
    requires
        longer@.len() == shown@.len() + 1,
        forall|i: int| 0 <= i < shown@.len() ==> #[trigger] longer@[i]@ == shown@[i]@,
        call_ensures(show_stack, (&shown,), text),
        call_ensures(show_stack, (&longer,), longer_text),
    ensures
        longer_text@ == text@ + "\t\u{1b}[0;0m"@ + decimal_text(longer@.len()) + ". "@
            + longer@.last()@ + "\n"@,
{
    law_shown_stack_has_a_line_for_each_call(texts(shown@), longer@.last()@);
    assert(texts(longer@) =~= texts(shown@).push(longer@.last()@));
}

/// A call stack without a call in its first slot shows as its heading alone.
pub proof fn law_stack_without_calls_shows_its_heading(ctx: ErrorContext, text: Seq<char>)
    requires
        stops_at(ctx.calls@, 0),
    ensures
        ctx.shows_as(text) <==> text == "Originating Thread(s)\n"@,
{
    law_view_holds_the_calls_before_the_first_gap(ctx, 0);
    law_shown_stack_has_a_line_for_each_call(seq![], seq![]);
    assert(all_shown(ctx@, seq![]));
    if ctx.shows_as(text) {
        let shown = choose|shown: Seq<Seq<char>>| #[trigger]
            all_shown(ctx@, shown) && text == stack_text(shown);
        assert(shown =~= seq![]);
    }
}

/// A call stack that has one call more than another shows as the other does, and a line for that
/// call behind it: its number, and a way to show it. No call is left out, however many come before
/// it.
pub proof fn law_each_call_adds_a_line(
    ctx: ErrorContext,
    longer: ErrorContext,
    n: int,
    text: Seq<char>,
)
    requires
        stops_at(ctx.calls@, n),
        stops_at(longer.calls@, n + 1),
        forall|i: int| 0 <= i < n ==> #[trigger] longer.calls@[i] == ctx.calls@[i],
    ensures
        longer.shows_as(text) <==> exists|shorter: Seq<char>, call: Seq<char>|
            #![trigger ctx.shows_as(shorter), longer.calls@[n].shows_as(call)]
            ctx.shows_as(shorter) && longer.calls@[n].shows_as(call) && text == shorter
                + "\t\u{1b}[0;0m"@ + decimal_text((n + 1) as nat) + ". "@ + call + "\n"@,
{
    law_view_holds_the_calls_before_the_first_gap(ctx, n);
    law_view_holds_the_calls_before_the_first_gap(longer, n + 1);
    if longer.shows_as(text) {
        let shown = choose|shown: Seq<Seq<char>>| #[trigger]
            all_shown(longer@, shown) && text == stack_text(shown);
        let earlier = shown.drop_last();
        let call = shown.last();
        assert(shown =~= earlier.push(call));
        law_shown_stack_has_a_line_for_each_call(earlier, call);
        assert(all_shown(ctx@, earlier)) by {
            assert forall|i: int| 0 <= i < n implies ctx@[i].shows_as(#[trigger] earlier[i]) by {
                assert(longer@[i].shows_as(shown[i]));
                assert(ctx@[i] == ctx.calls@[i]);
                assert(longer@[i] == longer.calls@[i]);
            }
        }
        assert(longer@[n].shows_as(shown[n]));
        assert(longer@[n] == longer.calls@[n]);
        assert(ctx.shows_as(stack_text(earlier)));
        assert(longer.calls@[n].shows_as(call));
    }
    if exists|shorter: Seq<char>, call: Seq<char>|
        #![trigger ctx.shows_as(shorter), longer.calls@[n].shows_as(call)]
        ctx.shows_as(shorter) && longer.calls@[n].shows_as(call) && text == shorter
            + "\t\u{1b}[0;0m"@ + decimal_text((n + 1) as nat) + ". "@ + call + "\n"@ {
        let (shorter, call) = choose|shorter: Seq<char>, call: Seq<char>|
            #![trigger ctx.shows_as(shorter), longer.calls@[n].shows_as(call)]
            ctx.shows_as(shorter) && longer.calls@[n].shows_as(call) && text == shorter
                + "\t\u{1b}[0;0m"@ + decimal_text((n + 1) as nat) + ". "@ + call + "\n"@;
        let earlier = choose|earlier: Seq<Seq<char>>| #[trigger]
            all_shown(ctx@, earlier) && shorter == stack_text(earlier);
        let shown = earlier.push(call);
        law_shown_stack_has_a_line_for_each_call(earlier, call);
        assert forall|i: int| 0 <= i < n + 1 implies longer@[i].shows_as(#[trigger] shown[i]) by {
            assert(longer@[i] == longer.calls@[i]);
            if i < n {
                assert(ctx@[i].shows_as(earlier[i]));
                assert(ctx@[i] == ctx.calls@[i]);
            }
        }
        assert(all_shown(longer@, shown));
    }
}

/// The text of a call stack holds a line for each call before the first empty slot and no other,
/// in their order and numbered from one on.
pub proof fn law_stack_shows_all_its_calls(ctx: ErrorContext, n: int, text: String)
    requires
        call_ensures(ErrorContext::to_string, (&ctx,), text),
        stops_at(ctx.calls@, n),
    ensures
        exists|shown: Seq<Seq<char>>|
            {
                &&& shown.len() == n
                &&& forall|i: int| 0 <= i < n ==> ctx.calls@[i].shows_as(#[trigger] shown[i])
                &&& text@ == #[trigger] stack_text(shown)
            },
{
    law_view_holds_the_calls_before_the_first_gap(ctx, n);
    let shown = choose|shown: Seq<Seq<char>>| #[trigger]
        all_shown(ctx@, shown) && text@ == stack_text(shown);
    assert forall|i: int| 0 <= i < n implies ctx.calls@[i].shows_as(#[trigger] shown[i]) by {
        assert(ctx@[i].shows_as(shown[i]));
        assert(ctx@[i] == ctx.calls@[i]);
    }
}

} // verus!
