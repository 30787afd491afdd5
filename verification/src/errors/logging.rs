//! What becomes of errors: they are logged, given up on, or handed on with what led to them.

use crate::errors::call_stack::ErrorContext;
use crate::outside::{
    can_be_shown, chain_readings, error_chain, error_from_text, error_with_context,
    readings_behind,
};
use crate::text::texts;
use vstd::prelude::*;
use vstd::string::*;

verus! {

/// The lines that are logged of the causes of an error.
pub open spec fn causes_text(causes: Seq<Seq<char>>) -> Seq<char>
    decreases causes.len(),
{
    if causes.len() == 0 {
        Seq::empty()
    } else {
        causes_text(causes.drop_last()) + "\nbecause: "@ + causes.last()
    }
}

/// The text that is logged of an error whose chain reads as `messages`: the error, and a line for
/// each of the causes behind it.
pub open spec fn error_text(messages: Seq<Seq<char>>) -> Seq<char>
    recommends
        messages.len() > 0,
{
    "ERROR: "@ + messages[0] + causes_text(messages.skip(1))
}

/// Whether `text` can be what is logged of `err`.
pub open spec fn logs_as(err: anyhow::Error, text: Seq<char>) -> bool {
    exists|reading: Seq<Seq<char>>| #[trigger]
        chain_readings(err).contains(reading) && reading.len() > 0 && text == error_text(reading)
}

/// Whether `text` can be what is logged of `err` with `context` put in front of it: the context,
/// and each error of the chain as a cause.
pub open spec fn logs_behind(context: Seq<char>, err: anyhow::Error, text: Seq<char>) -> bool {
    exists|reading: Seq<Seq<char>>| #[trigger]
        chain_readings(err).contains(reading) && reading.len() > 0 && text == "ERROR: "@ + context
            + causes_text(reading)
}

/// Whether `fun` has been handed a text that can be logged of `err`.
pub open spec fn handed_over<F: FnOnce(&str)>(fun: F, err: anyhow::Error) -> bool {
    exists|message: &str| #[trigger]
        call_ensures(fun, (message,), ()) && logs_as(err, message@)
}

/// What is put in front of an error that the program goes on after.
pub open spec fn non_fatal_text() -> Seq<char> {
    "a non-fatal error occured"@
}

/// What is put in front of an error that the program ends on.
pub open spec fn fatal_text() -> Seq<char> {
    "a fatal error occured"@
}

/// Builds the text that is logged of an error whose chain reads as `messages`.
pub fn error_message(messages: &Vec<String>) -> (message: String)
    requires
        messages@.len() > 0,
    ensures
        message@ == error_text(texts(messages@)),
{
    let ghost causes = texts(messages@).skip(1);
    let mut message = "ERROR: ".to_owned();
    message.append(messages[0].as_str());
    let ghost head = message@;
    let mut i: usize = 1;
    proof {
        assert(head + causes_text(causes.take(0)) =~= head);
    }
    while i < messages.len()
        invariant
            1 <= i <= messages@.len(),
            causes == texts(messages@).skip(1),
            message@ == head + causes_text(causes.take(i - 1)),
        decreases messages@.len() - i,
    {
        message.append("\nbecause: ");
        message.append(messages[i].as_str());
        proof {
            let logged = causes.take(i as int);
            assert(logged.drop_last() =~= causes.take(i - 1));
            assert(logged.last() == messages@[i as int]@);
            assert(message@ =~= head + causes_text(logged));
        }
        i = i + 1;
    }
    proof {
        assert(causes.take(i - 1) =~= causes);
    }
    message
}

/// Returns the text that is to be logged of a result: that of the error, or none where there is
/// no error.
pub fn log_message<T>(result: &Result<T, anyhow::Error>) -> (message: Option<String>)
    requires
        *result matches Err(err) ==> can_be_shown(err),
    ensures
        message is Some <==> *result is Err,
        message matches Some(message) ==> logs_as(result->Err_0, message@),
{
    match result {
        Ok(_) => None,
        Err(err) => {
            let messages = error_chain(err);
            let message = error_message(&messages);
            proof {
                assert(chain_readings(*err).contains(texts(messages@)));
            }
            Some(message)
        },
    }
}

/// Gives the text that is to be logged of a result to the closure `fun`, once, where there is an
/// error. The closure has to accept such a text and nothing else.
pub fn log_once<T, F: FnOnce(&str)>(result: &Result<T, anyhow::Error>, fun: F)
    requires
        *result matches Err(err) ==> can_be_shown(err),
        *result matches Err(err) ==> forall|message: &str|
            logs_as(err, message@) ==> #[trigger] call_requires(fun, (message,)),
    ensures
        *result matches Err(err) ==> handed_over(fun, err),
{
    if let Some(message) = log_message(result) {
        fun(message.as_str());
    }
}

/// Helper trait to easily log error types.
///
/// The error is passed through unmodified, so that calls can be chained with the usual handling
/// of results.
pub trait LoggableError<T>: Sized {
    /// Whether `message` can be what there is to log.
    spec fn may_log(self, message: Seq<char>) -> bool;

    /// Whether an error, where there is one, can be shown.
    spec fn can_be_logged(self) -> bool;

    /// Gives a formatted error message derived from `self` to the closure `fun` for printing or
    /// logging as appropriate. The closure has to accept such a message and nothing else, and is
    /// not called where there is no error.
    fn print_error<F: Fn(&str)>(self, fun: F) -> (same: Self)
        requires
            self.can_be_logged(),
            forall|message: &str|
                self.may_log(message@) ==> #[trigger] call_requires(fun, (message,)),
        ensures
            same == self,
    ;
}

impl<T> LoggableError<T> for Result<T, anyhow::Error> {
    open spec fn may_log(self, message: Seq<char>) -> bool {
        self is Err && logs_as(self->Err_0, message)
    }

    open spec fn can_be_logged(self) -> bool {
        self matches Err(err) ==> can_be_shown(err)
    }

    fn print_error<F: Fn(&str)>(self, fun: F) -> (same: Self)
        ensures
            self matches Err(err) ==> handed_over(fun, err),
    {
        log_once(&self, fun);
        self
    }
}

/// Special trait to mark fatal/non-fatal errors.
///
/// It makes clear whether an error can be ignored or ends the program.
pub trait FatalError<T>: Sized {
    /// Whether there is a value and no error.
    spec fn has_value(self) -> bool;

    /// Whether `message` can be what there is to log of an error that the program goes on after.
    spec fn may_log_non_fatal(self, message: Seq<char>) -> bool;

    /// Whether an error that the program goes on after, where there is one, can be shown.
    spec fn can_be_logged_non_fatal(self) -> bool;

    /// Mark results as being non-fatal.
    ///
    /// An error is given to `log`, once, and the result is discarded afterwards. The closure has to
    /// accept such a message and nothing else, and is not called where there is no error.
    fn non_fatal<F: FnOnce(&str)>(self, log: F)
        requires
            self.can_be_logged_non_fatal(),
            forall|message: &str|
                self.may_log_non_fatal(message@) ==> #[trigger] call_requires(log, (message,)),
    ;

    /// Mark results as being fatal: returns the value of one that has a value.
    fn fatal(self) -> (value: T)
        requires
            self.has_value(),
    ;
}

impl<T> FatalError<T> for Result<T, anyhow::Error> {
    open spec fn has_value(self) -> bool {
        self is Ok
    }

    open spec fn may_log_non_fatal(self, message: Seq<char>) -> bool {
        self is Err && logs_behind(non_fatal_text(), self->Err_0, message)
    }

    open spec fn can_be_logged_non_fatal(self) -> bool {
        self matches Err(err) ==> can_be_shown(err)
    }

    fn non_fatal<F: FnOnce(&str)>(self, log: F)
        ensures
            self matches Err(err) ==> exists|message: &str| #[trigger]
                call_ensures(log, (message,), ()) && logs_behind(non_fatal_text(), err, message@),
    {
        if let Err(err) = self {
            let ghost original = err;
            let wrapped: Result<T, anyhow::Error> = Err(
                error_with_context(err, "a non-fatal error occured".to_owned()),
            );
            proof {
                assert forall|message: &str| logs_as(wrapped->Err_0, message@) implies #[trigger]
                    call_requires(log, (message,)) by {
                    law_context_is_logged_first(
                        original,
                        non_fatal_text(),
                        wrapped->Err_0,
                        message@,
                    );
                }
            }
            log_once(&wrapped, log);
            proof {
                let message = choose|message: &str| #[trigger]
                    call_ensures(log, (message,), ()) && logs_as(wrapped->Err_0, message@);
                law_context_is_logged_first(
                    original,
                    non_fatal_text(),
                    wrapped->Err_0,
                    message@,
                );
            }
        }
    }

    fn fatal(self) -> (value: T)
        ensures
            self == Ok::<T, anyhow::Error>(value),
    {
        match self {
            Ok(value) => value,
            Err(_) => vstd::pervasive::unreached(),
        }
    }
}

/// Marks the error of a result as the one that the program ends on.
pub fn fatal_context<T>(result: Result<T, anyhow::Error>) -> (marked: Result<T, anyhow::Error>)
    ensures
        result is Ok ==> marked == result,
        result matches Err(err) ==> marked is Err && chain_readings(marked->Err_0)
            == readings_behind(fatal_text(), chain_readings(err)) && can_be_shown(marked->Err_0)
            == can_be_shown(err),
{
    match result {
        Ok(value) => Ok(value),
        Err(err) => Err(error_with_context(err, "a fatal error occured".to_owned())),
    }
}

/// A message that could not be sent to a channel.
pub struct SendFailure {
    /// What the message shows for debugging.
    pub message: String,
    /// The call stack that led to the message.
    pub context: ErrorContext,
}

impl SendFailure {
    /// What is said of the message.
    pub open spec fn text(self) -> Seq<char> {
        "failed to send message to channel: "@ + self.message@
    }
}

/// Helper trait to convert error types that don't satisfy `anyhow`s trait requirements to anyhow
/// errors.
pub trait ToAnyhow<U>: Sized {
    fn to_anyhow(self) -> Result<U, anyhow::Error>;
}

impl<U> ToAnyhow<U> for Result<U, SendFailure> {
    /// Makes an error of the message that could not be sent, with the call stack that led to it
    /// in front.
    fn to_anyhow(self) -> (converted: Result<U, anyhow::Error>)
        ensures
            self matches Ok(value) ==> converted == Ok::<U, anyhow::Error>(value),
            self matches Err(_) ==> converted is Err && can_be_shown(converted->Err_0),
            self matches Err(failure) ==> exists|shown: Seq<char>| #[trigger]
                failure.context.shows_as(shown) && chain_readings(converted->Err_0)
                    == set![seq![shown, failure.text()]],
    {
        match self {
            Ok(value) => Ok(value),
            Err(failure) => {
                let mut text = "failed to send message to channel: ".to_owned();
                text.append(failure.message.as_str());
                let shown = failure.context.to_string();
                let err = error_from_text(text);
                let wrapped = error_with_context(err, shown);
                proof {
                    let both = seq![shown@, failure.text()];
                    assert forall|reading: Seq<Seq<char>>|
                        chain_readings(wrapped).contains(reading) == (reading == both) by {
                        assert(both.skip(1) =~= seq![failure.text()]);
                        if chain_readings(wrapped).contains(reading) {
                            assert(reading.skip(1) == seq![failure.text()]);
                            assert(reading.skip(1)[0] == reading[1]);
                            assert(reading =~= both);
                        }
                    }
                    assert(chain_readings(wrapped) =~= set![both]);
                    assert(failure.context.shows_as(shown@));
                }
                Err(wrapped)
            },
        }
    }
}

/// What is logged of an error that `text` was put in front of: the text, and each error of the
/// chain that it was put in front of as a cause.
pub proof fn law_context_is_logged_first(
    err: anyhow::Error,
    text: Seq<char>,
    wrapped: anyhow::Error,
    logged: Seq<char>,
)
    requires
        chain_readings(wrapped) == readings_behind(text, chain_readings(err)),
    ensures
        logs_as(wrapped, logged) <==> logs_behind(text, err, logged),
{
    if logs_as(wrapped, logged) {
        let whole = choose|whole: Seq<Seq<char>>| #[trigger]
            chain_readings(wrapped).contains(whole) && whole.len() > 0 && logged == error_text(
                whole,
            );
        assert(chain_readings(err).contains(whole.skip(1)));
    }
    if logs_behind(text, err, logged) {
        let reading = choose|reading: Seq<Seq<char>>| #[trigger]
            chain_readings(err).contains(reading) && reading.len() > 0 && logged == "ERROR: "@
                + text + causes_text(reading);
        let whole = seq![text] + reading;
        assert(whole.skip(1) =~= reading);
        assert(chain_readings(wrapped).contains(whole));
    }
}

/// What is logged of a message that could not be sent: the call stack that led to it, as it was
/// shown, and as its cause that the message could not be sent, with all that the message shows.
pub proof fn law_send_failure_is_logged(
    err: anyhow::Error,
    failure: SendFailure,
    shown: Seq<char>,
    logged: Seq<char>,
)
    requires
        chain_readings(err) == set![seq![shown, failure.text()]],
    ensures
        logs_as(err, logged) <==> logged == "ERROR: "@ + shown + "\nbecause: "@
            + "failed to send message to channel: "@ + failure.message@,
{
    let both = seq![shown, failure.text()];
    let cause = seq![failure.text()];
    assert(both.skip(1) =~= cause);
    assert(causes_text(cause.drop_last()) =~= Seq::<char>::empty());
    assert(causes_text(cause) =~= "\nbecause: "@ + failure.text());
    assert(error_text(both) =~= "ERROR: "@ + shown + "\nbecause: "@
        + "failed to send message to channel: "@ + failure.message@);
    assert(chain_readings(err).contains(both));
}

/// The text of a chain of one error is that error, and each error that comes behind a chain adds a
/// line for itself to the text of the chain.
pub proof fn law_each_error_of_a_chain_has_a_line(messages: Seq<Seq<char>>, cause: Seq<char>)
    ensures
        error_text(seq![cause]) == "ERROR: "@ + cause,
        messages.len() > 0 ==> error_text(messages.push(cause)) == error_text(messages)
            + "\nbecause: "@ + cause,
{
    assert(seq![cause].skip(1) =~= Seq::<Seq<char>>::empty());
    assert("ERROR: "@ + cause + Seq::<char>::empty() =~= "ERROR: "@ + cause);
    if messages.len() > 0 {
        let longer = messages.push(cause);
        let causes = messages.skip(1);
        assert(longer.skip(1) =~= causes.push(cause));
        assert(causes.push(cause).drop_last() =~= causes);
        assert(error_text(longer) =~= error_text(messages) + "\nbecause: "@ + cause);
    }
}

/// The message of a single error is that error, whatever it says.
pub proof fn law_message_of_a_single_error(messages: Vec<String>, message: String)
    requires
        messages@.len() == 1,
        call_ensures(error_message, (&messages,), message),
    ensures
        message@ == "ERROR: "@ + messages@[0]@,
{
    law_each_error_of_a_chain_has_a_line(seq![], messages@[0]@);
    assert(texts(messages@) =~= seq![messages@[0]@]);
}

/// However long a chain is, the message of one that has a cause more goes on with that cause where
/// the message of the other ends.
pub proof fn law_message_goes_on_with_each_cause(
    messages: Vec<String>,
    longer: Vec<String>,
    message: String,
    longer_message: String,
)
    requires
        messages@.len() > 0,
        longer@.len() == messages@.len() + 1,
        forall|i: int| 0 <= i < messages@.len() ==> #[trigger] longer@[i]@ == messages@[i]@,
        call_ensures(error_message, (&messages,), message),
        call_ensures(error_message, (&longer,), longer_message),
    ensures
        longer_message@ == message@ + "\nbecause: "@ + longer@.last()@,
{
    law_each_error_of_a_chain_has_a_line(texts(messages@), longer@.last()@);
    assert(texts(longer@) =~= texts(messages@).push(longer@.last()@));
}

/// An error that reads as a single text is logged as that text.
pub proof fn law_single_error_is_logged(err: anyhow::Error, text: Seq<char>, logged: Seq<char>)
    requires
        chain_readings(err) == set![seq![text]],
    ensures
        logs_as(err, logged) <==> logged == "ERROR: "@ + text,
{
    law_each_error_of_a_chain_has_a_line(seq![], text);
    assert(chain_readings(err).contains(seq![text]));
}

/// Whether each reading of `deeper` is one of `err` with `cause` behind it, and the other way
/// round: the chain of `deeper` is that of `err` with one cause more at its end.
pub open spec fn has_one_cause_more(
    err: anyhow::Error,
    deeper: anyhow::Error,
    cause: Seq<char>,
) -> bool {
    forall|reading: Seq<Seq<char>>|
        #![trigger chain_readings(deeper).contains(reading)]
        chain_readings(deeper).contains(reading) <==> reading.len() > 1 && reading.last() == cause
            && chain_readings(err).contains(reading.drop_last())
}

/// Of an error whose chain has one cause more at its end, what is logged of the other is logged,
/// and a line for that cause behind it. No cause is left out, however deep it is.
pub proof fn law_deepest_cause_is_logged_last(
    err: anyhow::Error,
    deeper: anyhow::Error,
    cause: Seq<char>,
    logged: Seq<char>,
)
    requires
        has_one_cause_more(err, deeper, cause),
    ensures
        logs_as(deeper, logged) <==> exists|shorter: Seq<char>| #[trigger]
            logs_as(err, shorter) && logged == shorter + "\nbecause: "@ + cause,
{
    if logs_as(deeper, logged) {
        let whole = choose|whole: Seq<Seq<char>>| #[trigger]
            chain_readings(deeper).contains(whole) && whole.len() > 0 && logged == error_text(
                whole,
            );
        let reading = whole.drop_last();
        law_each_error_of_a_chain_has_a_line(reading, cause);
        assert(whole =~= reading.push(cause));
        assert(chain_readings(err).contains(reading));
        assert(logs_as(err, error_text(reading)));
    }
    if exists|shorter: Seq<char>| #[trigger]
        logs_as(err, shorter) && logged == shorter + "\nbecause: "@ + cause {
        let shorter = choose|shorter: Seq<char>| #[trigger]
            logs_as(err, shorter) && logged == shorter + "\nbecause: "@ + cause;
        let reading = choose|reading: Seq<Seq<char>>| #[trigger]
            chain_readings(err).contains(reading) && reading.len() > 0 && shorter == error_text(
                reading,
            );
        law_each_error_of_a_chain_has_a_line(reading, cause);
        let whole = reading.push(cause);
        assert(whole.drop_last() =~= reading);
        assert(chain_readings(deeper).contains(whole));
    }
}

/// The same holds where a text is put in front of both.
pub proof fn law_deepest_cause_is_logged_last_behind_a_context(
    context: Seq<char>,
    err: anyhow::Error,
    deeper: anyhow::Error,
    cause: Seq<char>,
    logged: Seq<char>,
)
    requires
        has_one_cause_more(err, deeper, cause),
    ensures
        logs_behind(context, deeper, logged) <==> exists|shorter: Seq<char>| #[trigger]
            logs_behind(context, err, shorter) && logged == shorter + "\nbecause: "@ + cause,
{
    if logs_behind(context, deeper, logged) {
        let whole = choose|whole: Seq<Seq<char>>| #[trigger]
            chain_readings(deeper).contains(whole) && whole.len() > 0 && logged == "ERROR: "@
                + context + causes_text(whole);
        let reading = whole.drop_last();
        let shorter = "ERROR: "@ + context + causes_text(reading);
        assert(whole.last() == cause);
        assert(chain_readings(err).contains(reading));
        assert(logs_behind(context, err, shorter));
        assert(logged =~= shorter + "\nbecause: "@ + cause);
    }
    if exists|shorter: Seq<char>| #[trigger]
        logs_behind(context, err, shorter) && logged == shorter + "\nbecause: "@ + cause {
        let shorter = choose|shorter: Seq<char>| #[trigger]
            logs_behind(context, err, shorter) && logged == shorter + "\nbecause: "@ + cause;
        let reading = choose|reading: Seq<Seq<char>>| #[trigger]
            chain_readings(err).contains(reading) && reading.len() > 0 && shorter == "ERROR: "@
                + context + causes_text(reading);
        let whole = reading.push(cause);
        assert(whole.drop_last() =~= reading);
        assert(chain_readings(deeper).contains(whole));
        assert(logged =~= "ERROR: "@ + context + causes_text(whole));
    }
}

/// An error that reads as a single text, with a text put in front of it, is logged as the two.
pub proof fn law_single_error_is_logged_behind_a_context(
    context: Seq<char>,
    err: anyhow::Error,
    text: Seq<char>,
    logged: Seq<char>,
)
    requires
        chain_readings(err) == set![seq![text]],
    ensures
        logs_behind(context, err, logged) <==> logged == "ERROR: "@ + context + "\nbecause: "@
            + text,
{
    let cause = seq![text];
    assert(cause.drop_last() =~= Seq::<Seq<char>>::empty());
    assert(causes_text(cause.drop_last()) =~= Seq::<char>::empty());
    assert(causes_text(cause) =~= "\nbecause: "@ + text);
    assert("ERROR: "@ + context + causes_text(cause) =~= "ERROR: "@ + context + "\nbecause: "@
        + text);
    assert(chain_readings(err).contains(cause));
}

/// A result is logged exactly where it is an error, and what is logged is the message of a reading
/// of its chain.
pub proof fn law_log_message_is_that_of_the_chain<T>(
    result: Result<T, anyhow::Error>,
    logged: Option<String>,
    messages: Vec<String>,
    message: String,
)
    requires
        call_ensures(log_message::<T>, (&result,), logged),
        call_ensures(error_message, (&messages,), message),
        messages@.len() > 0,
        result is Err ==> chain_readings(result->Err_0) == set![texts(messages@)],
    ensures
        logged is Some <==> result is Err,
        logged is Some ==> logged->0@ == message@,
{
}

/// Logging an error once hands the closure the message of a reading of its chain.
pub proof fn law_closure_is_handed_the_message<T, F: FnOnce(&str)>(
    err: anyhow::Error,
    fun: F,
    messages: Vec<String>,
    message: String,
)
    requires
        call_ensures(log_once::<T, F>, (&Err::<T, anyhow::Error>(err), fun), ()),
        call_ensures(error_message, (&messages,), message),
        messages@.len() > 0,
        chain_readings(err) == set![texts(messages@)],
    ensures
        exists|given: &str| #[trigger] call_ensures(fun, (given,), ()) && given@ == message@,
{
    assert(handed_over(fun, err));
    let given = choose|given: &str| #[trigger]
        call_ensures(fun, (given,), ()) && logs_as(err, given@);
    assert(given@ == message@);
}

/// A closure has been handed what can be logged of an error where it was called on such a text.
pub proof fn law_handed_over_text_can_be_logged<F: FnOnce(&str)>(fun: F, err: anyhow::Error)
    ensures
        handed_over(fun, err) <==> exists|given: &str, reading: Seq<Seq<char>>|
            #![trigger call_ensures(fun, (given,), ()), chain_readings(err).contains(reading)]
            call_ensures(fun, (given,), ()) && chain_readings(err).contains(reading)
                && reading.len() > 0 && given@ == error_text(reading),
{
}

/// What can be logged of a result is what can be logged of its error, and nothing of a value; and
/// it can be logged where its error can be shown.
pub proof fn law_only_errors_are_logged<T>(result: Result<T, anyhow::Error>, message: Seq<char>)
    ensures
        result is Ok ==> !result.may_log(message) && !result.may_log_non_fatal(message),
        result is Err ==> (result.may_log(message) <==> logs_as(result->Err_0, message)),
        result is Err ==> (result.may_log_non_fatal(message) <==> logs_behind(
            "a non-fatal error occured"@,
            result->Err_0,
            message,
        )),
        result.can_be_logged() <==> (result is Err ==> can_be_shown(result->Err_0)),
        result.can_be_logged_non_fatal() <==> (result is Err ==> can_be_shown(result->Err_0)),
        result.has_value() <==> result is Ok,
{
}

/// Marking a result as fatal leaves a value alone, and puts a text in front of an error and each
/// of its readings.
pub proof fn law_fatal_error_is_marked<T>(
    result: Result<T, anyhow::Error>,
    marked: Result<T, anyhow::Error>,
    reading: Seq<Seq<char>>,
)
    requires
        call_ensures(fatal_context::<T>, (result,), marked),
    ensures
        result is Ok ==> marked == result,
        result is Err ==> marked is Err,
        result is Err && reading.len() > 0 ==> (chain_readings(marked->Err_0).contains(
            seq!["a fatal error occured"@] + reading,
        ) <==> chain_readings(result->Err_0).contains(reading)),
{
    assert((seq!["a fatal error occured"@] + reading).skip(1) =~= reading);
}

/// What can be logged of a non-fatal error is the message of a chain that has a text to that effect
/// in front of the error's own.
pub proof fn law_non_fatal_error_is_logged(
    err: anyhow::Error,
    messages: Vec<String>,
    message: String,
    logged: Seq<char>,
)
    requires
        call_ensures(error_message, (&messages,), message),
        messages@.len() > 1,
        messages@[0]@ == "a non-fatal error occured"@,
        chain_readings(err) == set![texts(messages@).skip(1)],
    ensures
        logs_behind(non_fatal_text(), err, logged) <==> logged == message@,
{
    assert(chain_readings(err).contains(texts(messages@).skip(1)));
}

/// A result that has a value gives that value.
pub proof fn law_fatal_gives_the_value<T>(given: T, value: T)
    requires
        call_ensures(
            <Result<T, anyhow::Error> as FatalError<T>>::fatal,
            (Ok::<T, anyhow::Error>(given),),
            value,
        ),
    ensures
        value == given,
{
}

/// A message that was sent gives its value. Of one that could not be sent, the call stack that led
/// to it is logged as it shows, and as the cause all that the message shows.
pub proof fn law_unsent_message_is_told<U>(
    result: Result<U, SendFailure>,
    converted: Result<U, anyhow::Error>,
)
    requires
        call_ensures(<Result<U, SendFailure> as ToAnyhow<U>>::to_anyhow, (result,), converted),
    ensures
        result is Ok ==> converted is Ok && converted->Ok_0 == result->Ok_0,
        result is Err ==> converted is Err && exists|shown: Seq<char>| #[trigger]
            result->Err_0.context.shows_as(shown) && logs_as(
                converted->Err_0,
                "ERROR: "@ + shown + "\nbecause: "@ + "failed to send message to channel: "@
                    + result->Err_0.message@,
            ),
{
    if result is Err {
        let failure = result->Err_0;
        let shown = choose|shown: Seq<char>| #[trigger]
            failure.context.shows_as(shown) && chain_readings(converted->Err_0) == set![
                seq![shown, failure.text()],
            ];
        law_send_failure_is_logged(
            converted->Err_0,
            failure,
            shown,
            "ERROR: "@ + shown + "\nbecause: "@ + "failed to send message to channel: "@
                + failure.message@,
        );
    }
}

} // verus!
