//! The messages between the engine and the platform.
use crate::registry::Registry;
use vstd::prelude::*;

verus! {

/// Why there is nobody for a message. The message is then answered with an empty reply.
#[derive(Clone, Copy, Debug, PartialEq, Eq, Structural)]
pub enum RouteError {
    /// The name of the channel is not a text.
    InvalidChannel,
    /// There is no handler for the channel.
    NoHandler,
    /// There is no message.
    NullMessage,
}

/// The handlers of a list, of those with the same name the last one.
pub open spec fn handlers_of<H>(list: Seq<(String, H)>) -> Map<Seq<char>, H>
    decreases list.len(),
{
    if list.len() == 0 {
        Map::empty()
    } else {
        handlers_of(list.drop_last()).insert(list.last().0@, list.last().1)
    }
}

/// The handlers of the messages that the engine sends, one for each channel.
pub struct FlutterEngine<H> {
    platform_message_handlers: Registry<H>,
}

impl<H> View for FlutterEngine<H> {
    type V = Map<Seq<char>, H>;

    closed spec fn view(&self) -> Map<Seq<char>, H> {
        self.platform_message_handlers@
    }
}

impl<H> FlutterEngine<H> {
    /// The handlers of a list, of those for the same channel the last one.
    pub fn new(platform_message_handlers: Vec<(String, H)>) -> (res: FlutterEngine<H>)
        ensures
            res@ == handlers_of(platform_message_handlers@),
    {
        let ghost all = platform_message_handlers@;
        let mut list = platform_message_handlers;
        let mut handlers: Registry<H> = Registry::new();
        let ghost mut done: int = 0;
        assert(all.skip(0) =~= all);
        while list.len() > 0
            invariant
                0 <= done <= all.len(),
                list@ == all.skip(done),
                handlers@ == handlers_of(all.take(done)),
            decreases list.len(),
        {
            let (name, handler) = list.remove(0);
            assert(all.take(done + 1).drop_last() =~= all.take(done));
            assert(all.take(done + 1).last() == (name, handler));
            handlers.insert(name, handler);
            proof {
                done = done + 1;
            }
            assert(list@ =~= all.skip(done));
        }
        assert(all.take(done) =~= all);
        FlutterEngine { platform_message_handlers: handlers }
    }

    /// Gives a channel a handler, in the place of one that it had.
    pub fn set_platform_message_handler(&mut self, name: String, handler: H)
        ensures
            final(self)@ == old(self)@.insert(name@, handler),
    {
        self.platform_message_handlers.insert(name, handler);
    }

    /// The handler for a message, given the name of its channel, if that is a text, and whether
    /// there is a message.
    pub fn platform_message_handler(&self, channel: Option<&str>, has_message: bool) -> (res: Result<
        &H,
        RouteError,
    >)
        ensures
            match res {
                Ok(handler) => {
                    &&& channel is Some
                    &&& self@.contains_key(channel->0@)
                    &&& has_message
                    &&& *handler == self@[channel->0@]
                },
                Err(RouteError::InvalidChannel) => channel is None,
                Err(RouteError::NoHandler) => channel is Some && !self@.contains_key(channel->0@),
                Err(RouteError::NullMessage) => {
                    &&& channel is Some
                    &&& self@.contains_key(channel->0@)
                    &&& !has_message
                },
            },
    {
        match channel {
            Some(channel) => match self.platform_message_handlers.get(channel) {
                Some(handler) => if has_message {
                    Ok(handler)
                } else {
                    Err(RouteError::NullMessage)
                },
                None => Err(RouteError::NoHandler),
            },
            None => Err(RouteError::InvalidChannel),
        }
    }
}

/// Of the handlers for the same channel, the last one in the list gets its messages.
pub proof fn last_handler_is_used<H>(list: Seq<(String, H)>, i: int)
    requires
        0 <= i < list.len(),
        forall|j: int| i < j < list.len() ==> #[trigger] list[j].0@ != list[i].0@,
    ensures
        handlers_of(list).contains_key(list[i].0@),
        handlers_of(list)[list[i].0@] == list[i].1,
    decreases list.len(),
{
    let n = list.len() - 1;
    if i < n {
        let fewer = list.drop_last();
        assert(list[n].0@ != list[i].0@);
        assert forall|j: int| i < j < fewer.len() implies #[trigger] fewer[j].0@ != fewer[i].0@ by {
            assert(list[j].0@ != list[i].0@);
        }
        last_handler_is_used(fewer, i);
    }
}

/// A channel that is not in the list has no handler.
pub proof fn other_channels_have_no_handler<H>(list: Seq<(String, H)>, channel: Seq<char>)
    requires
        forall|i: int| 0 <= i < list.len() ==> #[trigger] list[i].0@ != channel,
    ensures
        !handlers_of(list).contains_key(channel),
    decreases list.len(),
{
    if list.len() > 0 {
        let fewer = list.drop_last();
        assert forall|i: int| 0 <= i < fewer.len() implies #[trigger] fewer[i].0@ != channel by {
            assert(list[i].0@ != channel);
        }
        other_channels_have_no_handler(fewer, channel);
        assert(list[list.len() - 1].0@ != channel);
    }
}

/// A step of sending a message that is replied to.
#[derive(Clone, Copy, Debug, PartialEq, Eq, Structural)]
pub enum RequestStep {
    /// Create the handle through which the reply comes.
    CreateResponseHandle,
    SendMessage,
    ReleaseResponseHandle,
    /// The message was sent.
    Done,
    Failed(RequestError),
}

/// Why a message could not be sent, with what the engine returned.
#[derive(Clone, Copy, Debug, PartialEq, Eq, Structural)]
pub enum RequestError {
    CreateResponseHandle(i32),
    SendMessage(i32),
    ReleaseResponseHandle(i32),
}

/// The step that follows, given what the engine returned where it did not succeed.
pub open spec fn step_after(step: RequestStep, failure: Option<i32>) -> RequestStep {
    match (step, failure) {
        (RequestStep::CreateResponseHandle, None) => RequestStep::SendMessage,
        (RequestStep::SendMessage, None) => RequestStep::ReleaseResponseHandle,
        (RequestStep::ReleaseResponseHandle, None) => RequestStep::Done,
        (RequestStep::CreateResponseHandle, Some(result)) => RequestStep::Failed(
            RequestError::CreateResponseHandle(result),
        ),
        (RequestStep::SendMessage, Some(result)) => RequestStep::Failed(
            RequestError::SendMessage(result),
        ),
        (RequestStep::ReleaseResponseHandle, Some(result)) => RequestStep::Failed(
            RequestError::ReleaseResponseHandle(result),
        ),
        (end, _) => end,
    }
}

/// The step that follows, given what the engine returned where it did not succeed.
pub fn next_request_step(step: RequestStep, failure: Option<i32>) -> (res: RequestStep)
    ensures
        res == step_after(step, failure),
{
    match step {
        RequestStep::CreateResponseHandle => match failure {
            None => RequestStep::SendMessage,
            Some(result) => RequestStep::Failed(RequestError::CreateResponseHandle(result)),
        },
        RequestStep::SendMessage => match failure {
            None => RequestStep::ReleaseResponseHandle,
            Some(result) => RequestStep::Failed(RequestError::SendMessage(result)),
        },
        RequestStep::ReleaseResponseHandle => match failure {
            None => RequestStep::Done,
            Some(result) => RequestStep::Failed(RequestError::ReleaseResponseHandle(result)),
        },
        RequestStep::Done => RequestStep::Done,
        RequestStep::Failed(error) => RequestStep::Failed(error),
    }
}

/// The step after the engine returned several times, from the first step on.
pub open spec fn request_after(failures: Seq<Option<i32>>) -> RequestStep
    decreases failures.len(),
{
    if failures.len() == 0 {
        RequestStep::CreateResponseHandle
    } else {
        step_after(request_after(failures.drop_last()), failures.last())
    }
}

/// A message is sent through exactly when the engine succeeded three times, and the first failure
/// ends the request with that failure.
pub proof fn request_ends_with_the_first_failure(failures: Seq<Option<i32>>)
    requires
        failures.len() == 3,
    ensures
        request_after(failures) == (match failures[0] {
            Some(result) => RequestStep::Failed(RequestError::CreateResponseHandle(result)),
            None => match failures[1] {
                Some(result) => RequestStep::Failed(RequestError::SendMessage(result)),
                None => match failures[2] {
                    Some(result) => RequestStep::Failed(
                        RequestError::ReleaseResponseHandle(result),
                    ),
                    None => RequestStep::Done,
                },
            },
        }),
{
    reveal_with_fuel(request_after, 4);
    assert(failures.drop_last().drop_last().drop_last().len() == 0);
}

/// A message goes to a handler exactly if its channel has a name, the channel has a handler and
/// there is a message. What is missing first, in this order, is why nobody gets it.
pub proof fn messages_go_to_the_handler_of_their_channel<H>(
    engine: FlutterEngine<H>,
    channel: Option<&str>,
    has_message: bool,
    res: Result<&H, RouteError>,
)
    requires
        call_ensures(
            FlutterEngine::<H>::platform_message_handler,
            (&engine, channel, has_message),
            res,
        ),
    ensures
        res is Ok <==> channel is Some && engine@.contains_key(channel->0@) && has_message,
        res is Ok ==> *res->Ok_0 == engine@[channel->0@],
        res is Err && res->Err_0 is InvalidChannel <==> channel is None,
        res is Err && res->Err_0 is NoHandler <==> channel is Some && !engine@.contains_key(
            channel->0@,
        ),
{
}

/// A channel that was given a handler hands its messages to that one. Messages on other channels go
/// where they went before.
pub proof fn new_handler_gets_the_messages<H>(
    engine: &mut FlutterEngine<H>,
    name: String,
    handler: H,
    before: &FlutterEngine<H>,
    after: &FlutterEngine<H>,
    channel: &str,
    res_before: Result<&H, RouteError>,
    res: Result<&H, RouteError>,
)
    requires
        call_ensures(FlutterEngine::<H>::set_platform_message_handler, (engine, name, handler), ()),
        call_ensures(
            FlutterEngine::<H>::platform_message_handler,
            (before, Some(channel), true),
            res_before,
        ),
        call_ensures(
            FlutterEngine::<H>::platform_message_handler,
            (after, Some(channel), true),
            res,
        ),
        *before == *old(engine),
    ensures
        *after == *final(engine) ==> {
            &&& channel@ == name@ ==> res is Ok && *res->Ok_0 == handler
            &&& channel@ != name@ ==> (res is Ok <==> res_before is Ok)
            &&& channel@ != name@ && res is Ok ==> *res->Ok_0 == *res_before->Ok_0
        },
{
}

/// An engine that was made with a list of handlers hands a message to the last handler in the list
/// for its channel, and to nobody where the channel is not in the list.
pub proof fn given_handlers_get_their_messages<H>(
    list: Vec<(String, H)>,
    engine: FlutterEngine<H>,
    i: int,
    channel: &str,
    res: Result<&H, RouteError>,
)
    requires
        call_ensures(FlutterEngine::<H>::new, (list,), engine),
        call_ensures(
            FlutterEngine::<H>::platform_message_handler,
            (&engine, Some(channel), true),
            res,
        ),
        -1 <= i < list@.len(),
        i >= 0 ==> list@[i].0@ == channel@,
        forall|j: int| i < j < list@.len() ==> #[trigger] list@[j].0@ != channel@,
    ensures
        i >= 0 ==> res is Ok && *res->Ok_0 == list@[i].1,
        i < 0 ==> res == Err::<&H, RouteError>(RouteError::NoHandler),
{
    if i >= 0 {
        last_handler_is_used(list@, i);
    } else {
        other_channels_have_no_handler(list@, channel@);
    }
}

/// A message is sent in three steps: the handle for the reply is created, the message is sent, and
/// the handle is released. What the engine returns where a step fails is told with that step, and
/// nothing follows the end.
pub proof fn message_is_sent_in_three_steps(
    failures: (Option<i32>, Option<i32>, Option<i32>),
    second: RequestStep,
    third: RequestStep,
    last: RequestStep,
)
    requires
        call_ensures(
            next_request_step,
            (RequestStep::CreateResponseHandle, failures.0),
            second,
        ),
        call_ensures(next_request_step, (second, failures.1), third),
        call_ensures(next_request_step, (third, failures.2), last),
    ensures
        failures.0 is None ==> second is SendMessage,
        failures.0 is None && failures.1 is None ==> third is ReleaseResponseHandle,
        last is Done <==> failures.0 is None && failures.1 is None && failures.2 is None,
        last is Failed || last is Done,
        last is Failed ==> {
            let error = last->Failed_0;
            &&& failures.0 is Some ==> error is CreateResponseHandle && second == last && third
                == last && error->CreateResponseHandle_0 == failures.0->0
            &&& failures.0 is None && failures.1 is Some ==> error is SendMessage && third == last
                && error->SendMessage_0 == failures.1->0
            &&& failures.0 is None && failures.1 is None ==> error is ReleaseResponseHandle
                && error->ReleaseResponseHandle_0 == failures.2->0
        },
{
}

/// A request that has ended stays as it ended.
pub proof fn ended_request_stays_ended(step: RequestStep, failure: Option<i32>, res: RequestStep)
    requires
        call_ensures(next_request_step, (step, failure), res),
        step is Done || step is Failed,
    ensures
        res == step,
{
}

} // verus!
