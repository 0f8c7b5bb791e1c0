//! Replies to method calls: the bytes of a success, and the empty reply of a method that is not
//! there.
use vstd::prelude::*;

verus! {

/// The reply to a message.
#[derive(Debug)]
pub enum MessageReply {
    /// There is nobody for the message.
    NotImplemented,
    Data(Vec<u8>),
}

/// The model of a [`MessageReply`].
pub enum ReplyView {
    NotImplemented,
    Data(Seq<u8>),
}

impl View for MessageReply {
    type V = ReplyView;

    open spec fn view(&self) -> ReplyView {
        match self {
            MessageReply::NotImplemented => ReplyView::NotImplemented,
            MessageReply::Data(bytes) => ReplyView::Data(bytes@),
        }
    }
}

/// The reply of a method call that succeeded with a value: a zero, and the encoded value.
pub open spec fn success_of(value: Seq<u8>) -> ReplyView {
    ReplyView::Data(seq![0u8] + value)
}

/// The replies to method calls.
pub struct StandardMethodReply;

impl StandardMethodReply {
    /// The reply of a method call that succeeded with a value.
    pub fn success(value: &Vec<u8>) -> (res: MessageReply)
        ensures
            res@ == success_of(value@),
    {
        let mut bytes: Vec<u8> = vec![0];
        let mut i: usize = 0;
        while i < value.len()
            invariant
                i <= value@.len(),
                bytes@ == seq![0u8] + value@.take(i as int),
            decreases value@.len() - i,
        {
            bytes.push(value[i]);
            assert(bytes@ =~= seq![0u8] + value@.take(i + 1));
            i += 1;
        }
        assert(value@.take(i as int) =~= value@);
        MessageReply::Data(bytes)
    }

    /// The reply to a method that is not there.
    pub fn not_implemented() -> (res: MessageReply)
        ensures
            res@ == ReplyView::NotImplemented,
    {
        MessageReply::NotImplemented
    }
}

/// The method that a call is for, or the reply to a call whose method name is not a text.
/// `name` is the name where it is a text.
pub fn called_method(name: Option<String>) -> (res: Result<String, MessageReply>)
    ensures
        match (name, res) {
            (Some(name), Ok(method)) => method == name,
            (None, Err(reply)) => reply@ == ReplyView::NotImplemented,
            _ => false,
        },
{
    match name {
        Some(name) => Ok(name),
        None => Err(StandardMethodReply::not_implemented()),
    }
}

/// The reply of a plugin: the bytes it gives, or none where it gives none.
pub fn plugin_response(data: Option<Vec<u8>>) -> (res: MessageReply)
    ensures
        res@ == (match data {
            Some(bytes) => ReplyView::Data(bytes@),
            None => ReplyView::NotImplemented,
        }),
{
    match data {
        Some(bytes) => MessageReply::Data(bytes),
        None => MessageReply::NotImplemented,
    }
}

/// The value in the reply of a method call, where the call succeeded.
pub open spec fn value_in(reply: ReplyView) -> Option<Seq<u8>> {
    match reply {
        ReplyView::Data(bytes) => if bytes.len() > 0 && bytes[0] == 0 {
            Some(bytes.skip(1))
        } else {
            None
        },
        ReplyView::NotImplemented => None,
    }
}

/// The value of a call that succeeded can be read from the reply.
pub proof fn success_gives_the_value(value: Seq<u8>)
    ensures
        value_in(success_of(value)) == Some(value),
{
    assert((seq![0u8] + value).skip(1) =~= value);
}

/// The reply of a call that succeeded has one byte more than the value: a zero, and behind it the
/// value byte by byte.
pub proof fn success_is_a_zero_and_the_value(value: Vec<u8>, reply: MessageReply, i: int)
    requires
        call_ensures(StandardMethodReply::success, (&value,), reply),
        0 <= i < value@.len(),
    ensures
        reply is Data,
        reply->Data_0@.len() == value@.len() + 1,
        reply->Data_0@[0] == 0,
        reply->Data_0@[i + 1] == value@[i],
{
    assert(reply@ == success_of(value@));
}

/// A call is for the method that it names. One without a name is answered as a method that is not
/// there, and so is a plugin that gives no bytes. Bytes that a plugin gives are the reply.
pub proof fn calls_without_a_method_are_not_implemented(
    name: Option<String>,
    called: Result<String, MessageReply>,
    data: Option<Vec<u8>>,
    reply: MessageReply,
    missing: MessageReply,
)
    requires
        call_ensures(called_method, (name,), called),
        call_ensures(plugin_response, (data,), reply),
        call_ensures(StandardMethodReply::not_implemented, (), missing),
    ensures
        called is Ok <==> name is Some,
        called is Ok ==> called->Ok_0@ == name->0@,
        called is Err ==> called->Err_0 is NotImplemented,
        reply is Data <==> data is Some,
        reply is Data ==> reply->Data_0@ == data->0@,
        missing is NotImplemented,
{
}

} // verus!
