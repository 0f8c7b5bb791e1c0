//! The text field that has the focus: its editing state, and the requests that set it.
use crate::events::{ElementState, Key, KeyView, NamedKey};
use crate::small_string::smol_str_as_str;
use crate::utf8_text::{lemma_boundary_between, lemma_encode_concat};
use vstd::prelude::*;
use vstd::string::*;
use vstd::utf8::{
    encode_utf8, encode_utf8_valid_utf8, is_ascii_chars_encode_utf8, is_char_boundary,
    valid_utf8_split,
};

verus! {

broadcast use encode_utf8_valid_utf8;

/// The text of a field with its selection and composing range. The offsets of the selection
/// count bytes of the text.
#[derive(Clone, Debug)]
pub struct TextEditingValue {
    pub text: String,
    pub selection_base: usize,
    pub selection_extent: usize,
    pub selection_affinity: String,
    pub selection_is_directional: bool,
    pub composing_base: i32,
    pub composing_extent: i32,
}

/// The model of a [`TextEditingValue`].
#[verifier::ext_equal]
pub struct TextEditingView {
    /// The text, in UTF-8.
    pub bytes: Seq<u8>,
    pub selection_base: int,
    pub selection_extent: int,
    pub selection_affinity: Seq<char>,
    pub selection_is_directional: bool,
    pub composing_base: i32,
    pub composing_extent: i32,
}

impl View for TextEditingValue {
    type V = TextEditingView;

    open spec fn view(&self) -> TextEditingView {
        TextEditingView {
            bytes: encode_utf8(self.text@),
            selection_base: self.selection_base as int,
            selection_extent: self.selection_extent as int,
            selection_affinity: self.selection_affinity@,
            selection_is_directional: self.selection_is_directional,
            composing_base: self.composing_base,
            composing_extent: self.composing_extent,
        }
    }
}

impl TextEditingView {
    /// Where the selection starts.
    pub open spec fn start(self) -> int {
        if self.selection_base < self.selection_extent {
            self.selection_base
        } else {
            self.selection_extent
        }
    }

    /// Where the selection ends.
    pub open spec fn end(self) -> int {
        if self.selection_base < self.selection_extent {
            self.selection_extent
        } else {
            self.selection_base
        }
    }

    /// Both ends of the selection lie between two characters of the text.
    pub open spec fn is_editable(self) -> bool {
        &&& is_char_boundary(self.bytes, self.selection_base)
        &&& is_char_boundary(self.bytes, self.selection_extent)
    }

    /// The value with the selected text taken out. The two ends of the selection stay where
    /// they were, the lower one as the base.
    pub open spec fn selection_deleted(self) -> TextEditingView {
        if self.start() == self.end() {
            self
        } else {
            TextEditingView {
                bytes: self.bytes.take(self.start()) + self.bytes.skip(self.end()),
                selection_base: self.start(),
                selection_extent: self.end(),
                ..self
            }
        }
    }

    /// The value with `text` in place of the selected text, and the cursor behind it.
    pub open spec fn text_inserted(self, text: Seq<u8>) -> TextEditingView {
        TextEditingView {
            bytes: self.bytes.take(self.start()) + text + self.bytes.skip(self.end()),
            selection_base: self.start() + text.len(),
            selection_extent: self.start() + text.len(),
            ..self
        }
    }
}

impl Default for TextEditingValue {
    /// An empty field.
    fn default() -> (res: TextEditingValue)
        ensures
            res.text@.len() == 0,
            res.selection_base == 0,
            res.selection_extent == 0,
            res.selection_affinity@.len() == 0,
            !res.selection_is_directional,
            res.composing_base == 0,
            res.composing_extent == 0,
            res@.is_editable(),
    {
        TextEditingValue {
            text: String::new(),
            selection_base: 0,
            selection_extent: 0,
            selection_affinity: String::new(),
            selection_is_directional: false,
            composing_base: 0,
            composing_extent: 0,
        }
    }
}

impl TextEditingValue {
    /// Whether both ends of the selection lie between two characters of the text.
    pub fn is_editable(&self) -> (res: bool)
        ensures
            res == self@.is_editable(),
    {
        self.text.as_str().is_char_boundary(self.selection_base)
            && self.text.as_str().is_char_boundary(self.selection_extent)
    }
}

/// The editing state of the field that has the focus, and the client that owns the field.
pub struct TextInputState {
    pub client: Option<u32>,
    pub value: TextEditingValue,
}

/// What a pressed key does to the text.
pub enum Typed {
    /// The key inserts this text.
    Text(Seq<char>),
    /// The key is not a matter of the text field.
    Nothing,
}

/// What a pressed key does to the text.
pub open spec fn typed_by(key: KeyView) -> Typed {
    match key {
        KeyView::Named(NamedKey::Space) => Typed::Text(seq![' ']),
        KeyView::Character(text) => Typed::Text(text),
        _ => Typed::Nothing,
    }
}

impl TextInputState {
    /// A state without a client, with an empty text.
    pub fn new() -> (res: TextInputState)
        ensures
            res.client is None,
            res.value.text@.len() == 0,
            res.value.selection_base == 0,
            res.value.selection_extent == 0,
            res.value.selection_affinity@.len() == 0,
            !res.value.selection_is_directional,
            res.value.composing_base == 0,
            res.value.composing_extent == 0,
            res.value@.is_editable(),
    {
        TextInputState { client: None, value: TextEditingValue::default() }
    }

    /// Whether a key that went up or down can be taken in: one that inserts text needs a
    /// selection within the text, and room for more.
    pub fn accepts(&self, state: ElementState, key: &Key) -> (res: bool)
        ensures
            res == (state == ElementState::Pressed && typed_by(key@) is Text ==> {
                &&& self.value@.is_editable()
                &&& self.value@.bytes.len() + encode_utf8(typed_by(key@)->Text_0).len()
                    <= usize::MAX
            }),
    {
        if state == ElementState::Released {
            return true;
        }
        let more: usize = match key {
            Key::Named(NamedKey::Space) => {
                proof {
                    reveal_strlit(" ");
                    assert(" "@ =~= seq![' ']);
                }
                " ".as_bytes().len()
            },
            Key::Character(text) => smol_str_as_str(text).as_bytes().len(),
            _ => return true,
        };
        let room: usize = usize::MAX - self.value.text.as_str().as_bytes().len();
        self.value.is_editable() && more <= room
    }

    /// Takes in a key that went up or down, and gives the client that has to be told the
    /// editing state, where there is one.
    ///
    /// A pressed key that is no matter of the text field is not reported to the client. Every
    /// released key is.
    pub fn process_key_event(&mut self, state: ElementState, key: &Key) -> (res: Option<u32>)
        requires
            state == ElementState::Pressed && typed_by(key@) is Text ==> {
                &&& old(self).value@.is_editable()
                &&& old(self).value@.bytes.len() + encode_utf8(typed_by(key@)->Text_0).len()
                    <= usize::MAX
            },
        ensures
            final(self).client == old(self).client,
            match (state, typed_by(key@)) {
                (ElementState::Released, _) => {
                    &&& final(self).value == old(self).value
                    &&& res == old(self).client
                },
                (ElementState::Pressed, Typed::Nothing) => {
                    &&& final(self).value == old(self).value
                    &&& res is None
                },
                (ElementState::Pressed, Typed::Text(text)) => {
                    &&& final(self).value@ == old(self).value@.text_inserted(encode_utf8(text))
                    &&& final(self).value@.is_editable()
                    &&& res == old(self).client
                },
            },
    {
        if state == ElementState::Pressed {
            match key {
                Key::Named(NamedKey::Space) => {
                    proof {
                        reveal_strlit(" ");
                        assert(" "@ =~= seq![' ']);
                    }
                    self.insert_text(" ");
                },
                Key::Character(text) => self.insert_text(smol_str_as_str(text)),
                _ => return None,
            }
        }
        self.client
    }

    /// Puts `text` in place of the selected text, and the cursor behind it.
    pub fn insert_text(&mut self, text: &str)
        requires
            old(self).value@.is_editable(),
            old(self).value@.bytes.len() + encode_utf8(text@).len() <= usize::MAX,
        ensures
            final(self).client == old(self).client,
            final(self).value@ == old(self).value@.text_inserted(encode_utf8(text@)),
            final(self).value@.is_editable(),
    {
        let ghost before = self.value@;
        let ghost start = before.start();
        self.delete_selected();
        let ghost head = before.bytes.take(start);
        let ghost tail = before.bytes.skip(before.end());
        proof {
            lemma_boundaries(before);
            lemma_parts_valid(before);
            lemma_boundary_between(head, tail);
            assert(before.bytes.take(start) + before.bytes.skip(start) =~= before.bytes);
        }
        let mut joined: String = {
            let (first, _) = self.value.text.as_str().split_at(self.value.selection_base);
            first.to_owned()
        };
        let last: String = {
            let (_, last) = self.value.text.as_str().split_at(self.value.selection_base);
            last.to_owned()
        };
        proof {
            lemma_encode_concat(joined@, text@);
            lemma_encode_concat(joined@ + text@, last@);
            assert(encode_utf8(joined@) =~= head);
            assert(encode_utf8(last@) =~= tail);
            lemma_boundary_between(head, encode_utf8(text@));
            lemma_boundary_between(head + encode_utf8(text@), tail);
        }
        joined.append(text);
        joined.append(last.as_str());
        self.value.text = joined;
        self.value.selection_base = self.value.selection_base + text.len();
        self.value.selection_extent = self.value.selection_base;
    }

    /// Takes the selected text out. Where nothing is selected, nothing changes, wherever the
    /// selection is.
    pub fn delete_selected(&mut self)
        requires
            old(self).value@.start() != old(self).value@.end() ==> old(self).value@.is_editable(),
        ensures
            final(self).client == old(self).client,
            final(self).value@ == old(self).value@.selection_deleted(),
            old(self).value@.start() == old(self).value@.end() ==> *final(self) == *old(self),
    {
        let start: usize = if self.value.selection_base < self.value.selection_extent {
            self.value.selection_base
        } else {
            self.value.selection_extent
        };
        let end: usize = if self.value.selection_base < self.value.selection_extent {
            self.value.selection_extent
        } else {
            self.value.selection_base
        };
        if start == end {
            return ;
        }
        let ghost before = self.value@;
        proof {
            lemma_boundaries(before);
        }
        let mut joined: String = {
            let (first, _) = self.value.text.as_str().split_at(start);
            first.to_owned()
        };
        let last: String = {
            let (_, last) = self.value.text.as_str().split_at(end);
            last.to_owned()
        };
        proof {
            lemma_encode_concat(joined@, last@);
        }
        joined.append(last.as_str());
        self.value.text = joined;
        self.value.selection_base = start;
        self.value.selection_extent = end;
    }
}

/// The ends of an editable selection lie within the text.
pub proof fn lemma_boundaries(value: TextEditingView)
    requires
        value.is_editable(),
        vstd::utf8::valid_utf8(value.bytes),
    ensures
        0 <= value.start() <= value.end() <= value.bytes.len(),
        is_char_boundary(value.bytes, value.start()),
        is_char_boundary(value.bytes, value.end()),
{
}

/// The text before and the text behind an editable selection are texts.
proof fn lemma_parts_valid(value: TextEditingView)
    requires
        value.is_editable(),
        vstd::utf8::valid_utf8(value.bytes),
    ensures
        vstd::utf8::valid_utf8(value.bytes.take(value.start())),
        vstd::utf8::valid_utf8(value.bytes.skip(value.end())),
{
    lemma_boundaries(value);
    valid_utf8_split(value.bytes, value.start());
    valid_utf8_split(value.bytes, value.end());
}

/// A request on the text input channel.
#[derive(Clone, Debug)]
pub enum TextInputRequest {
    /// A field of this client takes the focus.
    SetClient(u32),
    /// No field has the focus any more.
    ClearClient,
    Show,
    Hide,
    /// The editing state was changed by the application.
    SetEditingState(TextEditingValue),
}

/// The reply that says a request was carried out: the text `[null]`.
pub open spec fn success_reply() -> Seq<u8> {
    seq![0x5b, 0x6e, 0x75, 0x6c, 0x6c, 0x5d]
}

/// Answers the requests on the text input channel.
pub struct TextInputHandler {
    pub state: TextInputState,
}

impl TextInputHandler {
    /// A handler that looks after `state`.
    pub fn new(state: TextInputState) -> (res: TextInputHandler)
        ensures
            res.state == state,
    {
        TextInputHandler { state }
    }

    /// Carries out a request, and gives the reply. There is no reply where the request is not
    /// implemented, or where the message held none (`None`).
    pub fn handle(&mut self, request: Option<TextInputRequest>) -> (res: Option<Vec<u8>>)
        ensures
            match request {
                Some(TextInputRequest::SetClient(client)) => {
                    &&& final(self).state.client == Some(client)
                    &&& final(self).state.value == old(self).state.value
                    &&& res is Some && res->0@ == success_reply()
                },
                Some(TextInputRequest::ClearClient) => {
                    &&& final(self).state.client is None
                    &&& final(self).state.value == old(self).state.value
                    &&& res is Some && res->0@ == success_reply()
                },
                Some(TextInputRequest::SetEditingState(value)) => {
                    &&& final(self).state.client == old(self).state.client
                    &&& final(self).state.value == value
                    &&& res is Some && res->0@ == success_reply()
                },
                Some(TextInputRequest::Show) | Some(TextInputRequest::Hide) | None => {
                    &&& *final(self) == *old(self)
                    &&& res is None
                },
            },
    {
        match request {
            Some(TextInputRequest::SetClient(client)) => {
                self.state.client = Some(client);
            },
            Some(TextInputRequest::ClearClient) => {
                self.state.client = None;
            },
            Some(TextInputRequest::SetEditingState(value)) => {
                self.state.value = value;
            },
            _ => {
                return None;
            },
        }
        let reply: Vec<u8> = vec![0x5b, 0x6e, 0x75, 0x6c, 0x6c, 0x5d];
        assert(reply@ =~= success_reply());
        Some(reply)
    }
}

/// Typing one text and then another is typing the two as one.
pub proof fn typing_is_sequential(value: TextEditingView, first: Seq<u8>, second: Seq<u8>)
    requires
        vstd::utf8::valid_utf8(value.bytes),
        value.is_editable(),
    ensures
        value.text_inserted(first).text_inserted(second) == value.text_inserted(first + second),
{
    lemma_boundaries(value);
    let once = value.text_inserted(first);
    let head = value.bytes.take(value.start());
    let tail = value.bytes.skip(value.end());
    assert(once.bytes.take(once.start()) =~= head + first);
    assert(once.bytes.skip(once.end()) =~= tail);
    assert(once.text_inserted(second) =~= value.text_inserted(first + second));
}

/// Typing leaves the text before the selection and the text behind it alone, and the cursor
/// stands between what was typed and the text behind it.
pub proof fn typing_keeps_the_rest(value: TextEditingView, text: Seq<u8>)
    requires
        vstd::utf8::valid_utf8(value.bytes),
        value.is_editable(),
    ensures
        ({
            let typed = value.text_inserted(text);
            &&& typed.bytes.take(value.start()) == value.bytes.take(value.start())
            &&& typed.bytes.skip(typed.selection_base) == value.bytes.skip(value.end())
            &&& typed.bytes.subrange(value.start(), typed.selection_base) == text
        }),
{
    lemma_boundaries(value);
    let typed = value.text_inserted(text);
    assert(typed.bytes.take(value.start()) =~= value.bytes.take(value.start()));
    assert(typed.bytes.skip(typed.selection_base) =~= value.bytes.skip(value.end()));
    assert(typed.bytes.subrange(value.start(), typed.selection_base) =~= text);
}

/// Typing the selected text over itself gives the text back.
pub proof fn retyping_restores_the_text(value: TextEditingView)
    requires
        vstd::utf8::valid_utf8(value.bytes),
        value.is_editable(),
    ensures
        value.text_inserted(value.bytes.subrange(value.start(), value.end())).bytes == value.bytes,
{
    lemma_boundaries(value);
    assert(value.bytes.take(value.start()) + value.bytes.subrange(value.start(), value.end())
        + value.bytes.skip(value.end()) =~= value.bytes);
}

/// The lower and the upper end of the selection.
pub open spec fn selection_ends(value: TextEditingValue) -> (int, int) {
    let base = value.selection_base as int;
    let extent = value.selection_extent as int;
    if base <= extent {
        (base, extent)
    } else {
        (extent, base)
    }
}

/// Whether two values agree in all but their text and selection.
pub open spec fn same_but_text(a: TextEditingValue, b: TextEditingValue) -> bool {
    &&& a.selection_affinity@ == b.selection_affinity@
    &&& a.selection_is_directional == b.selection_is_directional
    &&& a.composing_base == b.composing_base
    &&& a.composing_extent == b.composing_extent
}

/// Whether a value is another one with some bytes in place of the selected ones and the cursor, a
/// selection of nothing, right behind them.
pub open spec fn has_typed(
    after: TextEditingValue,
    before: TextEditingValue,
    typed: Seq<u8>,
) -> bool {
    let (lower, upper) = selection_ends(before);
    let bytes = encode_utf8(before.text@);
    &&& encode_utf8(after.text@) == bytes.take(lower) + typed + bytes.skip(upper)
    &&& after.selection_base == lower + typed.len()
    &&& after.selection_extent == after.selection_base
    &&& same_but_text(after, before)
}

/// What is typed takes the place of the selected text, wherever the selection has its base, and the
/// cursor stands behind it.
pub proof fn typed_text_replaces_the_selection(state: &mut TextInputState, text: &str)
    requires
        call_ensures(TextInputState::insert_text, (state, text), ()),
    ensures
        final(state).client == old(state).client,
        has_typed(final(state).value, old(state).value, encode_utf8(text@)),
{
    assert(final(state).value@ == old(state).value@.text_inserted(encode_utf8(text@)));
    assert(final(state).value@.selection_affinity == old(state).value@.selection_affinity);
}

/// Deleting takes exactly the selected bytes out. The ends of the selection stay where they were,
/// the lower one as the base.
pub proof fn deleted_text_is_the_selected(state: &mut TextInputState)
    requires
        call_ensures(TextInputState::delete_selected, (state,), ()),
    ensures
        ({
            let before = old(state).value;
            let after = final(state).value;
            let (lower, upper) = selection_ends(before);
            let bytes = encode_utf8(before.text@);
            &&& final(state).client == old(state).client
            &&& lower == upper ==> *final(state) == *old(state)
            &&& lower < upper ==> {
                &&& encode_utf8(after.text@) == bytes.take(lower) + bytes.skip(upper)
                &&& after.selection_base == lower
                &&& after.selection_extent == upper
                &&& same_but_text(after, before)
            }
        }),
{
    assert(final(state).value@ == old(state).value@.selection_deleted());
    assert(final(state).value@.selection_affinity == old(state).value@.selection_affinity);
}

/// A pressed key types its text, the space bar a space. Any other pressed key, and every released
/// one, leaves the text alone. The client is told after each key but for a pressed one without a
/// text.
pub proof fn keys_type_their_texts(
    state: &mut TextInputState,
    element: ElementState,
    key: Key,
    told: Option<u32>,
)
    requires
        call_ensures(TextInputState::process_key_event, (state, element, &key), told),
    ensures
        final(state).client == old(state).client,
        element is Released ==> final(state).value == old(state).value && told == old(state).client,
        element is Pressed && key is Character ==> {
            &&& has_typed(
                final(state).value,
                old(state).value,
                encode_utf8(key@->Character_0),
            )
            &&& told == old(state).client
        },
        element is Pressed && key == Key::Named(NamedKey::Space) ==> {
            &&& has_typed(final(state).value, old(state).value, seq![0x20u8])
            &&& told == old(state).client
        },
        element is Pressed && !(key is Character) && key != Key::Named(NamedKey::Space) ==> {
            &&& final(state).value == old(state).value
            &&& told is None
        },
{
    if element is Pressed {
        if let Typed::Text(text) = typed_by(key@) {
            assert(final(state).value@ == old(state).value@.text_inserted(encode_utf8(text)));
            assert(final(state).value@.selection_affinity
                == old(state).value@.selection_affinity);
        }
        if key == Key::Named(NamedKey::Space) {
            is_ascii_chars_encode_utf8(seq![' ']);
            assert(encode_utf8(seq![' ']) =~= seq![0x20u8]);
        }
    }
}

/// A key can be taken in unless it types a text while the selection is not within the text, or for
/// which there is no room.
pub proof fn refused_keys(state: TextInputState, element: ElementState, key: Key, accepted: bool)
    requires
        call_ensures(TextInputState::accepts, (&state, element, &key), accepted),
    ensures
        element is Released ==> accepted,
        !(key is Character) && key != Key::Named(NamedKey::Space) ==> accepted,
        element is Pressed && key is Character ==> (accepted <==> {
            &&& is_char_boundary(
                encode_utf8(state.value.text@),
                state.value.selection_base as int,
            )
            &&& is_char_boundary(
                encode_utf8(state.value.text@),
                state.value.selection_extent as int,
            )
            &&& encode_utf8(state.value.text@).len() + encode_utf8(key@->Character_0).len()
                <= usize::MAX
        }),
{
}

/// A request for the focus sets the client, one to give it up clears it, and one about the editing
/// state sets that. Each of them changes nothing else and is answered with the text `[null]`. All
/// others change nothing and are not answered.
pub proof fn requests_are_carried_out(
    handler: &mut TextInputHandler,
    request: Option<TextInputRequest>,
    reply: Option<Vec<u8>>,
)
    requires
        call_ensures(TextInputHandler::handle, (handler, request), reply),
    ensures
        ({
            let before = old(handler).state;
            let after = final(handler).state;
            &&& match request {
                Some(TextInputRequest::SetClient(client)) => after.client == Some(client)
                    && after.value == before.value,
                Some(TextInputRequest::ClearClient) => after.client is None && after.value
                    == before.value,
                Some(TextInputRequest::SetEditingState(value)) => after.client == before.client
                    && after.value == value,
                _ => after == before,
            }
            &&& reply is Some <==> request is Some && !(request->0 is Show) && !(request->0 is Hide)
            &&& reply is Some ==> reply->0@ == encode_utf8("[null]"@)
        }),
{
    reveal_strlit("[null]");
    is_ascii_chars_encode_utf8("[null]"@);
    assert(encode_utf8("[null]"@) =~= success_reply());
}

/// A text can be edited exactly if neither end of its selection lies within a character.
pub proof fn selection_ends_between_characters(value: TextEditingValue, res: bool)
    requires
        call_ensures(TextEditingValue::is_editable, (&value,), res),
    ensures
        res <==> is_char_boundary(encode_utf8(value.text@), value.selection_base as int)
            && is_char_boundary(encode_utf8(value.text@), value.selection_extent as int),
{
}

/// A new text field is empty, with the selection at its start.
pub proof fn new_field_is_empty(value: TextEditingValue)
    requires
        call_ensures(TextEditingValue::default, (), value),
    ensures
        value.text@.len() == 0,
        value.selection_base == 0,
        value.selection_extent == 0,
        value.selection_affinity@.len() == 0,
        !value.selection_is_directional,
        value.composing_base == 0,
        value.composing_extent == 0,
{
}

} // verus!
