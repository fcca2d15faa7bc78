//! The conversation model: message parts, attachments, and the
//! append-only list of conversation turns.

use vstd::prelude::*;


verus! {

/// Who a conversation turn belongs to.
#[derive(Debug, Clone, Copy, PartialEq, Eq, Structural)]
pub enum Role {
    Model,
    User,
}

impl Default for Role {
    /// A turn with no stated role is the user's.
    fn default() -> (r: Self)
        ensures
            r == Role::User,
    {
        Role::User
    }
}

/// Inline bytes for an attachment, carried base64-encoded with their
/// MIME type.
#[derive(Debug, Clone)]
pub struct Blob {
    pub mime_type: String,
    pub data: String,
}

/// The mathematical value of a [`Blob`].
#[verifier::ext_equal]
pub ghost struct BlobView {
    pub mime_type: Seq<char>,
    pub data: Seq<char>,
}

impl View for Blob {
    type V = BlobView;

    open spec fn view(&self) -> BlobView {
        BlobView { mime_type: self.mime_type@, data: self.data@ }
    }
}

/// A handle to an already-uploaded file: its MIME type and its URI.
#[derive(Debug, Clone)]
pub struct FileData {
    pub mime_type: String,
    pub file_uri: String,
}

/// The mathematical value of a [`FileData`].
#[verifier::ext_equal]
pub ghost struct FileDataView {
    pub mime_type: Seq<char>,
    pub file_uri: Seq<char>,
}

impl View for FileData {
    type V = FileDataView;

    open spec fn view(&self) -> FileDataView {
        FileDataView { mime_type: self.mime_type@, file_uri: self.file_uri@ }
    }
}

/// One of the shapes a message part can take.
#[derive(Debug, Clone)]
pub enum PartData {
    InlineData { inline_data: Blob },
    FileData { file_data: FileData },
    Text { text: String },
}

/// The mathematical value of a [`PartData`].
#[verifier::ext_equal]
pub ghost enum PartDataView {
    InlineData(BlobView),
    FileData(FileDataView),
    Text(Seq<char>),
}

impl View for PartData {
    type V = PartDataView;

    open spec fn view(&self) -> PartDataView {
        match self {
            PartData::InlineData { inline_data } => PartDataView::InlineData(inline_data@),
            PartData::FileData { file_data } => PartDataView::FileData(file_data@),
            PartData::Text { text } => PartDataView::Text(text@),
        }
    }
}

/// One part of a conversation turn.
#[derive(Debug, Clone)]
pub struct Part {
    pub data: PartData,
}

impl View for Part {
    type V = PartDataView;

    open spec fn view(&self) -> PartDataView {
        self.data@
    }
}

/// One conversation turn: its parts and, optionally, whose turn it was.
#[derive(Debug, Clone)]
pub struct Content {
    pub parts: Vec<Part>,
    pub role: Option<Role>,
}

/// The mathematical value of a [`Content`].
#[verifier::ext_equal]
pub ghost struct ContentView {
    pub role: Option<Role>,
    pub parts: Seq<PartDataView>,
}

impl View for Content {
    type V = ContentView;

    open spec fn view(&self) -> ContentView {
        ContentView { role: self.role, parts: Seq::new(self.parts@.len(), |i: int| self.parts@[i]@) }
    }
}

/// A turn without a role, as system instructions are sent.
#[derive(Debug, Clone)]
pub struct NoRoleContent {
    pub parts: Vec<Part>,
}

impl View for NoRoleContent {
    type V = Seq<PartDataView>;

    open spec fn view(&self) -> Seq<PartDataView> {
        Seq::new(self.parts@.len(), |i: int| self.parts@[i]@)
    }
}

/// The first text found among `parts`, if any part is text.
pub open spec fn spec_first_text(parts: Seq<PartDataView>) -> Option<Seq<char>>
    decreases parts.len(),
{
    if parts.len() == 0 {
        None
    } else {
        match parts[0] {
            PartDataView::Text(t) => Some(t),
            _ => spec_first_text(parts.drop_first()),
        }
    }
}

impl Content {
    /// Returns the text of the first text part, or `None` where no part
    /// is text.
    pub fn get_text(&self) -> (r: Option<String>)
        ensures
            match r {
                Some(t) => spec_first_text(self@.parts) == Some(t@),
                None => spec_first_text(self@.parts) is None,
            },
    {
        let n = self.parts.len();
        proof {
            assert(self@.parts.skip(0) =~= self@.parts);
        }
        for i in 0..n
            invariant
                n == self.parts.len(),
                spec_first_text(self@.parts) == spec_first_text(self@.parts.skip(i as int)),
        {
            proof {
                assert(self@.parts.skip(i as int)[0] == self@.parts[i as int]);
                assert(self@.parts.skip(i as int).drop_first() =~= self@.parts.skip(i + 1));
            }
            match &self.parts[i].data {
                PartData::Text { text } => {
                    return Some(text.clone());
                },
                _ => {},
            }
        }
        proof {
            assert(self@.parts.skip(n as int) =~= Seq::<PartDataView>::empty());
        }
        None
    }
}

/// The base64 rendering, standard alphabet with padding, of `bytes`.
pub uninterp spec fn spec_base64_of(bytes: Seq<u8>) -> Seq<char>;

/// Relies on base64's `STANDARD` engine: standard alphabet, padded, so
/// four output characters per three input bytes, rounded up.
#[verifier::external_body]
fn base64_encode(data: &[u8]) -> (r: String)
    requires
        data@.len() <= 0xffff_ffff,
    ensures
        r@ == spec_base64_of(data@),
        r@.len() == 4 * ((data@.len() + 2) / 3),
{
    base64::Engine::encode(&base64::engine::general_purpose::STANDARD, data)
}

impl Blob {
    /// Packs raw bytes as an inline attachment: the MIME type as given,
    /// the bytes base64-encoded.
    pub fn new(mime_type: &str, data: &[u8]) -> (r: Self)
        requires
            data@.len() <= 0xffff_ffff,
        ensures
            r@.mime_type == mime_type@,
            r@.data == spec_base64_of(data@),
    {
        Blob { mime_type: mime_type.to_owned(), data: base64_encode(data) }
    }
}

impl Part {
    /// A copy with the same value.
    pub fn duplicate(&self) -> (r: Self)
        ensures
            r@ == self@,
    {
        match &self.data {
            PartData::Text { text } => Part { data: PartData::Text { text: text.clone() } },
            PartData::InlineData { inline_data } => Part {
                data: PartData::InlineData {
                    inline_data: Blob {
                        mime_type: inline_data.mime_type.clone(),
                        data: inline_data.data.clone(),
                    },
                },
            },
            PartData::FileData { file_data } => Part {
                data: PartData::FileData {
                    file_data: FileData {
                        mime_type: file_data.mime_type.clone(),
                        file_uri: file_data.file_uri.clone(),
                    },
                },
            },
        }
    }
}

impl Content {
    /// A copy with the same value.
    pub fn duplicate(&self) -> (r: Self)
        ensures
            r@ == self@,
    {
        let mut parts: Vec<Part> = Vec::new();
        let n = self.parts.len();
        for i in 0..n
            invariant
                n == self.parts.len(),
                parts@.len() == i,
                forall|j: int| 0 <= j < i ==> parts@[j]@ == self.parts@[j]@,
        {
            parts.push(self.parts[i].duplicate());
        }
        let r = Content { role: self.role, parts };
        proof {
            assert(r@ =~~= self@);
        }
        r
    }
}

/// A copy of a list of turns, turn for turn.
pub fn duplicate_contents(v: &Vec<Content>) -> (r: Vec<Content>)
    ensures
        r@.len() == v@.len(),
        forall|i: int| 0 <= i < v@.len() ==> r@[i]@ == v@[i]@,
{
    let mut r: Vec<Content> = Vec::new();
    let n = v.len();
    for i in 0..n
        invariant
            n == v.len(),
            r@.len() == i,
            forall|j: int| 0 <= j < i ==> r@[j]@ == v@[j]@,
    {
        r.push(v[i].duplicate());
    }
    r
}

/// A conversation history: an append-only list of turns.
#[derive(Debug, Clone)]
pub struct Context {
    contents: Vec<Content>,
}

impl View for Context {
    type V = Seq<ContentView>;

    closed spec fn view(&self) -> Seq<ContentView> {
        Seq::new(self.contents@.len(), |i: int| self.contents@[i]@)
    }
}

/// The turn a pushed message becomes: one text part under the given role.
pub open spec fn spec_message_turn(role: Option<Role>, text: Seq<char>) -> ContentView {
    ContentView { role, parts: seq![PartDataView::Text(text)] }
}

impl Context {
    /// An empty history.
    pub fn new() -> (r: Self)
        ensures
            r@ == Seq::<ContentView>::empty(),
    {
        Context { contents: Vec::new() }
    }

    /// Appends a turn holding one text part.
    pub fn push_message(&mut self, role: Option<Role>, content: String)
        ensures
            final(self)@ == old(self)@.push(spec_message_turn(role, content@)),
    {
        let ghost turn = spec_message_turn(role, content@);
        let part = Part { data: PartData::Text { text: content } };
        self.contents.push(Content { role, parts: vec![part] });
        proof {
            assert(self@ =~~= old(self)@.push(turn));
        }
    }

    /// Appends a turn holding one uploaded-file part.
    pub fn push_file(&mut self, role: Option<Role>, file_data: FileData)
        ensures
            final(self)@ == old(self)@.push(
                ContentView { role, parts: seq![PartDataView::FileData(file_data@)] },
            ),
    {
        let ghost turn = ContentView { role, parts: seq![PartDataView::FileData(file_data@)] };
        self.contents.push(Content { role, parts: vec![Part { data: PartData::FileData { file_data } }] });
        proof {
            assert(self@ =~~= old(self)@.push(turn));
        }
    }

    /// Appends a turn holding one inline-bytes part.
    pub fn push_blob(&mut self, role: Option<Role>, blob: Blob)
        ensures
            final(self)@ == old(self)@.push(
                ContentView { role, parts: seq![PartDataView::InlineData(blob@)] },
            ),
    {
        let ghost turn = ContentView { role, parts: seq![PartDataView::InlineData(blob@)] };
        self.contents.push(Content { role, parts: vec![Part { data: PartData::InlineData { inline_data: blob } }] });
        proof {
            assert(self@ =~~= old(self)@.push(turn));
        }
    }

    /// Appends a turn holding a text part followed by an uploaded-file
    /// part.
    pub fn push_message_with_file(&mut self, role: Option<Role>, content: &str, file_data: FileData)
        ensures
            final(self)@ == old(self)@.push(
                ContentView {
                    role,
                    parts: seq![PartDataView::Text(content@), PartDataView::FileData(file_data@)],
                },
            ),
    {
        let ghost turn = ContentView {
            role,
            parts: seq![PartDataView::Text(content@), PartDataView::FileData(file_data@)],
        };
        self.contents.push(
            Content {
                role,
                parts: vec![
                    Part { data: PartData::Text { text: content.to_owned() } },
                    Part { data: PartData::FileData { file_data } },
                ],
            },
        );
        proof {
            assert(self@ =~~= old(self)@.push(turn));
        }
    }

    /// Appends a turn holding a text part followed by an inline-bytes
    /// part.
    pub fn push_message_with_blob(&mut self, role: Option<Role>, content: &str, blob: Blob)
        ensures
            final(self)@ == old(self)@.push(
                ContentView {
                    role,
                    parts: seq![PartDataView::Text(content@), PartDataView::InlineData(blob@)],
                },
            ),
    {
        let ghost turn = ContentView {
            role,
            parts: seq![PartDataView::Text(content@), PartDataView::InlineData(blob@)],
        };
        self.contents.push(
            Content {
                role,
                parts: vec![
                    Part { data: PartData::Text { text: content.to_owned() } },
                    Part { data: PartData::InlineData { inline_data: blob } },
                ],
            },
        );
        proof {
            assert(self@ =~~= old(self)@.push(turn));
        }
    }

    /// Empties the history.
    pub fn clear(&mut self)
        ensures
            final(self)@ == Seq::<ContentView>::empty(),
    {
        self.contents.clear();
        proof {
            assert(self@ =~= Seq::<ContentView>::empty());
        }
    }

    /// Whether the history holds no turn.
    pub fn is_empty(&self) -> (r: bool)
        ensures
            r == (self@.len() == 0),
    {
        self.contents.is_empty()
    }

    /// How many turns the history holds.
    pub fn len(&self) -> (r: usize)
        ensures
            r == self@.len(),
    {
        self.contents.len()
    }

    /// The turns themselves.
    pub fn get_contents(&self) -> (r: &Vec<Content>)
        ensures
            r@.len() == self@.len(),
            forall|i: int| 0 <= i < r@.len() ==> r@[i]@ == self@[i],
    {
        &self.contents
    }

    /// The turns, writable in place.
    pub fn get_contents_mut(&mut self) -> (r: &mut Vec<Content>)
        ensures
            r@.len() == old(self)@.len(),
            forall|i: int| 0 <= i < r@.len() ==> r@[i]@ == old(self)@[i],
            final(self)@.len() == final(r)@.len(),
            forall|i: int| 0 <= i < final(r)@.len() ==> final(self)@[i] == final(r)@[i]@,
    {
        &mut self.contents
    }
}

} // verus!
