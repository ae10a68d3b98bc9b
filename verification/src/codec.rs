//! Wire messages and the clipboard content they carry.
//!
//! A message is a type tag and a body. A text body is the UTF-8 encoding of
//! the text. An image body is the width and the height, each as four
//! little-endian bytes, followed by the raw RGBA8 pixel bytes.

use vstd::prelude::*;
use vstd::slice::slice_subrange;
use vstd::slice::slice_to_vec;
use vstd::string::StringSliceAdditionalSpecFns;
use vstd::utf8::decode_utf8;
use vstd::utf8::encode_utf8;
use vstd::utf8::encode_utf8_decode_utf8;
use vstd::utf8::encode_utf8_valid_utf8;
use vstd::utf8::valid_utf8;

verus! {

/// Largest body, in bytes, that a message may carry: 10 MiB.
pub const MAX_BODY: usize = 10485760;

/// Bytes that the width and the height take at the head of an image body.
pub const IMAGE_HEADER: usize = 8;

/// A message as it travels between peers.
#[derive(Debug)]
pub struct Message {
    pub kind: String,
    pub body: Vec<u8>,
}

/// What a `Message` is, as mathematical values.
pub struct MessageView {
    pub kind: Seq<char>,
    pub body: Seq<u8>,
}

impl View for Message {
    type V = MessageView;

    open spec fn view(&self) -> MessageView {
        MessageView { kind: self.kind@, body: self.body@ }
    }
}

impl Clone for Message {
    fn clone(&self) -> (copy: Self)
        ensures
            copy@ == self@,
    {
        Message { kind: self.kind.clone(), body: self.body.clone() }
    }
}

/// Clipboard content.
#[derive(Debug)]
pub enum Content {
    Text(String),
    Image { width: u32, height: u32, pixels: Vec<u8> },
}

/// What a `Content` is, as mathematical values.
pub enum ContentView {
    Text(Seq<char>),
    Image { width: u32, height: u32, pixels: Seq<u8> },
}

impl View for Content {
    type V = ContentView;

    open spec fn view(&self) -> ContentView {
        match self {
            Content::Text(text) => ContentView::Text(text@),
            Content::Image { width, height, pixels } => ContentView::Image {
                width: *width,
                height: *height,
                pixels: pixels@,
            },
        }
    }
}

impl Clone for Content {
    fn clone(&self) -> (copy: Self)
        ensures
            copy@ == self@,
    {
        match self {
            Content::Text(text) => Content::Text(text.clone()),
            Content::Image { width, height, pixels } => Content::Image {
                width: *width,
                height: *height,
                pixels: pixels.clone(),
            },
        }
    }
}

/// Why a message carries no content.
#[derive(Clone, Copy, Debug, PartialEq, Eq, Structural)]
pub enum DecodeError {
    /// The type tag is neither `text` nor `image`.
    UnknownType,
    /// A text body is not valid UTF-8.
    InvalidText,
    /// An image body is shorter than its eight header bytes.
    ShortImage,
}

/// The type tag of a text message.
pub open spec fn text_tag() -> Seq<char> {
    "text"@
}

/// The type tag of an image message.
pub open spec fn image_tag() -> Seq<char> {
    "image"@
}

/// The four bytes of `x`, least significant first.
pub open spec fn le_bytes(x: u32) -> Seq<u8> {
    seq![
        (x % 256) as u8,
        (x / 256 % 256) as u8,
        (x / 65536 % 256) as u8,
        (x / 16777216) as u8,
    ]
}

/// The number whose little-endian bytes are the first four of `b`.
pub open spec fn le_value(b: Seq<u8>) -> u32
    recommends
        b.len() >= 4,
{
    (b[0] as int + 256 * (b[1] as int) + 65536 * (b[2] as int) + 16777216 * (b[3] as int)) as u32
}

/// The message that carries `text`.
pub open spec fn text_message(text: Seq<char>) -> MessageView {
    MessageView { kind: text_tag(), body: encode_utf8(text) }
}

/// The body of an image message.
pub open spec fn image_body(width: u32, height: u32, pixels: Seq<u8>) -> Seq<u8> {
    le_bytes(width) + le_bytes(height) + pixels
}

/// Whether an image of `pixels` bytes fits into one message.
pub open spec fn image_fits(pixels: nat) -> bool {
    IMAGE_HEADER + pixels <= MAX_BODY
}

/// The message that carries an image, where it fits.
pub open spec fn image_message(width: u32, height: u32, pixels: Seq<u8>) -> Option<MessageView> {
    if image_fits(pixels.len()) {
        Some(MessageView { kind: image_tag(), body: image_body(width, height, pixels) })
    } else {
        None
    }
}

/// The message that carries `content`, where there is one.
pub open spec fn encoded(content: ContentView) -> Option<MessageView> {
    match content {
        ContentView::Text(text) => Some(text_message(text)),
        ContentView::Image { width, height, pixels } => image_message(width, height, pixels),
    }
}

/// The content that a message carries, or why it carries none.
pub open spec fn decoded(message: MessageView) -> Result<ContentView, DecodeError> {
    if message.kind == text_tag() {
        if valid_utf8(message.body) {
            Ok(ContentView::Text(decode_utf8(message.body)))
        } else {
            Err(DecodeError::InvalidText)
        }
    } else if message.kind == image_tag() {
        if message.body.len() >= IMAGE_HEADER {
            Ok(
                ContentView::Image {
                    width: le_value(message.body.subrange(0, 4)),
                    height: le_value(message.body.subrange(4, 8)),
                    pixels: message.body.subrange(8, message.body.len() as int),
                },
            )
        } else {
            Err(DecodeError::ShortImage)
        }
    } else {
        Err(DecodeError::UnknownType)
    }
}

/// `String::from_utf8` of std: the bytes become a string exactly when they
/// are valid UTF-8, and the string's bytes are then the bytes given.
#[verifier::external_body]
fn string_from_utf8(bytes: Vec<u8>) -> (text: Option<String>)
    ensures
        text is Some <==> valid_utf8(bytes@),
        text is Some ==> encode_utf8(text.unwrap()@) == bytes@,
{
    String::from_utf8(bytes).ok()
}

/// Whether `kind` is the tag `tag`.
fn tag_is(kind: &String, tag: &str) -> (same: bool)
    ensures
        same == (kind@ == tag@),
{
    let wanted: String = tag.to_owned();
    *kind == wanted
}

/// Appends the four little-endian bytes of `x` to `out`.
fn push_le(out: &mut Vec<u8>, x: u32)
    ensures
        final(out)@ == old(out)@ + le_bytes(x),
{
    out.push((x % 256) as u8);
    out.push((x / 256 % 256) as u8);
    out.push((x / 65536 % 256) as u8);
    out.push((x / 16777216) as u8);
    assert(out@ =~= old(out)@ + le_bytes(x));
}

/// Reads the little-endian number that starts at `at`.
fn read_le(bytes: &Vec<u8>, at: usize) -> (x: u32)
    requires
        at + 4 <= bytes.len(),
    ensures
        x == le_value(bytes@.subrange(at as int, at + 4)),
{
    let b0: u32 = bytes[at] as u32;
    let b1: u32 = bytes[at + 1] as u32;
    let b2: u32 = bytes[at + 2] as u32;
    let b3: u32 = bytes[at + 3] as u32;
    b0 + 256 * b1 + 65536 * b2 + 16777216 * b3
}

/// Encodes a text: the tag `text` and the text's UTF-8 bytes.
pub fn encode_text(text: &str) -> (message: Message)
    ensures
        message@ == text_message(text@),
{
    Message { kind: "text".to_owned(), body: slice_to_vec(text.as_bytes()) }
}

/// Encodes an image: the tag `image`, then width, height and pixels.
/// An image whose body would be longer than `MAX_BODY` has no message.
pub fn encode_image(width: u32, height: u32, pixels: &[u8]) -> (message: Option<Message>)
    ensures
        message is Some <==> image_fits(pixels@.len()),
        message is Some ==> Some(message.unwrap()@) == image_message(width, height, pixels@),
        message is None ==> image_message(width, height, pixels@) is None,
{
    if pixels.len() > MAX_BODY - IMAGE_HEADER {
        return None;
    }
    let mut body: Vec<u8> = Vec::with_capacity(pixels.len() + IMAGE_HEADER);
    push_le(&mut body, width);
    push_le(&mut body, height);
    body.extend_from_slice(pixels);
    assert(body@ =~= image_body(width, height, pixels@));
    Some(Message { kind: "image".to_owned(), body })
}

/// Encodes clipboard content, where it fits into one message.
pub fn encode(content: &Content) -> (message: Option<Message>)
    ensures
        message is Some <==> encoded(content@) is Some,
        message is Some ==> Some(message.unwrap()@) == encoded(content@),
{
    match content {
        Content::Text(text) => Some(encode_text(text.as_str())),
        Content::Image { width, height, pixels } => encode_image(
            *width,
            *height,
            pixels.as_slice(),
        ),
    }
}

/// Decodes a message: a text from valid UTF-8, an image from a body that
/// holds at least the two sizes; any other tag carries nothing.
pub fn decode(message: Message) -> (content: Result<Content, DecodeError>)
    ensures
        content is Ok <==> decoded(message@) is Ok,
        content is Ok ==> Ok::<ContentView, DecodeError>(content.unwrap()@) == decoded(message@),
        content is Err ==> Err::<ContentView, DecodeError>(content.unwrap_err()) == decoded(
            message@,
        ),
{
    if tag_is(&message.kind, "text") {
        match string_from_utf8(message.body) {
            Some(text) => {
                proof {
                    encode_utf8_decode_utf8(text@);
                }
                Ok(Content::Text(text))
            },
            None => Err(DecodeError::InvalidText),
        }
    } else if tag_is(&message.kind, "image") {
        if message.body.len() < IMAGE_HEADER {
            return Err(DecodeError::ShortImage);
        }
        let width: u32 = read_le(&message.body, 0);
        let height: u32 = read_le(&message.body, 4);
        let pixels: Vec<u8> = slice_to_vec(
            slice_subrange(message.body.as_slice(), IMAGE_HEADER, message.body.len()),
        );
        Ok(Content::Image { width, height, pixels })
    } else {
        Err(DecodeError::UnknownType)
    }
}

/// Reading back the little-endian bytes of a number gives the number.
pub proof fn lemma_le_roundtrip(x: u32)
    ensures
        le_bytes(x).len() == 4,
        le_value(le_bytes(x)) == x,
{
}

/// The two type tags differ.
pub proof fn lemma_tags_differ()
    ensures
        text_tag() != image_tag(),
        text_tag().len() == 4,
        image_tag().len() == 5,
{
    reveal_strlit("text");
    reveal_strlit("image");
    assert("text"@.len() == 4);
    assert("image"@.len() == 5);
}

/// Decoding an encoded image gives back its width, its height and its
/// pixels, whatever they are.
pub proof fn lemma_image_roundtrip(width: u32, height: u32, pixels: Seq<u8>)
    ensures
        decoded(MessageView { kind: image_tag(), body: image_body(width, height, pixels) }) == Ok::<
            ContentView,
            DecodeError,
        >(ContentView::Image { width, height, pixels }),
        image_fits(pixels.len()) ==> image_message(width, height, pixels) is Some && decoded(
            image_message(width, height, pixels).unwrap(),
        ) == Ok::<ContentView, DecodeError>(ContentView::Image { width, height, pixels }),
{
    lemma_tags_differ();
    lemma_le_roundtrip(width);
    lemma_le_roundtrip(height);
    let body = image_body(width, height, pixels);
    assert(body.subrange(0, 4) =~= le_bytes(width));
    assert(body.subrange(4, 8) =~= le_bytes(height));
    assert(body.subrange(8, body.len() as int) =~= pixels);
}

/// The body of an encoded image holds the two sizes at least and is no
/// longer than `MAX_BODY`.
pub proof fn lemma_image_body_bounded(width: u32, height: u32, pixels: Seq<u8>)
    requires
        image_message(width, height, pixels) is Some,
    ensures
        IMAGE_HEADER <= image_message(width, height, pixels).unwrap().body.len() <= MAX_BODY,
        image_message(width, height, pixels).unwrap().body.len() == IMAGE_HEADER + pixels.len(),
{
}

/// An image that does not fit has no message.
pub proof fn lemma_oversized_image_rejected(width: u32, height: u32, pixels: Seq<u8>)
    requires
        IMAGE_HEADER + pixels.len() > MAX_BODY,
    ensures
        image_message(width, height, pixels) is None,
        encoded(ContentView::Image { width, height, pixels }) is None,
{
}

/// Decoding an encoded text gives back the text.
pub proof fn lemma_text_roundtrip(text: Seq<char>)
    ensures
        decoded(text_message(text)) == Ok::<ContentView, DecodeError>(ContentView::Text(text)),
{
    encode_utf8_valid_utf8(text);
    encode_utf8_decode_utf8(text);
}

/// Whatever is encoded decodes to itself.
pub proof fn lemma_roundtrip(content: ContentView)
    requires
        encoded(content) is Some,
    ensures
        decoded(encoded(content).unwrap()) == Ok::<ContentView, DecodeError>(content),
{
    match content {
        ContentView::Text(text) => lemma_text_roundtrip(text),
        ContentView::Image { width, height, pixels } => lemma_image_roundtrip(
            width,
            height,
            pixels,
        ),
    }
}

} // verus!
