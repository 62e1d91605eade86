//! How deeply the messages of a model file are nested.
//!
//! A model file is one Protocol Buffers message. Graphs hold nodes, whose attributes
//! hold graphs, and types hold types, to any depth. A parser that descends into them
//! by recursion needs stack for every level, so the levels are counted beforehand.
use vstd::prelude::*;
use vstd::slice::slice_subrange;

verus! {

/// The most levels that a model file may have. It is the default limit of Protocol
/// Buffers, with which ONNX Runtime reads the same file to make a session of it.
pub const NESTING_LIMIT: usize = 100;

/// The messages of the ONNX format inside which messages can be nested to any depth.
#[derive(Clone, Copy, Debug, PartialEq, Eq, Structural)]
pub enum Message {
    /// The whole file.
    Model,
    /// Training information.
    Training,
    /// A function.
    Function,
    /// A graph.
    Graph,
    /// A node.
    Node,
    /// An attribute.
    Attribute,
    /// A declared value.
    Value,
    /// A type.
    Type,
    /// A sequence or optional type.
    Element,
    /// A map type.
    Pairs,
}

/// How the content of a field is laid out.
#[derive(Clone, Copy, Debug, PartialEq, Eq, Structural)]
pub enum Content {
    /// A number of variable length.
    Number,
    /// Four bytes.
    Single,
    /// Eight bytes.
    Double,
    /// A length and so many bytes, inside which nothing is nested to any depth.
    Bytes,
    /// A length and so many bytes, which are a message.
    Nested(Message),
}

/// The layout that a wire type stands for.
pub open spec fn plain_content(wire: u64) -> Content {
    match wire {
        0 => Content::Number,
        1 => Content::Double,
        2 => Content::Bytes,
        _ => Content::Single,
    }
}

/// The layout of a field. A field that the format knows has the layout that the
/// format gives it, whatever its wire type; only lists of numbers come in two layouts.
pub open spec fn content(message: Message, field: u64, wire: u64) -> Content {
    match message {
        Message::Model => match field {
            1 | 5 => Content::Number,
            2 | 3 | 4 | 6 | 8 | 14 => Content::Bytes,
            7 => Content::Nested(Message::Graph),
            20 => Content::Nested(Message::Training),
            25 => Content::Nested(Message::Function),
            _ => plain_content(wire),
        },
        Message::Training => match field {
            1 | 2 => Content::Nested(Message::Graph),
            3 | 4 => Content::Bytes,
            _ => plain_content(wire),
        },
        Message::Function => match field {
            1 | 4 | 5 | 6 | 8 | 9 | 10 | 13 | 14 => Content::Bytes,
            7 => Content::Nested(Message::Node),
            11 => Content::Nested(Message::Attribute),
            12 => Content::Nested(Message::Value),
            _ => plain_content(wire),
        },
        Message::Graph => match field {
            1 => Content::Nested(Message::Node),
            2 | 5 | 10 | 14 | 15 | 16 => Content::Bytes,
            11 | 12 | 13 => Content::Nested(Message::Value),
            _ => plain_content(wire),
        },
        Message::Node => match field {
            1 | 2 | 3 | 4 | 6 | 7 | 8 | 9 => Content::Bytes,
            5 => Content::Nested(Message::Attribute),
            _ => plain_content(wire),
        },
        Message::Attribute => match field {
            1 | 4 | 5 | 9 | 10 | 13 | 21 | 22 | 23 => Content::Bytes,
            2 => Content::Single,
            3 | 20 => Content::Number,
            6 | 11 => Content::Nested(Message::Graph),
            7 => if wire == 2 {
                Content::Bytes
            } else {
                Content::Single
            },
            8 => if wire == 2 {
                Content::Bytes
            } else {
                Content::Number
            },
            14 | 15 => Content::Nested(Message::Type),
            _ => plain_content(wire),
        },
        Message::Value => match field {
            1 | 3 | 4 => Content::Bytes,
            2 => Content::Nested(Message::Type),
            _ => plain_content(wire),
        },
        Message::Type => match field {
            1 | 6 | 8 => Content::Bytes,
            4 | 9 => Content::Nested(Message::Element),
            5 => Content::Nested(Message::Pairs),
            _ => plain_content(wire),
        },
        Message::Element => match field {
            1 => Content::Nested(Message::Type),
            _ => plain_content(wire),
        },
        Message::Pairs => match field {
            1 => Content::Number,
            2 => Content::Nested(Message::Type),
            _ => plain_content(wire),
        },
    }
}

fn plain_layout(wire: u64) -> (r: Content)
    ensures
        r == plain_content(wire),
{
    match wire {
        0 => Content::Number,
        1 => Content::Double,
        2 => Content::Bytes,
        _ => Content::Single,
    }
}

fn layout(message: Message, field: u64, wire: u64) -> (r: Content)
    ensures
        r == content(message, field, wire),
{
    match message {
        Message::Model => match field {
            1 | 5 => Content::Number,
            2 | 3 | 4 | 6 | 8 | 14 => Content::Bytes,
            7 => Content::Nested(Message::Graph),
            20 => Content::Nested(Message::Training),
            25 => Content::Nested(Message::Function),
            _ => plain_layout(wire),
        },
        Message::Training => match field {
            1 | 2 => Content::Nested(Message::Graph),
            3 | 4 => Content::Bytes,
            _ => plain_layout(wire),
        },
        Message::Function => match field {
            1 | 4 | 5 | 6 | 8 | 9 | 10 | 13 | 14 => Content::Bytes,
            7 => Content::Nested(Message::Node),
            11 => Content::Nested(Message::Attribute),
            12 => Content::Nested(Message::Value),
            _ => plain_layout(wire),
        },
        Message::Graph => match field {
            1 => Content::Nested(Message::Node),
            2 | 5 | 10 | 14 | 15 | 16 => Content::Bytes,
            11 | 12 | 13 => Content::Nested(Message::Value),
            _ => plain_layout(wire),
        },
        Message::Node => match field {
            1 | 2 | 3 | 4 | 6 | 7 | 8 | 9 => Content::Bytes,
            5 => Content::Nested(Message::Attribute),
            _ => plain_layout(wire),
        },
        Message::Attribute => match field {
            1 | 4 | 5 | 9 | 10 | 13 | 21 | 22 | 23 => Content::Bytes,
            2 => Content::Single,
            3 | 20 => Content::Number,
            6 | 11 => Content::Nested(Message::Graph),
            7 => {
                if wire == 2 {
                    Content::Bytes
                } else {
                    Content::Single
                }
            },
            8 => {
                if wire == 2 {
                    Content::Bytes
                } else {
                    Content::Number
                }
            },
            14 | 15 => Content::Nested(Message::Type),
            _ => plain_layout(wire),
        },
        Message::Value => match field {
            1 | 3 | 4 => Content::Bytes,
            2 => Content::Nested(Message::Type),
            _ => plain_layout(wire),
        },
        Message::Type => match field {
            1 | 6 | 8 => Content::Bytes,
            4 | 9 => Content::Nested(Message::Element),
            5 => Content::Nested(Message::Pairs),
            _ => plain_layout(wire),
        },
        Message::Element => match field {
            1 => Content::Nested(Message::Type),
            _ => plain_layout(wire),
        },
        Message::Pairs => match field {
            1 => Content::Number,
            2 => Content::Nested(Message::Type),
            _ => plain_layout(wire),
        },
    }
}

/// The number of at most `width` bytes that stands at `at`, seven bits to a byte with
/// the lowest first, and where it ends. A byte of 128 or more has another behind it.
/// The last of `width` bytes may hold one bit only.
pub open spec fn number(bytes: Seq<u8>, at: int, width: nat) -> Option<(nat, int)>
    decreases width,
{
    if width == 0 || at < 0 || at >= bytes.len() {
        None
    } else if width == 1 && bytes[at] > 1 {
        None
    } else if bytes[at] < 128 {
        Some((bytes[at] as nat, at + 1))
    } else {
        match number(bytes, at + 1, (width - 1) as nat) {
            None => None,
            Some((high, end)) => Some(((bytes[at] - 128 + 128 * high) as nat, end)),
        }
    }
}

/// The bytes of the longest number: it has 64 bits.
pub const NUMBER_WIDTH: usize = 10;

/// All numbers of `width` bytes are below this.
spec fn ceiling(width: nat) -> nat
    decreases width,
{
    if width <= 1 {
        2
    } else {
        128 * ceiling((width - 1) as nat)
    }
}

proof fn lemma_number_bounds(bytes: Seq<u8>, at: int, width: nat)
    requires
        number(bytes, at, width) is Some,
    ensures
        (number(bytes, at, width)->0).0 < ceiling(width),
        at < (number(bytes, at, width)->0).1 <= bytes.len(),
    decreases width,
{
    if bytes[at] >= 128 {
        lemma_number_bounds(bytes, at + 1, (width - 1) as nat);
    } else if width > 1 {
        lemma_ceiling_grows((width - 1) as nat);
    }
}

proof fn lemma_ceiling_grows(width: nat)
    ensures
        ceiling(width) >= 2,
    decreases width,
{
    if width > 1 {
        lemma_ceiling_grows((width - 1) as nat);
    }
}

proof fn lemma_ceilings(width: nat)
    requires
        width <= NUMBER_WIDTH,
    ensures
        ceiling(width) <= 0x1_0000_0000_0000_0000,
{
    reveal_with_fuel(ceiling, 11);
}

fn read_number(bytes: &[u8], at: usize, width: usize) -> (r: Option<(u64, usize)>)
    requires
        width <= NUMBER_WIDTH,
    ensures
        match (r, number(bytes@, at as int, width as nat)) {
            (Some(found), Some(wanted)) => found.0 == wanted.0 && found.1 == wanted.1,
            (None, None) => true,
            _ => false,
        },
    decreases width,
{
    if width == 0 || at >= bytes.len() {
        return None;
    }
    let byte: u8 = bytes[at];
    if width == 1 && byte > 1 {
        return None;
    }
    if byte < 128 {
        return Some((byte as u64, at + 1));
    }
    match read_number(bytes, at + 1, width - 1) {
        None => None,
        Some((high, end)) => {
            proof {
                lemma_number_bounds(bytes@, at as int, width as nat);
                lemma_ceilings(width as nat);
            }
            Some(((byte - 128) as u64 + 128 * high, end))
        },
    }
}

/// A field of a message.
pub struct FieldView {
    /// How its content is laid out.
    pub content: Content,
    /// Where its content begins, behind any length.
    pub start: int,
    /// Where its content ends.
    pub end: int,
}

/// The field at `at`, or `None` where no whole field stands there.
pub open spec fn field_at(message: Message, bytes: Seq<u8>, at: int) -> Option<FieldView> {
    match number(bytes, at, NUMBER_WIDTH as nat) {
        None => None,
        Some((tag, start)) => {
            let wire = tag % 8;
            let field = (tag / 8) % 0x1_0000_0000;
            if !(wire == 0 || wire == 1 || wire == 2 || wire == 5) {
                None
            } else {
                content_at(content(message, field as u64, wire as u64), bytes, start)
            }
        },
    }
}

/// The content that begins at `at`, or `None` where it is not all there.
pub open spec fn content_at(content: Content, bytes: Seq<u8>, at: int) -> Option<FieldView> {
    match content {
        Content::Single => fixed_at(content, bytes, at, 4),
        Content::Double => fixed_at(content, bytes, at, 8),
        Content::Number => match number(bytes, at, NUMBER_WIDTH as nat) {
            None => None,
            Some((_, end)) => Some(FieldView { content, start: at, end }),
        },
        Content::Bytes | Content::Nested(_) => match number(bytes, at, NUMBER_WIDTH as nat) {
            None => None,
            Some((length, start)) => fixed_at(
                content,
                bytes,
                start,
                (length % (usize::MAX + 1) as nat) as int,
            ),
        },
    }
}

/// Content of a known length, or `None` where it is not all there.
pub open spec fn fixed_at(content: Content, bytes: Seq<u8>, at: int, length: int) -> Option<
    FieldView,
> {
    if at + length > bytes.len() {
        None
    } else {
        Some(FieldView { content, start: at, end: at + length })
    }
}

/// A field lies inside its message, and its content behind its tag.
pub proof fn lemma_field_bounds(message: Message, bytes: Seq<u8>, at: int)
    requires
        field_at(message, bytes, at) is Some,
    ensures
        at < field_at(message, bytes, at)->0.start <= field_at(message, bytes, at)->0.end
            <= bytes.len(),
        0 <= at,
{
    lemma_number_bounds(bytes, at, NUMBER_WIDTH as nat);
    let start = (number(bytes, at, NUMBER_WIDTH as nat)->0).1;
    if number(bytes, start, NUMBER_WIDTH as nat) is Some {
        lemma_number_bounds(bytes, start, NUMBER_WIDTH as nat);
    }
}

/// A field of a message.
struct Field {
    content: Content,
    start: usize,
    end: usize,
}

impl View for Field {
    type V = FieldView;

    closed spec fn view(&self) -> FieldView {
        FieldView { content: self.content, start: self.start as int, end: self.end as int }
    }
}

/// A field over what a function returned.
spec fn field_result(r: Option<Field>) -> Option<FieldView> {
    match r {
        None => None,
        Some(field) => Some(field@),
    }
}

fn read_fixed(content: Content, bytes: &[u8], at: usize, length: usize) -> (r: Option<Field>)
    requires
        at <= bytes@.len(),
    ensures
        field_result(r) == fixed_at(content, bytes@, at as int, length as int),
{
    if length > bytes.len() - at {
        return None;
    }
    Some(Field { content, start: at, end: at + length })
}

fn as_length(n: u64) -> (r: usize)
    ensures
        r == (n as nat) % (usize::MAX + 1) as nat,
{
    if n <= usize::MAX as u64 {
        n as usize
    } else {
        (n % (usize::MAX as u64 + 1)) as usize
    }
}

fn read_content(content: Content, bytes: &[u8], at: usize) -> (r: Option<Field>)
    requires
        at <= bytes@.len(),
    ensures
        field_result(r) == content_at(content, bytes@, at as int),
{
    match content {
        Content::Single => read_fixed(content, bytes, at, 4),
        Content::Double => read_fixed(content, bytes, at, 8),
        Content::Number => match read_number(bytes, at, NUMBER_WIDTH) {
            None => None,
            Some((_, end)) => Some(Field { content, start: at, end }),
        },
        Content::Bytes | Content::Nested(_) => match read_number(bytes, at, NUMBER_WIDTH) {
            None => None,
            Some((length, start)) => {
                proof {
                    lemma_number_bounds(bytes@, at as int, NUMBER_WIDTH as nat);
                }
                read_fixed(content, bytes, start, as_length(length))
            },
        },
    }
}

fn read_field(message: Message, bytes: &[u8], at: usize) -> (r: Option<Field>)
    ensures
        field_result(r) == field_at(message, bytes@, at as int),
{
    match read_number(bytes, at, NUMBER_WIDTH) {
        None => None,
        Some((tag, start)) => {
            proof {
                lemma_number_bounds(bytes@, at as int, NUMBER_WIDTH as nat);
            }
            let wire: u64 = tag % 8;
            let field: u64 = (tag / 8) % 0x1_0000_0000;
            if !(wire == 0 || wire == 1 || wire == 2 || wire == 5) {
                return None;
            }
            read_content(layout(message, field, wire), bytes, start)
        },
    }
}

/// The levels of messages inside a message, counted from its field at `at` on. Nothing
/// is counted behind a field that is not whole.
pub open spec fn levels(message: Message, bytes: Seq<u8>, at: int) -> nat
    decreases bytes.len(), bytes.len() - at,
{
    match field_at(message, bytes, at) {
        None => 0,
        Some(field) => {
            proof {
                lemma_field_bounds(message, bytes, at);
            }
            let behind = levels(message, bytes, field.end);
            match field.content {
                Content::Nested(inner) => {
                    let inside = 1 + levels(inner, bytes.subrange(field.start, field.end), 0);
                    if inside > behind {
                        inside
                    } else {
                        behind
                    }
                },
                _ => behind,
            }
        },
    }
}

/// How deeply the messages of a model file are nested: the length of the longest chain
/// of graphs, nodes, attributes, values and types in which each holds the next.
pub open spec fn nesting(bytes: Seq<u8>) -> nat {
    levels(Message::Model, bytes, 0)
}

fn has_levels_within(message: Message, bytes: &[u8], limit: usize) -> (r: bool)
    ensures
        r == (levels(message, bytes@, 0) <= limit),
    decreases limit,
{
    let mut at: usize = 0;
    loop
        invariant
            at <= bytes@.len(),
            levels(message, bytes@, 0) <= limit <==> levels(message, bytes@, at as int) <= limit,
        decreases bytes@.len() - at,
    {
        match read_field(message, bytes, at) {
            None => {
                return true;
            },
            Some(field) => {
                proof {
                    lemma_field_bounds(message, bytes@, at as int);
                }
                if let Content::Nested(inner) = field.content {
                    if limit == 0 {
                        return false;
                    }
                    let body = slice_subrange(bytes, field.start, field.end);
                    if !has_levels_within(inner, body, limit - 1) {
                        return false;
                    }
                }
                at = field.end;
            },
        }
    }
}

/// Whether the messages of a model file are nested at most `limit` levels deep.
pub(crate) fn nests_within(bytes: &[u8], limit: usize) -> (r: bool)
    ensures
        r == (nesting(bytes@) <= limit),
{
    has_levels_within(Message::Model, bytes, limit)
}

/// A number as the format writes it: seven bits to a byte, the low ones first, and a
/// high bit on every byte but the last.
pub open spec fn written(n: nat) -> Seq<u8>
    decreases n,
{
    if n < 128 {
        seq![n as u8]
    } else {
        seq![(n % 128 + 128) as u8] + written(n / 128)
    }
}

/// Below what a number of this many bytes is.
pub open spec fn room(width: nat) -> nat
    decreases width,
{
    if width <= 1 {
        2
    } else {
        128 * room((width - 1) as nat)
    }
}

proof fn lemma_numbers_read_back(bytes: Seq<u8>, at: int, n: nat, width: nat)
    requires
        0 <= at,
        at + written(n).len() <= bytes.len(),
        bytes.subrange(at, at + written(n).len()) == written(n),
        1 <= width,
        n < room(width),
    ensures
        number(bytes, at, width) == Some((n, at + written(n).len())),
    decreases n,
{
    let all = written(n);
    assert(bytes[at] == bytes.subrange(at, at + all.len())[0]);
    if n >= 128 {
        let rest = written(n / 128);
        assert(width > 1);
        assert(n / 128 < room((width - 1) as nat));
        assert(bytes.subrange(at + 1, at + 1 + rest.len()) =~= rest) by {
            assert forall|i: int| 0 <= i < rest.len() implies bytes[at + 1 + i] == rest[i] by {
                assert(bytes.subrange(at, at + all.len())[i + 1] == all[i + 1]);
            }
        }
        lemma_numbers_read_back(bytes, at + 1, n / 128, (width - 1) as nat);
    }
}

/// Numbers of 64 bits are read back wherever they stand.
pub proof fn law_numbers_read_back(before: Seq<u8>, n: nat, after: Seq<u8>)
    requires
        n <= u64::MAX,
    ensures
        number(before + written(n) + after, before.len() as int, NUMBER_WIDTH as nat) == Some(
            (n, (before + written(n)).len() as int),
        ),
{
    let bytes = before + written(n) + after;
    let at = before.len() as int;
    assert(bytes.subrange(at, at + written(n).len()) =~= written(n));
    assert(room(10) == 0x1_0000_0000_0000_0000) by {
        reveal_with_fuel(room, 11);
    }
    lemma_numbers_read_back(bytes, at, n, NUMBER_WIDTH as nat);
}

/// A message that holds another is nested one level deeper than that one, unless what
/// follows is nested deeper still. A field of bytes adds nothing.
pub proof fn law_holding_adds_a_level(
    message: Message,
    field: u32,
    body: Seq<u8>,
    rest: Seq<u8>,
)
    requires
        body.len() <= usize::MAX,
        body.len() <= u64::MAX,
    ensures
        ({
            let head = written((8 * field + 2) as nat) + written(body.len());
            let bytes = head + body + rest;
            let behind = levels(message, bytes, (head + body).len() as int);
            &&& content(message, field as u64, 2) matches Content::Nested(inner) ==> {
                &&& levels(message, bytes, 0) >= 1 + levels(inner, body, 0)
                &&& levels(message, bytes, 0) >= behind
                &&& levels(message, bytes, 0) == 1 + levels(inner, body, 0) || levels(
                    message,
                    bytes,
                    0,
                ) == behind
            }
            &&& content(message, field as u64, 2) == Content::Bytes ==> levels(message, bytes, 0)
                == behind
        }),
{
    let tag = (8 * field + 2) as nat;
    let first = written(tag);
    let second = written(body.len());
    let head = first + second;
    let bytes = head + body + rest;
    let none = Seq::<u8>::empty();
    law_numbers_read_back(none, tag, second + body + rest);
    assert(none + first + (second + body + rest) =~= bytes);
    assert(none + first =~= first);
    law_numbers_read_back(first, body.len(), body + rest);
    assert(first + second + (body + rest) =~= bytes);
    assert(bytes.subrange(head.len() as int, (head + body).len() as int) =~= body);
    assert(tag % 8 == 2);
    assert((tag / 8) % 0x1_0000_0000 == field);
    vstd::arithmetic::div_mod::lemma_small_mod(body.len(), (usize::MAX + 1) as nat);
    let found = content(message, field as u64, 2);
    if found is Nested || found == Content::Bytes {
        lemma_field_bounds(message, bytes, 0);
    }
}

/// A field that is a number adds no level.
pub proof fn law_numbers_add_no_level(message: Message, field: u32, n: u64, rest: Seq<u8>)
    requires
        content(message, field as u64, 0) == Content::Number,
    ensures
        ({
            let head = written(8 * field as nat) + written(n as nat);
            levels(message, head + rest, 0) == levels(message, head + rest, head.len() as int)
        }),
{
    let none = Seq::<u8>::empty();
    let tag = 8 * field as nat;
    let first = written(tag);
    let second = written(n as nat);
    let bytes = first + second + rest;
    law_numbers_read_back(none, tag, second + rest);
    assert(none + first + (second + rest) =~= bytes);
    assert(none + first =~= first);
    law_numbers_read_back(first, n as nat, rest);
    assert(tag % 8 == 0 && (tag / 8) % 0x1_0000_0000 == field);
    assert(field_at(message, bytes, 0) == content_at(
        Content::Number,
        bytes,
        first.len() as int,
    ));
    lemma_field_bounds(message, bytes, 0);
}

/// A field of four bytes adds no level.
pub proof fn law_four_bytes_add_no_level(message: Message, field: u32, rest: Seq<u8>)
    requires
        content(message, field as u64, 5) == Content::Single,
        rest.len() >= 4,
    ensures
        ({
            let head = written((8 * field + 5) as nat);
            levels(message, head + rest, 0) == levels(message, head + rest, head.len() as int + 4)
        }),
{
    let none = Seq::<u8>::empty();
    let tag = (8 * field + 5) as nat;
    let first = written(tag);
    law_numbers_read_back(none, tag, rest);
    assert(none + first =~= first);
    assert(tag % 8 == 5 && (tag / 8) % 0x1_0000_0000 == field);
    assert(field_at(message, first + rest, 0) == content_at(
        Content::Single,
        first + rest,
        first.len() as int,
    ));
    lemma_field_bounds(message, first + rest, 0);
}

/// A field of eight bytes adds no level.
pub proof fn law_eight_bytes_add_no_level(message: Message, field: u32, rest: Seq<u8>)
    requires
        content(message, field as u64, 1) == Content::Double,
        rest.len() >= 8,
    ensures
        ({
            let head = written((8 * field + 1) as nat);
            levels(message, head + rest, 0) == levels(message, head + rest, head.len() as int + 8)
        }),
{
    let none = Seq::<u8>::empty();
    let tag = (8 * field + 1) as nat;
    let first = written(tag);
    law_numbers_read_back(none, tag, rest);
    assert(none + first =~= first);
    assert(tag % 8 == 1 && (tag / 8) % 0x1_0000_0000 == field);
    assert(field_at(message, first + rest, 0) == content_at(
        Content::Double,
        first + rest,
        first.len() as int,
    ));
    lemma_field_bounds(message, first + rest, 0);
}

/// A field that the format does not know is what its wire type says.
pub proof fn law_unknown_fields_go_by_their_wire_type(message: Message, field: u64)
    requires
        field == 0 || field > 25,
    ensures
        content(message, field, 0) == Content::Number,
        content(message, field, 1) == Content::Double,
        content(message, field, 2) == Content::Bytes,
        content(message, field, 5) == Content::Single,
{
}

/// The chain that can be repeated without end is followed: a model holds a graph, a
/// graph nodes, a node attributes and an attribute graphs, and types hold types.
pub proof fn law_recursive_messages_are_followed(wire: u64)
    ensures
        content(Message::Model, 7, wire) == Content::Nested(Message::Graph),
        content(Message::Graph, 1, wire) == Content::Nested(Message::Node),
        content(Message::Node, 5, wire) == Content::Nested(Message::Attribute),
        content(Message::Attribute, 6, wire) == Content::Nested(Message::Graph),
        content(Message::Attribute, 11, wire) == Content::Nested(Message::Graph),
        content(Message::Model, 20, wire) == Content::Nested(Message::Training),
        content(Message::Model, 25, wire) == Content::Nested(Message::Function),
        content(Message::Training, 1, wire) == Content::Nested(Message::Graph),
        content(Message::Training, 2, wire) == Content::Nested(Message::Graph),
        content(Message::Function, 7, wire) == Content::Nested(Message::Node),
        content(Message::Function, 11, wire) == Content::Nested(Message::Attribute),
        content(Message::Function, 12, wire) == Content::Nested(Message::Value),
        content(Message::Graph, 11, wire) == Content::Nested(Message::Value),
        content(Message::Graph, 12, wire) == Content::Nested(Message::Value),
        content(Message::Graph, 13, wire) == Content::Nested(Message::Value),
        content(Message::Value, 2, wire) == Content::Nested(Message::Type),
        content(Message::Attribute, 14, wire) == Content::Nested(Message::Type),
        content(Message::Attribute, 15, wire) == Content::Nested(Message::Type),
        content(Message::Type, 4, wire) == Content::Nested(Message::Element),
        content(Message::Type, 9, wire) == Content::Nested(Message::Element),
        content(Message::Type, 5, wire) == Content::Nested(Message::Pairs),
        content(Message::Element, 1, wire) == Content::Nested(Message::Type),
        content(Message::Pairs, 2, wire) == Content::Nested(Message::Type),
{
}

/// The nesting of a model file is that of its messages.
pub proof fn law_nesting_counts_from_the_model(bytes: Seq<u8>)
    ensures
        nesting(bytes) == levels(Message::Model, bytes, 0),
        bytes.len() == 0 ==> nesting(bytes) == 0,
{
}

} // verus!
