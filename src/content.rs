//! Content-type sniffing: classifies a raw value as structured text (JSON),
//! a compact binary document (CBOR) or opaque bytes, and renders it.
use vstd::prelude::*;
use vstd::utf8::{decode_utf8, valid_utf8};

verus! {

/// Spaces per level when structured text is pretty-printed.
pub const INDENT: u16 = 2;

/// The encoding a value was recognised as.
#[derive(Debug, Clone, Copy, PartialEq, Eq, Structural, Default)]
pub enum ContentType {
    /// Structured text (JSON).
    Json,
    /// Opaque bytes, shown as hexadecimal.
    Hex,
    /// A compact binary document (CBOR).
    Cbor,
    /// Nothing is selected.
    #[default]
    Undefined,
}

impl ContentType {
    /// The label shown beside a value of this type.
    pub open spec fn label_spec(self) -> Seq<char> {
        match self {
            ContentType::Json => seq!['J', 'S', 'O', 'N'],
            ContentType::Hex => seq!['H', 'E', 'X'],
            ContentType::Cbor => seq!['C', 'B', 'O', 'R'],
            ContentType::Undefined => seq![],
        }
    }

    /// The label shown beside a value of this type.
    pub fn label(&self) -> (r: String)
        ensures
            r@ == self.label_spec(),
    {
        match self {
            ContentType::Json => {
                proof {
                    reveal_strlit("JSON");
                }
                "JSON".to_owned()
            },
            ContentType::Hex => {
                proof {
                    reveal_strlit("HEX");
                }
                "HEX".to_owned()
            },
            ContentType::Cbor => {
                proof {
                    reveal_strlit("CBOR");
                }
                "CBOR".to_owned()
            },
            ContentType::Undefined => {
                proof {
                    reveal_strlit("");
                }
                "".to_owned()
            },
        }
    }
}

/// The lowercase hexadecimal digit for `d` (below 16).
pub open spec fn hex_digit(d: int) -> char {
    seq!['0', '1', '2', '3', '4', '5', '6', '7', '8', '9', 'a', 'b', 'c', 'd', 'e', 'f'][d]
}

/// Two lowercase hexadecimal digits for each byte, high digit first.
pub open spec fn hex_of(b: Seq<u8>) -> Seq<char>
    decreases b.len(),
{
    if b.len() == 0 {
        seq![]
    } else {
        hex_of(b.drop_last()) + seq![hex_digit(b.last() as int / 16), hex_digit(b.last() as int % 16)]
    }
}

/// Relies on hex::encode: two lowercase hexadecimal digits for each byte,
/// in order.
#[verifier::external_body]
fn to_hex(b: &[u8]) -> (r: String)
    ensures
        r@ == hex_of(b@),
{
    hex::encode(b)
}

/// Relies on std's String::from_utf8: it succeeds exactly on valid UTF-8,
/// with the text that the bytes encode.
#[verifier::external_body]
fn text_of(b: &[u8]) -> (r: Option<String>)
    ensures
        r is Some <==> valid_utf8(b@),
        r is Some ==> r->0@ == decode_utf8(b@),
{
    String::from_utf8(b.to_vec()).ok()
}

/// What the structured-text parser and pretty-printer make of `text`:
/// `None` where it does not parse.
pub uninterp spec fn json_pretty_of(text: Seq<char>, indent: u16) -> Option<Seq<char>>;

/// Relies on json::parse, which fails on text that is not one JSON document,
/// and JsonValue::pretty, which prints the parsed value with `indent` spaces
/// per level. Both depend on their arguments alone.
#[verifier::external_body]
fn pretty_json(text: &str, indent: u16) -> (r: Option<String>)
    ensures
        r is None <==> json_pretty_of(text@, indent) is None,
        r is Some ==> json_pretty_of(text@, indent) == Some(r->0@),
{
    match json::parse(text) {
        Ok(v) => Some(v.pretty(indent)),
        Err(_) => None,
    }
}

/// A string option seen as an option of text.
pub open spec fn opt_view(o: Option<String>) -> Option<Seq<char>> {
    match o {
        Some(s) => Some(s@),
        None => None,
    }
}

/// The structured-text rendering of raw bytes: they must be UTF-8 and the
/// text must parse.
pub open spec fn json_attempt(raw: Seq<u8>) -> Option<Seq<char>> {
    if valid_utf8(raw) {
        json_pretty_of(decode_utf8(raw), INDENT)
    } else {
        None
    }
}

/// The classification and text given the structured-text rendering and the
/// binary-document rendering, tried in that order, with hexadecimal last.
pub open spec fn rendering(json: Option<Seq<char>>, cbor: Option<Seq<char>>, raw: Seq<u8>) -> (
    ContentType,
    Seq<char>,
) {
    match json {
        Some(j) => (ContentType::Json, j),
        None => match cbor {
            Some(c) => (ContentType::Cbor, c),
            None => (ContentType::Hex, hex_of(raw)),
        },
    }
}

/// Sniffing of raw bytes, where `cbor` is what the binary decoder rendered
/// them as; it counts only for bytes that may be handed to that decoder.
pub open spec fn sniffed(raw: Seq<u8>, cbor: Option<Seq<char>>) -> (ContentType, Seq<char>) {
    rendering(json_attempt(raw), if cbor_admissible(raw) { cbor } else { None }, raw)
}

/// What the value pane shows for a looked-up value: nothing without one.
pub open spec fn inspected(value: Option<Seq<u8>>, cbor: Option<Seq<char>>) -> (ContentType, Seq<char>) {
    match value {
        Some(v) => sniffed(v, cbor),
        None => (ContentType::Undefined, seq![]),
    }
}

/// The display form of a raw key: its text where it is UTF-8, else its
/// hexadecimal form.
pub open spec fn key_label_spec(raw: Seq<u8>) -> Seq<char> {
    if valid_utf8(raw) {
        decode_utf8(raw)
    } else {
        hex_of(raw)
    }
}

/// The display form of a raw key.
pub fn key_label(raw: &[u8]) -> (r: String)
    ensures
        r@ == key_label_spec(raw@),
{
    match text_of(raw) {
        Some(t) => t,
        None => to_hex(raw),
    }
}

/// The structured-text rendering of raw bytes, if they hold one.
pub fn json_rendering(raw: &[u8]) -> (r: Option<String>)
    ensures
        opt_view(r) == json_attempt(raw@),
{
    match text_of(raw) {
        Some(t) => pretty_json(t.as_str(), INDENT),
        None => None,
    }
}

/// Picks the classification and text from the renderings already made.
pub fn render_from(json: Option<String>, cbor: Option<String>, raw: &[u8]) -> (r: (
    ContentType,
    String,
))
    ensures
        r.0 == rendering(opt_view(json), opt_view(cbor), raw@).0,
        r.1@ == rendering(opt_view(json), opt_view(cbor), raw@).1,
{
    match json {
        Some(j) => (ContentType::Json, j),
        None => match cbor {
            Some(c) => (ContentType::Cbor, c),
            None => (ContentType::Hex, to_hex(raw)),
        },
    }
}

/// Classifies and renders raw value bytes. `cbor` is what the binary decoder
/// rendered them as; it is only consulted where the bytes are admissible.
pub fn sniff(raw: &[u8], cbor: Option<String>) -> (r: (ContentType, String))
    ensures
        r.0 == sniffed(raw@, opt_view(cbor)).0,
        r.1@ == sniffed(raw@, opt_view(cbor)).1,
{
    let json = json_rendering(raw);
    let cbor = if is_cbor_admissible(raw) {
        cbor
    } else {
        None
    };
    render_from(json, cbor, raw)
}

/// What the value pane shows for the value looked up for the selection:
/// `Undefined` and empty text where there is none.
pub fn inspect(value: &Option<Vec<u8>>, cbor: Option<String>) -> (r: (ContentType, String))
    ensures
        r.0 == inspected(match value {
            Some(v) => Some(v@),
            None => None,
        }, opt_view(cbor)).0,
        r.1@ == inspected(match value {
            Some(v) => Some(v@),
            None => None,
        }, opt_view(cbor)).1,
{
    match value {
        Some(v) => sniff(v.as_slice(), cbor),
        None => (ContentType::Undefined, String::new()),
    }
}


/// Most containers (arrays, maps, tags, indefinite-length strings) a binary
/// document may nest before it is handed to the decoder, whose reader and
/// printer recurse once per level.
pub const MAX_DEPTH: usize = 2048;

/// An open level of a binary document while its heads are walked.
#[derive(Debug, Clone, Copy, PartialEq, Eq, Structural)]
pub enum Frame {
    /// A definite-length array or map, or a tag: this many items still due.
    Count(usize),
    /// An indefinite-length array: items up to a break byte.
    Open,
    /// An indefinite-length map: keys and values up to a break byte, which
    /// may only stand where a key would; true while a value is due.
    OpenMap(bool),
    /// An indefinite-length string of this major type: definite-length
    /// chunks of the same type up to a break byte.
    Chunks(u8),
}

/// The open levels after one item ends in the innermost: a count goes down,
/// closing the level (which ends an item of the level around it) when it
/// reaches zero; an indefinite map alternates between key and value.
pub open spec fn finish(st: Seq<Frame>) -> Seq<Frame>
    decreases st.len(),
{
    if st.len() == 0 {
        st
    } else {
        match st.last() {
            Frame::Count(n) => if n <= 1 {
                finish(st.drop_last())
            } else {
                st.drop_last().push(Frame::Count((n - 1) as usize))
            },
            Frame::OpenMap(value_due) => st.drop_last().push(Frame::OpenMap(!value_due)),
            _ => st,
        }
    }
}

/// Bytes taken by a head whose low five bits are `add` (at most 27).
pub open spec fn head_size(add: u8) -> int {
    if add < 24 {
        1
    } else if add == 24 {
        2
    } else if add == 25 {
        3
    } else if add == 26 {
        5
    } else {
        9
    }
}

/// The big-endian number held in `len` bytes of `b` from `start`.
pub open spec fn be_value(b: Seq<u8>, start: int, len: int) -> nat
    decreases len,
{
    if len <= 0 {
        0
    } else {
        be_value(b, start, len - 1) * 256 + b[start + len - 1] as nat
    }
}

/// The argument of the head at `i`: a count, a length or a value.
pub open spec fn head_arg(b: Seq<u8>, i: int) -> nat {
    let add = b[i] % 32;
    if add < 24 {
        add as nat
    } else {
        be_value(b, i + 1, head_size(add) - 1)
    }
}

/// Walks the heads of a binary document from position `i`, with the open
/// levels `st` (innermost last). It holds when the first item ends exactly
/// at the end of `b`, and:
/// - a break byte stands only where it closes an indefinite-length array,
///   string, or map at a key's place;
/// - an indefinite-length string holds only definite-length chunks of its
///   own type;
/// - every declared length or count fits in what is left of `b`;
/// - at most `MAX_DEPTH` levels are open at once.
pub open spec fn cbor_walk(b: Seq<u8>, i: int, st: Seq<Frame>) -> bool
    decreases b.len() - i,
{
    if st.len() == 0 {
        i == b.len()
    } else if i < 0 || i >= b.len() {
        false
    } else {
        let h = b[i];
        let major = h / 32;
        let add = h % 32;
        let top = st.last();
        if h == 0xff {
            match top {
                Frame::Open => cbor_walk(b, i + 1, finish(st.drop_last())),
                Frame::OpenMap(false) => cbor_walk(b, i + 1, finish(st.drop_last())),
                Frame::Chunks(_) => cbor_walk(b, i + 1, finish(st.drop_last())),
                _ => false,
            }
        } else if (top matches Frame::Chunks(m) && (m != major || add > 27)) {
            false
        } else if add > 27 {
            if add == 31 && 2 <= major <= 5 && st.len() <= MAX_DEPTH {
                cbor_walk(
                    b,
                    i + 1,
                    st.push(
                        if major == 4 {
                            Frame::Open
                        } else if major == 5 {
                            Frame::OpenMap(false)
                        } else {
                            Frame::Chunks(major)
                        },
                    ),
                )
            } else {
                false
            }
        } else {
            let size = head_size(add);
            if i + size > b.len() {
                false
            } else {
                let arg = head_arg(b, i);
                let rest = b.len() - (i + size);
                if major == 2 || major == 3 {
                    arg <= rest && cbor_walk(b, i + size + arg, finish(st))
                } else if major == 4 || major == 5 {
                    let count = if major == 4 {
                        arg
                    } else {
                        2 * arg
                    };
                    count <= rest && if count == 0 {
                        cbor_walk(b, i + size, finish(st))
                    } else {
                        st.len() <= MAX_DEPTH && cbor_walk(
                            b,
                            i + size,
                            st.push(Frame::Count(count as usize)),
                        )
                    }
                } else if major == 6 {
                    st.len() <= MAX_DEPTH && cbor_walk(b, i + size, st.push(Frame::Count(1)))
                } else {
                    cbor_walk(b, i + size, finish(st))
                }
            }
        }
    }
}

/// The bytes may be handed to the binary decoder: see `cbor_walk`.
pub open spec fn cbor_admissible(b: Seq<u8>) -> bool {
    cbor_walk(b, 0, seq![Frame::Count(1)])
}

proof fn lemma_be_value_grows(b: Seq<u8>, start: int, k: int, j: int)
    requires
        0 <= k <= j,
    ensures
        be_value(b, start, k) <= be_value(b, start, j),
    decreases j - k,
{
    if j > k {
        lemma_be_value_grows(b, start, k, j - 1);
    }
}

/// The argument of the head at `i` when it is at most `limit`.
fn read_head_arg(b: &[u8], i: usize, limit: u64) -> (r: Option<u64>)
    requires
        i < b@.len(),
        b@[i as int] % 32 <= 27,
        i + head_size(b@[i as int] % 32) <= b@.len(),
    ensures
        r is Some <==> head_arg(b@, i as int) <= limit,
        r is Some ==> r->0 == head_arg(b@, i as int),
{
    let add = b[i] % 32;
    if add < 24 {
        return if add as u64 <= limit {
            Some(add as u64)
        } else {
            None
        };
    }
    let extra: usize = if add == 24 {
        1
    } else if add == 25 {
        2
    } else if add == 26 {
        4
    } else {
        8
    };
    let len = b.len();
    let mut v: u128 = 0;
    let mut k: usize = 0;
    while k < extra
        invariant
            k <= extra,
            extra == head_size(add) - 1,
            len == b@.len(),
            i + 1 + extra <= len,
            head_arg(b@, i as int) == be_value(b@, i + 1, extra as int),
            v == be_value(b@, i + 1, k as int),
            v <= limit,
        decreases extra - k,
    {
        let byte: u8 = b[i + 1 + k];
        v = v * 256 + byte as u128;
        k = k + 1;
        if v > limit as u128 {
            proof {
                lemma_be_value_grows(b@, i + 1, k as int, extra as int);
            }
            return None;
        }
    }
    Some(v as u64)
}

/// Closes the innermost level's current item: see `finish`.
fn finish_item(st: &mut Vec<Frame>)
    ensures
        final(st)@ == finish(old(st)@),
        final(st)@.len() <= old(st)@.len(),
{
    while st.len() > 0
        invariant
            finish(st@) == finish(old(st)@),
            st@.len() <= old(st)@.len(),
        decreases st@.len(),
    {
        let last = st.len() - 1;
        match st[last] {
            Frame::Count(n) => {
                if n <= 1 {
                    st.pop();
                } else {
                    st.set(last, Frame::Count(n - 1));
                    return;
                }
            },
            Frame::OpenMap(value_due) => {
                st.set(last, Frame::OpenMap(!value_due));
                return;
            },
            _ => {
                return;
            },
        }
    }
}

/// Whether the bytes may be handed to the binary decoder.
pub fn is_cbor_admissible(b: &[u8]) -> (r: bool)
    ensures
        r == cbor_admissible(b@),
{
    let len = b.len();
    let mut st: Vec<Frame> = Vec::new();
    st.push(Frame::Count(1));
    assert(st@ =~= seq![Frame::Count(1)]);
    let mut i: usize = 0;
    while st.len() > 0
        invariant
            len == b@.len(),
            i <= len,
            st@.len() <= MAX_DEPTH + 1,
            cbor_walk(b@, i as int, st@) == cbor_admissible(b@),
        decreases len - i,
    {
        if i >= len {
            return false;
        }
        let h = b[i];
        let major = h / 32;
        let add = h % 32;
        let top = st[st.len() - 1];
        if h == 0xff {
            match top {
                Frame::Open | Frame::OpenMap(false) | Frame::Chunks(_) => {
                    st.pop();
                    finish_item(&mut st);
                    i = i + 1;
                },
                _ => {
                    return false;
                },
            }
        } else {
            if let Frame::Chunks(m) = top {
                if m != major || add > 27 {
                    return false;
                }
            }
            if add > 27 {
                if add == 31 && 2 <= major && major <= 5 && st.len() <= MAX_DEPTH {
                    let frame = if major == 4 {
                        Frame::Open
                    } else if major == 5 {
                        Frame::OpenMap(false)
                    } else {
                        Frame::Chunks(major)
                    };
                    st.push(frame);
                    i = i + 1;
                } else {
                    return false;
                }
            } else {
                let size: usize = if add < 24 {
                    1
                } else if add == 24 {
                    2
                } else if add == 25 {
                    3
                } else if add == 26 {
                    5
                } else {
                    9
                };
                if size > len - i {
                    return false;
                }
                let rest: usize = len - i - size;
                if major == 2 || major == 3 {
                    match read_head_arg(b, i, rest as u64) {
                        Some(arg) => {
                            i = i + size + arg as usize;
                            finish_item(&mut st);
                        },
                        None => return false,
                    }
                } else if major == 4 || major == 5 {
                    let limit: usize = if major == 4 {
                        rest
                    } else {
                        rest / 2
                    };
                    match read_head_arg(b, i, limit as u64) {
                        Some(arg) => {
                            let count: usize = if major == 4 {
                                arg as usize
                            } else {
                                2 * arg as usize
                            };
                            if count == 0 {
                                finish_item(&mut st);
                            } else {
                                if st.len() > MAX_DEPTH {
                                    return false;
                                }
                                st.push(Frame::Count(count));
                            }
                            i = i + size;
                        },
                        None => return false,
                    }
                } else if major == 6 {
                    if st.len() > MAX_DEPTH {
                        return false;
                    }
                    st.push(Frame::Count(1));
                    i = i + size;
                } else {
                    finish_item(&mut st);
                    i = i + size;
                }
            }
        }
    }
    i == len
}

} // verus!
