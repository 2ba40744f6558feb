//! How deep a document nests its elements. The feed reader of `rss` calls
//! itself once for every element that is open inside an extension element, so a
//! document is read only if it never has more than `MAX_NESTING` elements open
//! at once.
//!
//! The scan follows, byte by byte, how `quick-xml`, the XML reader that `rss`
//! reads with, splits a document into markup: text runs to the next `<`; a tag
//! runs to the first `>` outside quotes; a comment to the first `-->` that
//! leaves room for its opening dashes; a CDATA section to the first `]]>`; a
//! processing instruction to the first `?>`; a document type declaration
//! without an internal subset to the first `>` outside quotes. A start tag
//! opens an element, an end tag closes the innermost, and an empty-element tag
//! does both.

use vstd::prelude::*;

verus! {

/// The most elements that a document may have open at once.
pub const MAX_NESTING: usize = 64;

/// The byte `<`.
pub const LESS: u8 = 0x3c;

/// The byte `>`.
pub const GREATER: u8 = 0x3e;

/// The byte `!`.
pub const BANG: u8 = 0x21;

/// The byte `/`.
pub const SLASH: u8 = 0x2f;

/// The byte `?`.
pub const QUESTION: u8 = 0x3f;

/// The byte `-`.
pub const DASH: u8 = 0x2d;

/// The byte `[`.
pub const LEFT_BRACKET: u8 = 0x5b;

/// The byte `]`.
pub const RIGHT_BRACKET: u8 = 0x5d;

/// The byte `'`.
pub const APOSTROPHE: u8 = 0x27;

/// The byte `"`.
pub const QUOTATION: u8 = 0x22;

/// The byte `D`.
pub const UPPER_D: u8 = 0x44;

/// The byte `d`.
pub const LOWER_D: u8 = 0x64;

/// Whether the scan stands inside a quoted value, and in which kind.
#[derive(Clone, Copy, Debug, PartialEq, Eq, Structural)]
pub enum Quote {
    Outside,
    Single,
    Double,
}

/// What the scan stands in.
#[derive(Clone, Copy, Debug, PartialEq, Eq, Structural)]
pub enum Mode {
    /// Text between markup.
    Text,
    /// Just behind a `<`.
    Opened,
    /// Just behind `<!`.
    Bang,
    /// A comment: `read` bytes behind `<!` were seen (counted up to 4), the
    /// last `dashes` of them dashes (counted up to 2).
    Comment { read: u8, dashes: u8 },
    /// A CDATA section: the last `brackets` bytes were `]` (counted up to 2).
    CData { brackets: u8 },
    /// A document type declaration, so far without an internal subset.
    Doctype { quote: Quote },
    /// A processing instruction; `question` says whether the last byte was `?`.
    Instruction { question: bool },
    /// A start tag, or with `closing` an end tag; `slash` says whether the last
    /// byte was `/`.
    Tag { closing: bool, quote: Quote, slash: bool },
    /// The document is not read: it opens more than `MAX_NESTING` elements at
    /// once, or it holds a declaration that the scan does not follow.
    Refused,
}

/// The scan of a document's beginning.
#[derive(Clone, Copy, Debug, PartialEq, Eq, Structural)]
pub struct Scan {
    pub mode: Mode,
    /// The number of elements that are open.
    pub depth: usize,
}

/// The scan before the first byte.
pub open spec fn start() -> Scan {
    Scan { mode: Mode::Text, depth: 0 }
}

/// The quoting behind one more byte of a tag or declaration.
pub open spec fn quote_after(quote: Quote, byte: u8) -> Quote {
    match quote {
        Quote::Outside => if byte == APOSTROPHE {
            Quote::Single
        } else if byte == QUOTATION {
            Quote::Double
        } else {
            Quote::Outside
        },
        Quote::Single => if byte == APOSTROPHE {
            Quote::Outside
        } else {
            Quote::Single
        },
        Quote::Double => if byte == QUOTATION {
            Quote::Outside
        } else {
            Quote::Double
        },
    }
}

/// The scan behind a tag that ends here. An end tag closes the innermost
/// element, if one is open. A start tag opens one, which is refused where
/// `MAX_NESTING` are open already; an empty-element tag closes it again at once.
pub open spec fn tag_closed(depth: usize, closing: bool, slash: bool) -> Scan {
    if closing {
        Scan {
            mode: Mode::Text,
            depth: if depth > 0 {
                (depth - 1) as usize
            } else {
                depth
            },
        }
    } else if depth >= MAX_NESTING {
        Scan { mode: Mode::Refused, depth }
    } else if slash {
        Scan { mode: Mode::Text, depth }
    } else {
        Scan { mode: Mode::Text, depth: (depth + 1) as usize }
    }
}

/// The scan behind one more byte of a tag.
pub open spec fn tag_step(
    depth: usize,
    closing: bool,
    quote: Quote,
    slash: bool,
    byte: u8,
) -> Scan {
    if quote == Quote::Outside && byte == GREATER {
        tag_closed(depth, closing, slash)
    } else {
        Scan {
            mode: Mode::Tag { closing, quote: quote_after(quote, byte), slash: byte == SLASH },
            depth,
        }
    }
}

/// The scan behind one more byte.
pub open spec fn step(scan: Scan, byte: u8) -> Scan {
    let depth = scan.depth;
    match scan.mode {
        Mode::Text => if byte == LESS {
            Scan { mode: Mode::Opened, depth }
        } else {
            scan
        },
        Mode::Opened => if byte == BANG {
            Scan { mode: Mode::Bang, depth }
        } else if byte == QUESTION {
            Scan { mode: Mode::Instruction { question: true }, depth }
        } else if byte == SLASH {
            Scan { mode: Mode::Tag { closing: true, quote: Quote::Outside, slash: true }, depth }
        } else {
            tag_step(depth, false, Quote::Outside, false, byte)
        },
        Mode::Bang => if byte == DASH {
            Scan { mode: Mode::Comment { read: 1, dashes: 1 }, depth }
        } else if byte == LEFT_BRACKET {
            Scan { mode: Mode::CData { brackets: 0 }, depth }
        } else if byte == UPPER_D || byte == LOWER_D {
            Scan { mode: Mode::Doctype { quote: Quote::Outside }, depth }
        } else {
            Scan { mode: Mode::Refused, depth }
        },
        Mode::Comment { read, dashes } => if byte == GREATER && read >= 4 && dashes >= 2 {
            Scan { mode: Mode::Text, depth }
        } else {
            Scan {
                mode: Mode::Comment {
                    read: if read < 4 {
                        (read + 1) as u8
                    } else {
                        read
                    },
                    dashes: if byte != DASH {
                        0
                    } else if dashes < 2 {
                        (dashes + 1) as u8
                    } else {
                        dashes
                    },
                },
                depth,
            }
        },
        Mode::CData { brackets } => if byte == GREATER && brackets >= 2 {
            Scan { mode: Mode::Text, depth }
        } else {
            Scan {
                mode: Mode::CData {
                    brackets: if byte != RIGHT_BRACKET {
                        0
                    } else if brackets < 2 {
                        (brackets + 1) as u8
                    } else {
                        brackets
                    },
                },
                depth,
            }
        },
        Mode::Doctype { quote } => if quote == Quote::Outside && byte == GREATER {
            Scan { mode: Mode::Text, depth }
        } else if quote == Quote::Outside && byte == LEFT_BRACKET {
            Scan { mode: Mode::Refused, depth }
        } else {
            Scan { mode: Mode::Doctype { quote: quote_after(quote, byte) }, depth }
        },
        Mode::Instruction { question } => if byte == GREATER && question {
            Scan { mode: Mode::Text, depth }
        } else {
            Scan { mode: Mode::Instruction { question: byte == QUESTION }, depth }
        },
        Mode::Tag { closing, quote, slash } => tag_step(depth, closing, quote, slash, byte),
        Mode::Refused => scan,
    }
}

/// The scan behind all of `bytes`.
pub open spec fn scanned(bytes: Seq<u8>) -> Scan
    decreases bytes.len(),
{
    if bytes.len() == 0 {
        start()
    } else {
        step(scanned(bytes.drop_last()), bytes.last())
    }
}

/// A document is shallow if the scan of it is not refused: it never has more
/// than `MAX_NESTING` elements open at once, and it holds no declaration that
/// the scan does not follow.
pub open spec fn shallow(bytes: Seq<u8>) -> bool {
    scanned(bytes).mode != Mode::Refused
}

/// A scan never counts more open elements than may be open.
pub proof fn lemma_depth_is_bounded(bytes: Seq<u8>)
    ensures
        scanned(bytes).depth <= MAX_NESTING,
    decreases bytes.len(),
{
    if bytes.len() > 0 {
        lemma_depth_is_bounded(bytes.drop_last());
    }
}

/// The quoting behind one more byte of a tag or declaration.
fn requote(quote: Quote, byte: u8) -> (next: Quote)
    ensures
        next == quote_after(quote, byte),
{
    match quote {
        Quote::Outside => if byte == APOSTROPHE {
            Quote::Single
        } else if byte == QUOTATION {
            Quote::Double
        } else {
            Quote::Outside
        },
        Quote::Single => if byte == APOSTROPHE {
            Quote::Outside
        } else {
            Quote::Single
        },
        Quote::Double => if byte == QUOTATION {
            Quote::Outside
        } else {
            Quote::Double
        },
    }
}

/// Takes one more byte of a tag.
fn advance_tag(depth: usize, closing: bool, quote: Quote, slash: bool, byte: u8) -> (next: Scan)
    ensures
        next == tag_step(depth, closing, quote, slash, byte),
{
    let outside = match quote {
        Quote::Outside => true,
        _ => false,
    };
    if outside && byte == GREATER {
        if closing {
            Scan {
                mode: Mode::Text,
                depth: if depth > 0 {
                    depth - 1
                } else {
                    depth
                },
            }
        } else if depth >= MAX_NESTING {
            Scan { mode: Mode::Refused, depth }
        } else if slash {
            Scan { mode: Mode::Text, depth }
        } else {
            Scan { mode: Mode::Text, depth: depth + 1 }
        }
    } else {
        Scan {
            mode: Mode::Tag { closing, quote: requote(quote, byte), slash: byte == SLASH },
            depth,
        }
    }
}

/// Takes one more byte.
pub fn advance(scan: Scan, byte: u8) -> (next: Scan)
    ensures
        next == step(scan, byte),
{
    let depth = scan.depth;
    match scan.mode {
        Mode::Text => if byte == LESS {
            Scan { mode: Mode::Opened, depth }
        } else {
            scan
        },
        Mode::Opened => if byte == BANG {
            Scan { mode: Mode::Bang, depth }
        } else if byte == QUESTION {
            Scan { mode: Mode::Instruction { question: true }, depth }
        } else if byte == SLASH {
            Scan { mode: Mode::Tag { closing: true, quote: Quote::Outside, slash: true }, depth }
        } else {
            advance_tag(depth, false, Quote::Outside, false, byte)
        },
        Mode::Bang => if byte == DASH {
            Scan { mode: Mode::Comment { read: 1, dashes: 1 }, depth }
        } else if byte == LEFT_BRACKET {
            Scan { mode: Mode::CData { brackets: 0 }, depth }
        } else if byte == UPPER_D || byte == LOWER_D {
            Scan { mode: Mode::Doctype { quote: Quote::Outside }, depth }
        } else {
            Scan { mode: Mode::Refused, depth }
        },
        Mode::Comment { read, dashes } => if byte == GREATER && read >= 4 && dashes >= 2 {
            Scan { mode: Mode::Text, depth }
        } else {
            Scan {
                mode: Mode::Comment {
                    read: if read < 4 {
                        read + 1
                    } else {
                        read
                    },
                    dashes: if byte != DASH {
                        0
                    } else if dashes < 2 {
                        dashes + 1
                    } else {
                        dashes
                    },
                },
                depth,
            }
        },
        Mode::CData { brackets } => if byte == GREATER && brackets >= 2 {
            Scan { mode: Mode::Text, depth }
        } else {
            Scan {
                mode: Mode::CData {
                    brackets: if byte != RIGHT_BRACKET {
                        0
                    } else if brackets < 2 {
                        brackets + 1
                    } else {
                        brackets
                    },
                },
                depth,
            }
        },
        Mode::Doctype { quote } => {
            let outside = match quote {
                Quote::Outside => true,
                _ => false,
            };
            if outside && byte == GREATER {
                Scan { mode: Mode::Text, depth }
            } else if outside && byte == LEFT_BRACKET {
                Scan { mode: Mode::Refused, depth }
            } else {
                Scan { mode: Mode::Doctype { quote: requote(quote, byte) }, depth }
            }
        },
        Mode::Instruction { question } => if byte == GREATER && question {
            Scan { mode: Mode::Text, depth }
        } else {
            Scan { mode: Mode::Instruction { question: byte == QUESTION }, depth }
        },
        Mode::Tag { closing, quote, slash } => advance_tag(depth, closing, quote, slash, byte),
        Mode::Refused => scan,
    }
}

/// Says whether a document is shallow.
pub fn is_shallow(bytes: &[u8]) -> (fine: bool)
    ensures
        fine == shallow(bytes@),
{
    let mut scan = Scan { mode: Mode::Text, depth: 0 };
    let mut i: usize = 0;
    while i < bytes.len()
        invariant
            i <= bytes.len(),
            scan == scanned(bytes@.take(i as int)),
        decreases bytes.len() - i,
    {
        assert(bytes@.take(i + 1).drop_last() == bytes@.take(i as int));
        scan = advance(scan, bytes[i]);
        i = i + 1;
    }
    assert(bytes@.take(i as int) == bytes@);
    match scan.mode {
        Mode::Refused => false,
        _ => true,
    }
}

} // verus!
