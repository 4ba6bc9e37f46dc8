//! How deep the elements of an XML document can nest, judged from its bytes
//! before the document is parsed.
//!
//! The judgement follows the bytes as a lexer would: through tags, quoted
//! attribute values, comments, character data sections and processing
//! instructions. It counts an element as open from the `<` of its start tag
//! to the `>` of its end tag or of `/>`. Wherever the bytes leave the plain
//! forms that it follows, it stops trusting end tags: from there on every
//! `<` counts as one more open element and nothing closes. The count is
//! therefore never below the number of elements that are open.
use vstd::prelude::*;

verus! {

/// The deepest nesting of elements with which a document is parsed.
pub const MAX_XML_DEPTH: usize = 256;

/// Where in a document the judgement stands.
#[derive(Debug, Clone, Copy)]
pub enum Mode {
    /// In text between tags.
    Content,
    /// Behind a `<`.
    Lt,
    /// Behind `<!`.
    Bang,
    /// Behind `<!-`.
    BangDash,
    /// In a start tag, outside quotes.
    Open,
    /// In a start tag, behind a `/`.
    Slash,
    /// In an attribute value that began with this quote.
    Quote(u8),
    /// In an end tag.
    Close,
    /// In a processing instruction.
    Pi,
    /// In a processing instruction, behind a `?`.
    PiMark,
    /// In a comment.
    Comment,
    /// In a comment, behind one `-`.
    Dash,
    /// In a comment, behind `--`.
    Dashes,
    /// In a character data section.
    Cdata,
    /// In a character data section, behind one `]`.
    Bracket,
    /// In a character data section, behind `]]`.
    Brackets,
    /// Off the plain forms: every `<` counts and nothing closes.
    Unsure,
}

/// The judgement so far, as mathematics: where it stands, how many
/// elements may be open, and the most that may have been open at once.
pub struct ScanView {
    pub mode: Mode,
    pub depth: nat,
    pub peak: nat,
}

/// The judgement before the first byte.
pub open spec fn scan_start() -> ScanView {
    ScanView { mode: Mode::Content, depth: 0, peak: 0 }
}

/// The judgement with one more element open.
pub open spec fn opened(s: ScanView, mode: Mode) -> ScanView {
    ScanView {
        mode,
        depth: s.depth + 1,
        peak: if s.depth + 1 > s.peak {
            s.depth + 1
        } else {
            s.peak
        },
    }
}

/// The judgement with one element fewer open, in text again.
pub open spec fn closed(s: ScanView) -> ScanView {
    ScanView {
        mode: Mode::Content,
        depth: if s.depth > 0 {
            (s.depth - 1) as nat
        } else {
            0
        },
        peak: s.peak,
    }
}

/// The judgement at another place, with the same elements open.
pub open spec fn moved(s: ScanView, mode: Mode) -> ScanView {
    ScanView { mode, depth: s.depth, peak: s.peak }
}

/// The judgement off the plain forms: the byte counts as one more open
/// element where it is a `<`.
pub open spec fn lost(s: ScanView, b: u8) -> ScanView {
    if b == 0x3c {
        opened(s, Mode::Unsure)
    } else {
        moved(s, Mode::Unsure)
    }
}

/// The judgement after a byte of a start tag outside quotes: `>` ends the
/// tag, a quote begins an attribute value, and a `<` has no place there.
pub open spec fn in_tag(s: ScanView, b: u8) -> ScanView {
    if b == 0x3e {
        moved(s, Mode::Content)
    } else if b == 0x2f {
        moved(s, Mode::Slash)
    } else if b == 0x22 || b == 0x27 {
        moved(s, Mode::Quote(b))
    } else if b == 0x3c {
        lost(s, b)
    } else {
        moved(s, Mode::Open)
    }
}

/// The judgement after one more byte.
pub open spec fn step(s: ScanView, b: u8) -> ScanView {
    if b == 0 {
        // a zero byte belongs to a two-byte encoding, which is not followed
        match s.mode {
            Mode::Lt => opened(s, Mode::Unsure),
            _ => moved(s, Mode::Unsure),
        }
    } else {
        match s.mode {
            Mode::Content => if b == 0x3c {
                moved(s, Mode::Lt)
            } else {
                s
            },
            Mode::Lt => if b == 0x2f {
                moved(s, Mode::Close)
            } else if b == 0x3f {
                moved(s, Mode::Pi)
            } else if b == 0x21 {
                moved(s, Mode::Bang)
            } else if b == 0x3c {
                // no tag begins with two `<`
                opened(s, Mode::Unsure)
            } else {
                in_tag(opened(s, Mode::Open), b)
            },
            Mode::Bang => if b == 0x2d {
                moved(s, Mode::BangDash)
            } else if b == 0x5b {
                moved(s, Mode::Cdata)
            } else {
                lost(s, b)
            },
            Mode::BangDash => if b == 0x2d {
                moved(s, Mode::Comment)
            } else {
                lost(s, b)
            },
            Mode::Open => in_tag(s, b),
            Mode::Slash => if b == 0x3e {
                closed(s)
            } else {
                in_tag(s, b)
            },
            Mode::Quote(q) => if b == q {
                moved(s, Mode::Open)
            } else if b == 0x3c {
                lost(s, b)
            } else {
                s
            },
            Mode::Close => if b == 0x3e {
                closed(s)
            } else if b == 0x3c {
                lost(s, b)
            } else {
                s
            },
            Mode::Pi => if b == 0x3f {
                moved(s, Mode::PiMark)
            } else if b == 0x3c {
                lost(s, b)
            } else {
                s
            },
            Mode::PiMark => if b == 0x3e {
                moved(s, Mode::Content)
            } else if b == 0x3f {
                s
            } else if b == 0x3c {
                lost(s, b)
            } else {
                moved(s, Mode::Pi)
            },
            Mode::Comment => if b == 0x2d {
                moved(s, Mode::Dash)
            } else {
                s
            },
            Mode::Dash => if b == 0x2d {
                moved(s, Mode::Dashes)
            } else {
                moved(s, Mode::Comment)
            },
            Mode::Dashes => if b == 0x3e {
                moved(s, Mode::Content)
            } else {
                lost(s, b)
            },
            Mode::Cdata => if b == 0x5d {
                moved(s, Mode::Bracket)
            } else {
                s
            },
            Mode::Bracket => if b == 0x5d {
                moved(s, Mode::Brackets)
            } else {
                moved(s, Mode::Cdata)
            },
            Mode::Brackets => if b == 0x3e {
                moved(s, Mode::Content)
            } else if b == 0x5d {
                s
            } else {
                moved(s, Mode::Cdata)
            },
            Mode::Unsure => lost(s, b),
        }
    }
}

/// The judgement after all the bytes.
pub open spec fn scan(bytes: Seq<u8>) -> ScanView
    decreases bytes.len(),
{
    if bytes.len() == 0 {
        scan_start()
    } else {
        step(scan(bytes.drop_last()), bytes.last())
    }
}

/// The deepest that the elements of a document can nest.
pub open spec fn nesting_bound(bytes: Seq<u8>) -> nat {
    scan(bytes).peak
}

/// Whether a document type declaration begins at `i`: the bytes `<!D`
/// there, or the same with a zero byte between them, as the two-byte
/// encodings write it.
pub open spec fn doctype_at(bytes: Seq<u8>, i: int) -> bool {
    ||| {
        &&& 0 <= i && i + 3 <= bytes.len()
        &&& bytes[i] == 0x3c
        &&& bytes[i + 1] == 0x21
        &&& bytes[i + 2] == 0x44
    }
    ||| {
        &&& 0 <= i && i + 5 <= bytes.len()
        &&& bytes[i] == 0x3c
        &&& bytes[i + 1] == 0
        &&& bytes[i + 2] == 0x21
        &&& bytes[i + 3] == 0
        &&& bytes[i + 4] == 0x44
    }
}

/// Whether a document type declaration begins somewhere in the bytes. Only
/// such a declaration can define entities, and only entities can stand for
/// elements that the bytes do not spell out.
pub open spec fn holds_doctype(bytes: Seq<u8>) -> bool {
    exists|i: int| doctype_at(bytes, i)
}

/// Whether a document is parsed: it holds no document type declaration and
/// its elements can nest no deeper than `MAX_XML_DEPTH`.
pub open spec fn xml_fits(bytes: Seq<u8>) -> bool {
    !holds_doctype(bytes) && nesting_bound(bytes) <= MAX_XML_DEPTH
}

/// The judgement so far.
#[derive(Debug, Clone, Copy)]
pub struct Scan {
    pub mode: Mode,
    pub depth: usize,
    pub peak: usize,
}

impl View for Scan {
    type V = ScanView;

    open spec fn view(&self) -> ScanView {
        ScanView { mode: self.mode, depth: self.depth as nat, peak: self.peak as nat }
    }
}

impl Scan {
    /// Whether the numbers of the judgement belong together.
    pub open spec fn sound(&self) -> bool {
        self.depth <= self.peak
    }

    fn opened(self, mode: Mode) -> (r: Scan)
        requires
            self.sound(),
            self.peak < usize::MAX,
        ensures
            r@ == opened(self@, mode),
            r.sound(),
            r.peak <= self.peak + 1,
    {
        let depth = self.depth + 1;
        Scan {
            mode,
            depth,
            peak: if depth > self.peak {
                depth
            } else {
                self.peak
            },
        }
    }

    fn closed(self) -> (r: Scan)
        requires
            self.sound(),
        ensures
            r@ == closed(self@),
            r.sound(),
            r.peak == self.peak,
    {
        Scan {
            mode: Mode::Content,
            depth: if self.depth > 0 {
                self.depth - 1
            } else {
                0
            },
            peak: self.peak,
        }
    }

    fn moved(self, mode: Mode) -> (r: Scan)
        requires
            self.sound(),
        ensures
            r@ == moved(self@, mode),
            r.sound(),
            r.peak == self.peak,
    {
        Scan { mode, depth: self.depth, peak: self.peak }
    }

    fn lost(self, b: u8) -> (r: Scan)
        requires
            self.sound(),
            self.peak < usize::MAX,
        ensures
            r@ == lost(self@, b),
            r.sound(),
            r.peak <= self.peak + 1,
    {
        if b == 0x3c {
            self.opened(Mode::Unsure)
        } else {
            self.moved(Mode::Unsure)
        }
    }

    fn in_tag(self, b: u8) -> (r: Scan)
        requires
            self.sound(),
            b == 0x3c ==> self.peak < usize::MAX,
        ensures
            r@ == in_tag(self@, b),
            r.sound(),
            r.peak <= self.peak + 1,
            b != 0x3c ==> r.peak == self.peak,
    {
        if b == 0x3e {
            self.moved(Mode::Content)
        } else if b == 0x2f {
            self.moved(Mode::Slash)
        } else if b == 0x22 || b == 0x27 {
            self.moved(Mode::Quote(b))
        } else if b == 0x3c {
            self.lost(b)
        } else {
            self.moved(Mode::Open)
        }
    }

    /// The judgement before the first byte.
    pub fn start() -> (r: Scan)
        ensures
            r@ == scan_start(),
            r.sound(),
    {
        Scan { mode: Mode::Content, depth: 0, peak: 0 }
    }

    /// The judgement after one more byte.
    pub fn step(self, b: u8) -> (r: Scan)
        requires
            self.sound(),
            self.peak < usize::MAX,
        ensures
            r@ == step(self@, b),
            r.sound(),
            r.peak <= self.peak + 1,
    {
        if b == 0 {
            return match self.mode {
                Mode::Lt => self.opened(Mode::Unsure),
                _ => self.moved(Mode::Unsure),
            };
        }
        match self.mode {
            Mode::Content => if b == 0x3c {
                self.moved(Mode::Lt)
            } else {
                self
            },
            Mode::Lt => if b == 0x2f {
                self.moved(Mode::Close)
            } else if b == 0x3f {
                self.moved(Mode::Pi)
            } else if b == 0x21 {
                self.moved(Mode::Bang)
            } else if b == 0x3c {
                self.opened(Mode::Unsure)
            } else {
                self.opened(Mode::Open).in_tag(b)
            },
            Mode::Bang => if b == 0x2d {
                self.moved(Mode::BangDash)
            } else if b == 0x5b {
                self.moved(Mode::Cdata)
            } else {
                self.lost(b)
            },
            Mode::BangDash => if b == 0x2d {
                self.moved(Mode::Comment)
            } else {
                self.lost(b)
            },
            Mode::Open => self.in_tag(b),
            Mode::Slash => if b == 0x3e {
                self.closed()
            } else {
                self.in_tag(b)
            },
            Mode::Quote(q) => if b == q {
                self.moved(Mode::Open)
            } else if b == 0x3c {
                self.lost(b)
            } else {
                self
            },
            Mode::Close => if b == 0x3e {
                self.closed()
            } else if b == 0x3c {
                self.lost(b)
            } else {
                self
            },
            Mode::Pi => if b == 0x3f {
                self.moved(Mode::PiMark)
            } else if b == 0x3c {
                self.lost(b)
            } else {
                self
            },
            Mode::PiMark => if b == 0x3e {
                self.moved(Mode::Content)
            } else if b == 0x3f {
                self
            } else if b == 0x3c {
                self.lost(b)
            } else {
                self.moved(Mode::Pi)
            },
            Mode::Comment => if b == 0x2d {
                self.moved(Mode::Dash)
            } else {
                self
            },
            Mode::Dash => if b == 0x2d {
                self.moved(Mode::Dashes)
            } else {
                self.moved(Mode::Comment)
            },
            Mode::Dashes => if b == 0x3e {
                self.moved(Mode::Content)
            } else {
                self.lost(b)
            },
            Mode::Cdata => if b == 0x5d {
                self.moved(Mode::Bracket)
            } else {
                self
            },
            Mode::Bracket => if b == 0x5d {
                self.moved(Mode::Brackets)
            } else {
                self.moved(Mode::Cdata)
            },
            Mode::Brackets => if b == 0x3e {
                self.moved(Mode::Content)
            } else if b == 0x5d {
                self
            } else {
                self.moved(Mode::Cdata)
            },
            Mode::Unsure => self.lost(b),
        }
    }
}

/// The deepest that the elements of a document can nest.
pub fn nesting(bytes: &[u8]) -> (r: usize)
    ensures
        r == nesting_bound(bytes@),
{
    let n = bytes.len();
    let mut s = Scan::start();
    let mut i: usize = 0;
    proof {
        assert(bytes@.take(0) =~= Seq::<u8>::empty());
    }
    while i < n
        invariant
            n == bytes@.len(),
            i <= n,
            s.sound(),
            s.peak <= i,
            s@ == scan(bytes@.take(i as int)),
        decreases n - i,
    {
        proof {
            assert(bytes@.take(i + 1).drop_last() =~= bytes@.take(i as int));
        }
        s = s.step(bytes[i]);
        i += 1;
    }
    proof {
        assert(bytes@.take(n as int) =~= bytes@);
    }
    s.peak
}

/// Whether a document type declaration begins somewhere in the bytes.
pub fn has_doctype(bytes: &[u8]) -> (r: bool)
    ensures
        r == holds_doctype(bytes@),
{
    let n = bytes.len();
    let mut i: usize = 0;
    while i < n
        invariant
            n == bytes@.len(),
            i <= n,
            forall|k: int| 0 <= k < i ==> !doctype_at(bytes@, k),
        decreases n - i,
    {
        if bytes[i] == 0x3c {
            let plain = n - i >= 3 && bytes[i + 1] == 0x21 && bytes[i + 2] == 0x44;
            let wide = n - i >= 5 && bytes[i + 1] == 0 && bytes[i + 2] == 0x21 && bytes[i + 3]
                == 0 && bytes[i + 4] == 0x44;
            if plain || wide {
                assert(doctype_at(bytes@, i as int));
                return true;
            }
        }
        i += 1;
    }
    assert forall|k: int| !doctype_at(bytes@, k) by {
        if 0 <= k < n {
        }
    }
    false
}

} // verus!
