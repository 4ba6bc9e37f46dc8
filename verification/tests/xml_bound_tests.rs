use datahugger::xml_bound::{has_doctype, nesting};
use xml::reader::{EventReader, ParserConfig, XmlEvent};

/// The deepest nesting that the parser reaches on the bytes before it ends
/// or reports an error.
fn reached(bytes: &[u8]) -> usize {
    let config = ParserConfig::new().ignore_comments(false);
    let mut reader = EventReader::new_with_config(bytes, config);
    let mut depth: usize = 0;
    let mut peak: usize = 0;
    loop {
        match reader.next() {
            Ok(XmlEvent::StartElement { .. }) => {
                depth += 1;
                peak = peak.max(depth);
            }
            Ok(XmlEvent::EndElement { .. }) => depth = depth.saturating_sub(1),
            Ok(XmlEvent::EndDocument) | Err(_) => return peak,
            Ok(_) => {}
        }
    }
}

struct Dice(u64);

impl Dice {
    fn roll(&mut self, sides: usize) -> usize {
        self.0 = self.0.wrapping_mul(6364136223846793005).wrapping_add(1442695040888963407);
        ((self.0 >> 33) as usize) % sides
    }
}

const PIECES: &[&str] = &[
    "<a>", "</a>", "<b>", "</b>", "<a/>", "<a x=\"1\">", "<a x='>'>", "<b y=\"/>\"/>",
    "<a x=\"</a>\">", "<", ">", "/", "\"", "'", "=", "!", "?", "-", "--", "[", "]", "]]>",
    "<!--", "-->", "<![CDATA[", "<?p", "?>", "<?xml version=\"1.0\"?>", "&lt;", "&amp;",
    "&#60;", "&", ";", "x", " ", "a", "<!", "<!-", "<![", "</", "/>", "<a ", "x=", "\n",
    "<a x=\"<!--\">", "<a x=\"<?\">", "<a x='\"'>", "text", "<c/>", "<!x>", "D", "<a\t",
];

fn document(dice: &mut Dice, pieces: usize) -> Vec<u8> {
    let mut s = String::new();
    if dice.roll(2) == 0 {
        s.push_str("<r>");
    }
    for _ in 0..pieces {
        s.push_str(PIECES[dice.roll(PIECES.len())]);
    }
    s.into_bytes()
}

#[test]
fn the_judged_nesting_is_never_below_what_the_parser_reaches() {
    let mut dice = Dice(0x5eed);
    let mut deep = 0;
    for round in 0..60_000 {
        let bytes = document(&mut dice, 1 + round % 24);
        if has_doctype(&bytes) {
            continue;
        }
        let real = reached(&bytes);
        let judged = nesting(&bytes);
        assert!(
            real <= judged,
            "{:?}: the parser reaches {real}, judged {judged}",
            String::from_utf8_lossy(&bytes)
        );
        if real >= 3 {
            deep += 1;
        }
    }
    assert!(deep > 100, "only {deep} documents nest");
}

#[test]
fn the_judgement_holds_on_longer_documents_too() {
    for seed in [1_u64, 0xdead_beef, 0x1234_5678_9abc] {
        let mut dice = Dice(seed);
        for round in 0..20_000 {
            let bytes = document(&mut dice, 20 + round % 60);
            if has_doctype(&bytes) {
                continue;
            }
            let real = reached(&bytes);
            let judged = nesting(&bytes);
            assert!(
                real <= judged,
                "{:?}: the parser reaches {real}, judged {judged}",
                String::from_utf8_lossy(&bytes)
            );
        }
    }
}

#[test]
fn well_formed_documents_are_judged_exactly() {
    for (text, depth) in [
        ("<a/>", 1),
        ("<a><b><c>t</c></b><b/></a>", 3),
        ("<?xml version=\"1.0\" encoding=\"UTF-8\"?>\n<a x=\"1\" y='2'><!-- c --><b/></a>", 2),
        ("<a><![CDATA[<b><c>]]></a>", 1),
        ("<a><b k=\"v>\">&lt;c&gt;</b></a>", 2),
    ] {
        assert_eq!(reached(text.as_bytes()), depth, "{text}");
        assert_eq!(nesting(text.as_bytes()), depth, "{text}");
    }
}

#[test]
fn two_byte_encodings_are_judged_by_their_marks() {
    let mut bytes = vec![0xff, 0xfe];
    for unit in "<a><b></b></a>".encode_utf16() {
        bytes.extend_from_slice(&unit.to_le_bytes());
    }
    assert!(reached(&bytes) <= nesting(&bytes));
    assert_eq!(nesting(&bytes), 4);
    let mut bytes = vec![0xfe, 0xff];
    for unit in "<a><b></b></a>".encode_utf16() {
        bytes.extend_from_slice(&unit.to_be_bytes());
    }
    assert!(reached(&bytes) <= nesting(&bytes));
    assert_eq!(nesting(&bytes), 4);
}
