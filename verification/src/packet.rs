//! Parsing of one line of textual capture output into a packet record.
//!
//! The mapping is positional and lossy on purpose: it follows the usual
//! verbose output of the capture tool and is no protocol decoder.

use vstd::prelude::*;
use vstd::string::*;

verus! {

/// The characters with the Unicode `White_Space` property.
pub open spec fn is_whitespace(c: char) -> bool {
    let n = c as u32;
    ||| 0x09 <= n <= 0x0d
    ||| n == 0x20
    ||| n == 0x85
    ||| n == 0xa0
    ||| n == 0x1680
    ||| 0x2000 <= n <= 0x200a
    ||| n == 0x2028
    ||| n == 0x2029
    ||| n == 0x202f
    ||| n == 0x205f
    ||| n == 0x3000
}

/// Tells whether `c` separates tokens.
pub fn whitespace(c: char) -> (w: bool)
    ensures
        w == is_whitespace(c),
{
    let n: u32 = c as u32;
    (0x09 <= n && n <= 0x0d) || n == 0x20 || n == 0x85 || n == 0xa0 || n == 0x1680 || (0x2000 <= n
        && n <= 0x200a) || n == 0x2028 || n == 0x2029 || n == 0x202f || n == 0x205f || n == 0x3000
}

/// The tokens of a text: its maximal runs of characters that are not
/// whitespace, in the order in which they occur.
///
/// Read from the last character back: whitespace adds nothing, a character
/// that follows a token character extends the last token, and any other
/// character starts a new token.
pub open spec fn tokens(s: Seq<char>) -> Seq<Seq<char>>
    decreases s.len(),
{
    if s.len() == 0 {
        Seq::empty()
    } else {
        let before = tokens(s.drop_last());
        if is_whitespace(s.last()) {
            before
        } else if s.len() >= 2 && !is_whitespace(s[s.len() - 2]) {
            before.drop_last().push(before.last().push(s.last()))
        } else {
            before.push(seq![s.last()])
        }
    }
}

/// The parts, each separated from the next by one space.
pub open spec fn joined(parts: Seq<Seq<char>>) -> Seq<char>
    decreases parts.len(),
{
    if parts.len() == 0 {
        Seq::empty()
    } else if parts.len() == 1 {
        parts[0]
    } else {
        joined(parts.drop_last()) + seq![' '] + parts.last()
    }
}

/// A word: at least one character, none of them whitespace.
pub open spec fn is_word(w: Seq<char>) -> bool {
    w.len() > 0 && forall|j: int| 0 <= j < w.len() ==> !is_whitespace(#[trigger] w[j])
}

/// Every token is a word, and a text that ends in a word character has a
/// token.
pub proof fn lemma_tokens_are_words(s: Seq<char>)
    ensures
        forall|k: int| 0 <= k < tokens(s).len() ==> is_word(#[trigger] tokens(s)[k]),
        s.len() > 0 && !is_whitespace(s.last()) ==> tokens(s).len() > 0,
    decreases s.len(),
{
    if s.len() > 0 {
        let before = tokens(s.drop_last());
        lemma_tokens_are_words(s.drop_last());
        if is_whitespace(s.last()) {
        } else if s.len() >= 2 && !is_whitespace(s[s.len() - 2]) {
            assert(s.drop_last().last() == s[s.len() - 2]);
            let grown = before.last().push(s.last());
            assert(is_word(before.last()));
            assert(is_word(grown)) by {
                assert forall|j: int| 0 <= j < grown.len() implies !is_whitespace(
                    #[trigger] grown[j],
                ) by {
                    if j < before.last().len() {
                        assert(grown[j] == before.last()[j]);
                    }
                }
            }
            assert forall|k: int| 0 <= k < tokens(s).len() implies is_word(
                #[trigger] tokens(s)[k],
            ) by {
                if k < before.len() - 1 {
                    assert(tokens(s)[k] == before[k]);
                }
            }
        } else {
            assert(is_word(seq![s.last()]));
            assert forall|k: int| 0 <= k < tokens(s).len() implies is_word(
                #[trigger] tokens(s)[k],
            ) by {
                if k < before.len() {
                    assert(tokens(s)[k] == before[k]);
                }
            }
        }
    }
}

/// A text of whitespace alone has no token.
pub proof fn lemma_tokens_of_blank(s: Seq<char>)
    requires
        forall|j: int| 0 <= j < s.len() ==> is_whitespace(#[trigger] s[j]),
    ensures
        tokens(s) == Seq::<Seq<char>>::empty(),
    decreases s.len(),
{
    if s.len() > 0 {
        lemma_tokens_of_blank(s.drop_last());
    }
}

/// A word is its own single token.
pub proof fn lemma_tokens_of_word(w: Seq<char>)
    requires
        is_word(w),
    ensures
        tokens(w) == seq![w],
    decreases w.len(),
{
    if w.len() == 1 {
        assert(tokens(w.drop_last()) == Seq::<Seq<char>>::empty());
        assert(seq![w.last()] == w);
    } else {
        lemma_tokens_of_word(w.drop_last());
        assert(w.drop_last().push(w.last()) == w);
    }
}

/// Where two texts meet at whitespace, or one of them is empty, the tokens
/// of the whole are those of the first followed by those of the second.
pub proof fn lemma_tokens_concat(a: Seq<char>, b: Seq<char>)
    requires
        a.len() == 0 || b.len() == 0 || is_whitespace(a.last()) || is_whitespace(b[0]),
    ensures
        tokens(a + b) == tokens(a) + tokens(b),
    decreases b.len(),
{
    let whole = a + b;
    if b.len() == 0 {
        assert(whole == a);
        assert(tokens(a) + tokens(b) == tokens(a));
    } else {
        let shorter = b.drop_last();
        assert(whole.drop_last() == a + shorter);
        assert(whole.last() == b.last());
        lemma_tokens_concat(a, shorter);
        if is_whitespace(b.last()) {
        } else if b.len() >= 2 {
            assert(whole[whole.len() - 2] == b[b.len() - 2]);
            if !is_whitespace(b[b.len() - 2]) {
                lemma_tokens_are_words(shorter);
                let head = tokens(a) + tokens(shorter);
                assert(head.last() == tokens(shorter).last());
                assert(head.drop_last() == tokens(a) + tokens(shorter).drop_last());
                assert(head.drop_last().push(head.last().push(b.last())) == tokens(a) + tokens(
                    shorter,
                ).drop_last().push(tokens(shorter).last().push(b.last())));
            } else {
                assert((tokens(a) + tokens(shorter)).push(seq![b.last()]) == tokens(a) + tokens(
                    shorter,
                ).push(seq![b.last()]));
            }
        } else {
            assert(shorter.len() == 0);
            assert(tokens(b) == seq![seq![b.last()]]);
            if a.len() > 0 {
                assert(whole[whole.len() - 2] == a.last());
            }
            assert((tokens(a) + tokens(shorter)).push(seq![b.last()]) == tokens(a) + tokens(b));
        }
    }
}

/// A stretch of characters of a text, by character index: `start` is the
/// first character, `end` one past the last.
struct Span {
    start: usize,
    end: usize,
}

impl Span {
    /// The characters of `s` that the span covers.
    spec fn of(&self, s: Seq<char>) -> Seq<char> {
        s.subrange(self.start as int, self.end as int)
    }

    /// The span lies within a text of `len` characters.
    spec fn within(&self, len: nat) -> bool {
        self.start <= self.end <= len
    }
}

/// The texts that a list of spans covers, in order.
spec fn covered(spans: Seq<Span>, s: Seq<char>) -> Seq<Seq<char>> {
    Seq::new(spans.len(), |k: int| spans[k].of(s))
}

/// Finds where each token of `text` lies.
fn token_spans(text: &str) -> (spans: Vec<Span>)
    ensures
        covered(spans@, text@) == tokens(text@),
        forall|k: int| 0 <= k < spans@.len() ==> (#[trigger] spans@[k]).within(text@.len()),
{
    let len = text.unicode_len();
    let mut spans: Vec<Span> = Vec::new();
    let mut position: usize = 0;
    let mut start: usize = 0;
    let mut inside = false;
    for c in it: text.chars()
        invariant
            it.seq() == text@,
            len == text@.len(),
            position == it.index(),
            inside <==> (position > 0 && !is_whitespace(text@[position - 1])),
            inside ==> start < position,
            forall|k: int| 0 <= k < spans@.len() ==> (#[trigger] spans@[k]).within(text@.len()),
            tokens(text@.take(position as int)) == if inside {
                covered(spans@, text@).push(text@.subrange(start as int, position as int))
            } else {
                covered(spans@, text@)
            },
    {
        let ghost seen = text@.take(position as int);
        let ghost next = text@.take(position + 1);
        assert(next.drop_last() == seen);
        assert(next.last() == c);
        assert(position > 0 ==> next[next.len() - 2] == text@[position - 1]);
        if whitespace(c) {
            if inside {
                let ghost closed = covered(spans@, text@);
                spans.push(Span { start, end: position });
                assert(covered(spans@, text@) == closed.push(
                    text@.subrange(start as int, position as int),
                ));
                inside = false;
            }
        } else {
            if inside {
                assert(text@.subrange(start as int, position as int).push(c) == text@.subrange(
                    start as int,
                    position + 1,
                ));
            } else {
                start = position;
                inside = true;
                assert(seq![c] == text@.subrange(start as int, position + 1));
            }
        }
        position = position + 1;
    }
    assert(text@.take(position as int) == text@);
    if inside {
        let ghost closed = covered(spans@, text@);
        spans.push(Span { start, end: position });
        assert(covered(spans@, text@) == closed.push(
            text@.subrange(start as int, position as int),
        ));
    }
    spans
}

/// One packet as the capture tool printed it.
#[derive(Debug, PartialEq, Eq)]
pub struct CapturedPacket {
    pub timestamp: String,
    pub source: String,
    pub protocol: String,
    pub info: String,
}

/// The text of the four fields of a packet.
pub struct PacketView {
    pub timestamp: Seq<char>,
    pub source: Seq<char>,
    pub protocol: Seq<char>,
    pub info: Seq<char>,
}

impl View for CapturedPacket {
    type V = PacketView;

    open spec fn view(&self) -> PacketView {
        PacketView {
            timestamp: self.timestamp@,
            source: self.source@,
            protocol: self.protocol@,
            info: self.info@,
        }
    }
}

/// Fewest tokens that a packet line holds.
pub const MIN_TOKENS: usize = 6;

/// What a line of capture output means: nothing when it has fewer than six
/// tokens; otherwise the first token is the timestamp, the third the source,
/// the fifth the protocol, and the rest, joined by single spaces, the info.
pub open spec fn parsed(line: Seq<char>) -> Option<PacketView> {
    let t = tokens(line);
    if t.len() < MIN_TOKENS {
        None
    } else {
        Some(
            PacketView {
                timestamp: t[0],
                source: t[2],
                protocol: t[4],
                info: joined(t.skip(5)),
            },
        )
    }
}

/// The text that `span` covers, as a string of its own.
fn span_text(text: &str, span: &Span) -> (part: String)
    requires
        span.within(text@.len()),
    ensures
        part@ == span.of(text@),
{
    String::from_str(text.substring_char(span.start, span.end))
}

/// The texts under `spans[from..]`, joined by single spaces.
fn join_from(text: &str, spans: &Vec<Span>, from: usize) -> (line: String)
    requires
        from < spans@.len(),
        forall|k: int| 0 <= k < spans@.len() ==> (#[trigger] spans@[k]).within(text@.len()),
    ensures
        line@ == joined(covered(spans@, text@).skip(from as int)),
{
    let ghost parts = covered(spans@, text@);
    let count = spans.len();
    let mut line = span_text(text, &spans[from]);
    let mut k: usize = from + 1;
    assert(parts.subrange(from as int, k as int) == seq![parts[from as int]]);
    while k < count
        invariant
            from < k <= count == spans@.len(),
            parts == covered(spans@, text@),
            forall|k: int| 0 <= k < spans@.len() ==> (#[trigger] spans@[k]).within(text@.len()),
            line@ == joined(parts.subrange(from as int, k as int)),
        decreases spans@.len() - k,
    {
        let part = span_text(text, &spans[k]);
        proof {
            reveal_strlit(" ");
            let upto = parts.subrange(from as int, k + 1);
            assert(upto.drop_last() == parts.subrange(from as int, k as int));
            assert(upto.last() == part@);
            assert(" "@ == seq![' ']);
        }
        line.append(" ");
        line.append(part.as_str());
        k = k + 1;
    }
    assert(parts.subrange(from as int, k as int) == parts.skip(from as int));
    line
}

/// Tells whether `record` is what `line` parses to.
pub open spec fn is_parse_of(record: Option<CapturedPacket>, line: Seq<char>) -> bool {
    match record {
        Some(p) => parsed(line) == Some(p@),
        None => parsed(line) is None,
    }
}

/// Parses one line of capture output.
///
/// A line with fewer than six tokens (a banner, a header, a blank line) is
/// no packet. The result depends on the characters of the line alone.
pub fn parse_packet(packet: &str) -> (record: Option<CapturedPacket>)
    ensures
        record is None <==> tokens(packet@).len() < MIN_TOKENS,
        is_parse_of(record, packet@),
{
    let spans = token_spans(packet);
    assert(covered(spans@, packet@).len() == spans@.len());
    if spans.len() < MIN_TOKENS {
        return None;
    }
    let timestamp = span_text(packet, &spans[0]);
    let source = span_text(packet, &spans[2]);
    let protocol = span_text(packet, &spans[4]);
    let info = join_from(packet, &spans, 5);
    Some(CapturedPacket { timestamp, source, protocol, info })
}

/// Parsing is a function of the characters of the line: two results for
/// lines of the same characters are both nothing, or packets with the same
/// four fields.
pub proof fn lemma_parse_is_deterministic(
    a: Seq<char>,
    first: Option<CapturedPacket>,
    b: Seq<char>,
    second: Option<CapturedPacket>,
)
    requires
        a == b,
        is_parse_of(first, a),
        is_parse_of(second, b),
    ensures
        first is None <==> second is None,
        first is Some ==> first->0@ == second->0@,
{
}

impl Clone for CapturedPacket {
    fn clone(&self) -> (copy: Self)
        ensures
            copy@ == self@,
    {
        CapturedPacket {
            timestamp: self.timestamp.clone(),
            source: self.source.clone(),
            protocol: self.protocol.clone(),
            info: self.info.clone(),
        }
    }
}

} // verus!
