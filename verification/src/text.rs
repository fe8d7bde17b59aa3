//! Character-level helpers shared by every extraction rule: searching for a
//! marker, stripping it from the front, cutting the last path segment,
//! writing a number in decimal. Texts are modelled as sequences of
//! characters.

use vstd::prelude::*;

verus! {

/// `marker` stands in `text` at position `at`.
pub open spec fn occurs_at(text: Seq<char>, marker: Seq<char>, at: int) -> bool {
    &&& 0 <= at
    &&& at + marker.len() <= text.len()
    &&& text.subrange(at, at + marker.len()) == marker
}

/// `marker` stands somewhere in `text`.
pub open spec fn occurs_in(text: Seq<char>, marker: Seq<char>) -> bool {
    exists|at: int| occurs_at(text, marker, at)
}

/// `text` without the `marker` it begins with; `text` itself where it does
/// not begin with it. A marker further inside is left where it is.
pub open spec fn stripped(text: Seq<char>, marker: Seq<char>) -> Seq<char> {
    if occurs_at(text, marker, 0) {
        text.skip(marker.len() as int)
    } else {
        text
    }
}

/// Where the last segment of `text` begins: behind its last `/`, or at 0
/// where it has none.
pub open spec fn segment_start(text: Seq<char>) -> int
    decreases text.len(),
{
    if text.len() == 0 {
        0
    } else if text.last() == '/' {
        text.len() as int
    } else {
        segment_start(text.drop_last())
    }
}

/// What follows the last `/` of `text`; all of `text` where it has none.
pub open spec fn last_segment(text: Seq<char>) -> Seq<char> {
    text.skip(segment_start(text))
}

/// The character that writes the digit `d`.
pub open spec fn digit_char(d: int) -> char {
    if d == 0 {
        '0'
    } else if d == 1 {
        '1'
    } else if d == 2 {
        '2'
    } else if d == 3 {
        '3'
    } else if d == 4 {
        '4'
    } else if d == 5 {
        '5'
    } else if d == 6 {
        '6'
    } else if d == 7 {
        '7'
    } else if d == 8 {
        '8'
    } else {
        '9'
    }
}

/// `n` in decimal, without leading zeros.
pub open spec fn digits(n: nat) -> Seq<char>
    decreases n,
{
    if n < 10 {
        seq![digit_char(n as int)]
    } else {
        digits(n / 10).push(digit_char((n % 10) as int))
    }
}

/// `n` in decimal, with a leading `-` where it is negative.
pub open spec fn decimal(n: int) -> Seq<char> {
    if n < 0 {
        seq!['-'] + digits((-n) as nat)
    } else {
        digits(n as nat)
    }
}

/// The characters of `text`, in order.
pub fn chars_of(text: &str) -> (out: Vec<char>)
    ensures
        out@ == text@,
{
    let mut out: Vec<char> = Vec::new();
    for c in it: text.chars()
        invariant
            it.seq() == text@,
            out@ == text@.take(it.index()),
    {
        out.push(c);
    }
    out
}

/// Whether `marker` stands in `text` at position `at`.
pub fn starts_at(text: &Vec<char>, marker: &Vec<char>, at: usize) -> (found: bool)
    ensures
        found == occurs_at(text@, marker@, at as int),
{
    if marker.len() > text.len() || at > text.len() - marker.len() {
        return false;
    }
    let mut k: usize = 0;
    while k < marker.len()
        invariant
            k <= marker.len(),
            at + marker.len() <= text.len(),
            forall|j: int| 0 <= j < k ==> text@[at + j] == marker@[j],
        decreases marker.len() - k,
    {
        if text[at + k] != marker[k] {
            assert(text@.subrange(at as int, at + marker.len())[k as int] != marker@[k as int]);
            return false;
        }
        k += 1;
    }
    assert(text@.subrange(at as int, at + marker.len()) =~= marker@);
    true
}

/// Whether `marker` stands somewhere in `text`.
pub fn contains(text: &str, marker: &str) -> (found: bool)
    ensures
        found == occurs_in(text@, marker@),
{
    let cs = chars_of(text);
    let ms = chars_of(marker);
    if ms.len() == 0 {
        assert(text@.subrange(0, 0) =~= marker@);
        assert(occurs_at(text@, marker@, 0));
        return true;
    }
    if ms.len() > cs.len() {
        return false;
    }
    let last: usize = cs.len() - ms.len();
    let mut at: usize = 0;
    while at <= last
        invariant
            at <= last + 1,
            last + ms.len() == cs.len(),
            ms.len() > 0,
            cs@ == text@,
            ms@ == marker@,
            forall|j: int| 0 <= j < at ==> !occurs_at(text@, marker@, j),
        decreases last + 1 - at,
    {
        if starts_at(&cs, &ms, at) {
            return true;
        }
        at += 1;
    }
    false
}

/// `text` without the `marker` it begins with; `text` itself where it does
/// not begin with it.
pub fn strip_prefix(text: &str, marker: &str) -> (out: String)
    ensures
        out@ == stripped(text@, marker@),
{
    let cs = chars_of(text);
    let ms = chars_of(marker);
    if starts_at(&cs, &ms, 0) {
        assert(text@.subrange(marker@.len() as int, text@.len() as int) =~= text@.skip(
            marker@.len() as int,
        ));
        text.substring_char(ms.len(), cs.len()).to_owned()
    } else {
        text.to_owned()
    }
}

/// What follows the last `/` of `text`; all of `text` where it has none.
pub fn final_segment(text: &str) -> (out: String)
    ensures
        out@ == last_segment(text@),
{
    let cs = chars_of(text);
    let mut start: usize = 0;
    let mut seen: usize = 0;
    while seen < cs.len()
        invariant
            cs@ == text@,
            start <= seen <= cs.len(),
            start == segment_start(text@.take(seen as int)),
        decreases cs.len() - seen,
    {
        assert(text@.take(seen + 1).drop_last() =~= text@.take(seen as int));
        seen += 1;
        if cs[seen - 1] == '/' {
            start = seen;
        }
    }
    assert(text@.take(seen as int) =~= text@);
    text.substring_char(start, seen).to_owned()
}

/// The one-character text that writes the digit `d`.
fn digit_text(d: u32) -> (out: &'static str)
    requires
        d < 10,
    ensures
        out@ == seq![digit_char(d as int)],
{
    proof {
        reveal_strlit("0");
        reveal_strlit("1");
        reveal_strlit("2");
        reveal_strlit("3");
        reveal_strlit("4");
        reveal_strlit("5");
        reveal_strlit("6");
        reveal_strlit("7");
        reveal_strlit("8");
        reveal_strlit("9");
    }
    let out = if d == 0 {
        "0"
    } else if d == 1 {
        "1"
    } else if d == 2 {
        "2"
    } else if d == 3 {
        "3"
    } else if d == 4 {
        "4"
    } else if d == 5 {
        "5"
    } else if d == 6 {
        "6"
    } else if d == 7 {
        "7"
    } else if d == 8 {
        "8"
    } else {
        "9"
    };
    assert(out@ =~= seq![digit_char(d as int)]);
    out
}

/// `n` in decimal, without leading zeros.
fn render_digits(n: u32) -> (out: String)
    ensures
        out@ == digits(n as nat),
    decreases n,
{
    if n < 10 {
        digit_text(n).to_owned()
    } else {
        let mut out = render_digits(n / 10);
        out.append(digit_text(n % 10));
        assert(out@ =~= digits(n as nat));
        out
    }
}

/// `n` in decimal, with a leading `-` where it is negative.
pub fn render_decimal(n: i32) -> (out: String)
    ensures
        out@ == decimal(n as int),
{
    if n < 0 {
        let magnitude: u32 = if n == i32::MIN {
            2147483648u32
        } else {
            (-n) as u32
        };
        proof {
            reveal_strlit("-");
        }
        let mut out = "-".to_owned();
        let body = render_digits(magnitude);
        out.append(body.as_str());
        assert(out@ =~= decimal(n as int));
        out
    } else {
        render_digits(n as u32)
    }
}

/// Stripping the marker from a text that begins with it leaves what follows
/// the marker, whatever that holds.
pub proof fn stripped_drops_the_prefix(marker: Seq<char>, rest: Seq<char>)
    ensures
        stripped(marker + rest, marker) == rest,
{
    let text = marker + rest;
    assert(text.subrange(0, marker.len() as int) =~= marker);
    assert(text.skip(marker.len() as int) =~= rest);
}

/// What stripping leaves is empty exactly of the empty text and of the bare
/// marker.
pub proof fn stripped_is_empty_of_bare_marker(text: Seq<char>, marker: Seq<char>)
    ensures
        stripped(text, marker).len() == 0 <==> text.len() == 0 || text == marker,
{
    if occurs_at(text, marker, 0) {
        if text.len() == marker.len() {
            assert(text.subrange(0, marker.len() as int) =~= text);
        }
    } else if text == marker {
        assert(text.subrange(0, marker.len() as int) =~= marker);
    }
}

/// The last segment is the longest tail of the text that holds no `/`: it
/// begins right behind a `/` or at the start of the text.
pub proof fn last_segment_is_longest_plain_tail(text: Seq<char>)
    ensures
        0 <= segment_start(text) <= text.len(),
        text == text.take(segment_start(text)) + last_segment(text),
        forall|at: int| segment_start(text) <= at < text.len() ==> text[at] != '/',
        segment_start(text) > 0 ==> text[segment_start(text) - 1] == '/',
    decreases text.len(),
{
    if text.len() > 0 && text.last() != '/' {
        let front = text.drop_last();
        last_segment_is_longest_plain_tail(front);
        assert(segment_start(text) == segment_start(front));
        assert forall|at: int| segment_start(text) <= at < text.len() implies text[at] != '/' by {
            if at < front.len() {
                assert(text[at] == front[at]);
            }
        }
        if segment_start(text) > 0 {
            assert(text[segment_start(text) - 1] == front[segment_start(front) - 1]);
        }
    }
    assert(text =~= text.take(segment_start(text)) + text.skip(segment_start(text)));
}

} // verus!
