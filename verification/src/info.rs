//! The display-listing handler: formats enumerated display metadata as
//!
//! ```text
//! Found <N> screen(s):
//! Screen 1: <W>x<H> at (<X>, <Y>) - Primary: <true|false>
//! ...
//! ```
use vstd::prelude::*;

use crate::decimal::dec_text;
use crate::decimal::int_text;
use crate::decimal::i64_to_string;
use crate::decimal::lemma_dec_text_digits;
use crate::decimal::u64_to_string;
use crate::display::DisplayInfo;

verus! {

/// The text `true` or `false`.
pub open spec fn bool_text(b: bool) -> Seq<char> {
    if b {
        "true"@
    } else {
        "false"@
    }
}

/// The metadata portion of one listing line: `<W>x<H> at (<X>, <Y>) - Primary: <b>`.
pub open spec fn metadata_text(d: DisplayInfo) -> Seq<char> {
    dec_text(d.width as int) + "x"@ + dec_text(d.height as int) + " at ("@ + int_text(
        d.x as int,
    ) + ", "@ + int_text(d.y as int) + ") - Primary: "@ + bool_text(d.is_primary)
}

/// The header line, without its newline: `Found <N> screen(s):`.
pub open spec fn header_line_text(n: int) -> Seq<char> {
    "Found "@ + dec_text(n) + " screen(s):"@
}

/// One display's listing line, without its newline: `Screen <i>: <metadata>`.
pub open spec fn screen_line_body(i: int, d: DisplayInfo) -> Seq<char> {
    "Screen "@ + dec_text(i) + ": "@ + metadata_text(d)
}

/// The listing lines for the displays of `s`, numbered from `start`,
/// each followed by a newline.
pub open spec fn lines_text(s: Seq<DisplayInfo>, start: int) -> Seq<char>
    decreases s.len(),
{
    if s.len() == 0 {
        Seq::empty()
    } else {
        screen_line_body(start, s[0]) + "\n"@ + lines_text(s.drop_first(), start + 1)
    }
}

/// The whole info string: header line, then one line per display, 1-based,
/// in enumeration order.
pub open spec fn info_text(s: Seq<DisplayInfo>) -> Seq<char> {
    header_line_text(s.len() as int) + "\n"@ + lines_text(s, 1)
}

/// The enumeration-failure message: `Failed to get screens: <detail>`.
pub open spec fn enumerate_failed_text(detail: Seq<char>) -> Seq<char> {
    "Failed to get screens: "@ + detail
}

/// Appending a display extends the listing by that display's line.
pub proof fn lemma_lines_text_push(s: Seq<DisplayInfo>, start: int, d: DisplayInfo)
    ensures
        lines_text(s.push(d), start) == lines_text(s, start) + screen_line_body(
            start + s.len(),
            d,
        ) + "\n"@,
    decreases s.len(),
{
    if s.len() == 0 {
        assert(s.push(d).drop_first() =~= Seq::<DisplayInfo>::empty());
        assert(lines_text(Seq::<DisplayInfo>::empty(), start + 1) == Seq::<char>::empty());
        assert(s.push(d)[0] == d);
        assert(lines_text(s.push(d), start) =~= lines_text(s, start) + screen_line_body(
            start + s.len(),
            d,
        ) + "\n"@);
    } else {
        assert(s.push(d).drop_first() =~= s.drop_first().push(d));
        lemma_lines_text_push(s.drop_first(), start + 1, d);
        assert(lines_text(s.push(d), start) =~= lines_text(s, start) + screen_line_body(
            start + s.len(),
            d,
        ) + "\n"@);
    }
}

fn bool_str(b: bool) -> (r: &'static str)
    ensures
        r@ == bool_text(b),
{
    if b {
        "true"
    } else {
        "false"
    }
}

/// Builds one display's listing line, without its newline.
fn screen_line(i: u64, d: &DisplayInfo) -> (r: String)
    ensures
        r@ == screen_line_body(i as int, *d),
{
    let mut r = "Screen ".to_owned();
    r.append(u64_to_string(i).as_str());
    r.append(": ");
    r.append(u64_to_string(d.width as u64).as_str());
    r.append("x");
    r.append(u64_to_string(d.height as u64).as_str());
    r.append(" at (");
    r.append(i64_to_string(d.x as i64).as_str());
    r.append(", ");
    r.append(i64_to_string(d.y as i64).as_str());
    r.append(") - Primary: ");
    r.append(bool_str(d.is_primary));
    proof {
        assert(r@ =~= screen_line_body(i as int, *d));
    }
    r
}

/// Builds the whole info string for an enumeration.
pub fn format_screen_info(screens: &Vec<DisplayInfo>) -> (r: String)
    ensures
        r@ == info_text(screens@),
{
    let n = screens.len();
    let mut r = "Found ".to_owned();
    r.append(u64_to_string(n as u64).as_str());
    r.append(" screen(s):\n");
    proof {
        reveal_strlit(" screen(s):\n");
        reveal_strlit(" screen(s):");
        reveal_strlit("\n");
        assert(" screen(s):\n"@ =~= " screen(s):"@ + "\n"@);
        assert(r@ =~= header_line_text(screens@.len() as int) + "\n"@);
        assert(screens@.subrange(0, 0) =~= Seq::<DisplayInfo>::empty());
    }
    let mut i: usize = 0;
    while i < n
        invariant
            n == screens@.len(),
            0 <= i <= n,
            r@ == header_line_text(n as int) + "\n"@ + lines_text(screens@.subrange(0, i as int), 1),
        decreases n - i,
    {
        let line = screen_line((i as u64) + 1, &screens[i]);
        r.append(line.as_str());
        r.append("\n");
        proof {
            let prefix = screens@.subrange(0, i as int);
            lemma_lines_text_push(prefix, 1, screens@[i as int]);
            assert(prefix.push(screens@[i as int]) =~= screens@.subrange(0, i as int + 1));
            assert(r@ =~= header_line_text(n as int) + "\n"@ + lines_text(
                screens@.subrange(0, i as int + 1),
                1,
            ));
        }
        i += 1;
    }
    proof {
        assert(screens@.subrange(0, n as int) =~= screens@);
    }
    r
}

/// Builds the enumeration-failure message.
pub fn enumerate_failed_message(detail: &str) -> (r: String)
    ensures
        r@ == enumerate_failed_text(detail@),
{
    let mut r = "Failed to get screens: ".to_owned();
    r.append(detail);
    r
}

/// The info handler, given the outcome of display enumeration: on success,
/// the formatted listing; on failure, the enumeration-failure message. An
/// empty enumeration is reported as a listing of zero screens, not an error.
pub fn get_screen_info(screens: Result<Vec<DisplayInfo>, String>) -> (r: Result<String, String>)
    ensures
        screens matches Ok(s) ==> (r matches Ok(t) && t@ == info_text(s@)),
        screens matches Err(detail) ==> (r matches Err(m) && m@ == enumerate_failed_text(detail@)),
{
    match screens {
        Ok(s) => Ok(format_screen_info(&s)),
        Err(e) => Err(enumerate_failed_message(e.as_str())),
    }
}

/// Whether `t` is free of newlines, so that it forms a single line.
pub open spec fn has_no_newline(t: Seq<char>) -> bool {
    forall|j: int| 0 <= j < t.len() ==> t[j] != '\n'
}

/// The lines of the info string in order, without their newlines: the
/// header line, then one line per display.
pub open spec fn info_lines(s: Seq<DisplayInfo>) -> Seq<Seq<char>> {
    seq![header_line_text(s.len() as int)] + Seq::new(
        s.len(),
        |i: int| screen_line_body(i + 1, s[i]),
    )
}

/// Text assembled from lines, each followed by a newline.
pub open spec fn unlines(ls: Seq<Seq<char>>) -> Seq<char>
    decreases ls.len(),
{
    if ls.len() == 0 {
        Seq::empty()
    } else {
        ls[0] + "\n"@ + unlines(ls.drop_first())
    }
}

proof fn lemma_no_newline_concat(a: Seq<char>, b: Seq<char>)
    requires
        has_no_newline(a),
        has_no_newline(b),
    ensures
        has_no_newline(a + b),
{
    assert forall|j: int| 0 <= j < (a + b).len() implies (a + b)[j] != '\n' by {
        if j < a.len() {
            assert((a + b)[j] == a[j]);
        } else {
            assert((a + b)[j] == b[j - a.len()]);
        }
    }
}

proof fn lemma_dec_text_no_newline(n: int)
    requires
        n >= 0,
    ensures
        has_no_newline(dec_text(n)),
{
    lemma_dec_text_digits(n);
}

proof fn lemma_int_text_no_newline(n: int)
    ensures
        has_no_newline(int_text(n)),
{
    if n < 0 {
        lemma_dec_text_no_newline(-n);
        lemma_no_newline_concat(seq!['-'], dec_text(-n));
    } else {
        lemma_dec_text_no_newline(n);
    }
}

/// The header line is a single non-empty line.
proof fn lemma_header_line_shape(n: int)
    requires
        n >= 0,
    ensures
        has_no_newline(header_line_text(n)),
        header_line_text(n).len() > 0,
{
    reveal_strlit("Found ");
    reveal_strlit(" screen(s):");
    lemma_dec_text_no_newline(n);
    lemma_no_newline_concat("Found "@, dec_text(n));
    lemma_no_newline_concat("Found "@ + dec_text(n), " screen(s):"@);
}

/// Each display's listing line is a single non-empty line.
proof fn lemma_screen_line_shape(i: int, d: DisplayInfo)
    requires
        i >= 0,
    ensures
        has_no_newline(screen_line_body(i, d)),
        screen_line_body(i, d).len() > 0,
{
    reveal_strlit("Screen ");
    reveal_strlit(": ");
    reveal_strlit("x");
    reveal_strlit(" at (");
    reveal_strlit(", ");
    reveal_strlit(") - Primary: ");
    reveal_strlit("true");
    reveal_strlit("false");
    lemma_dec_text_no_newline(i);
    lemma_dec_text_no_newline(d.width as int);
    lemma_dec_text_no_newline(d.height as int);
    lemma_int_text_no_newline(d.x as int);
    lemma_int_text_no_newline(d.y as int);
    let m1 = dec_text(d.width as int) + "x"@;
    let m2 = m1 + dec_text(d.height as int);
    let m3 = m2 + " at ("@;
    let m4 = m3 + int_text(d.x as int);
    let m5 = m4 + ", "@;
    let m6 = m5 + int_text(d.y as int);
    let m7 = m6 + ") - Primary: "@;
    lemma_no_newline_concat(dec_text(d.width as int), "x"@);
    lemma_no_newline_concat(m1, dec_text(d.height as int));
    lemma_no_newline_concat(m2, " at ("@);
    lemma_no_newline_concat(m3, int_text(d.x as int));
    lemma_no_newline_concat(m4, ", "@);
    lemma_no_newline_concat(m5, int_text(d.y as int));
    lemma_no_newline_concat(m6, ") - Primary: "@);
    lemma_no_newline_concat(m7, bool_text(d.is_primary));
    let b1 = "Screen "@ + dec_text(i);
    let b2 = b1 + ": "@;
    lemma_no_newline_concat("Screen "@, dec_text(i));
    lemma_no_newline_concat(b1, ": "@);
    lemma_no_newline_concat(b2, m7 + bool_text(d.is_primary));
    assert(screen_line_body(i, d) =~= b2 + (m7 + bool_text(d.is_primary)));
}

proof fn lemma_lines_text_unlines(s: Seq<DisplayInfo>, start: int)
    ensures
        lines_text(s, start) == unlines(
            Seq::new(s.len(), |i: int| screen_line_body(start + i, s[i])),
        ),
    decreases s.len(),
{
    let ls = Seq::new(s.len(), |i: int| screen_line_body(start + i, s[i]));
    if s.len() == 0 {
        assert(unlines(ls) == Seq::<char>::empty());
    } else {
        lemma_lines_text_unlines(s.drop_first(), start + 1);
        assert(ls.drop_first() =~= Seq::new(
            s.drop_first().len(),
            |i: int| screen_line_body(start + 1 + i, s.drop_first()[i]),
        ));
        assert(lines_text(s, start) =~= unlines(ls));
    }
}

/// The info string is exactly its lines, each followed by a newline: the
/// header line `Found <N> screen(s):`, then, for i = 1..N in enumeration
/// order, the line `Screen <i>: <metadata>`; no line contains a newline,
/// and none is empty.
pub proof fn lemma_info_text_line_structure(s: Seq<DisplayInfo>)
    ensures
        info_text(s) == unlines(info_lines(s)),
        info_lines(s).len() == s.len() + 1,
        info_lines(s)[0] == header_line_text(s.len() as int),
        forall|i: int|
            1 <= i <= s.len() ==> #[trigger] info_lines(s)[i] == screen_line_body(i, s[i - 1]),
        forall|i: int| 0 <= i <= s.len() ==> has_no_newline(#[trigger] info_lines(s)[i]),
        forall|i: int| 0 <= i <= s.len() ==> (#[trigger] info_lines(s)[i]).len() > 0,
{
    let ls = info_lines(s);
    let body = Seq::new(s.len(), |i: int| screen_line_body(i + 1, s[i]));
    lemma_lines_text_unlines(s, 1);
    assert(Seq::new(s.len(), |i: int| screen_line_body(1 + i, s[i])) =~= body);
    assert(ls.drop_first() =~= body);
    assert(unlines(ls) == ls[0] + "\n"@ + unlines(body));
    assert(info_text(s) =~= unlines(ls));
    lemma_header_line_shape(s.len() as int);
    assert forall|i: int| 0 <= i <= s.len() implies has_no_newline(#[trigger] ls[i]) && ls[i].len()
        > 0 by {
        if i > 0 {
            lemma_screen_line_shape(i, s[i - 1]);
            assert(ls[i] == body[i - 1]);
        }
    }
}

proof fn lemma_map_multiset(
    s1: Seq<DisplayInfo>,
    s2: Seq<DisplayInfo>,
    f: spec_fn(DisplayInfo) -> Seq<char>,
)
    requires
        s1.to_multiset() == s2.to_multiset(),
    ensures
        s1.map_values(f).to_multiset() == s2.map_values(f).to_multiset(),
    decreases s1.len(),
{
    broadcast use vstd::seq_lib::group_to_multiset_ensures;
    broadcast use vstd::multiset::group_multiset_axioms;

    s1.to_multiset_ensures();
    s2.to_multiset_ensures();
    if s1.len() == 0 {
        assert(s2.len() == 0);
        assert(s1.map_values(f) =~= Seq::<Seq<char>>::empty());
        assert(s2.map_values(f) =~= Seq::<Seq<char>>::empty());
    } else {
        let e = s1[0];
        assert(s1.contains(e));
        assert(s2.to_multiset().count(e) > 0);
        assert(s2.contains(e));
        let j = choose|j: int| 0 <= j < s2.len() && s2[j] == e;
        assert(s1.remove(0).to_multiset() == s1.to_multiset().remove(e));
        assert(s2.remove(j).to_multiset() == s2.to_multiset().remove(e));
        lemma_map_multiset(s1.remove(0), s2.remove(j), f);
        assert(s1.remove(0).map_values(f) =~= s1.map_values(f).remove(0));
        assert(s2.remove(j).map_values(f) =~= s2.map_values(f).remove(j));
        let m1 = s1.map_values(f).to_multiset();
        let m2 = s2.map_values(f).to_multiset();
        assert(s1.map_values(f).remove(0).to_multiset() == m1.remove(f(e)));
        assert(s2.map_values(f).remove(j).to_multiset() == m2.remove(f(e)));
        assert(s1.map_values(f)[0] == f(e));
        assert(s1.map_values(f).contains(f(e)));
        assert(m1.count(f(e)) > 0);
        assert(s2.map_values(f)[j] == f(e));
        assert(s2.map_values(f).contains(f(e)));
        assert(m2.count(f(e)) > 0);
        assert(m1 =~= m2) by {
            assert forall|x: Seq<char>| m1.count(x) == m2.count(x) by {
                if x == f(e) {
                    assert(m1.remove(f(e)).count(x) == m2.remove(f(e)).count(x));
                } else {
                    assert(m1.remove(f(e)).count(x) == m1.count(x));
                    assert(m2.remove(f(e)).count(x) == m2.count(x));
                }
            }
        }
    }
}

/// Two enumerations that list the same displays, in any order, yield info
/// strings whose per-display metadata renderings are equal up to ordering,
/// and whose header lines are equal outright.
pub proof fn lemma_info_order_insensitive(s1: Seq<DisplayInfo>, s2: Seq<DisplayInfo>)
    requires
        s1.to_multiset() == s2.to_multiset(),
    ensures
        s1.map_values(|d: DisplayInfo| metadata_text(d)).to_multiset() == s2.map_values(
            |d: DisplayInfo| metadata_text(d),
        ).to_multiset(),
        header_line_text(s1.len() as int) == header_line_text(s2.len() as int),
{
    broadcast use vstd::seq_lib::group_to_multiset_ensures;

    lemma_map_multiset(s1, s2, |d: DisplayInfo| metadata_text(d));
    s1.to_multiset_ensures();
    s2.to_multiset_ensures();
    assert(s1.len() == s2.len());
}

} // verus!
