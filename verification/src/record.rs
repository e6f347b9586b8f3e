//! The crash record: the one line that an execution child writes before it
//! is killed, and the crash that the supervisor reads back from it.
//!
//! The record is a JSON object on a line of its own:
//!
//! ```text
//! {"event":"crash","point_id":2,"label":"after_sync","seed":null,"work_dir":"/tmp/x"}
//! ```
//!
//! In the label and the working directory a backslash and a double quote are
//! written with a backslash in front. The seed is written as it was given.

use crate::env::{CrashInfo, CrashInfoView};
use crate::text::{
    decimal, find, find_from, find_in, occurs_at, parse_number, parse_range, push_decimal,
    to_chars,
};
use vstd::prelude::*;

verus! {

/// The text with which every crash record begins.
pub open spec fn record_prefix() -> Seq<char> {
    "{\"event\":\"crash\""@
}

/// The key in front of the crash point's number.
pub open spec fn point_id_key() -> Seq<char> {
    "\"point_id\":"@
}

/// The key and opening quote in front of the label.
pub open spec fn label_key() -> Seq<char> {
    "\"label\":\""@
}

/// The label of a crash whose record names none.
pub open spec fn unknown_label() -> Seq<char> {
    "unknown"@
}

/// The seed written into a record when none was given.
pub open spec fn absent_seed() -> Seq<char> {
    "null"@
}

/// Whether `c` is written with a backslash in front.
pub open spec fn needs_escape(c: char) -> bool {
    c == '\\' || c == '"'
}

/// `s` as it stands between the quotes of a record: a backslash in front of
/// every backslash and every double quote.
pub open spec fn escape(s: Seq<char>) -> Seq<char>
    decreases s.len(),
{
    if s.len() == 0 {
        s
    } else if needs_escape(s[0]) {
        seq!['\\', s[0]] + escape(s.skip(1))
    } else {
        seq![s[0]] + escape(s.skip(1))
    }
}

/// The text from the start of `s` up to the first double quote that no
/// backslash escapes, with each escaped backslash and double quote turned
/// back into the character itself; `None` where no such quote follows.
///
/// A backslash in front of any other character stands for itself.
pub open spec fn read_quoted(s: Seq<char>) -> Option<Seq<char>>
    decreases s.len(),
{
    if s.len() == 0 {
        None
    } else if s[0] == '"' {
        Some(Seq::empty())
    } else if s[0] == '\\' && s.len() >= 2 && needs_escape(s[1]) {
        match read_quoted(s.skip(2)) {
            Some(rest) => Some(seq![s[1]] + rest),
            None => None,
        }
    } else {
        match read_quoted(s.skip(1)) {
            Some(rest) => Some(seq![s[0]] + rest),
            None => None,
        }
    }
}

/// The crash record of a crash at point `point_id` under `label`, without
/// the line break that ends it.
pub open spec fn crash_record(
    point_id: nat,
    label: Seq<char>,
    seed: Seq<char>,
    work_dir: Seq<char>,
) -> Seq<char> {
    record_prefix() + ","@ + point_id_key() + decimal(point_id) + ","@ + label_key() + escape(
        label,
    ) + "\",\"seed\":"@ + seed + ",\"work_dir\":\""@ + escape(work_dir) + "\"}"@
}

/// The label that `json` carries: what stands between the quotes behind the
/// first label key, or `unknown` where the key or the closing quote is
/// missing.
pub open spec fn label_in(json: Seq<char>) -> Seq<char> {
    match find(json, label_key()) {
        Some(at) => match read_quoted(json.skip(at + label_key().len())) {
            Some(label) => label,
            None => unknown_label(),
        },
        None => unknown_label(),
    }
}

/// The crash that the record `json` tells of.
///
/// The number of the crash point stands between the first point key and the
/// next comma. Where the key, the comma or a number between them is
/// missing, the record tells of no crash.
pub open spec fn crash_in(json: Seq<char>) -> Option<CrashInfoView> {
    match find(json, point_id_key()) {
        Some(at) => {
            let start = at + point_id_key().len();
            match find_from(json, ","@, start) {
                Some(end) => match parse_number(json.subrange(start, end)) {
                    Some(point_id) => Some(CrashInfoView { point_id, label: label_in(json) }),
                    None => None,
                },
                None => None,
            }
        },
        None => None,
    }
}

/// Whether `s` holds no line break.
pub open spec fn is_one_line(s: Seq<char>) -> bool {
    forall|i: int| 0 <= i < s.len() ==> #[trigger] s[i] != '\n'
}

/// The first of `lines` that begins as a crash record does.
pub open spec fn first_record(lines: Seq<Seq<char>>) -> Option<Seq<char>>
    decreases lines.len(),
{
    if lines.len() == 0 {
        None
    } else if occurs_at(lines[0], record_prefix(), 0) {
        Some(lines[0])
    } else {
        first_record(lines.skip(1))
    }
}

/// The crash that the lines of an execution child's error output tell of:
/// the one in the first line that begins as a crash record does.
pub open spec fn crash_in_lines(lines: Seq<Seq<char>>) -> Option<CrashInfoView> {
    match first_record(lines) {
        Some(line) => crash_in(line),
        None => None,
    }
}

/// Appends `s` to `out`, escaped as between the quotes of a record.
pub fn push_escaped(out: &mut String, s: &str)
    ensures
        final(out)@ == old(out)@ + escape(s@),
{
    let chars = to_chars(s);
    let mut i: usize = 0;
    assert(chars@.skip(0) =~= chars@);
    while i < chars.len()
        invariant
            i <= chars.len(),
            out@ + escape(chars@.skip(i as int)) == old(out)@ + escape(chars@),
        decreases chars.len() - i,
    {
        let c = chars[i];
        let ghost before = out@;
        let ghost rest = chars@.skip(i as int);
        assert(rest.skip(1) =~= chars@.skip(i + 1));
        if c == '\\' || c == '"' {
            out.push('\\');
            out.push(c);
            assert(out@ + escape(rest.skip(1)) =~= before + escape(rest));
        } else {
            out.push(c);
            assert(out@ + escape(rest.skip(1)) =~= before + escape(rest));
        }
        i += 1;
    }
    assert(escape(chars@.skip(i as int)) =~= Seq::<char>::empty());
    assert(out@ =~= out@ + escape(chars@.skip(i as int)));
}

/// The line that an execution child writes when it reaches its crash point:
/// the crash record, ended by a line break.
///
/// Without a seed the record says `null` in its place, and without a
/// working directory `unknown`.
pub fn format_crash_metadata(
    point_id: usize,
    label: &str,
    seed: Option<&str>,
    work_dir: Option<&str>,
) -> (line: String)
    ensures
        line@ == crash_record(
            point_id as nat,
            label@,
            match seed {
                Some(s) => s@,
                None => absent_seed(),
            },
            match work_dir {
                Some(w) => w@,
                None => unknown_label(),
            },
        ).push('\n'),
{
    let seed_text: &str = match seed {
        Some(s) => s,
        None => "null",
    };
    let dir_text: &str = match work_dir {
        Some(w) => w,
        None => "unknown",
    };
    let mut line = String::from_str("{\"event\":\"crash\"");
    line.append(",");
    line.append("\"point_id\":");
    push_decimal(&mut line, point_id as u64);
    line.append(",");
    line.append("\"label\":\"");
    push_escaped(&mut line, label);
    line.append("\",\"seed\":");
    line.append(seed_text);
    line.append(",\"work_dir\":\"");
    push_escaped(&mut line, dir_text);
    line.append("\"}");
    line.push('\n');
    line
}

/// Reads quoted text that starts at `chars[from]`.
fn read_quoted_at(chars: &Vec<char>, from: usize) -> (r: Option<String>)
    requires
        from <= chars.len(),
    ensures
        r.deep_view() == read_quoted(chars@.skip(from as int)),
{
    let mut text = String::new();
    let mut i: usize = from;
    while i < chars.len()
        invariant
            from <= i <= chars.len(),
            read_quoted(chars@.skip(from as int)) == match read_quoted(chars@.skip(i as int)) {
                Some(rest) => Some(text@ + rest),
                None => None,
            },
        decreases chars.len() - i,
    {
        let c = chars[i];
        let ghost here = chars@.skip(i as int);
        let ghost before = text@;
        if c == '"' {
            assert(read_quoted(here) == Some(Seq::<char>::empty()));
            assert(before + Seq::<char>::empty() =~= before);
            return Some(text);
        }
        if c == '\\' && i + 1 < chars.len() && (chars[i + 1] == '\\' || chars[i + 1] == '"') {
            text.push(chars[i + 1]);
            proof {
                assert(here.skip(2) =~= chars@.skip(i + 2));
                match read_quoted(here.skip(2)) {
                    Some(rest) => {
                        assert(before + (seq![here[1]] + rest) =~= text@ + rest);
                    },
                    None => {},
                }
            }
            i += 2;
        } else {
            text.push(c);
            proof {
                assert(here.skip(1) =~= chars@.skip(i + 1));
                match read_quoted(here.skip(1)) {
                    Some(rest) => {
                        assert(before + (seq![here[0]] + rest) =~= text@ + rest);
                    },
                    None => {},
                }
            }
            i += 1;
        }
    }
    None
}

/// The label that the record `chars` carries.
fn label_of(chars: &Vec<char>) -> (label: String)
    ensures
        label@ == label_in(chars@),
{
    let key = to_chars("\"label\":\"");
    let quoted = match find_in(chars, &key, 0) {
        Some(at) => {
            proof {
                crate::text::lemma_find_from_is_first(chars@, key@, 0);
                assert(occurs_at(chars@, key@, at as int));
        assert(at + key.len() <= chars.len());
            }
            read_quoted_at(chars, at + key.len())
        },
        None => None,
    };
    match quoted {
        Some(label) => label,
        None => String::from_str("unknown"),
    }
}

/// Reads a crash record.
///
/// Returns the crash that `json` tells of: the number behind the first
/// `"point_id":` up to the next comma, and the label between the quotes
/// behind the first `"label":"`. A record without a label is given the
/// label `unknown`; a record without a crash point's number tells of no
/// crash.
pub fn parse_crash_json(json: &str) -> (info: Option<CrashInfo>)
    ensures
        info.deep_view() == crash_in(json@),
{
    let chars = to_chars(json);
    let key = to_chars("\"point_id\":");
    let comma = to_chars(",");
    let at = match find_in(&chars, &key, 0) {
        Some(at) => at,
        None => {
            return None;
        },
    };
    proof {
        crate::text::lemma_find_from_is_first(chars@, key@, 0);
        assert(occurs_at(chars@, key@, at as int));
        assert(at + key.len() <= chars.len());
    }
    let start: usize = at + key.len();
    let end = match find_in(&chars, &comma, start) {
        Some(end) => end,
        None => {
            return None;
        },
    };
    proof {
        crate::text::lemma_find_from_is_first(chars@, comma@, start as int);
    }
    let point_id = match parse_range(&chars, start, end) {
        Some(n) => n,
        None => {
            return None;
        },
    };
    Some(CrashInfo::new(point_id, label_of(&chars)))
}

/// Whether `line` begins as a crash record does.
pub fn is_crash_record(line: &str) -> (b: bool)
    ensures
        b == occurs_at(line@, record_prefix(), 0),
{
    let chars = to_chars(line);
    let prefix = to_chars("{\"event\":\"crash\"");
    crate::text::matches_at(&chars, &prefix, 0)
}

/// Looks for the crash record among the lines that an execution child wrote
/// to its error output.
///
/// The first line that begins with `{"event":"crash"` is taken for the
/// record, whatever the other lines hold, and read with
/// [`parse_crash_json`].
pub fn parse_crash_metadata(lines: &Vec<String>) -> (info: Option<CrashInfo>)
    ensures
        info.deep_view() == crash_in_lines(lines.deep_view()),
{
    let ghost all = lines.deep_view();
    let mut i: usize = 0;
    assert(all.skip(0) =~= all);
    while i < lines.len()
        invariant
            i <= lines.len(),
            all == lines.deep_view(),
            first_record(all) == first_record(all.skip(i as int)),
        decreases lines.len() - i,
    {
        assert(all.skip(i as int)[0] == lines@[i as int]@);
        if is_crash_record(lines[i].as_str()) {
            return parse_crash_json(lines[i].as_str());
        }
        assert(all.skip(i as int).skip(1) =~= all.skip(i + 1));
        i += 1;
    }
    None
}

/// Escaped text is read back as it was, whatever follows its closing quote.
pub proof fn lemma_read_escaped(text: Seq<char>, rest: Seq<char>)
    requires
        rest.len() > 0,
        rest[0] == '"',
    ensures
        read_quoted(escape(text) + rest) == Some(text),
    decreases text.len(),
{
    let s = escape(text) + rest;
    if text.len() == 0 {
        assert(s =~= rest);
        assert(text =~= Seq::<char>::empty());
    } else {
        let c = text[0];
        lemma_read_escaped(text.skip(1), rest);
        if needs_escape(c) {
            assert(s[0] == '\\' && s[1] == c);
            assert(s.skip(2) =~= escape(text.skip(1)) + rest);
            assert(seq![c] + text.skip(1) =~= text);
        } else {
            assert(s[0] == c);
            assert(s.skip(1) =~= escape(text.skip(1)) + rest);
            assert(seq![c] + text.skip(1) =~= text);
        }
    }
}

/// The fixed text with which a record begins, up to the crash point's
/// number.
spec fn record_head() -> Seq<char> {
    record_prefix() + ","@ + point_id_key()
}

/// What of a record follows the crash point's number.
spec fn record_tail(label: Seq<char>, seed: Seq<char>, work_dir: Seq<char>) -> Seq<char> {
    ","@ + label_key() + escape(label) + "\",\"seed\":"@ + seed + ",\"work_dir\":\""@ + escape(
        work_dir,
    ) + "\"}"@
}

/// How a record is put together: its head, the digits of the crash point's
/// number, and its tail, in which the escaped label stands between quotes
/// right behind the label's key.
proof fn lemma_record_parts(point_id: nat, label: Seq<char>, seed: Seq<char>, work_dir: Seq<char>)
    ensures
        crash_record(point_id, label, seed, work_dir) == record_head() + decimal(point_id)
            + record_tail(label, seed, work_dir),
        record_head().len() == 28,
        (","@ + label_key()).len() == 10,
        (","@ + label_key()).is_prefix_of(record_tail(label, seed, work_dir)),
        record_tail(label, seed, work_dir)[0] == ',',
        record_tail(label, seed, work_dir).len() >= 11 + escape(label).len(),
        record_tail(label, seed, work_dir).skip(10) == escape(label) + record_tail(
            label,
            seed,
            work_dir,
        ).skip(10 + escape(label).len() as int),
        record_tail(label, seed, work_dir)[10 + escape(label).len() as int] == '"',
{
    reveal_strlit("{\"event\":\"crash\"");
    reveal_strlit(",");
    reveal_strlit("\"point_id\":");
    reveal_strlit("\"label\":\"");
    reveal_strlit("\",\"seed\":");
    reveal_strlit(",\"work_dir\":\"");
    reveal_strlit("\"}");
    let tail = record_tail(label, seed, work_dir);
    assert(crash_record(point_id, label, seed, work_dir) =~= record_head() + decimal(point_id)
        + tail);
    assert(tail.subrange(0, 10) =~= ","@ + label_key());
    assert(tail.skip(10) =~= escape(label) + tail.skip(10 + escape(label).len() as int));
}

/// A text is a prefix of itself with more text behind it, and skipping it
/// and `k` more characters leaves what skipping `k` characters of the rest
/// leaves.
proof fn lemma_concat_parts(a: Seq<char>, b: Seq<char>, c: Seq<char>, k: int)
    requires
        0 <= k <= c.len(),
    ensures
        a.is_prefix_of(a + b + c),
        (a + b + c).skip(a.len() + b.len() + k) == c.skip(k),
{
    assert(a =~= (a + b + c).subrange(0, a.len() as int));
    assert((a + b + c).skip(a.len() + b.len() + k) =~= c.skip(k));
}

/// Where no two neighbours before `upto` are the first two characters of
/// `needle`, `needle` stands nowhere before `upto`.
proof fn lemma_no_occurrence(hay: Seq<char>, needle: Seq<char>, upto: int)
    requires
        needle.len() >= 2,
        forall|j: int|
            0 <= j < upto && j + 1 < hay.len() ==> !(hay[j] == needle[0] && #[trigger] hay[j + 1]
                == needle[1]),
    ensures
        forall|j: int| 0 <= j < upto ==> !occurs_at(hay, needle, j),
{
    assert forall|j: int| 0 <= j < upto implies !occurs_at(hay, needle, j) by {
        if occurs_at(hay, needle, j) {
            let part = hay.subrange(j, j + needle.len());
            assert(part[0] == hay[j] && part[1] == hay[j + 1]);
        }
    }
}

/// The characters of the record's head, one by one.
proof fn lemma_head_chars(head: Seq<char>)
    requires
        head == record_head(),
    ensures
        head.len() == 28,
        head[0] == '{' && head[1] == '"' && head[2] == 'e' && head[3] == 'v' && head[4] == 'e'
            && head[5] == 'n' && head[6] == 't' && head[7] == '"' && head[8] == ':' && head[9]
            == '"' && head[10] == 'c' && head[11] == 'r' && head[12] == 'a' && head[13] == 's'
            && head[14] == 'h' && head[15] == '"' && head[16] == ',' && head[17] == '"'
            && head[18] == 'p' && head[19] == 'o' && head[20] == 'i' && head[21] == 'n'
            && head[22] == 't' && head[23] == '_' && head[24] == 'i' && head[25] == 'd'
            && head[26] == '"' && head[27] == ':',
{
    reveal_strlit("{\"event\":\"crash\"");
    reveal_strlit(",");
    reveal_strlit("\"point_id\":");
}

/// In a text that begins with the record's head, the key of the crash
/// point's number is first found at index 17.
proof fn lemma_find_point_key(record: Seq<char>)
    requires
        record_head().is_prefix_of(record),
    ensures
        find(record, point_id_key()) == Some(17int),
{
    let head = record_head();
    let key = point_id_key();
    lemma_head_chars(head);
    reveal_strlit("\"point_id\":");
    assert(forall|j: int| 0 <= j < 28 ==> record[j] == head.subrange(0, 28)[j]);
    assert(forall|j: int| 0 <= j < 28 ==> record[j] == head[j]);
    assert(record.subrange(17, 28) =~= key);
    assert(key[0] == '"' && key[1] == 'p');
    lemma_no_occurrence(record, key, 17);
    crate::text::lemma_find_from_at(record, key, 0, 17);
}

/// In a text made of the record's head, a run of digits and a comma, the
/// comma is the first one behind the head.
proof fn lemma_find_comma(record: Seq<char>, digits: Seq<char>, rest: Seq<char>)
    requires
        record == record_head() + digits + rest,
        crate::text::is_digits(digits),
        rest.len() > 0,
        rest[0] == ',',
    ensures
        find_from(record, ","@, 28) == Some(28 + digits.len() as int),
        record.subrange(28, 28 + digits.len() as int) == digits,
{
    let n = digits.len() as int;
    lemma_head_chars(record_head());
    reveal_strlit(",");
    assert(record.subrange(28 + n, 28 + n + 1) =~= ","@);
    assert forall|j: int| 28 <= j < 28 + n implies !occurs_at(record, ","@, j) by {
        if occurs_at(record, ","@, j) {
            assert(record.subrange(j, j + 1)[0] == ',');
            assert(crate::text::is_digit(digits[j - 28]));
        }
    }
    crate::text::lemma_find_from_at(record, ","@, 28, 28 + n);
    assert(record.subrange(28, 28 + n) =~= digits);
}

/// In a text made of the record's head, a run of digits, a comma and the
/// label's key, that key is first found right behind the comma.
proof fn lemma_find_label_key(record: Seq<char>, digits: Seq<char>, rest: Seq<char>)
    requires
        record == record_head() + digits + rest,
        crate::text::is_digits(digits),
        (","@ + label_key()).is_prefix_of(rest),
    ensures
        find(record, label_key()) == Some(29 + digits.len() as int),
{
    let n = digits.len() as int;
    let head = record_head();
    let key = label_key();
    lemma_head_chars(head);
    reveal_strlit(",");
    reveal_strlit("\"label\":\"");
    assert(key[0] == '"' && key[1] == 'l' && key.len() == 9);
    let opening = ","@ + key;
    assert(forall|j: int| 0 <= j < 10 ==> rest[j] == rest.subrange(0, 10)[j]);
    assert(forall|j: int| 0 <= j < 10 ==> rest[j] == opening[j]);
    assert(forall|j: int| 0 <= j < 28 ==> record[j] == head[j]);
    assert(forall|j: int| 0 <= j < n ==> record[28 + j] == digits[j]);
    assert(forall|j: int| 0 <= j < 10 ==> record[28 + n + j] == rest[j]);
    assert(record.subrange(29 + n, 38 + n) =~= key);
    assert forall|j: int| 0 <= j < 29 + n && j + 1 < record.len() implies !(record[j] == key[0]
        && #[trigger] record[j + 1] == key[1]) by {
        if 28 <= j < 28 + n {
            assert(crate::text::is_digit(digits[j - 28]));
        } else if j == 28 + n {
            assert(record[j] == rest[0]);
        } else if j == 27 {
        } else {
            assert(record[j + 1] == head[j + 1]);
        }
    }
    lemma_no_occurrence(record, key, 29 + n);
    crate::text::lemma_find_from_at(record, key, 0, 29 + n);
}

/// Reading a crash record gives back the crash point and the label that it
/// was written from, whatever the label, the seed and the working directory
/// hold.
pub proof fn lemma_record_round_trip(
    point_id: usize,
    label: Seq<char>,
    seed: Seq<char>,
    work_dir: Seq<char>,
)
    ensures
        crash_in(crash_record(point_id as nat, label, seed, work_dir)) == Some(
            CrashInfoView { point_id, label },
        ),
{
    let record = crash_record(point_id as nat, label, seed, work_dir);
    let digits = decimal(point_id as nat);
    let tail = record_tail(label, seed, work_dir);
    let n = digits.len() as int;
    lemma_record_parts(point_id as nat, label, seed, work_dir);
    crate::text::lemma_decimal_round_trip(point_id as nat);
    crate::text::lemma_parse_decimal(point_id);
    lemma_concat_parts(record_head(), digits, tail, 10);
    lemma_find_point_key(record);
    lemma_find_comma(record, digits, tail);
    lemma_find_label_key(record, digits, tail);
    lemma_read_escaped(label, tail.skip(10 + escape(label).len() as int));
    assert(find(record, point_id_key()) == Some(17int));
    assert(point_id_key().len() == 11) by {
        reveal_strlit("\"point_id\":");
    }
    assert(label_key().len() == 9) by {
        reveal_strlit("\"label\":\"");
    }
    assert(label_in(record) == label);
}

/// A crash record begins as a crash record does.
pub proof fn lemma_record_has_prefix(
    point_id: nat,
    label: Seq<char>,
    seed: Seq<char>,
    work_dir: Seq<char>,
)
    ensures
        occurs_at(crash_record(point_id, label, seed, work_dir), record_prefix(), 0),
{
    let record = crash_record(point_id, label, seed, work_dir);
    let rest = record.skip(record_prefix().len() as int);
    assert(record =~= record_prefix() + rest);
    assert(record.subrange(0, record_prefix().len() as int) =~= record_prefix());
}

/// An error output tells of the crash of the crash record among its
/// lines, whatever the lines behind the record hold, and whatever those
/// before it, as long as none of them begins as a crash record does.
pub proof fn lemma_record_line_round_trip(
    before: Seq<Seq<char>>,
    point_id: usize,
    label: Seq<char>,
    seed: Seq<char>,
    work_dir: Seq<char>,
    after: Seq<Seq<char>>,
)
    requires
        forall|i: int| 0 <= i < before.len() ==> !occurs_at(#[trigger] before[i], record_prefix(), 0),
    ensures
        crash_in_lines(before + seq![crash_record(point_id as nat, label, seed, work_dir)] + after)
            == Some(CrashInfoView { point_id, label }),
    decreases before.len(),
{
    let record = crash_record(point_id as nat, label, seed, work_dir);
    let lines = before + seq![record] + after;
    if before.len() == 0 {
        lemma_record_has_prefix(point_id as nat, label, seed, work_dir);
        lemma_record_round_trip(point_id, label, seed, work_dir);
        assert(lines[0] == record);
    } else {
        lemma_record_line_round_trip(before.skip(1), point_id, label, seed, work_dir, after);
        assert(lines[0] == before[0]);
        assert(lines.skip(1) =~= before.skip(1) + seq![record] + after);
    }
}

/// Escaping adds no line break to a text.
pub proof fn lemma_escape_is_one_line(s: Seq<char>)
    requires
        is_one_line(s),
    ensures
        is_one_line(escape(s)),
    decreases s.len(),
{
    if s.len() > 0 {
        assert(is_one_line(s.skip(1))) by {
            assert(forall|i: int| 0 <= i < s.skip(1).len() ==> s.skip(1)[i] == s[i + 1]);
        }
        lemma_escape_is_one_line(s.skip(1));
        assert(s[0] != '\n');
    }
}

/// A crash record is one line, where the label, the seed and the working
/// directory hold no line break.
pub proof fn lemma_record_is_one_line(
    point_id: nat,
    label: Seq<char>,
    seed: Seq<char>,
    work_dir: Seq<char>,
)
    requires
        is_one_line(label),
        is_one_line(seed),
        is_one_line(work_dir),
    ensures
        is_one_line(crash_record(point_id, label, seed, work_dir)),
{
    reveal_strlit("{\"event\":\"crash\"");
    reveal_strlit(",");
    reveal_strlit("\"point_id\":");
    reveal_strlit("\"label\":\"");
    reveal_strlit("\",\"seed\":");
    reveal_strlit(",\"work_dir\":\"");
    reveal_strlit("\"}");
    crate::text::lemma_decimal_round_trip(point_id);
    lemma_escape_is_one_line(label);
    lemma_escape_is_one_line(work_dir);
    let digits = decimal(point_id);
    assert(is_one_line(digits)) by {
        assert(forall|i: int| 0 <= i < digits.len() ==> crate::text::is_digit(digits[i]));
    }
    assert(is_one_line(record_prefix()));
    assert(is_one_line(","@));
    assert(is_one_line(point_id_key()));
    assert(is_one_line(label_key()));
    assert(is_one_line("\",\"seed\":"@));
    assert(is_one_line(",\"work_dir\":\""@));
    assert(is_one_line("\"}"@));
    let a = record_prefix() + ","@ + point_id_key() + digits;
    assert(is_one_line(a));
    let b = a + ","@ + label_key() + escape(label);
    assert(is_one_line(b));
    let c = b + "\",\"seed\":"@ + seed;
    assert(is_one_line(c));
}

} // verus!
