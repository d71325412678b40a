use crate::jsontext::json_escape_char;
use crate::jsontext::json_escape_seq;
use crate::jsontext::spec_json_string;
use crate::localfiles::Localfile;
use crate::payloads::spec_file_obj;
use crate::payloads::spec_files_items;
use crate::payloads::spec_files_json;
use crate::strutil::dec_digits;
use crate::strutil::digit_char;
use crate::strutil::hex_digit_char;
use vstd::prelude::*;

verus! {

/// State of a JSON array scan: brace and bracket nesting depth,
/// whether the scan stands inside a string literal, whether the next
/// character is escaped, and how many separators were seen at the top
/// level.
pub struct ScanState {
    pub depth: int,
    pub in_str: bool,
    pub esc: bool,
    pub commas: nat,
}

/// One step of the scan, on one character.
pub open spec fn scan_char(st: ScanState, c: char) -> ScanState {
    if st.in_str {
        if st.esc {
            ScanState { esc: false, ..st }
        } else if c == '\\' {
            ScanState { esc: true, ..st }
        } else if c == '"' {
            ScanState { in_str: false, ..st }
        } else {
            st
        }
    } else {
        if c == '"' {
            ScanState { in_str: true, ..st }
        } else if c == '{' || c == '[' {
            ScanState { depth: st.depth + 1, ..st }
        } else if c == '}' || c == ']' {
            ScanState { depth: st.depth - 1, ..st }
        } else if c == ',' && st.depth == 0 {
            ScanState { commas: st.commas + 1, ..st }
        } else {
            st
        }
    }
}

/// The scan of a text, left to right, from a starting state.
pub open spec fn scan(s: Seq<char>, st: ScanState) -> ScanState
    decreases s.len(),
{
    if s.len() == 0 {
        st
    } else {
        scan_char(scan(s.drop_last(), st), s.last())
    }
}

/// How many elements a JSON array text holds: the text must be
/// bracketed and its inside must scan back to a balanced, unquoted
/// state; the element count is then one more than the top-level
/// separators (zero for an empty inside).
pub open spec fn json_array_count(s: Seq<char>) -> Option<nat> {
    if s.len() >= 2 && s[0] == '[' && s.last() == ']' {
        let inside = s.subrange(1, s.len() - 1);
        let end = scan(inside, ScanState { depth: 0, in_str: false, esc: false, commas: 0 });
        if end.depth == 0 && !end.in_str && !end.esc {
            if inside.len() == 0 {
                Some(0)
            } else {
                Some(end.commas + 1)
            }
        } else {
            None
        }
    } else {
        None
    }
}

proof fn lemma_scan_concat(a: Seq<char>, b: Seq<char>, st: ScanState)
    ensures
        scan(a + b, st) == scan(b, scan(a, st)),
    decreases b.len(),
{
    if b.len() == 0 {
        assert(a + b =~= a);
    } else {
        assert((a + b).drop_last() =~= a + b.drop_last());
        assert((a + b).last() == b.last());
        lemma_scan_concat(a, b.drop_last(), st);
    }
}

proof fn lemma_scan_step(s: Seq<char>, st: ScanState, k: int)
    requires
        0 <= k < s.len(),
    ensures
        scan(s.subrange(0, k + 1), st) == scan_char(scan(s.subrange(0, k), st), s[k]),
{
    assert(s.subrange(0, k + 1).drop_last() =~= s.subrange(0, k));
    assert(s.subrange(0, k + 1).last() == s[k]);
}

proof fn lemma_digit_char_plain(d: nat)
    ensures
        digit_char(d) != '"',
        digit_char(d) != '\\',
        digit_char(d) != '{',
        digit_char(d) != '[',
        digit_char(d) != '}',
        digit_char(d) != ']',
        digit_char(d) != ',',
{
}

proof fn lemma_hex_digit_char_in_string(d: nat)
    ensures
        hex_digit_char(d) != '"',
        hex_digit_char(d) != '\\',
{
    lemma_digit_char_plain(d);
}

/// Scanning the escape of one character, inside a string, changes
/// nothing: the scan stays inside the string, unescaped.
proof fn lemma_scan_escape_char(st: ScanState, c: char)
    requires
        st.in_str,
        !st.esc,
    ensures
        scan(json_escape_char(c), st) == st,
{
    let e = json_escape_char(c);
    if c == '"' || c == '\\' {
        assert(e.len() == 2);
        lemma_scan_step(e, st, 0);
        lemma_scan_step(e, st, 1);
        assert(e.subrange(0, 0) =~= Seq::<char>::empty());
        assert(e.subrange(0, 2) =~= e);
    } else if (c as u32) < 32 {
        assert(e.len() == 6);
        lemma_scan_step(e, st, 0);
        lemma_scan_step(e, st, 1);
        lemma_scan_step(e, st, 2);
        lemma_scan_step(e, st, 3);
        lemma_scan_step(e, st, 4);
        lemma_scan_step(e, st, 5);
        assert(e.subrange(0, 0) =~= Seq::<char>::empty());
        assert(e.subrange(0, 6) =~= e);
        lemma_hex_digit_char_in_string((c as u32 / 16) as nat);
        lemma_hex_digit_char_in_string((c as u32 % 16) as nat);
    } else {
        assert(e.len() == 1);
        lemma_scan_step(e, st, 0);
        assert(e.subrange(0, 0) =~= Seq::<char>::empty());
        assert(e.subrange(0, 1) =~= e);
    }
}

/// Scanning an escaped text, inside a string, changes nothing.
proof fn lemma_scan_escape_seq(st: ScanState, x: Seq<char>)
    requires
        st.in_str,
        !st.esc,
    ensures
        scan(json_escape_seq(x), st) == st,
    decreases x.len(),
{
    if x.len() == 0 {
    } else {
        lemma_scan_escape_seq(st, x.drop_last());
        lemma_scan_concat(json_escape_seq(x.drop_last()), json_escape_char(x.last()), st);
        lemma_scan_escape_char(st, x.last());
    }
}

/// Scanning a JSON string literal from outside a string returns to the
/// starting state: the opening quote is matched by the closing one and
/// everything between stays inside the string.
proof fn lemma_scan_json_string(st: ScanState, x: Seq<char>)
    requires
        !st.in_str,
        !st.esc,
    ensures
        scan(spec_json_string(x), st) == st,
{
    let open = seq!['"'];
    let inside = ScanState { in_str: true, ..st };
    assert(scan(open, st) == inside) by {
        assert(open.len() == 1);
        assert(open.last() == '"');
        assert(open.drop_last() =~= Seq::<char>::empty());
        assert(scan(open.drop_last(), st) == st);
        assert(scan(open, st) == scan_char(st, '"'));
    }
    lemma_scan_concat(open, json_escape_seq(x), st);
    lemma_scan_escape_seq(inside, x);
    lemma_scan_concat(open + json_escape_seq(x), seq!['"'], st);
    assert(scan(seq!['"'], inside) == st) by {
        assert(seq!['"'].len() == 1);
        assert(seq!['"'].last() == '"');
        assert(seq!['"'].drop_last() =~= Seq::<char>::empty());
        assert(scan(seq!['"'].drop_last(), inside) == inside);
        assert(scan(seq!['"'], inside) == scan_char(inside, '"'));
    }
    assert(spec_json_string(x) =~= (open + json_escape_seq(x)) + seq!['"']);
}

/// Scanning a decimal rendering outside a string changes nothing.
proof fn lemma_scan_digits(st: ScanState, n: nat)
    requires
        !st.in_str,
        !st.esc,
    ensures
        scan(dec_digits(n), st) == st,
    decreases n,
{
    if n < 10 {
        lemma_digit_char_plain(n);
        assert(dec_digits(n).len() == 1);
        assert(dec_digits(n).last() == digit_char(n));
        assert(dec_digits(n).drop_last() =~= Seq::<char>::empty());
        assert(scan(dec_digits(n).drop_last(), st) == st);
        assert(scan(dec_digits(n), st) == scan_char(st, digit_char(n)));
    } else {
        lemma_scan_digits(st, n / 10);
        lemma_digit_char_plain(n % 10);
        assert(dec_digits(n).len() == dec_digits(n / 10).len() + 1);
        assert(dec_digits(n).last() == digit_char(n % 10));
        assert(dec_digits(n).drop_last() =~= dec_digits(n / 10));
        assert(scan(dec_digits(n).drop_last(), st) == st);
        assert(scan(dec_digits(n), st) == scan_char(st, digit_char(n % 10)));
    }
}

/// Scanning one emitted file object from a balanced, unquoted state
/// returns to that state and counts nothing: its one comma sits inside
/// the braces.
proof fn lemma_scan_file_obj(st: ScanState, f: Localfile)
    requires
        !st.in_str,
        !st.esc,
        st.depth >= 0,
    ensures
        scan(spec_file_obj(f), st) == st,
{
    let a = "{\"name\":"@;
    let b = ",\"size\":"@;
    let c = "}"@;
    let opened = ScanState { depth: st.depth + 1, ..st };
    assert(scan(a, st) == opened) by {
        reveal_strlit("{\"name\":");
        assert(a.len() == 8);
        lemma_scan_step(a, st, 0);
        lemma_scan_step(a, st, 1);
        lemma_scan_step(a, st, 2);
        lemma_scan_step(a, st, 3);
        lemma_scan_step(a, st, 4);
        lemma_scan_step(a, st, 5);
        lemma_scan_step(a, st, 6);
        lemma_scan_step(a, st, 7);
        assert(a.subrange(0, 0) =~= Seq::<char>::empty());
        assert(a.subrange(0, 8) =~= a);
    }
    assert(scan(b, opened) == opened) by {
        reveal_strlit(",\"size\":");
        assert(b.len() == 8);
        lemma_scan_step(b, opened, 0);
        lemma_scan_step(b, opened, 1);
        lemma_scan_step(b, opened, 2);
        lemma_scan_step(b, opened, 3);
        lemma_scan_step(b, opened, 4);
        lemma_scan_step(b, opened, 5);
        lemma_scan_step(b, opened, 6);
        lemma_scan_step(b, opened, 7);
        assert(b.subrange(0, 0) =~= Seq::<char>::empty());
        assert(b.subrange(0, 8) =~= b);
    }
    assert(scan(c, opened) == st) by {
        reveal_strlit("}");
        assert(c.len() == 1);
        lemma_scan_step(c, opened, 0);
        assert(c.subrange(0, 0) =~= Seq::<char>::empty());
        assert(c.subrange(0, 1) =~= c);
    }
    lemma_scan_concat(a, spec_json_string(f.name@), st);
    lemma_scan_json_string(opened, f.name@);
    lemma_scan_concat(a + spec_json_string(f.name@), b, st);
    lemma_scan_concat(a + spec_json_string(f.name@) + b, dec_digits(f.size as nat), st);
    lemma_scan_digits(opened, f.size as nat);
    lemma_scan_concat(a + spec_json_string(f.name@) + b + dec_digits(f.size as nat), c, st);
}

/// Scanning the emitted elements from a balanced, unquoted, top-level
/// state counts exactly one separator less than there are files.
proof fn lemma_scan_files_items(st: ScanState, files: Seq<Localfile>)
    requires
        !st.in_str,
        !st.esc,
        st.depth == 0,
    ensures
        scan(spec_files_items(files), st) == (if files.len() == 0 {
            st
        } else {
            ScanState { commas: (st.commas + files.len() - 1) as nat, ..st }
        }),
    decreases files.len(),
{
    if files.len() == 0 {
    } else {
        let prev = spec_files_items(files.drop_last());
        let sep: Seq<char> = if files.len() == 1 {
            Seq::<char>::empty()
        } else {
            ","@
        };
        let obj = spec_file_obj(files.last());
        lemma_scan_files_items(st, files.drop_last());
        let after_prev = scan(prev, st);
        lemma_scan_concat(prev, sep, st);
        if files.len() > 1 {
            assert(scan(sep, after_prev) == ScanState {
                commas: after_prev.commas + 1,
                ..after_prev
            }) by {
                reveal_strlit(",");
                assert(sep.len() == 1);
                lemma_scan_step(sep, after_prev, 0);
                assert(sep.subrange(0, 0) =~= Seq::<char>::empty());
                assert(sep.subrange(0, 1) =~= sep);
            }
        }
        let after_sep = scan(sep, after_prev);
        lemma_scan_concat(prev + sep, obj, st);
        lemma_scan_file_obj(after_sep, files.last());
    }
}

proof fn lemma_file_obj_nonempty(f: Localfile)
    ensures
        spec_file_obj(f).len() > 0,
{
    reveal_strlit("{\"name\":");
}

/// Law: the files field of the container request, read as a JSON
/// array, holds exactly one element per submitted file.
pub proof fn lemma_files_json_array_count(files: Seq<Localfile>)
    ensures
        json_array_count(spec_files_json(files)) == Some(files.len()),
{
    let s = spec_files_json(files);
    let items = spec_files_items(files);
    reveal_strlit("[");
    reveal_strlit("]");
    assert(s.len() == items.len() + 2);
    assert(s[0] == '[');
    assert(s.last() == ']');
    assert(s.subrange(1, s.len() - 1) =~= items);
    let init = ScanState { depth: 0, in_str: false, esc: false, commas: 0 };
    lemma_scan_files_items(init, files);
    if files.len() == 0 {
        assert(items.len() == 0);
    } else {
        lemma_file_obj_nonempty(files.last());
        assert(items.len() > 0);
    }
}

} // verus!
