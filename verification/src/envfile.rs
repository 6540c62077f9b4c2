use vstd::prelude::*;
use vstd::string::StrSliceExecFns;
use vstd::string::StringExecFns;

verus! {

/// The text split at every occurrence of the separator. Splitting the
/// empty text gives one empty piece, as splitting a text of n separators
/// gives n + 1 empty pieces.
pub open spec fn spec_split_on(s: Seq<char>, sep: char) -> Seq<Seq<char>>
    decreases s.len(),
{
    if s.len() == 0 {
        seq![Seq::empty()]
    } else if s.last() == sep {
        spec_split_on(s.drop_last(), sep).push(Seq::empty())
    } else {
        let r = spec_split_on(s.drop_last(), sep);
        r.update(r.len() - 1, r.last().push(s.last()))
    }
}

/// Splitting always yields at least one piece.
pub proof fn lemma_split_on_nonempty(s: Seq<char>, sep: char)
    ensures
        spec_split_on(s, sep).len() >= 1,
    decreases s.len(),
{
    if s.len() > 0 {
        lemma_split_on_nonempty(s.drop_last(), sep);
    }
}

/// Splits the text at every occurrence of the separator.
pub fn split_on(s: &str, sep: char) -> (r: Vec<String>)
    ensures
        r@.map_values(|l: String| l@) == spec_split_on(s@, sep),
{
    let n = s.unicode_len();
    let mut pieces: Vec<String> = Vec::new();
    let mut start: usize = 0;
    let mut i: usize = 0;
    while i < n
        invariant
            n == s@.len(),
            0 <= start <= i <= n,
            pieces@.map_values(|l: String| l@).push(s@.subrange(start as int, i as int))
                =~~= spec_split_on(s@.take(i as int), sep),
        decreases n - i,
    {
        let c = s.get_char(i);
        if c == sep {
            let piece = String::from_str(s.substring_char(start, i));
            pieces.push(piece);
            proof {
                let t = spec_split_on(s@.take(i as int), sep);
                assert(s@.take(i + 1 as int).drop_last() =~= s@.take(i as int));
                assert(s@.take(i + 1 as int).last() == sep);
                assert(spec_split_on(s@.take(i + 1 as int), sep) == t.push(Seq::<char>::empty()));
                assert(pieces@.map_values(|l: String| l@).push(s@.subrange(
                    i + 1 as int,
                    i + 1 as int,
                )) =~~= t.push(Seq::<char>::empty()));
            }
            start = i + 1;
        } else {
            proof {
                let t = spec_split_on(s@.take(i as int), sep);
                assert(s@.take(i + 1 as int).drop_last() =~= s@.take(i as int));
                assert(s@.take(i + 1 as int).last() == s@[i as int]);
                assert(t.len() >= 1) by {
                    lemma_split_on_nonempty(s@.take(i as int), sep);
                }
                assert(t.last() == s@.subrange(start as int, i as int));
                assert(s@.subrange(start as int, i + 1 as int) =~= s@.subrange(
                    start as int,
                    i as int,
                ).push(s@[i as int]));
                assert(pieces@.map_values(|l: String| l@).push(s@.subrange(
                    start as int,
                    i + 1 as int,
                )) =~~= t.update(t.len() - 1, t.last().push(s@[i as int])));
            }
        }
        i += 1;
    }
    let last = String::from_str(s.substring_char(start, n));
    pieces.push(last);
    proof {
        assert(s@.take(n as int) =~= s@);
        assert(pieces@.map_values(|l: String| l@) =~~= spec_split_on(s@, sep));
    }
    pieces
}

/// The index of the first occurrence of the character, or the length of
/// the sequence where it does not occur.
pub open spec fn spec_first_index(s: Seq<char>, c: char) -> int
    decreases s.len(),
{
    if s.len() == 0 {
        0
    } else if s[0] == c {
        0
    } else {
        1 + spec_first_index(s.drop_first(), c)
    }
}

/// What characterises the first occurrence: everything before it differs
/// from the character, and it is the character itself where one occurs.
pub proof fn lemma_first_index_is(s: Seq<char>, c: char, i: int)
    requires
        0 <= i <= s.len(),
        forall|j: int| 0 <= j < i ==> s[j] != c,
        i < s.len() ==> s[i] == c,
    ensures
        spec_first_index(s, c) == i,
    decreases s.len(),
{
    if s.len() > 0 && s[0] != c {
        lemma_first_index_is(s.drop_first(), c, i - 1);
    }
}

/// Returns the index of the first occurrence of the character, or the
/// text's length where it does not occur.
pub fn find_char(s: &str, c: char) -> (r: usize)
    ensures
        r == spec_first_index(s@, c),
        r <= s@.len(),
{
    let n = s.unicode_len();
    let mut i: usize = 0;
    while i < n
        invariant
            n == s@.len(),
            0 <= i <= n,
            forall|j: int| 0 <= j < i ==> s@[j] != c,
        decreases n - i,
    {
        if s.get_char(i) == c {
            proof {
                lemma_first_index_is(s@, c, i as int);
            }
            return i;
        }
        i += 1;
    }
    proof {
        lemma_first_index_is(s@, c, n as int);
    }
    n
}

/// A line the loader passes over without reading an assignment from it:
/// a blank line or a comment line.
pub open spec fn spec_line_skipped(line: Seq<char>) -> bool {
    line.len() == 0 || line[0] == '#'
}

/// The assignment a single env-file line carries: the key is everything
/// before the first `=`, the value everything after it. A line without
/// `=` carries none.
pub open spec fn spec_parse_line(line: Seq<char>) -> Option<(Seq<char>, Seq<char>)> {
    let i = spec_first_index(line, '=');
    if i == line.len() {
        None
    } else {
        Some((line.take(i), line.subrange(i + 1, line.len() as int)))
    }
}

/// The assignments of a sequence of env-file lines, in file order.
/// Skipped lines contribute nothing; one malformed line spoils the whole
/// file.
pub open spec fn spec_parse_lines(lines: Seq<Seq<char>>) -> Option<Seq<(Seq<char>, Seq<char>)>>
    decreases lines.len(),
{
    if lines.len() == 0 {
        Some(Seq::empty())
    } else {
        match spec_parse_lines(lines.drop_last()) {
            None => None,
            Some(es) => {
                let line = lines.last();
                if spec_line_skipped(line) {
                    Some(es)
                } else {
                    match spec_parse_line(line) {
                        None => None,
                        Some(e) => Some(es.push(e)),
                    }
                }
            },
        }
    }
}

/// The assignments of a whole env-file: its text split into lines, each
/// line blank, a comment, or a key=value pair.
pub open spec fn spec_parse(content: Seq<char>) -> Option<Seq<(Seq<char>, Seq<char>)>> {
    spec_parse_lines(spec_split_on(content, '\n'))
}

/// Once some prefix of the lines is malformed, the whole file is.
proof fn lemma_parse_lines_none_persists(lines: Seq<Seq<char>>, k: int)
    requires
        0 <= k <= lines.len(),
        spec_parse_lines(lines.take(k)) is None,
    ensures
        spec_parse_lines(lines) is None,
    decreases lines.len() - k,
{
    if k < lines.len() {
        assert(lines.take(k + 1).drop_last() =~= lines.take(k));
        lemma_parse_lines_none_persists(lines, k + 1);
    } else {
        assert(lines.take(k) =~= lines);
    }
}

/// Reads the assignments of an env-file's text, in file order: one
/// key=value pair per line, blank lines and lines opening with `#`
/// passed over. Returns them exactly when every remaining line is a
/// key=value pair; a line without `=` makes the whole file malformed.
pub fn parse_env_file(content: &str) -> (r: Option<Vec<(String, String)>>)
    ensures
        match r {
            Some(es) => spec_parse(content@) == Some(
                es@.map_values(|e: (String, String)| (e.0@, e.1@)),
            ),
            None => spec_parse(content@) is None,
        },
{
    let lines = split_on(content, '\n');
    let ghost lv = lines@.map_values(|l: String| l@);
    let mut entries: Vec<(String, String)> = Vec::new();
    let mut j: usize = 0;
    while j < lines.len()
        invariant
            lv == lines@.map_values(|l: String| l@),
            lv == spec_split_on(content@, '\n'),
            0 <= j <= lines.len(),
            spec_parse_lines(lv.take(j as int)) == Some(
                entries@.map_values(|e: (String, String)| (e.0@, e.1@)),
            ),
        decreases lines.len() - j,
    {
        let line: &String = &lines[j];
        let ghost lj = lv[j as int];
        proof {
            assert(lv.take(j + 1 as int).drop_last() =~= lv.take(j as int));
            assert(lv.take(j + 1 as int).last() == lj);
        }
        let len = line.as_str().unicode_len();
        let skipped: bool = if len == 0 {
            true
        } else {
            line.as_str().get_char(0) == '#'
        };
        if !skipped {
            let i = find_char(line.as_str(), '=');
            if i == len {
                proof {
                    assert(spec_parse_line(lj) is None);
                    assert(spec_parse_lines(lv.take(j + 1 as int)) is None);
                    lemma_parse_lines_none_persists(lv, j + 1);
                }
                return None;
            }
            let key = String::from_str(line.as_str().substring_char(0, i));
            let value = String::from_str(line.as_str().substring_char(i + 1, len));
            entries.push((key, value));
            proof {
                assert(lj.take(i as int) =~= lj.subrange(0, i as int));
                assert(entries@.map_values(|e: (String, String)| (e.0@, e.1@))
                    =~~= spec_parse_lines(lv.take(j as int)).unwrap().push((key@, value@)));
            }
        }
        j += 1;
    }
    proof {
        assert(lv.take(lines@.len() as int) =~= lv);
    }
    Some(entries)
}

} // verus!
