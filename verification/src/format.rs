use vstd::prelude::*;
use vstd::string::StringExecFns;

verus! {

/// The separator placed between the fields of an output line.
pub open spec fn separator() -> char {
    ','
}

/// The fields of a line, joined by the separator, with no leading or
/// trailing separator.
pub open spec fn spec_join(fields: Seq<Seq<char>>) -> Seq<char>
    decreases fields.len(),
{
    if fields.len() == 0 {
        Seq::empty()
    } else if fields.len() == 1 {
        fields[0]
    } else {
        spec_join(fields.drop_last()).push(separator()) + fields.last()
    }
}

/// How often a character occurs in a sequence.
pub open spec fn count_char(s: Seq<char>, c: char) -> nat
    decreases s.len(),
{
    if s.len() == 0 {
        0
    } else {
        count_char(s.drop_last(), c) + if s.last() == c {
            1nat
        } else {
            0nat
        }
    }
}

/// Occurrences in a concatenation are the occurrences in the parts.
pub proof fn lemma_count_char_concat(a: Seq<char>, b: Seq<char>, c: char)
    ensures
        count_char(a + b, c) == count_char(a, c) + count_char(b, c),
    decreases b.len(),
{
    if b.len() == 0 {
        assert(a + b =~= a);
    } else {
        assert((a + b).drop_last() =~= a + b.drop_last());
        lemma_count_char_concat(a, b.drop_last(), c);
    }
}

/// A joined line holds one separator fewer than it has fields, and no
/// other occurrence of any character that no field holds. This is what
/// makes the line's field count recoverable — and it is why values that
/// themselves contain the separator (or a line break) corrupt the output,
/// a known limitation of the format.
pub proof fn lemma_join_count(fields: Seq<Seq<char>>, c: char)
    requires
        fields.len() > 0,
        forall|i: int| 0 <= i < fields.len() ==> count_char(#[trigger] fields[i], c) == 0,
    ensures
        count_char(spec_join(fields), c) == if c == separator() {
            (fields.len() - 1) as nat
        } else {
            0nat
        },
    decreases fields.len(),
{
    if fields.len() == 1 {
        assert(count_char(fields[0], c) == 0);
    } else {
        let front = fields.drop_last();
        assert(forall|i: int|
            0 <= i < front.len() ==> count_char(#[trigger] front[i], c) == 0) by {
            assert(forall|i: int| 0 <= i < front.len() ==> front[i] == fields[i]);
        }
        lemma_join_count(front, c);
        lemma_count_char_concat(spec_join(front), seq![separator()], c);
        lemma_count_char_concat(spec_join(front) + seq![separator()], fields.last(), c);
        assert(spec_join(front).push(separator()) =~= spec_join(front) + seq![separator()]);
        assert(count_char(seq![separator()], c) == if c == separator() {
            1nat
        } else {
            0nat
        }) by {
            let s = seq![separator()];
            assert(s.len() == 1);
            assert(s.last() == separator());
            assert(s.drop_last() =~= Seq::<char>::empty());
            assert(count_char(Seq::<char>::empty(), c) == 0);
        }
    }
}

/// The header line and every row line of one result set split into the
/// same number of fields: as long as no column name and no value holds
/// the separator itself, each printed line holds exactly one separator
/// fewer than the result set has columns.
pub proof fn lemma_uniform_field_count(names: Seq<Seq<char>>, row: Seq<Seq<char>>)
    requires
        names.len() > 0,
        row.len() == names.len(),
        forall|i: int| 0 <= i < names.len() ==> count_char(#[trigger] names[i], separator()) == 0,
        forall|i: int| 0 <= i < row.len() ==> count_char(#[trigger] row[i], separator()) == 0,
    ensures
        count_char(spec_join(names), separator()) == names.len() - 1,
        count_char(spec_join(row), separator()) == count_char(spec_join(names), separator()),
{
    lemma_join_count(names, separator());
    lemma_join_count(row, separator());
}

/// The whole standard output of a successful run, one line per entry: the
/// joined column names first, then each row joined in cursor order.
pub open spec fn spec_output_lines(names: Seq<Seq<char>>, rows: Seq<Seq<Seq<char>>>) -> Seq<
    Seq<char>,
> {
    seq![spec_join(names)] + rows.map_values(|r: Seq<Seq<char>>| spec_join(r))
}

/// The output is a function of the result set alone: two runs that see
/// the same column names and the same rows in the same order print
/// byte-identical lines.
pub proof fn lemma_output_deterministic(
    names1: Seq<Seq<char>>,
    rows1: Seq<Seq<Seq<char>>>,
    names2: Seq<Seq<char>>,
    rows2: Seq<Seq<Seq<char>>>,
)
    requires
        names1 == names2,
        rows1 == rows2,
    ensures
        spec_output_lines(names1, rows1) == spec_output_lines(names2, rows2),
{
}

/// Every line of a result set's output splits into the same number of
/// fields: as long as no column name and no value holds the separator,
/// the header line and every row line hold exactly one separator fewer
/// than the result set has columns.
pub proof fn lemma_output_lines_field_count(names: Seq<Seq<char>>, rows: Seq<Seq<Seq<char>>>)
    requires
        names.len() > 0,
        forall|i: int| 0 <= i < names.len() ==> count_char(#[trigger] names[i], separator()) == 0,
        forall|r: int| 0 <= r < rows.len() ==> #[trigger] rows[r].len() == names.len(),
        forall|r: int, j: int|
            0 <= r < rows.len() && 0 <= j < rows[r].len() ==> count_char(
                #[trigger] rows[r][j],
                separator(),
            ) == 0,
    ensures
        forall|k: int|
            0 <= k < spec_output_lines(names, rows).len() ==> count_char(
                #[trigger] spec_output_lines(names, rows)[k],
                separator(),
            ) == names.len() - 1,
{
    let lines = spec_output_lines(names, rows);
    lemma_join_count(names, separator());
    assert(lines[0] == spec_join(names));
    assert forall|k: int| 0 <= k < lines.len() implies count_char(lines[k], separator())
        == names.len() - 1 by {
        if k > 0 {
            let row = rows[k - 1];
            assert(lines[k] == spec_join(row));
            lemma_join_count(row, separator());
        }
    }
}

/// Joins the fields of one output line with the separator, no trailing
/// separator.
pub fn join_fields(fields: &Vec<String>) -> (r: String)
    ensures
        r@ == spec_join(fields@.map_values(|f: String| f@)),
{
    let ghost m = fields@.map_values(|f: String| f@);
    let mut r = String::new();
    let mut i: usize = 0;
    while i < fields.len()
        invariant
            i <= fields.len(),
            m == fields@.map_values(|f: String| f@),
            r@ == spec_join(m.take(i as int)),
        decreases fields.len() - i,
    {
        if i > 0 {
            r.append(",");
            proof {
                reveal_strlit(",");
                assert(","@ =~= seq![separator()]);
            }
        }
        r.append(fields[i].as_str());
        proof {
            let t = m.take(i + 1 as int);
            assert(t.drop_last() =~= m.take(i as int));
            assert(t.last() == m[i as int]);
            if i > 0 {
                assert(r@ =~= spec_join(t.drop_last()).push(separator()) + t.last());
            } else {
                assert(t.len() == 1);
                assert(r@ =~= t[0]);
            }
        }
        i += 1;
    }
    proof {
        assert(m.take(fields@.len() as int) =~= m);
    }
    r
}

} // verus!
