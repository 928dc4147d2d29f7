//! Comma-separated fields: a model of splitting a line on `,` with no
//! quoting or escaping, the executable splitter proved against it, and
//! character-wise string equality.

use vstd::prelude::*;

verus! {

/// The fields of `s`, split on every comma.  A line always has one more
/// field than it has commas; an empty line has one empty field.
pub open spec fn split_comma(s: Seq<char>) -> Seq<Seq<char>>
    decreases s.len(),
{
    if s.len() == 0 {
        seq![Seq::<char>::empty()]
    } else if s[0] == ',' {
        seq![Seq::<char>::empty()] + split_comma(s.drop_first())
    } else {
        let r = split_comma(s.drop_first());
        seq![seq![s[0]] + r[0]] + r.drop_first()
    }
}

/// A split always yields at least one field.
pub proof fn lemma_split_comma_len(s: Seq<char>)
    ensures
        split_comma(s).len() >= 1,
    decreases s.len(),
{
    if s.len() != 0 {
        lemma_split_comma_len(s.drop_first());
    }
}

/// A line without commas is a single field: itself.
pub proof fn lemma_split_no_comma(s: Seq<char>)
    requires
        forall|j: int| 0 <= j < s.len() ==> s[j] != ',',
    ensures
        split_comma(s) == seq![s],
    decreases s.len(),
{
    if s.len() == 0 {
        assert(s =~= Seq::<char>::empty());
        assert(split_comma(s) =~= seq![s]);
    } else {
        assert(forall|j: int| 0 <= j < s.drop_first().len() ==> s.drop_first()[j] != ',');
        lemma_split_no_comma(s.drop_first());
        let r = split_comma(s.drop_first());
        assert(r[0] == s.drop_first());
        assert(seq![s[0]] + r[0] =~= s);
        assert(r.drop_first() =~= Seq::<Seq<char>>::empty());
        assert(split_comma(s) =~= seq![s]);
    }
}

/// Splitting at the first comma: the part before it is the first field,
/// and the rest of the line splits on its own.
pub proof fn lemma_split_at_first_comma(s: Seq<char>, i: int)
    requires
        0 <= i < s.len(),
        s[i] == ',',
        forall|j: int| 0 <= j < i ==> s[j] != ',',
    ensures
        split_comma(s) == seq![s.subrange(0, i)] + split_comma(
            s.subrange(i + 1, s.len() as int),
        ),
    decreases i,
{
    if i == 0 {
        assert(s.subrange(0, 0) =~= Seq::<char>::empty());
        assert(s.subrange(1, s.len() as int) =~= s.drop_first());
    } else {
        let t = s.drop_first();
        assert(t[i - 1] == ',');
        assert(forall|j: int| 0 <= j < i - 1 ==> t[j] != ',');
        lemma_split_at_first_comma(t, i - 1);
        let r = split_comma(t);
        lemma_split_comma_len(t.subrange(i as int, t.len() as int));
        assert(r == seq![t.subrange(0, i - 1)] + split_comma(t.subrange(i as int, t.len() as int)));
        assert(r[0] == t.subrange(0, i - 1));
        assert(seq![s[0]] + t.subrange(0, i - 1) =~= s.subrange(0, i));
        assert(r.drop_first() =~= split_comma(t.subrange(i as int, t.len() as int)));
        assert(t.subrange(i as int, t.len() as int) =~= s.subrange(i + 1, s.len() as int));
        assert(split_comma(s) =~= seq![s.subrange(0, i)] + split_comma(
            s.subrange(i + 1, s.len() as int),
        ));
    }
}

/// Split `line` on every comma.
pub fn split_commas(line: &str) -> (r: Vec<String>)
    ensures
        r@.map_values(|f: String| f@) == split_comma(line@),
        r@.len() >= 1,
{
    let n = line.unicode_len();
    let mut fields: Vec<String> = Vec::new();
    let mut start: usize = 0;
    let mut i: usize = 0;
    proof {
        assert(line@.subrange(0, n as int) =~= line@);
        assert(fields@.map_values(|f: String| f@) =~= Seq::<Seq<char>>::empty());
        assert(fields@.map_values(|f: String| f@) + split_comma(line@) =~= split_comma(line@));
    }
    while i < n
        invariant
            0 <= start <= i <= n,
            n == line@.len(),
            split_comma(line@) == fields@.map_values(|f: String| f@) + split_comma(
                line@.subrange(start as int, n as int),
            ),
            forall|j: int| start <= j < i ==> line@[j] != ',',
        decreases n - i,
    {
        let c = line.get_char(i);
        if c == ',' {
            let ghost sub = line@.subrange(start as int, n as int);
            let ghost k = i as int - start as int;
            proof {
                assert(sub[k] == ',');
                assert(forall|j: int| 0 <= j < k ==> sub[j] == line@[start + j] && sub[j] != ',');
                lemma_split_at_first_comma(sub, k);
                assert(sub.subrange(0, k) =~= line@.subrange(start as int, i as int));
                assert(sub.subrange(k + 1, sub.len() as int) =~= line@.subrange(
                    i as int + 1,
                    n as int,
                ));
            }
            let piece = line.substring_char(start, i).to_owned();
            let ghost old_fields = fields@;
            fields.push(piece);
            proof {
                assert(fields@.map_values(|f: String| f@) =~= old_fields.map_values(
                    |f: String| f@,
                ) + seq![line@.subrange(start as int, i as int)]);
            }
            start = i + 1;
        }
        i += 1;
    }
    let ghost sub = line@.subrange(start as int, n as int);
    proof {
        assert(forall|j: int| 0 <= j < sub.len() ==> sub[j] == line@[start + j] && sub[j] != ',');
        lemma_split_no_comma(sub);
    }
    let piece = line.substring_char(start, n).to_owned();
    let ghost old_fields = fields@;
    fields.push(piece);
    proof {
        assert(fields@.map_values(|f: String| f@) =~= old_fields.map_values(|f: String| f@)
            + seq![sub]);
        assert(fields@.map_values(|f: String| f@) =~= split_comma(line@));
    }
    fields
}

/// Character-wise equality of two strings.
pub fn str_eq(a: &str, b: &str) -> (r: bool)
    ensures
        r == (a@ == b@),
{
    let n = a.unicode_len();
    if n != b.unicode_len() {
        return false;
    }
    let mut i: usize = 0;
    while i < n
        invariant
            0 <= i <= n,
            n == a@.len(),
            n == b@.len(),
            forall|j: int| 0 <= j < i ==> a@[j] == b@[j],
        decreases n - i,
    {
        if a.get_char(i) != b.get_char(i) {
            return false;
        }
        i += 1;
    }
    proof {
        assert(a@ =~= b@);
    }
    true
}

} // verus!
