//! The CORS allow-list: a comma-separated setting read into a list of
//! origins, and the test of an origin against that list.

use vstd::prelude::*;

verus! {

/// What `str::trim` makes of a text: the text without its leading and
/// trailing whitespace.
pub uninterp spec fn trimmed(s: Seq<char>) -> Seq<char>;

/// Relies on `str::trim`, which removes leading and trailing whitespace; its
/// result depends on the characters of `s` alone.
#[verifier::external_body]
fn trim(s: &str) -> (r: &str)
    ensures
        r@ == trimmed(s@),
{
    s.trim()
}

/// The fields of `s` between its commas, in order, as `str::split(',')`
/// yields them: one more field than `s` has commas, empty ones included.
pub open spec fn comma_fields(s: Seq<char>) -> Seq<Seq<char>>
    decreases s.len(),
{
    if s.len() == 0 {
        seq![Seq::empty()]
    } else {
        let rest = comma_fields(s.drop_first());
        if s[0] == ',' {
            seq![Seq::empty()] + rest
        } else {
            rest.update(0, seq![s[0]] + rest[0])
        }
    }
}

/// Each text trimmed.
pub open spec fn trimmed_all(texts: Seq<Seq<char>>) -> Seq<Seq<char>> {
    texts.map_values(|t: Seq<char>| trimmed(t))
}

/// The texts that are not empty, in order.
pub open spec fn non_empty(texts: Seq<Seq<char>>) -> Seq<Seq<char>>
    decreases texts.len(),
{
    if texts.len() == 0 {
        seq![]
    } else {
        let before = non_empty(texts.drop_last());
        if texts.last().len() == 0 {
            before
        } else {
            before.push(texts.last())
        }
    }
}

/// The origins that a comma-separated allow-list setting names.
pub open spec fn origin_list(setting: Seq<char>) -> Seq<Seq<char>> {
    non_empty(trimmed_all(comma_fields(setting)))
}

/// The texts of a list of strings.
pub open spec fn string_views(v: Seq<String>) -> Seq<Seq<char>> {
    v.map_values(|s: String| s@)
}

/// `fields` with `p` put in front of its first field.
pub open spec fn prepend_first(p: Seq<char>, fields: Seq<Seq<char>>) -> Seq<Seq<char>> {
    fields.update(0, p + fields[0])
}

proof fn lemma_comma_fields_nonempty(s: Seq<char>)
    ensures
        comma_fields(s).len() >= 1,
    decreases s.len(),
{
    if s.len() > 0 {
        lemma_comma_fields_nonempty(s.drop_first());
    }
}

/// Splits `s` at its commas: the fields between them, in order, empty
/// ones included.
pub fn split_commas(s: &str) -> (r: Vec<String>)
    ensures
        string_views(r@) == comma_fields(s@),
{
    let n = s.unicode_len();
    let ghost t = s@;
    let mut out: Vec<String> = Vec::new();
    let mut start: usize = 0;
    let mut i: usize = 0;
    assert(t.subrange(0, 0) =~= Seq::<char>::empty());
    assert(t.subrange(0, n as int) =~= t);
    proof {
        lemma_comma_fields_nonempty(t);
    }
    assert(prepend_first(Seq::empty(), comma_fields(t)) =~= comma_fields(t));
    assert(string_views(out@) =~= seq![]);
    while i < n
        invariant
            n == t.len(),
            t == s@,
            start <= i <= n,
            comma_fields(t) == string_views(out@) + prepend_first(
                t.subrange(start as int, i as int),
                comma_fields(t.subrange(i as int, n as int)),
            ),
        decreases n - i,
    {
        let c = s.get_char(i);
        let ghost field = t.subrange(start as int, i as int);
        let ghost tail = t.subrange(i as int + 1, n as int);
        let ghost done = string_views(out@);
        assert(t.subrange(i as int, n as int).drop_first() =~= tail);
        proof {
            lemma_comma_fields_nonempty(tail);
        }
        if c == ',' {
            let ghost before = out@;
            out.push(String::from_str(s.substring_char(start, i)));
            proof {
                let cf = comma_fields(tail);
                assert(string_views(out@) =~= string_views(before).push(field));
                assert(prepend_first(field, seq![Seq::empty()] + cf) =~= seq![field] + cf);
                assert(prepend_first(Seq::empty(), cf) =~= cf);
                assert(done + (seq![field] + cf) =~= done.push(field) + cf);
            }
            start = i + 1;
            assert(t.subrange(start as int, i as int + 1) =~= Seq::<char>::empty());
        } else {
            proof {
                let cf = comma_fields(tail);
                assert(t.subrange(start as int, i as int + 1) =~= field + seq![c]);
                assert((field + seq![c]) + cf[0] =~= field + (seq![c] + cf[0]));
                assert(prepend_first(field, cf.update(0, seq![c] + cf[0]))
                    =~= prepend_first(field + seq![c], cf));
            }
        }
        i = i + 1;
    }
    let ghost last = t.subrange(start as int, n as int);
    let ghost before = out@;
    out.push(String::from_str(s.substring_char(start, n)));
    proof {
        assert(t.subrange(n as int, n as int) =~= Seq::<char>::empty());
        assert(prepend_first(last, seq![Seq::empty()]) =~= seq![last]);
        assert(string_views(out@) =~= string_views(before) + seq![last]);
    }
    out
}

/// Each text of `texts`, trimmed.
fn trim_all(texts: &Vec<String>) -> (r: Vec<String>)
    ensures
        string_views(r@) == trimmed_all(string_views(texts@)),
{
    let mut out: Vec<String> = Vec::new();
    let mut i: usize = 0;
    while i < texts.len()
        invariant
            i <= texts@.len(),
            string_views(out@) == trimmed_all(string_views(texts@.subrange(0, i as int))),
        decreases texts@.len() - i,
    {
        let ghost before = out@;
        out.push(String::from_str(trim(texts[i].as_str())));
        assert(string_views(out@) =~= string_views(before).push(trimmed(texts@[i as int]@)));
        assert(trimmed_all(string_views(texts@.subrange(0, i as int + 1))) =~= trimmed_all(
            string_views(texts@.subrange(0, i as int)),
        ).push(trimmed(texts@[i as int]@)));
        i = i + 1;
    }
    assert(texts@.subrange(0, texts@.len() as int) =~= texts@);
    out
}

/// The texts of `texts` that are not empty, in order.
pub fn drop_empty(texts: Vec<String>) -> (r: Vec<String>)
    ensures
        string_views(r@) == non_empty(string_views(texts@)),
{
    let mut out: Vec<String> = Vec::new();
    let mut i: usize = 0;
    assert(string_views(texts@.subrange(0, 0)) =~= seq![]);
    assert(string_views(out@) =~= seq![]);
    while i < texts.len()
        invariant
            i <= texts@.len(),
            string_views(out@) == non_empty(string_views(texts@.subrange(0, i as int))),
        decreases texts@.len() - i,
    {
        let ghost before = out@;
        let ghost prefix = string_views(texts@.subrange(0, i as int + 1));
        assert(prefix.drop_last() =~= string_views(texts@.subrange(0, i as int)));
        assert(prefix.last() == texts@[i as int]@);
        if !texts[i].as_str().is_empty() {
            out.push(texts[i].clone());
            assert(string_views(out@) =~= string_views(before).push(texts@[i as int]@));
        }
        i = i + 1;
    }
    assert(texts@.subrange(0, texts@.len() as int) =~= texts@);
    out
}

/// Reads a comma-separated allow-list: the fields between its commas, each
/// with its surrounding whitespace removed, without the empty ones.
pub fn parse_origin_list(setting: &str) -> (r: Vec<String>)
    ensures
        string_views(r@) == origin_list(setting@),
{
    let fields = split_commas(setting);
    drop_empty(trim_all(&fields))
}

/// Whether `origin` is one of `allowed`, character for character.
pub fn origin_allowed(allowed: &Vec<String>, origin: &str) -> (r: bool)
    ensures
        r == string_views(allowed@).contains(origin@),
{
    let probe = String::from_str(origin);
    let mut i: usize = 0;
    while i < allowed.len()
        invariant
            probe@ == origin@,
            i <= allowed@.len(),
            forall|k: int| 0 <= k < i ==> allowed@[k]@ != origin@,
        decreases allowed@.len() - i,
    {
        if allowed[i] == probe {
            assert(string_views(allowed@)[i as int] == origin@);
            return true;
        }
        i = i + 1;
    }
    assert(!string_views(allowed@).contains(origin@));
    false
}

} // verus!
