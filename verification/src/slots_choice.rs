//! The General tab's slot-book choice: the example entry, then the book
//! files found next to the settings, with the book in use always listed, and
//! the entry that starts selected.

use vstd::prelude::*;

use crate::text::{chars_of, eq_ignore_ascii_case, lower_seq, to_ascii_lowercase, views_of};

verus! {

/// Strict lexicographic order of character sequences, by code point (the
/// order `String`'s comparison gives, UTF-8 keeping code-point order).
pub open spec fn seq_lt(a: Seq<char>, b: Seq<char>) -> bool
    decreases a.len(),
{
    if b.len() == 0 {
        false
    } else if a.len() == 0 {
        true
    } else if a[0] != b[0] {
        (a[0] as u32) < (b[0] as u32)
    } else {
        seq_lt(a.drop_first(), b.drop_first())
    }
}

/// Where `x` goes in `names`: before the first name whose lowercase form
/// sorts after `x`'s, else at the end.
pub open spec fn insert_pos(names: Seq<Seq<char>>, x: Seq<char>) -> int
    decreases names.len(),
{
    if names.len() == 0 {
        0
    } else if seq_lt(lower_seq(x), lower_seq(names[0])) {
        0
    } else {
        1 + insert_pos(names.drop_first(), x)
    }
}

/// The names sorted by their lowercase form, equal forms keeping their
/// order (a stable sort, built by insertion).
pub open spec fn sort_ci(names: Seq<Seq<char>>) -> Seq<Seq<char>>
    decreases names.len(),
{
    if names.len() == 0 {
        names
    } else {
        let rest = sort_ci(names.drop_last());
        rest.insert(insert_pos(rest, names.last()), names.last())
    }
}

pub open spec fn same_ci(a: Seq<char>, b: Seq<char>) -> bool {
    lower_seq(a) == lower_seq(b)
}

pub open spec fn listed_ci(names: Seq<Seq<char>>, x: Seq<char>) -> bool {
    exists|i: int| 0 <= i < names.len() && same_ci(#[trigger] names[i], x)
}

/// The entries after the example one: the books found, plus the current
/// book (then sorted) when it is named and not among them.
pub open spec fn book_entries(found: Seq<Seq<char>>, current: Seq<char>) -> Seq<Seq<char>> {
    if current.len() != 0 && !listed_ci(found, current) {
        sort_ci(found.push(current))
    } else {
        found
    }
}

/// The whole list: the example entry (empty name) first.
pub open spec fn slots_file_choices_spec(found: Seq<Seq<char>>, current: Seq<char>) -> Seq<Seq<char>> {
    seq![Seq::<char>::empty()] + book_entries(found, current)
}

/// `sel` is the first entry naming `current` (ignoring ASCII case), or the
/// example entry when none does.
pub open spec fn selects(choices: Seq<Seq<char>>, current: Seq<char>, sel: int) -> bool {
    &&& 0 <= sel < choices.len()
    &&& listed_ci(choices, current) ==> same_ci(choices[sel], current) && forall|j: int|
        0 <= j < sel ==> !same_ci(#[trigger] choices[j], current)
    &&& !listed_ci(choices, current) ==> sel == 0
}

/// Each name sorts no earlier than the one before it (by lowercase form).
pub open spec fn sorted_ci(names: Seq<Seq<char>>) -> bool {
    forall|i: int, j: int|
        0 <= i < j < names.len() ==> !seq_lt(lower_seq(#[trigger] names[j]), lower_seq(#[trigger] names[i]))
}

proof fn lemma_lt_irreflexive(a: Seq<char>)
    ensures
        !seq_lt(a, a),
    decreases a.len(),
{
    if a.len() > 0 {
        lemma_lt_irreflexive(a.drop_first());
    }
}

proof fn lemma_lt_transitive(a: Seq<char>, b: Seq<char>, c: Seq<char>)
    requires
        seq_lt(a, b),
        seq_lt(b, c),
    ensures
        seq_lt(a, c),
    decreases a.len(),
{
    if a.len() > 0 && b.len() > 0 && c.len() > 0 && a[0] == b[0] && b[0] == c[0] {
        lemma_lt_transitive(a.drop_first(), b.drop_first(), c.drop_first());
    }
}

proof fn lemma_lt_total(a: Seq<char>, b: Seq<char>)
    requires
        a != b,
    ensures
        seq_lt(a, b) || seq_lt(b, a),
    decreases a.len(),
{
    if a.len() > 0 && b.len() > 0 && a[0] == b[0] {
        if a.drop_first() == b.drop_first() {
            assert(a =~= seq![a[0]] + a.drop_first());
            assert(b =~= seq![b[0]] + b.drop_first());
        }
        lemma_lt_total(a.drop_first(), b.drop_first());
    } else if a.len() > 0 && b.len() > 0 {
        let ua = a[0] as u32;
        let ub = b[0] as u32;
        vstd::utf8::char_u32_cast(a[0], ua);
        vstd::utf8::char_u32_cast(b[0], ub);
        assert(ua != ub);
    } else if a.len() == 0 && b.len() == 0 {
        assert(a =~= b);
    }
}

/// `x < p` and `p <= k` give `x < k`.
proof fn lemma_lt_le(x: Seq<char>, p: Seq<char>, k: Seq<char>)
    requires
        seq_lt(x, p),
        !seq_lt(k, p),
    ensures
        seq_lt(x, k),
{
    if k != p {
        lemma_lt_total(p, k);
        lemma_lt_transitive(x, p, k);
    }
}

proof fn lemma_insert_pos(names: Seq<Seq<char>>, x: Seq<char>)
    ensures
        0 <= insert_pos(names, x) <= names.len(),
        forall|k: int|
            0 <= k < insert_pos(names, x) ==> !seq_lt(lower_seq(x), lower_seq(#[trigger] names[k])),
        insert_pos(names, x) < names.len() ==> seq_lt(
            lower_seq(x),
            lower_seq(names[insert_pos(names, x)]),
        ),
    decreases names.len(),
{
    if names.len() > 0 && !seq_lt(lower_seq(x), lower_seq(names[0])) {
        let rest = names.drop_first();
        lemma_insert_pos(rest, x);
        assert forall|k: int| 0 <= k < insert_pos(names, x) implies !seq_lt(
            lower_seq(x),
            lower_seq(#[trigger] names[k]),
        ) by {
            if k > 0 {
                assert(names[k] == rest[k - 1]);
            }
        }
        if insert_pos(names, x) < names.len() {
            assert(names[insert_pos(names, x)] == rest[insert_pos(rest, x)]);
        }
    }
}

proof fn lemma_insert_sorted(names: Seq<Seq<char>>, x: Seq<char>)
    requires
        sorted_ci(names),
    ensures
        sorted_ci(names.insert(insert_pos(names, x), x)),
{
    let p = insert_pos(names, x);
    lemma_insert_pos(names, x);
    let r = names.insert(p, x);
    assert forall|i: int, j: int| 0 <= i < j < r.len() implies !seq_lt(
        lower_seq(#[trigger] r[j]),
        lower_seq(#[trigger] r[i]),
    ) by {
        let i2 = if i < p { i } else { i - 1 };
        let j2 = if j < p { j } else { j - 1 };
        if i != p && j != p {
            assert(r[i] == names[i2] && r[j] == names[j2]);
            assert(i2 < j2);
        } else if j == p {
            assert(r[i] == names[i]);
        } else {
            assert(i == p);
            assert(r[j] == names[j2]);
            assert(p <= j2);
            if p < j2 {
                assert(!seq_lt(lower_seq(names[j2]), lower_seq(names[p])));
            } else {
                lemma_lt_irreflexive(lower_seq(names[p]));
            }
            lemma_lt_le(lower_seq(x), lower_seq(names[p]), lower_seq(names[j2]));
            if seq_lt(lower_seq(names[j2]), lower_seq(x)) {
                lemma_lt_transitive(lower_seq(x), lower_seq(names[j2]), lower_seq(x));
                lemma_lt_irreflexive(lower_seq(x));
            }
        }
    }
}

/// The choice list's sort gives the same names, in order of their lowercase
/// form.
pub proof fn lemma_sort_ci_sorted(names: Seq<Seq<char>>)
    ensures
        sorted_ci(sort_ci(names)),
        sort_ci(names).to_multiset() == names.to_multiset(),
        sort_ci(names).len() == names.len(),
    decreases names.len(),
{
    if names.len() > 0 {
        let init = names.drop_last();
        let rest = sort_ci(init);
        lemma_sort_ci_sorted(init);
        lemma_insert_sorted(rest, names.last());
        lemma_insert_pos(rest, names.last());
        vstd::seq_lib::to_multiset_insert(rest, insert_pos(rest, names.last()), names.last());
        vstd::seq_lib::to_multiset_build(init, names.last());
        assert(init.push(names.last()) =~= names);
    }
}

fn lt_chars(a: &Vec<char>, b: &Vec<char>) -> (r: bool)
    ensures
        r == seq_lt(a@, b@),
{
    let mut i: usize = 0;
    assert(a@.skip(0) =~= a@);
    assert(b@.skip(0) =~= b@);
    while i < a.len() && i < b.len()
        invariant
            0 <= i <= a.len(),
            i <= b.len(),
            seq_lt(a@, b@) == seq_lt(a@.skip(i as int), b@.skip(i as int)),
        decreases a.len() - i,
    {
        let ghost sa = a@.skip(i as int);
        let ghost sb = b@.skip(i as int);
        assert(sa[0] == a@[i as int] && sb[0] == b@[i as int]);
        if a[i] != b[i] {
            return (a[i] as u32) < (b[i] as u32);
        }
        assert(sa.drop_first() =~= a@.skip(i as int + 1));
        assert(sb.drop_first() =~= b@.skip(i as int + 1));
        i += 1;
    }
    i < b.len()
}

/// The lowercase characters of a name.
fn key_chars(s: &str) -> (r: Vec<char>)
    ensures
        r@ == lower_seq(s@),
{
    let l = to_ascii_lowercase(s);
    chars_of(l.as_str())
}

fn insert_position(list: &Vec<String>, x: &str) -> (r: usize)
    ensures
        r as int == insert_pos(views_of(list@), x@),
        r <= list.len(),
{
    let ghost v = views_of(list@);
    let kx = key_chars(x);
    let mut i: usize = 0;
    assert(v.skip(0) =~= v);
    while i < list.len()
        invariant
            0 <= i <= list.len(),
            v == views_of(list@),
            v.len() == list@.len(),
            kx@ == lower_seq(x@),
            insert_pos(v, x@) == i + insert_pos(v.skip(i as int), x@),
        decreases list.len() - i,
    {
        let ghost rest = v.skip(i as int);
        assert(rest[0] == list@[i as int]@);
        let ki = key_chars(list[i].as_str());
        if lt_chars(&kx, &ki) {
            return i;
        }
        assert(rest.drop_first() =~= v.skip(i as int + 1));
        i += 1;
    }
    i
}

/// `names` sorted as `sort_ci` says.
fn sort_names(names: &Vec<String>) -> (r: Vec<String>)
    ensures
        views_of(r@) == sort_ci(views_of(names@)),
{
    let ghost v = views_of(names@);
    let mut out: Vec<String> = Vec::new();
    let mut i: usize = 0;
    assert(v.take(0) =~= Seq::<Seq<char>>::empty());
    while i < names.len()
        invariant
            0 <= i <= names.len(),
            v == views_of(names@),
            views_of(out@) == sort_ci(v.take(i as int)),
        decreases names.len() - i,
    {
        let ghost prefix = v.take(i as int + 1);
        assert(prefix.drop_last() =~= v.take(i as int));
        assert(prefix.last() == names@[i as int]@);
        let p = insert_position(&out, names[i].as_str());
        let ghost before = out@;
        out.insert(p, names[i].clone());
        assert(views_of(out@) =~= views_of(before).insert(p as int, names@[i as int]@));
        i += 1;
    }
    assert(v.take(names.len() as int) =~= v);
    out
}

fn is_listed(names: &Vec<String>, x: &str) -> (r: bool)
    ensures
        r == listed_ci(views_of(names@), x@),
{
    let mut i: usize = 0;
    while i < names.len()
        invariant
            0 <= i <= names.len(),
            forall|k: int| 0 <= k < i ==> !same_ci(#[trigger] views_of(names@)[k], x@),
        decreases names.len() - i,
    {
        if eq_ignore_ascii_case(names[i].as_str(), x) {
            assert(same_ci(views_of(names@)[i as int], x@));
            return true;
        }
        i += 1;
    }
    false
}

/// The slot-book choices and the entry selected at first.
pub struct SlotsFileChoices {
    pub choices: Vec<String>,
    pub selected: usize,
}

/// Build the slot-book choice list from the book files `found` and the
/// (normalized) book in use, `current`.
#[verifier::loop_isolation(false)]
pub fn slots_file_choices(found: Vec<String>, current: &str) -> (r: SlotsFileChoices)
    ensures
        views_of(r.choices@) == slots_file_choices_spec(views_of(found@), current@),
        selects(views_of(r.choices@), current@, r.selected as int),
{
    let ghost found0 = views_of(found@);
    let add = !current.is_empty() && !is_listed(&found, current);
    let mut books: Vec<String> = if add {
        let mut all = found;
        all.push(crate::text::string_of(current));
        assert(views_of(all@) =~= found0.push(current@));
        sort_names(&all)
    } else {
        found
    };
    assert(views_of(books@) == book_entries(found0, current@));
    let mut choices: Vec<String> = Vec::new();
    choices.push(String::new());
    choices.append(&mut books);
    assert(views_of(choices@) =~= slots_file_choices_spec(found0, current@));
    let mut i: usize = 0;
    while i < choices.len()
        invariant
            0 <= i <= choices.len(),
            views_of(choices@) == slots_file_choices_spec(found0, current@),
            choices.len() >= 1,
            forall|k: int| 0 <= k < i ==> !same_ci(#[trigger] views_of(choices@)[k], current@),
        decreases choices.len() - i,
    {
        assert(views_of(choices@)[i as int] == choices@[i as int]@);
        if eq_ignore_ascii_case(choices[i].as_str(), current) {
            return SlotsFileChoices { choices, selected: i };
        }
        i += 1;
    }
    SlotsFileChoices { choices, selected: 0 }
}

} // verus!
