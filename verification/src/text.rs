//! Text as sequences of characters: the operations on strings that the rest of
//! the library is stated over, each with its executable counterpart.

use vstd::prelude::*;

verus! {

/// The character sequences held by a sequence of strings.
pub open spec fn views(strings: Seq<String>) -> Seq<Seq<char>> {
    Seq::new(strings.len(), |i: int| strings[i]@)
}

/// The parts of `parts`, in order, with `sep` between each two neighbours.
pub open spec fn join(parts: Seq<Seq<char>>, sep: Seq<char>) -> Seq<char>
    decreases parts.len(),
{
    if parts.len() == 0 {
        Seq::empty()
    } else if parts.len() == 1 {
        parts[0]
    } else {
        join(parts.drop_last(), sep) + sep + parts.last()
    }
}

/// The character that writes the digit `d`.
pub open spec fn digit(d: int) -> char {
    if d == 0 {
        '0'
    } else if d == 1 {
        '1'
    } else if d == 2 {
        '2'
    } else if d == 3 {
        '3'
    } else if d == 4 {
        '4'
    } else if d == 5 {
        '5'
    } else if d == 6 {
        '6'
    } else if d == 7 {
        '7'
    } else if d == 8 {
        '8'
    } else {
        '9'
    }
}

/// `n` written in base ten, without leading zeros.
pub open spec fn decimal(n: nat) -> Seq<char>
    decreases n,
{
    if n < 10 {
        seq![digit(n as int)]
    } else {
        decimal(n / 10).push(digit((n % 10) as int))
    }
}

/// `n` written in base ten, with a minus sign in front when it is negative.
pub open spec fn signed_decimal(n: int) -> Seq<char> {
    if n < 0 {
        seq!['-'] + decimal((-n) as nat)
    } else {
        decimal(n as nat)
    }
}

/// Whether `text` begins with `prefix`.
pub open spec fn has_prefix(text: Seq<char>, prefix: Seq<char>) -> bool {
    prefix.len() <= text.len() && text.take(prefix.len() as int) == prefix
}

/// Whether `text` ends with `suffix`.
pub open spec fn has_suffix(text: Seq<char>, suffix: Seq<char>) -> bool {
    suffix.len() <= text.len() && text.skip(text.len() - suffix.len()) == suffix
}

/// Whether `needle` stands in `hay` at position `at`.
pub open spec fn occurs_at(hay: Seq<char>, needle: Seq<char>, at: int) -> bool {
    0 <= at && at + needle.len() <= hay.len() && hay.subrange(at, at + needle.len()) == needle
}

/// The first position at or after `from` where `needle` stands in `hay`.
pub open spec fn find_from(hay: Seq<char>, needle: Seq<char>, from: int) -> Option<int>
    decreases hay.len() - from + 1,
{
    if from < 0 || from + needle.len() > hay.len() {
        None
    } else if occurs_at(hay, needle, from) {
        Some(from)
    } else {
        find_from(hay, needle, from + 1)
    }
}

/// The lower-case form of a text, as `str::to_lowercase` gives it.
pub uninterp spec fn lowercase(text: Seq<char>) -> Seq<char>;

/// Whether `needle` stands somewhere in `hay`.
pub open spec fn contains(hay: Seq<char>, needle: Seq<char>) -> bool {
    find_from(hay, needle, 0) is Some
}

/// `text` without the run of `c` at its end.
pub open spec fn trim_end(text: Seq<char>, c: char) -> Seq<char>
    decreases text.len(),
{
    if text.len() > 0 && text.last() == c {
        trim_end(text.drop_last(), c)
    } else {
        text
    }
}

/// `text` without the run of `c` at its start.
pub open spec fn trim_start(text: Seq<char>, c: char) -> Seq<char>
    decreases text.len(),
{
    if text.len() > 0 && text[0] == c {
        trim_start(text.drop_first(), c)
    } else {
        text
    }
}

/// What is found is the first place at or after the start of the search
/// where the needle stands; where nothing is found, it stands nowhere from
/// there on.
pub proof fn find_from_stands(hay: Seq<char>, needle: Seq<char>, from: int)
    requires
        0 <= from,
    ensures
        match find_from(hay, needle, from) {
            Some(at) => from <= at && occurs_at(hay, needle, at) && forall|j: int|
                from <= j < at ==> !occurs_at(hay, needle, j),
            None => forall|j: int| from <= j ==> !occurs_at(hay, needle, j),
        },
    decreases hay.len() - from + 1,
{
    if from + needle.len() > hay.len() {
    } else if occurs_at(hay, needle, from) {
    } else {
        find_from_stands(hay, needle, from + 1);
    }
}

/// Whether `a` comes strictly before `b` in the order of a dictionary whose
/// alphabet is the code points.
pub open spec fn lex_lt(a: Seq<char>, b: Seq<char>) -> bool
    decreases a.len(),
{
    if b.len() == 0 {
        false
    } else if a.len() == 0 {
        true
    } else if a[0] == b[0] {
        lex_lt(a.drop_first(), b.drop_first())
    } else {
        a[0] < b[0]
    }
}

/// How one text stands to another in dictionary order.
#[derive(Clone, Copy, Debug, PartialEq, Eq, Structural)]
pub enum Rank {
    Before,
    Same,
    After,
}

/// No text comes before itself.
pub proof fn lex_lt_irreflexive(a: Seq<char>)
    ensures
        !lex_lt(a, a),
    decreases a.len(),
{
    if a.len() > 0 {
        lex_lt_irreflexive(a.drop_first());
    }
}

/// Dictionary order is transitive.
pub proof fn lex_lt_transitive(a: Seq<char>, b: Seq<char>, c: Seq<char>)
    requires
        lex_lt(a, b),
        lex_lt(b, c),
    ensures
        lex_lt(a, c),
    decreases a.len(),
{
    if a.len() > 0 && b.len() > 0 && c.len() > 0 && a[0] == b[0] && b[0] == c[0] {
        lex_lt_transitive(a.drop_first(), b.drop_first(), c.drop_first());
    }
}

/// Of two texts, one comes before the other or they are the same text.
pub proof fn lex_lt_total(a: Seq<char>, b: Seq<char>)
    ensures
        lex_lt(a, b) || a == b || lex_lt(b, a),
    decreases a.len(),
{
    if a.len() > 0 && b.len() > 0 && a[0] == b[0] {
        lex_lt_total(a.drop_first(), b.drop_first());
        if a.drop_first() == b.drop_first() {
            assert forall|i: int| 0 <= i < a.len() implies a[i] == b[i] by {
                if i > 0 {
                    assert(a[i] == a.drop_first()[i - 1]);
                    assert(b[i] == b.drop_first()[i - 1]);
                }
            }
            assert(a.len() == a.drop_first().len() + 1);
            assert(b.len() == b.drop_first().len() + 1);
            assert(a =~= b);
        }
    } else if a.len() == 0 && b.len() == 0 {
        assert(a =~= b);
    }
}

/// The characters of `s`, in order.
pub fn chars_of(s: &str) -> (v: Vec<char>)
    ensures
        v@ == s@,
{
    let mut v: Vec<char> = Vec::new();
    for c in it: s.chars()
        invariant
            v@ == it.seq().take(it.index() as int),
            it.seq() == s@,
    {
        v.push(c);
    }
    v
}

/// Joins the strings of `parts` with `sep` between each two neighbours.
pub fn join_strings(parts: &Vec<String>, sep: &str) -> (out: String)
    ensures
        out@ == join(views(parts@), sep@),
{
    let mut out = String::new();
    let mut i: usize = 0;
    while i < parts.len()
        invariant
            i <= parts.len(),
            out@ == join(views(parts@).take(i as int), sep@),
        decreases parts.len() - i,
    {
        proof {
            let all = views(parts@);
            assert(all.take(i as int + 1).drop_last() == all.take(i as int));
            assert(all.take(i as int + 1).last() == parts@[i as int]@);
        }
        if i > 0 {
            out.append(sep);
        }
        out.append(parts[i].as_str());
        i += 1;
    }
    proof {
        assert(views(parts@).take(i as int) == views(parts@));
    }
    out
}

fn digit_text(d: u64) -> (s: &'static str)
    requires
        d < 10,
    ensures
        s@ == seq![digit(d as int)],
{
    proof {
        reveal_strlit("0");
        reveal_strlit("1");
        reveal_strlit("2");
        reveal_strlit("3");
        reveal_strlit("4");
        reveal_strlit("5");
        reveal_strlit("6");
        reveal_strlit("7");
        reveal_strlit("8");
        reveal_strlit("9");
    }
    let s = if d == 0 {
        "0"
    } else if d == 1 {
        "1"
    } else if d == 2 {
        "2"
    } else if d == 3 {
        "3"
    } else if d == 4 {
        "4"
    } else if d == 5 {
        "5"
    } else if d == 6 {
        "6"
    } else if d == 7 {
        "7"
    } else if d == 8 {
        "8"
    } else {
        "9"
    };
    assert(s@ =~= seq![digit(d as int)]);
    s
}

/// Writes `n` in base ten at the end of `out`.
pub fn append_decimal(out: &mut String, n: u64)
    ensures
        final(out)@ == old(out)@ + decimal(n as nat),
    decreases n,
{
    if n >= 10 {
        append_decimal(out, n / 10);
    }
    out.append(digit_text(n % 10));
    assert(out@ =~= old(out)@ + decimal(n as nat));
}

/// `n` in base ten.
pub fn decimal_string(n: u64) -> (out: String)
    ensures
        out@ == decimal(n as nat),
{
    let mut out = String::new();
    append_decimal(&mut out, n);
    assert(out@ =~= decimal(n as nat));
    out
}

/// `n` in base ten, with a minus sign in front when it is negative.
pub fn signed_decimal_string(n: i64) -> (out: String)
    ensures
        out@ == signed_decimal(n as int),
{
    if n < 0 {
        let magnitude: u64 = (-(n + 1)) as u64 + 1;
        let mut out = String::from_str("-");
        proof {
            reveal_strlit("-");
            assert("-"@ =~= seq!['-']);
        }
        append_decimal(&mut out, magnitude);
        out
    } else {
        decimal_string(n as u64)
    }
}

/// Whether `text` begins with the character `c`.
pub fn starts_with_char(text: &str, c: char) -> (r: bool)
    ensures
        r == has_prefix(text@, seq![c]),
{
    let r = text.unicode_len() > 0 && text.get_char(0) == c;
    proof {
        if text@.len() > 0 {
            assert(text@.take(1) =~= seq![text@[0]]);
            assert(seq![c][0] == c);
        }
    }
    r
}

/// Whether `needle` stands in `hay` at position `at`.
pub fn matches_at(hay: &Vec<char>, needle: &Vec<char>, at: usize) -> (r: bool)
    requires
        at + needle.len() <= hay.len(),
    ensures
        r == occurs_at(hay@, needle@, at as int),
{
    let mut i: usize = 0;
    while i < needle.len()
        invariant
            i <= needle.len(),
            at + needle.len() <= hay.len(),
            forall|j: int| 0 <= j < i ==> hay@[at + j] == needle@[j],
        decreases needle.len() - i,
    {
        if hay[at + i] != needle[i] {
            proof {
                assert(hay@.subrange(at as int, at + needle.len())[i as int] == hay@[at + i]);
            }
            return false;
        }
        i += 1;
    }
    assert(hay@.subrange(at as int, at + needle.len()) =~= needle@);
    true
}

/// The first position at or after `from` where `needle` stands in `hay`.
pub fn find(hay: &Vec<char>, needle: &Vec<char>, from: usize) -> (r: Option<usize>)
    ensures
        match r {
            Some(at) => find_from(hay@, needle@, from as int) == Some(at as int),
            None => find_from(hay@, needle@, from as int) is None,
        },
{
    if needle.len() > hay.len() {
        return None;
    }
    let last: usize = hay.len() - needle.len();
    let mut at: usize = from;
    while at <= last
        invariant
            from <= at,
            last + needle.len() == hay.len(),
            find_from(hay@, needle@, from as int) == find_from(hay@, needle@, at as int),
        decreases last + 1 - at,
    {
        if matches_at(hay, needle, at) {
            return Some(at);
        }
        if at == last {
            assert(find_from(hay@, needle@, at + 1) is None);
            return None;
        }
        at += 1;
    }
    None
}

/// How `a` stands to `b` in dictionary order.
pub open spec fn rank_of(a: Seq<char>, b: Seq<char>) -> Rank {
    if lex_lt(a, b) {
        Rank::Before
    } else if a == b {
        Rank::Same
    } else {
        Rank::After
    }
}

/// How `a` stands to `b` in dictionary order.
pub fn rank(a: &Vec<char>, b: &Vec<char>) -> (r: Rank)
    ensures
        r == rank_of(a@, b@),
        r == Rank::Before ==> lex_lt(a@, b@),
        r == Rank::Same ==> a@ == b@,
        r == Rank::After ==> lex_lt(b@, a@),
{
    proof {
        lex_lt_irreflexive(a@);
        if lex_lt(a@, b@) && lex_lt(b@, a@) {
            lex_lt_transitive(a@, b@, a@);
        }
    }
    let mut i: usize = 0;
    proof {
        assert(a@.skip(0) == a@);
        assert(b@.skip(0) == b@);
    }
    while i < a.len() && i < b.len()
        invariant
            i <= a.len(),
            i <= b.len(),
            a@.take(i as int) == b@.take(i as int),
            lex_lt(a@, b@) == lex_lt(a@.skip(i as int), b@.skip(i as int)),
            lex_lt(b@, a@) == lex_lt(b@.skip(i as int), a@.skip(i as int)),
        decreases a.len() - i,
    {
        let x = a[i];
        let y = b[i];
        proof {
            assert(a@.skip(i as int)[0] == x);
            assert(b@.skip(i as int)[0] == y);
            assert(a@.skip(i as int).drop_first() == a@.skip(i as int + 1));
            assert(b@.skip(i as int).drop_first() == b@.skip(i as int + 1));
        }
        if x < y {
            return Rank::Before;
        }
        if y < x {
            return Rank::After;
        }
        proof {
            assert(x == y);
            assert(a@.take(i as int + 1) =~= a@.take(i as int).push(x));
            assert(b@.take(i as int + 1) =~= b@.take(i as int).push(y));
        }
        i += 1;
    }
    if i < b.len() {
        proof {
            assert(a@.skip(i as int).len() == 0);
        }
        Rank::Before
    } else if i < a.len() {
        proof {
            assert(b@.skip(i as int).len() == 0);
        }
        Rank::After
    } else {
        proof {
            assert(a@.take(i as int) == a@);
            assert(b@.take(i as int) == b@);
        }
        Rank::Same
    }
}

/// `text` without the run of `c` at its end.
pub fn trim_trailing(text: &str, c: char) -> (out: String)
    ensures
        out@ == trim_end(text@, c),
{
    let chars = chars_of(text);
    let mut end: usize = chars.len();
    proof {
        assert(text@.take(end as int) == text@);
    }
    while end > 0 && chars[end - 1] == c
        invariant
            end <= chars.len(),
            chars@ == text@,
            trim_end(text@, c) == trim_end(text@.take(end as int), c),
        decreases end,
    {
        proof {
            assert(text@.take(end as int).drop_last() == text@.take(end as int - 1));
        }
        end -= 1;
    }
    String::from_str(text.substring_char(0, end))
}

/// Whether the texts of `s` stand in strictly rising dictionary order.
pub open spec fn strictly_sorted(s: Seq<Seq<char>>) -> bool {
    forall|i: int, j: int| 0 <= i < j < s.len() ==> lex_lt(#[trigger] s[i], #[trigger] s[j])
}

/// `sorted` with `key` at its place in dictionary order, unless it is there
/// already.
pub open spec fn insert_sorted(sorted: Seq<Seq<char>>, key: Seq<char>) -> Seq<Seq<char>>
    decreases sorted.len(),
{
    if sorted.len() == 0 {
        seq![key]
    } else if sorted.last() == key {
        sorted
    } else if lex_lt(sorted.last(), key) {
        sorted.push(key)
    } else {
        insert_sorted(sorted.drop_last(), key).push(sorted.last())
    }
}

/// Inserting keeps what was there and adds the key, nothing else.
pub proof fn insert_sorted_members(sorted: Seq<Seq<char>>, key: Seq<char>, other: Seq<char>)
    ensures
        insert_sorted(sorted, key).contains(other) <==> (sorted.contains(other) || other == key),
    decreases sorted.len(),
{
    let out = insert_sorted(sorted, key);
    if sorted.len() == 0 {
        assert(out[0] == key);
    } else if sorted.last() == key {
        assert(sorted[sorted.len() - 1] == key);
    } else if lex_lt(sorted.last(), key) {
        assert(out[out.len() - 1] == key);
        assert(out.drop_last() == sorted);
        if sorted.contains(other) {
            let i = choose|i: int| 0 <= i < sorted.len() && sorted[i] == other;
            assert(out[i] == other);
        }
        if out.contains(other) {
            let i = choose|i: int| 0 <= i < out.len() && out[i] == other;
            if i < sorted.len() {
                assert(sorted[i] == other);
            }
        }
    } else {
        let head = insert_sorted(sorted.drop_last(), key);
        insert_sorted_members(sorted.drop_last(), key, other);
        assert(out[out.len() - 1] == sorted.last());
        assert(out.drop_last() == head);
        if out.contains(other) {
            let i = choose|i: int| 0 <= i < out.len() && out[i] == other;
            if i < head.len() {
                assert(head[i] == other);
                if sorted.drop_last().contains(other) {
                    let k = choose|k: int|
                        0 <= k < sorted.drop_last().len() && sorted.drop_last()[k] == other;
                    assert(sorted[k] == other);
                }
            } else {
                assert(sorted[sorted.len() - 1] == other);
            }
        }
        if sorted.contains(other) {
            let i = choose|i: int| 0 <= i < sorted.len() && sorted[i] == other;
            if i < sorted.len() - 1 {
                assert(sorted.drop_last()[i] == other);
                let k = choose|k: int| 0 <= k < head.len() && head[k] == other;
                assert(out[k] == other);
            }
        }
        if other == key {
            let k = choose|k: int| 0 <= k < head.len() && head[k] == other;
            assert(out[k] == other);
        }
    }
}

/// Inserting into a strictly sorted sequence leaves it strictly sorted.
pub proof fn insert_sorted_keeps_order(sorted: Seq<Seq<char>>, key: Seq<char>)
    requires
        strictly_sorted(sorted),
    ensures
        strictly_sorted(insert_sorted(sorted, key)),
    decreases sorted.len(),
{
    let out = insert_sorted(sorted, key);
    if sorted.len() == 0 {
    } else if sorted.last() == key {
    } else if lex_lt(sorted.last(), key) {
        assert forall|i: int, j: int| 0 <= i < j < out.len() implies lex_lt(
            #[trigger] out[i],
            #[trigger] out[j],
        ) by {
            if j == sorted.len() {
                if i < sorted.len() - 1 {
                    assert(lex_lt(sorted[i], sorted[sorted.len() - 1]));
                    lex_lt_transitive(sorted[i], sorted.last(), key);
                }
            } else {
                assert(lex_lt(sorted[i], sorted[j]));
            }
        }
    } else {
        let init = sorted.drop_last();
        let head = insert_sorted(init, key);
        assert(strictly_sorted(init)) by {
            assert forall|i: int, j: int| 0 <= i < j < init.len() implies lex_lt(
                #[trigger] init[i],
                #[trigger] init[j],
            ) by {
                assert(lex_lt(sorted[i], sorted[j]));
            }
        }
        insert_sorted_keeps_order(init, key);
        lex_lt_total(sorted.last(), key);
        assert forall|i: int, j: int| 0 <= i < j < out.len() implies lex_lt(
            #[trigger] out[i],
            #[trigger] out[j],
        ) by {
            if j == out.len() - 1 {
                assert(out[i] == head[i]);
                insert_sorted_members(init, key, head[i]);
                assert(head.contains(head[i]));
                if head[i] == key {
                } else {
                    let k = choose|k: int| 0 <= k < init.len() && init[k] == head[i];
                    assert(lex_lt(sorted[k], sorted[sorted.len() - 1]));
                }
            } else {
                assert(lex_lt(head[i], head[j]));
            }
        }
    }
}

/// Where every text of `sorted` from `at` on comes after `key`, inserting
/// `key` leaves those texts as they are and inserts into what stands before.
pub proof fn insert_sorted_before(sorted: Seq<Seq<char>>, key: Seq<char>, at: int)
    requires
        0 <= at <= sorted.len(),
        forall|j: int| at <= j < sorted.len() ==> lex_lt(key, #[trigger] sorted[j]),
    ensures
        insert_sorted(sorted, key) == insert_sorted(sorted.take(at), key) + sorted.skip(at),
    decreases sorted.len() - at,
{
    if at == sorted.len() {
        assert(sorted.take(at) == sorted);
        assert(insert_sorted(sorted, key) + sorted.skip(at) =~= insert_sorted(sorted, key));
    } else {
        let last = sorted.last();
        assert(lex_lt(key, sorted[sorted.len() - 1]));
        lex_lt_irreflexive(key);
        if lex_lt(last, key) {
            lex_lt_transitive(key, last, key);
        }
        let init = sorted.drop_last();
        insert_sorted_before(init, key, at);
        assert(init.take(at) == sorted.take(at));
        assert(init.skip(at).push(last) == sorted.skip(at));
        assert((insert_sorted(init.take(at), key) + init.skip(at)).push(last) =~= insert_sorted(
            sorted.take(at),
            key,
        ) + sorted.skip(at));
    }
}

/// Puts `key` at its place in dictionary order among `sorted`, unless it is
/// there already.
pub fn insert_text(sorted: &mut Vec<String>, key: String)
    ensures
        views(final(sorted)@) == insert_sorted(views(old(sorted)@), key@),
{
    let wanted = chars_of(key.as_str());
    let ghost before = views(sorted@);
    let mut at: usize = sorted.len();
    while at > 0
        invariant
            at <= sorted.len(),
            wanted@ == key@,
            before == views(sorted@),
            *sorted == *old(sorted),
            forall|j: int| at <= j < before.len() ==> lex_lt(key@, #[trigger] before[j]),
        decreases at,
    {
        let here = chars_of(sorted[at - 1].as_str());
        match rank(&here, &wanted) {
            Rank::After => {
                at -= 1;
            },
            Rank::Same => {
                proof {
                    insert_sorted_before(before, key@, at as int);
                    assert(before.take(at as int).last() == key@);
                    assert(before.take(at as int) + before.skip(at as int) == before);
                }
                return ;
            },
            Rank::Before => {
                proof {
                    insert_sorted_before(before, key@, at as int);
                    assert(before.take(at as int).last() == here@);
                    lex_lt_irreflexive(key@);
                }
                sorted.insert(at, key);
                proof {
                    assert(views(sorted@) =~= before.take(at as int).push(key@) + before.skip(
                        at as int,
                    ));
                }
                return ;
            },
        }
    }
    proof {
        insert_sorted_before(before, key@, 0);
        assert(before.take(0).len() == 0);
        assert(before.skip(0) == before);
    }
    sorted.insert(0, key);
    proof {
        assert(views(sorted@) =~= seq![key@] + before);
    }
}

/// Whether one of `texts` is `wanted`.
pub fn contains_text(texts: &Vec<String>, wanted: &String) -> (r: bool)
    ensures
        r == views(texts@).contains(wanted@),
{
    let mut i: usize = 0;
    while i < texts.len()
        invariant
            i <= texts.len(),
            forall|j: int| 0 <= j < i ==> views(texts@)[j] != wanted@,
        decreases texts.len() - i,
    {
        if texts[i] == *wanted {
            assert(views(texts@)[i as int] == wanted@);
            return true;
        }
        i += 1;
    }
    false
}

/// `text` without the run of `c` at its start.
pub fn trim_leading(text: &str, c: char) -> (out: String)
    ensures
        out@ == trim_start(text@, c),
{
    let chars = chars_of(text);
    let mut start: usize = 0;
    proof {
        assert(text@.skip(0) == text@);
    }
    while start < chars.len() && chars[start] == c
        invariant
            start <= chars.len(),
            chars@ == text@,
            trim_start(text@, c) == trim_start(text@.skip(start as int), c),
        decreases chars.len() - start,
    {
        proof {
            assert(text@.skip(start as int).drop_first() == text@.skip(start as int + 1));
        }
        start += 1;
    }
    proof {
        assert(text@.skip(start as int) == text@.subrange(start as int, text@.len() as int));
    }
    String::from_str(text.substring_char(start, chars.len()))
}

/// Whether `text` begins with `prefix`.
pub fn starts_with(text: &Vec<char>, prefix: &Vec<char>) -> (r: bool)
    ensures
        r == has_prefix(text@, prefix@),
{
    if prefix.len() > text.len() {
        return false;
    }
    let r = matches_at(text, prefix, 0);
    proof {
        assert(text@.take(prefix@.len() as int) == text@.subrange(0, prefix@.len() as int));
    }
    r
}

/// `str::to_lowercase`: the lower-case form of the text, which depends on
/// the text alone. What that form is, character by character, is not stated.
#[verifier::external_body]
pub(crate) fn to_lowercase(text: &str) -> (out: String)
    ensures
        out@ == lowercase(text@),
{
    text.to_lowercase()
}

/// Whether `needle` stands somewhere in the lower-case form of `text`.
pub fn lowercase_contains(text: &str, needle: &Vec<char>) -> (r: bool)
    ensures
        r == contains(lowercase(text@), needle@),
{
    let lower = to_lowercase(text);
    let hay = chars_of(lower.as_str());
    find(&hay, needle, 0).is_some()
}

/// `first` with `second` after it.
pub fn glue(first: &str, second: &str) -> (out: String)
    ensures
        out@ == first@ + second@,
{
    let mut out = String::from_str(first);
    out.append(second);
    out
}

/// `first`, `second` and `third`, one after the other.
pub fn glue3(first: &str, second: &str, third: &str) -> (out: String)
    ensures
        out@ == first@ + second@ + third@,
{
    let mut out = String::from_str(first);
    out.append(second);
    out.append(third);
    out
}

/// `text` without its last character; `text` itself where it is empty.
pub open spec fn without_last(text: Seq<char>) -> Seq<char> {
    if text.len() > 0 {
        text.drop_last()
    } else {
        text
    }
}

/// `text` with `c` before the character at `at`, or at the end where `at`
/// is beyond it.
pub open spec fn with_char_at(text: Seq<char>, at: int, c: char) -> Seq<char> {
    if 0 <= at < text.len() {
        text.insert(at, c)
    } else {
        text.push(c)
    }
}

/// `text` without the character at `at`; `text` itself where it has none
/// there.
pub open spec fn without_char_at(text: Seq<char>, at: int) -> Seq<char> {
    if 0 <= at < text.len() {
        text.remove(at)
    } else {
        text
    }
}

/// `String::push`: the character comes after what the string held.
#[verifier::external_body]
pub(crate) fn push_char(text: &mut String, c: char)
    ensures
        final(text)@ == old(text)@.push(c),
{
    text.push(c);
}

/// `text` without its last character.
pub fn remove_last(text: &str) -> (out: String)
    ensures
        out@ == without_last(text@),
{
    let len = text.unicode_len();
    if len > 0 {
        proof {
            assert(text@.drop_last() == text@.subrange(0, len as int - 1));
        }
        String::from_str(text.substring_char(0, len - 1))
    } else {
        String::from_str(text)
    }
}

/// `text` with `c` before the character at `at`.
pub fn insert_char(text: &str, at: usize, c: char) -> (out: String)
    ensures
        out@ == with_char_at(text@, at as int, c),
{
    let len = text.unicode_len();
    if at < len {
        let mut out = String::from_str(text.substring_char(0, at));
        push_char(&mut out, c);
        out.append(text.substring_char(at, len));
        proof {
            assert(out@ =~= text@.insert(at as int, c));
        }
        out
    } else {
        let mut out = String::from_str(text);
        push_char(&mut out, c);
        out
    }
}

/// `text` without the character at `at`.
pub fn remove_char(text: &str, at: usize) -> (out: String)
    ensures
        out@ == without_char_at(text@, at as int),
{
    let len = text.unicode_len();
    if at < len {
        let mut out = String::from_str(text.substring_char(0, at));
        out.append(text.substring_char(at + 1, len));
        proof {
            assert(out@ =~= text@.remove(at as int));
        }
        out
    } else {
        String::from_str(text)
    }
}

} // verus!
