//! Text handling on character sequences: decimal numbers, comma separated
//! lists, trimming and joining.

use vstd::prelude::*;

verus! {

/// The characters of `s`, in order, in a vector.
pub fn chars_of(s: &str) -> (res: Vec<char>)
    ensures
        res@ == s@,
{
    broadcast use vstd::string::axiom_spec_iter;

    let mut out: Vec<char> = Vec::new();
    for c in it: s.chars()
        invariant
            it.seq() == s@,
            out@ == it.seq().take(it.index() as int),
    {
        out.push(c);
    }
    assert(out@ =~= s@);
    out
}

/// `String` collected from the characters of `v`, in order.
#[verifier::external_body]
pub fn string_of(v: &[char]) -> (res: String)
    ensures
        res@ == v@,
{
    v.iter().collect()
}

/// Whether two texts are equal, character by character.
pub fn same_text(a: &str, b: &str) -> (res: bool)
    ensures
        res == (a@ == b@),
{
    let x = chars_of(a);
    let y = chars_of(b);
    if x.len() != y.len() {
        return false;
    }
    let mut i: usize = 0;
    while i < x.len()
        invariant
            x@ == a@,
            y@ == b@,
            x@.len() == y@.len(),
            i <= x@.len(),
            forall|j: int| 0 <= j < i ==> x@[j] == y@[j],
        decreases x@.len() - i,
    {
        if x[i] != y[i] {
            return false;
        }
        i = i + 1;
    }
    assert(x@ =~= y@);
    true
}

/// The character of a decimal digit.
pub open spec fn digit_char(d: int) -> char {
    (d + 48) as char
}

/// The decimal notation of `n`, without sign or leading zeros.
pub open spec fn decimal(n: nat) -> Seq<char>
    decreases n,
{
    if n < 10 {
        seq![digit_char(n as int)]
    } else {
        decimal(n / 10).push(digit_char((n % 10) as int))
    }
}

fn digit(d: u64) -> (c: char)
    requires
        d < 10,
    ensures
        c == digit_char(d as int),
{
    let b: u8 = d as u8 + 48u8;
    b as char
}

fn push_decimal(n: u64, out: &mut Vec<char>)
    ensures
        final(out)@ == old(out)@ + decimal(n as nat),
    decreases n,
{
    if n < 10 {
        out.push(digit(n));
    } else {
        push_decimal(n / 10, out);
        out.push(digit(n % 10));
    }
}

/// The decimal notation of `n` (what `n.to_string()` gives).
pub fn decimal_string(n: u64) -> (res: String)
    ensures
        res@ == decimal(n as nat),
{
    let mut v: Vec<char> = Vec::new();
    push_decimal(n, &mut v);
    string_of(v.as_slice())
}


/// A decimal digit character.
pub open spec fn is_digit(c: char) -> bool {
    '0' <= c <= '9'
}

/// The value of a run of decimal digits (0 for the empty run).
pub open spec fn digits_value(s: Seq<char>) -> nat
    decreases s.len(),
{
    if s.len() == 0 {
        0
    } else {
        digits_value(s.drop_last()) * 10 + ((s.last() as int - 48) as nat)
    }
}

/// Every character of `s` is a decimal digit.
pub open spec fn all_digits(s: Seq<char>) -> bool {
    forall|i: int| 0 <= i < s.len() ==> is_digit(#[trigger] s[i])
}

/// `s` without one leading `+` sign.
pub open spec fn unsigned_digits(s: Seq<char>) -> Seq<char> {
    if s.len() > 0 && s[0] == '+' {
        s.drop_first()
    } else {
        s
    }
}

/// What `s.parse::<u32>()` gives: an optional `+` followed by at least one
/// decimal digit, with a value that fits in `u32`.
pub open spec fn parse_u32_spec(s: Seq<char>) -> Option<u32> {
    let d = unsigned_digits(s);
    if d.len() > 0 && all_digits(d) && digits_value(d) <= u32::MAX {
        Some(digits_value(d) as u32)
    } else {
        None
    }
}

proof fn lemma_digits_prefix_bound(s: Seq<char>, k: int)
    requires
        all_digits(s),
        0 <= k <= s.len(),
    ensures
        digits_value(s.take(k)) <= digits_value(s),
    decreases s.len() - k,
{
    if k < s.len() {
        lemma_digits_prefix_bound(s, k + 1);
        assert(s.take(k + 1).drop_last() =~= s.take(k));
        assert(is_digit(s[k]));
    } else {
        assert(s.take(k) =~= s);
    }
}

/// Parses a `u32` the way `str::parse::<u32>` does.
pub fn parse_u32(s: &str) -> (res: Option<u32>)
    ensures
        res == parse_u32_spec(s@),
{
    let c = chars_of(s);
    let n = c.len();
    let start: usize = if n > 0 && c[0] == '+' {
        1
    } else {
        0
    };
    let ghost d = unsigned_digits(s@);
    assert(d =~= c@.subrange(start as int, n as int));
    if start == n {
        return None;
    }
    let mut acc: u64 = 0;
    let mut i: usize = start;
    while i < n
        invariant
            c@ == s@,
            n == c@.len(),
            d == c@.subrange(start as int, n as int),
            d == unsigned_digits(s@),
            start < n,
            start <= i <= n,
            all_digits(c@.subrange(start as int, i as int)),
            acc == digits_value(c@.subrange(start as int, i as int)),
            acc <= u32::MAX,
        decreases n - i,
    {
        let ch = c[i];
        if !('0' <= ch && ch <= '9') {
            assert(d[i - start] == ch);
            assert(!is_digit(d[i - start]));
            return None;
        }
        let dv: u64 = (ch as u32 - 48u32) as u64;
        let next: u64 = acc * 10 + dv;
        assert(c@.subrange(start as int, i + 1).drop_last() =~= c@.subrange(
            start as int,
            i as int,
        ));
        assert(all_digits(c@.subrange(start as int, i + 1)));
        assert(digits_value(c@.subrange(start as int, i + 1)) == next);
        if next > 0xffff_ffffu64 {
            proof {
                if all_digits(d) {
                    assert(d.take(i + 1 - start) =~= c@.subrange(start as int, i + 1));
                    lemma_digits_prefix_bound(d, i + 1 - start);
                }
            }
            return None;
        }
        acc = next;
        i = i + 1;
    }
    Some(acc as u32)
}

proof fn lemma_decimal_digits(n: nat)
    ensures
        decimal(n).len() > 0,
        all_digits(decimal(n)),
        digits_value(decimal(n)) == n,
        decimal(n)[0] != '+',
    decreases n,
{
    if n < 10 {
        assert(decimal(n).drop_last() =~= Seq::<char>::empty());
        assert(digits_value(Seq::<char>::empty()) == 0);
        assert(digit_char(n as int) as int == n + 48);
        assert(digits_value(decimal(n)) == n);
    } else {
        lemma_decimal_digits(n / 10);
        assert(decimal(n).drop_last() =~= decimal(n / 10));
        assert(digit_char((n % 10) as int) as int == (n % 10) + 48);
        assert(decimal(n).last() == digit_char((n % 10) as int));
        assert(digits_value(decimal(n)) == n / 10 * 10 + n % 10);
        assert(decimal(n)[0] == decimal(n / 10)[0]);
    }
}

/// Reading back the decimal notation of a number gives the number:
/// `n.to_string().parse::<u32>() == Ok(n)`.
pub proof fn lemma_u32_round_trip(n: u32)
    ensures
        parse_u32_spec(decimal(n as nat)) == Some(n),
{
    lemma_decimal_digits(n as nat);
}

/// Unicode `White_Space`, the characters that `char::is_whitespace` accepts.
pub open spec fn is_white_space(c: char) -> bool {
    let u = c as u32;
    (0x9 <= u <= 0xd) || u == 0x20 || u == 0x85 || u == 0xa0 || u == 0x1680 || (0x2000 <= u
        <= 0x200a) || u == 0x2028 || u == 0x2029 || u == 0x202f || u == 0x205f || u == 0x3000
}

/// Tests `char::is_whitespace`.
pub fn is_white_space_char(c: char) -> (res: bool)
    ensures
        res == is_white_space(c),
{
    let u: u32 = c as u32;
    (0x9 <= u && u <= 0xd) || u == 0x20 || u == 0x85 || u == 0xa0 || u == 0x1680 || (0x2000 <= u
        && u <= 0x200a) || u == 0x2028 || u == 0x2029 || u == 0x202f || u == 0x205f || u == 0x3000
}

/// `s` without leading white space.
pub open spec fn trim_start(s: Seq<char>) -> Seq<char>
    decreases s.len(),
{
    if s.len() > 0 && is_white_space(s[0]) {
        trim_start(s.drop_first())
    } else {
        s
    }
}

/// `s` without trailing white space.
pub open spec fn trim_end(s: Seq<char>) -> Seq<char>
    decreases s.len(),
{
    if s.len() > 0 && is_white_space(s.last()) {
        trim_end(s.drop_last())
    } else {
        s
    }
}

/// What `str::trim` gives.
pub open spec fn trim(s: Seq<char>) -> Seq<char> {
    trim_end(trim_start(s))
}

/// The characters of `v` without leading and trailing white space.
pub fn trimmed(v: &[char]) -> (res: String)
    ensures
        res@ == trim(v@),
{
    let n = v.len();
    let mut lo: usize = 0;
    assert(v@.subrange(0, n as int) =~= v@);
    while lo < n && is_white_space_char(v[lo])
        invariant
            n == v@.len(),
            lo <= n,
            trim_start(v@) == trim_start(v@.subrange(lo as int, n as int)),
        decreases n - lo,
    {
        assert(v@.subrange(lo as int, n as int).drop_first() =~= v@.subrange(lo + 1, n as int));
        lo = lo + 1;
    }
    assert(trim_start(v@) == v@.subrange(lo as int, n as int));
    let mut hi: usize = n;
    while hi > lo && is_white_space_char(v[hi - 1])
        invariant
            n == v@.len(),
            lo <= hi <= n,
            trim(v@) == trim_end(v@.subrange(lo as int, hi as int)),
        decreases hi,
    {
        assert(v@.subrange(lo as int, hi as int).drop_last() =~= v@.subrange(lo as int, hi - 1));
        hi = hi - 1;
    }
    assert(trim(v@) == v@.subrange(lo as int, hi as int));
    string_of(&v[lo..hi])
}


/// A copy of a list of strings.
pub fn copy_strings(v: &Vec<String>) -> (res: Vec<String>)
    ensures
        res@ == v@,
{
    let mut res: Vec<String> = Vec::new();
    let mut i: usize = 0;
    while i < v.len()
        invariant
            i <= v@.len(),
            res@ == v@.take(i as int),
        decreases v@.len() - i,
    {
        res.push(v[i].clone());
        assert(res@ =~= v@.take(i + 1));
        i = i + 1;
    }
    assert(v@.take(v@.len() as int) =~= v@);
    res
}

/// The views of a sequence of strings.
pub open spec fn views(v: Seq<String>) -> Seq<Seq<char>> {
    v.map_values(|x: String| x@)
}

/// What `s.split(sep)` yields: the pieces between separators, in order;
/// always at least one piece.
pub open spec fn split_on(s: Seq<char>, sep: char) -> Seq<Seq<char>>
    decreases s.len(),
{
    if s.len() == 0 {
        seq![Seq::empty()]
    } else {
        let r = split_on(s.drop_last(), sep);
        if s.last() == sep {
            r.push(Seq::empty())
        } else {
            r.update(r.len() - 1, r.last().push(s.last()))
        }
    }
}

/// The trimmed pieces that are not empty, in order.
pub open spec fn kept_items(pieces: Seq<Seq<char>>) -> Seq<Seq<char>>
    decreases pieces.len(),
{
    if pieces.len() == 0 {
        seq![]
    } else {
        let rest = kept_items(pieces.drop_last());
        let t = trim(pieces.last());
        if t.len() > 0 {
            rest.push(t)
        } else {
            rest
        }
    }
}

/// The items of a comma separated list: each piece between commas, trimmed,
/// with the empty ones left out.
pub open spec fn list_items(s: Seq<char>) -> Seq<Seq<char>> {
    kept_items(split_on(s, ','))
}

/// Splits `text` at commas, trims each piece and keeps the pieces that are
/// not empty (how the profile editor reads its exclude and tag fields).
pub fn parse_list(text: &str) -> (res: Vec<String>)
    ensures
        views(res@) == list_items(text@),
{
    let c = chars_of(text);
    let n = c.len();
    let mut out: Vec<String> = Vec::new();
    let mut cur: Vec<char> = Vec::new();
    let ghost mut done: Seq<Seq<char>> = seq![];
    let mut i: usize = 0;
    assert(c@.take(0) =~= Seq::<char>::empty());
    while i < n
        invariant
            n == c@.len(),
            c@ == text@,
            i <= n,
            split_on(c@.take(i as int), ',') == done.push(cur@),
            views(out@) == kept_items(done),
        decreases n - i,
    {
        let ch = c[i];
        assert(c@.take(i + 1).drop_last() =~= c@.take(i as int));
        assert(c@.take(i + 1).last() == ch);
        if ch == ',' {
            let t = trimmed(cur.as_slice());
            proof {
                assert(done.push(cur@).drop_last() =~= done);
            }
            if t.unicode_len() > 0 {
                out.push(t);
                assert(views(out@) =~= kept_items(done.push(cur@)));
            }
            proof {
                done = done.push(cur@);
            }
            cur = Vec::new();
            assert(split_on(c@.take(i + 1), ',') =~= done.push(cur@));
        } else {
            cur.push(ch);
            assert(split_on(c@.take(i + 1), ',') =~= done.push(cur@));
        }
        i = i + 1;
    }
    let t = trimmed(cur.as_slice());
    proof {
        assert(done.push(cur@).drop_last() =~= done);
    }
    if t.unicode_len() > 0 {
        out.push(t);
        assert(views(out@) =~= kept_items(done.push(cur@)));
    }
    assert(c@.take(n as int) =~= c@);
    out
}

/// What `list.join(sep)` gives.
pub open spec fn join(list: Seq<Seq<char>>, sep: Seq<char>) -> Seq<char>
    decreases list.len(),
{
    if list.len() == 0 {
        seq![]
    } else if list.len() == 1 {
        list[0]
    } else {
        join(list.drop_last(), sep) + sep + list.last()
    }
}

/// Joins the strings of `list` with `sep` between them.
pub fn join_strings(list: &Vec<String>, sep: &str) -> (res: String)
    ensures
        res@ == join(views(list@), sep@),
{
    let mut res = String::new();
    let ghost items = views(list@);
    let n = list.len();
    let mut i: usize = 0;
    assert(items.take(0) =~= Seq::<Seq<char>>::empty());
    while i < n
        invariant
            n == list@.len(),
            items == views(list@),
            i <= n,
            res@ == join(items.take(i as int), sep@),
        decreases n - i,
    {
        assert(items.take(i + 1).drop_last() =~= items.take(i as int));
        if i != 0 {
            res.append(sep);
        }
        res.append(list[i].as_str());
        i = i + 1;
    }
    assert(items.take(n as int) =~= items);
    res
}

/// The separator that the profile editor puts between list items.
pub open spec fn list_separator() -> Seq<char> {
    seq![',', ' ']
}

/// An item that survives a round trip through the editor: not empty, no
/// white space at either end, and no comma.
pub open spec fn clean_item(x: Seq<char>) -> bool {
    &&& x.len() > 0
    &&& !is_white_space(x[0])
    &&& !is_white_space(x.last())
    &&& !x.contains(',')
}

proof fn lemma_split_no_sep(b: Seq<char>, sep: char)
    requires
        !b.contains(sep),
    ensures
        split_on(b, sep) == seq![b],
    decreases b.len(),
{
    if b.len() > 0 {
        let p = b.drop_last();
        assert(!p.contains(sep)) by {
            if p.contains(sep) {
                let k = choose|k: int| 0 <= k < p.len() && p[k] == sep;
                assert(b[k] == sep);
            }
        }
        lemma_split_no_sep(p, sep);
        assert(b[b.len() - 1] != sep);
        assert(p.push(b.last()) =~= b);
        assert(split_on(b, sep) =~= seq![b]);
    } else {
        assert(b =~= Seq::<char>::empty());
        assert(split_on(b, sep) =~= seq![b]);
    }
}

proof fn lemma_split_append(a: Seq<char>, b: Seq<char>, sep: char)
    requires
        !b.contains(sep),
    ensures
        split_on(a + seq![sep] + b, sep) == split_on(a, sep).push(b),
    decreases b.len(),
{
    if b.len() == 0 {
        assert(b =~= Seq::<char>::empty());
        assert(a + seq![sep] + b =~= a.push(sep));
        assert((a + seq![sep] + b).drop_last() =~= a);
        assert(split_on(a + seq![sep] + b, sep) =~= split_on(a, sep).push(b));
    } else {
        let p = b.drop_last();
        assert(!p.contains(sep)) by {
            if p.contains(sep) {
                let k = choose|k: int| 0 <= k < p.len() && p[k] == sep;
                assert(b[k] == sep);
            }
        }
        lemma_split_append(a, p, sep);
        assert((a + seq![sep] + b).drop_last() =~= a + seq![sep] + p);
        assert(b[b.len() - 1] != sep);
        assert(p.push(b.last()) =~= b);
        assert(split_on(a + seq![sep] + b, sep) =~= split_on(a, sep).push(b));
    }
}

/// The pieces that splitting a joined list at commas yields.
spec fn joined_pieces(items: Seq<Seq<char>>) -> Seq<Seq<char>> {
    Seq::new(items.len(), |k: int| if k == 0 { items[0] } else { seq![' '] + items[k] })
}

proof fn lemma_split_joined(items: Seq<Seq<char>>)
    requires
        items.len() > 0,
        forall|k: int| 0 <= k < items.len() ==> clean_item(#[trigger] items[k]),
    ensures
        split_on(join(items, list_separator()), ',') == joined_pieces(items),
    decreases items.len(),
{
    if items.len() == 1 {
        assert(clean_item(items[0]));
        lemma_split_no_sep(items[0], ',');
        assert(joined_pieces(items) =~= seq![items[0]]);
    } else {
        let front = items.drop_last();
        assert forall|k: int| 0 <= k < front.len() implies clean_item(#[trigger] front[k]) by {
            assert(front[k] == items[k]);
        }
        lemma_split_joined(front);
        let last = items.last();
        assert(clean_item(items[items.len() - 1]));
        let b = seq![' '] + last;
        assert(!b.contains(',')) by {
            if b.contains(',') {
                let k = choose|k: int| 0 <= k < b.len() && b[k] == ',';
                assert(last[k - 1] == ',');
            }
        }
        let a = join(front, list_separator());
        assert(a + list_separator() + last =~= a + seq![','] + b);
        lemma_split_append(a, b, ',');
        assert(joined_pieces(items) =~= joined_pieces(front).push(b));
    }
}

proof fn lemma_trim_clean(x: Seq<char>)
    requires
        clean_item(x),
    ensures
        trim(x) == x,
        trim(seq![' '] + x) == x,
{
    let y = seq![' '] + x;
    assert(is_white_space(y[0]));
    assert(y.drop_first() =~= x);
    assert(trim_start(y) == trim_start(x));
}

proof fn lemma_kept_joined(items: Seq<Seq<char>>)
    requires
        forall|k: int| 0 <= k < items.len() ==> clean_item(#[trigger] items[k]),
    ensures
        items.len() > 0 ==> kept_items(joined_pieces(items)) == items,
    decreases items.len(),
{
    if items.len() == 1 {
        assert(clean_item(items[0]));
        lemma_trim_clean(items[0]);
        assert(joined_pieces(items).drop_last() =~= Seq::<Seq<char>>::empty());
        assert(kept_items(Seq::<Seq<char>>::empty()) =~= Seq::<Seq<char>>::empty());
        assert(joined_pieces(items).last() == items[0]);
        assert(kept_items(joined_pieces(items)) =~= items);
    } else if items.len() > 1 {
        let front = items.drop_last();
        assert forall|k: int| 0 <= k < front.len() implies clean_item(#[trigger] front[k]) by {
            assert(front[k] == items[k]);
        }
        lemma_kept_joined(front);
        assert(clean_item(items[items.len() - 1]));
        lemma_trim_clean(items.last());
        assert(joined_pieces(items).drop_last() =~= joined_pieces(front));
        assert(kept_items(joined_pieces(items)) =~= items);
    }
}

/// Reading back a list that the editor wrote gives the same items: for
/// items that are not empty, have no white space at either end and hold no
/// comma, splitting `items.join(", ")` at commas and trimming gives `items`.
pub proof fn lemma_list_round_trip(items: Seq<Seq<char>>)
    requires
        forall|k: int| 0 <= k < items.len() ==> clean_item(#[trigger] items[k]),
    ensures
        list_items(join(items, list_separator())) == items,
{
    if items.len() == 0 {
        let e = Seq::<char>::empty();
        assert(join(items, list_separator()) == e);
        assert(split_on(e, ',') =~= seq![e]);
        assert(trim_start(e) == e);
        assert(trim_end(e) == e);
        assert(trim(e) =~= e);
        assert(seq![e].drop_last() =~= Seq::<Seq<char>>::empty());
        assert(kept_items(Seq::<Seq<char>>::empty()) =~= Seq::<Seq<char>>::empty());
        assert(kept_items(seq![e]) =~= Seq::<Seq<char>>::empty());
        assert(list_items(join(items, list_separator())) =~= items);
    } else {
        lemma_split_joined(items);
        lemma_kept_joined(items);
    }
}


/// Whether `a` comes before `b` in the order of `str`'s `Ord`: the first
/// differing character decides, and a proper prefix comes first.
pub open spec fn text_lt(a: Seq<char>, b: Seq<char>) -> bool
    decreases a.len(),
{
    if b.len() == 0 {
        false
    } else if a.len() == 0 {
        true
    } else if a[0] != b[0] {
        a[0] < b[0]
    } else {
        text_lt(a.drop_first(), b.drop_first())
    }
}

/// Whether `a` comes before `b` in the order of `str`'s `Ord`.
pub fn text_less(a: &str, b: &str) -> (res: bool)
    ensures
        res == text_lt(a@, b@),
{
    let x = chars_of(a);
    let y = chars_of(b);
    let mut i: usize = 0;
    assert(x@.skip(0) =~= x@);
    assert(y@.skip(0) =~= y@);
    while i < x.len() && i < y.len()
        invariant
            x@ == a@,
            y@ == b@,
            i <= x@.len(),
            i <= y@.len(),
            text_lt(a@, b@) == text_lt(x@.skip(i as int), y@.skip(i as int)),
        decreases x@.len() - i,
    {
        if x[i] != y[i] {
            return x[i] < y[i];
        }
        assert(x@.skip(i as int).drop_first() =~= x@.skip(i + 1));
        assert(y@.skip(i as int).drop_first() =~= y@.skip(i + 1));
        i = i + 1;
    }
    i < y.len()
}

/// `text_lt` is a strict order: never both ways.
pub proof fn lemma_text_lt_asymmetric(a: Seq<char>, b: Seq<char>)
    ensures
        !(text_lt(a, b) && text_lt(b, a)),
    decreases a.len(),
{
    if a.len() > 0 && b.len() > 0 && a[0] == b[0] {
        lemma_text_lt_asymmetric(a.drop_first(), b.drop_first());
    }
}

/// Not coming before is transitive: `text_lt` orders all texts totally.
pub proof fn lemma_text_le_transitive(a: Seq<char>, b: Seq<char>, c: Seq<char>)
    requires
        !text_lt(b, a),
        !text_lt(c, b),
    ensures
        !text_lt(c, a),
    decreases a.len(),
{
    if a.len() > 0 && b.len() > 0 && c.len() > 0 && a[0] == b[0] && b[0] == c[0] {
        lemma_text_le_transitive(a.drop_first(), b.drop_first(), c.drop_first());
    }
}

} // verus!
