//! Comparisons and searches on strings and byte strings.

use vstd::prelude::*;
use vstd::string::*;

verus! {

/// The views of the strings of a list, in order.
pub open spec fn views_of(list: Seq<String>) -> Seq<Seq<char>> {
    Seq::new(list.len(), |i: int| list[i]@)
}

/// Whether two string slices hold the same characters.
pub fn str_eq(a: &str, b: &str) -> (r: bool)
    ensures
        r == (a@ == b@),
{
    let x = a.as_bytes();
    let y = b.as_bytes();
    proof {
        vstd::utf8::encode_utf8_decode_utf8(a@);
        vstd::utf8::encode_utf8_decode_utf8(b@);
    }
    if x.len() != y.len() {
        return false;
    }
    let mut i: usize = 0;
    while i < x.len()
        invariant
            x@ == a.spec_bytes(),
            y@ == b.spec_bytes(),
            x@.len() == y@.len(),
            i <= x@.len(),
            forall|j: int| 0 <= j < i ==> x@[j] == y@[j],
        decreases x@.len() - i,
    {
        if x[i] != y[i] {
            return false;
        }
        i += 1;
    }
    assert(x@ =~= y@);
    true
}

/// Whether two byte strings hold the same bytes.
pub fn bytes_eq(a: &[u8], b: &[u8]) -> (r: bool)
    ensures
        r == (a@ == b@),
{
    if a.len() != b.len() {
        return false;
    }
    let mut i: usize = 0;
    while i < a.len()
        invariant
            a@.len() == b@.len(),
            i <= a@.len(),
            forall|j: int| 0 <= j < i ==> a@[j] == b@[j],
        decreases a@.len() - i,
    {
        if a[i] != b[i] {
            return false;
        }
        i += 1;
    }
    assert(a@ =~= b@);
    true
}

/// Whether `list` holds a string equal to `s`.
pub fn contains_str(list: &Vec<String>, s: &str) -> (r: bool)
    ensures
        r == views_of(list@).contains(s@),
{
    let mut i: usize = 0;
    while i < list.len()
        invariant
            i <= list@.len(),
            forall|j: int| 0 <= j < i ==> list@[j]@ != s@,
        decreases list@.len() - i,
    {
        if str_eq(list[i].as_str(), s) {
            assert(views_of(list@)[i as int] == s@);
            return true;
        }
        i += 1;
    }
    assert forall|j: int| 0 <= j < views_of(list@).len() implies views_of(list@)[j] != s@ by {
        assert(views_of(list@)[j] == list@[j]@);
    }
    false
}

/// A copy of a list of strings.
pub fn clone_strings(list: &Vec<String>) -> (out: Vec<String>)
    ensures
        views_of(out@) == views_of(list@),
{
    let mut out: Vec<String> = Vec::new();
    let mut i: usize = 0;
    while i < list.len()
        invariant
            i <= list@.len(),
            out@.len() == i,
            forall|j: int| 0 <= j < i ==> out@[j]@ == list@[j]@,
        decreases list@.len() - i,
    {
        out.push(list[i].clone());
        i += 1;
    }
    assert(views_of(out@) =~= views_of(list@));
    out
}

/// The view of an optional value.
pub open spec fn view_opt<T: View>(o: Option<T>) -> Option<T::V> {
    match o {
        Some(t) => Some(t@),
        None => None,
    }
}

/// The view of optional bytes.
pub open spec fn view_opt_bytes(o: Option<Vec<u8>>) -> Option<Seq<u8>> {
    match o {
        Some(b) => Some(b@),
        None => None,
    }
}

/// The fields of a text that commas divide: a text without a comma is one
/// field, and every comma ends one field and begins the next.
pub open spec fn split_at_commas(s: Seq<char>) -> Seq<Seq<char>>
    decreases s.len(),
{
    if s.len() == 0 {
        seq![Seq::<char>::empty()]
    } else {
        let head = split_at_commas(s.drop_last());
        if s.last() == ',' {
            head.push(Seq::<char>::empty())
        } else {
            head.drop_last().push(head.last().push(s.last()))
        }
    }
}

/// The fields that are not empty, in order.
pub open spec fn non_empty_fields(fields: Seq<Seq<char>>) -> Seq<Seq<char>> {
    fields.filter(|f: Seq<char>| f.len() > 0)
}

/// The entries of a comma-separated list, without the empty ones.
pub fn comma_list(s: &str) -> (out: Vec<String>)
    ensures
        views_of(out@) == non_empty_fields(split_at_commas(s@)),
{
    let n = s.unicode_len();
    let mut out: Vec<String> = Vec::new();
    let ghost mut done: Seq<Seq<char>> = Seq::empty();
    let ghost keep = |f: Seq<char>| f.len() > 0;
    let mut start: usize = 0;
    let mut i: usize = 0;
    proof {
        assert(s@.subrange(0, 0) =~= Seq::<char>::empty());
        assert(done.push(s@.subrange(0, 0)) =~= seq![Seq::<char>::empty()]);
        reveal(Seq::filter);
        assert(views_of(out@) =~= done.filter(keep));
    }
    while i < n
        invariant
            n == s@.len(),
            start <= i <= n,
            keep == |f: Seq<char>| f.len() > 0,
            split_at_commas(s@.subrange(0, i as int)) == done.push(
                s@.subrange(start as int, i as int),
            ),
            views_of(out@) == done.filter(keep),
        decreases n - i,
    {
        let c = s.get_char(i);
        let ghost prefix = s@.subrange(0, i as int + 1);
        let ghost cur = s@.subrange(start as int, i as int);
        proof {
            assert(prefix.drop_last() =~= s@.subrange(0, i as int));
            assert(prefix.last() == c);
            assert(done.push(cur).drop_last() =~= done);
        }
        if c == ',' {
            if start < i {
                let piece = s.substring_char(start, i);
                out.push(piece.to_owned());
            }
            proof {
                done.lemma_filter_push(cur, keep);
                assert(views_of(out@) =~= done.push(cur).filter(keep));
                done = done.push(cur);
                assert(s@.subrange(i as int + 1, i as int + 1) =~= Seq::<char>::empty());
            }
            start = i + 1;
        } else {
            proof {
                assert(cur.push(c) =~= s@.subrange(start as int, i as int + 1));
            }
        }
        i += 1;
    }
    let ghost cur = s@.subrange(start as int, n as int);
    if start < n {
        let piece = s.substring_char(start, n);
        out.push(piece.to_owned());
    }
    proof {
        done.lemma_filter_push(cur, keep);
        assert(views_of(out@) =~= done.push(cur).filter(keep));
        assert(s@.subrange(0, n as int) =~= s@);
    }
    out
}

/// The place of the first entry of `list` that equals `s`, or the length of
/// the list where there is none.
pub open spec fn first_index(list: Seq<Seq<char>>, s: Seq<char>) -> int
    decreases list.len(),
{
    if list.len() == 0 {
        0
    } else if list[0] == s {
        0
    } else {
        1 + first_index(list.drop_first(), s)
    }
}

/// A list with one more item holds what it held, and that item.
pub proof fn lemma_pushed_holds<A>(list: Seq<A>, item: A)
    ensures
        forall|x: A| #[trigger] list.push(item).contains(x) <==> list.contains(x) || x == item,
{
    let longer = list.push(item);
    assert forall|x: A| #[trigger] longer.contains(x) <==> list.contains(x) || x == item by {
        if longer.contains(x) {
            let j = choose|j: int| 0 <= j < longer.len() && longer[j] == x;
            if j < list.len() {
                assert(list[j] == x);
            }
        }
        if list.contains(x) {
            let j = choose|j: int| 0 <= j < list.len() && list[j] == x;
            assert(longer[j] == x);
        }
        if x == item {
            assert(longer[list.len() as int] == x);
        }
    }
}

/// What `first_index` finds is the first entry that equals `s`.
pub proof fn lemma_first_index(list: Seq<Seq<char>>, s: Seq<char>)
    ensures
        0 <= first_index(list, s) <= list.len(),
        first_index(list, s) < list.len() ==> list[first_index(list, s)] == s,
        forall|j: int| 0 <= j < first_index(list, s) ==> list[j] != s,
        first_index(list, s) < list.len() <==> list.contains(s),
    decreases list.len(),
{
    if list.len() > 0 && list[0] != s {
        let rest = list.drop_first();
        lemma_first_index(rest, s);
        assert forall|j: int| 0 <= j < first_index(list, s) implies list[j] != s by {
            if j > 0 {
                assert(rest[j - 1] == list[j]);
            }
        }
        if list.contains(s) {
            let k = choose|k: int| 0 <= k < list.len() && list[k] == s;
            assert(rest[k - 1] == s);
        }
        if first_index(rest, s) < rest.len() {
            assert(list[first_index(rest, s) + 1] == s);
        }
    } else if list.len() > 0 {
        assert(list[0] == s);
    }
}

/// The first entry that equals `s` stands at `i` where `i` holds `s` and
/// no earlier place does.
pub proof fn lemma_first_index_is(list: Seq<Seq<char>>, s: Seq<char>, i: int)
    requires
        0 <= i <= list.len(),
        i < list.len() ==> list[i] == s,
        forall|j: int| 0 <= j < i ==> list[j] != s,
    ensures
        first_index(list, s) == i,
{
    lemma_first_index(list, s);
    let f = first_index(list, s);
    if f < i {
        assert(list[f] == s);
    }
}

/// The place of the first entry of `list` that equals `s`.
pub fn find_str(list: &Vec<String>, s: &str) -> (r: Option<usize>)
    ensures
        match r {
            Some(i) => i < list@.len() && i == first_index(views_of(list@), s@),
            None => first_index(views_of(list@), s@) == list@.len(),
        },
{
    let mut i: usize = 0;
    while i < list.len()
        invariant
            i <= list@.len(),
            forall|j: int| 0 <= j < i ==> views_of(list@)[j] != s@,
        decreases list@.len() - i,
    {
        if str_eq(list[i].as_str(), s) {
            proof {
                assert(views_of(list@)[i as int] == s@);
                lemma_first_index_is(views_of(list@), s@, i as int);
            }
            return Some(i);
        }
        i += 1;
    }
    proof {
        lemma_first_index_is(views_of(list@), s@, list@.len() as int);
    }
    None
}

/// The characters of a string.
pub fn chars_of(s: &str) -> (out: Vec<char>)
    ensures
        out@ == s@,
{
    let n = s.unicode_len();
    let mut out: Vec<char> = Vec::new();
    let mut i: usize = 0;
    while i < n
        invariant
            n == s@.len(),
            i <= n,
            out@ == s@.subrange(0, i as int),
        decreases n - i,
    {
        out.push(s.get_char(i));
        assert(out@ =~= s@.subrange(0, i as int + 1));
        i += 1;
    }
    assert(s@.subrange(0, n as int) =~= s@);
    out
}

/// Whether `needle` occurs in `hay` as a run of characters.
pub open spec fn occurs_in(hay: Seq<char>, needle: Seq<char>) -> bool {
    exists|i: int|
        0 <= i && i + needle.len() <= hay.len() && #[trigger] hay.subrange(i, i + needle.len())
            == needle
}

/// Whether `needle` occurs in `hay` as a run of characters.
pub fn contains_substring(hay: &str, needle: &str) -> (r: bool)
    ensures
        r == occurs_in(hay@, needle@),
{
    let h = chars_of(hay);
    let n = chars_of(needle);
    if n.len() > h.len() {
        return false;
    }
    let total = h.len();
    let last = total - n.len();
    let mut i: usize = 0;
    loop
        invariant
            total == h@.len(),
            h@ == hay@,
            n@ == needle@,
            n@.len() <= h@.len(),
            last == h@.len() - n@.len(),
            i <= last,
            forall|j: int| 0 <= j < i ==> #[trigger] h@.subrange(j, j + n@.len()) != n@,
        decreases last - i,
    {
        let mut k: usize = 0;
        let mut same = true;
        while k < n.len() && same
            invariant
                total == h@.len(),
                i <= last,
                n@.len() <= h@.len(),
                last == h@.len() - n@.len(),
                k <= n@.len(),
                same ==> forall|m: int| 0 <= m < k ==> h@[i + m] == n@[m],
                !same ==> h@.subrange(i as int, i + n@.len()) != n@,
            decreases n@.len() - k + if same { 1int } else { 0int },
        {
            if h[i + k] != n[k] {
                same = false;
                assert(h@.subrange(i as int, i + n@.len())[k as int] == h@[i + k]);
            } else {
                k += 1;
            }
        }
        if same {
            assert(h@.subrange(i as int, i + n@.len()) =~= n@);
            return true;
        }
        if i == last {
            return false;
        }
        i += 1;
    }
}

/// The list without the entries that equal `s`.
pub open spec fn without(list: Seq<Seq<char>>, s: Seq<char>) -> Seq<Seq<char>> {
    list.filter(|m: Seq<char>| m != s)
}

/// A copy of the list without the entries that equal `s`.
pub fn without_str(list: &Vec<String>, s: &str) -> (out: Vec<String>)
    ensures
        views_of(out@) == without(views_of(list@), s@),
{
    let ghost keep = |m: Seq<char>| m != s@;
    let mut out: Vec<String> = Vec::new();
    let mut i: usize = 0;
    proof {
        reveal(Seq::filter);
        assert(views_of(list@).subrange(0, 0) =~= Seq::<Seq<char>>::empty());
        assert(views_of(out@) =~= views_of(list@).subrange(0, 0).filter(keep));
    }
    while i < list.len()
        invariant
            i <= list@.len(),
            keep == |m: Seq<char>| m != s@,
            views_of(out@) == views_of(list@).subrange(0, i as int).filter(keep),
        decreases list@.len() - i,
    {
        let ghost before = views_of(list@).subrange(0, i as int);
        proof {
            assert(views_of(list@).subrange(0, i as int + 1) =~= before.push(list@[i as int]@));
            before.lemma_filter_push(list@[i as int]@, keep);
        }
        if !str_eq(list[i].as_str(), s) {
            let ghost prev = views_of(out@);
            out.push(list[i].clone());
            assert(views_of(out@) =~= prev.push(list@[i as int]@));
        }
        i += 1;
    }
    assert(views_of(list@).subrange(0, list@.len() as int) =~= views_of(list@));
    out
}

/// The character of a digit of base sixteen or less.
pub open spec fn digit_char(d: int) -> char {
    if d == 0 {
        '0'
    } else if d == 1 {
        '1'
    } else if d == 2 {
        '2'
    } else if d == 3 {
        '3'
    } else if d == 4 {
        '4'
    } else if d == 5 {
        '5'
    } else if d == 6 {
        '6'
    } else if d == 7 {
        '7'
    } else if d == 8 {
        '8'
    } else if d == 9 {
        '9'
    } else if d == 10 {
        'a'
    } else if d == 11 {
        'b'
    } else if d == 12 {
        'c'
    } else if d == 13 {
        'd'
    } else if d == 14 {
        'e'
    } else {
        'f'
    }
}

/// A number in decimal, without leading zeros.
pub open spec fn decimal_of(n: nat) -> Seq<char>
    decreases n,
{
    if n < 10 {
        seq![digit_char(n as int)]
    } else {
        decimal_of(n / 10).push(digit_char((n % 10) as int))
    }
}

/// A number in lower-case hexadecimal, in exactly `width` digits; a number
/// that needs more loses its upper digits.
pub open spec fn hex_of(n: nat, width: nat) -> Seq<char>
    decreases width,
{
    if width == 0 {
        Seq::empty()
    } else {
        hex_of(n / 16, (width - 1) as nat).push(digit_char((n % 16) as int))
    }
}

/// The bytes in lower-case hexadecimal, two digits each.
pub open spec fn hex_of_bytes(bytes: Seq<u8>) -> Seq<char>
    decreases bytes.len(),
{
    if bytes.len() == 0 {
        Seq::empty()
    } else {
        hex_of_bytes(bytes.drop_last()) + hex_of(bytes.last() as nat, 2)
    }
}

/// The text of one digit.
pub fn digit_str(d: u64) -> (s: &'static str)
    requires
        d < 16,
    ensures
        s@ == seq![digit_char(d as int)],
{
    proof {
        reveal_strlit("0");
        reveal_strlit("1");
        reveal_strlit("2");
        reveal_strlit("3");
        reveal_strlit("4");
        reveal_strlit("5");
        reveal_strlit("6");
        reveal_strlit("7");
        reveal_strlit("8");
        reveal_strlit("9");
        reveal_strlit("a");
        reveal_strlit("b");
        reveal_strlit("c");
        reveal_strlit("d");
        reveal_strlit("e");
        reveal_strlit("f");
    }
    let s = match d {
        0 => "0",
        1 => "1",
        2 => "2",
        3 => "3",
        4 => "4",
        5 => "5",
        6 => "6",
        7 => "7",
        8 => "8",
        9 => "9",
        10 => "a",
        11 => "b",
        12 => "c",
        13 => "d",
        14 => "e",
        _ => "f",
    };
    assert(s@ =~= seq![digit_char(d as int)]);
    s
}

/// A number in decimal, without leading zeros.
pub fn decimal_string(n: u64) -> (s: String)
    ensures
        s@ == decimal_of(n as nat),
    decreases n,
{
    if n < 10 {
        digit_str(n).to_owned()
    } else {
        let mut s = decimal_string(n / 10);
        s.append(digit_str(n % 10));
        s
    }
}

/// A number in lower-case hexadecimal, in exactly `width` digits.
pub fn hex_string(n: u64, width: usize) -> (s: String)
    ensures
        s@ == hex_of(n as nat, width as nat),
    decreases width,
{
    if width == 0 {
        String::new()
    } else {
        let mut s = hex_string(n / 16, width - 1);
        s.append(digit_str(n % 16));
        s
    }
}

/// The bytes in lower-case hexadecimal, two digits each.
pub fn hex_bytes_string(bytes: &[u8]) -> (s: String)
    ensures
        s@ == hex_of_bytes(bytes@),
{
    let mut s = String::new();
    let mut i: usize = 0;
    assert(bytes@.subrange(0, 0) =~= Seq::<u8>::empty());
    while i < bytes.len()
        invariant
            i <= bytes@.len(),
            s@ == hex_of_bytes(bytes@.subrange(0, i as int)),
        decreases bytes@.len() - i,
    {
        let piece = hex_string(bytes[i] as u64, 2);
        proof {
            let next = bytes@.subrange(0, i as int + 1);
            assert(next.drop_last() =~= bytes@.subrange(0, i as int));
            assert(next.last() == bytes@[i as int]);
        }
        s.append(piece.as_str());
        i += 1;
    }
    assert(bytes@.subrange(0, bytes@.len() as int) =~= bytes@);
    s
}

} // verus!
