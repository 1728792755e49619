//! The order in which the settings screen lists the signed-in accounts:
//! by e-mail address, as Rust orders strings (byte by byte), and which
//! position the selected account takes in that list.
use vstd::prelude::*;
use vstd::utf8::*;

verus! {

/// `a <= b` in the lexicographic order of byte sequences, which is how
/// `Ord for str` compares strings.
pub open spec fn bytes_le(a: Seq<u8>, b: Seq<u8>) -> bool
    decreases a.len(),
{
    if a.len() == 0 {
        true
    } else if b.len() == 0 {
        false
    } else if a[0] != b[0] {
        a[0] < b[0]
    } else {
        bytes_le(a.drop_first(), b.drop_first())
    }
}

/// `a <= b` for texts, compared by their UTF-8 bytes.
pub open spec fn text_le(a: Seq<char>, b: Seq<char>) -> bool {
    bytes_le(encode_utf8(a), encode_utf8(b))
}

/// Any two byte sequences are ordered one way or the other.
pub proof fn lemma_bytes_le_total(a: Seq<u8>, b: Seq<u8>)
    ensures
        bytes_le(a, b) || bytes_le(b, a),
    decreases a.len(),
{
    if a.len() > 0 && b.len() > 0 && a[0] == b[0] {
        lemma_bytes_le_total(a.drop_first(), b.drop_first());
    }
}

/// Byte sequences are ordered by their first difference, whatever their
/// lengths: when `a` and `b` agree on the first `k` bytes and `a[k] < b[k]`,
/// `a` comes strictly before `b`.
pub proof fn lemma_bytes_le_first_difference(a: Seq<u8>, b: Seq<u8>, k: int)
    requires
        0 <= k < a.len(),
        k < b.len(),
        a.subrange(0, k) == b.subrange(0, k),
        a[k] < b[k],
    ensures
        bytes_le(a, b),
        !bytes_le(b, a),
    decreases k,
{
    if k > 0 {
        assert(a[0] == a.subrange(0, k)[0]);
        assert(b[0] == b.subrange(0, k)[0]);
        assert(a.drop_first().subrange(0, k - 1) =~= a.subrange(0, k).drop_first());
        assert(b.drop_first().subrange(0, k - 1) =~= b.subrange(0, k).drop_first());
        lemma_bytes_le_first_difference(a.drop_first(), b.drop_first(), k - 1);
    }
}

/// Every byte sequence comes no later than any of its extensions.
pub proof fn lemma_bytes_le_prefix(a: Seq<u8>, x: Seq<u8>)
    ensures
        bytes_le(a, a + x),
    decreases a.len(),
{
    if a.len() > 0 {
        assert((a + x)[0] == a[0]);
        assert((a + x).drop_first() =~= a.drop_first() + x);
        lemma_bytes_le_prefix(a.drop_first(), x);
    }
}

/// A byte sequence comes strictly before its proper extensions.
pub proof fn lemma_bytes_lt_proper_prefix(a: Seq<u8>, x: Seq<u8>)
    requires
        x.len() > 0,
    ensures
        !bytes_le(a + x, a),
    decreases a.len(),
{
    if a.len() > 0 {
        assert((a + x)[0] == a[0]);
        assert((a + x).drop_first() =~= a.drop_first() + x);
        lemma_bytes_lt_proper_prefix(a.drop_first(), x);
    }
}

/// The order of byte sequences is antisymmetric.
pub proof fn lemma_bytes_le_antisymmetric(a: Seq<u8>, b: Seq<u8>)
    requires
        bytes_le(a, b),
        bytes_le(b, a),
    ensures
        a == b,
    decreases a.len(),
{
    if a.len() == 0 {
        assert(b.len() == 0);
        assert(a =~= b);
    } else {
        lemma_bytes_le_antisymmetric(a.drop_first(), b.drop_first());
        assert(a =~= seq![a[0]] + a.drop_first());
        assert(b =~= seq![b[0]] + b.drop_first());
    }
}

/// The order of byte sequences is transitive.
pub proof fn lemma_bytes_le_transitive(a: Seq<u8>, b: Seq<u8>, c: Seq<u8>)
    requires
        bytes_le(a, b),
        bytes_le(b, c),
    ensures
        bytes_le(a, c),
    decreases a.len(),
{
    if a.len() > 0 && b.len() > 0 && c.len() > 0 && a[0] == b[0] && b[0] == c[0] {
        lemma_bytes_le_transitive(a.drop_first(), b.drop_first(), c.drop_first());
    }
}

/// In a sorted order every earlier account has an address no later than
/// every later one, and accounts with equal addresses keep their original
/// order, not just neighbours.
pub proof fn lemma_sorted_order_is_global(keys: Seq<Seq<char>>, order: Seq<usize>, i: int, j: int)
    requires
        is_sorted_order(keys, order),
        0 <= i < j < order.len(),
    ensures
        text_le(keys[order[i] as int], keys[order[j] as int]),
        text_le(keys[order[j] as int], keys[order[i] as int]) ==> order[i] < order[j],
    decreases j - i,
{
    let ki = encode_utf8(keys[order[i] as int]);
    let kj = encode_utf8(keys[order[j] as int]);
    let k1 = encode_utf8(keys[order[i + 1] as int]);
    assert(text_le(keys[order[i] as int], keys[order[i + 1] as int]));
    if j > i + 1 {
        lemma_sorted_order_is_global(keys, order, i + 1, j);
        lemma_bytes_le_transitive(ki, k1, kj);
        if bytes_le(kj, ki) {
            lemma_bytes_le_transitive(k1, kj, ki);
            lemma_bytes_le_antisymmetric(ki, k1);
            lemma_bytes_le_antisymmetric(kj, k1);
            assert(text_le(keys[order[i + 1] as int], keys[order[i] as int]));
        }
    }
}

/// The e-mail addresses of the accounts as texts.
pub open spec fn email_texts(emails: Seq<String>) -> Seq<Seq<char>> {
    emails.map_values(|s: String| s@)
}

/// `order` lists every position of `keys` once, in non-decreasing order of
/// the keys, and equal keys keep their original order (as the stable
/// `sort_by_key` leaves them).
pub open spec fn is_sorted_order(keys: Seq<Seq<char>>, order: Seq<usize>) -> bool {
    &&& order.len() == keys.len()
    &&& forall|i: int| 0 <= i < order.len() ==> (#[trigger] order[i]) < keys.len()
    &&& forall|i: int, j: int| 0 <= i < j < order.len() ==> (#[trigger] order[i]) != (#[trigger] order[j])
    &&& forall|i: int|
        #![trigger order[i], order[i + 1]]
        0 <= i < order.len() - 1 ==> {
            &&& text_le(keys[order[i] as int], keys[order[i + 1] as int])
            &&& (text_le(keys[order[i + 1] as int], keys[order[i] as int]) ==> order[i] < order[i + 1])
        }
}

fn bytes_le_exec(a: &[u8], b: &[u8]) -> (r: bool)
    ensures
        r == bytes_le(a@, b@),
{
    let mut i: usize = 0;
    assert(a@.skip(0) =~= a@);
    assert(b@.skip(0) =~= b@);
    while i < a.len() && i < b.len()
        invariant
            i <= a@.len(),
            i <= b@.len(),
            bytes_le(a@, b@) == bytes_le(a@.skip(i as int), b@.skip(i as int)),
        decreases a@.len() - i,
    {
        if a[i] != b[i] {
            return a[i] < b[i];
        }
        assert(a@.skip(i as int).drop_first() =~= a@.skip(i + 1));
        assert(b@.skip(i as int).drop_first() =~= b@.skip(i + 1));
        i = i + 1;
    }
    i == a.len()
}

fn text_le_exec(a: &String, b: &String) -> (r: bool)
    ensures
        r == text_le(a@, b@),
{
    bytes_le_exec(a.as_str().as_bytes(), b.as_str().as_bytes())
}

/// The positions of `emails` in the order the screen lists them: sorted by
/// address, equal addresses in their original order.
pub fn account_order(emails: &Vec<String>) -> (order: Vec<usize>)
    ensures
        is_sorted_order(email_texts(emails@), order@),
{
    let ghost keys = email_texts(emails@);
    let n = emails.len();
    let mut order: Vec<usize> = Vec::new();
    for m in 0..n
        invariant
            n == emails@.len(),
            keys == email_texts(emails@),
            order@.len() == m,
            forall|i: int| 0 <= i < order@.len() ==> (#[trigger] order@[i]) < m,
            forall|i: int, j: int|
                0 <= i < j < order@.len() ==> (#[trigger] order@[i]) != (#[trigger] order@[j]),
            forall|i: int|
                #![trigger order@[i], order@[i + 1]]
                0 <= i < order@.len() - 1 ==> {
                    &&& text_le(keys[order@[i] as int], keys[order@[i + 1] as int])
                    &&& (text_le(keys[order@[i + 1] as int], keys[order@[i] as int]) ==> order@[i]
                        < order@[i + 1])
                },
    {
        let mut j: usize = order.len();
        loop
            invariant
                n == emails@.len(),
                keys == email_texts(emails@),
                m < n,
                order@.len() == m,
                forall|i: int| 0 <= i < order@.len() ==> (#[trigger] order@[i]) < m,
                j <= order@.len(),
                j < order@.len() ==> !text_le(keys[order@[j as int] as int], keys[m as int]),
            ensures
                j <= order@.len(),
                j < order@.len() ==> !text_le(keys[order@[j as int] as int], keys[m as int]),
                j > 0 ==> text_le(keys[order@[j - 1] as int], keys[m as int]),
            decreases j,
        {
            if j == 0 {
                break;
            }
            let k = order[j - 1];
            assert(keys[k as int] == emails@[k as int]@);
            assert(keys[m as int] == emails@[m as int]@);
            if text_le_exec(&emails[k], &emails[m]) {
                break;
            }
            j = j - 1;
        }
        let ghost before = order@;
        order.insert(j, m);
        proof {
            assert(order@ =~= before.insert(j as int, m));
            if j < before.len() {
                lemma_bytes_le_total(
                    encode_utf8(keys[before[j as int] as int]),
                    encode_utf8(keys[m as int]),
                );
            }
            assert forall|i: int|
                #![trigger order@[i], order@[i + 1]]
                0 <= i < order@.len() - 1 implies {
                &&& text_le(keys[order@[i] as int], keys[order@[i + 1] as int])
                &&& (text_le(keys[order@[i + 1] as int], keys[order@[i] as int]) ==> order@[i]
                    < order@[i + 1])
            } by {
                if i < j - 1 {
                    assert(order@[i] == before[i] && order@[i + 1] == before[i + 1]);
                    assert(0 <= i < before.len() - 1);
                } else if i == j - 1 {
                    assert(order@[i] == before[i] && order@[i + 1] == m);
                    assert(before[i] < m);
                } else if i == j {
                    assert(order@[i] == m && order@[i + 1] == before[i]);
                    assert(!text_le(keys[before[i] as int], keys[m as int]));
                    assert(text_le(keys[m as int], keys[before[i] as int]));
                } else {
                    assert(order@[i] == before[i - 1] && order@[i + 1] == before[i]);
                    let i1 = i - 1;
                    assert(order@[i] == before[i1] && order@[i + 1] == before[i1 + 1]);
                    assert(0 <= i1 < before.len() - 1);
                }
            }
            assert forall|a: int, b: int|
                0 <= a < b < order@.len() implies (#[trigger] order@[a]) != (#[trigger] order@[b]) by {
                if a < j && b < j {
                    assert(order@[a] == before[a] && order@[b] == before[b]);
                } else if a < j && b == j {
                    assert(order@[a] == before[a]);
                } else if a < j {
                    assert(order@[a] == before[a] && order@[b] == before[b - 1]);
                } else if a == j {
                    assert(order@[b] == before[b - 1]);
                } else {
                    assert(order@[a] == before[a - 1] && order@[b] == before[b - 1]);
                }
            }
            assert forall|i: int| 0 <= i < order@.len() implies (#[trigger] order@[i]) < m + 1 by {
                if i < j {
                    assert(order@[i] == before[i]);
                } else if i > j {
                    assert(order@[i] == before[i - 1]);
                }
            }
        }
    }
    order
}

/// `i` is the first position in `order` whose account has the address
/// `email`.
pub open spec fn is_first_listed(
    keys: Seq<Seq<char>>,
    order: Seq<usize>,
    email: Seq<char>,
    i: int,
) -> bool {
    &&& 0 <= i < order.len()
    &&& keys[order[i] as int] == email
    &&& forall|j: int| 0 <= j < i ==> keys[(#[trigger] order[j]) as int] != email
}

/// Where the selected account stands in the listed order: the first listed
/// account with its address; none when no account is selected or none has
/// the address.
pub fn selected_index(emails: &Vec<String>, order: &Vec<usize>, selected: Option<&String>) -> (r:
    Option<usize>)
    requires
        forall|j: int| 0 <= j < order@.len() ==> (#[trigger] order@[j]) < emails@.len(),
    ensures
        match selected {
            None => r is None,
            Some(e) => match r {
                Some(i) => is_first_listed(email_texts(emails@), order@, e@, i as int),
                None => forall|j: int|
                    0 <= j < order@.len() ==> email_texts(emails@)[(#[trigger] order@[j]) as int]
                        != e@,
            },
        },
{
    let ghost keys = email_texts(emails@);
    match selected {
        None => None,
        Some(e) => {
            let n = order.len();
            for i in 0..n
                invariant
                    n == order@.len(),
                    keys == email_texts(emails@),
                    forall|j: int| 0 <= j < order@.len() ==> (#[trigger] order@[j]) < emails@.len(),
                    selected == Some(e),
                    forall|j: int| 0 <= j < i ==> keys[(#[trigger] order@[j]) as int] != e@,
            {
                let k = order[i];
                assert(keys[k as int] == emails@[k as int]@);
                if emails[k] == *e {
                    return Some(i);
                }
            }
            None
        },
    }
}

} // verus!
